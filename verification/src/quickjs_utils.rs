//! The two values without content, `null` and `undefined`, and the tests for
//! them and for the mark of a pending exception.

use vstd::prelude::*;
use crate::quickjsruntime::{
    JsValue, JsValueUnion, OwnedValueRef, TAG_EXCEPTION, TAG_NULL, TAG_UNDEFINED,
};

verus! {

/// The value `undefined`.
pub fn new_undefined() -> (r: OwnedValueRef)
    ensures
        r.value.tag == TAG_UNDEFINED,
        r.value.u == JsValueUnion::Int32(0),
        r.wf(),
{
    OwnedValueRef::new(JsValue { u: JsValueUnion::Int32(0), tag: TAG_UNDEFINED })
}

/// The value `null`.
pub fn new_null() -> (r: OwnedValueRef)
    ensures
        r.value.tag == TAG_NULL,
        r.value.u == JsValueUnion::Int32(0),
        r.wf(),
{
    OwnedValueRef::new(JsValue { u: JsValueUnion::Int32(0), tag: TAG_NULL })
}

/// Whether the value is `null`: decided by the tag alone.
pub fn is_null(value_ref: &OwnedValueRef) -> (r: bool)
    ensures
        r == (value_ref.value.tag == TAG_NULL),
{
    value_ref.value.tag == TAG_NULL
}

/// Whether the value is `undefined`: decided by the tag alone.
pub fn is_undefined(value_ref: &OwnedValueRef) -> (r: bool)
    ensures
        r == (value_ref.value.tag == TAG_UNDEFINED),
{
    value_ref.value.tag == TAG_UNDEFINED
}

/// Whether the value is `null` or `undefined`.
pub fn is_null_or_undefined(value_ref: &OwnedValueRef) -> (r: bool)
    ensures
        r == (value_ref.value.tag == TAG_NULL || value_ref.value.tag == TAG_UNDEFINED),
{
    is_null(value_ref) || is_undefined(value_ref)
}

/// Whether the value is the mark that script threw: decided by the tag alone.
pub fn is_exception(value_ref: &OwnedValueRef) -> (r: bool)
    ensures
        r == (value_ref.value.tag == TAG_EXCEPTION),
{
    value_ref.value.tag == TAG_EXCEPTION
}

} // verus!
