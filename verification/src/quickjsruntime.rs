//! Worker-side values: what the engine hands out, as far as the runtime reads it.
//!
//! The engine keeps a value in two words, a tag and a payload whose meaning the
//! tag selects. The runtime only ever looks at these two words, so it keeps them
//! as plain data; whoever talks to the engine converts at that border.

use vstd::prelude::*;

verus! {

/// Tag of an arbitrary-precision integer (a heap reference).
pub const TAG_BIG_INT: i64 = -10;

/// Tag of a string (a heap reference).
pub const TAG_STRING: i64 = -7;

/// Tag of a compiled module (a heap reference).
pub const TAG_MODULE: i64 = -3;

/// Tag of an object, array or function (a heap reference).
pub const TAG_OBJECT: i64 = -1;

/// Tag of a 32-bit integer.
pub const TAG_INT: i64 = 0;

/// Tag of a boolean.
pub const TAG_BOOL: i64 = 1;

/// Tag of `null`.
pub const TAG_NULL: i64 = 2;

/// Tag of `undefined`.
pub const TAG_UNDEFINED: i64 = 3;

/// Tag of the marker that an exception is pending.
pub const TAG_EXCEPTION: i64 = 6;

/// Tag of a 64-bit float.
pub const TAG_FLOAT64: i64 = 7;

/// The payload word of a value. Which member is meant follows from the tag.
#[derive(Clone, Copy, Debug, PartialEq, Eq, Structural)]
pub enum JsValueUnion {
    /// A 32-bit integer; booleans keep 0 or 1 here, `null` and `undefined` 0.
    Int32(i32),
    /// The bit pattern of a 64-bit float.
    Float64(u64),
    /// The address of a reference-counted heap cell.
    Ptr(u64),
}

/// One value of the engine: payload and tag.
#[derive(Clone, Copy, Debug, PartialEq, Eq, Structural)]
pub struct JsValue {
    pub u: JsValueUnion,
    pub tag: i64,
}

impl JsValue {
    /// Whether the tag denotes a reference into the engine's heap.
    pub open spec fn is_heap_tag(tag: i64) -> bool {
        tag < 0
    }

    /// The payload is the member that the tag selects: an address under a
    /// heap tag, float bits under the float tag, an integer otherwise.
    pub open spec fn wf(self) -> bool {
        match self.u {
            JsValueUnion::Ptr(_) => Self::is_heap_tag(self.tag),
            JsValueUnion::Float64(_) => self.tag == TAG_FLOAT64,
            JsValueUnion::Int32(_) => !Self::is_heap_tag(self.tag) && self.tag != TAG_FLOAT64,
        }
    }

    /// Checks that the payload is the member that the tag selects.
    pub fn is_well_formed(&self) -> (r: bool)
        ensures
            r == self.wf(),
    {
        match self.u {
            JsValueUnion::Ptr(_) => self.tag < 0,
            JsValueUnion::Float64(_) => self.tag == TAG_FLOAT64,
            JsValueUnion::Int32(_) => self.tag >= 0 && self.tag != TAG_FLOAT64,
        }
    }

    /// Whether the value lives in the engine's heap and is reference counted.
    pub fn is_heap_ref(&self) -> (r: bool)
        ensures
            r == Self::is_heap_tag(self.tag),
    {
        self.tag < 0
    }
}

/// A value that the worker holds on behalf of the engine.
#[derive(Clone, Copy, Debug, PartialEq, Eq, Structural)]
pub struct OwnedValueRef {
    pub value: JsValue,
}

impl OwnedValueRef {
    /// Takes charge of an engine value.
    pub fn new(value: JsValue) -> (r: Self)
        ensures
            r.value == value,
    {
        OwnedValueRef { value }
    }

    /// The tag and payload agree, see [`JsValue::wf`].
    pub open spec fn wf(self) -> bool {
        self.value.wf()
    }
}

} // verus!
