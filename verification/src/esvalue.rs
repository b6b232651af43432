//! Script values as other threads see them.
//!
//! A facade is either a copy of a primitive, complete in itself, or a handle:
//! the address of a value in the engine's heap together with the realm that the
//! value belongs to. A handle can be held and passed around anywhere, but it is
//! turned back into an engine value only for a job that runs on the worker, and
//! only in its own realm.

use vstd::prelude::*;
use crate::eserror::EsError;
use crate::quickjsruntime::{
    JsValue, JsValueUnion, OwnedValueRef, TAG_BOOL, TAG_FLOAT64, TAG_INT, TAG_NULL, TAG_STRING,
    TAG_UNDEFINED,
};

verus! {

/// Proof of running inside a job on the worker thread. The runtime hands one
/// out with each job and takes it back when the job returns; there is no other
/// way to get one.
pub struct WorkerToken {
    ticket: u64,
}

impl WorkerToken {
    /// The ticket of the job that the token was handed out with.
    pub closed spec fn spec_ticket(&self) -> u64 {
        self.ticket
    }

    /// A token for the job with the given ticket.
    pub(crate) fn issue(ticket: u64) -> (t: Self)
        ensures
            t.spec_ticket() == ticket,
    {
        WorkerToken { ticket }
    }

    /// The ticket of the job that the token was handed out with.
    pub fn ticket(&self) -> (t: u64)
        ensures
            t == self.spec_ticket(),
    {
        self.ticket
    }
}

/// What a handle stands for: a value in the heap of one realm.
pub struct EsValueHandleView {
    pub realm: u64,
    pub value: JsValue,
}

/// An opaque reference to a value in the engine's heap.
#[derive(Debug)]
pub struct EsValueHandle {
    realm: u64,
    value: JsValue,
}

impl View for EsValueHandle {
    type V = EsValueHandleView;

    closed spec fn view(&self) -> EsValueHandleView {
        EsValueHandleView { realm: self.realm, value: self.value }
    }
}

impl EsValueHandle {
    /// The realm that the value belongs to.
    pub fn realm(&self) -> (r: u64)
        ensures
            r == self@.realm,
    {
        self.realm
    }
}

/// A script value in a form that any thread may hold.
#[derive(Debug)]
pub enum EsValueFacade {
    Undefined,
    Null,
    Boolean(bool),
    I32(i32),
    /// A 64-bit float, kept as its bit pattern.
    F64(u64),
    Str(String),
    Handle(EsValueHandle),
}

/// A facade as a mathematical value.
pub enum EsValueView {
    Undefined,
    Null,
    Boolean(bool),
    I32(i32),
    F64(u64),
    Str(Seq<char>),
    Handle(EsValueHandleView),
}

impl View for EsValueFacade {
    type V = EsValueView;

    open spec fn view(&self) -> EsValueView {
        match self {
            EsValueFacade::Undefined => EsValueView::Undefined,
            EsValueFacade::Null => EsValueView::Null,
            EsValueFacade::Boolean(b) => EsValueView::Boolean(*b),
            EsValueFacade::I32(i) => EsValueView::I32(*i),
            EsValueFacade::F64(bits) => EsValueView::F64(*bits),
            EsValueFacade::Str(s) => EsValueView::Str(s@),
            EsValueFacade::Handle(h) => EsValueView::Handle(h@),
        }
    }
}

/// What has to be handed to the engine for one facade.
pub enum JsArg {
    /// The engine value itself.
    Value(OwnedValueRef),
    /// A string that the engine has yet to allocate.
    NewString(String),
}

/// What has to be handed to the engine, as a mathematical value.
pub enum JsArgView {
    Value(JsValue),
    NewString(Seq<char>),
}

impl View for JsArg {
    type V = JsArgView;

    open spec fn view(&self) -> JsArgView {
        match self {
            JsArg::Value(v) => JsArgView::Value(v.value),
            JsArg::NewString(s) => JsArgView::NewString(s@),
        }
    }
}

/// The text of a string value, where the engine was asked for it.
pub open spec fn text_view(text: Option<String>) -> Option<Seq<char>> {
    match text {
        Some(t) => Some(t@),
        None => None,
    }
}

/// The view of a facade, if there is one.
pub open spec fn facade_view(f: Option<EsValueFacade>) -> Option<EsValueView> {
    match f {
        Some(f) => Some(f@),
        None => None,
    }
}

impl EsValueView {
    /// Whether the facade is a copy, complete in itself.
    pub open spec fn is_primitive(self) -> bool {
        !(self is Handle)
    }

    /// The facade of an engine value of the given realm. Primitives are
    /// copied, a string too where its `text` is at hand; every other heap value
    /// becomes a handle. A value that is ill-formed, or whose tag marks no
    /// script value, has no facade.
    pub open spec fn of_js_value(v: JsValue, realm: u64, text: Option<Seq<char>>) -> Option<
        EsValueView,
    > {
        match v.u {
            JsValueUnion::Int32(i) => {
                if v.tag == TAG_UNDEFINED {
                    Some(EsValueView::Undefined)
                } else if v.tag == TAG_NULL {
                    Some(EsValueView::Null)
                } else if v.tag == TAG_BOOL {
                    Some(EsValueView::Boolean(i != 0))
                } else if v.tag == TAG_INT {
                    Some(EsValueView::I32(i))
                } else {
                    None
                }
            },
            JsValueUnion::Float64(bits) => {
                if v.tag == TAG_FLOAT64 {
                    Some(EsValueView::F64(bits))
                } else {
                    None
                }
            },
            JsValueUnion::Ptr(_) => {
                if v.tag == TAG_STRING && text is Some {
                    Some(EsValueView::Str(text->0))
                } else if v.tag < 0 {
                    Some(EsValueView::Handle(EsValueHandleView { realm, value: v }))
                } else {
                    None
                }
            },
        }
    }

    /// What the engine gets for a facade in the realm `target`: primitives are
    /// rebuilt, a handle gives its value back in its own realm and fails in any
    /// other.
    pub open spec fn to_js_arg(self, target: u64) -> Result<JsArgView, EsError> {
        match self {
            EsValueView::Undefined => Ok(
                JsArgView::Value(JsValue { u: JsValueUnion::Int32(0), tag: TAG_UNDEFINED }),
            ),
            EsValueView::Null => Ok(
                JsArgView::Value(JsValue { u: JsValueUnion::Int32(0), tag: TAG_NULL }),
            ),
            EsValueView::Boolean(b) => Ok(
                JsArgView::Value(
                    JsValue { u: JsValueUnion::Int32(if b { 1i32 } else { 0i32 }), tag: TAG_BOOL },
                ),
            ),
            EsValueView::I32(i) => Ok(
                JsArgView::Value(JsValue { u: JsValueUnion::Int32(i), tag: TAG_INT }),
            ),
            EsValueView::F64(bits) => Ok(
                JsArgView::Value(JsValue { u: JsValueUnion::Float64(bits), tag: TAG_FLOAT64 }),
            ),
            EsValueView::Str(s) => Ok(JsArgView::NewString(s)),
            EsValueView::Handle(h) => if h.realm == target {
                Ok(JsArgView::Value(h.value))
            } else {
                Err(EsError::RealmMismatch)
            },
        }
    }
}

/// The view of a conversion's outcome.
pub open spec fn js_arg_view(r: Result<JsArg, EsError>) -> Result<JsArgView, EsError> {
    match r {
        Ok(a) => Ok(a@),
        Err(e) => Err(e),
    }
}

impl EsValueFacade {
    /// The facade of an engine value that belongs to `realm`. For a string the
    /// caller passes the text that the engine gave for it; without the text a
    /// string stays a handle, like every other heap value.
    pub fn from_js_value(value: &OwnedValueRef, realm: u64, text: Option<String>) -> (r: Option<
        EsValueFacade,
    >)
        ensures
            facade_view(r) == EsValueView::of_js_value(value.value, realm, text_view(text)),
    {
        let v = value.value;
        match v.u {
            JsValueUnion::Int32(i) => {
                if v.tag == TAG_UNDEFINED {
                    Some(EsValueFacade::Undefined)
                } else if v.tag == TAG_NULL {
                    Some(EsValueFacade::Null)
                } else if v.tag == TAG_BOOL {
                    Some(EsValueFacade::Boolean(i != 0))
                } else if v.tag == TAG_INT {
                    Some(EsValueFacade::I32(i))
                } else {
                    None
                }
            },
            JsValueUnion::Float64(bits) => {
                if v.tag == TAG_FLOAT64 {
                    Some(EsValueFacade::F64(bits))
                } else {
                    None
                }
            },
            JsValueUnion::Ptr(_) => {
                if v.tag == TAG_STRING && text.is_some() {
                    match text {
                        Some(t) => Some(EsValueFacade::Str(t)),
                        None => None,
                    }
                } else if v.tag < 0 {
                    Some(EsValueFacade::Handle(EsValueHandle { realm, value: v }))
                } else {
                    None
                }
            },
        }
    }

    /// What the engine gets for this facade in the realm `target`. The token
    /// shows that the caller is a job on the worker thread. A handle of another
    /// realm gives `RealmMismatch`; nothing else fails.
    pub fn to_js_value(&self, token: &WorkerToken, target: u64) -> (r: Result<JsArg, EsError>)
        ensures
            js_arg_view(r) == self@.to_js_arg(target),
    {
        match self {
            EsValueFacade::Undefined => Ok(
                JsArg::Value(
                    OwnedValueRef::new(JsValue { u: JsValueUnion::Int32(0), tag: TAG_UNDEFINED }),
                ),
            ),
            EsValueFacade::Null => Ok(
                JsArg::Value(
                    OwnedValueRef::new(JsValue { u: JsValueUnion::Int32(0), tag: TAG_NULL }),
                ),
            ),
            EsValueFacade::Boolean(b) => {
                let i: i32 = if *b {
                    1
                } else {
                    0
                };
                Ok(JsArg::Value(OwnedValueRef::new(JsValue { u: JsValueUnion::Int32(i), tag: TAG_BOOL })))
            },
            EsValueFacade::I32(i) => Ok(
                JsArg::Value(OwnedValueRef::new(JsValue { u: JsValueUnion::Int32(*i), tag: TAG_INT })),
            ),
            EsValueFacade::F64(bits) => Ok(
                JsArg::Value(
                    OwnedValueRef::new(JsValue { u: JsValueUnion::Float64(*bits), tag: TAG_FLOAT64 }),
                ),
            ),
            EsValueFacade::Str(s) => Ok(JsArg::NewString(s.clone())),
            EsValueFacade::Handle(h) => {
                if h.realm == target {
                    Ok(JsArg::Value(OwnedValueRef::new(h.value)))
                } else {
                    Err(EsError::RealmMismatch)
                }
            },
        }
    }

    /// A facade with the same content. For a handle the copy refers to the
    /// same heap value.
    pub fn copy(&self) -> (r: EsValueFacade)
        ensures
            r@ == self@,
    {
        match self {
            EsValueFacade::Undefined => EsValueFacade::Undefined,
            EsValueFacade::Null => EsValueFacade::Null,
            EsValueFacade::Boolean(b) => EsValueFacade::Boolean(*b),
            EsValueFacade::I32(i) => EsValueFacade::I32(*i),
            EsValueFacade::F64(bits) => EsValueFacade::F64(*bits),
            EsValueFacade::Str(s) => EsValueFacade::Str(s.clone()),
            EsValueFacade::Handle(h) => EsValueFacade::Handle(
                EsValueHandle { realm: h.realm, value: h.value },
            ),
        }
    }

    /// Whether the facade is a copy, complete in itself.
    pub fn is_primitive(&self) -> (r: bool)
        ensures
            r == self@.is_primitive(),
    {
        match self {
            EsValueFacade::Handle(_) => false,
            _ => true,
        }
    }

    pub fn is_boolean(&self) -> (r: bool)
        ensures
            r == (self@ is Boolean),
    {
        match self {
            EsValueFacade::Boolean(_) => true,
            _ => false,
        }
    }

    pub fn is_i32(&self) -> (r: bool)
        ensures
            r == (self@ is I32),
    {
        match self {
            EsValueFacade::I32(_) => true,
            _ => false,
        }
    }

    pub fn is_string(&self) -> (r: bool)
        ensures
            r == (self@ is Str),
    {
        match self {
            EsValueFacade::Str(_) => true,
            _ => false,
        }
    }

    /// The boolean that the facade holds, if it holds one.
    pub fn get_boolean(&self) -> (r: Option<bool>)
        ensures
            r == (match self@ {
                EsValueView::Boolean(b) => Some(b),
                _ => None,
            }),
    {
        match self {
            EsValueFacade::Boolean(b) => Some(*b),
            _ => None,
        }
    }

    /// The integer that the facade holds, if it holds one.
    pub fn get_i32(&self) -> (r: Option<i32>)
        ensures
            r == (match self@ {
                EsValueView::I32(i) => Some(i),
                _ => None,
            }),
    {
        match self {
            EsValueFacade::I32(i) => Some(*i),
            _ => None,
        }
    }

    /// The text that the facade holds, if it holds a string.
    pub fn get_str(&self) -> (r: Option<&str>)
        ensures
            match self@ {
                EsValueView::Str(s) => r matches Some(t) && t@ == s,
                _ => r is None,
            },
    {
        match self {
            EsValueFacade::Str(s) => Some(s.as_str()),
            _ => None,
        }
    }
}

/// The view of a facade where there is one, and `undefined` where there is
/// none.
pub open spec fn view_or_undefined(facade: Option<EsValueFacade>) -> EsValueView {
    match facade {
        Some(f) => f@,
        None => EsValueView::Undefined,
    }
}

/// What the caller of an evaluation gets. `threw` says whether script threw,
/// `facade` is the facade of what it returned or threw. The value comes on
/// the side on which the evaluation ended; a value that has no facade is
/// reported as `undefined`.
pub fn eval_outcome(threw: bool, facade: Option<EsValueFacade>) -> (r: Result<
    EsValueFacade,
    EsValueFacade,
>)
    ensures
        match r {
            Ok(v) => !threw && v@ == view_or_undefined(facade),
            Err(v) => threw && v@ == view_or_undefined(facade),
        },
{
    let value = match facade {
        Some(f) => f,
        None => EsValueFacade::Undefined,
    };
    if threw {
        Err(value)
    } else {
        Ok(value)
    }
}

/// A host value that can be handed to script.
pub trait EsValueConvertible: Sized {
    /// The facade that the value becomes.
    spec fn as_facade(self) -> EsValueView;

    /// Turns the value into a facade.
    fn to_es_value_facade(self) -> (f: EsValueFacade)
        ensures
            f@ == self.as_facade(),
    ;
}

impl EsValueConvertible for bool {
    open spec fn as_facade(self) -> EsValueView {
        EsValueView::Boolean(self)
    }

    fn to_es_value_facade(self) -> (f: EsValueFacade) {
        EsValueFacade::Boolean(self)
    }
}

impl EsValueConvertible for i32 {
    open spec fn as_facade(self) -> EsValueView {
        EsValueView::I32(self)
    }

    fn to_es_value_facade(self) -> (f: EsValueFacade) {
        EsValueFacade::I32(self)
    }
}

impl EsValueConvertible for String {
    open spec fn as_facade(self) -> EsValueView {
        EsValueView::Str(self@)
    }

    fn to_es_value_facade(self) -> (f: EsValueFacade) {
        EsValueFacade::Str(self)
    }
}

/// A primitive survives the way into the engine and back unchanged: what the
/// engine gets for it, read again as a facade in any realm, is the same
/// primitive. For a string, the engine value is a new string with that text.
pub proof fn lemma_primitive_round_trip(f: EsValueView, target: u64, realm: u64, addr: u64)
    requires
        f.is_primitive(),
    ensures
        f.to_js_arg(target) is Ok,
        match f.to_js_arg(target)->Ok_0 {
            JsArgView::Value(v) => v.wf() && EsValueView::of_js_value(v, realm, None) == Some(f),
            JsArgView::NewString(s) => EsValueView::of_js_value(
                JsValue { u: JsValueUnion::Ptr(addr), tag: TAG_STRING },
                realm,
                Some(s),
            ) == Some(f),
        },
{
}

/// A handle comes back as the same engine value in its own realm and is
/// refused in every other; a heap value that became a handle is found again
/// unchanged.
pub proof fn lemma_handle_keeps_realm(v: JsValue, realm: u64, target: u64)
    requires
        v.wf(),
        v.tag < 0,
    ensures
        EsValueView::of_js_value(v, realm, None) matches Some(h) && h is Handle && (if target
            == realm {
            h.to_js_arg(target) == Ok::<JsArgView, EsError>(JsArgView::Value(v))
        } else {
            h.to_js_arg(target) == Err::<JsArgView, EsError>(EsError::RealmMismatch)
        }),
{
}

} // verus!
