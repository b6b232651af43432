//! Host-backed classes for script.
//!
//! A proxy is the description of one class: its name, its constructor, its
//! static methods and its instance methods, each backed by a native callback.
//! It is put together step by step and then installed into a realm, which owns
//! it from then on.

use vstd::prelude::*;
use crate::eserror::EsError;
use crate::esvalue::EsValueFacade;
use crate::nametable::{distinct, lemma_position, lemma_position_push, names_view, position, position_of};
use crate::quickjscontext::QuickJsContext;
use crate::table::{item_at, push_item, set_item};

verus! {

/// What a native callback may give for which call: whether the last argument
/// is a possible result of a call in the realm with that identity, with that
/// `this` and those arguments.
pub type CallbackSpec = spec_fn(u64, EsValueFacade, Vec<EsValueFacade>, Result<EsValueFacade, EsError>) -> bool;

/// A native function that script can call. It gets the identity of the realm, the
/// `this` value of the call site and the arguments, and gives a value or a
/// typed error. It runs on the worker thread only.
pub trait NativeCallback: Send {
    /// Whether `r` is a possible result of the call.
    spec fn gives(
        &self,
        realm: u64,
        this: &EsValueFacade,
        args: &Vec<EsValueFacade>,
        r: Result<EsValueFacade, EsError>,
    ) -> bool;

    fn call(&self, realm: u64, this: &EsValueFacade, args: &Vec<EsValueFacade>) -> (r: Result<
        EsValueFacade,
        EsError,
    >)
        ensures
            self.gives(realm, this, args, r),
    ;
}

/// A closure as a native callback.
pub struct FnCallback<F>(F) where
    F: Fn(u64, &EsValueFacade, &Vec<EsValueFacade>) -> Result<EsValueFacade, EsError>
        + Send,
;

/// The closure can be called in every realm, with every `this` and arguments.
pub open spec fn callable<F>(f: F) -> bool where
    F: Fn(u64, &EsValueFacade, &Vec<EsValueFacade>) -> Result<EsValueFacade, EsError>
        + Send,
 {
    forall|realm: u64, this: &EsValueFacade, args: &Vec<EsValueFacade>|
        call_requires(f, (realm, this, args))
}

/// What the closure may give for which call.
pub open spec fn callback_spec<F>(f: F) -> CallbackSpec where
    F: Fn(u64, &EsValueFacade, &Vec<EsValueFacade>) -> Result<EsValueFacade, EsError>
        + Send,
 {
    |realm: u64, this: EsValueFacade, args: Vec<EsValueFacade>, r: Result<EsValueFacade, EsError>|
        call_ensures(f, (realm, &this, &args), r)
}

impl<F> FnCallback<F> where
    F: Fn(u64, &EsValueFacade, &Vec<EsValueFacade>) -> Result<EsValueFacade, EsError>
        + Send,
 {
    #[verifier::type_invariant]
    spec fn inv(self) -> bool {
        callable(self.0)
    }

    /// The closure inside.
    pub closed spec fn closure(&self) -> F {
        self.0
    }

    /// Wraps a closure that accepts every call.
    pub fn new(f: F) -> (c: Self)
        requires
            callable(f),
        ensures
            c.closure() == f,
    {
        FnCallback(f)
    }
}

impl<F> NativeCallback for FnCallback<F> where
    F: Fn(u64, &EsValueFacade, &Vec<EsValueFacade>) -> Result<EsValueFacade, EsError>
        + Send,
 {
    open spec fn gives(
        &self,
        realm: u64,
        this: &EsValueFacade,
        args: &Vec<EsValueFacade>,
        r: Result<EsValueFacade, EsError>,
    ) -> bool {
        call_ensures(self.closure(), (realm, this, args), r)
    }

    fn call(&self, realm: u64, this: &EsValueFacade, args: &Vec<EsValueFacade>) -> (r: Result<
        EsValueFacade,
        EsError,
    >) {
        proof {
            use_type_invariant(self);
        }
        (self.0)(realm, this, args)
    }
}

/// A native callback of any kind, boxed so that callbacks of different kinds
/// fit into one table.
pub struct BoxedCallback {
    inner: Box<dyn NativeCallback>,
}

impl BoxedCallback {
    /// What the callback may give for which call.
    pub closed spec fn spec(&self) -> CallbackSpec {
        |realm: u64, this: EsValueFacade, args: Vec<EsValueFacade>, r: Result<EsValueFacade, EsError>|
            self.inner.gives(realm, &this, &args, r)
    }

    /// Boxes a closure that accepts every call.
    pub fn new<F>(f: F) -> (c: Self) where
        F: Fn(u64, &EsValueFacade, &Vec<EsValueFacade>) -> Result<EsValueFacade, EsError>
            + Send + 'static,

        requires
            callable(f),
        ensures
            c.spec() == callback_spec(f),
    {
        let c = BoxedCallback { inner: Box::new(FnCallback::new(f)) };
        assert(c.spec() =~= callback_spec(f));
        c
    }

    /// Calls the callback.
    pub fn call(&self, realm: u64, this: &EsValueFacade, args: &Vec<EsValueFacade>) -> (r: Result<
        EsValueFacade,
        EsError,
    >)
        ensures
            (self.spec())(realm, *this, *args, r),
    {
        self.inner.call(realm, this, args)
    }
}

/// What each callback of a table may give.
pub open spec fn specs_view(callbacks: Seq<BoxedCallback>) -> Seq<CallbackSpec> {
    Seq::new(callbacks.len(), |i: int| callbacks[i].spec())
}

/// What one call gave or whether it was made at all, held against what the
/// callback, if there is one, may give.
pub open spec fn call_outcome(
    callback: Option<CallbackSpec>,
    realm: u64,
    this: EsValueFacade,
    args: Vec<EsValueFacade>,
    r: Option<Result<EsValueFacade, EsError>>,
) -> bool {
    match callback {
        Some(spec) => r matches Some(result) && spec(realm, this, args, result),
        None => r is None,
    }
}

/// A class description as a mathematical value: the names of the methods and,
/// for each callback, what it may give.
pub struct ProxyView {
    pub name: Option<Seq<char>>,
    pub constructor: Option<CallbackSpec>,
    pub static_methods: Seq<Seq<char>>,
    pub static_specs: Seq<CallbackSpec>,
    pub methods: Seq<Seq<char>>,
    pub method_specs: Seq<CallbackSpec>,
}

impl ProxyView {
    /// A description without anything in it.
    pub open spec fn empty() -> Self {
        ProxyView {
            name: None,
            constructor: None,
            static_methods: Seq::empty(),
            static_specs: Seq::empty(),
            methods: Seq::empty(),
            method_specs: Seq::empty(),
        }
    }

    /// Every method has its callback, and no method name occurs twice among
    /// the static methods, nor among the instance methods.
    pub open spec fn wf(self) -> bool {
        &&& self.static_methods.len() == self.static_specs.len()
        &&& self.methods.len() == self.method_specs.len()
        &&& distinct(self.static_methods)
        &&& distinct(self.methods)
    }

    /// The list of names after a method `name` was set: a new name goes to the
    /// end, a known one keeps its place.
    pub open spec fn with_name(names: Seq<Seq<char>>, name: Seq<char>) -> Seq<Seq<char>> {
        if position(names, name) is Some {
            names
        } else {
            names.push(name)
        }
    }

    /// The list of callbacks after the method `name` was set to a callback
    /// that gives `spec`.
    pub open spec fn with_spec(
        names: Seq<Seq<char>>,
        specs: Seq<CallbackSpec>,
        name: Seq<char>,
        spec: CallbackSpec,
    ) -> Seq<CallbackSpec> {
        match position(names, name) {
            Some(i) => specs.update(i, spec),
            None => specs.push(spec),
        }
    }

    /// What the static method `name` may give, if there is such a method.
    pub open spec fn static_spec(self, name: Seq<char>) -> Option<CallbackSpec> {
        match position(self.static_methods, name) {
            Some(i) => Some(self.static_specs[i]),
            None => None,
        }
    }

    /// What the instance method `name` may give, if there is such a method.
    pub open spec fn method_spec(self, name: Seq<char>) -> Option<CallbackSpec> {
        match position(self.methods, name) {
            Some(i) => Some(self.method_specs[i]),
            None => None,
        }
    }
}

/// The description of a host-backed class.
pub struct Proxy {
    name: Option<String>,
    constructor: Option<BoxedCallback>,
    static_names: Vec<String>,
    static_callbacks: Vec<BoxedCallback>,
    method_names: Vec<String>,
    method_callbacks: Vec<BoxedCallback>,
}

impl View for Proxy {
    type V = ProxyView;

    closed spec fn view(&self) -> ProxyView {
        ProxyView {
            name: match self.name {
                Some(n) => Some(n@),
                None => None,
            },
            constructor: match self.constructor {
                Some(c) => Some(c.spec()),
                None => None,
            },
            static_methods: names_view(self.static_names@),
            static_specs: specs_view(self.static_callbacks@),
            methods: names_view(self.method_names@),
            method_specs: specs_view(self.method_callbacks@),
        }
    }
}

/// Sets the callback of `name` in a table of names and callbacks.
fn set_callback(
    names: &mut Vec<String>,
    callbacks: &mut Vec<BoxedCallback>,
    name: &str,
    callback: BoxedCallback,
)
    requires
        old(names)@.len() == old(callbacks)@.len(),
        distinct(names_view(old(names)@)),
    ensures
        final(names)@.len() == final(callbacks)@.len(),
        distinct(names_view(final(names)@)),
        names_view(final(names)@) == ProxyView::with_name(names_view(old(names)@), name@),
        specs_view(final(callbacks)@) == ProxyView::with_spec(
            names_view(old(names)@),
            specs_view(old(callbacks)@),
            name@,
            callback.spec(),
        ),
{
    let ghost before = names_view(names@);
    let ghost specs = specs_view(callbacks@);
    let ghost spec = callback.spec();
    match position_of(names, name) {
        Some(i) => {
            proof {
                lemma_position(before, name@);
            }
            set_item(callbacks, i, callback);
            proof {
                assert(specs_view(callbacks@) =~= specs.update(i as int, spec));
            }
        },
        None => {
            let owned: String = name.to_owned();
            names.push(owned);
            push_item(callbacks, callback);
            proof {
                lemma_position_push(before, name@, name@);
                assert(names_view(names@) =~= before.push(name@));
                assert(specs_view(callbacks@) =~= specs.push(spec));
            }
        },
    }
}

impl Proxy {
    /// The description is in order, see [`ProxyView::wf`].
    pub open spec fn wf(&self) -> bool {
        self@.wf()
    }

    /// An empty description.
    pub fn new() -> (p: Self)
        ensures
            p.wf(),
            p@ == ProxyView::empty(),
    {
        let p = Proxy {
            name: None,
            constructor: None,
            static_names: Vec::new(),
            static_callbacks: Vec::new(),
            method_names: Vec::new(),
            method_callbacks: Vec::new(),
        };
        assert(p@.static_methods =~= Seq::empty());
        assert(p@.static_specs =~= Seq::empty());
        assert(p@.methods =~= Seq::empty());
        assert(p@.method_specs =~= Seq::empty());
        p
    }

    /// Sets the name of the class.
    pub fn name(self, name: &str) -> (p: Self)
        ensures
            p@ == (ProxyView { name: Some(name@), ..self@ }),
    {
        let mut p = self;
        p.name = Some(name.to_owned());
        p
    }

    /// Sets the constructor of the class.
    pub fn constructor<F>(self, constructor: F) -> (p: Self) where
        F: Fn(u64, &EsValueFacade, &Vec<EsValueFacade>) -> Result<
            EsValueFacade,
            EsError,
        > + Send + 'static,

        requires
            callable(constructor),
        ensures
            p@ == (ProxyView { constructor: Some(callback_spec(constructor)), ..self@ }),
    {
        let mut p = self;
        p.constructor = Some(BoxedCallback::new(constructor));
        p
    }

    /// Sets the static method `name`. A method set before under that name is
    /// replaced.
    pub fn static_method<F>(self, name: &str, method: F) -> (p: Self) where
        F: Fn(u64, &EsValueFacade, &Vec<EsValueFacade>) -> Result<
            EsValueFacade,
            EsError,
        > + Send + 'static,

        requires
            self.wf(),
            callable(method),
        ensures
            p.wf(),
            p@ == (ProxyView {
                static_methods: ProxyView::with_name(self@.static_methods, name@),
                static_specs: ProxyView::with_spec(
                    self@.static_methods,
                    self@.static_specs,
                    name@,
                    callback_spec(method),
                ),
                ..self@
            }),
            p@.static_spec(name@) == Some(callback_spec(method)),
    {
        let mut p = self;
        set_callback(&mut p.static_names, &mut p.static_callbacks, name, BoxedCallback::new(method));
        proof {
            lemma_position(self@.static_methods, name@);
            lemma_position(p@.static_methods, name@);
        }
        p
    }

    /// Sets the instance method `name`. A method set before under that name is
    /// replaced.
    pub fn method<F>(self, name: &str, method: F) -> (p: Self) where
        F: Fn(u64, &EsValueFacade, &Vec<EsValueFacade>) -> Result<
            EsValueFacade,
            EsError,
        > + Send + 'static,

        requires
            self.wf(),
            callable(method),
        ensures
            p.wf(),
            p@ == (ProxyView {
                methods: ProxyView::with_name(self@.methods, name@),
                method_specs: ProxyView::with_spec(
                    self@.methods,
                    self@.method_specs,
                    name@,
                    callback_spec(method),
                ),
                ..self@
            }),
            p@.method_spec(name@) == Some(callback_spec(method)),
    {
        let mut p = self;
        set_callback(&mut p.method_names, &mut p.method_callbacks, name, BoxedCallback::new(method));
        proof {
            lemma_position(self@.methods, name@);
            lemma_position(p@.methods, name@);
        }
        p
    }

    /// Hands the class to the realm, which owns it from then on. With
    /// `is_module_namespace` the class is meant as a module export and stays
    /// out of the global scope. The result is the place of the class in the
    /// realm, see [`QuickJsContext::install_proxy`]; a description without a
    /// name is not installed.
    pub fn install(self, q_ctx: &mut QuickJsContext, is_module_namespace: bool) -> (r: Option<usize>)
        requires
            self.wf(),
            old(q_ctx).wf(),
        ensures
            final(q_ctx).wf(),
            final(q_ctx)@ == old(q_ctx)@.with_class(self@, !is_module_namespace),
            r == old(q_ctx)@.place_for(self@),
    {
        q_ctx.install_proxy(self, !is_module_namespace)
    }

    /// The name of the class, if one was set.
    pub fn get_name(&self) -> (n: Option<&str>)
        ensures
            match n {
                Some(s) => self@.name == Some(s@),
                None => self@.name is None,
            },
    {
        match &self.name {
            Some(s) => Some(s.as_str()),
            None => None,
        }
    }

    /// Whether the class has a static method of that name.
    pub fn has_static_method(&self, name: &str) -> (r: bool)
        ensures
            r == (self@.static_spec(name@) is Some),
    {
        position_of(&self.static_names, name).is_some()
    }

    /// Whether the class has an instance method of that name.
    pub fn has_method(&self, name: &str) -> (r: bool)
        ensures
            r == (self@.method_spec(name@) is Some),
    {
        position_of(&self.method_names, name).is_some()
    }

    /// Calls the static method `name`. Without such a method nothing is
    /// called and the result is `None`; otherwise it is what the callback of
    /// that method gave.
    pub fn invoke_static(
        &self,
        realm: u64,
        name: &str,
        this: &EsValueFacade,
        args: &Vec<EsValueFacade>,
    ) -> (r: Option<Result<EsValueFacade, EsError>>)
        requires
            self.wf(),
        ensures
            call_outcome(self@.static_spec(name@), realm, *this, *args, r),
    {
        match position_of(&self.static_names, name) {
            Some(i) => {
                proof {
                    lemma_position(names_view(self.static_names@), name@);
                }
                Some(item_at(&self.static_callbacks, i).call(realm, this, args))
            },
            None => None,
        }
    }

    /// Calls the instance method `name` on `this`. Without such a method
    /// nothing is called and the result is `None`; otherwise it is what the
    /// callback of that method gave.
    pub fn invoke_method(
        &self,
        realm: u64,
        name: &str,
        this: &EsValueFacade,
        args: &Vec<EsValueFacade>,
    ) -> (r: Option<Result<EsValueFacade, EsError>>)
        requires
            self.wf(),
        ensures
            call_outcome(self@.method_spec(name@), realm, *this, *args, r),
    {
        match position_of(&self.method_names, name) {
            Some(i) => {
                proof {
                    lemma_position(names_view(self.method_names@), name@);
                }
                Some(item_at(&self.method_callbacks, i).call(realm, this, args))
            },
            None => None,
        }
    }

    /// Calls the constructor. A class without one cannot be constructed: the
    /// result is `None`. Otherwise it is what the constructor gave.
    pub fn construct(&self, realm: u64, this: &EsValueFacade, args: &Vec<EsValueFacade>) -> (r:
        Option<Result<EsValueFacade, EsError>>)
        ensures
            call_outcome(self@.constructor, realm, *this, *args, r),
    {
        match &self.constructor {
            Some(c) => Some(c.call(realm, this, args)),
            None => None,
        }
    }
}

} // verus!
