//! A realm: one global scope of the engine, with the host-backed classes and
//! functions that were installed into it.

use vstd::prelude::*;
use crate::eserror::EsError;
use crate::esvalue::EsValueFacade;
use crate::nametable::{distinct, lemma_position, lemma_position_push, names_view, position, position_of};
use crate::reflection::{
    call_outcome, callable, callback_spec, specs_view, BoxedCallback, CallbackSpec, Proxy, ProxyView,
};
use crate::table::{item_at, len_of, push_item, set_item};

verus! {

/// A realm as a mathematical value.
pub struct QuickJsContextView {
    pub id: u64,
    /// The installed classes, in the order of their first installation.
    pub classes: Seq<ProxyView>,
    /// For each class, whether it is in the global scope.
    pub globals: Seq<bool>,
    /// The names of the native functions, in the order of their registration.
    pub functions: Seq<Seq<char>>,
    /// For each native function, what it may give.
    pub function_specs: Seq<CallbackSpec>,
}

impl QuickJsContextView {
    /// The names of the installed classes.
    pub open spec fn class_names(self) -> Seq<Seq<char>> {
        Seq::new(self.classes.len(), |i: int| self.classes[i].name->0)
    }

    /// Every class has a name and its methods are in order, no two classes
    /// share a name, each class is either global or not, and every function
    /// has its callback.
    pub open spec fn wf(self) -> bool {
        &&& self.globals.len() == self.classes.len()
        &&& self.functions.len() == self.function_specs.len()
        &&& forall|i: int| 0 <= i < self.classes.len() ==> (#[trigger] self.classes[i]).name is Some
        &&& forall|i: int| 0 <= i < self.classes.len() ==> (#[trigger] self.classes[i]).wf()
        &&& distinct(self.class_names())
    }

    /// A realm with nothing installed.
    pub open spec fn empty(id: u64) -> Self {
        QuickJsContextView {
            id,
            classes: Seq::empty(),
            globals: Seq::empty(),
            functions: Seq::empty(),
            function_specs: Seq::empty(),
        }
    }

    /// Where a class with this description is put: a class without a name
    /// nowhere, a class whose name is known in the place of that class, any
    /// other at the end.
    pub open spec fn place_for(self, class: ProxyView) -> Option<usize> {
        match class.name {
            None => None,
            Some(n) => match position(self.class_names(), n) {
                Some(i) => Some(i as usize),
                None => Some(self.classes.len() as usize),
            },
        }
    }

    /// The realm after `class` was installed.
    pub open spec fn with_class(self, class: ProxyView, global: bool) -> Self {
        match class.name {
            None => self,
            Some(n) => match position(self.class_names(), n) {
                Some(i) => QuickJsContextView {
                    classes: self.classes.update(i, class),
                    globals: self.globals.update(i, global),
                    ..self
                },
                None => QuickJsContextView {
                    classes: self.classes.push(class),
                    globals: self.globals.push(global),
                    ..self
                },
            },
        }
    }

    /// The realm after a function `name` that gives `spec` was registered.
    pub open spec fn with_function(self, name: Seq<char>, spec: CallbackSpec) -> Self {
        QuickJsContextView {
            functions: self.functions.push(name),
            function_specs: self.function_specs.push(spec),
            ..self
        }
    }

    /// The class of that name, if it is installed.
    pub open spec fn class(self, name: Seq<char>) -> Option<ProxyView> {
        match position(self.class_names(), name) {
            Some(i) => Some(self.classes[i]),
            None => None,
        }
    }

    /// What the static method `method` of the class `class` may give, if
    /// there is such a class with such a method.
    pub open spec fn static_spec(self, class: Seq<char>, method: Seq<char>) -> Option<CallbackSpec> {
        match self.class(class) {
            Some(c) => c.static_spec(method),
            None => None,
        }
    }

    /// What the instance method `method` of the class `class` may give, if
    /// there is such a class with such a method.
    pub open spec fn method_spec(self, class: Seq<char>, method: Seq<char>) -> Option<CallbackSpec> {
        match self.class(class) {
            Some(c) => c.method_spec(method),
            None => None,
        }
    }

    /// What the constructor of the class `class` may give, if there is such
    /// a class and it has a constructor.
    pub open spec fn constructor_spec(self, class: Seq<char>) -> Option<CallbackSpec> {
        match self.class(class) {
            Some(c) => c.constructor,
            None => None,
        }
    }

    /// What the function with the number `id` may give, if there is one.
    pub open spec fn function_spec(self, id: usize) -> Option<CallbackSpec> {
        if id < self.function_specs.len() {
            Some(self.function_specs[id as int])
        } else {
            None
        }
    }
}

/// One realm of the engine.
pub struct QuickJsContext {
    id: u64,
    class_names: Vec<String>,
    classes: Vec<Proxy>,
    class_global: Vec<bool>,
    function_names: Vec<String>,
    functions: Vec<BoxedCallback>,
}

impl View for QuickJsContext {
    type V = QuickJsContextView;

    closed spec fn view(&self) -> QuickJsContextView {
        QuickJsContextView {
            id: self.id,
            classes: Seq::new(self.classes@.len(), |i: int| self.classes@[i]@),
            globals: self.class_global@,
            functions: names_view(self.function_names@),
            function_specs: specs_view(self.functions@),
        }
    }
}

impl QuickJsContext {
    /// The table of names holds the names of the classes, and the view is in
    /// order, see [`QuickJsContextView::wf`].
    pub closed spec fn wf(&self) -> bool {
        &&& self.class_names@.len() == self.classes@.len()
        &&& forall|i: int|
            0 <= i < self.classes@.len() ==> (#[trigger] self.classes@[i])@.name == Some(
                self.class_names@[i]@,
            )
        &&& self@.wf()
    }

    /// A realm that is in order has a view that is in order.
    pub proof fn lemma_view_wf(&self)
        requires
            self.wf(),
        ensures
            self@.wf(),
    {
    }

    /// What the table of names holds is what the view calls the names of the
    /// classes.
    proof fn lemma_class_names(&self)
        requires
            self.wf(),
        ensures
            names_view(self.class_names@) == self@.class_names(),
    {
        assert(names_view(self.class_names@) =~= self@.class_names());
    }

    /// A realm with nothing installed.
    pub fn new(id: u64) -> (c: Self)
        ensures
            c.wf(),
            c@ == QuickJsContextView::empty(id),
    {
        let c = QuickJsContext {
            id,
            class_names: Vec::new(),
            classes: Vec::new(),
            class_global: Vec::new(),
            function_names: Vec::new(),
            functions: Vec::new(),
        };
        assert(c@.classes =~= Seq::empty());
        assert(c@.globals =~= Seq::empty());
        assert(c@.functions =~= Seq::empty());
        assert(c@.function_specs =~= Seq::empty());
        c
    }

    /// The identity of the realm.
    pub fn id(&self) -> (id: u64)
        ensures
            id == self@.id,
    {
        self.id
    }

    /// Installs a class. A class without a name is not installed. A class
    /// whose name is already known replaces the class of that name; any other
    /// is added after those that are there. The result is the place of the
    /// class.
    pub fn install_proxy(&mut self, proxy: Proxy, global: bool) -> (r: Option<usize>)
        requires
            old(self).wf(),
            proxy.wf(),
        ensures
            final(self).wf(),
            final(self)@ == old(self)@.with_class(proxy@, global),
            r == old(self)@.place_for(proxy@),
    {
        proof {
            self.lemma_class_names();
        }
        let ghost before = self@;
        let ghost class = proxy@;
        let ghost old_classes = self.classes@;
        let ghost old_names = self.class_names@;
        let name: String = match proxy.get_name() {
            Some(n) => n.to_owned(),
            None => {
                return None;
            },
        };
        match position_of(&self.class_names, name.as_str()) {
            Some(i) => {
                proof {
                    lemma_position(before.class_names(), name@);
                }
                set_item(&mut self.classes, i, proxy);
                self.class_global.set(i, global);
                proof {
                    assert(self@.classes =~= before.classes.update(i as int, class));
                    assert(self@.class_names() =~= before.class_names());
                    assert forall|k: int| 0 <= k < self.classes@.len() implies (
                    #[trigger] self.classes@[k])@.name == Some(self.class_names@[k]@) by {
                        if k != i {
                            assert(self.classes@[k] == old_classes[k]);
                        }
                    }
                    assert forall|k: int| 0 <= k < self@.classes.len() implies (
                    #[trigger] self@.classes[k]).name is Some && self@.classes[k].wf() by {
                        if k != i {
                            assert(self@.classes[k] == before.classes[k]);
                        }
                    }
                }
                Some(i)
            },
            None => {
                let at = len_of(&self.classes);
                self.class_names.push(name);
                push_item(&mut self.classes, proxy);
                self.class_global.push(global);
                proof {
                    lemma_position_push(before.class_names(), name@, name@);
                    assert(self@.classes =~= before.classes.push(class));
                    assert(self@.class_names() =~= before.class_names().push(name@));
                    assert forall|k: int| 0 <= k < self.classes@.len() implies (
                    #[trigger] self.classes@[k])@.name == Some(self.class_names@[k]@) by {
                        if k != at {
                            assert(self.classes@[k] == old_classes[k]);
                            assert(self.class_names@[k] == old_names[k]);
                        }
                    }
                    assert forall|k: int| 0 <= k < self@.classes.len() implies (
                    #[trigger] self@.classes[k]).name is Some && self@.classes[k].wf() by {
                        if k != at {
                            assert(self@.classes[k] == before.classes[k]);
                        }
                    }
                }
                Some(at)
            },
        }
    }

    /// Whether a class of that name is installed.
    pub fn has_class(&self, name: &str) -> (r: bool)
        requires
            self.wf(),
        ensures
            r == (self@.class(name@) is Some),
    {
        proof {
            self.lemma_class_names();
        }
        position_of(&self.class_names, name).is_some()
    }

    /// Whether the class of that name is in the global scope; `None` if no
    /// such class is installed.
    pub fn is_global(&self, name: &str) -> (r: Option<bool>)
        requires
            self.wf(),
        ensures
            r == (match position(self@.class_names(), name@) {
                Some(i) => Some(self@.globals[i]),
                None => None,
            }),
    {
        proof {
            self.lemma_class_names();
            lemma_position(self@.class_names(), name@);
        }
        match position_of(&self.class_names, name) {
            Some(i) => Some(self.class_global[i]),
            None => None,
        }
    }

    /// Calls the static method `method` of the class `class`. The result is
    /// `None`, and nothing is called, unless the class is installed and has
    /// such a method; otherwise it is what the callback of that method gave.
    pub fn invoke_static(
        &self,
        class: &str,
        method: &str,
        this: &EsValueFacade,
        args: &Vec<EsValueFacade>,
    ) -> (r: Option<Result<EsValueFacade, EsError>>)
        requires
            self.wf(),
        ensures
            call_outcome(self@.static_spec(class@, method@), self@.id, *this, *args, r),
    {
        proof {
            self.lemma_class_names();
            lemma_position(self@.class_names(), class@);
        }
        match position_of(&self.class_names, class) {
            Some(i) => {
                assert(self@.classes[i as int].wf());
                item_at(&self.classes, i).invoke_static(self.id, method, this, args)
            },
            None => None,
        }
    }

    /// Calls the instance method `method` of the class `class` on `this`. The
    /// result is `None`, and nothing is called, unless the class is installed
    /// and has such a method; otherwise it is what the callback of that
    /// method gave.
    pub fn invoke_method(
        &self,
        class: &str,
        method: &str,
        this: &EsValueFacade,
        args: &Vec<EsValueFacade>,
    ) -> (r: Option<Result<EsValueFacade, EsError>>)
        requires
            self.wf(),
        ensures
            call_outcome(self@.method_spec(class@, method@), self@.id, *this, *args, r),
    {
        proof {
            self.lemma_class_names();
            lemma_position(self@.class_names(), class@);
        }
        match position_of(&self.class_names, class) {
            Some(i) => {
                assert(self@.classes[i as int].wf());
                item_at(&self.classes, i).invoke_method(self.id, method, this, args)
            },
            None => None,
        }
    }

    /// Calls the constructor of the class `class`. The result is `None`, and
    /// nothing is called, unless the class is installed and has a
    /// constructor; otherwise it is what the constructor gave.
    pub fn construct(&self, class: &str, this: &EsValueFacade, args: &Vec<EsValueFacade>) -> (r: Option<
        Result<EsValueFacade, EsError>,
    >)
        requires
            self.wf(),
        ensures
            call_outcome(self@.constructor_spec(class@), self@.id, *this, *args, r),
    {
        proof {
            self.lemma_class_names();
            lemma_position(self@.class_names(), class@);
        }
        match position_of(&self.class_names, class) {
            Some(i) => item_at(&self.classes, i).construct(self.id, this, args),
            None => None,
        }
    }

    /// Registers a native function under `name` and returns its number.
    /// Numbers count up from zero; names need not differ.
    pub fn add_function<F>(&mut self, name: &str, function: F) -> (id: usize) where
        F: Fn(u64, &EsValueFacade, &Vec<EsValueFacade>) -> Result<
            EsValueFacade,
            EsError,
        > + Send + 'static,

        requires
            old(self).wf(),
            callable(function),
        ensures
            final(self).wf(),
            id == old(self)@.functions.len(),
            final(self)@ == old(self)@.with_function(name@, callback_spec(function)),
            final(self)@.function_spec(id) == Some(callback_spec(function)),
    {
        let ghost before = self@;
        let id = len_of(&self.functions);
        self.function_names.push(name.to_owned());
        push_item(&mut self.functions, BoxedCallback::new(function));
        proof {
            assert(self@.functions =~= before.functions.push(name@));
            assert(self@.function_specs =~= before.function_specs.push(callback_spec(function)));
            assert(self@.classes =~= before.classes);
        }
        id
    }

    /// Calls the native function with the number `id`. The result is `None`,
    /// and nothing is called, if there is no such function; otherwise it is
    /// what the function gave.
    pub fn call_function(&self, id: usize, this: &EsValueFacade, args: &Vec<EsValueFacade>) -> (r: Option<
        Result<EsValueFacade, EsError>,
    >)
        requires
            self.wf(),
        ensures
            call_outcome(self@.function_spec(id), self@.id, *this, *args, r),
    {
        if id < len_of(&self.functions) {
            Some(item_at(&self.functions, id).call(self.id, this, args))
        } else {
            None
        }
    }
}

/// A static method that was set on a class and installed with it is the
/// method that a call reaches: the call is made, and its result is one that
/// the callback set last under that name may give.
pub proof fn lemma_installed_static_method_is_called(
    realm: QuickJsContextView,
    class: ProxyView,
    global: bool,
    method: Seq<char>,
    spec: CallbackSpec,
)
    requires
        realm.wf(),
        class.wf(),
        class.name is Some,
        class.static_spec(method) == Some(spec),
    ensures
        realm.with_class(class, global).wf(),
        realm.with_class(class, global).static_spec(class.name->0, method) == Some(spec),
{
    let name = class.name->0;
    let after = realm.with_class(class, global);
    lemma_position(realm.class_names(), name);
    match position(realm.class_names(), name) {
        Some(i) => {
            assert(after.class_names() =~= realm.class_names());
            assert forall|k: int| 0 <= k < after.classes.len() implies (
            #[trigger] after.classes[k]).name is Some && after.classes[k].wf() by {
                if k != i {
                    assert(after.classes[k] == realm.classes[k]);
                }
            }
        },
        None => {
            lemma_position_push(realm.class_names(), name, name);
            assert(after.class_names() =~= realm.class_names().push(name));
            assert forall|k: int| 0 <= k < after.classes.len() implies (
            #[trigger] after.classes[k]).name is Some && after.classes[k].wf() by {
                if k != realm.classes.len() {
                    assert(after.classes[k] == realm.classes[k]);
                }
            }
        },
    }
    lemma_position(after.class_names(), name);
}

} // verus!
