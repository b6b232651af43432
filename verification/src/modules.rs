//! How an import is resolved.
//!
//! A native module loader is asked first. If it claims the name, the module is
//! built from what the loader supplies and no source text is involved. If it
//! does not, the script loader is asked for the source; if that knows nothing
//! either, the module is not found.

use vstd::prelude::*;
use crate::eserror::EsError;
use crate::esscript::EsScript;
use crate::nametable::{lemma_position, position};
use crate::quickjs_utils::new_undefined;
use crate::quickjscontext::QuickJsContext;
use crate::quickjsruntime::{JsValue, JsValueUnion, OwnedValueRef, TAG_UNDEFINED};

verus! {

/// Supplies modules whose exports are host values instead of compiled source.
///
/// What a loader may answer is up to the loader: each kind of loader can say
/// it with the relations `claims`, `declares` and `supplies`. A loader that
/// says nothing may answer anything.
pub trait NativeModuleLoader: Send {
    /// Whether `answer` is what the loader may say when asked whether it
    /// provides the module.
    open spec fn claims(&self, q_ctx: &QuickJsContext, module_name: &str, answer: bool) -> bool {
        true
    }

    /// Whether `names` are names that the loader may declare as the exports
    /// of the module.
    open spec fn declares(&self, q_ctx: &QuickJsContext, module_name: &str, names: Vec<&str>) -> bool {
        true
    }

    /// Whether `exports` are values that the loader may supply as the
    /// exports of the module.
    open spec fn supplies(
        &self,
        q_ctx: &QuickJsContext,
        module_name: &str,
        exports: Vec<(&str, OwnedValueRef)>,
    ) -> bool {
        true
    }

    /// Whether the loader provides the module of that name.
    fn has_module(&self, q_ctx: &QuickJsContext, module_name: &str) -> (answer: bool)
        ensures
            self.claims(q_ctx, module_name, answer),
    ;

    /// The names that the module exports.
    fn get_module_export_names(&self, q_ctx: &QuickJsContext, module_name: &str) -> (names: Vec<
        &str,
    >)
        ensures
            self.declares(q_ctx, module_name, names),
    ;

    /// The exported values, each with its name.
    fn get_module_exports(&self, q_ctx: &QuickJsContext, module_name: &str) -> (exports: Vec<
        (&str, OwnedValueRef),
    >)
        ensures
            self.supplies(q_ctx, module_name, exports),
    ;
}

/// What a native module loader may answer, as three relations: on whether
/// it provides a module, on the names that the module exports, and on the
/// values that it exports.
pub struct NativeLoaderSpec {
    pub claims: spec_fn(QuickJsContext, &'static str, bool) -> bool,
    pub declares: spec_fn(QuickJsContext, &'static str, Vec<&'static str>) -> bool,
    pub supplies: spec_fn(QuickJsContext, &'static str, Vec<(&'static str, OwnedValueRef)>) -> bool,
}

/// What the loader may answer.
pub open spec fn native_loader_spec<M: NativeModuleLoader>(loader: M) -> NativeLoaderSpec {
    NativeLoaderSpec {
        claims: |q_ctx: QuickJsContext, name: &'static str, answer: bool|
            loader.claims(&q_ctx, name, answer),
        declares: |q_ctx: QuickJsContext, name: &'static str, names: Vec<&'static str>|
            loader.declares(&q_ctx, name, names),
        supplies: |q_ctx: QuickJsContext, name: &'static str, exports: Vec<(&'static str, OwnedValueRef)>|
            loader.supplies(&q_ctx, name, exports),
    }
}

/// A loader as it lies in a box: it answers what the loader itself does.
pub struct HeldLoader<M: NativeModuleLoader>(M);

impl<M: NativeModuleLoader> HeldLoader<M> {
    /// The loader itself.
    pub closed spec fn loader(&self) -> M {
        self.0
    }

    /// Holds a loader.
    pub fn new(loader: M) -> (held: Self)
        ensures
            held.loader() == loader,
    {
        HeldLoader(loader)
    }
}

impl<M: NativeModuleLoader> NativeModuleLoader for HeldLoader<M> {
    open spec fn claims(&self, q_ctx: &QuickJsContext, module_name: &str, answer: bool) -> bool {
        self.loader().claims(q_ctx, module_name, answer)
    }

    open spec fn declares(&self, q_ctx: &QuickJsContext, module_name: &str, names: Vec<&str>) -> bool {
        self.loader().declares(q_ctx, module_name, names)
    }

    open spec fn supplies(
        &self,
        q_ctx: &QuickJsContext,
        module_name: &str,
        exports: Vec<(&str, OwnedValueRef)>,
    ) -> bool {
        self.loader().supplies(q_ctx, module_name, exports)
    }

    fn has_module(&self, q_ctx: &QuickJsContext, module_name: &str) -> (answer: bool) {
        self.0.has_module(q_ctx, module_name)
    }

    fn get_module_export_names(&self, q_ctx: &QuickJsContext, module_name: &str) -> (names: Vec<
        &str,
    >) {
        self.0.get_module_export_names(q_ctx, module_name)
    }

    fn get_module_exports(&self, q_ctx: &QuickJsContext, module_name: &str) -> (exports: Vec<
        (&str, OwnedValueRef),
    >) {
        self.0.get_module_exports(q_ctx, module_name)
    }
}

/// A native module loader of any kind.
pub struct BoxedNativeLoader {
    inner: Box<dyn NativeModuleLoader>,
}

impl BoxedNativeLoader {
    /// What the loader may answer.
    pub closed spec fn spec(&self) -> NativeLoaderSpec {
        NativeLoaderSpec {
            claims: |q_ctx: QuickJsContext, name: &'static str, answer: bool|
                self.inner.claims(&q_ctx, name, answer),
            declares: |q_ctx: QuickJsContext, name: &'static str, names: Vec<&'static str>|
                self.inner.declares(&q_ctx, name, names),
            supplies: |
                q_ctx: QuickJsContext,
                name: &'static str,
                exports: Vec<(&'static str, OwnedValueRef)>,
            |
                self.inner.supplies(&q_ctx, name, exports),
        }
    }

    /// Boxes a loader. The box answers what the loader inside does.
    pub fn new<M: NativeModuleLoader + 'static>(loader: M) -> (l: Self)
        ensures
            l.spec() == native_loader_spec(loader),
    {
        let l = BoxedNativeLoader { inner: Box::new(HeldLoader::new(loader)) };
        assert(l.spec().claims =~= native_loader_spec(loader).claims);
        assert(l.spec().declares =~= native_loader_spec(loader).declares);
        assert(l.spec().supplies =~= native_loader_spec(loader).supplies);
        l
    }

    /// Asks the loader whether it provides the module.
    pub fn has_module(&self, q_ctx: &QuickJsContext, module_name: &str) -> (answer: bool)
        ensures
            (self.spec().claims)(*q_ctx, module_name, answer),
    {
        self.inner.has_module(q_ctx, module_name)
    }

    /// Asks the loader for the names that the module exports.
    pub fn get_module_export_names(&self, q_ctx: &QuickJsContext, module_name: &str) -> (names: Vec<
        &str,
    >)
        ensures
            (self.spec().declares)(*q_ctx, module_name, names),
    {
        self.inner.get_module_export_names(q_ctx, module_name)
    }

    /// Asks the loader for the values that the module exports.
    pub fn get_module_exports(&self, q_ctx: &QuickJsContext, module_name: &str) -> (exports: Vec<
        (&str, OwnedValueRef),
    >)
        ensures
            (self.spec().supplies)(*q_ctx, module_name, exports),
    {
        self.inner.get_module_exports(q_ctx, module_name)
    }
}

/// What the native loader, if there is one, may answer.
pub open spec fn opt_native_spec(loader: Option<BoxedNativeLoader>) -> Option<NativeLoaderSpec> {
    match loader {
        Some(l) => Some(l.spec()),
        None => None,
    }
}

/// What a script loader may give for which import: whether the last argument
/// is a possible answer to the import of a name from a base in a realm.
pub type LoaderSpec = spec_fn(QuickJsContext, &'static str, &'static str, Option<EsScript>) -> bool;

/// Supplies the source text of imported modules. `base` is the path of the
/// importing module, `name` the requested name. The path of the script that
/// is returned must be absolute: it is the identity of the module and the
/// base of its own imports.
pub trait ModuleScriptLoader: Send + Sync {
    /// Whether `r` is a possible answer of the loader.
    spec fn gives(&self, q_ctx: &QuickJsContext, base: &str, name: &str, r: Option<EsScript>) -> bool;

    fn load(&self, q_ctx: &QuickJsContext, base: &str, name: &str) -> (r: Option<EsScript>)
        ensures
            self.gives(q_ctx, base, name, r),
    ;
}

/// A closure as a module script loader.
pub struct FnScriptLoader<M>(M) where
    M: Fn(&QuickJsContext, &str, &str) -> Option<EsScript> + Send + Sync,
;

/// The closure can be called with every realm, base and name.
pub open spec fn loads_any<M>(loader: M) -> bool where
    M: Fn(&QuickJsContext, &str, &str) -> Option<EsScript> + Send + Sync,
 {
    forall|q_ctx: &QuickJsContext, base: &str, name: &str|
        call_requires(loader, (q_ctx, base, name))
}

/// What the closure may give for which import.
pub open spec fn loader_spec<M>(loader: M) -> LoaderSpec where
    M: Fn(&QuickJsContext, &str, &str) -> Option<EsScript> + Send + Sync,
 {
    |q_ctx: QuickJsContext, base: &'static str, name: &'static str, r: Option<EsScript>|
        call_ensures(loader, (&q_ctx, base, name), r)
}

impl<M> FnScriptLoader<M> where
    M: Fn(&QuickJsContext, &str, &str) -> Option<EsScript> + Send + Sync,
 {
    #[verifier::type_invariant]
    spec fn inv(self) -> bool {
        loads_any(self.0)
    }

    /// The closure inside.
    pub closed spec fn closure(&self) -> M {
        self.0
    }

    /// Wraps a closure that accepts every call.
    pub fn new(loader: M) -> (l: Self)
        requires
            loads_any(loader),
        ensures
            l.closure() == loader,
    {
        FnScriptLoader(loader)
    }
}

impl<M> ModuleScriptLoader for FnScriptLoader<M> where
    M: Fn(&QuickJsContext, &str, &str) -> Option<EsScript> + Send + Sync,
 {
    open spec fn gives(&self, q_ctx: &QuickJsContext, base: &str, name: &str, r: Option<EsScript>) -> bool {
        call_ensures(self.closure(), (q_ctx, base, name), r)
    }

    fn load(&self, q_ctx: &QuickJsContext, base: &str, name: &str) -> (r: Option<EsScript>) {
        proof {
            use_type_invariant(self);
        }
        (self.0)(q_ctx, base, name)
    }
}

/// A module script loader of any kind.
pub struct BoxedScriptLoader {
    inner: Box<dyn ModuleScriptLoader>,
}

impl BoxedScriptLoader {
    /// What the loader may give for which import.
    pub closed spec fn spec(&self) -> LoaderSpec {
        |q_ctx: QuickJsContext, base: &'static str, name: &'static str, r: Option<EsScript>|
            self.inner.gives(&q_ctx, base, name, r)
    }

    /// Boxes a closure that accepts every call.
    pub fn new<M>(loader: M) -> (l: Self) where
        M: Fn(&QuickJsContext, &str, &str) -> Option<EsScript> + Send + Sync + 'static,

        requires
            loads_any(loader),
        ensures
            l.spec() == loader_spec(loader),
    {
        let l = BoxedScriptLoader { inner: Box::new(FnScriptLoader::new(loader)) };
        assert(l.spec() =~= loader_spec(loader));
        l
    }

    /// Asks the loader.
    pub fn load(&self, q_ctx: &QuickJsContext, base: &str, name: &str) -> (r: Option<EsScript>)
        ensures
            (self.spec())(*q_ctx, base, name, r),
    {
        self.inner.load(q_ctx, base, name)
    }
}

/// What the loader, if there is one, may give for which import.
pub open spec fn opt_loader_spec(loader: Option<BoxedScriptLoader>) -> Option<LoaderSpec> {
    match loader {
        Some(l) => Some(l.spec()),
        None => None,
    }
}

/// A native module as a mathematical value.
pub struct NativeModuleView {
    pub name: Seq<char>,
    /// The exports in the order in which their names were declared.
    pub exports: Seq<(Seq<char>, JsValue)>,
}

/// A module whose exports are host values.
#[derive(Debug)]
pub struct NativeModule {
    name: String,
    exports: Vec<(String, OwnedValueRef)>,
}

impl View for NativeModule {
    type V = NativeModuleView;

    closed spec fn view(&self) -> NativeModuleView {
        NativeModuleView {
            name: self.name@,
            exports: Seq::new(
                self.exports@.len(),
                |i: int| (self.exports@[i].0@, self.exports@[i].1.value),
            ),
        }
    }
}

/// The declared names as sequences of characters.
pub open spec fn declared_names(names: Seq<&str>) -> Seq<Seq<char>> {
    Seq::new(names.len(), |i: int| names[i]@)
}

/// The names under which values were supplied.
pub open spec fn supplied_names(exports: Seq<(&str, OwnedValueRef)>) -> Seq<Seq<char>> {
    Seq::new(exports.len(), |i: int| exports[i].0@)
}

/// The value that a declared name is bound to: the first value supplied
/// under that name, and `undefined` if none was.
pub open spec fn supplied_value(exports: Seq<(&str, OwnedValueRef)>, name: Seq<char>) -> JsValue {
    match position(supplied_names(exports), name) {
        Some(i) => exports[i].1.value,
        None => JsValue { u: JsValueUnion::Int32(0), tag: TAG_UNDEFINED },
    }
}

/// The exports of a native module: exactly the declared names, in their
/// order, each bound to the value supplied for it.
pub open spec fn bound_exports(names: Seq<&str>, exports: Seq<(&str, OwnedValueRef)>) -> Seq<
    (Seq<char>, JsValue),
> {
    Seq::new(names.len(), |i: int| (names[i]@, supplied_value(exports, names[i]@)))
}

/// Finds the value supplied under `name`.
fn find_supplied(exports: &Vec<(&str, OwnedValueRef)>, name: &str) -> (r: OwnedValueRef)
    ensures
        r.value == supplied_value(exports@, name@),
{
    let wanted: String = name.to_owned();
    let mut j: usize = 0;
    while j < exports.len()
        invariant
            j <= exports.len(),
            wanted@ == name@,
            forall|k: int| 0 <= k < j ==> supplied_names(exports@)[k] != name@,
        decreases exports.len() - j,
    {
        let candidate: String = exports[j].0.to_owned();
        if candidate == wanted {
            proof {
                let supplied = supplied_names(exports@);
                lemma_position(supplied, name@);
                assert(supplied[j as int] == name@);
                match position(supplied, name@) {
                    Some(k) => {
                        if k < j {
                            assert(supplied[k] != name@);
                        }
                    },
                    None => {},
                }
            }
            return exports[j].1;
        }
        assert(supplied_names(exports@)[j as int] != name@);
        j = j + 1;
    }
    proof {
        lemma_position(supplied_names(exports@), name@);
    }
    new_undefined()
}

impl NativeModule {
    /// Builds the module `name` from what its loader supplied. The module
    /// exports exactly the declared names. Values supplied under a name that
    /// was not declared are left out.
    pub fn assemble(name: &str, names: &Vec<&str>, exports: &Vec<(&str, OwnedValueRef)>) -> (m: Self)
        ensures
            m@.name == name@,
            m@.exports == bound_exports(names@, exports@),
    {
        let mut bound: Vec<(String, OwnedValueRef)> = Vec::new();
        let mut i: usize = 0;
        while i < names.len()
            invariant
                i <= names.len(),
                bound@.len() == i,
                forall|k: int|
                    0 <= k < i ==> (#[trigger] bound@[k]).0@ == names@[k]@ && bound@[k].1.value
                        == supplied_value(exports@, names@[k]@),
            decreases names.len() - i,
        {
            let value = find_supplied(exports, names[i]);
            bound.push((names[i].to_owned(), value));
            i = i + 1;
        }
        let m = NativeModule { name: name.to_owned(), exports: bound };
        assert(m@.exports =~= bound_exports(names@, exports@));
        m
    }

    /// The name of the module.
    pub fn get_name(&self) -> (n: &str)
        ensures
            n@ == self@.name,
    {
        self.name.as_str()
    }

    /// The number of exports.
    pub fn export_count(&self) -> (n: usize)
        ensures
            n == self@.exports.len(),
    {
        self.exports.len()
    }

    /// The name of the export at `i`.
    pub fn export_name(&self, i: usize) -> (n: &str)
        requires
            i < self@.exports.len(),
        ensures
            n@ == self@.exports[i as int].0,
    {
        self.exports[i].0.as_str()
    }

    /// The value of the export at `i`.
    pub fn export_value(&self, i: usize) -> (v: OwnedValueRef)
        requires
            i < self@.exports.len(),
        ensures
            v.value == self@.exports[i as int].1,
    {
        self.exports[i].1
    }
}

/// What an import resolved to.
#[derive(Debug)]
pub enum ResolvedModule {
    /// A module made of host values.
    Native(NativeModule),
    /// Source text for the engine to compile.
    Script(EsScript),
}

/// What the answer of the script loader means: source text is a module, no
/// answer means that the module does not exist.
pub fn script_resolution(loaded: Option<EsScript>) -> (r: Result<ResolvedModule, EsError>)
    ensures
        match loaded {
            Some(script) => r matches Ok(ResolvedModule::Script(s)) && s == script,
            None => r matches Err(e) && e == EsError::ModuleNotFound,
        },
{
    match loaded {
        Some(script) => Ok(ResolvedModule::Script(script)),
        None => Err(EsError::ModuleNotFound),
    }
}

/// What an import may resolve to when the script loader decides: without a
/// loader nothing is found; with one, source text that the loader may give for
/// the import, or nothing if the loader may give no answer.
pub open spec fn script_outcome(
    loader: Option<LoaderSpec>,
    q_ctx: QuickJsContext,
    base: &str,
    name: &str,
    r: Result<ResolvedModule, EsError>,
) -> bool {
    match r {
        Ok(ResolvedModule::Script(s)) => loader matches Some(spec) && spec(q_ctx, base, name, Some(s)),
        Ok(ResolvedModule::Native(_)) => false,
        Err(e) => e == EsError::ModuleNotFound && (loader matches Some(spec) ==> spec(
            q_ctx,
            base,
            name,
            None,
        )),
    }
}

/// What an import may resolve to. A native module only if there is a native
/// loader that may claim the name, and then with exactly the exports that the
/// loader may declare, each bound to what it may supply. Anything else only
/// if the native loader, where there is one, may refuse the name; then the
/// script loader decides, see [`script_outcome`].
pub open spec fn import_outcome(
    native: Option<NativeLoaderSpec>,
    script: Option<LoaderSpec>,
    q_ctx: QuickJsContext,
    base: &str,
    name: &str,
    r: Result<ResolvedModule, EsError>,
) -> bool {
    match r {
        Ok(ResolvedModule::Native(m)) => {
            &&& native matches Some(l)
            &&& (l.claims)(q_ctx, name, true)
            &&& m@.name == name@
            &&& exists|names: Vec<&'static str>, exports: Vec<(&'static str, OwnedValueRef)>|
                (l.declares)(q_ctx, name, names) && (l.supplies)(q_ctx, name, exports) && m@.exports
                    == #[trigger] bound_exports(names@, exports@)
        },
        _ => {
            &&& native matches Some(l) ==> (l.claims)(q_ctx, name, false)
            &&& script_outcome(script, q_ctx, base, name, r)
        },
    }
}

/// Resolves the import of `name` from the module `base`. The native loader,
/// if there is one, is asked first; what it claims it provides, with exactly
/// the exports that it declares, see [`NativeModule::assemble`]. What it
/// refuses goes to the script loader, see [`script_resolution`]. Without any
/// loader no module is found.
pub fn resolve_module(
    q_ctx: &QuickJsContext,
    native: &Option<BoxedNativeLoader>,
    script: &Option<BoxedScriptLoader>,
    base: &str,
    name: &str,
) -> (r: Result<ResolvedModule, EsError>)
    ensures
        import_outcome(opt_native_spec(*native), opt_loader_spec(*script), *q_ctx, base, name, r),
{
    let claimed = match native {
        Some(loader) => loader.has_module(q_ctx, name),
        None => false,
    };
    if claimed {
        match native {
            Some(loader) => {
                let names = loader.get_module_export_names(q_ctx, name);
                let exports = loader.get_module_exports(q_ctx, name);
                let module = NativeModule::assemble(name, &names, &exports);
                assert(module@.exports == bound_exports(names@, exports@));
                Ok(ResolvedModule::Native(module))
            },
            None => script_resolution(None),
        }
    } else {
        match script {
            Some(loader) => script_resolution(loader.load(q_ctx, base, name)),
            None => Err(EsError::ModuleNotFound),
        }
    }
}

} // verus!
