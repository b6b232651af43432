//! Collecting the settings of a runtime before it starts.

use vstd::prelude::*;
use std::time::Duration;
use crate::esruntime::EsRuntime;
use crate::esscript::EsScript;
use crate::fetch::{
    answers_any, opt_provider_spec, provider_spec, BoxedProvider, BoxedResponse, FetchRequest,
    ProviderSpec,
};
use crate::modules::{
    loader_spec, loads_any, native_loader_spec, opt_loader_spec, opt_native_spec,
    BoxedNativeLoader, BoxedScriptLoader, LoaderSpec, NativeLoaderSpec, NativeModuleLoader,
};
use crate::quickjscontext::QuickJsContext;

verus! {

/// The settings as a mathematical value. Of each callback it shows what the
/// callback may give.
pub struct EsRuntimeBuilderView {
    pub module_script_loader: Option<LoaderSpec>,
    pub native_module_loader: Option<NativeLoaderSpec>,
    pub fetch_response_provider: Option<ProviderSpec>,
    pub memory_limit_bytes: Option<u64>,
    pub gc_threshold: Option<u64>,
    pub max_stack_size: Option<u64>,
    pub gc_interval: Option<Duration>,
}

impl EsRuntimeBuilderView {
    /// Nothing is set.
    pub open spec fn empty() -> Self {
        EsRuntimeBuilderView {
            module_script_loader: None,
            native_module_loader: None,
            fetch_response_provider: None,
            memory_limit_bytes: None,
            gc_threshold: None,
            max_stack_size: None,
            gc_interval: None,
        }
    }
}

/// Collects the settings of a runtime. Every setting is optional; a setting
/// given twice keeps the later value. `build` uses the settings up.
pub struct EsRuntimeBuilder {
    pub(crate) opt_module_script_loader: Option<BoxedScriptLoader>,
    pub(crate) opt_native_module_loader: Option<BoxedNativeLoader>,
    pub(crate) opt_fetch_response_provider: Option<BoxedProvider>,
    pub(crate) opt_memory_limit_bytes: Option<u64>,
    pub(crate) opt_gc_threshold: Option<u64>,
    pub(crate) opt_max_stack_size: Option<u64>,
    pub(crate) opt_gc_interval: Option<Duration>,
}

impl View for EsRuntimeBuilder {
    type V = EsRuntimeBuilderView;

    closed spec fn view(&self) -> EsRuntimeBuilderView {
        EsRuntimeBuilderView {
            module_script_loader: opt_loader_spec(self.opt_module_script_loader),
            native_module_loader: opt_native_spec(self.opt_native_module_loader),
            fetch_response_provider: opt_provider_spec(self.opt_fetch_response_provider),
            memory_limit_bytes: self.opt_memory_limit_bytes,
            gc_threshold: self.opt_gc_threshold,
            max_stack_size: self.opt_max_stack_size,
            gc_interval: self.opt_gc_interval,
        }
    }
}

impl EsRuntimeBuilder {
    /// What the view shows of each field.
    pub(crate) proof fn lemma_view(&self)
        ensures
            self@.module_script_loader == opt_loader_spec(self.opt_module_script_loader),
            self@.native_module_loader == opt_native_spec(self.opt_native_module_loader),
            self@.fetch_response_provider == opt_provider_spec(self.opt_fetch_response_provider),
            self@.memory_limit_bytes == self.opt_memory_limit_bytes,
            self@.gc_threshold == self.opt_gc_threshold,
            self@.max_stack_size == self.opt_max_stack_size,
            self@.gc_interval == self.opt_gc_interval,
    {
    }

    /// Builds the runtime: an idle worker with an empty queue and clean
    /// books, under the settings collected here. See [`EsRuntime::new`].
    pub fn build<J>(self) -> (rt: EsRuntime<J>)
        ensures
            rt.wf(),
            rt@.starts_from(self@),
    {
        EsRuntime::new(self)
    }

    /// A builder with nothing set.
    pub fn new() -> (b: Self)
        ensures
            b@ == EsRuntimeBuilderView::empty(),
    {
        EsRuntimeBuilder {
            opt_module_script_loader: None,
            opt_native_module_loader: None,
            opt_fetch_response_provider: None,
            opt_memory_limit_bytes: None,
            opt_gc_threshold: None,
            opt_max_stack_size: None,
            opt_gc_interval: None,
        }
    }

    /// Sets the loader that supplies the source text of imported modules.
    pub fn module_script_loader<M>(self, loader: M) -> (b: Self) where
        M: Fn(&QuickJsContext, &str, &str) -> Option<EsScript> + Send + Sync + 'static,

        requires
            loads_any(loader),
        ensures
            b@ == (EsRuntimeBuilderView {
                module_script_loader: Some(loader_spec(loader)),
                ..self@
            }),
    {
        let mut b = self;
        b.opt_module_script_loader = Some(BoxedScriptLoader::new(loader));
        b
    }

    /// Sets the loader that supplies modules made of host values.
    pub fn native_module_loader<M: NativeModuleLoader + Send + 'static>(self, loader: M) -> (b: Self)
        ensures
            b@ == (EsRuntimeBuilderView {
                native_module_loader: Some(native_loader_spec(loader)),
                ..self@
            }),
    {
        let mut b = self;
        b.opt_native_module_loader = Some(BoxedNativeLoader::new(loader));
        b
    }

    /// Sets the provider that answers `fetch`. Without one, script cannot
    /// fetch.
    pub fn fetch_response_provider<P>(self, provider: P) -> (b: Self) where
        P: Fn(&FetchRequest) -> BoxedResponse + Send + Sync + 'static,

        requires
            answers_any(provider),
        ensures
            b@ == (EsRuntimeBuilderView {
                fetch_response_provider: Some(provider_spec(provider)),
                ..self@
            }),
    {
        let mut b = self;
        b.opt_fetch_response_provider = Some(BoxedProvider::new(provider));
        b
    }

    /// Sets the number of bytes that the engine's heap may hold.
    pub fn memory_limit(self, bytes: u64) -> (b: Self)
        ensures
            b@ == (EsRuntimeBuilderView { memory_limit_bytes: Some(bytes), ..self@ }),
    {
        let mut b = self;
        b.opt_memory_limit_bytes = Some(bytes);
        b
    }

    /// Sets the number of allocations after which a collection is forced.
    pub fn gc_threshold(self, size: u64) -> (b: Self)
        ensures
            b@ == (EsRuntimeBuilderView { gc_threshold: Some(size), ..self@ }),
    {
        let mut b = self;
        b.opt_gc_threshold = Some(size);
        b
    }

    /// Sets the size that the stack of a running script may reach.
    pub fn max_stack_size(self, size: u64) -> (b: Self)
        ensures
            b@ == (EsRuntimeBuilderView { max_stack_size: Some(size), ..self@ }),
    {
        let mut b = self;
        b.opt_max_stack_size = Some(size);
        b
    }

    /// Sets the time after which a collection is forced, however few
    /// allocations there were.
    pub fn gc_interval(self, interval: Duration) -> (b: Self)
        ensures
            b@ == (EsRuntimeBuilderView { gc_interval: Some(interval), ..self@ }),
    {
        let mut b = self;
        b.opt_gc_interval = Some(interval);
        b
    }
}

impl Default for EsRuntimeBuilder {
    fn default() -> (b: Self)
        ensures
            b@ == EsRuntimeBuilderView::empty(),
    {
        EsRuntimeBuilder::new()
    }
}

} // verus!
