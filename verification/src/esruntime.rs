//! The runtime: the settings it was built with, the queue of jobs, and the
//! books of the worker.
//!
//! This is the state that the worker thread and the calling threads share. It
//! decides every step: whether a job is accepted, which job runs next, when
//! the promise reactions of a job are done, whether a collection is due, and
//! what a caller is told. Performing a step, running the job or the
//! collection or waking a caller, is up to the threads.

use vstd::prelude::*;
use std::collections::VecDeque;
use std::time::Duration;
use crate::eserror::EsError;
use crate::esruntimebuilder::{EsRuntimeBuilder, EsRuntimeBuilderView};
use crate::esvalue::WorkerToken;
use crate::eventqueue::{EventQueue, EventQueueView, WorkerPhase};
use crate::fetch::{
    fetch_outcome, opt_provider_spec, start_fetch, BoxedProvider, BoxedResponse, FetchExchange,
    FetchRequest, ProviderSpec,
};
use crate::gc::{opt_nat_of_u64, GcPolicy, GcPolicyView};
use crate::modules::{
    import_outcome, opt_loader_spec, opt_native_spec, resolve_module, BoxedNativeLoader,
    BoxedScriptLoader, LoaderSpec, NativeLoaderSpec, ResolvedModule,
};
use crate::quickjscontext::QuickJsContext;

verus! {

/// The length of a time span in whole milliseconds.
pub uninterp spec fn duration_millis(d: Duration) -> u128;

/// `Duration::as_millis`: the number of whole milliseconds in a time span. It
/// depends on the time span alone; the contract gives the number its name.
pub assume_specification[ Duration::as_millis ](d: &Duration) -> (millis: u128)
    ensures
        millis == duration_millis(*d),
;

/// A configured interval in whole milliseconds.
pub open spec fn opt_millis(interval: Option<Duration>) -> Option<nat> {
    match interval {
        Some(d) => Some(duration_millis(d) as nat),
        None => None,
    }
}

/// How a job ended on the worker.
pub enum JobOutcome<R> {
    /// The job ran to its end and gave a result.
    Returned(R),
    /// The job panicked; the panic was caught at the job's boundary.
    Panicked,
    /// The engine failed beyond repair while the job ran.
    EngineFault,
}

/// How the wait of a blocked caller ended.
pub enum WaitOutcome<R> {
    /// The worker delivered the job's report.
    Delivered(Result<R, EsError>),
    /// The caller's time ran out first.
    TimedOut,
    /// The worker went away without a report.
    Disconnected,
}

/// What the caller of a job is told about its end: the result, or that the
/// job panicked, or that the worker is gone.
pub fn job_report<R>(outcome: JobOutcome<R>) -> (r: Result<R, EsError>)
    ensures
        r == (match outcome {
            JobOutcome::Returned(v) => Ok::<R, EsError>(v),
            JobOutcome::Panicked => Err::<R, EsError>(EsError::JobPanicked),
            JobOutcome::EngineFault => Err::<R, EsError>(EsError::WorkerPanicked),
        }),
{
    match outcome {
        JobOutcome::Returned(v) => Ok(v),
        JobOutcome::Panicked => Err(EsError::JobPanicked),
        JobOutcome::EngineFault => Err(EsError::WorkerPanicked),
    }
}

/// What a blocking call returns: the report if it came in time, `Timeout` if
/// the caller's time ran out, `WorkerPanicked` if the worker went away. A
/// timeout ends the wait only; the job goes on.
pub fn sync_result<R>(wait: WaitOutcome<R>) -> (r: Result<R, EsError>)
    ensures
        r == (match wait {
            WaitOutcome::Delivered(report) => report,
            WaitOutcome::TimedOut => Err::<R, EsError>(EsError::Timeout),
            WaitOutcome::Disconnected => Err::<R, EsError>(EsError::WorkerPanicked),
        }),
{
    match wait {
        WaitOutcome::Delivered(report) => report,
        WaitOutcome::TimedOut => Err(EsError::Timeout),
        WaitOutcome::Disconnected => Err(EsError::WorkerPanicked),
    }
}

/// What the worker does next while it drains promise reactions.
#[derive(Clone, Copy, Debug, PartialEq, Eq, Structural)]
pub enum DrainStep {
    /// Run one more promise reaction, then ask again.
    RunReaction,
    /// The job is complete. With `collect`, run a collection before anything
    /// else; then report to the job's caller and go on to the next job.
    Complete { collect: bool },
    /// No job is being drained; there is nothing to do.
    NotDraining,
}

/// The runtime as a mathematical value.
pub struct EsRuntimeView<J> {
    pub memory_limit: Option<u64>,
    pub max_stack_size: Option<u64>,
    pub module_script_loader: Option<LoaderSpec>,
    pub native_module_loader: Option<NativeLoaderSpec>,
    pub fetch_response_provider: Option<ProviderSpec>,
    pub queue: EventQueueView<J>,
    pub gc: GcPolicyView,
}

impl<J> EsRuntimeView<J> {
    /// The queue and the books of the collector are in order.
    pub open spec fn wf(self) -> bool {
        self.queue.wf() && self.gc.wf()
    }

    /// A runtime as it is built from the settings `b`: the limits and the
    /// callbacks are those of `b`, the collector has the threshold of `b` and
    /// its interval in whole milliseconds, the queue is empty, the worker
    /// idle, no allocation counted and no collection run.
    pub open spec fn starts_from(self, b: EsRuntimeBuilderView) -> bool {
        &&& self.memory_limit == b.memory_limit_bytes
        &&& self.max_stack_size == b.max_stack_size
        &&& self.module_script_loader == b.module_script_loader
        &&& self.native_module_loader == b.native_module_loader
        &&& self.fetch_response_provider == b.fetch_response_provider
        &&& self.queue == EventQueueView::<J>::empty()
        &&& self.gc == GcPolicyView::initial(opt_nat_of_u64(b.gc_threshold), opt_millis(b.gc_interval))
    }

    /// The token belongs to the job that is running now.
    pub open spec fn is_current(self, ticket: u64) -> bool {
        self.queue.phase is Executing && ticket + 1 == self.queue.started
    }

    /// Whether `bytes` more may be allocated when `in_use` are in use.
    pub open spec fn fits_memory(self, in_use: u64, bytes: u64) -> bool {
        match self.memory_limit {
            Some(limit) => in_use + bytes <= limit,
            None => in_use + bytes <= u64::MAX,
        }
    }

    /// Whether a stack of `depth` bytes is allowed.
    pub open spec fn fits_stack(self, depth: u64) -> bool {
        match self.max_stack_size {
            Some(max) => depth <= max,
            None => true,
        }
    }
}

/// A runtime: settings, queue and books. `J` is what a job is made of.
pub struct EsRuntime<J> {
    memory_limit: Option<u64>,
    max_stack_size: Option<u64>,
    module_script_loader: Option<BoxedScriptLoader>,
    native_module_loader: Option<BoxedNativeLoader>,
    fetch_response_provider: Option<BoxedProvider>,
    queue: EventQueue<J>,
    gc: GcPolicy,
}

impl<J> View for EsRuntime<J> {
    type V = EsRuntimeView<J>;

    closed spec fn view(&self) -> EsRuntimeView<J> {
        EsRuntimeView {
            memory_limit: self.memory_limit,
            max_stack_size: self.max_stack_size,
            module_script_loader: opt_loader_spec(self.module_script_loader),
            native_module_loader: opt_native_spec(self.native_module_loader),
            fetch_response_provider: opt_provider_spec(self.fetch_response_provider),
            queue: self.queue@,
            gc: self.gc@,
        }
    }
}

impl<J> EsRuntime<J> {
    /// The runtime is in order, see [`EsRuntimeView::wf`].
    pub open spec fn wf(&self) -> bool {
        self@.wf()
    }

    /// Builds the runtime from its settings and uses them up: from here on
    /// no setting can change.
    pub fn new(builder: EsRuntimeBuilder) -> (rt: Self)
        ensures
            rt.wf(),
            rt@.starts_from(builder@),
    {
        proof {
            builder.lemma_view();
        }
        let interval_millis: Option<u128> = match &builder.opt_gc_interval {
            Some(d) => Some(d.as_millis()),
            None => None,
        };
        Self::with_settings(builder, interval_millis)
    }

    /// Builds the runtime from its settings, with the collection interval
    /// given in milliseconds.
    pub fn with_settings(builder: EsRuntimeBuilder, interval_millis: Option<u128>) -> (rt: Self)
        ensures
            rt.wf(),
            rt@.memory_limit == builder@.memory_limit_bytes,
            rt@.max_stack_size == builder@.max_stack_size,
            rt@.module_script_loader == builder@.module_script_loader,
            rt@.native_module_loader == builder@.native_module_loader,
            rt@.fetch_response_provider == builder@.fetch_response_provider,
            rt@.queue == EventQueueView::<J>::empty(),
            rt@.gc == GcPolicyView::initial(
                opt_nat_of_u64(builder@.gc_threshold),
                crate::gc::opt_nat_of_u128(interval_millis),
            ),
    {
        proof {
            builder.lemma_view();
        }
        let gc = GcPolicy::new(builder.opt_gc_threshold, interval_millis);
        EsRuntime {
            memory_limit: builder.opt_memory_limit_bytes,
            max_stack_size: builder.opt_max_stack_size,
            module_script_loader: builder.opt_module_script_loader,
            native_module_loader: builder.opt_native_module_loader,
            fetch_response_provider: builder.opt_fetch_response_provider,
            queue: EventQueue::new(),
            gc,
        }
    }

    /// Accepts a job and returns its ticket. After the worker died every
    /// submission fails with `WorkerPanicked`.
    pub fn submit(&mut self, job: J) -> (r: Result<u64, EsError>)
        requires
            old(self).wf(),
            old(self)@.queue.accepts() ==> old(self)@.queue.submitted < u64::MAX,
        ensures
            final(self).wf(),
            old(self)@.queue.accepts() ==> (r matches Ok(ticket) && ticket == old(
                self,
            )@.queue.submitted) && final(self)@ == (EsRuntimeView {
                queue: old(self)@.queue.after_submit(job),
                ..old(self)@
            }),
            !old(self)@.queue.accepts() ==> r == Err::<u64, EsError>(EsError::WorkerPanicked)
                && final(self)@ == old(self)@,
    {
        self.queue.submit(job)
    }

    /// Accepts a job if the runtime can: like [`EsRuntime::submit`], but when
    /// the tickets have run out the job is not accepted and the result is
    /// `None`, with nothing changed.
    pub fn try_submit(&mut self, job: J) -> (r: Option<Result<u64, EsError>>)
        requires
            old(self).wf(),
        ensures
            final(self).wf(),
            r is None <==> (old(self)@.queue.accepts() && old(self)@.queue.submitted >= u64::MAX),
            r is None ==> final(self)@ == old(self)@,
            r matches Some(Ok(ticket)) ==> (ticket == old(self)@.queue.submitted && final(self)@ == (
            EsRuntimeView { queue: old(self)@.queue.after_submit(job), ..old(self)@ })),
            r matches Some(Err(e)) ==> (e == EsError::WorkerPanicked && !old(self)@.queue.accepts()
                && final(self)@ == old(self)@),
    {
        let dead = match self.queue.phase() {
            WorkerPhase::Dead => true,
            _ => false,
        };
        if !dead && self.queue.submitted() == u64::MAX {
            None
        } else {
            Some(self.submit(job))
        }
    }

    /// Hands the next job to the worker, with the token that shows the job
    /// to be running on the worker. There is a job exactly when the worker
    /// is idle and a job waits.
    pub fn begin_job(&mut self) -> (r: Option<(WorkerToken, J)>)
        requires
            old(self).wf(),
        ensures
            final(self).wf(),
            old(self)@.queue.can_begin() ==> (r matches Some(begun) && begun.0.spec_ticket() == old(
                self,
            )@.queue.started && begun.1 == old(self)@.queue.pending[0]) && final(self)@ == (
            EsRuntimeView { queue: old(self)@.queue.after_begin(), ..old(self)@ }),
            !old(self)@.queue.can_begin() ==> r is None && final(self)@ == old(self)@,
    {
        match self.queue.begin_next() {
            Some((ticket, job)) => Some((WorkerToken::issue(ticket), job)),
            None => None,
        }
    }

    /// Takes back the token of the job that returned or panicked: its promise
    /// reactions come next. The result says whether the token was that of
    /// the running job; any other token changes nothing.
    pub fn job_returned(&mut self, token: WorkerToken) -> (r: bool)
        requires
            old(self).wf(),
        ensures
            final(self).wf(),
            r == old(self)@.is_current(token.spec_ticket()),
            r ==> final(self)@ == (EsRuntimeView {
                queue: old(self)@.queue.after_return(),
                ..old(self)@
            }),
            !r ==> final(self)@ == old(self)@,
    {
        let ticket = token.ticket();
        let started = self.queue.started();
        if ticket < u64::MAX && ticket + 1 == started {
            self.queue.job_returned()
        } else {
            false
        }
    }

    /// One turn of the promise drain at the time `now_millis`.
    /// `reaction_pending` says whether the engine still holds a promise
    /// reaction. While it does, the worker runs one more. When it does not,
    /// the job is complete and the collector is asked: if a collection is
    /// due, it is on the books already and the worker runs it before
    /// anything else.
    pub fn drain_step(&mut self, reaction_pending: bool, now_millis: u128) -> (step: DrainStep)
        requires
            old(self).wf(),
            old(self)@.gc.collections < u64::MAX,
        ensures
            final(self).wf(),
            step == (if !(old(self)@.queue.phase is Draining) {
                DrainStep::NotDraining
            } else if reaction_pending {
                DrainStep::RunReaction
            } else {
                DrainStep::Complete { collect: old(self)@.gc.due(now_millis as nat) }
            }),
            step is Complete ==> final(self)@ == (EsRuntimeView {
                queue: old(self)@.queue.after_drain(),
                gc: old(self)@.gc.evaluated(now_millis as nat),
                ..old(self)@
            }),
            !(step is Complete) ==> final(self)@ == old(self)@,
    {
        match self.queue.phase() {
            WorkerPhase::Draining => {
                if self.queue.drain_step(reaction_pending) {
                    DrainStep::RunReaction
                } else {
                    let collect = self.gc.evaluate(now_millis);
                    DrainStep::Complete { collect }
                }
            },
            _ => DrainStep::NotDraining,
        }
    }

    /// Counts one allocation of the engine at the time `now_millis` and
    /// asks the collector. The result says whether the worker must run a
    /// collection now; if so, it is on the books already.
    pub fn track_allocation(&mut self, now_millis: u128) -> (collect: bool)
        requires
            old(self).wf(),
            old(self)@.gc.collections < u64::MAX,
            old(self)@.gc.allocations < u64::MAX,
        ensures
            final(self).wf(),
            collect == old(self)@.gc.counted().due(now_millis as nat),
            final(self)@ == (EsRuntimeView {
                gc: old(self)@.gc.after_allocation(now_millis as nat),
                ..old(self)@
            }),
    {
        self.gc.track_allocation(now_millis)
    }

    /// The engine failed beyond repair. The worker is dead from now on. The
    /// jobs that waited are handed back, oldest first, for their callers to
    /// be told `WorkerPanicked`.
    pub fn fault(&mut self) -> (abandoned: VecDeque<J>)
        requires
            old(self).wf(),
        ensures
            final(self).wf(),
            abandoned@ == old(self)@.queue.pending,
            final(self)@ == (EsRuntimeView { queue: old(self)@.queue.after_fault(), ..old(self)@ }),
    {
        self.queue.fault()
    }

    /// Whether `bytes` more may be allocated while `in_use` bytes are in
    /// use: the new number of bytes in use, or `OutOfMemory` if that would
    /// pass the memory limit or cannot be counted.
    pub fn admit_allocation(&self, in_use: u64, bytes: u64) -> (r: Result<u64, EsError>)
        ensures
            self@.fits_memory(in_use, bytes) ==> r == Ok::<u64, EsError>((in_use + bytes) as u64),
            !self@.fits_memory(in_use, bytes) ==> r == Err::<u64, EsError>(EsError::OutOfMemory),
    {
        match in_use.checked_add(bytes) {
            Some(total) => {
                match self.memory_limit {
                    Some(limit) => if total <= limit {
                        Ok(total)
                    } else {
                        Err(EsError::OutOfMemory)
                    },
                    None => Ok(total),
                }
            },
            None => Err(EsError::OutOfMemory),
        }
    }

    /// Whether script may use a stack of `depth` bytes: `StackOverflow` if
    /// that is more than the maximum stack size.
    pub fn admit_stack(&self, depth: u64) -> (r: Result<(), EsError>)
        ensures
            self@.fits_stack(depth) ==> r is Ok,
            !self@.fits_stack(depth) ==> r == Err::<(), EsError>(EsError::StackOverflow),
    {
        match self.max_stack_size {
            Some(max) => if depth <= max {
                Ok(())
            } else {
                Err(EsError::StackOverflow)
            },
            None => Ok(()),
        }
    }

    /// Resolves an import with the loaders of this runtime, see
    /// [`resolve_module`].
    pub fn resolve_module(&self, q_ctx: &QuickJsContext, base: &str, name: &str) -> (r: Result<
        ResolvedModule,
        EsError,
    >)
        ensures
            import_outcome(
                self@.native_module_loader,
                self@.module_script_loader,
                *q_ctx,
                base,
                name,
                r,
            ),
    {
        resolve_module(q_ctx, &self.native_module_loader, &self.module_script_loader, base, name)
    }

    /// Begins a fetch with the provider of this runtime, see [`start_fetch`].
    /// Without a provider every fetch fails with `FeatureUnavailable`.
    pub fn start_fetch(&self, request: &FetchRequest) -> (r: Result<
        (BoxedResponse, FetchExchange),
        EsError,
    >)
        ensures
            fetch_outcome(self@.fetch_response_provider, *request, r),
    {
        start_fetch(&self.fetch_response_provider, request)
    }

    /// The memory limit in bytes, if one was set.
    pub fn memory_limit(&self) -> (r: Option<u64>)
        ensures
            r == self@.memory_limit,
    {
        self.memory_limit
    }

    /// The maximum stack size in bytes, if one was set.
    pub fn max_stack_size(&self) -> (r: Option<u64>)
        ensures
            r == self@.max_stack_size,
    {
        self.max_stack_size
    }

    /// The collection threshold, if one was set.
    pub fn gc_threshold(&self) -> (r: Option<u64>)
        ensures
            opt_nat_of_u64(r) == self@.gc.threshold,
    {
        self.gc.threshold()
    }

    /// The collection interval in milliseconds, if one was set.
    pub fn gc_interval_millis(&self) -> (r: Option<u128>)
        ensures
            crate::gc::opt_nat_of_u128(r) == self@.gc.interval,
    {
        self.gc.interval_millis()
    }

    /// Allocations counted since the last collection.
    pub fn allocations(&self) -> (n: u64)
        ensures
            n == self@.gc.allocations,
    {
        self.gc.allocations()
    }

    /// How many collections have run.
    pub fn collections_run(&self) -> (n: u64)
        ensures
            n == self@.gc.collections,
    {
        self.gc.collections_run()
    }

    /// The queue of jobs.
    pub fn queue(&self) -> (q: &EventQueue<J>)
        ensures
            q@ == self@.queue,
    {
        &self.queue
    }

    /// Whether the worker is dead.
    pub fn is_dead(&self) -> (r: bool)
        ensures
            r == (self@.queue.phase is Dead),
    {
        match self.queue.phase() {
            WorkerPhase::Dead => true,
            _ => false,
        }
    }
}

} // verus!
