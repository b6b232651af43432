//! The job queue and the progress of the worker through it.
//!
//! Every job gets a ticket when it is accepted: tickets count up from zero, so
//! the ticket is the job's place in the order of submission. The worker takes
//! one job at a time from the front, runs it, then drains the promise reactions
//! that the job left behind, and only then is ready for the next one.

use vstd::prelude::*;
use std::collections::VecDeque;
use crate::eserror::EsError;

verus! {

/// Where the worker stands.
#[derive(Clone, Copy, Debug, PartialEq, Eq, Structural)]
pub enum WorkerPhase {
    /// Between jobs: the next job may begin.
    Idle,
    /// A job is running against the engine.
    Executing,
    /// The job has returned; its promise reactions are being run.
    Draining,
    /// The engine failed beyond repair. Nothing runs any more.
    Dead,
}

/// The queue as a mathematical value.
pub struct EventQueueView<T> {
    /// The jobs that wait, oldest first.
    pub pending: Seq<T>,
    /// How many jobs were ever accepted.
    pub submitted: nat,
    /// How many jobs were ever handed to the worker.
    pub started: nat,
    /// How many jobs have run to the end, promise drain included.
    pub completed: nat,
    pub phase: WorkerPhase,
}

impl<T> EventQueueView<T> {
    /// The counters fit the phase: at most one job is between start and
    /// completion, and that only while the worker executes or drains; every
    /// accepted job that has not started waits in `pending`, unless the worker
    /// is dead, when nothing waits.
    pub open spec fn wf(self) -> bool {
        &&& self.completed <= self.started <= self.submitted
        &&& match self.phase {
            WorkerPhase::Idle => self.started == self.completed,
            WorkerPhase::Executing | WorkerPhase::Draining => self.started == self.completed + 1,
            WorkerPhase::Dead => self.started <= self.completed + 1,
        }
        &&& if self.phase is Dead {
            self.pending.len() == 0
        } else {
            self.submitted == self.started + self.pending.len()
        }
    }

    /// A fresh queue: nothing accepted, the worker idle.
    pub open spec fn empty() -> Self {
        EventQueueView {
            pending: Seq::empty(),
            submitted: 0,
            started: 0,
            completed: 0,
            phase: WorkerPhase::Idle,
        }
    }

    /// The job with this ticket was handed to the worker.
    pub open spec fn has_begun(self, ticket: nat) -> bool {
        ticket < self.started
    }

    /// The job with this ticket ran to the end, promise drain included.
    pub open spec fn has_completed(self, ticket: nat) -> bool {
        ticket < self.completed
    }

    /// The job with this ticket waits in the queue.
    pub open spec fn is_pending(self, ticket: nat) -> bool {
        self.phase !is Dead && self.started <= ticket < self.submitted
    }

    /// The job with this ticket was accepted but will never complete.
    pub open spec fn is_abandoned(self, ticket: nat) -> bool {
        self.phase is Dead && self.completed <= ticket < self.submitted
    }

    /// Whether a job can be accepted.
    pub open spec fn accepts(self) -> bool {
        self.phase !is Dead
    }

    /// Whether the worker can take the next job now.
    pub open spec fn can_begin(self) -> bool {
        self.phase is Idle && self.pending.len() > 0
    }

    /// The queue after it accepted `job`.
    pub open spec fn after_submit(self, job: T) -> Self {
        EventQueueView { pending: self.pending.push(job), submitted: self.submitted + 1, ..self }
    }

    /// The queue after the worker took the job at the front.
    pub open spec fn after_begin(self) -> Self {
        EventQueueView {
            pending: self.pending.subrange(1, self.pending.len() as int),
            started: self.started + 1,
            phase: WorkerPhase::Executing,
            ..self
        }
    }

    /// The queue after the running job returned.
    pub open spec fn after_return(self) -> Self {
        EventQueueView { phase: WorkerPhase::Draining, ..self }
    }

    /// The queue after the last promise reaction of the current job ran.
    pub open spec fn after_drain(self) -> Self {
        EventQueueView { completed: self.completed + 1, phase: WorkerPhase::Idle, ..self }
    }

    /// The queue after the engine failed for good.
    pub open spec fn after_fault(self) -> Self {
        EventQueueView { pending: Seq::empty(), phase: WorkerPhase::Dead, ..self }
    }
}

/// The queue of jobs of one runtime, together with the worker's progress.
pub struct EventQueue<T> {
    jobs: VecDeque<T>,
    submitted: u64,
    started: u64,
    completed: u64,
    phase: WorkerPhase,
}

impl<T> View for EventQueue<T> {
    type V = EventQueueView<T>;

    closed spec fn view(&self) -> EventQueueView<T> {
        EventQueueView {
            pending: self.jobs@,
            submitted: self.submitted as nat,
            started: self.started as nat,
            completed: self.completed as nat,
            phase: self.phase,
        }
    }
}

impl<T> EventQueue<T> {
    /// An empty queue with an idle worker.
    pub fn new() -> (q: Self)
        ensures
            q@ == EventQueueView::<T>::empty(),
            q@.wf(),
    {
        EventQueue {
            jobs: VecDeque::new(),
            submitted: 0,
            started: 0,
            completed: 0,
            phase: WorkerPhase::Idle,
        }
    }

    /// Accepts a job at the back of the queue and returns its ticket. A dead
    /// worker accepts nothing: the job is dropped and the queue stays as it is.
    pub fn submit(&mut self, job: T) -> (r: Result<u64, EsError>)
        requires
            old(self)@.wf(),
            old(self)@.accepts() ==> old(self)@.submitted < u64::MAX,
        ensures
            final(self)@.wf(),
            old(self)@.accepts() ==> (r matches Ok(ticket) && ticket == old(self)@.submitted)
                && final(self)@ == old(self)@.after_submit(job),
            !old(self)@.accepts() ==> r == Err::<u64, EsError>(EsError::WorkerPanicked)
                && final(self)@ == old(self)@,
    {
        match self.phase {
            WorkerPhase::Dead => Err(EsError::WorkerPanicked),
            _ => {
                let ticket = self.submitted;
                self.jobs.push_back(job);
                self.submitted = ticket + 1;
                Ok(ticket)
            },
        }
    }

    /// Hands the job at the front to the worker, with its ticket. There is one
    /// exactly when the worker is idle and a job waits; otherwise nothing
    /// changes.
    pub fn begin_next(&mut self) -> (r: Option<(u64, T)>)
        requires
            old(self)@.wf(),
        ensures
            final(self)@.wf(),
            old(self)@.can_begin() ==> (r matches Some(begun) && begun.0 == old(self)@.started
                && begun.1 == old(self)@.pending[0]) && final(self)@ == old(self)@.after_begin(),
            !old(self)@.can_begin() ==> r is None && final(self)@ == old(self)@,
    {
        match self.phase {
            WorkerPhase::Idle => {
                match self.jobs.pop_front() {
                    Some(job) => {
                        let ticket = self.started;
                        self.started = ticket + 1;
                        self.phase = WorkerPhase::Executing;
                        Some((ticket, job))
                    },
                    None => None,
                }
            },
            _ => None,
        }
    }

    /// Records that the running job returned: its promise reactions come next.
    /// Returns whether a job was running; if none was, nothing changes.
    pub fn job_returned(&mut self) -> (r: bool)
        requires
            old(self)@.wf(),
        ensures
            final(self)@.wf(),
            r == (old(self)@.phase is Executing),
            r ==> final(self)@ == old(self)@.after_return(),
            !r ==> final(self)@ == old(self)@,
    {
        match self.phase {
            WorkerPhase::Executing => {
                self.phase = WorkerPhase::Draining;
                true
            },
            _ => false,
        }
    }

    /// One turn of the promise drain. `reaction_pending` says whether the engine
    /// still holds a promise reaction. While it does, the worker runs one more
    /// and the result is `true`. When it does not, the job is complete and the
    /// worker idle. Outside a drain nothing changes and the result is `false`.
    pub fn drain_step(&mut self, reaction_pending: bool) -> (run_one: bool)
        requires
            old(self)@.wf(),
        ensures
            final(self)@.wf(),
            run_one == (old(self)@.phase is Draining && reaction_pending),
            old(self)@.phase is Draining && !reaction_pending ==> final(self)@ == old(
                self,
            )@.after_drain(),
            !(old(self)@.phase is Draining && !reaction_pending) ==> final(self)@ == old(self)@,
    {
        match self.phase {
            WorkerPhase::Draining => {
                if reaction_pending {
                    true
                } else {
                    self.completed = self.completed + 1;
                    self.phase = WorkerPhase::Idle;
                    false
                }
            },
            _ => false,
        }
    }

    /// The engine failed for good. The worker is dead from now on; the jobs
    /// that waited are handed back, oldest first, so that their callers can be
    /// told. The first of them has the ticket `started`.
    pub fn fault(&mut self) -> (abandoned: VecDeque<T>)
        requires
            old(self)@.wf(),
        ensures
            final(self)@.wf(),
            abandoned@ == old(self)@.pending,
            final(self)@ == old(self)@.after_fault(),
    {
        let mut abandoned: VecDeque<T> = VecDeque::new();
        while self.jobs.len() > 0
            invariant
                self.submitted == old(self).submitted,
                self.started == old(self).started,
                self.completed == old(self).completed,
                self.phase == old(self).phase,
                old(self)@.wf(),
                abandoned@ + self.jobs@ == old(self).jobs@,
            decreases self.jobs@.len(),
        {
            let job = self.jobs.pop_front();
            match job {
                Some(j) => {
                    abandoned.push_back(j);
                },
                None => {},
            }
        }
        assert(self.jobs@ =~= Seq::<T>::empty());
        assert(abandoned@ =~= old(self).jobs@);
        self.phase = WorkerPhase::Dead;
        abandoned
    }

    /// Where the worker stands.
    pub fn phase(&self) -> (p: WorkerPhase)
        ensures
            p == self@.phase,
    {
        self.phase
    }

    /// The number of jobs that wait.
    pub fn len(&self) -> (n: usize)
        ensures
            n == self@.pending.len(),
    {
        self.jobs.len()
    }

    /// The number of jobs ever accepted, which is the next ticket.
    pub fn submitted(&self) -> (n: u64)
        ensures
            n == self@.submitted,
    {
        self.submitted
    }

    /// The number of jobs ever handed to the worker.
    pub fn started(&self) -> (n: u64)
        ensures
            n == self@.started,
    {
        self.started
    }

    /// The number of jobs that ran to the end, promise drain included.
    pub fn completed(&self) -> (n: u64)
        ensures
            n == self@.completed,
    {
        self.completed
    }
}

/// Jobs run strictly in the order of their submission, one at a time: whenever
/// a job has begun, every job submitted before it has completed, its promise
/// drain included.
pub proof fn lemma_begun_implies_earlier_completed<T>(q: EventQueueView<T>, j1: nat, j2: nat)
    requires
        q.wf(),
        j1 < j2,
        q.has_begun(j2),
    ensures
        q.has_completed(j1),
{
}

/// No step of the queue undoes progress: a valid queue stays valid, a job that
/// has begun stays begun, a completed job stays completed, and tickets already
/// given out keep their meaning.
pub proof fn lemma_steps_keep_progress<T>(q: EventQueueView<T>, job: T, ticket: nat)
    requires
        q.wf(),
    ensures
        q.after_submit(job).wf() || !q.accepts(),
        q.can_begin() ==> q.after_begin().wf(),
        q.phase is Executing ==> q.after_return().wf(),
        q.phase is Draining ==> q.after_drain().wf(),
        q.after_fault().wf(),
        q.has_begun(ticket) ==> q.after_submit(job).has_begun(ticket) && q.after_begin().has_begun(
            ticket,
        ) && q.after_return().has_begun(ticket) && q.after_drain().has_begun(ticket)
            && q.after_fault().has_begun(ticket),
        q.has_completed(ticket) ==> q.after_submit(job).has_completed(ticket)
            && q.after_begin().has_completed(ticket) && q.after_return().has_completed(ticket)
            && q.after_drain().has_completed(ticket) && q.after_fault().has_completed(ticket),
{
}

/// The worker takes jobs in the order of their tickets: the job that begins is
/// the one with the lowest ticket that waits, and after it began, the job that
/// was second in line is first.
pub proof fn lemma_begin_takes_oldest<T>(q: EventQueueView<T>, i: int)
    requires
        q.wf(),
        q.can_begin(),
        0 <= i < q.pending.len() - 1,
    ensures
        q.is_pending(q.started),
        !q.after_begin().is_pending(q.started),
        q.after_begin().has_begun(q.started),
        q.after_begin().pending[i] == q.pending[i + 1],
        q.after_begin().pending.len() == q.pending.len() - 1,
{
}

} // verus!
