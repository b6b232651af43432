//! When the worker collects garbage.
//!
//! The policy counts the allocations that the worker reports and knows when
//! the last collection ran. A collection is due as soon as the configured
//! number of allocations has been reached, or the configured time has passed.
//! The policy decides and keeps the books; the collection itself is the
//! engine's work and runs before the worker does anything else.

use vstd::prelude::*;

verus! {

/// The policy as a mathematical value. Times are milliseconds on the
/// worker's monotonic clock.
pub struct GcPolicyView {
    /// Allocations between forced collections, if configured.
    pub threshold: Option<nat>,
    /// Time between forced collections, if configured.
    pub interval: Option<nat>,
    /// Allocations tracked since the last collection.
    pub allocations: nat,
    /// When the last collection ran; zero before the first.
    pub last_collection: nat,
    /// How many collections have run.
    pub collections: nat,
}

impl GcPolicyView {
    /// Under a threshold the tracked allocations stay below it, since reaching
    /// it forces a collection at once.
    pub open spec fn wf(self) -> bool {
        self.threshold matches Some(n) ==> self.allocations < n || self.allocations == 0
    }

    /// The policy before anything happened.
    pub open spec fn initial(threshold: Option<nat>, interval: Option<nat>) -> Self {
        GcPolicyView { threshold, interval, allocations: 0, last_collection: 0, collections: 0 }
    }

    /// The time since the last collection, none if the clock reads earlier.
    pub open spec fn elapsed(self, now: nat) -> nat {
        if now >= self.last_collection {
            (now - self.last_collection) as nat
        } else {
            0
        }
    }

    /// Enough allocations were tracked.
    pub open spec fn threshold_reached(self) -> bool {
        self.threshold matches Some(n) && self.allocations >= n
    }

    /// Enough time has passed.
    pub open spec fn interval_elapsed(self, now: nat) -> bool {
        self.interval matches Some(i) && self.elapsed(now) >= i
    }

    /// A collection is due at time `now`.
    pub open spec fn due(self, now: nat) -> bool {
        self.threshold_reached() || self.interval_elapsed(now)
    }

    /// The policy after a collection at time `now`.
    pub open spec fn collected(self, now: nat) -> Self {
        GcPolicyView {
            allocations: 0,
            last_collection: now,
            collections: self.collections + 1,
            ..self
        }
    }

    /// The policy after it was evaluated at time `now`.
    pub open spec fn evaluated(self, now: nat) -> Self {
        if self.due(now) {
            self.collected(now)
        } else {
            self
        }
    }

    /// The policy with one more allocation on the books.
    pub open spec fn counted(self) -> Self {
        GcPolicyView { allocations: self.allocations + 1, ..self }
    }

    /// The policy after one allocation was tracked at time `now`.
    pub open spec fn after_allocation(self, now: nat) -> Self {
        self.counted().evaluated(now)
    }

    /// The policy after a run of allocations, tracked at the given times.
    pub open spec fn after_allocations(self, times: Seq<nat>) -> Self
        decreases times.len(),
    {
        if times.len() == 0 {
            self
        } else {
            self.after_allocations(times.drop_last()).after_allocation(times.last())
        }
    }
}

/// The garbage collection policy of one worker.
pub struct GcPolicy {
    threshold: Option<u64>,
    interval_millis: Option<u128>,
    allocations: u64,
    last_collection_millis: u128,
    collections: u64,
}

/// A configured number, seen as a natural number.
pub open spec fn opt_nat_of_u64(o: Option<u64>) -> Option<nat> {
    match o {
        Some(n) => Some(n as nat),
        None => None,
    }
}

/// A configured time, seen as a natural number.
pub open spec fn opt_nat_of_u128(o: Option<u128>) -> Option<nat> {
    match o {
        Some(n) => Some(n as nat),
        None => None,
    }
}

impl View for GcPolicy {
    type V = GcPolicyView;

    closed spec fn view(&self) -> GcPolicyView {
        GcPolicyView {
            threshold: opt_nat_of_u64(self.threshold),
            interval: opt_nat_of_u128(self.interval_millis),
            allocations: self.allocations as nat,
            last_collection: self.last_collection_millis as nat,
            collections: self.collections as nat,
        }
    }
}

impl GcPolicy {
    /// A policy with the given threshold and interval and clean books.
    pub fn new(threshold: Option<u64>, interval_millis: Option<u128>) -> (p: Self)
        ensures
            p@ == GcPolicyView::initial(opt_nat_of_u64(threshold), opt_nat_of_u128(interval_millis)),
            p@.wf(),
    {
        GcPolicy {
            threshold,
            interval_millis,
            allocations: 0,
            last_collection_millis: 0,
            collections: 0,
        }
    }

    /// Whether a collection is due at time `now_millis`.
    pub fn is_due(&self, now_millis: u128) -> (r: bool)
        ensures
            r == self@.due(now_millis as nat),
    {
        let by_count = match self.threshold {
            Some(n) => self.allocations >= n,
            None => false,
        };
        let elapsed: u128 = if now_millis >= self.last_collection_millis {
            now_millis - self.last_collection_millis
        } else {
            0
        };
        let by_time = match self.interval_millis {
            Some(i) => elapsed >= i,
            None => false,
        };
        by_count || by_time
    }

    /// Evaluates the policy, as the worker does after each job. The result
    /// says whether the worker must run a collection now; if so, the books
    /// already show it.
    pub fn evaluate(&mut self, now_millis: u128) -> (collect: bool)
        requires
            old(self)@.collections < u64::MAX,
        ensures
            collect == old(self)@.due(now_millis as nat),
            final(self)@ == old(self)@.evaluated(now_millis as nat),
            old(self)@.wf() ==> final(self)@.wf(),
    {
        if self.is_due(now_millis) {
            self.allocations = 0;
            self.last_collection_millis = now_millis;
            self.collections = self.collections + 1;
            true
        } else {
            false
        }
    }

    /// Tracks one allocation and evaluates the policy at once. The result says
    /// whether the worker must run a collection now.
    pub fn track_allocation(&mut self, now_millis: u128) -> (collect: bool)
        requires
            old(self)@.wf(),
            old(self)@.collections < u64::MAX,
            old(self)@.allocations < u64::MAX,
        ensures
            collect == old(self)@.counted().due(now_millis as nat),
            final(self)@ == old(self)@.after_allocation(now_millis as nat),
            final(self)@.wf(),
            final(self)@.collections >= old(self)@.collections,
    {
        self.allocations = self.allocations + 1;
        self.evaluate(now_millis)
    }

    /// Allocations tracked since the last collection.
    pub fn allocations(&self) -> (n: u64)
        ensures
            n == self@.allocations,
    {
        self.allocations
    }

    /// How many collections have run. The number never goes down.
    pub fn collections_run(&self) -> (n: u64)
        ensures
            n == self@.collections,
    {
        self.collections
    }

    /// The configured threshold.
    pub fn threshold(&self) -> (t: Option<u64>)
        ensures
            opt_nat_of_u64(t) == self@.threshold,
    {
        self.threshold
    }

    /// The configured interval in milliseconds.
    pub fn interval_millis(&self) -> (t: Option<u128>)
        ensures
            opt_nat_of_u128(t) == self@.interval,
    {
        self.interval_millis
    }
}

/// Neither tracking an allocation nor evaluating the policy ever lowers the
/// number of collections run, and both keep a valid policy valid.
pub proof fn lemma_collections_never_decrease(p: GcPolicyView, now: nat)
    requires
        p.wf(),
    ensures
        p.evaluated(now).collections >= p.collections,
        p.after_allocation(now).collections >= p.collections,
        p.evaluated(now).wf(),
        p.after_allocation(now).wf(),
        p.evaluated(now).threshold == p.threshold,
        p.after_allocation(now).threshold == p.threshold,
{
}

/// A run of tracked allocations keeps the policy valid and its threshold, and
/// never lowers the number of collections run.
pub proof fn lemma_allocations_monotone(p: GcPolicyView, times: Seq<nat>)
    requires
        p.wf(),
    ensures
        p.after_allocations(times).wf(),
        p.after_allocations(times).threshold == p.threshold,
        p.after_allocations(times).collections >= p.collections,
    decreases times.len(),
{
    if times.len() > 0 {
        lemma_allocations_monotone(p, times.drop_last());
        lemma_collections_never_decrease(p.after_allocations(times.drop_last()), times.last());
    }
}

/// As long as no collection has run during a run of tracked allocations, each
/// of them is still on the books.
proof fn lemma_uncollected_allocations_add_up(p: GcPolicyView, times: Seq<nat>)
    requires
        p.wf(),
        p.after_allocations(times).collections == p.collections,
    ensures
        p.after_allocations(times).allocations == p.allocations + times.len(),
    decreases times.len(),
{
    if times.len() > 0 {
        let before = p.after_allocations(times.drop_last());
        lemma_allocations_monotone(p, times.drop_last());
        lemma_collections_never_decrease(before, times.last());
        lemma_uncollected_allocations_add_up(p, times.drop_last());
    }
}

/// With a threshold of `n` allocations, a collection runs within any `n`
/// tracked allocations, whenever they happen; with a threshold of zero, at
/// the first.
pub proof fn lemma_threshold_forces_collection(p: GcPolicyView, times: Seq<nat>)
    requires
        p.wf(),
        p.threshold matches Some(n) && n <= times.len(),
        times.len() > 0,
    ensures
        p.after_allocations(times).collections > p.collections,
{
    lemma_allocations_monotone(p, times);
    if p.after_allocations(times).collections == p.collections {
        lemma_uncollected_allocations_add_up(p, times);
    }
}

} // verus!
