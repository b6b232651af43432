//! Promises as other threads see them.
//!
//! A promise is pending until it settles, and it settles once: fulfilled with
//! a value or rejected with one. A caller that waits for the settlement gets
//! the value on the side on which the promise settled, or learns that its time
//! ran out first.

use vstd::prelude::*;
use crate::eserror::EsError;
use crate::esvalue::{EsValueFacade, EsValueView};

verus! {

/// A promise as a mathematical value.
pub enum PromiseView {
    Pending,
    Fulfilled(EsValueView),
    Rejected(EsValueView),
}

impl PromiseView {
    /// The promise after an attempt to settle it with `outcome`: a pending
    /// promise takes the outcome, a settled one stays as it is.
    pub open spec fn after_settle(self, outcome: Result<EsValueView, EsValueView>) -> Self {
        match self {
            PromiseView::Pending => match outcome {
                Ok(v) => PromiseView::Fulfilled(v),
                Err(v) => PromiseView::Rejected(v),
            },
            _ => self,
        }
    }

    /// How the promise settled, if it has.
    pub open spec fn settlement(self) -> Option<Result<EsValueView, EsValueView>> {
        match self {
            PromiseView::Pending => None,
            PromiseView::Fulfilled(v) => Some(Ok(v)),
            PromiseView::Rejected(v) => Some(Err(v)),
        }
    }
}

/// The state of a promise.
#[derive(Debug)]
pub enum PromiseState {
    Pending,
    Fulfilled(EsValueFacade),
    Rejected(EsValueFacade),
}

impl View for PromiseState {
    type V = PromiseView;

    open spec fn view(&self) -> PromiseView {
        match self {
            PromiseState::Pending => PromiseView::Pending,
            PromiseState::Fulfilled(v) => PromiseView::Fulfilled(v@),
            PromiseState::Rejected(v) => PromiseView::Rejected(v@),
        }
    }
}

/// The view of a fulfilment or rejection.
pub open spec fn outcome_view(outcome: Result<EsValueFacade, EsValueFacade>) -> Result<
    EsValueView,
    EsValueView,
> {
    match outcome {
        Ok(v) => Ok(v@),
        Err(v) => Err(v@),
    }
}

/// The view of what a caller learns of a promise.
pub open spec fn awaited_view(r: Result<Result<EsValueFacade, EsValueFacade>, EsError>) -> Result<
    Result<EsValueView, EsValueView>,
    EsError,
> {
    match r {
        Ok(outcome) => Ok(outcome_view(outcome)),
        Err(e) => Err(e),
    }
}

impl PromiseState {
    /// A pending promise.
    pub fn new() -> (p: Self)
        ensures
            p@ == PromiseView::Pending,
    {
        PromiseState::Pending
    }

    /// Settles the promise with `outcome` if it is pending. The result says
    /// whether it was; a promise that had settled keeps its settlement.
    pub fn settle(&mut self, outcome: Result<EsValueFacade, EsValueFacade>) -> (settled: bool)
        ensures
            settled == (old(self)@ is Pending),
            final(self)@ == old(self)@.after_settle(outcome_view(outcome)),
    {
        match self {
            PromiseState::Pending => {
                *self = match outcome {
                    Ok(v) => PromiseState::Fulfilled(v),
                    Err(v) => PromiseState::Rejected(v),
                };
                true
            },
            _ => false,
        }
    }

    /// Whether the promise has settled.
    pub fn is_settled(&self) -> (r: bool)
        ensures
            r == !(self@ is Pending),
    {
        match self {
            PromiseState::Pending => false,
            _ => true,
        }
    }

    /// What a caller learns who waited for the promise: how it settled, or
    /// `Timeout` if it is still pending when the caller's time has run out.
    pub fn await_result(&self) -> (r: Result<Result<EsValueFacade, EsValueFacade>, EsError>)
        ensures
            awaited_view(r) == (match self@.settlement() {
                Some(outcome) => Ok::<Result<EsValueView, EsValueView>, EsError>(outcome),
                None => Err::<Result<EsValueView, EsValueView>, EsError>(EsError::Timeout),
            }),
    {
        match self {
            PromiseState::Pending => Err(EsError::Timeout),
            PromiseState::Fulfilled(v) => Ok(Ok(v.copy())),
            PromiseState::Rejected(v) => Ok(Err(v.copy())),
        }
    }
}

/// A promise settles once: after the first settlement no further one changes
/// it.
pub proof fn lemma_settles_once(
    p: PromiseView,
    first: Result<EsValueView, EsValueView>,
    second: Result<EsValueView, EsValueView>,
)
    ensures
        p.after_settle(first).after_settle(second) == p.after_settle(first),
        p is Pending ==> p.after_settle(first).settlement() == Some(first),
{
}

} // verus!
