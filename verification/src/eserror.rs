//! The typed failures of the bridge.

use vstd::prelude::*;

verus! {

/// A failure that the bridge reports to the caller of one operation.
///
/// Exceptions thrown by script are not in this list: they travel as values, in
/// the `Err` side of a settled promise.
#[derive(Clone, Copy, Debug, PartialEq, Eq, Structural)]
pub enum EsError {
    /// No loader knows the imported module.
    ModuleNotFound,
    /// A handle was used in a realm other than the one it belongs to.
    RealmMismatch,
    /// The feature was not configured when the runtime was built.
    FeatureUnavailable,
    /// Script execution went deeper than the configured stack size.
    StackOverflow,
    /// An allocation would have passed the configured memory limit.
    OutOfMemory,
    /// A blocking caller gave up waiting; the job itself goes on.
    Timeout,
    /// The worker is gone for good; nothing will run any more.
    WorkerPanicked,
    /// The job panicked; the panic was caught and the worker goes on.
    JobPanicked,
}

impl EsError {
    /// Whether the error ends the whole runtime rather than one operation.
    pub open spec fn is_terminal(self) -> bool {
        self == EsError::WorkerPanicked
    }

    /// Tells whether the runtime is unusable after this error.
    pub fn terminal(&self) -> (r: bool)
        ensures
            r == self.is_terminal(),
    {
        match self {
            EsError::WorkerPanicked => true,
            _ => false,
        }
    }

    /// The name of the error, for messages.
    pub fn name(&self) -> (s: &'static str)
        ensures
            s@ == Self::name_of(*self),
    {
        match self {
            EsError::ModuleNotFound => "ModuleNotFound",
            EsError::RealmMismatch => "RealmMismatch",
            EsError::FeatureUnavailable => "FeatureUnavailable",
            EsError::StackOverflow => "StackOverflow",
            EsError::OutOfMemory => "OutOfMemory",
            EsError::Timeout => "Timeout",
            EsError::WorkerPanicked => "WorkerPanicked",
            EsError::JobPanicked => "JobPanicked",
        }
    }

    /// The characters of an error's name.
    pub open spec fn name_of(e: EsError) -> Seq<char> {
        match e {
            EsError::ModuleNotFound => "ModuleNotFound"@,
            EsError::RealmMismatch => "RealmMismatch"@,
            EsError::FeatureUnavailable => "FeatureUnavailable"@,
            EsError::StackOverflow => "StackOverflow"@,
            EsError::OutOfMemory => "OutOfMemory"@,
            EsError::Timeout => "Timeout"@,
            EsError::WorkerPanicked => "WorkerPanicked"@,
            EsError::JobPanicked => "JobPanicked"@,
        }
    }
}

} // verus!
