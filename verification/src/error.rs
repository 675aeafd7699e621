//! How a task can fail.
use vstd::prelude::*;

verus! {

/// An error returned from a failed task.
///
/// `P` is what a panic carries.
#[derive(Debug)]
pub enum Error<P> {
    /// The task was cancelled before it could finish.
    Cancelled,
    /// The task panicked.
    Panicked {
        /// The panic payload.
        payload: P,
    },
}

/// A result returned from a task.
pub type Result<T, P> = core::result::Result<T, Error<P>>;

impl<P> Error<P> {
    /// The error of a task that panicked.
    pub fn panicked(payload: P) -> (error: Error<P>)
        ensures
            error == (Error::Panicked { payload }),
    {
        Error::Panicked { payload }
    }

    /// The text that describes this error to a person.
    pub open spec fn description(self) -> Seq<char> {
        match self {
            Error::Cancelled => "the task was cancelled"@,
            Error::Panicked { .. } => "the task panicked"@,
        }
    }

    /// Describes this error to a person.
    pub fn message(&self) -> (text: &'static str)
        ensures
            text@ == self.description(),
    {
        match self {
            Error::Cancelled => "the task was cancelled",
            Error::Panicked { .. } => "the task panicked",
        }
    }
}

} // verus!
