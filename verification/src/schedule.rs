//! What a scheduler is and what it is handed.
use crate::task::Runnable;
use vstd::prelude::*;

verus! {

/// Internally-generated information passed to the scheduler.
#[derive(Debug, Clone, Copy)]
pub struct ScheduleInfo {
    /// Indicates whether the task was woken while it was running.
    ///
    /// This usually implies the task yielded.
    pub woken_while_running: bool,
}

/// A task scheduler.
///
/// The typical example is a `impl Fn(Runnable<M>)`.
pub trait Schedule<M = ()> {
    /// Whether the scheduler takes this runnable with this information.
    open spec fn schedule_requires(&self, runnable: Runnable<M>, info: ScheduleInfo) -> bool {
        true
    }

    /// What is known once the scheduler was handed this runnable with this information.
    open spec fn schedule_ensures(&self, runnable: Runnable<M>, info: ScheduleInfo) -> bool {
        true
    }

    /// Schedule the task.
    fn schedule(&self, runnable: Runnable<M>, info: ScheduleInfo)
        requires
            self.schedule_requires(runnable, info),
        ensures
            self.schedule_ensures(runnable, info),
    ;
}

impl<F, M> Schedule<M> for F where F: Fn(Runnable<M>) {
    open spec fn schedule_requires(&self, runnable: Runnable<M>, info: ScheduleInfo) -> bool {
        call_requires(*self, (runnable,))
    }

    open spec fn schedule_ensures(&self, runnable: Runnable<M>, info: ScheduleInfo) -> bool {
        call_ensures(*self, (runnable,), ())
    }

    /// Calls the function with the runnable alone.
    fn schedule(&self, runnable: Runnable<M>, _info: ScheduleInfo)
        ensures
            call_ensures(*self, (runnable,), ()),
    {
        self(runnable);
    }
}

/// A scheduler that receives extra information.
#[derive(Debug)]
pub struct WithInfo<F>(pub F);

impl<F, M> Schedule<M> for WithInfo<F> where F: Fn(Runnable<M>, ScheduleInfo) {
    open spec fn schedule_requires(&self, runnable: Runnable<M>, info: ScheduleInfo) -> bool {
        call_requires(self.0, (runnable, info))
    }

    open spec fn schedule_ensures(&self, runnable: Runnable<M>, info: ScheduleInfo) -> bool {
        call_ensures(self.0, (runnable, info), ())
    }

    /// Calls the function with the runnable and the information.
    fn schedule(&self, runnable: Runnable<M>, info: ScheduleInfo)
        ensures
            call_ensures(self.0, (runnable, info), ()),
    {
        (self.0)(runnable, info);
    }
}

/// A runnable that is due to be handed to the scheduler.
pub struct ScheduleRequest<M = ()> {
    pub runnable: Runnable<M>,
    pub info: ScheduleInfo,
}

impl<M> ScheduleRequest<M> {
    /// Hands the runnable to the scheduler.
    pub fn submit<S: Schedule<M>>(self, scheduler: &S)
        requires
            scheduler.schedule_requires(self.runnable, self.info),
        ensures
            scheduler.schedule_ensures(self.runnable, self.info),
    {
        scheduler.schedule(self.runnable, self.info);
    }
}

} // verus!
