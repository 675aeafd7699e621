//! The handles that a spawned task is watched and cancelled with.
use crate::error::Result;
use crate::task::{Joined, Poll, RawHandle, RawJoinHandle, Release, Task};
use core::task::Waker;
use std::sync::Arc;
use vstd::prelude::*;

verus! {

/// A handle to a running task.
pub struct JoinHandle<T, M = ()> {
    raw: RawJoinHandle<T, M>,
}

impl<T, M> View for JoinHandle<T, M> {
    type V = usize;

    closed spec fn view(&self) -> usize {
        self.raw@
    }
}

impl<T, M> JoinHandle<T, M> {
    pub(crate) fn new(raw: RawJoinHandle<T, M>) -> (handle: JoinHandle<T, M>)
        ensures
            handle@ == raw@,
    {
        JoinHandle { raw }
    }

    /// The address of the task.
    pub fn ptr(&self) -> (ptr: usize)
        ensures
            ptr == self@,
    {
        self.raw.handle().ptr()
    }

    /// The metadata associated with the task.
    pub fn metadata<'a, F, S, P>(&self, task: &'a Task<F, T, S, M, P>) -> (metadata: &'a M)
        requires
            task@.held_by(self@),
        ensures
            *metadata == task@.metadata,
    {
        self.raw.metadata(task)
    }

    /// Cancel the task.
    pub fn cancel<F, S, P>(&self, task: &mut Task<F, T, S, M, P>)
        requires
            old(task)@.held_by(self@),
        ensures
            final(task)@ == old(task)@.after_cancel(),
            final(task)@.held_by(self@),
    {
        self.raw.cancel(task);
    }

    /// Create a handle that can be used to cancel the task.
    pub fn abort_handle<F, S, P>(&self, task: &mut Task<F, T, S, M, P>) -> (handle: AbortHandle)
        requires
            old(task)@.held_by(self@),
            old(task)@.state.has_room(),
        ensures
            handle@ == self@,
            final(task)@ == old(task)@.after_clone(),
            final(task)@.held_by(self@),
    {
        AbortHandle { raw: self.raw.handle().clone(task) }
    }

    /// Whether the future is finished.
    pub fn finished<F, S, P>(&self, task: &Task<F, T, S, M, P>) -> (finished: bool)
        requires
            task@.held_by(self@),
        ensures
            finished == task@.state.done,
    {
        self.raw.finished(task)
    }

    /// Starts a poll: takes the output where the task is done. Where it is not, the poll ends with
    /// [`JoinHandle::finish_poll`].
    pub fn start_poll<F, S, P>(&self, task: &mut Task<F, T, S, M, P>) -> (output: Poll<
        Result<T, P>,
    >)
        requires
            old(task)@.held_by(self@),
            !old(task)@.state.taken,
        ensures
            output == old(task)@.output(),
            output is Ready <==> old(task)@.state.done,
            final(task)@ == old(task)@.after_try_take(),
            final(task)@.held_by(self@),
    {
        self.raw.try_take_output(task)
    }

    /// Ends a poll: registers the waker in place of the one before, and takes the output where the
    /// task has become done since the poll was started.
    pub fn finish_poll<F, S, P>(&self, task: &mut Task<F, T, S, M, P>, waker: Arc<Waker>) -> (joined:
        Joined<T, P>)
        requires
            old(task)@.held_by(self@),
            !old(task)@.state.taken,
        ensures
            joined == old(task)@.finish_poll_answer(),
            joined.output is Ready <==> old(task)@.state.done,
            final(task)@ == old(task)@.after_store_waker(waker).after_try_take(),
            final(task)@.held_by(self@),
    {
        self.raw.finish_poll(task, waker)
    }

    /// Takes the output where the task is done. Otherwise registers the waker, which is woken when
    /// the task becomes done.
    pub fn poll<F, S, P>(&self, task: &mut Task<F, T, S, M, P>, waker: Arc<Waker>) -> (joined: Joined<
        T,
        P,
    >)
        requires
            old(task)@.held_by(self@),
            !old(task)@.state.taken,
        ensures
            joined == old(task)@.poll_answer(waker),
            joined.output is Ready <==> old(task)@.state.done,
            final(task)@ == old(task)@.after_poll(waker),
            final(task)@.held_by(self@),
    {
        self.raw.poll(task, waker)
    }

    /// Detaches the task: gives the handle back, and the task goes on without it.
    pub fn drop<F, S, P>(self, task: &mut Task<F, T, S, M, P>) -> (release: Release<F, T, P>)
        requires
            old(task)@.held_by(self@),
        ensures
            release == old(task)@.release(),
            final(task)@ == old(task)@.after_detach().after_drop(),
            final(task)@.wf(),
    {
        self.raw.drop(task)
    }
}

/// A handle to cancel a task.
pub struct AbortHandle {
    raw: RawHandle,
}

impl View for AbortHandle {
    type V = usize;

    closed spec fn view(&self) -> usize {
        self.raw@
    }
}

impl AbortHandle {
    /// The address of the task.
    pub fn ptr(&self) -> (ptr: usize)
        ensures
            ptr == self@,
    {
        self.raw.ptr()
    }

    /// Cancel the associated task.
    pub fn cancel<F, R, S, M, P>(&self, task: &mut Task<F, R, S, M, P>)
        requires
            old(task)@.held_by(self@),
        ensures
            final(task)@ == old(task)@.after_cancel(),
            final(task)@.held_by(self@),
    {
        self.raw.cancel(task);
    }

    /// Makes one more handle to the same task.
    pub fn clone<F, R, S, M, P>(&self, task: &mut Task<F, R, S, M, P>) -> (handle: AbortHandle)
        requires
            old(task)@.held_by(self@),
            old(task)@.state.has_room(),
        ensures
            handle@ == self@,
            final(task)@ == old(task)@.after_clone(),
            final(task)@.held_by(self@),
    {
        AbortHandle { raw: self.raw.clone(task) }
    }

    /// Gives the handle back.
    pub fn drop<F, R, S, M, P>(self, task: &mut Task<F, R, S, M, P>) -> (release: Release<F, R, P>)
        requires
            old(task)@.held_by(self@),
        ensures
            release == old(task)@.release(),
            final(task)@ == old(task)@.after_drop(),
            final(task)@.wf(),
    {
        self.raw.drop(task)
    }
}

} // verus!
