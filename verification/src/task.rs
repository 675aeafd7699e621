//! A task and the handles to it.
//!
//! A [`Task`] is one value, kept by the executor at an address of its choice. Handles name the
//! task by that address: a [`Runnable`] is the right to run it once, a [`RawJoinHandle`] the
//! right to its output, and a plain [`RawHandle`] the right to wake or cancel it. Each operation
//! takes the task by `&mut` and is one indivisible step; between two steps the executor may let
//! other threads make theirs. What has to happen while nobody holds the task is handed back for
//! the executor to do: polling the future, waking a waiter, calling the scheduler, running a
//! destructor.
use crate::error::{Error, Result};
use crate::schedule::{ScheduleInfo, ScheduleRequest};
use crate::state::{State, StateView, Snapshot};
use core::marker::PhantomData;
use core::task::Waker;
use std::sync::Arc;
use vstd::prelude::*;

verus! {

/// Declares `core::task::Waker`. A waker is stored and handed on; nothing is claimed of it.
#[verifier::external_type_specification]
#[verifier::external_body]
pub struct ExWaker(core::task::Waker);

/// What a task holds apart from its bookkeeping.
pub enum Payload<F, R, P> {
    /// The future, waiting to be polled.
    Future(F),
    /// Nothing for now: the future was handed out to be polled.
    Polling,
    /// The output, waiting to be taken.
    Value(Result<R, P>),
    /// Nothing any more.
    Empty,
}

/// The part of a task that does not depend on its types.
struct Header {
    state: State,
    waker: Option<Arc<Waker>>,
}

/// A task.
pub struct Task<F, R, S, M, P> {
    ptr: usize,
    header: Header,
    payload: Payload<F, R, P>,
    scheduler: S,
    metadata: M,
}

/// What a task is, field by field.
pub struct TaskView<F, R, S, M, P> {
    pub ptr: usize,
    pub state: StateView,
    pub waker: Option<Arc<Waker>>,
    pub payload: Payload<F, R, P>,
    pub scheduler: S,
    pub metadata: M,
}

impl<F, R, S, M, P> View for Task<F, R, S, M, P> {
    type V = TaskView<F, R, S, M, P>;

    closed spec fn view(&self) -> TaskView<F, R, S, M, P> {
        TaskView {
            ptr: self.ptr,
            state: self.header.state@,
            waker: self.header.waker,
            payload: self.payload,
            scheduler: self.scheduler,
            metadata: self.metadata,
        }
    }
}

/// The answer to giving a handle back.
pub enum Release<F, R, P> {
    /// Other handles to the task remain.
    Shared,
    /// This was the last handle. What the task still held is here for its destructor to be run,
    /// and the memory of the task can be reused.
    Freed(Payload<F, R, P>),
}

/// The answer to waking a task.
pub enum Wake<F, R, M, P> {
    /// The task is now scheduled, and this request is to be submitted to its scheduler.
    Schedule(ScheduleRequest<M>),
    /// The task was scheduled already, and the handle was given back.
    Release(Release<F, R, P>),
}

/// What is left to do at the end of a run.
pub struct Completion<F, R, P> {
    /// The waker of the join handle, to be woken.
    pub waiter: Option<Arc<Waker>>,
    /// The answer to giving the runnable's handle back.
    pub release: Release<F, R, P>,
}

/// The answer to starting a run.
pub enum Run<F, R, M, P> {
    /// The future is to be polled with `waker`, and the result handed to `running`.
    Poll { running: Running<M>, waker: RawHandle, future: F },
    /// The task was cancelled. Its future is here for its destructor to be run.
    Cancelled { future: F, completion: Completion<F, R, P> },
    /// The future is being polled by another run. The runnable comes back, to be run once that run
    /// has ended.
    Busy { runnable: Runnable<M> },
    /// The task was done already.
    Finished { release: Release<F, R, P> },
}

/// How a poll of the task's future ended.
pub enum Polled<F, R, P> {
    /// With an output. The future is gone.
    Ready(Result<R, P>),
    /// Without one. The future comes back to be polled again.
    Pending(F),
}

/// Whether a value is there yet.
#[derive(Debug)]
pub enum Poll<T> {
    Ready(T),
    Pending,
}

/// The answer to a poll of the join handle.
pub struct Joined<R, P> {
    /// The output, where the task is done.
    pub output: Poll<Result<R, P>>,
    /// A waker that is not registered, or not any more, to be dropped.
    pub unused: Option<Arc<Waker>>,
}

impl<F, R, S, M, P> TaskView<F, R, S, M, P> {
    /// A new task: two handles, no flag, and the future.
    pub open spec fn allocated(ptr: usize, future: F, scheduler: S, metadata: M) -> TaskView<
        F,
        R,
        S,
        M,
        P,
    > {
        TaskView {
            ptr,
            state: StateView::init().add_ref(),
            waker: None,
            payload: Payload::Future(future),
            scheduler,
            metadata,
        }
    }

    /// What holds of every task between two steps.
    pub open spec fn wf(self) -> bool {
        &&& self.state.taken ==> self.state.done
        &&& self.state.yielded ==> self.state.scheduled
        &&& if self.state.ref_count == 0 {
            self.payload is Empty
        } else {
            match self.payload {
                Payload::Future(_) | Payload::Polling => !self.state.done,
                Payload::Value(_) => self.state.done && !self.state.taken,
                Payload::Empty => self.state.done && self.state.taken,
            }
        }
    }

    /// Whether the future is out to be polled.
    pub open spec fn polling(self) -> bool {
        self.payload is Polling
    }

    /// The number of handles, not counting the one that belongs to a run in progress.
    pub open spec fn handles(self) -> int {
        if self.polling() {
            self.state.ref_count - 1
        } else {
            self.state.ref_count as int
        }
    }

    /// Whether a handle that names `ptr` can be a handle to the task.
    pub open spec fn held_by(self, ptr: usize) -> bool {
        &&& self.wf()
        &&& self.ptr == ptr
        &&& self.handles() > 0
    }

    /// Whether a run that names `ptr` can be a run of the task.
    pub open spec fn run_by(self, ptr: usize) -> bool {
        &&& self.wf()
        &&& self.ptr == ptr
        &&& self.polling()
    }

    /// The answer to giving a handle back.
    pub open spec fn release(self) -> Release<F, R, P> {
        if self.state.ref_count > 1 {
            Release::Shared
        } else {
            Release::Freed(self.payload)
        }
    }

    /// A handle was given back.
    pub open spec fn after_drop(self) -> TaskView<F, R, S, M, P> {
        TaskView {
            state: self.state.drop_ref(),
            payload: if self.state.ref_count > 1 {
                self.payload
            } else {
                Payload::Empty
            },
            ..self
        }
    }

    /// A handle was duplicated.
    pub open spec fn after_clone(self) -> TaskView<F, R, S, M, P> {
        TaskView { state: self.state.add_ref(), ..self }
    }

    /// The task was cancelled.
    pub open spec fn after_cancel(self) -> TaskView<F, R, S, M, P> {
        TaskView { state: self.state.cancel(), ..self }
    }

    /// A handle was spent to wake the task.
    pub open spec fn after_wake(self) -> TaskView<F, R, S, M, P> {
        if self.state.scheduled {
            self.after_drop()
        } else if self.polling() {
            TaskView { state: self.state.schedule().yielded(), ..self }
        } else {
            TaskView { state: self.state.schedule(), ..self }
        }
    }

    /// Whether `wake` is the answer to waking the task with a handle that names `ptr`.
    pub open spec fn wake_answer(self, ptr: usize, wake: Wake<F, R, M, P>) -> bool {
        match wake {
            Wake::Schedule(request) => {
                &&& !self.state.scheduled
                &&& request.runnable@ == ptr
                &&& request.info.woken_while_running == self.polling()
            },
            Wake::Release(release) => self.state.scheduled && release == self.release(),
        }
    }

    /// The waker to wake when the task is done: none while the join handle is storing one.
    pub open spec fn waiter(self) -> Option<Arc<Waker>> {
        if self.state.waker_lock {
            None
        } else {
            self.waker
        }
    }

    /// The task is done, with this output. A waker that is registered stays so.
    pub open spec fn after_finish(self, value: Result<R, P>) -> TaskView<F, R, S, M, P> {
        TaskView { state: self.state.finish(), payload: Payload::Value(value), ..self }
    }

    /// A runnable was spent to start a run.
    pub open spec fn after_run(self) -> TaskView<F, R, S, M, P> {
        if self.polling() {
            self
        } else if self.state.done {
            self.after_drop()
        } else if self.state.cancelled {
            self.after_finish(Err(Error::Cancelled)).after_drop()
        } else {
            TaskView { state: self.state.add_ref().run(), payload: Payload::Polling, ..self }
        }
    }

    /// Whether `run` is the answer to running the task with a runnable that names `ptr`.
    pub open spec fn run_answer(self, ptr: usize, run: Run<F, R, M, P>) -> bool {
        match run {
            Run::Poll { running, waker, future } => {
                &&& !self.state.done && !self.state.cancelled
                &&& running@ == ptr
                &&& waker@ == ptr
                &&& self.payload == Payload::<F, R, P>::Future(future)
            },
            Run::Cancelled { future, completion } => {
                &&& !self.state.done && self.state.cancelled
                &&& self.payload == Payload::<F, R, P>::Future(future)
                &&& completion.waiter == self.waiter()
                &&& completion.release == self.after_finish(Err(Error::Cancelled)).release()
            },
            Run::Busy { runnable } => self.polling() && runnable@ == ptr,
            Run::Finished { release } => self.state.done && release == self.release(),
        }
    }

    /// The poll of a run has ended, before the handle of the run is given back.
    pub open spec fn after_polled(self, polled: Polled<F, R, P>) -> TaskView<F, R, S, M, P> {
        match polled {
            Polled::Ready(value) => self.after_finish(value),
            Polled::Pending(future) => TaskView { payload: Payload::Future(future), ..self },
        }
    }

    /// A run has ended.
    pub open spec fn after_complete(self, polled: Polled<F, R, P>) -> TaskView<F, R, S, M, P> {
        self.after_polled(polled).after_drop()
    }

    /// What is left to do at the end of a run.
    pub open spec fn completion(self, polled: Polled<F, R, P>) -> Completion<F, R, P> {
        Completion {
            waiter: if polled is Ready {
                self.waiter()
            } else {
                None
            },
            release: self.after_polled(polled).release(),
        }
    }

    /// What the join handle gets when it asks for the output.
    pub open spec fn output(self) -> Poll<Result<R, P>> {
        match self.payload {
            Payload::Value(value) => Poll::Ready(value),
            _ => Poll::Pending,
        }
    }

    /// The join handle has asked for the output, and turned the waker lock.
    pub open spec fn after_try_take(self) -> TaskView<F, R, S, M, P> {
        if self.state.done {
            TaskView {
                state: self.state.toggle_waker_lock().take(),
                payload: Payload::Empty,
                ..self
            }
        } else {
            TaskView { state: self.state.toggle_waker_lock(), ..self }
        }
    }

    /// The join handle has registered its waker.
    pub open spec fn after_store_waker(self, waker: Arc<Waker>) -> TaskView<F, R, S, M, P> {
        TaskView { waker: Some(waker), ..self }
    }

    /// The answer to ending a poll of the join handle, where `waker` takes the place of the
    /// registered one.
    pub open spec fn finish_poll_answer(self) -> Joined<R, P> {
        Joined { output: self.output(), unused: self.waker }
    }

    /// The answer to polling the join handle with `waker`, which is not registered where the
    /// output is there at once.
    pub open spec fn poll_answer(self, waker: Arc<Waker>) -> Joined<R, P> {
        Joined {
            output: self.output(),
            unused: if self.state.done {
                Some(waker)
            } else {
                self.waker
            },
        }
    }

    /// The join handle has been polled.
    pub open spec fn after_poll(self, waker: Arc<Waker>) -> TaskView<F, R, S, M, P> {
        if self.state.done {
            self.after_try_take()
        } else {
            self.after_store_waker(waker)
        }
    }

    /// The join handle is marked as dropped.
    pub open spec fn after_detach(self) -> TaskView<F, R, S, M, P> {
        TaskView { state: self.state.drop_handle(), ..self }
    }
}

impl<F, R, S, M, P> Task<F, R, S, M, P> {
    /// Makes the task that is kept at `ptr`, and its first two handles.
    pub fn allocate(ptr: usize, future: F, scheduler: S, metadata: M) -> (spawned: (
        Task<F, R, S, M, P>,
        Runnable<M>,
        RawJoinHandle<R, M>,
    ))
        ensures
            spawned.0@ == TaskView::<F, R, S, M, P>::allocated(ptr, future, scheduler, metadata),
            spawned.0@.wf(),
            spawned.1@ == ptr,
            spawned.2@ == ptr,
    {
        let mut task = Task {
            ptr,
            header: Header { state: State::new(), waker: None },
            payload: Payload::Future(future),
            scheduler,
            metadata,
        };
        let handle = RawHandle { ptr };
        let join_handle = RawJoinHandle::new(handle.clone(&mut task));
        let runnable = Runnable::new(handle);
        (task, runnable, join_handle)
    }

    /// The address that the task is kept at.
    pub fn ptr(&self) -> (ptr: usize)
        ensures
            ptr == self@.ptr,
    {
        self.ptr
    }

    /// A copy of the task's state.
    pub fn snapshot(&self) -> (snapshot: Snapshot)
        ensures
            snapshot@ == self@.state,
    {
        self.header.state.snapshot()
    }

    /// Whether the future is out to be polled.
    pub fn polling(&self) -> (polling: bool)
        ensures
            polling == self@.polling(),
    {
        matches!(self.payload, Payload::Polling)
    }

    /// The scheduler that its requests are submitted to.
    pub fn scheduler(&self) -> (scheduler: &S)
        ensures
            *scheduler == self@.scheduler,
    {
        &self.scheduler
    }

    /// The metadata associated with the task.
    pub fn metadata(&self) -> (metadata: &M)
        ensures
            *metadata == self@.metadata,
    {
        &self.metadata
    }

    /// Exchanges what the task holds.
    fn replace_payload(&mut self, payload: Payload<F, R, P>) -> (before: Payload<F, R, P>)
        ensures
            before == old(self)@.payload,
            final(self)@ == (TaskView { payload, ..old(self)@ }),
    {
        let mut before = payload;
        core::mem::swap(&mut self.payload, &mut before);
        before
    }

    /// Hands the future out to be polled.
    fn take_future(&mut self) -> (future: F)
        requires
            old(self)@.payload is Future,
        ensures
            old(self)@.payload == Payload::<F, R, P>::Future(future),
            final(self)@ == (TaskView { payload: Payload::Polling, ..old(self)@ }),
    {
        match self.replace_payload(Payload::Polling) {
            Payload::Future(future) => future,
            _ => vstd::pervasive::unreached(),
        }
    }

    /// Stores the output, marks the task as done, and hands out the registered waker, to be woken,
    /// unless the join handle is storing one.
    fn wake_waiter(&mut self, value: Result<R, P>) -> (waiter: Option<Arc<Waker>>)
        ensures
            waiter == old(self)@.waiter(),
            final(self)@ == old(self)@.after_finish(value),
    {
        self.payload = Payload::Value(value);
        let snapshot = self.header.state.finish();
        if snapshot.waker_lock() {
            None
        } else {
            match &self.header.waker {
                Some(waker) => Some(Arc::clone(waker)),
                None => None,
            }
        }
    }
}

/// A handle to a task: the address at which the task is kept.
///
/// Each handle counts once in the task's reference count until it is given back.
pub struct RawHandle {
    ptr: usize,
}

impl View for RawHandle {
    type V = usize;

    closed spec fn view(&self) -> usize {
        self.ptr
    }
}

impl RawHandle {
    /// The address of the task.
    pub fn ptr(&self) -> (ptr: usize)
        ensures
            ptr == self@,
    {
        self.ptr
    }

    /// Turns the handle into the address it names. The handle stays counted.
    pub fn into_raw(self) -> (ptr: usize)
        ensures
            ptr == self@,
    {
        self.ptr
    }

    /// Turns an address from [`RawHandle::into_raw`] into a handle again.
    pub fn from_raw(ptr: usize) -> (handle: RawHandle)
        ensures
            handle@ == ptr,
    {
        RawHandle { ptr }
    }

    /// Makes one more handle to the task that `ptr` names.
    pub fn clone_from_raw<F, R, S, M, P>(ptr: usize, task: &mut Task<F, R, S, M, P>) -> (handle:
        RawHandle)
        requires
            old(task)@.held_by(ptr),
            old(task)@.state.has_room(),
        ensures
            handle@ == ptr,
            final(task)@ == old(task)@.after_clone(),
            final(task)@.held_by(ptr),
    {
        task.header.state.add_ref();
        RawHandle::from_raw(ptr)
    }

    /// Makes one more handle to the same task.
    pub fn clone<F, R, S, M, P>(&self, task: &mut Task<F, R, S, M, P>) -> (handle: RawHandle)
        requires
            old(task)@.held_by(self@),
            old(task)@.state.has_room(),
        ensures
            handle@ == self@,
            final(task)@ == old(task)@.after_clone(),
            final(task)@.held_by(self@),
    {
        task.header.state.add_ref();
        RawHandle { ptr: self.ptr }
    }

    /// Cancels the task: the next run finishes it instead of polling its future.
    pub fn cancel<F, R, S, M, P>(&self, task: &mut Task<F, R, S, M, P>)
        requires
            old(task)@.held_by(self@),
        ensures
            final(task)@ == old(task)@.after_cancel(),
            final(task)@.held_by(self@),
    {
        task.header.state.cancel();
    }

    /// Gives the handle back. With the last one goes what the task holds: the output where the
    /// task is done and the output was not taken, the future where it is not done.
    pub fn drop<F, R, S, M, P>(self, task: &mut Task<F, R, S, M, P>) -> (release: Release<F, R, P>)
        requires
            old(task)@.held_by(self@),
        ensures
            release == old(task)@.release(),
            final(task)@ == old(task)@.after_drop(),
            final(task)@.wf(),
            release matches Release::Freed(rest) ==> {
                &&& rest is Value <==> old(task)@.state.done && !old(task)@.state.taken
                &&& rest is Empty <==> old(task)@.state.done && old(task)@.state.taken
                &&& rest is Future <==> !old(task)@.state.done
            },
    {
        let snapshot = task.header.state.drop_ref();
        if snapshot.ref_count() > 1 {
            return Release::Shared;
        }
        Release::Freed(task.replace_payload(Payload::Empty))
    }

    /// Spends the handle to wake the task: schedules it, unless it is scheduled already.
    pub fn wake<F, R, S, M, P>(self, task: &mut Task<F, R, S, M, P>) -> (wake: Wake<F, R, M, P>)
        requires
            old(task)@.held_by(self@),
        ensures
            old(task)@.wake_answer(self@, wake),
            final(task)@ == old(task)@.after_wake(),
            final(task)@.wf(),
    {
        if task.header.state.schedule().scheduled() {
            return Wake::Release(self.drop(task));
        }
        if task.polling() {
            task.header.state.yielded();
        }
        let info = ScheduleInfo {
            woken_while_running: task.header.state.snapshot().yielded(),
        };
        Wake::Schedule(ScheduleRequest { runnable: Runnable::new(self), info })
    }
}

/// A task which can be run or scheduled.
pub struct Runnable<M = ()> {
    handle: RawHandle,
    _marker: PhantomData<M>,
}

impl<M> View for Runnable<M> {
    type V = usize;

    closed spec fn view(&self) -> usize {
        self.handle@
    }
}

impl<M> Runnable<M> {
    fn new(handle: RawHandle) -> (runnable: Runnable<M>)
        ensures
            runnable@ == handle@,
    {
        Runnable { handle, _marker: PhantomData }
    }

    /// The address of the task that this runnable runs.
    pub fn ptr(&self) -> (ptr: usize)
        ensures
            ptr == self@,
    {
        self.handle.ptr
    }

    /// Pass the task to the scheduler. A task that is scheduled already is not passed on again:
    /// the runnable is given back.
    pub fn schedule<F, R, S, P>(self, task: &mut Task<F, R, S, M, P>) -> (wake: Wake<F, R, M, P>)
        requires
            old(task)@.held_by(self@),
        ensures
            old(task)@.wake_answer(self@, wake),
            final(task)@ == old(task)@.after_wake(),
            final(task)@.wf(),
    {
        self.handle.wake(task)
    }

    /// Run the task to the next yield point.
    ///
    /// A task that was cancelled finishes here. Otherwise the future is handed out to be polled,
    /// and the run ends with [`Running::complete`]; until then no other run polls it.
    pub fn run<F, R, S, P>(self, task: &mut Task<F, R, S, M, P>) -> (run: Run<F, R, M, P>)
        requires
            old(task)@.held_by(self@),
            old(task)@.payload is Future && !old(task)@.state.cancelled
                ==> old(task)@.state.has_room(),
        ensures
            old(task)@.run_answer(self@, run),
            final(task)@ == old(task)@.after_run(),
            final(task)@.wf(),
    {
        if task.polling() {
            return Run::Busy { runnable: self };
        }
        let snapshot = task.header.state.snapshot();
        if snapshot.done() {
            return Run::Finished { release: self.handle.drop(task) };
        }
        if snapshot.cancelled() {
            let future = task.take_future();
            let waiter = task.wake_waiter(Err(Error::Cancelled));
            let release = self.handle.drop(task);
            return Run::Cancelled { future, completion: Completion { waiter, release } };
        }
        let waker = self.handle.clone(task);
        task.header.state.run();
        let future = task.take_future();
        Run::Poll { running: Running { runnable: self }, waker, future }
    }

    /// Gives the runnable back without running the task.
    pub fn drop<F, R, S, P>(self, task: &mut Task<F, R, S, M, P>) -> (release: Release<F, R, P>)
        requires
            old(task)@.held_by(self@),
        ensures
            release == old(task)@.release(),
            final(task)@ == old(task)@.after_drop(),
            final(task)@.wf(),
    {
        self.handle.drop(task)
    }

    /// The metadata associated with the task.
    pub fn metadata<'a, F, R, S, P>(&self, task: &'a Task<F, R, S, M, P>) -> (metadata: &'a M)
        requires
            task@.held_by(self@),
        ensures
            *metadata == task@.metadata,
    {
        task.metadata()
    }
}

/// A run whose future is being polled.
pub struct Running<M = ()> {
    runnable: Runnable<M>,
}

impl<M> View for Running<M> {
    type V = usize;

    closed spec fn view(&self) -> usize {
        self.runnable@
    }
}

impl<M> Running<M> {
    /// Ends the run. An output is stored for the join handle; a future that is not ready goes back
    /// to the task.
    pub fn complete<F, R, S, P>(
        self,
        task: &mut Task<F, R, S, M, P>,
        polled: Polled<F, R, P>,
    ) -> (completion: Completion<F, R, P>)
        requires
            old(task)@.run_by(self@),
        ensures
            completion == old(task)@.completion(polled),
            final(task)@ == old(task)@.after_complete(polled),
            final(task)@.wf(),
    {
        let waiter = match polled {
            Polled::Ready(value) => task.wake_waiter(value),
            Polled::Pending(future) => {
                task.payload = Payload::Future(future);
                None
            },
        };
        let release = self.runnable.handle.drop(task);
        Completion { waiter, release }
    }
}

/// The handle that a task's output is handed to.
pub struct RawJoinHandle<T, M> {
    handle: RawHandle,
    _marker: PhantomData<(T, M)>,
}

impl<T, M> View for RawJoinHandle<T, M> {
    type V = usize;

    closed spec fn view(&self) -> usize {
        self.handle@
    }
}

impl<T, M> RawJoinHandle<T, M> {
    fn new(handle: RawHandle) -> (join_handle: RawJoinHandle<T, M>)
        ensures
            join_handle@ == handle@,
    {
        RawJoinHandle { handle, _marker: PhantomData }
    }

    /// The metadata associated with the task.
    pub fn metadata<'a, F, S, P>(&self, task: &'a Task<F, T, S, M, P>) -> (metadata: &'a M)
        requires
            task@.held_by(self@),
        ensures
            *metadata == task@.metadata,
    {
        task.metadata()
    }

    /// Turns the waker lock, and takes the output where the task is done. This starts a poll; where
    /// the task is not done, the poll ends with [`RawJoinHandle::finish_poll`].
    pub fn try_take_output<F, S, P>(&self, task: &mut Task<F, T, S, M, P>) -> (output: Poll<
        Result<T, P>,
    >)
        requires
            old(task)@.held_by(self@),
            !old(task)@.state.taken,
        ensures
            output == old(task)@.output(),
            output is Ready <==> old(task)@.state.done,
            final(task)@ == old(task)@.after_try_take(),
            final(task)@.held_by(self@),
    {
        let snapshot = task.header.state.toggle_waker_lock();
        if snapshot.done() {
            task.header.state.take();
            match task.replace_payload(Payload::Empty) {
                Payload::Value(value) => Poll::Ready(value),
                _ => vstd::pervasive::unreached(),
            }
        } else {
            Poll::Pending
        }
    }

    /// Ends a poll: registers the waker in place of the one before, turns the waker lock back, and
    /// takes the output where the task has become done since.
    pub fn finish_poll<F, S, P>(&self, task: &mut Task<F, T, S, M, P>, waker: Arc<Waker>) -> (joined:
        Joined<T, P>)
        requires
            old(task)@.held_by(self@),
            !old(task)@.state.taken,
        ensures
            joined == old(task)@.finish_poll_answer(),
            joined.output is Ready <==> old(task)@.state.done,
            final(task)@ == old(task)@.after_store_waker(waker).after_try_take(),
            final(task)@.held_by(self@),
    {
        let mut unused = Some(waker);
        core::mem::swap(&mut task.header.waker, &mut unused);
        let output = self.try_take_output(task);
        Joined { output, unused }
    }

    /// Takes the output where the task is done. Otherwise registers the waker, which is woken when
    /// the task becomes done.
    pub fn poll<F, S, P>(&self, task: &mut Task<F, T, S, M, P>, waker: Arc<Waker>) -> (joined: Joined<
        T,
        P,
    >)
        requires
            old(task)@.held_by(self@),
            !old(task)@.state.taken,
        ensures
            joined == old(task)@.poll_answer(waker),
            joined.output is Ready <==> old(task)@.state.done,
            final(task)@ == old(task)@.after_poll(waker),
            final(task)@.held_by(self@),
    {
        if let Poll::Ready(value) = self.try_take_output(task) {
            return Joined { output: Poll::Ready(value), unused: Some(waker) };
        }
        self.finish_poll(task, waker)
    }

    /// Cancels the task.
    pub fn cancel<F, S, P>(&self, task: &mut Task<F, T, S, M, P>)
        requires
            old(task)@.held_by(self@),
        ensures
            final(task)@ == old(task)@.after_cancel(),
            final(task)@.held_by(self@),
    {
        self.handle.cancel(task);
    }

    /// The handle to the task.
    pub fn handle(&self) -> (handle: &RawHandle)
        ensures
            handle@ == self@,
    {
        &self.handle
    }

    /// Whether the task is done.
    pub fn finished<F, S, P>(&self, task: &Task<F, T, S, M, P>) -> (finished: bool)
        requires
            task@.held_by(self@),
        ensures
            finished == task@.state.done,
    {
        task.header.state.snapshot().done()
    }

    /// Gives the handle back. The task goes on without it.
    pub fn drop<F, S, P>(self, task: &mut Task<F, T, S, M, P>) -> (release: Release<F, T, P>)
        requires
            old(task)@.held_by(self@),
        ensures
            release == old(task)@.release(),
            final(task)@ == old(task)@.after_detach().after_drop(),
            final(task)@.wf(),
    {
        task.header.state.drop_handle();
        self.handle.drop(task)
    }
}

} // verus!
