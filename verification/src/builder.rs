//! How a task is spawned, and what is put around its future.
use crate::error::Error;
use crate::handle::JoinHandle;
use crate::schedule::Schedule;
use crate::task::{Payload, Polled, Runnable, Task, TaskView};
use core::future::Future;
use vstd::prelude::*;

verus! {

/// How a poll of a user's future ended.
pub enum PollOutcome<T, P> {
    /// It returned this value.
    Ready(T),
    /// It has to be polled again.
    Pending,
    /// It panicked, with this payload.
    Panicked(P),
}

/// A future together with what becomes of its panics.
pub struct Wrapped<F> {
    pub future: F,
    /// Whether a panic becomes the task's output. If not, it unwinds out of the run.
    pub catch_panics: bool,
}

impl<F> Wrapped<F> {
    /// What the run is told of a poll that ended so, and the panic that goes on unwinding.
    pub open spec fn resolution<T, P>(self, outcome: PollOutcome<T, P>) -> (
        Polled<Wrapped<F>, T, P>,
        Option<P>,
    ) {
        match outcome {
            PollOutcome::Ready(value) => (Polled::Ready(Ok(value)), None),
            PollOutcome::Pending => (Polled::Pending(self), None),
            PollOutcome::Panicked(payload) => if self.catch_panics {
                (Polled::Ready(Err(Error::Panicked { payload })), None)
            } else {
                (Polled::Pending(self), Some(payload))
            },
        }
    }

    /// Decides what the run is told of a poll, and whether a panic goes on unwinding. A future
    /// whose panic was not caught goes back to its task.
    pub fn resolve<T, P>(self, outcome: PollOutcome<T, P>) -> (resolution: (
        Polled<Wrapped<F>, T, P>,
        Option<P>,
    ))
        ensures
            resolution == self.resolution(outcome),
    {
        match outcome {
            PollOutcome::Ready(value) => (Polled::Ready(Ok(value)), None),
            PollOutcome::Pending => (Polled::Pending(self), None),
            PollOutcome::Panicked(payload) => {
                if self.catch_panics {
                    (Polled::Ready(Err(Error::panicked(payload))), None)
                } else {
                    (Polled::Pending(self), Some(payload))
                }
            },
        }
    }
}

/// A future that is polled on one thread only. Threads are told apart by number.
pub struct ThreadLocal<F> {
    future: F,
    thread: u64,
}

impl<F> ThreadLocal<F> {
    pub closed spec fn future(self) -> F {
        self.future
    }

    pub closed spec fn thread(self) -> u64 {
        self.thread
    }

    /// Ties a future to the thread `thread`.
    pub fn new(future: F, thread: u64) -> (local: ThreadLocal<F>)
        ensures
            local.future() == future,
            local.thread() == thread,
    {
        ThreadLocal { future, thread }
    }

    /// The future, to be polled on the thread `thread`. On a thread other than its own, the poll
    /// panics with the message returned instead.
    pub fn poll_on(&mut self, thread: u64) -> (future: core::result::Result<&mut F, &'static str>)
        ensures
            match future {
                Ok(inner) => {
                    &&& thread == old(self).thread()
                    &&& *inner == old(self).future()
                    &&& final(self).future() == *final(inner)
                    &&& final(self).thread() == old(self).thread()
                },
                Err(message) => {
                    &&& thread != old(self).thread()
                    &&& message@
                        == "a local future can only be run on the thread on which it was spawned"@
                    &&& *final(self) == *old(self)
                },
            },
    {
        if self.thread == thread {
            Ok(&mut self.future)
        } else {
            Err("a local future can only be run on the thread on which it was spawned")
        }
    }
}

/// A builder for a task.
pub struct Builder<M> {
    metadata: M,
    catch_panics: bool,
}

/// The settings of a builder.
pub struct BuilderView<M> {
    pub metadata: M,
    pub catch_panics: bool,
}

impl<M> View for Builder<M> {
    type V = BuilderView<M>;

    closed spec fn view(&self) -> BuilderView<M> {
        BuilderView { metadata: self.metadata, catch_panics: self.catch_panics }
    }
}

impl Builder<()> {
    /// Construct a builder with default settings.
    #[must_use]
    pub fn new() -> (builder: Builder<()>)
        ensures
            builder@ == (BuilderView { metadata: (), catch_panics: false }),
    {
        Builder { metadata: (), catch_panics: false }
    }
}

impl Default for Builder<()> {
    fn default() -> (builder: Builder<()>)
        ensures
            builder@ == (BuilderView { metadata: (), catch_panics: false }),
    {
        Builder::new()
    }
}

impl<M> Builder<M> {
    /// Add metadata to the builder.
    ///
    /// The default is `()`.
    #[must_use]
    pub fn metadata<N>(self, metadata: N) -> (builder: Builder<N>)
        ensures
            builder@ == (BuilderView { metadata, catch_panics: self@.catch_panics }),
    {
        Builder { metadata, catch_panics: self.catch_panics }
    }

    /// Whether panics that occur during polling should be caught.
    #[must_use]
    pub fn catch_panics(self, catch_panics: bool) -> (builder: Builder<M>)
        ensures
            builder@ == (BuilderView { catch_panics, ..self@ }),
    {
        Builder { metadata: self.metadata, catch_panics }
    }

    /// Spawn a task to run on an executor, which keeps it at `ptr`.
    pub fn spawn<F, T, S, P>(self, ptr: usize, future: F, scheduler: S) -> (spawned: (
        Task<Wrapped<F>, T, S, M, P>,
        Runnable<M>,
        JoinHandle<T, M>,
    )) where F: Future<Output = T> + Send + 'static, T: Send + 'static, S: Schedule<M> + Sync + 'static
        ensures
            spawned.0@ == TaskView::<Wrapped<F>, T, S, M, P>::allocated(
                ptr,
                Wrapped { future, catch_panics: self@.catch_panics },
                scheduler,
                self@.metadata,
            ),
            spawned.0@.held_by(ptr),
            spawned.1@ == ptr,
            spawned.2@ == ptr,
    {
        self.spawn_unchecked(ptr, future, scheduler)
    }

    /// Spawn a task to run on the same thread it was spawned, which is `thread`.
    pub fn spawn_local<F, T, S, P>(
        self,
        ptr: usize,
        thread: u64,
        future: F,
        scheduler: S,
    ) -> (spawned: (Task<Wrapped<ThreadLocal<F>>, T, S, M, P>, Runnable<M>, JoinHandle<T, M>)) where
        F: Future<Output = T> + 'static,
        T: 'static,
        S: Schedule<M> + 'static,

        ensures
            spawned.0@.payload matches Payload::Future(wrapped) && {
                &&& wrapped.future.future() == future
                &&& wrapped.future.thread() == thread
                &&& wrapped.catch_panics == self@.catch_panics
                &&& spawned.0@ == TaskView::<Wrapped<ThreadLocal<F>>, T, S, M, P>::allocated(
                    ptr,
                    wrapped,
                    scheduler,
                    self@.metadata,
                )
            },
            spawned.0@.held_by(ptr),
            spawned.1@ == ptr,
            spawned.2@ == ptr,
    {
        self.spawn_unchecked(ptr, ThreadLocal::new(future, thread), scheduler)
    }

    /// Makes the panics of a future the output of its task.
    pub fn wrap_catch_unwind<F>(future: F) -> (wrapped: Wrapped<F>)
        ensures
            wrapped == (Wrapped { future, catch_panics: true }),
    {
        Wrapped { future, catch_panics: true }
    }

    /// Lets the panics of a future unwind out of the run.
    pub fn wrap_panicking<F>(future: F) -> (wrapped: Wrapped<F>)
        ensures
            wrapped == (Wrapped { future, catch_panics: false }),
    {
        Wrapped { future, catch_panics: false }
    }

    /// Spawn a task to run on an executor. Nothing is asked of the types: where handles go to
    /// other threads, the executor has to ask for what that takes.
    pub fn spawn_unchecked<F, T, S, P>(self, ptr: usize, future: F, scheduler: S) -> (spawned: (
        Task<Wrapped<F>, T, S, M, P>,
        Runnable<M>,
        JoinHandle<T, M>,
    ))
        ensures
            spawned.0@ == TaskView::<Wrapped<F>, T, S, M, P>::allocated(
                ptr,
                Wrapped { future, catch_panics: self@.catch_panics },
                scheduler,
                self@.metadata,
            ),
            spawned.0@.held_by(ptr),
            spawned.1@ == ptr,
            spawned.2@ == ptr,
    {
        let wrapped = if self.catch_panics {
            Self::wrap_catch_unwind(future)
        } else {
            Self::wrap_panicking(future)
        };
        let (task, runnable, handle) = Task::allocate(ptr, wrapped, scheduler, self.metadata);
        (task, runnable, JoinHandle::new(handle))
    }
}

/// Spawn a task to run on an executor, which keeps it at `ptr`.
pub fn spawn<F, T, S, P>(ptr: usize, future: F, scheduler: S) -> (spawned: (
    Task<Wrapped<F>, T, S, (), P>,
    Runnable,
    JoinHandle<T>,
)) where F: Future<Output = T> + Send + 'static, T: Send + 'static, S: Schedule + Sync + 'static
    ensures
        spawned.0@ == TaskView::<Wrapped<F>, T, S, (), P>::allocated(
            ptr,
            Wrapped { future, catch_panics: false },
            scheduler,
            (),
        ),
        spawned.0@.held_by(ptr),
        spawned.1@ == ptr,
        spawned.2@ == ptr,
{
    Builder::new().spawn(ptr, future, scheduler)
}

/// Spawn a task to run on the same thread it was spawned, which is `thread`.
pub fn spawn_local<F, T, S, P>(ptr: usize, thread: u64, future: F, scheduler: S) -> (spawned: (
    Task<Wrapped<ThreadLocal<F>>, T, S, (), P>,
    Runnable,
    JoinHandle<T>,
)) where F: Future<Output = T> + 'static, T: 'static, S: Schedule + 'static
    ensures
        spawned.0@.payload matches Payload::Future(wrapped) && {
            &&& wrapped.future.future() == future
            &&& wrapped.future.thread() == thread
            &&& wrapped.catch_panics == false
            &&& spawned.0@ == TaskView::<Wrapped<ThreadLocal<F>>, T, S, (), P>::allocated(
                ptr,
                wrapped,
                scheduler,
                (),
            )
        },
        spawned.0@.held_by(ptr),
        spawned.1@ == ptr,
        spawned.2@ == ptr,
{
    Builder::new().spawn_local(ptr, thread, future, scheduler)
}

/// Spawn a task to run on an executor. Nothing is asked of the types.
pub fn spawn_unchecked<F, T, S, P>(ptr: usize, future: F, scheduler: S) -> (spawned: (
    Task<Wrapped<F>, T, S, (), P>,
    Runnable,
    JoinHandle<T>,
))
    ensures
        spawned.0@ == TaskView::<Wrapped<F>, T, S, (), P>::allocated(
            ptr,
            Wrapped { future, catch_panics: false },
            scheduler,
            (),
        ),
        spawned.0@.held_by(ptr),
        spawned.1@ == ptr,
        spawned.2@ == ptr,
{
    Builder::new().spawn_unchecked(ptr, future, scheduler)
}

} // verus!
