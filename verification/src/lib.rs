//! A flexible task model for building async executors.
//!
//! A task is a future on its way to an output. The executor keeps each task at an address of its
//! choice and makes the steps of its life by calling this library with `&mut` access to it:
//!
//! ```text
//! let (mut task, runnable, handle) = atask::spawn(ptr, future, scheduler);
//!
//! if let Wake::Schedule(request) = runnable.schedule(&mut task) {
//!     request.submit(task.scheduler());
//! }
//! ```
//!
//! and, for each runnable that the scheduler was handed:
//!
//! ```text
//! if let Run::Poll { running, waker, future } = runnable.run(&mut task) {
//!     // poll the future, with a waker that stands for the handle `waker`
//!     let completion = running.complete(&mut task, polled);
//!     // wake completion.waiter
//! }
//! ```
//!
//! Cancelling a task does not use up the handle, and dropping the join handle detaches the task.
mod builder;
pub mod debug;
pub mod effects;
mod error;
mod handle;
pub mod laws;
mod schedule;
pub mod state;
pub mod task;
pub mod waker;

pub use builder::{
    spawn, spawn_local, spawn_unchecked, Builder, BuilderView, PollOutcome, ThreadLocal, Wrapped,
};
pub use error::{Error, Result};
pub use handle::{AbortHandle, JoinHandle};
pub use schedule::{Schedule, ScheduleInfo, ScheduleRequest, WithInfo};
pub use task::Runnable;
