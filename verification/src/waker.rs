//! What the waker of a task does.
//!
//! A waker carries the address of its task and stands for one handle to it. These are the
//! functions behind the four entries of a waker's table.
use crate::task::{RawHandle, Release, Task, Wake};
use vstd::prelude::*;

verus! {

/// The data of a waker that stands for `handle`.
pub fn waker(handle: RawHandle) -> (ptr: usize)
    ensures
        ptr == handle@,
{
    handle.into_raw()
}

/// Duplicates a waker: its task has one more handle.
pub fn clone_waker<F, R, S, M, P>(ptr: usize, task: &mut Task<F, R, S, M, P>) -> (clone: usize)
    requires
        old(task)@.held_by(ptr),
        old(task)@.state.has_room(),
    ensures
        clone == ptr,
        final(task)@ == old(task)@.after_clone(),
        final(task)@.held_by(ptr),
{
    let handle = RawHandle::clone_from_raw(ptr, task);
    handle.into_raw()
}

/// Wakes the task and spends the waker.
pub fn wake<F, R, S, M, P>(ptr: usize, task: &mut Task<F, R, S, M, P>) -> (wake: Wake<F, R, M, P>)
    requires
        old(task)@.held_by(ptr),
    ensures
        old(task)@.wake_answer(ptr, wake),
        final(task)@ == old(task)@.after_wake(),
        final(task)@.wf(),
{
    RawHandle::from_raw(ptr).wake(task)
}

/// Wakes the task and keeps the waker.
pub fn wake_by_ref<F, R, S, M, P>(ptr: usize, task: &mut Task<F, R, S, M, P>) -> (wake: Wake<
    F,
    R,
    M,
    P,
>)
    requires
        old(task)@.held_by(ptr),
        old(task)@.state.has_room(),
    ensures
        old(task)@.after_clone().wake_answer(ptr, wake),
        final(task)@ == old(task)@.after_clone().after_wake(),
        final(task)@.held_by(ptr),
{
    let handle = RawHandle::clone_from_raw(ptr, task);
    handle.wake(task)
}

/// Drops a waker: its handle is given back.
pub fn drop_waker<F, R, S, M, P>(ptr: usize, task: &mut Task<F, R, S, M, P>) -> (release: Release<
    F,
    R,
    P,
>)
    requires
        old(task)@.held_by(ptr),
    ensures
        release == old(task)@.release(),
        final(task)@ == old(task)@.after_drop(),
        final(task)@.wf(),
{
    RawHandle::from_raw(ptr).drop(task)
}

} // verus!
