//! The steps of a task, with numbers in place of futures.
use atask::task::{Payload, Poll, Polled, RawHandle, Release, Run, Running, Task, Wake};
use atask::{
    spawn_unchecked, waker, Builder, Error, JoinHandle, PollOutcome, Runnable, Schedule,
    ScheduleInfo, ThreadLocal, WithInfo, Wrapped,
};

use std::cell::RefCell;
use std::sync::atomic::{AtomicU32, Ordering};
use std::sync::Arc;
use std::task::Waker;

type Numbers = Task<Wrapped<u8>, u32, (), (), u64>;

/// A task at address 7 whose future is the number 5.
fn numbers() -> (Numbers, Runnable, JoinHandle<u32>) {
    spawn_unchecked(7, 5, ())
}

/// A waker that counts how often it is woken.
struct Count(AtomicU32);

impl std::task::Wake for Count {
    fn wake(self: Arc<Self>) {
        self.0.fetch_add(1, Ordering::Relaxed);
    }
}

fn counting() -> (Arc<Count>, Arc<Waker>) {
    let count = Arc::new(Count(AtomicU32::new(0)));
    (Arc::clone(&count), Arc::new(Waker::from(count)))
}

fn noop() -> Arc<Waker> {
    Arc::new(Waker::noop().clone())
}

fn scheduled(wake: Wake<Wrapped<u8>, u32, (), u64>) -> (Runnable, ScheduleInfo) {
    match wake {
        Wake::Schedule(request) => (request.runnable, request.info),
        Wake::Release(_) => panic!("scheduled already"),
    }
}

fn started(run: Run<Wrapped<u8>, u32, (), u64>) -> (Running, RawHandle, Wrapped<u8>) {
    match run {
        Run::Poll { running, waker, future } => (running, waker, future),
        _ => panic!("nothing to poll"),
    }
}

#[test]
fn run_hands_out_the_future_and_complete_stores_the_output() {
    let (mut task, runnable, handle) = numbers();
    assert_eq!(task.snapshot().ref_count(), 2);
    let (runnable, info) = scheduled(runnable.schedule(&mut task));
    assert!(!info.woken_while_running);
    assert!(task.snapshot().scheduled());
    let (running, waker, future) = started(runnable.run(&mut task));
    assert_eq!(future.future, 5);
    assert!(task.polling());
    assert!(!task.snapshot().scheduled());
    assert_eq!(task.snapshot().ref_count(), 3);
    let completion = running.complete(&mut task, Polled::Ready(Ok(9)));
    assert!(completion.waiter.is_none());
    assert!(matches!(completion.release, Release::Shared));
    assert!(handle.finished(&task));
    assert!(matches!(waker.drop(&mut task), Release::Shared));
    assert!(matches!(handle.poll(&mut task, noop()).output, Poll::Ready(Ok(9))));
    assert!(task.snapshot().taken());
    assert!(matches!(handle.drop(&mut task), Release::Freed(Payload::Empty)));
    assert_eq!(task.snapshot().ref_count(), 0);
}

#[test]
fn wake_schedules_once_until_the_next_run() {
    let (mut task, runnable, _handle) = numbers();
    let (runnable, _) = scheduled(runnable.schedule(&mut task));
    assert!(matches!(
        waker::wake_by_ref(7, &mut task),
        Wake::Release(Release::Shared)
    ));
    assert_eq!(task.snapshot().ref_count(), 2);
    let (running, handle, future) = started(runnable.run(&mut task));
    running.complete(&mut task, Polled::Pending(future));
    assert_eq!(task.snapshot().ref_count(), 2);
    let (again, info) = scheduled(waker::wake(waker::waker(handle), &mut task));
    assert!(!info.woken_while_running);
    assert_eq!(again.ptr(), 7);
    assert_eq!(started(again.run(&mut task)).2.future, 5);
}

#[test]
fn wake_during_a_run_is_told_to_the_scheduler() {
    let (mut task, runnable, _handle) = numbers();
    let (running, handle, future) = started(runnable.run(&mut task));
    let (again, info) = scheduled(waker::wake_by_ref(handle.into_raw(), &mut task));
    assert!(info.woken_while_running);
    assert!(task.snapshot().yielded());
    running.complete(&mut task, Polled::Pending(future));
    assert!(task.snapshot().scheduled());
    let (running, _, future) = started(again.run(&mut task));
    assert!(!task.snapshot().yielded());
    running.complete(&mut task, Polled::Pending(future));
    let (_, info) = scheduled(waker::wake_by_ref(7, &mut task));
    assert!(!info.woken_while_running);
}

#[test]
fn a_future_that_is_being_polled_is_not_handed_out_again() {
    let (mut task, runnable, _handle) = numbers();
    let (running, _, future) = started(runnable.run(&mut task));
    let (again, _) = scheduled(waker::wake_by_ref(7, &mut task));
    let again = match again.run(&mut task) {
        Run::Busy { runnable } => runnable,
        _ => panic!("not busy"),
    };
    assert_eq!(again.ptr(), 7);
    running.complete(&mut task, Polled::Pending(future));
    assert_eq!(started(again.run(&mut task)).2.future, 5);
}

#[test]
fn a_done_task_is_not_polled_again() {
    let (mut task, runnable, handle) = numbers();
    let (running, _, _) = started(runnable.run(&mut task));
    let (stale, _) = scheduled(waker::wake_by_ref(7, &mut task));
    running.complete(&mut task, Polled::Ready(Ok(1)));
    handle.cancel(&mut task);
    assert!(matches!(stale.run(&mut task), Run::Finished { release: Release::Shared }));
    assert!(matches!(handle.poll(&mut task, noop()).output, Poll::Ready(Ok(1))));
}

#[test]
fn cancelled_task_finishes_without_being_polled() {
    let (mut task, runnable, handle) = numbers();
    let (count, waiter) = counting();
    assert!(matches!(handle.poll(&mut task, waiter).output, Poll::Pending));
    handle.cancel(&mut task);
    handle.cancel(&mut task);
    assert_eq!(task.snapshot().ref_count(), 2);
    assert!(!handle.finished(&task));
    match runnable.run(&mut task) {
        Run::Cancelled { future, completion } => {
            assert_eq!(future.future, 5);
            completion.waiter.unwrap().wake_by_ref();
            assert!(matches!(completion.release, Release::Shared));
        }
        _ => panic!("not cancelled"),
    }
    assert_eq!(count.0.load(Ordering::Relaxed), 1);
    assert!(handle.finished(&task));
    assert!(matches!(
        handle.poll(&mut task, noop()).output,
        Poll::Ready(Err(Error::Cancelled))
    ));
}

#[test]
fn abort_handle_cancels_and_counts() {
    let (mut task, runnable, handle) = numbers();
    let abort = handle.abort_handle(&mut task);
    let other = abort.clone(&mut task);
    assert_eq!((abort.ptr(), other.ptr()), (7, 7));
    assert_eq!(task.snapshot().ref_count(), 4);
    assert!(matches!(abort.drop(&mut task), Release::Shared));
    other.cancel(&mut task);
    assert!(task.snapshot().cancelled());
    assert!(matches!(runnable.run(&mut task), Run::Cancelled { .. }));
    assert!(matches!(handle.drop(&mut task), Release::Shared));
    assert!(matches!(
        other.drop(&mut task),
        Release::Freed(Payload::Value(Err(Error::Cancelled)))
    ));
}

#[test]
fn last_handle_releases_the_future() {
    let (mut task, runnable, handle) = numbers();
    assert!(matches!(handle.drop(&mut task), Release::Shared));
    assert!(task.snapshot().handle_dropped());
    match runnable.drop(&mut task) {
        Release::Freed(Payload::Future(wrapped)) => assert_eq!(wrapped.future, 5),
        _ => panic!("the future was not released"),
    }
}

#[test]
fn last_handle_releases_an_output_that_nobody_took() {
    let (mut task, runnable, handle) = numbers();
    assert!(matches!(handle.drop(&mut task), Release::Shared));
    let (running, waker, _) = started(runnable.run(&mut task));
    assert!(matches!(waker.drop(&mut task), Release::Shared));
    let completion = running.complete(&mut task, Polled::Ready(Ok(3)));
    assert!(matches!(completion.release, Release::Freed(Payload::Value(Ok(3)))));
}

#[test]
fn waiter_is_handed_out_when_the_task_is_done() {
    let (mut task, runnable, handle) = numbers();
    let (count, waiter) = counting();
    assert!(matches!(handle.poll(&mut task, waiter).output, Poll::Pending));
    assert!(!task.snapshot().waker_lock());
    let (running, _, future) = started(runnable.run(&mut task));
    assert!(running.complete(&mut task, Polled::Pending(future)).waiter.is_none());
    let (runnable, _) = scheduled(waker::wake_by_ref(7, &mut task));
    let (running, _, _) = started(runnable.run(&mut task));
    running.complete(&mut task, Polled::Ready(Ok(2))).waiter.unwrap().wake_by_ref();
    assert_eq!(count.0.load(Ordering::Relaxed), 1);
}

#[test]
fn poll_that_is_under_way_when_the_task_gets_done_takes_the_output() {
    let (mut task, runnable, handle) = numbers();
    let (running, _, _) = started(runnable.run(&mut task));
    assert!(matches!(handle.start_poll(&mut task), Poll::Pending));
    assert!(task.snapshot().waker_lock());
    assert!(running.complete(&mut task, Polled::Ready(Ok(4))).waiter.is_none());
    assert!(matches!(
        handle.finish_poll(&mut task, noop()).output,
        Poll::Ready(Ok(4))
    ));
}

#[test]
fn wakers_count_as_handles() {
    let (mut task, _runnable, _handle) = numbers();
    assert_eq!(waker::clone_waker(7, &mut task), 7);
    assert_eq!(task.snapshot().ref_count(), 3);
    assert!(matches!(waker::drop_waker(7, &mut task), Release::Shared));
    let handle = RawHandle::clone_from_raw(7, &mut task);
    assert_eq!(handle.ptr(), 7);
    handle.cancel(&mut task);
    assert!(task.snapshot().cancelled());
    assert_eq!(handle.clone(&mut task).into_raw(), 7);
    assert_eq!(task.snapshot().ref_count(), 4);
}

#[test]
fn metadata_is_reached_through_every_handle() {
    let builder = Builder::new().metadata("left").metadata("name");
    let (mut task, runnable, handle): (Task<Wrapped<u8>, u32, (), &str, u64>, _, _) =
        builder.spawn_unchecked(1, 0, ());
    assert_eq!(*task.metadata(), "name");
    assert_eq!(*runnable.metadata(&task), "name");
    handle.cancel(&mut task);
    assert_eq!(*handle.metadata(&task), "name");
}

#[test]
fn builder_settings_reach_the_task() {
    let caught = Builder::default().catch_panics(true);
    let (mut task, runnable, _): (Numbers, _, _) = caught.spawn_unchecked(1, 6, ());
    let (_, _, wrapped) = started(runnable.run(&mut task));
    assert_eq!(wrapped.future, 6);
    assert!(wrapped.catch_panics);
    let (mut task, runnable, _) = numbers();
    assert!(!started(runnable.run(&mut task)).2.catch_panics);
    assert!(Builder::<()>::wrap_catch_unwind(1).catch_panics);
    assert!(!Builder::<()>::wrap_panicking(1).catch_panics);
}

#[test]
fn panics_are_caught_or_go_on() {
    let caught = Builder::<()>::wrap_catch_unwind(5);
    assert!(matches!(
        caught.resolve::<u32, u64>(PollOutcome::Panicked(8)),
        (Polled::Ready(Err(Error::Panicked { payload: 8 })), None)
    ));
    let open = Builder::<()>::wrap_panicking(5);
    match open.resolve::<u32, u64>(PollOutcome::Panicked(8)) {
        (Polled::Pending(wrapped), Some(8)) => assert_eq!(wrapped.future, 5),
        _ => panic!("the panic does not go on"),
    }
    for catch_panics in [false, true] {
        assert!(matches!(
            Wrapped { future: 5, catch_panics }.resolve::<u32, u64>(PollOutcome::Ready(2)),
            (Polled::Ready(Ok(2)), None)
        ));
        assert!(matches!(
            Wrapped { future: 5, catch_panics }.resolve::<u32, u64>(PollOutcome::Pending),
            (Polled::Pending(_), None)
        ));
    }
}

#[test]
fn local_future_is_given_out_on_its_thread_only() {
    let mut local = ThreadLocal::new(5, 3);
    *local.poll_on(3).unwrap() += 1;
    assert_eq!(*local.poll_on(3).unwrap(), 6);
    assert_eq!(
        local.poll_on(4).unwrap_err(),
        "a local future can only be run on the thread on which it was spawned"
    );
    let (mut task, runnable, _handle) =
        atask::spawn_local::<_, u8, _, u64>(1, 3, Box::pin(async { 1 }), |_: Runnable| {});
    match runnable.run(&mut task) {
        Run::Poll { mut future, .. } => {
            assert!(future.future.poll_on(4).is_err());
            assert!(future.future.poll_on(3).is_ok());
        }
        _ => panic!("nothing to poll"),
    }
}

#[test]
fn scheduler_gets_the_runnable_and_the_information() {
    let seen = RefCell::new(Vec::new());
    let plain = |runnable: Runnable| seen.borrow_mut().push((runnable.ptr(), None));
    let (mut task, runnable, _handle) = numbers();
    match runnable.schedule(&mut task) {
        Wake::Schedule(request) => request.submit(&plain),
        Wake::Release(_) => panic!("scheduled already"),
    }
    let detailed = WithInfo(|runnable: Runnable, info: ScheduleInfo| {
        seen.borrow_mut().push((runnable.ptr(), Some(info.woken_while_running)))
    });
    let (mut task, runnable, _handle) = numbers();
    let (_, info) = scheduled(runnable.schedule(&mut task));
    let (_, runnable, _) = spawn_unchecked::<u8, u32, (), u64>(8, 5, ());
    detailed.schedule(runnable, ScheduleInfo { woken_while_running: !info.woken_while_running });
    assert_eq!(*seen.borrow(), vec![(7, None), (8, Some(true))]);
}

#[test]
fn errors_describe_themselves() {
    assert_eq!(Error::<u8>::Cancelled.message(), "the task was cancelled");
    assert_eq!(Error::panicked(1).message(), "the task panicked");
}

#[test]
fn registered_waker_stays_with_the_task_when_it_is_done() {
    let (mut task, runnable, handle) = numbers();
    let (count, waiter) = counting();
    let weak = Arc::downgrade(&waiter);
    assert!(handle.poll(&mut task, waiter).unused.is_none());
    let (running, _, _) = started(runnable.run(&mut task));
    let (stale, _) = scheduled(waker::wake_by_ref(7, &mut task));
    let waiter = running.complete(&mut task, Polled::Ready(Ok(2))).waiter.unwrap();
    assert!(Arc::ptr_eq(&waiter, &weak.upgrade().unwrap()));
    waiter.wake_by_ref();
    drop(waiter);
    assert!(weak.upgrade().is_some());
    assert!(matches!(stale.run(&mut task), Run::Finished { .. }));
    assert_eq!(count.0.load(Ordering::Relaxed), 1);
    drop(task);
    assert!(weak.upgrade().is_none());
}

#[test]
fn poll_hands_back_the_waker_that_is_not_registered() {
    let (mut task, runnable, handle) = numbers();
    let (_, first) = counting();
    let (_, second) = counting();
    let (_, third) = counting();
    assert!(handle.poll(&mut task, Arc::clone(&first)).unused.is_none());
    let joined = handle.poll(&mut task, Arc::clone(&second));
    assert!(matches!(joined.output, Poll::Pending));
    assert!(Arc::ptr_eq(&joined.unused.unwrap(), &first));
    let (running, _, _) = started(runnable.run(&mut task));
    let waiter = running.complete(&mut task, Polled::Ready(Ok(2))).waiter.unwrap();
    assert!(Arc::ptr_eq(&waiter, &second));
    let joined = handle.poll(&mut task, Arc::clone(&third));
    assert!(matches!(joined.output, Poll::Ready(Ok(2))));
    assert!(Arc::ptr_eq(&joined.unused.unwrap(), &third));
}

#[test]
fn asking_twice_for_the_output_changes_nothing() {
    let (mut task, _runnable, handle) = numbers();
    let before = task.snapshot().to_text();
    assert!(matches!(handle.start_poll(&mut task), Poll::Pending));
    assert!(task.snapshot().waker_lock());
    assert!(matches!(handle.start_poll(&mut task), Poll::Pending));
    assert_eq!(task.snapshot().to_text(), before);
}

#[test]
fn local_future_stays_on_its_thread_over_runs() {
    let (mut task, mut runnable, _handle) =
        atask::spawn_local::<_, u8, _, u64>(1, 3, Box::pin(async { 1 }), |_: Runnable| {});
    for _ in 0..3 {
        let (running, mut wrapped) = match runnable.run(&mut task) {
            Run::Poll { running, future, .. } => (running, future),
            _ => panic!("nothing to poll"),
        };
        assert!(wrapped.future.poll_on(4).is_err());
        assert!(wrapped.future.poll_on(3).is_ok());
        let (polled, _) = wrapped.resolve(PollOutcome::Pending);
        running.complete(&mut task, polled);
        runnable = match waker::wake_by_ref(1, &mut task) {
            Wake::Schedule(request) => request.runnable,
            Wake::Release(_) => panic!("scheduled already"),
        };
    }
}
