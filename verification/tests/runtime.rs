//! Futures run on a small executor that is built on the library.
use atask::task::{Poll, Polled, RawHandle, Release, Run, Task, Wake};
use atask::{waker, Builder, Error, JoinHandle, PollOutcome, Result, Runnable, ThreadLocal, Wrapped};

use std::collections::{HashMap, VecDeque};
use std::future::Future;
use std::pin::Pin;
use std::sync::{Arc, Mutex};
use std::task::{Context, Waker};

type Scheduler = Box<dyn Fn(Runnable) + Send + Sync>;
type Output<R> = Result<R, String>;

/// What wakers ask of the executor.
enum Signal {
    Wake(usize),
    Drop(usize),
}

/// A waker that stands for one handle.
struct TaskWaker {
    ptr: usize,
    signals: Arc<Mutex<VecDeque<Signal>>>,
}

impl std::task::Wake for TaskWaker {
    fn wake(self: Arc<Self>) {
        self.wake_by_ref();
    }

    fn wake_by_ref(self: &Arc<Self>) {
        self.signals.lock().unwrap().push_back(Signal::Wake(self.ptr));
    }
}

impl Drop for TaskWaker {
    fn drop(&mut self) {
        self.signals.lock().unwrap().push_back(Signal::Drop(self.ptr));
    }
}

/// A future as a task holds it.
trait PollOnce {
    type Output;

    fn poll_once(&mut self, cx: &mut Context<'_>) -> PollOutcome<Self::Output, String>;
}

impl<F: Future> PollOnce for Pin<Box<F>> {
    type Output = F::Output;

    fn poll_once(&mut self, cx: &mut Context<'_>) -> PollOutcome<F::Output, String> {
        match self.as_mut().poll(cx) {
            std::task::Poll::Ready(value) => PollOutcome::Ready(value),
            std::task::Poll::Pending => PollOutcome::Pending,
        }
    }
}

const THIS_THREAD: u64 = 1;

impl<F: Future> PollOnce for ThreadLocal<Pin<Box<F>>> {
    type Output = F::Output;

    fn poll_once(&mut self, cx: &mut Context<'_>) -> PollOutcome<F::Output, String> {
        match self.poll_on(THIS_THREAD) {
            Ok(future) => future.poll_once(cx),
            Err(message) => PollOutcome::Panicked(String::from(message)),
        }
    }
}

struct Cell<G: PollOnce> {
    task: Mutex<Task<Wrapped<G>, G::Output, Scheduler, (), String>>,
}

/// A task whose types are hidden.
trait Driver {
    fn schedule(&self, runnable: Runnable);
    fn run(&self, runnable: Runnable, signals: &Arc<Mutex<VecDeque<Signal>>>);
    fn signal(&self, signal: Signal) -> bool;
}

impl<G: PollOnce> Cell<G> {
    fn settle(&self, wake: Wake<Wrapped<G>, G::Output, (), String>) -> bool {
        match wake {
            Wake::Schedule(request) => {
                request.submit(self.task.lock().unwrap().scheduler());
                false
            }
            Wake::Release(release) => matches!(release, Release::Freed(_)),
        }
    }
}

impl<G: PollOnce> Driver for Cell<G> {
    fn schedule(&self, runnable: Runnable) {
        let wake = runnable.schedule(&mut self.task.lock().unwrap());
        self.settle(wake);
    }

    fn run(&self, runnable: Runnable, signals: &Arc<Mutex<VecDeque<Signal>>>) {
        let run = runnable.run(&mut self.task.lock().unwrap());
        let completion = match run {
            Run::Poll { running, waker: handle, mut future } => {
                let ptr = waker::waker(handle);
                let waker = Waker::from(Arc::new(TaskWaker { ptr, signals: Arc::clone(signals) }));
                let outcome = future.future.poll_once(&mut Context::from_waker(&waker));
                let (polled, unwinding) = future.resolve(outcome);
                assert!(unwinding.is_none());
                running.complete(&mut self.task.lock().unwrap(), polled)
            }
            Run::Cancelled { completion, .. } => completion,
            Run::Busy { .. } | Run::Finished { .. } => return,
        };
        if let Some(waiter) = completion.waiter {
            waiter.wake_by_ref();
        }
    }

    fn signal(&self, signal: Signal) -> bool {
        match signal {
            Signal::Wake(ptr) => {
                let wake = waker::wake_by_ref(ptr, &mut self.task.lock().unwrap());
                self.settle(wake)
            }
            Signal::Drop(ptr) => {
                let release = waker::drop_waker(ptr, &mut self.task.lock().unwrap());
                matches!(release, Release::Freed(_))
            }
        }
    }
}

/// A join handle that can be awaited.
struct Joined<G: PollOnce> {
    handle: JoinHandle<G::Output>,
    cell: Arc<Cell<G>>,
}

impl<G: PollOnce> Joined<G> {
    fn finished(&self) -> bool {
        self.handle.finished(&self.cell.task.lock().unwrap())
    }
}

impl<G: PollOnce> Future for Joined<G> {
    type Output = Output<G::Output>;

    fn poll(self: Pin<&mut Self>, cx: &mut Context<'_>) -> std::task::Poll<Self::Output> {
        if let Poll::Ready(value) = self.handle.start_poll(&mut self.cell.task.lock().unwrap()) {
            return std::task::Poll::Ready(value);
        }
        let waker = Arc::new(cx.waker().clone());
        let joined = self.handle.finish_poll(&mut self.cell.task.lock().unwrap(), waker);
        match joined.output {
            Poll::Ready(value) => std::task::Poll::Ready(value),
            Poll::Pending => std::task::Poll::Pending,
        }
    }
}

fn poll_loop<R>(future: impl Future<Output = R>) -> R {
    let mut future = Box::pin(future);
    let waker = Waker::noop();
    let mut cx = Context::from_waker(waker);
    loop {
        if let std::task::Poll::Ready(value) = future.as_mut().poll(&mut cx) {
            return value;
        }
    }
}

struct Runtime {
    queue: Arc<Mutex<VecDeque<Runnable>>>,
    signals: Arc<Mutex<VecDeque<Signal>>>,
    tasks: Mutex<HashMap<usize, Arc<dyn Driver>>>,
    next: Mutex<usize>,
}

impl Runtime {
    fn new() -> Runtime {
        Runtime {
            queue: Arc::new(Mutex::new(VecDeque::new())),
            signals: Arc::new(Mutex::new(VecDeque::new())),
            tasks: Mutex::new(HashMap::new()),
            next: Mutex::new(1),
        }
    }

    fn place(&self) -> usize {
        let mut next = self.next.lock().unwrap();
        *next += 1;
        *next
    }

    fn scheduler(&self) -> Scheduler {
        let queue = Arc::clone(&self.queue);
        Box::new(move |r| queue.lock().unwrap().push_back(r))
    }

    fn start<G: PollOnce + 'static>(
        &self,
        spawned: (
            Task<Wrapped<G>, G::Output, Scheduler, (), String>,
            Runnable,
            JoinHandle<G::Output>,
        ),
    ) -> Joined<G> {
        let (task, runnable, handle) = spawned;
        let ptr = task.ptr();
        let cell = Arc::new(Cell { task: Mutex::new(task) });
        let driver: Arc<dyn Driver> = cell.clone();
        self.tasks.lock().unwrap().insert(ptr, driver);
        cell.schedule(runnable);
        Joined { handle, cell }
    }

    fn spawn<F>(&self, task: F) -> Joined<Pin<Box<F>>>
    where
        F: Future + Send + 'static,
        F::Output: Send + 'static,
    {
        self.start(Builder::new().catch_panics(true).spawn(
            self.place(),
            Box::pin(task),
            self.scheduler(),
        ))
    }

    fn spawn_local<F: Future + 'static>(&self, task: F) -> Joined<ThreadLocal<Pin<Box<F>>>>
    where
        F::Output: 'static,
    {
        self.start(Builder::new().catch_panics(true).spawn_local(
            self.place(),
            THIS_THREAD,
            Box::pin(task),
            self.scheduler(),
        ))
    }

    fn driver(&self, ptr: usize) -> Arc<dyn Driver> {
        Arc::clone(&self.tasks.lock().unwrap()[&ptr])
    }

    fn deliver_signals(&self) {
        loop {
            let signal = self.signals.lock().unwrap().pop_front();
            let Some(signal) = signal else { return };
            let ptr = match signal {
                Signal::Wake(ptr) | Signal::Drop(ptr) => ptr,
            };
            if self.driver(ptr).signal(signal) {
                self.tasks.lock().unwrap().remove(&ptr);
            }
        }
    }

    /// Runs one scheduled task.
    fn turn(&self) {
        self.deliver_signals();
        let runnable = self.queue.lock().unwrap().pop_front().unwrap();
        self.driver(runnable.ptr()).run(runnable, &self.signals);
        self.deliver_signals();
    }

    fn run<F>(&self, future: F) -> Output<F::Output>
    where
        F: Future + Send + 'static,
        F::Output: Send + 'static,
    {
        let handle = self.spawn(future);
        while !handle.finished() {
            self.turn();
        }
        poll_loop(handle)
    }
}

#[test]
fn run_block() -> Output<()> {
    let rt = Runtime::new();
    let res = rt.run(async { "hewwo" })?;
    assert_eq!(res, "hewwo");
    Ok(())
}

#[test]
fn await_task() -> Output<()> {
    let rt = Runtime::new();
    let handle = rt.spawn(async { "hewwo" });
    let res = rt.run(async move { handle.await })??;
    assert_eq!(res, "hewwo");
    Ok(())
}

#[test]
fn local_future() -> Output<()> {
    let rt = Runtime::new();
    let handle = rt.spawn_local(async { "hewwo" });
    let res = rt.run(async move { handle.await })??;
    assert_eq!(res, "hewwo");
    Ok(())
}

/// Wakes itself and yields, as many times as told.
struct Yields(u32);

impl Future for Yields {
    type Output = &'static str;

    fn poll(mut self: Pin<&mut Self>, cx: &mut Context<'_>) -> std::task::Poll<&'static str> {
        if self.0 == 0 {
            return std::task::Poll::Ready("done");
        }
        self.0 -= 1;
        cx.waker().wake_by_ref();
        std::task::Poll::Pending
    }
}

#[test]
fn yielding_task_is_run_again_until_it_is_ready() {
    let rt = Runtime::new();
    assert_eq!(rt.run(Yields(3)).unwrap(), "done");
}

#[test]
fn waiter_that_came_first_is_woken() {
    let rt = Runtime::new();
    let inner = rt.spawn(Yields(2));
    let ready = rt.queue.lock().unwrap().pop_front().unwrap();
    let outer = rt.spawn(async move { inner.await });
    rt.turn();
    assert!(!outer.finished());
    assert!(rt.queue.lock().unwrap().is_empty());
    rt.queue.lock().unwrap().push_back(ready);
    while !outer.finished() {
        rt.turn();
    }
    assert_eq!(poll_loop(outer).unwrap().unwrap(), "done");
}

#[test]
fn cancelled_task_yields_error() {
    let rt = Runtime::new();
    let handle = rt.spawn(Yields(1000));
    rt.turn();
    rt.turn();
    handle.handle.cancel(&mut handle.cell.task.lock().unwrap());
    assert!(!handle.finished());
    rt.turn();
    assert!(handle.finished());
    assert!(rt.queue.lock().unwrap().is_empty());
    assert!(matches!(poll_loop(handle), Err(Error::Cancelled)));
}

#[test]
fn detached_task_runs_to_completion() {
    let rt = Runtime::new();
    let seen = Arc::new(Mutex::new(0));
    let count = Arc::clone(&seen);
    let Joined { handle, cell } = rt.spawn(async move {
        Yields(1).await;
        *count.lock().unwrap() += 1;
    });
    let release = handle.drop(&mut cell.task.lock().unwrap());
    assert!(matches!(release, Release::Shared));
    assert!(cell.task.lock().unwrap().snapshot().handle_dropped());
    rt.turn();
    assert_eq!(*seen.lock().unwrap(), 0);
    rt.turn();
    assert_eq!(*seen.lock().unwrap(), 1);
    assert!(rt.tasks.lock().unwrap().is_empty());
}

#[test]
fn local_future_on_another_thread_panics() {
    let rt = Runtime::new();
    let handle = rt.start(Builder::new().catch_panics(true).spawn_local(
        rt.place(),
        THIS_THREAD + 1,
        Box::pin(async { "hewwo" }),
        rt.scheduler(),
    ));
    rt.turn();
    match poll_loop(handle) {
        Err(Error::Panicked { payload }) => assert_eq!(
            payload,
            "a local future can only be run on the thread on which it was spawned"
        ),
        _ => panic!("the task did not panic"),
    }
}

#[test]
fn handles_name_their_task() {
    let (task, runnable, handle) =
        atask::spawn::<_, u8, _, String>(77, Box::pin(async { 5 }), |_: Runnable| {});
    assert_eq!(task.ptr(), 77);
    assert_eq!(runnable.ptr(), 77);
    assert_eq!(handle.ptr(), 77);
    assert_eq!(RawHandle::from_raw(78).into_raw(), 78);
    let mut task = task;
    let polled = match runnable.run(&mut task) {
        Run::Poll { running, future, .. } => {
            assert!(!future.catch_panics);
            running.complete(&mut task, Polled::Ready(Ok(poll_loop(future.future))))
        }
        _ => panic!("nothing to poll"),
    };
    assert!(polled.waiter.is_none());
    assert!(matches!(
        handle.poll(&mut task, Arc::new(Waker::noop().clone())).output,
        Poll::Ready(Ok(5))
    ));
}
