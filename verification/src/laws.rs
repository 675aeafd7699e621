//! What holds of a task over several steps.
//!
//! The threads that hold handles to a task make their steps in some order. The laws here hold for
//! every order in which each step is allowed where it is made.
use crate::builder::{PollOutcome, ThreadLocal, Wrapped};
use crate::error::{Error, Result};
use crate::state::StateView;
use crate::task::{Payload, Poll, Polled, Run, TaskView, Wake};
use core::task::Waker;
use std::sync::Arc;
use vstd::prelude::*;

verus! {

/// One operation on a task.
pub enum Step<F, R, P> {
    /// A handle is duplicated.
    Clone,
    /// The task is cancelled.
    Cancel,
    /// A handle is given back.
    Drop,
    /// A handle is spent to wake the task, or a runnable to schedule it.
    Wake,
    /// A runnable is spent to start a run.
    Run,
    /// A run ends.
    Complete(Polled<F, R, P>),
    /// A poll of the join handle starts.
    StartPoll,
    /// A poll of the join handle ends.
    FinishPoll(Arc<Waker>),
    /// The join handle is given back.
    Detach,
}

impl<F, R, P> Step<F, R, P> {
    /// Whether this is a step of the join handle's poll.
    pub open spec fn polls(self) -> bool {
        self is StartPoll || self is FinishPoll
    }

    /// The handles that the step spends. The end of a run spends the run and no other handle.
    pub open spec fn spent(self) -> nat {
        match self {
            Step::Drop | Step::Wake | Step::Run | Step::Detach => 1,
            _ => 0,
        }
    }
}

/// The handles in the answer to waking a task.
pub open spec fn handles_in_wake<F, R, M, P>(wake: Wake<F, R, M, P>) -> nat {
    match wake {
        Wake::Schedule(_) => 1,
        Wake::Release(_) => 0,
    }
}

/// The handles in the answer to starting a run, apart from the run itself.
pub open spec fn handles_in_run<F, R, M, P>(run: Run<F, R, M, P>) -> nat {
    match run {
        Run::Poll { .. } | Run::Busy { .. } => 1,
        Run::Cancelled { .. } | Run::Finished { .. } => 0,
    }
}

impl<F, R, S, M, P> TaskView<F, R, S, M, P> {
    /// Whether a step is allowed: what the function that makes it requires.
    pub open spec fn can(self, step: Step<F, R, P>) -> bool {
        match step {
            Step::Clone => self.held_by(self.ptr) && self.state.has_room(),
            Step::Run => {
                &&& self.held_by(self.ptr)
                &&& self.payload is Future && !self.state.cancelled ==> self.state.has_room()
            },
            Step::Complete(_) => self.run_by(self.ptr),
            Step::StartPoll | Step::FinishPoll(_) => {
                self.held_by(self.ptr) && !self.state.taken
            },
            Step::Cancel | Step::Drop | Step::Wake | Step::Detach => self.held_by(self.ptr),
        }
    }

    /// The task after a step.
    pub open spec fn after(self, step: Step<F, R, P>) -> TaskView<F, R, S, M, P> {
        match step {
            Step::Clone => self.after_clone(),
            Step::Cancel => self.after_cancel(),
            Step::Drop => self.after_drop(),
            Step::Wake => self.after_wake(),
            Step::Run => self.after_run(),
            Step::Complete(polled) => self.after_complete(polled),
            Step::StartPoll => self.after_try_take(),
            Step::FinishPoll(waker) => self.after_store_waker(waker).after_try_take(),
            Step::Detach => self.after_detach().after_drop(),
        }
    }

    /// The handles that a step makes.
    pub open spec fn made(self, step: Step<F, R, P>) -> nat {
        match step {
            Step::Clone => 1,
            Step::Wake => if self.state.scheduled {
                0
            } else {
                1
            },
            Step::Run => if self.polling() || !self.state.done && !self.state.cancelled {
                1
            } else {
                0
            },
            _ => 0,
        }
    }

    /// The task after several steps.
    pub open spec fn after_all(self, steps: Seq<Step<F, R, P>>) -> TaskView<F, R, S, M, P>
        decreases steps.len(),
    {
        if steps.len() == 0 {
            self
        } else {
            self.after_all(steps.drop_last()).after(steps.last())
        }
    }

    /// Whether several steps are allowed, each where it is made.
    pub open spec fn can_all(self, steps: Seq<Step<F, R, P>>) -> bool
        decreases steps.len(),
    {
        steps.len() > 0 ==> {
            &&& self.can_all(steps.drop_last())
            &&& self.after_all(steps.drop_last()).can(steps.last())
        }
    }

    /// Whether a step hands the future out to be polled.
    pub open spec fn starts_poll(self, step: Step<F, R, P>) -> bool {
        step is Run && self.payload is Future && !self.state.cancelled
    }

    /// Whether none of several steps hands the future out to be polled.
    pub open spec fn starts_no_poll(self, steps: Seq<Step<F, R, P>>) -> bool
        decreases steps.len(),
    {
        steps.len() > 0 ==> {
            &&& self.starts_no_poll(steps.drop_last())
            &&& !self.after_all(steps.drop_last()).starts_poll(steps.last())
        }
    }

    /// Whether a step hands out the registered waker to be woken.
    pub open spec fn hands_out_waiter(self, step: Step<F, R, P>) -> bool {
        match step {
            Step::Run => self.payload is Future && self.state.cancelled && self.waiter() is Some,
            Step::Complete(polled) => self.completion(polled).waiter is Some,
            _ => false,
        }
    }

    /// How many of several steps hand out a waker to be woken.
    pub open spec fn waiters_handed_out(self, steps: Seq<Step<F, R, P>>) -> nat
        decreases steps.len(),
    {
        if steps.len() == 0 {
            0
        } else if self.after_all(steps.drop_last()).hands_out_waiter(steps.last()) {
            self.waiters_handed_out(steps.drop_last()) + 1
        } else {
            self.waiters_handed_out(steps.drop_last())
        }
    }

    /// How many of several steps take the output.
    pub open spec fn outputs_taken(self, steps: Seq<Step<F, R, P>>) -> nat
        decreases steps.len(),
    {
        if steps.len() == 0 {
            0
        } else if steps.last().polls() && self.after_all(steps.drop_last()).output() is Ready {
            self.outputs_taken(steps.drop_last()) + 1
        } else {
            self.outputs_taken(steps.drop_last())
        }
    }

    /// The number of handles after several steps, from `handles` before them.
    pub open spec fn handles_after(self, handles: int, steps: Seq<Step<F, R, P>>) -> int
        decreases steps.len(),
    {
        if steps.len() == 0 {
            handles
        } else {
            self.handles_after(handles, steps.drop_last()) - steps.last().spent() + self.after_all(
                steps.drop_last(),
            ).made(steps.last())
        }
    }
}

/// Every allowed step keeps a task well-formed, and leaves its address, its scheduler and its
/// metadata alone.
pub proof fn law_steps_keep_task<F, R, S, M, P>(
    task: TaskView<F, R, S, M, P>,
    steps: Seq<Step<F, R, P>>,
)
    requires
        task.wf(),
        task.can_all(steps),
    ensures
        task.after_all(steps).wf(),
        task.after_all(steps).ptr == task.ptr,
        task.after_all(steps).scheduler == task.scheduler,
        task.after_all(steps).metadata == task.metadata,
    decreases steps.len(),
{
    if steps.len() > 0 {
        law_steps_keep_task(task, steps.drop_last());
    }
}

/// The reference count counts the handles that are out, apart from the one of a run in progress:
/// where it is so before, it is so after any steps.
pub proof fn law_ref_count_counts_handles<F, R, S, M, P>(
    task: TaskView<F, R, S, M, P>,
    steps: Seq<Step<F, R, P>>,
    handles: int,
)
    requires
        task.wf(),
        task.can_all(steps),
        task.handles() == handles,
    ensures
        task.after_all(steps).handles() == task.handles_after(handles, steps),
    decreases steps.len(),
{
    if steps.len() > 0 {
        law_steps_keep_task(task, steps.drop_last());
        law_ref_count_counts_handles(task, steps.drop_last(), handles);
    }
}

/// A wake makes as many handles as its answer holds.
pub proof fn law_wake_makes_handles_of_answer<F, R, S, M, P>(
    task: TaskView<F, R, S, M, P>,
    ptr: usize,
    wake: Wake<F, R, M, P>,
)
    requires
        task.wake_answer(ptr, wake),
    ensures
        task.made(Step::Wake) == handles_in_wake(wake),
{
}

/// The start of a run makes as many handles as its answer holds.
pub proof fn law_run_makes_handles_of_answer<F, R, S, M, P>(
    task: TaskView<F, R, S, M, P>,
    ptr: usize,
    run: Run<F, R, M, P>,
)
    requires
        task.wf(),
        task.run_answer(ptr, run),
    ensures
        task.made(Step::Run) == handles_in_run(run),
{
}

/// With the last handle the task holds nothing any more, and no further step is allowed.
pub proof fn law_freed_task_is_left_alone<F, R, S, M, P>(
    task: TaskView<F, R, S, M, P>,
    step: Step<F, R, P>,
    next: Step<F, R, P>,
)
    requires
        task.can(step),
        task.after(step).state.ref_count == 0,
    ensures
        task.state.ref_count == 1,
        task.after(step).payload is Empty,
        !task.after(step).can(next),
{
}

/// A task that is done stays done, and one that is cancelled stays cancelled. An output that was
/// taken stays taken, and a join handle that was dropped stays dropped.
pub proof fn law_done_and_cancelled_stay<F, R, S, M, P>(
    task: TaskView<F, R, S, M, P>,
    steps: Seq<Step<F, R, P>>,
)
    ensures
        task.state.done ==> task.after_all(steps).state.done,
        task.state.cancelled ==> task.after_all(steps).state.cancelled,
        task.state.taken ==> task.after_all(steps).state.taken,
        task.state.handle_dropped ==> task.after_all(steps).state.handle_dropped,
    decreases steps.len(),
{
    if steps.len() > 0 {
        law_done_and_cancelled_stay(task, steps.drop_last());
    }
}

/// Cancelling a task spends no handle and changes nothing but that the task is cancelled; a second
/// time changes nothing at all.
pub proof fn law_cancel_only_marks<F, R, S, M, P>(task: TaskView<F, R, S, M, P>)
    ensures
        Step::<F, R, P>::Cancel.spent() == 0,
        task.after_cancel() == (TaskView {
            state: StateView { cancelled: true, ..task.state },
            ..task
        }),
        task.after_cancel().after_cancel() == task.after_cancel(),
{
}

/// A task that is cancelled while its future is not being polled, and before it is done, is never
/// polled again: it keeps its future until it is done, and its output is that it was cancelled.
pub proof fn law_cancelled_task_is_not_polled<F, R, S, M, P>(
    task: TaskView<F, R, S, M, P>,
    future: F,
    steps: Seq<Step<F, R, P>>,
)
    requires
        task.wf(),
        task.payload == Payload::<F, R, P>::Future(future),
        task.after_cancel().can_all(steps),
    ensures
        ({
            let later = task.after_cancel().after_all(steps);
            &&& !later.polling()
            &&& !later.state.done && later.state.ref_count > 0 ==> later.payload == task.payload
            &&& later.payload matches Payload::Value(value) ==> value == Err::<R, Error<P>>(
                Error::Cancelled,
            )
        }),
    decreases steps.len(),
{
    law_steps_keep_task(task.after_cancel(), steps);
    law_done_and_cancelled_stay(task.after_cancel(), steps);
    if steps.len() > 0 {
        law_cancelled_task_is_not_polled(task, future, steps.drop_last());
        law_steps_keep_task(task.after_cancel(), steps.drop_last());
        law_done_and_cancelled_stay(task.after_cancel(), steps.drop_last());
    }
}

/// Running a cancelled task finishes it, and tells the join handle so.
pub proof fn law_run_of_cancelled_task_finishes_it<F, R, S, M, P>(
    task: TaskView<F, R, S, M, P>,
    ptr: usize,
    run: Run<F, R, M, P>,
)
    requires
        task.can(Step::Run),
        task.run_answer(ptr, run),
        task.state.cancelled,
        task.payload is Future,
    ensures
        run is Cancelled,
        task.after_run().state.done,
        task.state.ref_count > 1 ==> task.after_run().output() == Poll::Ready(
            Err::<R, Error<P>>(Error::Cancelled),
        ),
{
}

/// What a finished task stored is what its join handle gets: whatever steps come between, until
/// the join handle has taken the output or the last handle is gone.
pub proof fn law_stored_output_is_delivered<F, R, S, M, P>(
    task: TaskView<F, R, S, M, P>,
    value: Result<R, P>,
    steps: Seq<Step<F, R, P>>,
)
    requires
        task.wf(),
        task.payload == Payload::<F, R, P>::Value(value),
        task.can_all(steps),
    ensures
        ({
            let later = task.after_all(steps);
            later.state.taken || later.state.ref_count == 0 || later.output() == Poll::Ready(value)
        }),
    decreases steps.len(),
{
    if steps.len() > 0 {
        law_steps_keep_task(task, steps.drop_last());
        law_done_and_cancelled_stay(task, steps.drop_last());
        law_stored_output_is_delivered(task, value, steps.drop_last());
    }
}

/// A run that ends with an output stores it, as long as another handle remains.
pub proof fn law_completed_run_stores_output<F, R, S, M, P>(
    task: TaskView<F, R, S, M, P>,
    value: Result<R, P>,
)
    requires
        task.can(Step::Complete(Polled::Ready(value))),
        task.state.ref_count > 1,
    ensures
        task.after_complete(Polled::Ready(value)).payload == Payload::<F, R, P>::Value(value),
        task.after_complete(Polled::Ready(value)).state.done,
{
}

/// A panic that is caught is the output of the task.
pub proof fn law_caught_panic_is_output<F, R, S, M, P>(
    task: TaskView<Wrapped<F>, R, S, M, P>,
    wrapped: Wrapped<F>,
    payload: P,
)
    requires
        task.run_by(task.ptr),
        task.state.ref_count > 1,
        wrapped.catch_panics,
    ensures
        ({
            let (polled, unwinding) = wrapped.resolution(PollOutcome::<R, P>::Panicked(payload));
            &&& unwinding is None
            &&& task.after_complete(polled).state.done
            &&& task.after_complete(polled).output() == Poll::Ready(
                Err::<R, Error<P>>(Error::Panicked { payload }),
            )
        }),
{
}

/// A panic that is not caught goes on unwinding, and leaves the task with its future and not done.
pub proof fn law_other_panic_goes_on<F, R, S, M, P>(
    task: TaskView<Wrapped<F>, R, S, M, P>,
    wrapped: Wrapped<F>,
    payload: P,
)
    requires
        task.run_by(task.ptr),
        task.state.ref_count > 1,
        !wrapped.catch_panics,
    ensures
        ({
            let (polled, unwinding) = wrapped.resolution(PollOutcome::<R, P>::Panicked(payload));
            &&& unwinding == Some(payload)
            &&& !task.after_complete(polled).state.done
            &&& task.after_complete(polled).payload == Payload::<Wrapped<F>, R, P>::Future(wrapped)
        }),
{
}

/// The join handle of a task is refused a poll exactly where the task is done and its output was
/// taken before.
pub proof fn law_poll_is_refused_after_output_was_taken<F, R, S, M, P>(
    task: TaskView<F, R, S, M, P>,
    waker: Arc<Waker>,
)
    requires
        task.held_by(task.ptr),
    ensures
        !task.can(Step::StartPoll) <==> task.state.done && task.state.taken,
        !task.can(Step::FinishPoll(waker)) <==> task.state.done && task.state.taken,
{
}

/// The output is taken at most once over any steps. After it was taken, no poll is allowed.
pub proof fn law_output_is_taken_once<F, R, S, M, P>(
    task: TaskView<F, R, S, M, P>,
    steps: Seq<Step<F, R, P>>,
)
    requires
        task.wf(),
        task.can_all(steps),
    ensures
        task.outputs_taken(steps) <= 1,
        task.outputs_taken(steps) == 1 ==> task.after_all(steps).state.taken,
        task.state.taken ==> task.outputs_taken(steps) == 0,
        task.after_all(steps).state.taken ==> forall|step: Step<F, R, P>|
            step.polls() ==> !#[trigger] task.after_all(steps).can(step),
    decreases steps.len(),
{
    if steps.len() > 0 {
        law_steps_keep_task(task, steps.drop_last());
        law_done_and_cancelled_stay(task, steps.drop_last());
        law_output_is_taken_once(task, steps.drop_last());
    }
}

/// Asking twice for the output of a task that is not done leaves the task as it was.
pub proof fn law_asking_twice_changes_nothing<F, R, S, M, P>(task: TaskView<F, R, S, M, P>)
    requires
        task.wf(),
        !task.state.done,
    ensures
        task.output() is Pending,
        task.after_try_take().output() is Pending,
        task.after_try_take() == (TaskView {
            state: task.state.toggle_waker_lock(),
            ..task
        }),
        task.after_try_take().after_try_take() == task,
{
}

/// Steps other than polls leave the waker lock alone and a registered waker in place, also when
/// they make the task done.
pub proof fn law_registered_waker_stays<F, R, S, M, P>(
    task: TaskView<F, R, S, M, P>,
    steps: Seq<Step<F, R, P>>,
)
    requires
        forall|i: int| 0 <= i < steps.len() ==> !(#[trigger] steps[i]).polls(),
    ensures
        task.after_all(steps).state.waker_lock == task.state.waker_lock,
        task.after_all(steps).state.taken == task.state.taken,
        task.after_all(steps).waker == task.waker,
    decreases steps.len(),
{
    if steps.len() > 0 {
        assert forall|i: int| 0 <= i < steps.drop_last().len() implies !(
        #[trigger] steps.drop_last()[i]).polls() by {
            assert(steps.drop_last()[i] == steps[i]);
        }
        assert(!steps[steps.len() - 1].polls());
        law_registered_waker_stays(task, steps.drop_last());
    }
}

/// A done task hands out no waiter, whatever steps are made: its runs are answered that it is
/// finished, and no run of it can end.
pub proof fn law_done_task_wakes_nobody<F, R, S, M, P>(
    task: TaskView<F, R, S, M, P>,
    steps: Seq<Step<F, R, P>>,
    ptr: usize,
    run: Run<F, R, M, P>,
    polled: Polled<F, R, P>,
)
    requires
        task.wf(),
        task.state.done,
        task.can_all(steps),
    ensures
        task.after_all(steps).run_answer(ptr, run) ==> run is Finished,
        !task.after_all(steps).can(Step::Complete(polled)),
{
    law_steps_keep_task(task, steps);
    law_done_and_cancelled_stay(task, steps);
}

/// Over any steps a waiter is handed out at most once, and of a done task never.
pub proof fn law_waiter_is_handed_out_once<F, R, S, M, P>(
    task: TaskView<F, R, S, M, P>,
    steps: Seq<Step<F, R, P>>,
)
    requires
        task.wf(),
        task.can_all(steps),
    ensures
        task.waiters_handed_out(steps) <= 1,
        task.waiters_handed_out(steps) == 1 ==> task.after_all(steps).state.done,
        task.state.done ==> task.waiters_handed_out(steps) == 0,
    decreases steps.len(),
{
    if steps.len() > 0 {
        law_steps_keep_task(task, steps.drop_last());
        law_done_and_cancelled_stay(task, steps.drop_last());
        law_waiter_is_handed_out_once(task, steps.drop_last());
    }
}

/// A poll of the join handle cannot miss the end of the task: whatever steps others make between
/// its start and its end, it comes back with the output if the task is done by then, and otherwise
/// leaves its waker behind.
pub proof fn law_poll_takes_output_or_leaves_waker<F, R, S, M, P>(
    task: TaskView<F, R, S, M, P>,
    steps: Seq<Step<F, R, P>>,
    waker: Arc<Waker>,
)
    requires
        task.can(Step::StartPoll),
        !task.state.done,
        !task.state.waker_lock,
        task.after(Step::StartPoll).can_all(steps),
        forall|i: int| 0 <= i < steps.len() ==> !(#[trigger] steps[i]).polls(),
        task.after(Step::StartPoll).after_all(steps).handles() > 0,
    ensures
        ({
            let between = task.after(Step::StartPoll).after_all(steps);
            let end = between.after(Step::FinishPoll(waker));
            &&& between.can(Step::FinishPoll(waker))
            &&& between.state.done ==> between.output() is Ready
            &&& !between.state.done ==> {
                &&& between.output() is Pending
                &&& end.waiter() == Some(waker)
                &&& end.can(Step::StartPoll)
                &&& !end.state.waker_lock
            }
        }),
{
    let start = task.after(Step::StartPoll);
    law_steps_keep_task(start, steps);
    law_registered_waker_stays(start, steps);
}

/// The waker that a poll left behind is handed out to be woken by the step that makes the task
/// done, whatever steps others make before it.
pub proof fn law_registered_waker_is_handed_out<F, R, S, M, P>(
    task: TaskView<F, R, S, M, P>,
    waker: Arc<Waker>,
    steps: Seq<Step<F, R, P>>,
    last: Step<F, R, P>,
)
    requires
        task.wf(),
        task.waiter() == Some(waker),
        task.can_all(steps),
        forall|i: int| 0 <= i < steps.len() ==> !(#[trigger] steps[i]).polls(),
        task.after_all(steps).can(last),
        !task.after_all(steps).state.done,
        task.after_all(steps).after(last).state.done,
    ensures
        task.after_all(steps).waiter() == Some(waker),
        match last {
            Step::Run => forall|ptr: usize, run: Run<F, R, M, P>|
                #[trigger] task.after_all(steps).run_answer(ptr, run) ==> match run {
                    Run::Cancelled { completion, .. } => completion.waiter == Some(waker),
                    _ => false,
                },
            Step::Complete(polled) => task.after_all(steps).completion(polled).waiter == Some(
                waker,
            ),
            _ => false,
        },
{
    law_registered_waker_stays(task, steps);
}

/// After a wake the task is scheduled.
pub proof fn law_wake_schedules<F, R, S, M, P>(task: TaskView<F, R, S, M, P>)
    requires
        task.can(Step::Wake),
    ensures
        task.after_wake().state.scheduled,
{
}

/// Between the wake that schedules a task and the run that polls it no other wake is answered with
/// a request.
pub proof fn law_scheduled_task_is_not_scheduled_again<F, R, S, M, P>(
    task: TaskView<F, R, S, M, P>,
    steps: Seq<Step<F, R, P>>,
    ptr: usize,
    wake: Wake<F, R, M, P>,
)
    requires
        task.wf(),
        task.state.scheduled,
        task.can_all(steps),
        task.starts_no_poll(steps),
        task.after_all(steps).wake_answer(ptr, wake),
    ensures
        wake is Release,
{
    lemma_scheduled_stays(task, steps);
}

proof fn lemma_scheduled_stays<F, R, S, M, P>(
    task: TaskView<F, R, S, M, P>,
    steps: Seq<Step<F, R, P>>,
)
    requires
        task.wf(),
        task.state.scheduled,
        task.can_all(steps),
        task.starts_no_poll(steps),
    ensures
        task.after_all(steps).state.scheduled,
    decreases steps.len(),
{
    if steps.len() > 0 {
        law_steps_keep_task(task, steps.drop_last());
        lemma_scheduled_stays(task, steps.drop_last());
    }
}

/// A wake that comes while the future is being polled is not lost: the scheduler is handed a
/// runnable and told that the task was woken while it was running, and whatever steps others make,
/// the task is still scheduled when the run ends.
pub proof fn law_wake_during_run_is_kept<F, R, S, M, P>(
    task: TaskView<F, R, S, M, P>,
    steps: Seq<Step<F, R, P>>,
    polled: Polled<F, R, P>,
    ptr: usize,
    wake: Wake<F, R, M, P>,
)
    requires
        task.can(Step::Wake),
        task.polling(),
        !task.state.scheduled,
        task.wake_answer(ptr, wake),
        task.after_wake().can_all(steps),
        task.after_wake().starts_no_poll(steps),
        task.after_wake().after_all(steps).can(Step::Complete(polled)),
    ensures
        wake matches Wake::Schedule(request) && request.runnable@ == ptr
            && request.info.woken_while_running,
        task.after_wake().after_all(steps).after_complete(polled).state.scheduled,
{
    lemma_scheduled_stays(task.after_wake(), steps);
}

/// One run at a time has the future: from the step that hands it out until the run ends, every
/// other run is turned away.
pub proof fn law_future_is_polled_by_one_run<F, R, S, M, P>(
    task: TaskView<F, R, S, M, P>,
    steps: Seq<Step<F, R, P>>,
    ptr: usize,
    run: Run<F, R, M, P>,
)
    requires
        task.wf(),
        task.polling(),
        task.can_all(steps),
        forall|i: int| 0 <= i < steps.len() ==> !((#[trigger] steps[i]) is Complete),
        task.after_all(steps).run_answer(ptr, run),
    ensures
        run is Busy,
{
    lemma_polling_stays(task, steps);
    law_steps_keep_task(task, steps);
}

proof fn lemma_polling_stays<F, R, S, M, P>(
    task: TaskView<F, R, S, M, P>,
    steps: Seq<Step<F, R, P>>,
)
    requires
        task.wf(),
        task.polling(),
        task.can_all(steps),
        forall|i: int| 0 <= i < steps.len() ==> !((#[trigger] steps[i]) is Complete),
    ensures
        task.after_all(steps).polling(),
    decreases steps.len(),
{
    if steps.len() > 0 {
        assert forall|i: int| 0 <= i < steps.drop_last().len() implies !((
        #[trigger] steps.drop_last()[i]) is Complete) by {
            assert(steps.drop_last()[i] == steps[i]);
        }
        assert(!(steps[steps.len() - 1] is Complete));
        law_steps_keep_task(task, steps.drop_last());
        lemma_polling_stays(task, steps.drop_last());
    }
}

/// A task keeps the future that a run gave back until the next run, unless the last handle goes.
pub proof fn law_future_is_kept_between_runs<F, R, S, M, P>(
    task: TaskView<F, R, S, M, P>,
    future: F,
    steps: Seq<Step<F, R, P>>,
)
    requires
        task.wf(),
        task.payload == Payload::<F, R, P>::Future(future),
        task.can_all(steps),
        forall|i: int| 0 <= i < steps.len() ==> !((#[trigger] steps[i]) is Run),
    ensures
        task.after_all(steps).state.ref_count == 0 || task.after_all(steps).payload
            == task.payload,
    decreases steps.len(),
{
    if steps.len() > 0 {
        assert forall|i: int| 0 <= i < steps.drop_last().len() implies !((
        #[trigger] steps.drop_last()[i]) is Run) by {
            assert(steps.drop_last()[i] == steps[i]);
        }
        assert(!(steps[steps.len() - 1] is Run));
        law_steps_keep_task(task, steps.drop_last());
        law_future_is_kept_between_runs(task, future, steps.drop_last());
    }
}

/// A future comes out of a poll that is not ready tied to the thread that it went in with.
pub proof fn law_pending_local_future_keeps_thread<F, T, P>(
    wrapped: Wrapped<ThreadLocal<F>>,
    outcome: PollOutcome<T, P>,
)
    ensures
        wrapped.resolution(outcome).0 matches Polled::Pending(back) ==> back == wrapped
            && back.future.thread() == wrapped.future.thread(),
{
}

/// Every run of a local task finds the future tied to the thread that the task was spawned on:
/// whatever steps are made, as long as what each poll gives back is still tied to it.
pub proof fn law_local_future_stays_on_its_thread<F, R, S, M, P>(
    task: TaskView<Wrapped<ThreadLocal<F>>, R, S, M, P>,
    steps: Seq<Step<Wrapped<ThreadLocal<F>>, R, P>>,
    thread: u64,
)
    requires
        task.payload matches Payload::Future(wrapped) ==> wrapped.future.thread() == thread,
        forall|i: int|
            0 <= i < steps.len() ==> ((#[trigger] steps[i]) matches Step::Complete(
                Polled::Pending(back),
            ) ==> back.future.thread() == thread),
    ensures
        task.after_all(steps).payload matches Payload::Future(wrapped) ==> wrapped.future.thread()
            == thread,
        forall|ptr: usize, run: Run<Wrapped<ThreadLocal<F>>, R, M, P>|
            #[trigger] task.after_all(steps).run_answer(ptr, run) ==> (run matches Run::Poll {
                future,
                ..
            } ==> future.future.thread() == thread),
    decreases steps.len(),
{
    if steps.len() > 0 {
        assert forall|i: int| 0 <= i < steps.drop_last().len() implies ((
        #[trigger] steps.drop_last()[i]) matches Step::Complete(Polled::Pending(back))
            ==> back.future.thread() == thread) by {
            assert(steps.drop_last()[i] == steps[i]);
        }
        assert(steps.last() == steps[steps.len() - 1]);
        law_local_future_stays_on_its_thread(task, steps.drop_last(), thread);
    }
}

/// Dropping the join handle detaches the task: as long as another handle remains, nothing changes
/// but the number of handles and the mark that the join handle is gone.
pub proof fn law_detached_task_goes_on<F, R, S, M, P>(task: TaskView<F, R, S, M, P>)
    requires
        task.can(Step::Detach),
        task.state.ref_count > 1,
    ensures
        task.after(Step::Detach) == (TaskView {
            state: task.state.drop_handle().drop_ref(),
            ..task
        }),
        task.after(Step::Detach).state.cancelled == task.state.cancelled,
        task.after(Step::Detach).state.scheduled == task.state.scheduled,
{
}

/// A task that is spawned, scheduled and run to completion gives its join handle the value that
/// its future returned.
pub proof fn law_spawned_task_delivers_value<F, R, S, M, P>(
    ptr: usize,
    future: F,
    scheduler: S,
    metadata: M,
    value: R,
)
    ensures
        ({
            let spawned = TaskView::<F, R, S, M, P>::allocated(ptr, future, scheduler, metadata);
            let steps = seq![Step::Wake, Step::Run, Step::Complete(Polled::Ready(Ok(value)))];
            let done = spawned.after_all(steps);
            &&& spawned.can_all(steps)
            &&& done.can(Step::StartPoll)
            &&& done.output() == Poll::Ready(Ok::<R, Error<P>>(value))
        }),
{
    let spawned = TaskView::<F, R, S, M, P>::allocated(ptr, future, scheduler, metadata);
    let first = seq![Step::<F, R, P>::Wake];
    let second = first.push(Step::Run);
    let third = second.push(Step::Complete(Polled::Ready(Ok(value))));
    assert(third =~= seq![Step::Wake, Step::Run, Step::Complete(Polled::Ready(Ok(value)))]);
    assert(first.drop_last() =~= Seq::empty());
    assert(second.drop_last() =~= first);
    assert(third.drop_last() =~= second);
    reveal_with_fuel(TaskView::after_all, 4);
    reveal_with_fuel(TaskView::can_all, 4);
}

} // verus!
