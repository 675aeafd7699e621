//! What the steps of a task change, and what their answers say.
//!
//! For each part of a task one law says which steps change it and how, for every task and every
//! step. Then come the answers, each told by the flags, the count and the payload of the task
//! before and after. Last come laws that relate several steps.
use crate::builder::{PollOutcome, Wrapped};
use crate::error::{Error, Result};
use crate::laws::Step;
use crate::schedule::{Schedule, ScheduleInfo, WithInfo};
use crate::state::StateView;
use crate::task::{Payload, Poll, Polled, Release, Run, Runnable, TaskView, Wake};
use core::task::Waker;
use std::sync::Arc;
use vstd::prelude::*;

verus! {

// The parts of a task, one by one.
/// Only a cancel cancels a task, and nothing undoes it.
pub proof fn law_only_cancel_cancels<F, R, S, M, P>(
    task: TaskView<F, R, S, M, P>,
    step: Step<F, R, P>,
)
    requires
        task.can(step),
    ensures
        task.after(step).state.cancelled <==> task.state.cancelled || step is Cancel,
{
}

/// A task becomes done by a run that ends with an output, or by a run that finds it cancelled with
/// its future not yet done, and by nothing else.
pub proof fn law_only_runs_finish_a_task<F, R, S, M, P>(
    task: TaskView<F, R, S, M, P>,
    step: Step<F, R, P>,
)
    requires
        task.can(step),
    ensures
        task.after(step).state.done <==> {
            ||| task.state.done
            ||| step matches Step::Complete(Polled::Ready(_))
            ||| step is Run && task.payload is Future && task.state.cancelled
        },
{
}

/// The output is taken by a poll of the join handle of a done task, and by nothing else.
pub proof fn law_only_polls_take_the_output<F, R, S, M, P>(
    task: TaskView<F, R, S, M, P>,
    step: Step<F, R, P>,
)
    requires
        task.can(step),
    ensures
        task.after(step).state.taken <==> {
            ||| task.state.taken
            ||| (step is StartPoll || step is FinishPoll) && task.state.done
        },
{
}

/// The mark that the join handle is gone is set by giving it back, and by nothing else.
pub proof fn law_only_detach_marks_the_join_handle_gone<F, R, S, M, P>(
    task: TaskView<F, R, S, M, P>,
    step: Step<F, R, P>,
)
    requires
        task.can(step),
    ensures
        task.after(step).state.handle_dropped <==> task.state.handle_dropped || step is Detach,
{
}

/// A wake leaves the task scheduled, and it stays so until a run hands the future out to be polled.
pub proof fn law_wake_schedules_and_poll_unschedules<F, R, S, M, P>(
    task: TaskView<F, R, S, M, P>,
    step: Step<F, R, P>,
)
    requires
        task.can(step),
    ensures
        task.after(step).state.scheduled <==> {
            ||| step is Wake
            ||| task.state.scheduled && !(step is Run && task.payload is Future
                && !task.state.cancelled)
        },
{
}

/// A task is marked as woken while running by the first wake of a poll, until a run hands the
/// future out to be polled again.
pub proof fn law_first_wake_of_a_poll_is_marked<F, R, S, M, P>(
    task: TaskView<F, R, S, M, P>,
    step: Step<F, R, P>,
)
    requires
        task.can(step),
    ensures
        task.after(step).state.yielded <==> {
            ||| step is Wake && task.payload is Polling && !task.state.scheduled
            ||| task.state.yielded && !(step is Run && task.payload is Future
                && !task.state.cancelled)
        },
{
}

/// Polls of the join handle turn the waker lock, and nothing else does. The reserved bit, the
/// address, the scheduler and the metadata are left alone by every step.
pub proof fn law_only_polls_turn_the_waker_lock<F, R, S, M, P>(
    task: TaskView<F, R, S, M, P>,
    step: Step<F, R, P>,
)
    requires
        task.can(step),
    ensures
        task.after(step).state.waker_lock != task.state.waker_lock <==> step is StartPoll
            || step is FinishPoll,
        task.after(step).state.reserved == task.state.reserved,
        task.after(step).ptr == task.ptr,
        task.after(step).scheduler == task.scheduler,
        task.after(step).metadata == task.metadata,
{
}

/// The registered waker is the one that the last poll of the join handle ended with.
pub proof fn law_last_poll_registers_its_waker<F, R, S, M, P>(
    task: TaskView<F, R, S, M, P>,
    step: Step<F, R, P>,
)
    requires
        task.can(step),
    ensures
        match step {
            Step::FinishPoll(waker) => task.after(step).waker == Some(waker),
            _ => task.after(step).waker == task.waker,
        },
{
}

/// The count grows with a handle that is duplicated and with the waker of a poll, and shrinks with
/// a handle, a runnable or a run that is given back.
pub proof fn law_count_follows_handles<F, R, S, M, P>(
    task: TaskView<F, R, S, M, P>,
    step: Step<F, R, P>,
)
    requires
        task.can(step),
    ensures
        task.after(step).state.ref_count - task.state.ref_count == match step {
            Step::Clone => 1int,
            Step::Drop | Step::Detach | Step::Complete(_) => -1int,
            Step::Wake => if task.state.scheduled {
                -1int
            } else {
                0int
            },
            Step::Run => match task.payload {
                Payload::Polling => 0int,
                Payload::Future(_) => if task.state.cancelled {
                    -1int
                } else {
                    1int
                },
                _ => -1int,
            },
            Step::Cancel | Step::StartPoll | Step::FinishPoll(_) => 0int,
        },
{
}

/// What a task holds changes hands only so: a run takes the future out and gives back the future or
/// the output, a run that finds the task cancelled leaves that as the output, a poll of the join
/// handle takes the output, and with the count at zero nothing is left.
pub proof fn law_payload_changes_hands<F, R, S, M, P>(
    task: TaskView<F, R, S, M, P>,
    step: Step<F, R, P>,
)
    requires
        task.can(step),
    ensures
        ({
            let after = task.after(step);
            let live = after.state.ref_count > 0;
            let joins = step is StartPoll || step is FinishPoll;
            &&& !live ==> after.payload is Empty
            &&& live ==> match step {
                Step::Complete(Polled::Ready(value)) => after.payload
                    == Payload::<F, R, P>::Value(value),
                Step::Complete(Polled::Pending(future)) => after.payload
                    == Payload::<F, R, P>::Future(future),
                Step::Run => {
                    &&& task.payload is Future && task.state.cancelled ==> after.payload
                        == Payload::<F, R, P>::Value(Err(Error::Cancelled))
                    &&& task.payload is Future && !task.state.cancelled ==> after.payload is Polling
                    &&& !(task.payload is Future) ==> after.payload == task.payload
                },
                _ => {
                    &&& joins && task.payload is Value ==> after.payload is Empty
                    &&& !(joins && task.payload is Value) ==> after.payload == task.payload
                },
            }
        }),
{
}

/// A handle that is out is honoured, and so is a run in progress: nothing else is asked of a task.
pub proof fn law_handle_that_is_out_is_honoured<F, R, S, M, P>(task: TaskView<F, R, S, M, P>)
    requires
        task.wf(),
    ensures
        task.held_by(task.ptr) <==> task.state.ref_count > 1 || task.state.ref_count == 1
            && !(task.payload is Polling),
        task.run_by(task.ptr) <==> task.payload is Polling,
        forall|ptr: usize| #[trigger] task.held_by(ptr) ==> ptr == task.ptr,
        forall|ptr: usize| #[trigger] task.run_by(ptr) ==> ptr == task.ptr,
{
}

/// The payload and the flags of a task with handles agree, and in no other way.
pub proof fn law_payload_agrees_with_flags<F, R, S, M, P>(task: TaskView<F, R, S, M, P>)
    requires
        task.state.ref_count > 0,
    ensures
        task.wf() <==> {
            &&& task.payload is Value <==> task.state.done && !task.state.taken
            &&& task.payload is Empty <==> task.state.done && task.state.taken
            &&& task.state.taken ==> task.state.done
            &&& task.state.yielded ==> task.state.scheduled
        },
{
}

/// A new task holds its future, has two handles and no flag, and nobody waits for it.
pub proof fn law_new_task_is_untouched<F, R, S, M, P>(
    ptr: usize,
    future: F,
    scheduler: S,
    metadata: M,
)
    ensures
        ({
            let task = TaskView::<F, R, S, M, P>::allocated(ptr, future, scheduler, metadata);
            &&& task.wf()
            &&& task.ptr == ptr
            &&& task.scheduler == scheduler
            &&& task.metadata == metadata
            &&& task.payload == Payload::<F, R, P>::Future(future)
            &&& task.waker is None
            &&& task.state.ref_count == 2
            &&& !(task.state.done || task.state.taken || task.state.handle_dropped
                || task.state.scheduled || task.state.waker_lock || task.state.cancelled
                || task.state.yielded || task.state.reserved)
        }),
{
}

// The answers.
/// Giving a handle back is answered that the task is freed exactly where no handle is left, and
/// then with what the task still held.
pub proof fn law_freed_exactly_when_no_handle_is_left<F, R, S, M, P>(task: TaskView<F, R, S, M, P>)
    requires
        task.wf(),
        task.state.ref_count > 0,
    ensures
        task.release() is Freed <==> task.after_drop().state.ref_count == 0,
        task.release() matches Release::Freed(rest) ==> rest == task.payload,
        task.release() is Freed <==> task.after_detach().after_drop().state.ref_count == 0,
        task.after_detach().release() == task.release(),
{
}

/// The answer to a wake: a request with a runnable of the task where it was not scheduled, which
/// says whether the future was being polled; otherwise the handle is given back.
pub proof fn law_answer_to_a_wake<F, R, S, M, P>(
    task: TaskView<F, R, S, M, P>,
    ptr: usize,
    wake: Wake<F, R, M, P>,
)
    requires
        task.can(Step::Wake),
        task.wake_answer(ptr, wake),
    ensures
        wake is Schedule <==> !task.state.scheduled,
        wake matches Wake::Schedule(request) ==> {
            &&& request.runnable@ == ptr
            &&& request.info.woken_while_running <==> task.payload is Polling
            &&& task.after_wake().state.ref_count == task.state.ref_count
        },
        wake matches Wake::Release(release) ==> {
            &&& release is Freed <==> task.after_wake().state.ref_count == 0
            &&& release matches Release::Freed(rest) ==> rest == task.payload
        },
{
}

/// The answer to starting a run: the future to be polled where the task is neither cancelled nor
/// done, the future and who waits where it was cancelled, nothing to do where it is done, and the
/// runnable where another run has the future.
pub proof fn law_answer_to_a_run<F, R, S, M, P>(
    task: TaskView<F, R, S, M, P>,
    ptr: usize,
    run: Run<F, R, M, P>,
)
    requires
        task.can(Step::Run),
        task.run_answer(ptr, run),
    ensures
        run is Busy <==> task.payload is Polling,
        run is Finished <==> task.state.done,
        run is Cancelled <==> task.payload is Future && task.state.cancelled,
        run is Poll <==> task.payload is Future && !task.state.cancelled,
        match run {
            Run::Poll { running, waker, future } => {
                &&& running@ == ptr
                &&& waker@ == ptr
                &&& task.payload == Payload::<F, R, P>::Future(future)
            },
            Run::Cancelled { future, completion } => {
                &&& task.payload == Payload::<F, R, P>::Future(future)
                &&& completion.waiter == if task.state.waker_lock {
                    None
                } else {
                    task.waker
                }
                &&& completion.release is Freed <==> task.after_run().state.ref_count == 0
                &&& completion.release matches Release::Freed(rest) ==> rest
                    == Payload::<F, R, P>::Value(Err(Error::Cancelled))
            },
            Run::Busy { runnable } => runnable@ == ptr && task.after_run() == task,
            Run::Finished { release } => {
                &&& release is Freed <==> task.after_run().state.ref_count == 0
                &&& release matches Release::Freed(rest) ==> rest == task.payload
            },
        },
{
}

/// The end of a run hands out the registered waker exactly where there is an output and the join
/// handle is not storing one, and frees the task exactly where no handle is left: with the output
/// that nobody will take, or with the future that nobody will poll.
pub proof fn law_answer_to_the_end_of_a_run<F, R, S, M, P>(
    task: TaskView<F, R, S, M, P>,
    polled: Polled<F, R, P>,
)
    requires
        task.can(Step::Complete(polled)),
    ensures
        ({
            let completion = task.completion(polled);
            &&& completion.waiter == if polled is Ready && !task.state.waker_lock {
                task.waker
            } else {
                None
            }
            &&& completion.release is Freed <==> task.after_complete(polled).state.ref_count == 0
            &&& completion.release matches Release::Freed(rest) ==> rest == match polled {
                Polled::Ready(value) => Payload::<F, R, P>::Value(value),
                Polled::Pending(future) => Payload::<F, R, P>::Future(future),
            }
        }),
{
}

/// The join handle gets the output exactly where the task is done and the output was not taken, and
/// gets what the task holds.
pub proof fn law_answer_to_asking_for_the_output<F, R, S, M, P>(task: TaskView<F, R, S, M, P>)
    requires
        task.held_by(task.ptr),
    ensures
        task.output() is Ready <==> task.state.done && !task.state.taken,
        task.output() matches Poll::Ready(value) ==> task.payload == Payload::<F, R, P>::Value(
            value,
        ),
        task.finish_poll_answer().output == task.output(),
        task.finish_poll_answer().unused == task.waker,
        task.waiter() == if task.state.waker_lock {
            None
        } else {
            task.waker
        },
{
}

// Several steps.
/// A poll of the join handle in one go does what its start and its end do one after the other: it
/// registers its waker, and hands back the one before, unless the output is there at once.
pub proof fn law_poll_is_its_start_and_its_end<F, R, S, M, P>(
    task: TaskView<F, R, S, M, P>,
    waker: Arc<Waker>,
)
    requires
        task.can(Step::StartPoll),
    ensures
        task.state.done ==> {
            &&& task.after_poll(waker) == task.after(Step::StartPoll)
            &&& task.after_poll(waker).waker == task.waker
            &&& task.poll_answer(waker).output == task.output()
            &&& task.poll_answer(waker).output is Ready
            &&& task.poll_answer(waker).unused == Some(waker)
        },
        !task.state.done ==> {
            let start = task.after(Step::StartPoll);
            &&& task.after_poll(waker) == start.after(Step::FinishPoll(waker))
            &&& task.poll_answer(waker) == start.finish_poll_answer()
            &&& task.poll_answer(waker).output is Pending
            &&& task.poll_answer(waker).unused == task.waker
            &&& task.after_poll(waker).waker == Some(waker)
        },
{
}

/// A poll of the join handle that finds the task not done leaves its waker to be woken, whatever
/// else is true of the task, and changes nothing else.
pub proof fn law_pending_poll_leaves_its_waker<F, R, S, M, P>(
    task: TaskView<F, R, S, M, P>,
    waker: Arc<Waker>,
)
    requires
        task.can(Step::StartPoll),
        !task.state.waker_lock,
        task.poll_answer(waker).output is Pending,
    ensures
        task.after_poll(waker).waiter() == Some(waker),
        task == (TaskView { waker: task.waker, ..task.after_poll(waker) }),
{
}

/// The waker that a poll of the join handle left is handed out when the run that is under way ends
/// with an output, and when the next run finds the task cancelled.
pub proof fn law_pending_poll_is_woken<F, R, S, M, P>(
    task: TaskView<F, R, S, M, P>,
    waker: Arc<Waker>,
    value: Result<R, P>,
    ptr: usize,
    run: Run<F, R, M, P>,
)
    requires
        task.can(Step::StartPoll),
        !task.state.done,
        !task.state.waker_lock,
    ensures
        ({
            let waiting = task.after_poll(waker);
            &&& task.payload is Polling ==> waiting.completion(Polled::Ready(value)).waiter == Some(
                waker,
            )
            &&& task.payload is Future && task.state.cancelled && waiting.run_answer(ptr, run)
                ==> (run matches Run::Cancelled { completion, .. } && completion.waiter == Some(
                waker,
            ))
        }),
{
}

/// A run that hands the future out leaves the task neither scheduled nor marked as woken, so that
/// the next wake is answered with a request which says that it came while the task was running.
pub proof fn law_wake_of_a_started_run_is_answered<F, R, S, M, P>(
    task: TaskView<F, R, S, M, P>,
    ptr: usize,
    run: Run<F, R, M, P>,
    wake: Wake<F, R, M, P>,
)
    requires
        task.can(Step::Run),
        task.run_answer(ptr, run),
        run is Poll,
        task.after_run().wake_answer(ptr, wake),
    ensures
        !task.after_run().state.scheduled,
        !task.after_run().state.yielded,
        wake matches Wake::Schedule(request) && request.runnable@ == ptr
            && request.info.woken_while_running,
{
}

/// A task that yields comes round: woken while it is being polled, it is scheduled when the poll
/// ends, the next run hands out the future that the poll gave back, and a wake of that run is
/// answered with a request again.
pub proof fn law_yielding_task_comes_round<F, R, S, M, P>(
    task: TaskView<F, R, S, M, P>,
    future: F,
    ptr: usize,
    run: Run<F, R, M, P>,
    wake: Wake<F, R, M, P>,
)
    requires
        task.can(Step::Wake),
        task.payload is Polling,
        !task.state.cancelled,
        task.state.has_room(),
    ensures
        ({
            let yielded = task.after_wake().after_complete(Polled::Pending(future));
            let again = yielded.after_run();
            &&& yielded.state.ref_count > 0 ==> {
                &&& yielded.state.scheduled
                &&& !yielded.state.cancelled
                &&& yielded.can(Step::Run)
                &&& yielded.run_answer(ptr, run) ==> (run matches Run::Poll { future: out, .. }
                    && out == future)
                &&& again.wake_answer(ptr, wake) ==> wake is Schedule
            }
        }),
{
}

/// A wake schedules and marks, and does nothing else to a task that is not scheduled; to one that
/// is, it does what giving the handle back does.
pub proof fn law_wake_only_schedules<F, R, S, M, P>(task: TaskView<F, R, S, M, P>)
    requires
        task.can(Step::Wake),
    ensures
        !task.state.scheduled ==> task == (TaskView {
            state: StateView {
                scheduled: false,
                yielded: task.state.yielded,
                ..task.after_wake().state
            },
            ..task.after_wake()
        }),
        task.state.scheduled ==> task.after_wake() == task.after_drop(),
{
}

/// Of two wakes in a row the second only gives its handle back.
pub proof fn law_second_wake_only_gives_back<F, R, S, M, P>(
    task: TaskView<F, R, S, M, P>,
    ptr: usize,
    wake: Wake<F, R, M, P>,
)
    requires
        task.can(Step::Wake),
        task.after_wake().wake_answer(ptr, wake),
    ensures
        wake is Release,
        task.after_wake().state.ref_count > 0 ==> task.after_wake().after_wake()
            == task.after_wake().after_drop(),
{
}

/// Waking by reference, which duplicates the handle first, leaves a scheduled task as it was and
/// frees nothing; a task that is not scheduled has one more handle, the runnable's.
pub proof fn law_wake_by_reference_keeps_the_waker<F, R, S, M, P>(
    task: TaskView<F, R, S, M, P>,
    ptr: usize,
    wake: Wake<F, R, M, P>,
)
    requires
        task.can(Step::Clone),
        task.after_clone().wake_answer(ptr, wake),
    ensures
        ({
            let after = task.after_clone().after_wake();
            &&& wake is Schedule <==> !task.state.scheduled
            &&& after.held_by(task.ptr)
            &&& task.state.scheduled ==> after == task
            &&& !task.state.scheduled ==> after.state.ref_count == task.state.ref_count + 1
            &&& wake matches Wake::Release(release) ==> release is Shared
        }),
{
}

/// A handle that is duplicated and given back leaves the task as it was, and frees nothing.
pub proof fn law_clone_and_drop_cancel_out<F, R, S, M, P>(task: TaskView<F, R, S, M, P>)
    requires
        task.can(Step::Clone),
    ensures
        task.after_clone().after_drop() == task,
        task.after_clone().release() is Shared,
{
}

/// A cancel changes nothing but its own mark, and makes no difference to a step before or after it
/// other than the start of a run.
pub proof fn law_cancel_keeps_out_of_the_way<F, R, S, M, P>(
    task: TaskView<F, R, S, M, P>,
    step: Step<F, R, P>,
)
    requires
        task.can(step),
        task.can(Step::Cancel),
        !(step is Run),
    ensures
        task.after_cancel().after(step) == task.after(step).after_cancel(),
        task == (TaskView {
            state: StateView { cancelled: task.state.cancelled, ..task.after_cancel().state },
            ..task.after_cancel()
        }),
{
}

/// A run that hands the future out and gets it back leaves the task as it was, but for the flags of
/// scheduling, the waker's handle that is now out and the runnable that is gone.
pub proof fn law_pending_run_gives_the_future_back<F, R, S, M, P>(
    task: TaskView<F, R, S, M, P>,
    future: F,
)
    requires
        task.can(Step::Run),
        task.payload == Payload::<F, R, P>::Future(future),
        !task.state.cancelled,
    ensures
        task.after_run().after_complete(Polled::Pending(future)) == (TaskView {
            state: StateView { scheduled: false, yielded: false, ..task.state },
            ..task
        }),
{
}

/// A task whose run ends with an output gives that output to its join handle at the next poll, and
/// a task that was cancelled before its next run gives the join handle that.
pub proof fn law_next_poll_gets_the_output<F, R, S, M, P>(
    task: TaskView<F, R, S, M, P>,
    value: Result<R, P>,
    waker: Arc<Waker>,
)
    requires
        task.wf(),
        task.state.ref_count > 1,
        !task.state.taken,
    ensures
        task.payload is Polling ==> task.after_complete(Polled::Ready(value)).poll_answer(
            waker,
        ).output == Poll::Ready(value),
        task.payload is Future ==> task.after_cancel().after_run().poll_answer(waker).output
            == Poll::Ready(Err::<R, Error<P>>(Error::Cancelled)),
{
}

// What is put around futures, errors and schedulers.
/// A future that returns a value gives it to its run whether or not panics are caught, one that is
/// pending goes back unchanged, and a panic is either the output or goes on unwinding, with the
/// payload that it came with.
pub proof fn law_poll_outcome_reaches_the_run<F, T, P>(
    wrapped: Wrapped<F>,
    outcome: PollOutcome<T, P>,
)
    ensures
        ({
            let (polled, unwinding) = wrapped.resolution(outcome);
            &&& polled is Pending <==> outcome is Pending || outcome is Panicked
                && !wrapped.catch_panics
            &&& polled matches Polled::Pending(back) ==> back == wrapped
            &&& unwinding is Some <==> outcome is Panicked && !wrapped.catch_panics
            &&& match outcome {
                PollOutcome::Ready(value) => polled == Polled::<Wrapped<F>, T, P>::Ready(Ok(value)),
                PollOutcome::Pending => true,
                PollOutcome::Panicked(payload) => {
                    &&& unwinding matches Some(rest) ==> rest == payload
                    &&& polled matches Polled::Ready(value) ==> value == Err::<T, Error<P>>(
                        Error::Panicked { payload },
                    )
                },
            }
        }),
{
}

/// The two errors describe themselves, and not with the same words.
pub proof fn law_errors_describe_themselves<P>(error: Error<P>)
    ensures
        error is Cancelled ==> error.description() == "the task was cancelled"@,
        error is Panicked ==> error.description() == "the task panicked"@,
        "the task was cancelled"@ != "the task panicked"@,
{
    reveal_strlit("the task was cancelled");
    reveal_strlit("the task panicked");
    assert("the task was cancelled"@.len() != "the task panicked"@.len());
}

/// A function that is a scheduler is called with every runnable that it is handed.
pub proof fn law_function_is_called_with_the_runnable<F, M>(
    function: F,
    runnable: Runnable<M>,
    info: ScheduleInfo,
) where F: Fn(Runnable<M>)
    ensures
        Schedule::<M>::schedule_ensures(&function, runnable, info) ==> call_ensures(
            function,
            (runnable,),
            (),
        ),
        call_requires(function, (runnable,)) ==> Schedule::<M>::schedule_requires(
            &function,
            runnable,
            info,
        ),
{
}

/// A function that is a scheduler with information is called with every runnable that it is handed
/// and with the information that came with it.
pub proof fn law_function_is_called_with_the_information<F, M>(
    function: F,
    runnable: Runnable<M>,
    info: ScheduleInfo,
) where F: Fn(Runnable<M>, ScheduleInfo)
    ensures
        WithInfo(function).schedule_ensures(runnable, info) ==> call_ensures(
            function,
            (runnable, info),
            (),
        ),
        call_requires(function, (runnable, info)) ==> WithInfo(function).schedule_requires(
            runnable,
            info,
        ),
{
}

} // verus!
