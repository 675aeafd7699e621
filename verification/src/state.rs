//! The state word of a task.
//!
//! One `u64` holds seven flags and a reserved bit in its low byte, and the number of handles to the
//! task in the remaining bits. [`State`] is the word itself, with one method for each transition that a task
//! makes; [`Snapshot`] is a copy of it. Contracts speak of the decoded form, [`StateView`].
use vstd::prelude::*;

verus! {

/// The future has run to completion, or the task was found to be cancelled when it was run.
pub const DONE: u64 = 0b0000_0001;

/// The output was handed to the join handle.
pub const TAKEN: u64 = 0b0000_0010;

/// The join handle was dropped.
pub const HANDLE_DROPPED: u64 = 0b0000_0100;

/// A runnable was given out and has not been run yet.
pub const SCHEDULED: u64 = 0b0000_1000;

/// The join handle is storing its waker.
pub const WAKER_LOCK: u64 = 0b0001_0000;

/// The task is to finish without polling its future again.
pub const CANCELLED: u64 = 0b0010_0000;

/// The task was woken while its future was being polled.
pub const YIELDED: u64 = 0b0100_0000;

/// Set by no transition.
pub const RESERVED: u64 = 0b1000_0000;

/// One handle in the reference count.
pub const REF_COUNT: u64 = 0b1_0000_0000;

/// The word of a new task: one handle, no flag.
pub const INIT: u64 = REF_COUNT;

/// No handle may be added once the count has reached this number: the word would be above
/// `i64::MAX`.
pub const REF_COUNT_LIMIT: u64 = 0x0080_0000_0000_0000;

/// What a state word says.
pub struct StateView {
    pub ref_count: nat,
    pub done: bool,
    pub taken: bool,
    pub handle_dropped: bool,
    pub scheduled: bool,
    pub waker_lock: bool,
    pub cancelled: bool,
    pub yielded: bool,
    pub reserved: bool,
}

/// Reads a state word.
pub open spec fn decode(word: u64) -> StateView {
    StateView {
        ref_count: (word >> 8) as nat,
        done: word & DONE != 0,
        taken: word & TAKEN != 0,
        handle_dropped: word & HANDLE_DROPPED != 0,
        scheduled: word & SCHEDULED != 0,
        waker_lock: word & WAKER_LOCK != 0,
        cancelled: word & CANCELLED != 0,
        yielded: word & YIELDED != 0,
        reserved: word & RESERVED != 0,
    }
}

impl StateView {
    /// One handle and no flag.
    pub open spec fn init() -> StateView {
        StateView {
            ref_count: 1,
            done: false,
            taken: false,
            handle_dropped: false,
            scheduled: false,
            waker_lock: false,
            cancelled: false,
            yielded: false,
            reserved: false,
        }
    }

    /// Whether one more handle may be counted.
    pub open spec fn has_room(self) -> bool {
        self.ref_count < REF_COUNT_LIMIT
    }

    pub open spec fn finish(self) -> StateView {
        StateView { done: true, ..self }
    }

    pub open spec fn take(self) -> StateView {
        StateView { taken: true, ..self }
    }

    pub open spec fn add_ref(self) -> StateView {
        StateView { ref_count: self.ref_count + 1, ..self }
    }

    pub open spec fn drop_ref(self) -> StateView {
        StateView { ref_count: (self.ref_count - 1) as nat, ..self }
    }

    pub open spec fn drop_handle(self) -> StateView {
        StateView { handle_dropped: true, ..self }
    }

    pub open spec fn schedule(self) -> StateView {
        StateView { scheduled: true, ..self }
    }

    pub open spec fn toggle_waker_lock(self) -> StateView {
        StateView { waker_lock: !self.waker_lock, ..self }
    }

    pub open spec fn run(self) -> StateView {
        StateView { scheduled: false, yielded: false, ..self }
    }

    pub open spec fn cancel(self) -> StateView {
        StateView { cancelled: true, ..self }
    }

    pub open spec fn yielded(self) -> StateView {
        StateView { yielded: true, ..self }
    }
}

proof fn lemma_init()
    ensures
        decode(INIT) == StateView::init(),
{
    assert(INIT >> 8 == 1 && INIT & DONE == 0 && INIT & TAKEN == 0 && INIT & HANDLE_DROPPED == 0
        && INIT & SCHEDULED == 0 && INIT & WAKER_LOCK == 0 && INIT & CANCELLED == 0 && INIT
        & YIELDED == 0 && INIT & RESERVED == 0) by (bit_vector);
}

/// Setting one flag sets that flag and leaves the rest of the word alone.
proof fn lemma_set(word: u64, flag: u64)
    requires
        flag == DONE || flag == TAKEN || flag == HANDLE_DROPPED || flag == SCHEDULED || flag
            == CANCELLED || flag == YIELDED,
    ensures
        decode(word | flag) == (StateView {
            ref_count: decode(word).ref_count,
            done: flag == DONE || decode(word).done,
            taken: flag == TAKEN || decode(word).taken,
            handle_dropped: flag == HANDLE_DROPPED || decode(word).handle_dropped,
            scheduled: flag == SCHEDULED || decode(word).scheduled,
            waker_lock: decode(word).waker_lock,
            cancelled: flag == CANCELLED || decode(word).cancelled,
            yielded: flag == YIELDED || decode(word).yielded,
            reserved: decode(word).reserved,
        }),
{
    let after = word | flag;
    assert(after >> 8 == word >> 8 && (after & DONE != 0) == (flag == DONE || word & DONE != 0) && (
    after & TAKEN != 0) == (flag == TAKEN || word & TAKEN != 0) && (after & HANDLE_DROPPED != 0)
        == (flag == HANDLE_DROPPED || word & HANDLE_DROPPED != 0) && (after & SCHEDULED != 0) == (
    flag == SCHEDULED || word & SCHEDULED != 0) && (after & WAKER_LOCK != 0) == (word & WAKER_LOCK
        != 0) && (after & CANCELLED != 0) == (flag == CANCELLED || word & CANCELLED != 0) && (after
        & YIELDED != 0) == (flag == YIELDED || word & YIELDED != 0) && (after & RESERVED
        != 0) == (word & RESERVED != 0)) by (bit_vector)
        requires
            after == word | flag,
            flag == DONE || flag == TAKEN || flag == HANDLE_DROPPED || flag == SCHEDULED || flag
                == CANCELLED || flag == YIELDED,
    ;
}

/// Toggling the waker lock leaves the rest of the word alone.
proof fn lemma_toggle(word: u64)
    ensures
        decode(word ^ WAKER_LOCK) == decode(word).toggle_waker_lock(),
{
    let after = word ^ WAKER_LOCK;
    assert(after >> 8 == word >> 8 && after & DONE == word & DONE && after & TAKEN == word & TAKEN
        && after & HANDLE_DROPPED == word & HANDLE_DROPPED && after & SCHEDULED == word & SCHEDULED
        && (after & WAKER_LOCK != 0) == (word & WAKER_LOCK == 0) && after & CANCELLED == word
        & CANCELLED && after & YIELDED == word & YIELDED && after & RESERVED == word
        & RESERVED) by (bit_vector)
        requires
            after == word ^ WAKER_LOCK,
    ;
}

/// Starting a run clears two flags and leaves the rest of the word alone.
proof fn lemma_run(word: u64)
    ensures
        decode(word & (!SCHEDULED & !YIELDED)) == decode(word).run(),
{
    let after = word & (!SCHEDULED & !YIELDED);
    assert(after >> 8 == word >> 8 && after & DONE == word & DONE && after & TAKEN == word & TAKEN
        && after & HANDLE_DROPPED == word & HANDLE_DROPPED && after & SCHEDULED == 0 && after
        & WAKER_LOCK == word & WAKER_LOCK && after & CANCELLED == word & CANCELLED && after
        & YIELDED == 0 && after & RESERVED == word & RESERVED) by (bit_vector)
        requires
            after == word & (!SCHEDULED & !YIELDED),
    ;
}

/// Counting a handle leaves the flags alone.
proof fn lemma_add_ref(word: u64, after: u64)
    requires
        word + REF_COUNT == after,
    ensures
        decode(after) == decode(word).add_ref(),
        decode(word) == decode(after).drop_ref(),
{
    assert(after >> 8 == (word >> 8) + 1 && after & DONE == word & DONE && after & TAKEN == word
        & TAKEN && after & HANDLE_DROPPED == word & HANDLE_DROPPED && after & SCHEDULED == word
        & SCHEDULED && after & WAKER_LOCK == word & WAKER_LOCK && after & CANCELLED == word
        & CANCELLED && after & YIELDED == word & YIELDED && after & RESERVED == word
        & RESERVED) by (bit_vector)
        requires
            word + REF_COUNT == after,
    ;
}

/// What a word says fixes the word.
pub proof fn law_view_fixes_word(word: u64, other: u64)
    requires
        decode(word) == decode(other),
    ensures
        word == other,
{
    assert(word == other) by (bit_vector)
        requires
            word >> 8 == other >> 8,
            (word & DONE != 0) == (other & DONE != 0),
            (word & TAKEN != 0) == (other & TAKEN != 0),
            (word & HANDLE_DROPPED != 0) == (other & HANDLE_DROPPED != 0),
            (word & SCHEDULED != 0) == (other & SCHEDULED != 0),
            (word & WAKER_LOCK != 0) == (other & WAKER_LOCK != 0),
            (word & CANCELLED != 0) == (other & CANCELLED != 0),
            (word & YIELDED != 0) == (other & YIELDED != 0),
            (word & RESERVED != 0) == (other & RESERVED != 0),
    ;
}

/// The word is the count times 256, plus one for a task that is done, 2 for one whose output was
/// taken, 4 where the join handle is gone, 8 for a scheduled task, 16 while the waker lock is held,
/// 32 for a cancelled task and 64 for one that was woken while running.
pub proof fn law_word_adds_up(word: u64)
    ensures
        ({
            let state = decode(word);
            let one = |flag: bool, weight: int| if flag { weight } else { 0 };
            word == state.ref_count * 256 + one(state.done, 1) + one(state.taken, 2) + one(
                state.handle_dropped,
                4,
            ) + one(state.scheduled, 8) + one(state.waker_lock, 16) + one(state.cancelled, 32)
                + one(state.yielded, 64) + one(state.reserved, 128)
        }),
{
    assert(word == (word >> 8) * 256 + (word & 1) + (word & 2) + (word & 4) + (word & 8) + (word
        & 16) + (word & 32) + (word & 64) + (word & 128)) by (bit_vector);
    assert((word & 1 == 0 || word & 1 == 1) && (word & 2 == 0 || word & 2 == 2) && (word & 4 == 0
        || word & 4 == 4) && (word & 8 == 0 || word & 8 == 8) && (word & 16 == 0 || word & 16 == 16)
        && (word & 32 == 0 || word & 32 == 32) && (word & 64 == 0 || word & 64 == 64) && (word & 128
        == 0 || word & 128 == 128)) by (bit_vector);
}

/// A handle may be added exactly as long as the word is not above `i64::MAX`.
pub proof fn law_room_ends_at_i64_max(word: u64)
    ensures
        decode(word).has_room() <==> word <= 0x7fff_ffff_ffff_ffff,
{
    assert((word >> 8 < 0x0080_0000_0000_0000) <==> word <= 0x7fff_ffff_ffff_ffff)
        by (bit_vector);
}

/// A new state is one handle and nothing else.
pub proof fn law_initial_word_is_one_handle()
    ensures
        INIT == 256,
        decode(INIT) == StateView::init(),
{
    lemma_init();
}

/// Each transition sets what it is named for and, that aside, leaves the state as it was.
pub proof fn law_transitions_keep_to_their_flag(state: StateView)
    ensures
        state.finish().done && state == (StateView { done: state.done, ..state.finish() }),
        state.take().taken && state == (StateView { taken: state.taken, ..state.take() }),
        state.cancel().cancelled && state == (StateView {
            cancelled: state.cancelled,
            ..state.cancel()
        }),
        state.schedule().scheduled && state == (StateView {
            scheduled: state.scheduled,
            ..state.schedule()
        }),
        state.yielded().yielded && state == (StateView {
            yielded: state.yielded,
            ..state.yielded()
        }),
        state.drop_handle().handle_dropped && state == (StateView {
            handle_dropped: state.handle_dropped,
            ..state.drop_handle()
        }),
        state.toggle_waker_lock().waker_lock != state.waker_lock,
        state.toggle_waker_lock().toggle_waker_lock() == state,
        !state.run().scheduled && !state.run().yielded,
        state == (StateView {
            scheduled: state.scheduled,
            yielded: state.yielded,
            ..state.run()
        }),
        state.add_ref().ref_count == state.ref_count + 1,
        state.add_ref().drop_ref() == state,
        state.ref_count > 0 ==> state.drop_ref().ref_count == state.ref_count - 1
            && state.drop_ref().add_ref() == state,
{
}

/// The state word of a task.
#[derive(Debug)]
pub struct State(u64);

impl View for State {
    type V = StateView;

    open spec fn view(&self) -> StateView {
        decode(self.word())
    }
}

impl State {
    pub closed spec fn word(self) -> u64 {
        self.0
    }

    /// The state of a new task.
    pub fn new() -> (state: State)
        ensures
            state@ == StateView::init(),
            state.word() == INIT,
    {
        proof {
            lemma_init();
        }
        State(INIT)
    }

    /// A copy of the state.
    pub fn snapshot(&self) -> (snapshot: Snapshot)
        ensures
            snapshot@ == self@,
            snapshot.word() == self.word(),
    {
        Snapshot(self.0)
    }

    /// Marks the task as done. Like every transition, returns the state before.
    pub fn finish(&mut self) -> (before: Snapshot)
        ensures
            before@ == old(self)@,
            final(self)@ == old(self)@.finish(),
            before.word() == old(self).word(),
            final(self).word() == old(self).word() | DONE,
    {
        let before = self.snapshot();
        proof {
            lemma_set(self.0, DONE);
        }
        self.0 = self.0 | DONE;
        before
    }

    /// Marks the output as taken.
    pub fn take(&mut self) -> (before: Snapshot)
        ensures
            before@ == old(self)@,
            final(self)@ == old(self)@.take(),
            before.word() == old(self).word(),
            final(self).word() == old(self).word() | TAKEN,
    {
        let before = self.snapshot();
        proof {
            lemma_set(self.0, TAKEN);
        }
        self.0 = self.0 | TAKEN;
        before
    }

    /// Counts one more handle.
    pub fn add_ref(&mut self) -> (before: Snapshot)
        requires
            old(self)@.has_room(),
        ensures
            before@ == old(self)@,
            final(self)@ == old(self)@.add_ref(),
            before.word() == old(self).word(),
            final(self).word() == old(self).word() + REF_COUNT,
    {
        let before = self.snapshot();
        proof {
            let word = self.0;
            assert(word >> 8 < REF_COUNT_LIMIT ==> word <= 0x7fff_ffff_ffff_ffff) by (bit_vector);
            lemma_add_ref(word, (word + REF_COUNT) as u64);
        }
        self.0 = self.0 + REF_COUNT;
        before
    }

    /// Counts one handle less.
    pub fn drop_ref(&mut self) -> (before: Snapshot)
        requires
            old(self)@.ref_count > 0,
        ensures
            before@ == old(self)@,
            final(self)@ == old(self)@.drop_ref(),
            before.word() == old(self).word(),
            final(self).word() == old(self).word() - REF_COUNT,
    {
        let before = self.snapshot();
        proof {
            let word = self.0;
            assert(word >> 8 > 0 ==> word >= REF_COUNT) by (bit_vector);
            lemma_add_ref((word - REF_COUNT) as u64, word);
        }
        self.0 = self.0 - REF_COUNT;
        before
    }

    /// Marks the join handle as dropped.
    pub fn drop_handle(&mut self) -> (before: Snapshot)
        ensures
            before@ == old(self)@,
            final(self)@ == old(self)@.drop_handle(),
            before.word() == old(self).word(),
            final(self).word() == old(self).word() | HANDLE_DROPPED,
    {
        let before = self.snapshot();
        proof {
            lemma_set(self.0, HANDLE_DROPPED);
        }
        self.0 = self.0 | HANDLE_DROPPED;
        before
    }

    /// Marks the task as scheduled.
    pub fn schedule(&mut self) -> (before: Snapshot)
        ensures
            before@ == old(self)@,
            final(self)@ == old(self)@.schedule(),
            before.word() == old(self).word(),
            final(self).word() == old(self).word() | SCHEDULED,
    {
        let before = self.snapshot();
        proof {
            lemma_set(self.0, SCHEDULED);
        }
        self.0 = self.0 | SCHEDULED;
        before
    }

    /// Takes the waker lock where it is free, and gives it back where it is held.
    pub fn toggle_waker_lock(&mut self) -> (before: Snapshot)
        ensures
            before@ == old(self)@,
            final(self)@ == old(self)@.toggle_waker_lock(),
            before.word() == old(self).word(),
            final(self).word() == old(self).word() ^ WAKER_LOCK,
    {
        let before = self.snapshot();
        proof {
            lemma_toggle(self.0);
        }
        self.0 = self.0 ^ WAKER_LOCK;
        before
    }

    /// Starts a run: the task is no longer scheduled, and has not been woken during this run.
    pub fn run(&mut self) -> (before: Snapshot)
        ensures
            before@ == old(self)@,
            final(self)@ == old(self)@.run(),
            before.word() == old(self).word(),
            final(self).word() == old(self).word() & (!SCHEDULED & !YIELDED),
    {
        let before = self.snapshot();
        proof {
            lemma_run(self.0);
        }
        self.0 = self.0 & (!SCHEDULED & !YIELDED);
        before
    }

    /// Marks the task as cancelled.
    pub fn cancel(&mut self) -> (before: Snapshot)
        ensures
            before@ == old(self)@,
            final(self)@ == old(self)@.cancel(),
            before.word() == old(self).word(),
            final(self).word() == old(self).word() | CANCELLED,
    {
        let before = self.snapshot();
        proof {
            lemma_set(self.0, CANCELLED);
        }
        self.0 = self.0 | CANCELLED;
        before
    }

    /// Marks the task as woken while it is running.
    pub fn yielded(&mut self) -> (before: Snapshot)
        ensures
            before@ == old(self)@,
            final(self)@ == old(self)@.yielded(),
            before.word() == old(self).word(),
            final(self).word() == old(self).word() | YIELDED,
    {
        let before = self.snapshot();
        proof {
            lemma_set(self.0, YIELDED);
        }
        self.0 = self.0 | YIELDED;
        before
    }
}

/// A copy of a task's state.
#[derive(Clone, Copy)]
pub struct Snapshot(u64);

impl View for Snapshot {
    type V = StateView;

    open spec fn view(&self) -> StateView {
        decode(self.word())
    }
}

impl Snapshot {
    pub closed spec fn word(self) -> u64 {
        self.0
    }

    /// The number of handles to the task.
    pub fn ref_count(self) -> (count: u64)
        ensures
            count == self@.ref_count,
    {
        self.0 >> 8
    }

    /// Whether one more handle may be counted.
    pub fn has_room(self) -> (room: bool)
        ensures
            room == self@.has_room(),
    {
        self.ref_count() < REF_COUNT_LIMIT
    }

    pub fn done(self) -> (flag: bool)
        ensures
            flag == self@.done,
    {
        self.0 & DONE != 0
    }

    pub fn taken(self) -> (flag: bool)
        ensures
            flag == self@.taken,
    {
        self.0 & TAKEN != 0
    }

    pub fn handle_dropped(self) -> (flag: bool)
        ensures
            flag == self@.handle_dropped,
    {
        self.0 & HANDLE_DROPPED != 0
    }

    pub fn scheduled(self) -> (flag: bool)
        ensures
            flag == self@.scheduled,
    {
        self.0 & SCHEDULED != 0
    }

    pub fn waker_lock(self) -> (flag: bool)
        ensures
            flag == self@.waker_lock,
    {
        self.0 & WAKER_LOCK != 0
    }

    pub fn cancelled(self) -> (flag: bool)
        ensures
            flag == self@.cancelled,
    {
        self.0 & CANCELLED != 0
    }

    pub fn yielded(self) -> (flag: bool)
        ensures
            flag == self@.yielded,
    {
        self.0 & YIELDED != 0
    }
}

} // verus!
