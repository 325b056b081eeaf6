//! A countdown latch: waiters are held back until a count of outstanding
//! work has been ticked down to zero.
//!
//! The count lives in an atomic, and waiters block on a manual reset event,
//! the done signal. Only a call that moves the count onto zero, or off it,
//! touches the signal, and it does so while it holds a one-slot token (an
//! auto reset event that starts out set): it takes the token, reads the count
//! again, and sets or clears the signal by what it read. A tick that leaves
//! work outstanding is one atomic update and never takes the token.
//!
//! A tick against a count that is already spent changes nothing and reports
//! `false`: the count never drops below zero.
//!
//! Each private method that touches the count or an event is a step of
//! `latch_protocol`: `update_down` is `Tick`, `update_up` is `Increment`, the
//! write of `reset` is `Store`, and `settle` is `Enter`, `Read`, `Settle` and
//! `Leave` in turn.
use crate::cells::isize_made_with;
use crate::cells::new_isize;
use crate::cells::update_isize;
use crate::clock::Deadline;
use crate::clock::TimeoutError;
use crate::events::auto_made_set;
use crate::events::auto_set;
use crate::events::auto_wait;
use crate::events::manual_made_set;
use crate::events::manual_wait;
use crate::events::manual_wait0;
use crate::events::manual_wait_for;
use crate::latch_protocol::fresh;
use crate::latch_protocol::Latch;
use crate::latch_protocol::Turn;
use rsevents::AutoResetEvent;
use rsevents::EventState;
use rsevents::ManualResetEvent;
use std::convert::Infallible;
use std::sync::atomic::AtomicIsize;
use std::sync::atomic::Ordering;
use std::time::Duration;
use vstd::prelude::*;

verus! {

/// What a tick stores over a count it found: one less, or nothing where the
/// count is spent.
pub open spec fn ticked(remaining: isize) -> Option<isize> {
    if remaining > 0 {
        Some((remaining - 1) as isize)
    } else {
        None
    }
}

/// What an increment stores over a count it found: one more, or nothing
/// where the count cannot grow.
pub open spec fn grown(remaining: isize) -> Option<isize> {
    if remaining < isize::MAX {
        Some((remaining + 1) as isize)
    } else {
        None
    }
}

/// Whether the done signal belongs set over a count of `remaining`.
pub open spec fn done_at(remaining: isize) -> bool {
    remaining <= 0
}

/// Whether a tick that found `prev` has moved the count onto zero.
pub open spec fn lands_on_zero(prev: isize) -> bool {
    prev == 1
}

/// Whether an increment that found `prev` has moved the count off zero.
pub open spec fn leaves_zero(prev: isize) -> bool {
    prev == 0
}

/// The count as callers see it: never negative.
pub open spec fn shown(remaining: isize) -> usize {
    if remaining > 0 {
        remaining as usize
    } else {
        0
    }
}

/// Computes `ticked`.
pub fn tick_down(remaining: isize) -> (r: Option<isize>)
    ensures
        r == ticked(remaining),
{
    if remaining > 0 {
        Some(remaining - 1)
    } else {
        None
    }
}

/// Computes `grown`.
pub fn grow(remaining: isize) -> (r: Option<isize>)
    ensures
        r == grown(remaining),
{
    if remaining < isize::MAX {
        Some(remaining + 1)
    } else {
        None
    }
}

/// Computes `done_at`.
pub fn is_done_at(remaining: isize) -> (r: bool)
    ensures
        r == done_at(remaining),
{
    remaining <= 0
}

/// Computes `shown`.
pub fn show(remaining: isize) -> (r: usize)
    ensures
        r == shown(remaining),
        r <= isize::MAX,
{
    if remaining > 0 {
        remaining as usize
    } else {
        0
    }
}

/// Computes `lands_on_zero`.
pub fn has_landed_on_zero(prev: isize) -> (r: bool)
    ensures
        r == lands_on_zero(prev),
{
    prev == 1
}

/// Computes `leaves_zero`.
pub fn has_left_zero(prev: isize) -> (r: bool)
    ensures
        r == leaves_zero(prev),
{
    prev == 0
}

/// What a tick or an increment reports, and whether it goes on to settle the
/// done signal, once its update of the count has come back.
pub struct Verdict {
    /// Whether the update was made.
    pub counted: bool,
    /// Whether the update moved the count onto zero or off it.
    pub settles: bool,
}

/// The verdict of a tick whose update came back with `found`: the count that
/// was replaced, or as the error the count that was found spent.
pub open spec fn tick_verdict(found: Result<isize, isize>) -> Verdict {
    match found {
        Ok(prev) => Verdict { counted: true, settles: lands_on_zero(prev) },
        Err(_) => Verdict { counted: false, settles: false },
    }
}

/// The verdict of an increment whose update came back with `found`: the
/// count that was replaced, or as the error the count that could not grow.
pub open spec fn increment_verdict(found: Result<isize, isize>) -> Verdict {
    match found {
        Ok(prev) => Verdict { counted: true, settles: leaves_zero(prev) },
        Err(_) => Verdict { counted: false, settles: false },
    }
}

/// What a poll of the done signal reports: a timeout where the signal was
/// not found set.
pub open spec fn poll_report(done: bool) -> Result<(), TimeoutError> {
    if done {
        Ok(())
    } else {
        Err(TimeoutError)
    }
}

/// How a timed wait goes on after a slice in which the done signal was or
/// was not seen set, with a budget that is or is not used up: it ends with
/// this result, or goes on with the next slice.
pub open spec fn slice_verdict(seen: bool, expired: bool) -> Option<bool> {
    if seen {
        Some(true)
    } else if expired {
        Some(false)
    } else {
        None
    }
}

/// Computes `tick_verdict`.
pub fn judge_tick(found: Result<isize, isize>) -> (v: Verdict)
    ensures
        v == tick_verdict(found),
{
    match found {
        Ok(prev) => Verdict { counted: true, settles: has_landed_on_zero(prev) },
        Err(_) => Verdict { counted: false, settles: false },
    }
}

/// Computes `increment_verdict`.
pub fn judge_increment(found: Result<isize, isize>) -> (v: Verdict)
    ensures
        v == increment_verdict(found),
{
    match found {
        Ok(prev) => Verdict { counted: true, settles: has_left_zero(prev) },
        Err(_) => Verdict { counted: false, settles: false },
    }
}

/// Computes `poll_report`.
pub fn report_poll(done: bool) -> (r: Result<(), TimeoutError>)
    ensures
        r == poll_report(done),
{
    if done {
        Ok(())
    } else {
        Err(TimeoutError)
    }
}

/// Computes `slice_verdict`.
pub fn judge_slice(seen: bool, expired: bool) -> (r: Option<bool>)
    ensures
        r == slice_verdict(seen, expired),
{
    if seen {
        Some(true)
    } else if expired {
        Some(false)
    } else {
        None
    }
}

/// A latch that lets waiters through once its count has reached zero.
pub struct CountdownEvent {
    /// The work that is outstanding.
    count: AtomicIsize,
    /// The done signal: set while the count is zero.
    event: ManualResetEvent,
    /// The token held by the one call that may touch the done signal.
    event2: AutoResetEvent,
}

impl CountdownEvent {
    /// The state of the protocol that this latch was made in: the count and
    /// the done signal as they were made, no call under way, and the token
    /// free if it was made so. It says nothing of the state the latch is in
    /// now.
    pub closed spec fn origin(&self) -> Latch {
        Latch {
            remaining: isize_made_with(self.count),
            done: manual_made_set(self.event),
            queued: 0,
            holder: if auto_made_set(self.event2) {
                None
            } else {
                Some(Turn::Settled)
            },
            clearing: 0,
        }
    }

    /// A latch with `count` units outstanding: it is made in the state
    /// `fresh(count)`, with its done signal set exactly if `count` is zero
    /// and its token free.
    pub fn new(count: usize) -> (latch: CountdownEvent)
        requires
            count <= isize::MAX,
        ensures
            latch.origin() == fresh(count as isize),
    {
        let first: isize = count as isize;
        let done: ManualResetEvent = if is_done_at(first) {
            ManualResetEvent::new(EventState::Set)
        } else {
            ManualResetEvent::new(EventState::Unset)
        };
        CountdownEvent {
            count: new_isize(first),
            event: done,
            event2: AutoResetEvent::new(EventState::Set),
        }
    }

    fn read(&self) -> isize {
        self.count.load(Ordering::Relaxed)
    }

    /// Stores a count. Only counts that are not negative are stored.
    fn write(&self, remaining: isize)
        requires
            remaining >= 0,
    {
        self.count.store(remaining, Ordering::Relaxed)
    }

    /// The update of a tick: a compare-and-swap from a count `prev` to
    /// `ticked(prev)`. Returns the count that was replaced, or as the error
    /// the count that was found spent.
    fn update_down(&self) -> (r: Result<isize, isize>)
        ensures
            r matches Ok(prev) ==> ticked(prev) is Some,
            r matches Err(prev) ==> ticked(prev) is None,
    {
        update_isize(&self.count, tick_down)
    }

    /// The update of an increment: a compare-and-swap from a count `prev` to
    /// `grown(prev)`. Returns the count that was replaced, or as the error
    /// the count that was found unable to grow.
    fn update_up(&self) -> (r: Result<isize, isize>)
        ensures
            r matches Ok(prev) ==> grown(prev) is Some,
            r matches Err(prev) ==> grown(prev) is None,
    {
        update_isize(&self.count, grow)
    }

    /// Brings the done signal in line with the count, under the token: the
    /// count is read while the token is held, and the signal is set if
    /// `done_at` holds of what was read and cleared if not.
    fn settle(&self) {
        auto_wait(&self.event2);
        let seen: isize = self.read();
        if is_done_at(seen) {
            self.event.set();
        } else {
            self.event.reset();
        }
        auto_set(&self.event2);
    }

    /// Reports one unit of work as done. Returns `false`, and changes
    /// nothing, where no work was outstanding. The tick that moves the count
    /// onto zero settles the done signal before it returns.
    pub fn tick(&self) -> (counted: bool) {
        let verdict: Verdict = judge_tick(self.update_down());
        if verdict.settles {
            self.settle();
        }
        verdict.counted
    }

    /// Adds one unit of outstanding work. Returns `false`, and changes
    /// nothing, where the count cannot grow. The increment that moves the
    /// count off zero settles the done signal before it returns.
    pub fn increment(&self) -> (counted: bool) {
        let verdict: Verdict = judge_increment(self.update_up());
        if verdict.settles {
            self.settle();
        }
        verdict.counted
    }

    /// Sets the count to `count`. With zero the done signal is settled under
    /// the token; otherwise it is cleared directly. A reset is not ordered
    /// against ticks and increments that run beside it.
    pub fn reset(&self, count: usize)
        requires
            count <= isize::MAX,
    {
        let next: isize = count as isize;
        self.write(next);
        if next == 0 {
            self.settle();
        } else {
            self.event.reset();
        }
    }

    /// The outstanding work as this call found it.
    pub fn count(&self) -> (shown: usize)
        ensures
            shown <= isize::MAX,
    {
        show(self.read())
    }

    /// Blocks until the done signal is set.
    pub fn wait(&self) {
        manual_wait(&self.event);
    }

    /// Whether the done signal is set right now; never blocks.
    pub fn wait0(&self) -> (done: bool) {
        manual_wait0(&self.event)
    }

    /// Blocks until the done signal is set, for at most `limit`. Returns
    /// whether the signal was found set.
    pub fn wait_for(&self, limit: Duration) -> (done: bool) {
        let mut deadline: Deadline = Deadline::begin(limit.as_nanos());
        loop
            decreases deadline.left(),
        {
            let seen: bool = manual_wait_for(&self.event, deadline.slice());
            match judge_slice(seen, deadline.expired()) {
                Some(done) => {
                    return done;
                },
                None => {},
            }
            deadline.spend();
        }
    }

    /// As `wait`, in the form of a result that cannot be an error.
    pub fn try_wait(&self) -> (r: Result<(), Infallible>)
        ensures
            r is Ok,
    {
        self.wait();
        Ok(())
    }

    /// As `wait_for`, with a timeout as the error.
    pub fn try_wait_for(&self, limit: Duration) -> (r: Result<(), TimeoutError>) {
        report_poll(self.wait_for(limit))
    }

    /// As `wait0`, with a timeout as the error.
    pub fn try_wait0(&self) -> (r: Result<(), TimeoutError>) {
        report_poll(self.wait0())
    }
}

} // verus!
