//! The protocol of the countdown latch, as a transition system.
//!
//! A `CountdownEvent` is used by many threads at once, and each of its calls
//! is a short run of atomic steps: an update of the count, and for a call
//! that moves the count onto zero or off it, taking the token, reading the
//! count, setting or clearing the done signal, and giving the token back.
//! The model below has one `Step` for each of these, built from the decision
//! functions that the executable code runs, and a trace of steps stands for
//! one interleaving of any number of calls. The threads themselves are not
//! told apart: the model counts those that wait for the token and records
//! where the one that holds it stands.
//!
//! A trace puts the steps of all calls in one line, each step seeing what
//! the steps before it have done. What is proved here holds of every trace.
use crate::countdown::done_at;
use crate::countdown::grown;
use crate::countdown::lands_on_zero;
use crate::countdown::leaves_zero;
use crate::countdown::ticked;
use vstd::prelude::*;

verus! {

/// Where the call that holds the token stands.
pub enum Turn {
    /// It has taken the token and not yet read the count.
    Entered,
    /// It has read this count and not yet touched the done signal.
    Seen(isize),
    /// It has set or cleared the done signal and still holds the token.
    Settled,
}

/// The state of a latch between two atomic steps.
pub struct Latch {
    /// The count of outstanding work.
    pub remaining: isize,
    /// Whether the done signal is set.
    pub done: bool,
    /// The calls that have moved the count onto zero or off it and wait for
    /// the token.
    pub queued: nat,
    /// The call that holds the token, if one does.
    pub holder: Option<Turn>,
    /// The resets to a count other than zero that have stored their count
    /// and not yet cleared the done signal.
    pub clearing: nat,
}

/// One atomic step of some call.
pub enum Step {
    /// The update of a tick.
    Tick,
    /// The update of an increment.
    Increment,
    /// The store of a reset to this count.
    Store(isize),
    /// The clearing of the done signal by a reset to a count other than zero.
    Clear,
    /// A waiting call takes the token.
    Enter,
    /// The holder of the token reads the count.
    Read,
    /// The holder of the token sets or clears the done signal.
    Settle,
    /// The holder of the token gives it back.
    Leave,
}

/// A latch as `CountdownEvent::new` makes it.
pub open spec fn fresh(count: isize) -> Latch {
    Latch { remaining: count, done: done_at(count), queued: 0, holder: None, clearing: 0 }
}

/// The state after one step. A step that cannot be taken in `s` (a tick
/// against a spent count, taking a token that is held) leaves `s` as it is.
pub open spec fn after(s: Latch, step: Step) -> Latch {
    match step {
        Step::Tick => match ticked(s.remaining) {
            Some(next) => Latch {
                remaining: next,
                queued: if lands_on_zero(s.remaining) {
                    s.queued + 1
                } else {
                    s.queued
                },
                ..s
            },
            None => s,
        },
        Step::Increment => match grown(s.remaining) {
            Some(next) => Latch {
                remaining: next,
                queued: if leaves_zero(s.remaining) {
                    s.queued + 1
                } else {
                    s.queued
                },
                ..s
            },
            None => s,
        },
        Step::Store(count) => if count == 0 {
            Latch { remaining: count, queued: s.queued + 1, ..s }
        } else if count > 0 {
            Latch { remaining: count, clearing: s.clearing + 1, ..s }
        } else {
            s
        },
        Step::Clear => if s.clearing > 0 {
            Latch { done: false, clearing: (s.clearing - 1) as nat, ..s }
        } else {
            s
        },
        Step::Enter => if s.queued > 0 && s.holder is None {
            Latch { queued: (s.queued - 1) as nat, holder: Some(Turn::Entered), ..s }
        } else {
            s
        },
        Step::Read => if s.holder == Some(Turn::Entered) {
            Latch { holder: Some(Turn::Seen(s.remaining)), ..s }
        } else {
            s
        },
        Step::Settle => match s.holder {
            Some(Turn::Seen(seen)) => Latch {
                done: done_at(seen),
                holder: Some(Turn::Settled),
                ..s
            },
            _ => s,
        },
        Step::Leave => if s.holder == Some(Turn::Settled) {
            Latch { holder: None, ..s }
        } else {
            s
        },
    }
}

/// The state after a trace of steps, taken from left to right.
pub open spec fn run(s: Latch, steps: Seq<Step>) -> Latch
    decreases steps.len(),
{
    if steps.len() == 0 {
        s
    } else {
        after(run(s, steps.drop_last()), steps.last())
    }
}

/// What a call of `wait0` returns in state `s`.
pub open spec fn polled(s: Latch) -> bool {
    s.done
}

/// No call is on its way to the done signal: none waits for the token, none
/// holds it, and no reset has its clearing still to do.
pub open spec fn quiet(s: Latch) -> bool {
    s.queued == 0 && s.holder is None && s.clearing == 0
}

/// The done signal says what the count says.
pub open spec fn agrees(s: Latch) -> bool {
    s.done == done_at(s.remaining)
}

/// A state at rest: quiet, in agreement, and with a count that is not
/// negative.
pub open spec fn at_rest(s: Latch) -> bool {
    quiet(s) && agrees(s) && s.remaining >= 0
}

/// The step belongs to a tick or an increment.
pub open spec fn is_race_step(step: Step) -> bool {
    !(step is Store) && !(step is Clear)
}

/// The step belongs to a tick.
pub open spec fn is_tick_step(step: Step) -> bool {
    is_race_step(step) && !(step is Increment)
}

/// A trace of ticks and increments, interleaved in any way.
pub open spec fn is_race(steps: Seq<Step>) -> bool {
    forall|i: int| 0 <= i < steps.len() ==> is_race_step(#[trigger] steps[i])
}

/// A trace of ticks, interleaved in any way.
pub open spec fn is_countdown(steps: Seq<Step>) -> bool {
    forall|i: int| 0 <= i < steps.len() ==> is_tick_step(#[trigger] steps[i])
}

/// The number of ticks in a trace, those against a spent count included.
pub open spec fn ticks(steps: Seq<Step>) -> nat
    decreases steps.len(),
{
    if steps.len() == 0 {
        0
    } else {
        ticks(steps.drop_last()) + if steps.last() is Tick {
            1nat
        } else {
            0nat
        }
    }
}

/// The steps of one tick that runs alone against a count of `remaining`.
pub open spec fn tick_alone(remaining: isize) -> Seq<Step> {
    if lands_on_zero(remaining) {
        seq![Step::Tick, Step::Enter, Step::Read, Step::Settle, Step::Leave]
    } else {
        seq![Step::Tick]
    }
}

/// The steps of one increment that runs alone against a count of
/// `remaining`.
pub open spec fn increment_alone(remaining: isize) -> Seq<Step> {
    if leaves_zero(remaining) {
        seq![Step::Increment, Step::Enter, Step::Read, Step::Settle, Step::Leave]
    } else {
        seq![Step::Increment]
    }
}

/// The steps of one reset to `count` that runs alone.
pub open spec fn reset_alone(count: isize) -> Seq<Step> {
    if count == 0 {
        seq![Step::Store(count), Step::Enter, Step::Read, Step::Settle, Step::Leave]
    } else {
        seq![Step::Store(count), Step::Clear]
    }
}

/// The steps by which a call that waits for the token takes its turn.
pub open spec fn one_turn() -> Seq<Step> {
    seq![Step::Enter, Step::Read, Step::Settle, Step::Leave]
}

/// The steps that the holder of the token has still to take.
pub open spec fn rest_of_turn(holder: Option<Turn>) -> Seq<Step> {
    match holder {
        None => Seq::empty(),
        Some(Turn::Entered) => seq![Step::Read, Step::Settle, Step::Leave],
        Some(Turn::Seen(_)) => seq![Step::Settle, Step::Leave],
        Some(Turn::Settled) => seq![Step::Leave],
    }
}

/// The turns of `n` waiting calls, one after the other.
pub open spec fn turns(n: nat) -> Seq<Step>
    decreases n,
{
    if n == 0 {
        Seq::empty()
    } else {
        one_turn() + turns((n - 1) as nat)
    }
}

/// The steps that are left to the calls under way in `s` when no further
/// call begins: the holder of the token ends its turn, and each waiting call
/// takes one.
pub open spec fn wind_down(s: Latch) -> Seq<Step> {
    rest_of_turn(s.holder) + turns(s.queued)
}

/// What holds of every state that ticks and increments reach from a state at
/// rest: whenever the done signal disagrees with the count, a call is on its
/// way that will put it right. Such a call waits for the token, or holds it
/// and has yet to read the count, or has read a count that still says what
/// the count says now.
pub open spec fn on_track(s: Latch) -> bool {
    &&& s.remaining >= 0
    &&& s.clearing == 0
    &&& s.holder matches Some(Turn::Seen(seen)) ==> done_at(seen) == done_at(s.remaining)
        || s.queued > 0
    &&& agrees(s) || s.queued > 0 || s.holder == Some(Turn::Entered)
        || s.holder matches Some(Turn::Seen(_))
}

/// What holds, beyond `on_track`, of every state that ticks alone reach
/// from a fresh latch of `count`.
pub open spec fn counting_down(count: isize, done_ticks: nat, s: Latch) -> bool {
    &&& on_track(s)
    &&& s.remaining == if done_ticks >= count {
        0
    } else {
        count - done_ticks
    }
    &&& s.done ==> s.remaining == 0
    &&& s.holder matches Some(Turn::Seen(seen)) ==> seen >= s.remaining && (s.done ==> seen
        <= 0)
}

proof fn lemma_step_keeps_track(s: Latch, step: Step)
    requires
        on_track(s),
        is_race_step(step),
    ensures
        on_track(after(s, step)),
{
}

proof fn lemma_race_keeps_track(start: Latch, steps: Seq<Step>)
    requires
        on_track(start),
        is_race(steps),
    ensures
        on_track(run(start, steps)),
    decreases steps.len(),
{
    if steps.len() > 0 {
        let front = steps.drop_last();
        assert forall|i: int| 0 <= i < front.len() implies is_race_step(#[trigger] front[i]) by {
            assert(front[i] == steps[i]);
        }
        lemma_race_keeps_track(start, front);
        lemma_step_keeps_track(run(start, front), steps.last());
    }
}

proof fn lemma_step_counts_down(count: isize, done_ticks: nat, s: Latch, step: Step)
    requires
        count >= 0,
        counting_down(count, done_ticks, s),
        is_tick_step(step),
    ensures
        counting_down(
            count,
            if step is Tick {
                done_ticks + 1
            } else {
                done_ticks
            },
            after(s, step),
        ),
        s.done ==> after(s, step).done,
{
}

proof fn lemma_countdown_counts_down(count: isize, steps: Seq<Step>)
    requires
        count >= 0,
        is_countdown(steps),
    ensures
        counting_down(count, ticks(steps), run(fresh(count), steps)),
    decreases steps.len(),
{
    if steps.len() > 0 {
        let front = steps.drop_last();
        assert forall|i: int| 0 <= i < front.len() implies is_tick_step(#[trigger] front[i]) by {
            assert(front[i] == steps[i]);
        }
        lemma_countdown_counts_down(count, front);
        lemma_step_counts_down(count, ticks(front), run(fresh(count), front), steps.last());
    }
}

proof fn lemma_run_joins(s: Latch, first: Seq<Step>, second: Seq<Step>)
    ensures
        run(s, first + second) == run(run(s, first), second),
    decreases second.len(),
{
    if second.len() == 0 {
        assert(first + second =~= first);
    } else {
        assert((first + second).drop_last() =~= first + second.drop_last());
        assert((first + second).last() == second.last());
        lemma_run_joins(s, first, second.drop_last());
    }
}

proof fn lemma_turns_settle(s: Latch, n: nat)
    requires
        on_track(s),
        s.holder is None,
        s.queued == n,
    ensures
        at_rest(run(s, turns(n))),
        run(s, turns(n)).remaining == s.remaining,
    decreases n,
{
    if n > 0 {
        lemma_run_unfolds(s, one_turn());
        let next = run(s, one_turn());
        assert(on_track(next) && next.holder is None && next.queued == n - 1);
        assert(n == 1 ==> agrees(next));
        lemma_turns_settle(next, (n - 1) as nat);
        lemma_run_joins(s, one_turn(), turns((n - 1) as nat));
    }
}

/// A new latch lets a poll through exactly if it was made with a count of
/// zero.
pub proof fn lemma_fresh_latch_is_done_iff_zero(count: isize)
    requires
        count >= 0,
    ensures
        polled(fresh(count)) <==> count == 0,
        at_rest(fresh(count)),
{
}

/// However ticks and increments are interleaved, from a state at rest: once
/// no call is on its way to the done signal any more, the signal is set
/// exactly if the count is zero. It is never left set over outstanding work,
/// and never left clear over none.
pub proof fn lemma_race_ends_in_agreement(start: Latch, steps: Seq<Step>)
    requires
        at_rest(start),
        is_race(steps),
    ensures
        quiet(run(start, steps)) ==> agrees(run(start, steps)),
        quiet(run(start, steps)) ==> (polled(run(start, steps)) <==> run(start, steps).remaining
            == 0),
        run(start, steps).remaining >= 0,
{
    lemma_race_keeps_track(start, steps);
}

/// Once ticks and increments have stopped coming, the calls that are under
/// way bring the latch to rest: when the holder of the token has ended its
/// turn and every waiting call has taken one, no call is on its way any
/// more, the count is what it was, and the done signal agrees with it.
pub proof fn lemma_calls_under_way_settle(start: Latch, steps: Seq<Step>)
    requires
        at_rest(start),
        is_race(steps),
    ensures
        at_rest(run(run(start, steps), wind_down(run(start, steps)))),
        run(run(start, steps), wind_down(run(start, steps))).remaining == run(
            start,
            steps,
        ).remaining,
{
    lemma_race_keeps_track(start, steps);
    let s = run(start, steps);
    let rest = rest_of_turn(s.holder);
    lemma_run_unfolds(s, rest);
    let freed = run(s, rest);
    assert(on_track(freed) && freed.holder is None && freed.queued == s.queued);
    lemma_turns_settle(freed, s.queued);
    lemma_run_joins(s, rest, turns(s.queued));
}

/// However the ticks against a latch made with `count` are interleaved: the
/// count is `count` less the ticks made, and zero from the `count`-th on;
/// the done signal is set only once `count` ticks have been made, and it is
/// set once they have all run to their end.
pub proof fn lemma_countdown_opens_at_last_tick(count: isize, steps: Seq<Step>)
    requires
        count >= 0,
        is_countdown(steps),
    ensures
        run(fresh(count), steps).remaining == if ticks(steps) >= count {
            0
        } else {
            count - ticks(steps)
        },
        polled(run(fresh(count), steps)) ==> ticks(steps) >= count,
        quiet(run(fresh(count), steps)) && ticks(steps) >= count ==> polled(
            run(fresh(count), steps),
        ),
{
    lemma_countdown_counts_down(count, steps);
}

/// Once the done signal is set, no step of a tick clears it: waiters that
/// were let through are let through until an increment or a reset changes
/// the count.
pub proof fn lemma_countdown_stays_done(count: isize, steps: Seq<Step>, step: Step)
    requires
        count >= 0,
        is_countdown(steps),
        is_tick_step(step),
        polled(run(fresh(count), steps)),
    ensures
        polled(after(run(fresh(count), steps), step)),
        polled(run(fresh(count), steps.push(step))),
{
    lemma_countdown_counts_down(count, steps);
    lemma_step_counts_down(count, ticks(steps), run(fresh(count), steps), step);
    assert(steps.push(step).drop_last() =~= steps);
    assert(steps.push(step).last() == step);
}

/// A tick that runs alone, from a state at rest with work outstanding, takes
/// one off the count and ends at rest: the done signal is set exactly if it
/// was the last.
pub proof fn lemma_tick_alone(s: Latch)
    requires
        at_rest(s),
        s.remaining > 0,
    ensures
        at_rest(run(s, tick_alone(s.remaining))),
        run(s, tick_alone(s.remaining)).remaining == s.remaining - 1,
        polled(run(s, tick_alone(s.remaining))) <==> s.remaining == 1,
{
    lemma_run_unfolds(s, tick_alone(s.remaining));
}

/// A tick against a spent count changes nothing.
pub proof fn lemma_tick_on_spent_count(s: Latch)
    requires
        s.remaining <= 0,
    ensures
        after(s, Step::Tick) == s,
{
}

/// An increment that runs alone, from a state at rest with room to grow,
/// adds one to the count and ends at rest, with the done signal clear.
pub proof fn lemma_increment_alone(s: Latch)
    requires
        at_rest(s),
        s.remaining < isize::MAX,
    ensures
        at_rest(run(s, increment_alone(s.remaining))),
        run(s, increment_alone(s.remaining)).remaining == s.remaining + 1,
        !polled(run(s, increment_alone(s.remaining))),
{
    lemma_run_unfolds(s, increment_alone(s.remaining));
}

/// A reset that runs alone, from a state at rest, sets the count and ends at
/// rest: the done signal is set exactly if the count is zero.
pub proof fn lemma_reset_alone(s: Latch, count: isize)
    requires
        at_rest(s),
        count >= 0,
    ensures
        run(s, reset_alone(count)) == fresh(count),
        at_rest(run(s, reset_alone(count))),
{
    lemma_run_unfolds(s, reset_alone(count));
}

/// `run` over a trace of at most five steps, written out.
proof fn lemma_run_unfolds(s: Latch, steps: Seq<Step>)
    requires
        steps.len() <= 5,
    ensures
        steps.len() == 0 ==> run(s, steps) == s,
        steps.len() == 1 ==> run(s, steps) == after(s, steps[0]),
        steps.len() == 2 ==> run(s, steps) == after(after(s, steps[0]), steps[1]),
        steps.len() == 3 ==> run(s, steps) == after(
            after(after(s, steps[0]), steps[1]),
            steps[2],
        ),
        steps.len() == 4 ==> run(s, steps) == after(
            after(after(after(s, steps[0]), steps[1]), steps[2]),
            steps[3],
        ),
        steps.len() == 5 ==> run(s, steps) == after(
            after(after(after(after(s, steps[0]), steps[1]), steps[2]), steps[3]),
            steps[4],
        ),
    decreases steps.len(),
{
    if steps.len() > 0 {
        let front = steps.drop_last();
        lemma_run_unfolds(s, front);
        assert forall|i: int| 0 <= i < front.len() implies front[i] == steps[i] by {}
    }
}

} // verus!
