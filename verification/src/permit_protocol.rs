//! The protocol of the semaphore, as a transition system.
//!
//! A `Semaphore` is used by many threads at once, and each of its calls is a
//! short run of atomic steps. The model below has one `Move` for each update
//! that the executable code makes, built from the same decision functions,
//! and a trace of moves stands for one interleaving of any number of calls.
//! Beside the three numbers of a semaphore the model keeps what no atomic
//! holds: the permits that are lent out, the permits by which the ceiling
//! has been raised while the available permits have yet to follow, and
//! where the calls that want a permit stand. The threads themselves are not
//! told apart: the model counts them.
//!
//! A trace puts the moves of all calls in one line, each move seeing what
//! the moves before it have done. What is proved here holds of every trace.
use crate::semaphore::adjusted;
use crate::semaphore::lifted;
use crate::semaphore::lowered;
use crate::semaphore::passes_on;
use crate::semaphore::taken;
use crate::semaphore::wakes;
use vstd::prelude::*;

verus! {

/// The state of a semaphore between two atomic steps.
pub struct Pool {
    /// The maximum the semaphore was made with.
    pub max: u16,
    /// The ceiling: the permits that exist at present.
    pub ceiling: u16,
    /// The permits that are available.
    pub available: u16,
    /// The permits that are lent out: a guard exists for each.
    pub held: nat,
    /// The permits by which releases have raised the ceiling and not yet the
    /// available permits.
    pub owed: nat,
    /// The calls that are about to try for a permit.
    pub trying: nat,
    /// The calls that found no permit and wait for the wake signal.
    pub waiting: nat,
    /// The calls that have made an update after which they signal, and have
    /// not signalled yet.
    pub signalling: nat,
    /// Whether the wake signal is pending. It holds at most one wake.
    pub signal: bool,
}

/// One atomic step of some call.
pub enum Move {
    /// A call that wants a permit begins.
    Arrive,
    /// A call that is trying swaps the available permits for one less, or
    /// finds none. Where it finds none, it goes on to wait if the flag is
    /// set, and leaves if not.
    Take(bool),
    /// A waiting call consumes the wake signal and tries again.
    Wake,
    /// A waiting call runs out of time and tries once more.
    GiveUp,
    /// A call that owes a signal sets the wake signal.
    Signal,
    /// A release of this many permits swaps the ceiling for as much more.
    Lift(u16),
    /// A release adds this many permits, by which it has raised the
    /// ceiling, to the available ones.
    Grant(u16),
    /// A guard is dropped: its permit is available again.
    Return,
    /// A guard is forgotten: the ceiling is swapped for one less.
    Forget,
    /// A caller that holds the semaphore alone moves the ceiling and the
    /// available permits by this much.
    Adjust(i16),
}

/// A semaphore as `Semaphore::new` makes it.
pub open spec fn stocked(initial: u16, max: u16) -> Pool {
    Pool {
        max,
        ceiling: initial,
        available: initial,
        held: 0,
        owed: 0,
        trying: 0,
        waiting: 0,
        signalling: 0,
        signal: false,
    }
}

/// One where the condition holds, nothing where it does not.
pub open spec fn owes(condition: bool) -> nat {
    if condition {
        1
    } else {
        0
    }
}

/// No call is under way: the caller of a direct change, which holds the
/// semaphore alone, finds it so.
pub open spec fn alone(p: Pool) -> bool {
    p.owed == 0 && p.trying == 0 && p.waiting == 0 && p.signalling == 0
}

/// The state after one move. A move that cannot be made in `p` (taking a
/// permit where none is available, lifting the ceiling past the maximum,
/// returning a permit where none is lent out) leaves `p` as it is.
pub open spec fn after(p: Pool, m: Move) -> Pool {
    match m {
        Move::Arrive => Pool { trying: p.trying + 1, ..p },
        Move::Take(blocking) => if p.trying > 0 {
            match taken(p.available, p.max) {
                Some(next) => Pool {
                    available: next,
                    held: p.held + 1,
                    trying: (p.trying - 1) as nat,
                    signalling: p.signalling + owes(passes_on(p.available)),
                    ..p
                },
                None => Pool {
                    trying: (p.trying - 1) as nat,
                    waiting: p.waiting + owes(blocking),
                    ..p
                },
            }
        } else {
            p
        },
        Move::Wake => if p.signal && p.waiting > 0 {
            Pool { signal: false, waiting: (p.waiting - 1) as nat, trying: p.trying + 1, ..p }
        } else {
            p
        },
        Move::GiveUp => if p.waiting > 0 {
            Pool { waiting: (p.waiting - 1) as nat, trying: p.trying + 1, ..p }
        } else {
            p
        },
        Move::Signal => if p.signalling > 0 {
            Pool { signalling: (p.signalling - 1) as nat, signal: true, ..p }
        } else {
            p
        },
        Move::Lift(n) => match lifted(p.ceiling, n, p.max) {
            Some(next) => Pool { ceiling: next, owed: p.owed + n as nat, ..p },
            None => p,
        },
        Move::Grant(n) => if n <= p.owed {
            Pool {
                available: (p.available + n) as u16,
                owed: (p.owed - n) as nat,
                signalling: p.signalling + owes(wakes(p.available)),
                ..p
            }
        } else {
            p
        },
        Move::Return => if p.held > 0 {
            Pool {
                available: (p.available + 1) as u16,
                held: (p.held - 1) as nat,
                signalling: p.signalling + owes(wakes(p.available)),
                ..p
            }
        } else {
            p
        },
        Move::Forget => if p.held > 0 {
            match lowered(p.ceiling) {
                Some(next) => Pool { ceiling: next, held: (p.held - 1) as nat, ..p },
                None => p,
            }
        } else {
            p
        },
        Move::Adjust(delta) => if alone(p) {
            match adjusted(p.ceiling, p.available, delta, p.max) {
                Some((ceiling, available)) => Pool { ceiling, available, ..p },
                None => p,
            }
        } else {
            p
        },
    }
}

/// The state after a trace of moves, taken from left to right.
pub open spec fn run(p: Pool, moves: Seq<Move>) -> Pool
    decreases moves.len(),
{
    if moves.len() == 0 {
        p
    } else {
        after(run(p, moves.drop_last()), moves.last())
    }
}

/// Whether a call of `wait0` gets a permit in state `p`.
pub open spec fn polled(p: Pool) -> bool {
    taken(p.available, p.max) is Some
}

/// Whether a release of `n` permits is refused in state `p`.
pub open spec fn refuses_release(p: Pool, n: u16) -> bool {
    lifted(p.ceiling, n, p.max) is None
}

/// Whether a direct change by `delta` is refused in state `p`.
pub open spec fn refuses_change(p: Pool, delta: i16) -> bool {
    adjusted(p.ceiling, p.available, delta, p.max) is None
}

/// The moves of one poll for a permit.
pub open spec fn poll_alone() -> Seq<Move> {
    seq![Move::Arrive, Move::Take(false)]
}

/// The moves of one release of `n` permits that is not refused, up to the
/// signal it may owe.
pub open spec fn release_alone(n: u16) -> Seq<Move> {
    seq![Move::Lift(n), Move::Grant(n)]
}

/// The moves by which one waiter is served: the signal is set, the waiter
/// consumes it, and tries for a permit.
pub open spec fn one_service() -> Seq<Move> {
    seq![Move::Signal, Move::Wake, Move::Take(true)]
}

/// `n` waiters served one after the other.
pub open spec fn services(n: nat) -> Seq<Move>
    decreases n,
{
    if n == 0 {
        Seq::empty()
    } else {
        one_service() + services((n - 1) as nat)
    }
}

/// A waiter that a permit is there for has a wake on its way: the signal is
/// pending, or a call is about to set it, or a call is about to try for the
/// permit and will pass the signal on if more are left.
pub open spec fn served(p: Pool) -> bool {
    p.available > 0 && p.waiting > 0 ==> p.signal || p.signalling > 0 || p.trying > 0
}

/// Every permit that exists is accounted for: it is available, lent out, or
/// still owed by a release; and no more exist than the maximum allows.
pub open spec fn balanced(p: Pool) -> bool {
    p.available + p.held + p.owed == p.ceiling && p.ceiling <= p.max
}

proof fn lemma_move_keeps_balance(p: Pool, m: Move)
    requires
        balanced(p),
        served(p),
    ensures
        balanced(after(p, m)),
        served(after(p, m)),
        after(p, m).max == p.max,
{
}

proof fn lemma_trace_keeps_balance(start: Pool, moves: Seq<Move>)
    requires
        balanced(start),
        served(start),
    ensures
        balanced(run(start, moves)),
        served(run(start, moves)),
        run(start, moves).max == start.max,
    decreases moves.len(),
{
    if moves.len() > 0 {
        lemma_trace_keeps_balance(start, moves.drop_last());
        lemma_move_keeps_balance(run(start, moves.drop_last()), moves.last());
    }
}

proof fn lemma_run_joins(p: Pool, first: Seq<Move>, second: Seq<Move>)
    ensures
        run(p, first + second) == run(run(p, first), second),
    decreases second.len(),
{
    if second.len() == 0 {
        assert(first + second =~= first);
    } else {
        assert((first + second).drop_last() =~= first + second.drop_last());
        assert((first + second).last() == second.last());
        lemma_run_joins(p, first, second.drop_last());
    }
}

/// `run` over a trace of at most three moves, written out.
proof fn lemma_run_unfolds(p: Pool, moves: Seq<Move>)
    requires
        moves.len() <= 3,
    ensures
        moves.len() == 0 ==> run(p, moves) == p,
        moves.len() == 1 ==> run(p, moves) == after(p, moves[0]),
        moves.len() == 2 ==> run(p, moves) == after(after(p, moves[0]), moves[1]),
        moves.len() == 3 ==> run(p, moves) == after(
            after(after(p, moves[0]), moves[1]),
            moves[2],
        ),
    decreases moves.len(),
{
    if moves.len() > 0 {
        let front = moves.drop_last();
        lemma_run_unfolds(p, front);
        assert forall|i: int| 0 <= i < front.len() implies front[i] == moves[i] by {}
    }
}

proof fn lemma_services_hand_out(p: Pool, n: nat)
    requires
        balanced(p),
        p.available == n,
        p.waiting >= n,
        p.trying == 0,
        !p.signal,
        p.signalling == owes(n > 0),
    ensures
        run(p, services(n)) == (Pool {
            available: 0,
            held: p.held + n,
            waiting: (p.waiting - n) as nat,
            signalling: 0,
            ..p
        }),
    decreases n,
{
    if n == 0 {
        lemma_run_unfolds(p, services(0));
    } else {
        lemma_run_unfolds(p, one_service());
        let next = run(p, one_service());
        assert(next == Pool {
            available: (n - 1) as u16,
            held: p.held + 1,
            waiting: (p.waiting - 1) as nat,
            signalling: owes(n > 1),
            ..p
        });
        lemma_services_hand_out(next, (n - 1) as nat);
        lemma_run_joins(p, one_service(), services((n - 1) as nat));
    }
}

/// In every state that any interleaving of calls reaches, the available
/// permits are at most the ceiling and the ceiling is at most the maximum;
/// what lies between the available permits and the ceiling is lent out or
/// owed.
pub proof fn lemma_counts_stay_in_order(initial: u16, max: u16, moves: Seq<Move>)
    requires
        initial <= max,
    ensures
        run(stocked(initial, max), moves).available <= run(stocked(initial, max), moves).ceiling,
        run(stocked(initial, max), moves).ceiling <= run(stocked(initial, max), moves).max,
        run(stocked(initial, max), moves).max == max,
        balanced(run(stocked(initial, max), moves)),
{
    lemma_trace_keeps_balance(stocked(initial, max), moves);
}

/// In every state that any interleaving of calls reaches, no permit is
/// stranded: where a permit is available while a call waits, the wake signal
/// is pending or a call is on its way to set it or to take the permit.
pub proof fn lemma_no_permit_is_stranded(initial: u16, max: u16, moves: Seq<Move>)
    requires
        initial <= max,
    ensures
        served(run(stocked(initial, max), moves)),
{
    lemma_trace_keeps_balance(stocked(initial, max), moves);
}

/// No permit is ever had from a semaphore made with none and room for none.
pub proof fn lemma_empty_semaphore_never_gives(moves: Seq<Move>)
    ensures
        !polled(run(stocked(0, 0), moves)),
        run(stocked(0, 0), moves).held == 0,
{
    lemma_trace_keeps_balance(stocked(0, 0), moves);
}

/// With a permit lent out, forgetting it takes exactly one off the ceiling
/// and leaves the available permits as they are; the permit is no longer
/// lent out, so the books still balance without it coming back.
pub proof fn lemma_forget_takes_one_off_ceiling(initial: u16, max: u16, moves: Seq<Move>)
    requires
        initial <= max,
        run(stocked(initial, max), moves).held > 0,
    ensures
        after(run(stocked(initial, max), moves), Move::Forget).ceiling == run(
            stocked(initial, max),
            moves,
        ).ceiling - 1,
        after(run(stocked(initial, max), moves), Move::Forget).available == run(
            stocked(initial, max),
            moves,
        ).available,
        after(run(stocked(initial, max), moves), Move::Forget).held == run(
            stocked(initial, max),
            moves,
        ).held - 1,
        balanced(after(run(stocked(initial, max), moves), Move::Forget)),
{
    lemma_trace_keeps_balance(stocked(initial, max), moves);
}

/// A permit that was forgotten is not given back as well: where it was the
/// only one lent out, a return after the forgetting changes nothing.
pub proof fn lemma_forgotten_permit_does_not_return(p: Pool)
    requires
        balanced(p),
        p.held == 1,
    ensures
        after(after(p, Move::Forget), Move::Return) == after(p, Move::Forget),
        after(p, Move::Forget).ceiling == p.ceiling - 1,
        after(p, Move::Forget).available == p.available,
{
}

/// A release that is refused, and a direct change that is refused, leave
/// every number as it was. Where the numbers are in order, a release is
/// refused exactly if it would lift the ceiling past the maximum.
pub proof fn lemma_refusal_changes_nothing(p: Pool, n: u16, delta: i16)
    ensures
        refuses_release(p, n) ==> after(p, Move::Lift(n)) == p,
        refuses_change(p, delta) ==> after(p, Move::Adjust(delta)) == p,
        balanced(p) ==> (refuses_release(p, n) <==> p.ceiling + n > p.max),
        balanced(p) && alone(p) ==> (refuses_change(p, delta) <==> !(0 <= p.available + delta
            && p.ceiling + delta <= p.max)),
{
}

/// A poll that runs alone gets a permit exactly if one is available. If it
/// does, one permit less is available and one more is lent out, and the poll
/// owes a signal exactly if permits are left; if it does not, nothing has
/// changed.
pub proof fn lemma_poll_alone(p: Pool)
    requires
        balanced(p),
    ensures
        polled(p) <==> p.available > 0,
        polled(p) ==> run(p, poll_alone()) == (Pool {
            available: (p.available - 1) as u16,
            held: p.held + 1,
            signalling: p.signalling + owes(p.available > 1),
            ..p
        }),
        !polled(p) ==> run(p, poll_alone()) == p,
{
    lemma_run_unfolds(p, poll_alone());
}

/// A release of `n` permits that runs alone and is not refused raises the
/// ceiling and the available permits by `n`, and owes a signal exactly if
/// no permit was available before.
pub proof fn lemma_release_alone(p: Pool, n: u16)
    requires
        balanced(p),
        p.owed == 0,
        !refuses_release(p, n),
    ensures
        run(p, release_alone(n)) == (Pool {
            ceiling: (p.ceiling + n) as u16,
            available: (p.available + n) as u16,
            signalling: p.signalling + owes(p.available == 0),
            ..p
        }),
        p.available + n <= p.ceiling + n <= p.max,
{
    lemma_run_unfolds(p, release_alone(n));
}

/// One release reaches every waiter it has a permit for. Where no permit is
/// available, no signal is under way and at least `n` calls wait, a release
/// of `n` permits, one or more, sets the signal once; each waiter that takes a permit and
/// leaves more behind sets it again; and when `n` waiters have been served
/// in this way, each of them holds a permit and none is left over.
pub proof fn lemma_release_serves_waiters(p: Pool, n: u16)
    requires
        balanced(p),
        p.available == 0,
        p.owed == 0,
        p.trying == 0,
        p.signalling == 0,
        !p.signal,
        p.waiting >= n,
        n > 0,
        !refuses_release(p, n),
    ensures
        run(p, release_alone(n) + services(n as nat)) == (Pool {
            ceiling: (p.ceiling + n) as u16,
            held: p.held + n as nat,
            waiting: (p.waiting - n) as nat,
            ..p
        }),
{
    lemma_release_alone(p, n);
    lemma_services_hand_out(run(p, release_alone(n)), n as nat);
    lemma_run_joins(p, release_alone(n), services(n as nat));
}

/// A direct change by `delta` that is not refused moves the ceiling and the
/// available permits by `delta`, and keeps them in order.
pub proof fn lemma_change_moves_both(p: Pool, delta: i16)
    requires
        balanced(p),
        alone(p),
        !refuses_change(p, delta),
    ensures
        after(p, Move::Adjust(delta)).ceiling == p.ceiling + delta,
        after(p, Move::Adjust(delta)).available == p.available + delta,
        balanced(after(p, Move::Adjust(delta))),
{
}

} // verus!
