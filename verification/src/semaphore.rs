//! A counting semaphore whose ceiling can be moved.
//!
//! Three numbers describe a semaphore: the maximum it was made with, the
//! ceiling (the permits that exist at present) and the permits that are
//! available. The ceiling and the available permits live in atomics. A call
//! that may be refused (taking a permit, lifting the ceiling, lowering it)
//! decides by one of the functions below inside a compare-and-swap, so its
//! update is never applied to a value other than the one it was decided on.
//!
//! Waiters block on an auto reset event, which lets one of them through per
//! signal. A call that takes a permit and leaves more behind signals again,
//! so that one signal reaches every waiter a permit is there for.
//!
//! Each private method that touches an atomic or the event is one move of
//! `permit_protocol`: `take_one` is `Take`, `lift_ceiling` is `Lift`,
//! `release_internal` is `Grant` for a release and `Return` for a dropped
//! guard, `lower_ceiling` is `Forget`, the two writes of `try_modify` are
//! `Adjust`, and each signal that `passes_on` or `wakes` asks for is
//! `Signal`.
use crate::cells::add_u16;
use crate::cells::new_u16;
use crate::cells::u16_made_with;
use crate::cells::update_u16;
use crate::clock::Deadline;
use crate::clock::TimeoutError;
use crate::events::auto_made_set;
use crate::events::auto_set;
use crate::events::auto_wait;
use crate::events::auto_wait_for;
use crate::permit_protocol::stocked;
use crate::permit_protocol::Pool;
use rsevents::AutoResetEvent;
use rsevents::EventState;
use std::fmt::Debug;
use std::fmt::Formatter;
use std::sync::atomic::AtomicU16;
use std::sync::atomic::Ordering;
use std::time::Duration;
use vstd::prelude::*;

verus! {

/// What an acquire stores over the available permits it found: one less, or
/// nothing where none is available. A number above the maximum is never
/// acted on.
pub open spec fn taken(available: u16, max: u16) -> Option<u16> {
    if 0 < available <= max {
        Some((available - 1) as u16)
    } else {
        None
    }
}

/// What a release of `n` permits stores over the ceiling it found: `n` more,
/// or nothing where that would pass the maximum. A release of no permits
/// leaves the ceiling as it is, and is never refused.
pub open spec fn lifted(ceiling: u16, n: u16, max: u16) -> Option<u16> {
    if n == 0 {
        Some(ceiling)
    } else if ceiling + n <= max {
        Some((ceiling + n) as u16)
    } else {
        None
    }
}

/// What forgetting a permit stores over the ceiling it found: one less.
pub open spec fn lowered(ceiling: u16) -> Option<u16> {
    if ceiling > 0 {
        Some((ceiling - 1) as u16)
    } else {
        None
    }
}

/// What a direct change by `delta` stores over the ceiling and the available
/// permits it found, in that order: both moved by `delta`, or nothing where
/// the ceiling would leave the range from zero to the maximum or the
/// available permits would drop below zero. Numbers that are out of order
/// to begin with are never acted on.
pub open spec fn adjusted(ceiling: u16, available: u16, delta: i16, max: u16) -> Option<
    (u16, u16),
> {
    if available <= ceiling <= max && 0 <= available + delta && ceiling + delta <= max {
        Some(((ceiling + delta) as u16, (available + delta) as u16))
    } else {
        None
    }
}

/// Whether a call that took a permit and found `prev` available has to
/// signal the next waiter: permits are left.
pub open spec fn passes_on(prev: u16) -> bool {
    prev > 1
}

/// Whether a call that added permits and found `prev` available has to
/// signal a waiter: none was available before.
pub open spec fn wakes(prev: u16) -> bool {
    prev == 0
}

/// Computes `taken`.
pub fn take(available: u16, max: u16) -> (r: Option<u16>)
    ensures
        r == taken(available, max),
{
    if 0 < available && available <= max {
        Some(available - 1)
    } else {
        None
    }
}

/// Computes `lifted`.
pub fn lift(ceiling: u16, n: u16, max: u16) -> (r: Option<u16>)
    ensures
        r == lifted(ceiling, n, max),
{
    if n == 0 {
        Some(ceiling)
    } else if n <= max && ceiling <= max - n {
        Some(ceiling + n)
    } else {
        None
    }
}

/// Computes `lowered`.
pub fn lower(ceiling: u16) -> (r: Option<u16>)
    ensures
        r == lowered(ceiling),
{
    if ceiling > 0 {
        Some(ceiling - 1)
    } else {
        None
    }
}

/// Computes `adjusted`.
pub fn adjust(ceiling: u16, available: u16, delta: i16, max: u16) -> (r: Option<(u16, u16)>)
    ensures
        r == adjusted(ceiling, available, delta, max),
{
    if available > ceiling || ceiling > max {
        return None;
    }
    let wide_ceiling: i32 = ceiling as i32 + delta as i32;
    let wide_available: i32 = available as i32 + delta as i32;
    if 0 <= wide_available && wide_ceiling <= max as i32 {
        Some((wide_ceiling as u16, wide_available as u16))
    } else {
        None
    }
}

/// Computes `passes_on`.
pub fn must_pass_on(prev: u16) -> (r: bool)
    ensures
        r == passes_on(prev),
{
    prev > 1
}

/// Computes `wakes`.
pub fn must_wake(prev: u16) -> (r: bool)
    ensures
        r == wakes(prev),
    opens_invariants none
    no_unwind
{
    prev == 0
}

/// What an acquire has, and whether it goes on to signal the next waiter,
/// once its update of the available permits has come back.
pub struct Grab {
    /// Whether a permit was taken.
    pub permit: bool,
    /// Whether permits were left behind.
    pub signals: bool,
}

/// The verdict of an acquire whose update came back with `found`: the number
/// of available permits that was replaced, or as the error the number that
/// nothing could be taken from.
pub open spec fn take_verdict(found: Result<u16, u16>) -> Grab {
    match found {
        Ok(prev) => Grab { permit: true, signals: passes_on(prev) },
        Err(_) => Grab { permit: false, signals: false },
    }
}

/// Whether a release goes on to add to the available permits once its
/// update of the ceiling has come back with `found`: it does where the
/// ceiling was lifted, and reports so.
pub open spec fn lift_verdict(found: Result<u16, u16>) -> bool {
    found is Ok
}

/// Computes `take_verdict`.
pub fn judge_take(found: Result<u16, u16>) -> (v: Grab)
    ensures
        v == take_verdict(found),
{
    match found {
        Ok(prev) => Grab { permit: true, signals: must_pass_on(prev) },
        Err(_) => Grab { permit: false, signals: false },
    }
}

/// Computes `lift_verdict`.
pub fn judge_lift(found: Result<u16, u16>) -> (lifted: bool)
    ensures
        lifted == lift_verdict(found),
{
    match found {
        Ok(_) => true,
        Err(_) => false,
    }
}

/// A semaphore: at most `max_count` permits, of which the ceiling says how
/// many exist at present.
pub struct Semaphore {
    /// The maximum, fixed when the semaphore is made.
    max: u16,
    /// The ceiling: the permits that exist, lent out or not.
    current: AtomicU16,
    /// The permits that are available.
    count: AtomicU16,
    /// Signalled when permits become available.
    event: AutoResetEvent,
}

/// One permit of a semaphore. Dropping it gives the permit back; `forget`
/// removes the permit from the semaphore for good.
pub struct SemaphoreGuard<'a> {
    semaphore: &'a Semaphore,
}

impl Semaphore {
    /// The maximum this semaphore was made with.
    pub closed spec fn max_count(&self) -> u16 {
        self.max
    }

    /// The state of the protocol that this semaphore was made in: the
    /// ceiling and the available permits as they were made, the wake signal
    /// as it was made, no permit lent out and no call under way. It says
    /// nothing of the state the semaphore is in now.
    pub closed spec fn origin(&self) -> Pool {
        Pool {
            max: self.max,
            ceiling: u16_made_with(self.current),
            available: u16_made_with(self.count),
            held: 0,
            owed: 0,
            trying: 0,
            waiting: 0,
            signalling: 0,
            signal: auto_made_set(self.event),
        }
    }

    /// A semaphore with `initial_count` permits, all of them available, that
    /// can hold up to `max_count`: it is made in the state
    /// `stocked(initial_count, max_count)`.
    pub fn new(initial_count: u16, max_count: u16) -> (s: Semaphore)
        requires
            initial_count <= max_count,
        ensures
            s.max_count() == max_count,
            s.origin() == stocked(initial_count, max_count),
    {
        Semaphore {
            max: max_count,
            current: new_u16(initial_count),
            count: new_u16(initial_count),
            event: AutoResetEvent::new(EventState::Unset),
        }
    }

    /// The update of an acquire: a compare-and-swap from a number `prev` of
    /// available permits to `taken(prev, max)`. Returns the number that was
    /// replaced, or as the error the number that nothing could be taken
    /// from.
    fn take_one(&self) -> (r: Result<u16, u16>)
        ensures
            r matches Ok(prev) ==> taken(prev, self.max_count()) is Some,
            r matches Err(prev) ==> taken(prev, self.max_count()) is None,
    {
        let max: u16 = self.max;
        let step = |available: u16| -> (next: Option<u16>)
            ensures
                next == taken(available, max),
            { take(available, max) };
        update_u16(&self.count, step)
    }

    /// Takes a permit if one is available, without blocking. Where permits
    /// are left after it, the next waiter is signalled.
    fn acquire(&self) -> (r: Option<SemaphoreGuard<'_>>)
        ensures
            r matches Some(guard) ==> guard.semaphore() == self,
            self.max_count() == 0 ==> r is None,
    {
        let verdict: Grab = judge_take(self.take_one());
        if verdict.signals {
            auto_set(&self.event);
        }
        if verdict.permit {
            Some(SemaphoreGuard { semaphore: self })
        } else {
            None
        }
    }

    /// Adds `n` to the available permits, and signals a waiter where none
    /// was available before.
    fn release_internal(&self, n: u16)
        opens_invariants none
        no_unwind
    {
        let prev: u16 = add_u16(&self.count, n);
        if must_wake(prev) {
            auto_set(&self.event);
        }
    }

    /// The first update of a release: a compare-and-swap from a ceiling
    /// `prev` to `lifted(prev, n, max)`. Returns the ceiling that was
    /// replaced, or as the error the ceiling that was found without room for
    /// `n` more.
    fn lift_ceiling(&self, n: u16) -> (r: Result<u16, u16>)
        ensures
            r matches Ok(prev) ==> lifted(prev, n, self.max_count()) is Some,
            r matches Err(prev) ==> lifted(prev, n, self.max_count()) is None,
    {
        let max: u16 = self.max;
        let step = |ceiling: u16| -> (next: Option<u16>)
            ensures
                next == lifted(ceiling, n, max),
            { lift(ceiling, n, max) };
        update_u16(&self.current, step)
    }

    /// The update of forgetting a permit: a compare-and-swap from a ceiling
    /// `prev` to `lowered(prev)`. Returns the ceiling that was replaced, or
    /// as the error the ceiling that was found at zero.
    fn lower_ceiling(&self) -> (r: Result<u16, u16>)
        ensures
            r matches Ok(prev) ==> lowered(prev) is Some,
            r matches Err(prev) ==> lowered(prev) is None,
    {
        update_u16(&self.current, lower)
    }

    fn read_ceiling(&self) -> u16 {
        self.current.load(Ordering::Relaxed)
    }

    fn read_available(&self) -> u16 {
        self.count.load(Ordering::Relaxed)
    }

    /// Stores a ceiling and a number of available permits, for a caller that
    /// holds the semaphore alone. Only numbers that are in order are stored.
    fn write_both(&self, ceiling: u16, available: u16)
        requires
            available <= ceiling <= self.max_count(),
    {
        self.current.store(ceiling, Ordering::Relaxed);
        self.count.store(available, Ordering::Relaxed);
    }

    /// Takes a permit if one is available right now; never blocks. No permit
    /// is ever had from a semaphore whose maximum is zero.
    pub fn wait0(&self) -> (r: Result<SemaphoreGuard<'_>, TimeoutError>)
        ensures
            r matches Ok(guard) ==> guard.semaphore() == self,
            self.max_count() == 0 ==> r is Err,
    {
        match self.acquire() {
            Some(guard) => Ok(guard),
            None => Err(TimeoutError),
        }
    }

    /// The same as `wait0`.
    pub fn try_wait0(&self) -> (r: Result<SemaphoreGuard<'_>, TimeoutError>)
        ensures
            r matches Ok(guard) ==> guard.semaphore() == self,
            self.max_count() == 0 ==> r is Err,
    {
        self.wait0()
    }

    /// Takes a permit, blocking for at most `limit` while none is available.
    /// Each time the wait is woken, or a slice of it runs out, the permits
    /// are tried again; the last try is made after the limit has passed.
    pub fn wait_for(&self, limit: Duration) -> (r: Result<SemaphoreGuard<'_>, TimeoutError>)
        ensures
            r matches Ok(guard) ==> guard.semaphore() == self,
            self.max_count() == 0 ==> r is Err,
    {
        let mut deadline: Deadline = Deadline::begin(limit.as_nanos());
        loop
            decreases deadline.left(),
        {
            match self.acquire() {
                Some(guard) => {
                    return Ok(guard);
                },
                None => {},
            }
            if deadline.expired() {
                return Err(TimeoutError);
            }
            auto_wait_for(&self.event, deadline.slice());
            deadline.spend();
        }
    }

    /// The same as `wait_for`.
    pub fn try_wait_for(&self, limit: Duration) -> (r: Result<SemaphoreGuard<'_>, TimeoutError>)
        ensures
            r matches Ok(guard) ==> guard.semaphore() == self,
            self.max_count() == 0 ==> r is Err,
    {
        self.wait_for(limit)
    }

    /// Takes a permit, blocking without a limit while none is available.
    /// Where none is available the call blocks until the semaphore is
    /// signalled, and tries once more. It returns nothing if another call
    /// has taken the permit that the signal was for: as with any wait that
    /// can be woken in vain, a caller that must have a permit calls again
    /// until it has one.
    pub fn wait(&self) -> (r: Option<SemaphoreGuard<'_>>)
        ensures
            r matches Some(guard) ==> guard.semaphore() == self,
            self.max_count() == 0 ==> r is None,
    {
        match self.acquire() {
            Some(guard) => Some(guard),
            None => {
                auto_wait(&self.event);
                self.acquire()
            },
        }
    }

    /// Adds `count` permits: raises the ceiling, then the available permits,
    /// and signals a waiter where none was available. Returns `false`, and
    /// changes nothing, where the ceiling it found has no room for `count`
    /// more below the maximum. So a release of more than the maximum is
    /// always refused, and a release of nothing never.
    pub fn try_release(&self, count: u16) -> (released: bool)
        ensures
            released ==> count <= self.max_count(),
            count == 0 ==> released,
    {
        let lifted: bool = judge_lift(self.lift_ceiling(count));
        if lifted {
            self.release_internal(count);
        }
        lifted
    }

    /// Adds `count` permits, for callers who know that the ceiling has room
    /// for them. It does what `try_release` does; `false` tells such a caller
    /// that it was wrong, and that nothing was changed.
    pub fn release(&self, count: u16) -> (released: bool)
        ensures
            released ==> count <= self.max_count(),
            count == 0 ==> released,
    {
        self.try_release(count)
    }

    /// Moves the ceiling and the available permits by `count`, up or down,
    /// for a caller that holds the semaphore alone. Returns `false`, and
    /// changes nothing, where `adjusted` gives nothing for the numbers found.
    /// So a change by more than the maximum, up or down, is always refused;
    /// a change by nothing never is, and touches nothing.
    pub fn try_modify(&mut self, count: i16) -> (modified: bool)
        ensures
            final(self).max_count() == old(self).max_count(),
            modified ==> -old(self).max_count() <= count <= old(self).max_count(),
            count == 0 ==> modified,
    {
        if count == 0 {
            return true;
        }
        let ceiling: u16 = self.read_ceiling();
        let available: u16 = self.read_available();
        match adjust(ceiling, available, count, self.max) {
            Some((next_ceiling, next_available)) => {
                self.write_both(next_ceiling, next_available);
                true
            },
            None => false,
        }
    }

    /// Moves the ceiling and the available permits by `count`, for callers
    /// who know that the change is in range. It does what `try_modify` does;
    /// `false` tells such a caller that it was wrong, and that nothing was
    /// changed.
    pub fn modify(&mut self, count: i16) -> (modified: bool)
        ensures
            final(self).max_count() == old(self).max_count(),
            modified ==> -old(self).max_count() <= count <= old(self).max_count(),
            count == 0 ==> modified,
    {
        self.try_modify(count)
    }
}

impl<'a> SemaphoreGuard<'a> {
    /// The semaphore this permit was taken from.
    pub closed spec fn semaphore(&self) -> &Semaphore {
        self.semaphore
    }

    /// Gives the permit up for good: the ceiling of the semaphore drops by
    /// one, and the permit is not given back when the guard goes.
    pub fn forget(self) {
        let _ = self.semaphore.lower_ceiling();
        core::mem::forget(self);
    }
}

impl Drop for SemaphoreGuard<'_> {
    /// Gives the permit back: one more is available, and a waiter is
    /// signalled where none was.
    fn drop(&mut self)
        opens_invariants none
        no_unwind
    {
        self.semaphore.release_internal(1);
    }
}

/// `std::fmt::Formatter`, which a `Debug` impl writes to.
#[verifier::external_type_specification]
#[verifier::external_body]
pub struct ExFormatter<'a>(Formatter<'a>);

/// `std::fmt::Error`, the error of a `Debug` impl.
#[verifier::external_type_specification]
#[verifier::external_body]
pub struct ExFmtError(std::fmt::Error);

impl Debug for SemaphoreGuard<'_> {
    /// Writes the name of the type, by `Formatter::debug_struct` and
    /// `DebugStruct::finish_non_exhaustive`.
    #[verifier::external_body]
    fn fmt(&self, f: &mut Formatter<'_>) -> (r: Result<(), std::fmt::Error>) {
        f.debug_struct("SemaphoreGuard").finish_non_exhaustive()
    }
}

} // verus!
