//! Deadlines for timed waits, and the error of a wait that ran out.
//!
//! A timed wait is made of slices of at most `MAX_SLICE_NANOS`. A `Deadline`
//! keeps the budget that is left, in nanoseconds: after each slice the budget
//! is what the clock leaves of the limit, and at least one nanosecond less
//! than before, so a wait that is woken again and again still ends.
use crate::events::MAX_SLICE_NANOS;
use std::time::Duration;
use std::time::Instant;
use vstd::prelude::*;

verus! {

/// `std::time::Instant`: a reading of the monotonic clock.
#[verifier::external_type_specification]
#[verifier::external_body]
pub struct ExInstant(Instant);

/// `Instant::now`: the current reading of the clock.
pub assume_specification[ Instant::now ]() -> Instant;

/// `Instant::saturating_duration_since`: the time from `earlier` to `later`,
/// or zero where `earlier` is the later of the two. Nothing is promised of
/// the result.
pub assume_specification[ Instant::saturating_duration_since ](
    later: &Instant,
    earlier: Instant,
) -> Duration;

/// `Duration::as_nanos`: the whole duration in nanoseconds. Nothing is
/// promised of the result.
pub assume_specification[ Duration::as_nanos ](duration: &Duration) -> u128;

/// The budget that is left of a limit of `total` nanoseconds when `spent`
/// nanoseconds have passed and `left` were left before: what the clock
/// leaves, but at least one less than before.
pub open spec fn budget_after(total: nat, spent: nat, left: nat) -> nat {
    let by_clock = if spent >= total {
        0
    } else {
        (total - spent) as nat
    };
    let by_count = if left == 0 {
        0
    } else {
        (left - 1) as nat
    };
    if by_clock <= by_count {
        by_clock
    } else {
        by_count
    }
}

/// The length of the next slice of a wait with `left` nanoseconds left.
pub open spec fn slice_of(left: nat) -> nat {
    if left <= MAX_SLICE_NANOS {
        left
    } else {
        MAX_SLICE_NANOS as nat
    }
}

/// Computes `budget_after`.
pub fn shrink_budget(total: u128, spent: u128, left: u128) -> (r: u128)
    ensures
        r == budget_after(total as nat, spent as nat, left as nat),
        left > 0 ==> r < left,
        r <= left,
        r <= total,
{
    let by_clock: u128 = if spent >= total {
        0
    } else {
        total - spent
    };
    let by_count: u128 = if left == 0 {
        0
    } else {
        left - 1
    };
    if by_clock <= by_count {
        by_clock
    } else {
        by_count
    }
}

/// Computes `slice_of`.
pub fn next_slice(left: u128) -> (r: u64)
    ensures
        r == slice_of(left as nat),
        r <= MAX_SLICE_NANOS,
        r <= left,
        left > 0 ==> r > 0,
{
    if left <= MAX_SLICE_NANOS as u128 {
        left as u64
    } else {
        MAX_SLICE_NANOS
    }
}

/// The error of a wait that ended, at its limit or at once, without what it
/// waited for.
#[derive(Debug, Clone, Copy, PartialEq, Eq)]
pub struct TimeoutError;

/// A timed wait in progress: when it began, its limit, and its budget.
pub struct Deadline {
    start: Instant,
    total: u128,
    left: u128,
}

impl Deadline {
    /// The limit of the wait, in nanoseconds.
    pub closed spec fn total(&self) -> nat {
        self.total as nat
    }

    /// The budget that is left, in nanoseconds.
    pub closed spec fn left(&self) -> nat {
        self.left as nat
    }

    /// Begins a wait of at most `total` nanoseconds: the whole limit is
    /// left.
    pub fn begin(total: u128) -> (d: Deadline)
        ensures
            d.total() == total,
            d.left() == total,
    {
        Deadline { start: Instant::now(), total, left: total }
    }

    /// Whether the budget is used up.
    pub fn expired(&self) -> (r: bool)
        ensures
            r == (self.left() == 0),
    {
        self.left == 0
    }

    /// The length of the next slice.
    pub fn slice(&self) -> (r: u64)
        ensures
            r == slice_of(self.left()),
            r <= MAX_SLICE_NANOS,
    {
        next_slice(self.left)
    }

    /// Charges the time that has passed since the wait began: the budget
    /// becomes `budget_after` of the limit, the time the clock gives, and the
    /// budget before. So it shrinks whenever anything was left of it,
    /// whatever the clock says.
    pub fn spend(&mut self)
        ensures
            final(self).total() == old(self).total(),
            exists|spent: nat|
                final(self).left() == #[trigger] budget_after(
                    old(self).total(),
                    spent,
                    old(self).left(),
                ),
            final(self).left() <= old(self).left(),
            old(self).left() > 0 ==> final(self).left() < old(self).left(),
    {
        let now: Instant = Instant::now();
        let spent: u128 = now.saturating_duration_since(self.start).as_nanos();
        let left: u128 = shrink_budget(self.total, spent, self.left);
        self.left = left;
        assert(self.left() == budget_after(old(self).total(), spent as nat, old(self).left()));
    }
}

} // verus!
