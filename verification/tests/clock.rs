use rsevents_extra::clock::next_slice;
use rsevents_extra::clock::shrink_budget;
use rsevents_extra::clock::Deadline;
use rsevents_extra::events::MAX_SLICE_NANOS;
use std::time::Duration;

#[test]
fn the_budget_follows_the_clock() {
    assert_eq!(shrink_budget(10, 3, 10), 7);
    assert_eq!(shrink_budget(1_000_000, 400_000, 900_000), 600_000);
    assert_eq!(shrink_budget(10, 10, 10), 0);
    assert_eq!(shrink_budget(10, 11, 10), 0);
    assert_eq!(shrink_budget(10, u128::MAX, 10), 0);
}

#[test]
fn the_budget_shrinks_without_the_clock() {
    assert_eq!(shrink_budget(10, 0, 10), 9);
    assert_eq!(shrink_budget(10, 0, 1), 0);
    assert_eq!(shrink_budget(10, 0, 0), 0);
    assert_eq!(shrink_budget(10, 2, 5), 4);
    assert_eq!(shrink_budget(u128::MAX, 0, u128::MAX), u128::MAX - 1);
}

#[test]
fn a_slice_is_at_most_an_hour() {
    assert_eq!(MAX_SLICE_NANOS, 3_600_000_000_000);
    assert_eq!(next_slice(0), 0);
    assert_eq!(next_slice(1), 1);
    assert_eq!(next_slice(3_600_000_000_000), 3_600_000_000_000);
    assert_eq!(next_slice(3_600_000_000_001), 3_600_000_000_000);
    assert_eq!(next_slice(u128::MAX), 3_600_000_000_000);
}

#[test]
fn a_deadline_runs_out() {
    let mut deadline = Deadline::begin(3);
    assert_eq!(deadline.expired(), false);
    assert_eq!(deadline.slice(), 3);
    let mut rounds = 0;
    while !deadline.expired() {
        deadline.spend();
        rounds += 1;
    }
    assert!(rounds >= 1 && rounds <= 3);
    assert_eq!(deadline.slice(), 0);
}

#[test]
fn a_deadline_of_nothing_is_over() {
    let mut deadline = Deadline::begin(0);
    assert_eq!(deadline.expired(), true);
    assert_eq!(deadline.slice(), 0);
    deadline.spend();
    assert_eq!(deadline.expired(), true);
}

#[test]
fn a_long_deadline_is_cut_in_slices() {
    let mut deadline = Deadline::begin(Duration::MAX.as_nanos());
    assert_eq!(deadline.expired(), false);
    assert_eq!(deadline.slice(), MAX_SLICE_NANOS);
    deadline.spend();
    assert_eq!(deadline.expired(), false);
    assert_eq!(deadline.slice(), MAX_SLICE_NANOS);
}
