use rsevents_extra::semaphore::adjust;
use rsevents_extra::semaphore::judge_lift;
use rsevents_extra::semaphore::judge_take;
use rsevents_extra::semaphore::lift;
use rsevents_extra::semaphore::lower;
use rsevents_extra::semaphore::must_pass_on;
use rsevents_extra::semaphore::must_wake;
use rsevents_extra::semaphore::take;
use rsevents_extra::Semaphore;
use std::time::Duration;

#[test]
fn uncontested_semaphore() {
    let sem = Semaphore::new(1, 1);
    let _1 = sem.wait0().unwrap();
    sem.try_wait0().unwrap_err();
}

#[test]
fn zero_semaphore() {
    let sem = Semaphore::new(0, 0);
    sem.try_wait0().unwrap_err();
}

#[test]
fn zero_semaphore_never_gives() {
    let mut sem = Semaphore::new(0, 0);
    sem.wait0().unwrap_err();
    sem.wait_for(Duration::from_millis(5)).unwrap_err();
    assert_eq!(sem.try_release(1), false);
    assert_eq!(sem.release(1), false);
    assert_eq!(sem.try_modify(1), false);
    assert_eq!(sem.try_release(0), true);
    assert_eq!(sem.try_modify(0), true);
    sem.wait0().unwrap_err();
    sem.try_wait_for(Duration::ZERO).unwrap_err();
}

#[test]
fn dropped_permit_returns() {
    let sem = Semaphore::new(1, 1);
    {
        let _permit = sem.wait0().unwrap();
        sem.wait0().unwrap_err();
    }
    let _again = sem.wait0().unwrap();
    sem.wait0().unwrap_err();
}

#[test]
fn forgotten_permit_shrinks_ceiling() {
    let sem = Semaphore::new(2, 2);
    let first = sem.wait0().unwrap();
    first.forget();
    // One permit is left, and the ceiling is now 1 of 2: there is room for
    // exactly one more.
    assert_eq!(sem.try_release(2), false);
    assert_eq!(sem.try_release(1), true);
    assert_eq!(sem.try_release(1), false);
    let _a = sem.wait0().unwrap();
    let _b = sem.wait0().unwrap();
    sem.wait0().unwrap_err();
}

#[test]
fn forgotten_permit_does_not_come_back() {
    let sem = Semaphore::new(1, 1);
    sem.wait0().unwrap().forget();
    // Neither available again, as it would be after a drop ...
    sem.wait0().unwrap_err();
    // ... nor counted twice: the ceiling dropped by one, not by two.
    assert_eq!(sem.try_release(2), false);
    assert_eq!(sem.try_release(1), true);
    let _a = sem.wait0().unwrap();
    sem.wait0().unwrap_err();
}

#[test]
fn release_up_to_max() {
    let sem = Semaphore::new(0, 2);
    sem.wait0().unwrap_err();
    assert_eq!(sem.release(2), true);
    let a = sem.wait0().unwrap();
    let b = sem.wait0().unwrap();
    sem.wait0().unwrap_err();
    // Both permits are lent out; the ceiling is at the maximum.
    assert_eq!(sem.try_release(1), false);
    drop(a);
    drop(b);
    let _c = sem.wait0().unwrap();
    let _d = sem.wait0().unwrap();
    sem.wait0().unwrap_err();
}

#[test]
fn release_two_then_both_waits_succeed() {
    let sem = Semaphore::new(0, 2);
    sem.wait_for(Duration::from_millis(10)).unwrap_err();
    assert_eq!(sem.release(2), true);
    let _a = sem.wait_for(Duration::from_secs(1)).unwrap();
    let _b = sem.wait_for(Duration::from_secs(1)).unwrap();
    // Both permits are held: none is available.
    sem.wait0().unwrap_err();
    sem.wait_for(Duration::from_millis(10)).unwrap_err();
}

#[test]
fn release_one_at_a_time() {
    let sem = Semaphore::new(0, 2);
    for _ in 0..2 {
        sem.wait0().unwrap_err();
        assert_eq!(sem.release(1), true);
        sem.wait_for(Duration::from_secs(1)).unwrap().forget();
    }
    sem.wait0().unwrap_err();
    // Two permits were released and both forgotten: the ceiling is at zero.
    assert_eq!(sem.try_release(3), false);
    assert_eq!(sem.try_release(2), true);
}

#[test]
fn failed_release_changes_nothing() {
    let sem = Semaphore::new(1, 3);
    assert_eq!(sem.try_release(3), false);
    assert_eq!(sem.try_release(u16::MAX), false);
    // Still one permit available and room for two more.
    let _a = sem.wait0().unwrap();
    sem.wait0().unwrap_err();
    assert_eq!(sem.try_release(2), true);
    assert_eq!(sem.try_release(1), false);
    let _b = sem.wait0().unwrap();
    let _c = sem.wait0().unwrap();
    sem.wait0().unwrap_err();
}

#[test]
fn modify_moves_ceiling_and_available() {
    let mut sem = Semaphore::new(1, 4);
    assert_eq!(sem.try_modify(2), true);
    {
        let _a = sem.wait0().unwrap();
        let _b = sem.wait0().unwrap();
        let _c = sem.wait0().unwrap();
        sem.wait0().unwrap_err();
    }
    assert_eq!(sem.modify(-3), true);
    sem.wait0().unwrap_err();
    // The ceiling is back at zero: there is room for four.
    assert_eq!(sem.try_release(5), false);
    assert_eq!(sem.try_release(4), true);
}

#[test]
fn failed_modify_changes_nothing() {
    let mut sem = Semaphore::new(1, 2);
    assert_eq!(sem.try_modify(2), false);
    assert_eq!(sem.try_modify(-2), false);
    assert_eq!(sem.modify(i16::MAX), false);
    assert_eq!(sem.modify(i16::MIN), false);
    assert_eq!(sem.try_modify(0), true);
    let _a = sem.wait0().unwrap();
    sem.wait0().unwrap_err();
    assert_eq!(sem.try_release(1), true);
    assert_eq!(sem.try_release(1), false);
}

#[test]
fn modify_does_not_take_what_is_lent_out() {
    let mut sem = Semaphore::new(2, 2);
    std::mem::forget(sem.wait0().unwrap());
    // One permit is out for good; only the other can be taken away.
    assert_eq!(sem.try_modify(-2), false);
    assert_eq!(sem.try_modify(-1), true);
    sem.wait0().unwrap_err();
    assert_eq!(sem.try_release(2), false);
    assert_eq!(sem.try_release(1), true);
}

#[test]
fn timed_wait_gives_up() {
    let sem = Semaphore::new(0, 1);
    sem.wait_for(Duration::from_millis(20)).unwrap_err();
    sem.wait_for(Duration::ZERO).unwrap_err();
    assert_eq!(sem.release(1), true);
    let _a = sem.wait_for(Duration::from_millis(20)).unwrap();
    sem.try_wait_for(Duration::from_millis(5)).unwrap_err();
}

#[test]
fn timed_wait_with_a_long_limit() {
    let sem = Semaphore::new(1, 1);
    let a = sem.wait_for(Duration::MAX).unwrap();
    drop(a);
    let _b = sem.try_wait_for(Duration::from_secs(3600 * 24 * 365)).unwrap();
}

#[test]
fn wait_takes_what_is_there() {
    let sem = Semaphore::new(2, 2);
    let a = sem.wait();
    assert!(a.is_some());
    let b = sem.wait();
    assert!(b.is_some());
    sem.wait0().unwrap_err();
    drop(a);
    assert!(sem.wait().is_some());
}

#[test]
fn many_permits_pass_the_signal_on() {
    let sem = Semaphore::new(0, 3);
    assert_eq!(sem.release(3), true);
    // Three permits are there: every timed wait finds one at once.
    let _a = sem.wait_for(Duration::from_secs(5)).unwrap();
    let _b = sem.wait_for(Duration::from_secs(5)).unwrap();
    let _c = sem.wait_for(Duration::from_secs(5)).unwrap();
    sem.wait0().unwrap_err();
}

#[test]
fn guard_prints_its_name() {
    let sem = Semaphore::new(1, 1);
    let guard = sem.wait0().unwrap();
    assert_eq!(format!("{:?}", guard), "SemaphoreGuard { .. }");
}

#[test]
fn an_acquire_stores_one_less() {
    assert_eq!(take(1, 1), Some(0));
    assert_eq!(take(3, 5), Some(2));
    assert_eq!(take(5, 5), Some(4));
    assert_eq!(take(u16::MAX, u16::MAX), Some(u16::MAX - 1));
    assert_eq!(take(0, 0), None);
    assert_eq!(take(0, 5), None);
    assert_eq!(take(6, 5), None);
    assert_eq!(take(1, 0), None);
}

#[test]
fn a_release_lifts_the_ceiling() {
    assert_eq!(lift(0, 2, 2), Some(2));
    assert_eq!(lift(1, 2, 3), Some(3));
    assert_eq!(lift(1, 0, 3), Some(1));
    assert_eq!(lift(0, u16::MAX, u16::MAX), Some(u16::MAX));
    assert_eq!(lift(1, 2, 2), None);
    assert_eq!(lift(0, 3, 2), None);
    assert_eq!(lift(3, 0, 2), Some(3));
    assert_eq!(lift(0, 0, 0), Some(0));
    assert_eq!(lift(u16::MAX, u16::MAX, u16::MAX), None);
    assert_eq!(lift(1, u16::MAX, u16::MAX), None);
}

#[test]
fn forgetting_lowers_the_ceiling() {
    assert_eq!(lower(1), Some(0));
    assert_eq!(lower(u16::MAX), Some(u16::MAX - 1));
    assert_eq!(lower(0), None);
}

#[test]
fn a_direct_change_moves_both() {
    assert_eq!(adjust(1, 1, 2, 4), Some((3, 3)));
    assert_eq!(adjust(3, 3, -3, 4), Some((0, 0)));
    assert_eq!(adjust(3, 1, -1, 4), Some((2, 0)));
    assert_eq!(adjust(2, 2, 0, 2), Some((2, 2)));
    assert_eq!(adjust(0, 0, i16::MAX, u16::MAX), Some((32767, 32767)));
    assert_eq!(adjust(40000, 40000, i16::MIN, u16::MAX), Some((7232, 7232)));
    // Past the maximum.
    assert_eq!(adjust(1, 1, 4, 4), None);
    // Below zero.
    assert_eq!(adjust(1, 1, -2, 4), None);
    // More than is available.
    assert_eq!(adjust(3, 1, -2, 4), None);
    // Numbers that are out of order to begin with.
    assert_eq!(adjust(1, 2, 0, 4), None);
    assert_eq!(adjust(5, 1, 0, 4), None);
}

#[test]
fn who_signals() {
    assert_eq!(must_pass_on(0), false);
    assert_eq!(must_pass_on(1), false);
    assert_eq!(must_pass_on(2), true);
    assert_eq!(must_pass_on(u16::MAX), true);
    assert_eq!(must_wake(0), true);
    assert_eq!(must_wake(1), false);
    assert_eq!(must_wake(u16::MAX), false);
}

#[test]
fn the_verdict_of_an_acquire() {
    let only = judge_take(Ok(1));
    assert_eq!((only.permit, only.signals), (true, false));
    let more = judge_take(Ok(2));
    assert_eq!((more.permit, more.signals), (true, true));
    let many = judge_take(Ok(u16::MAX));
    assert_eq!((many.permit, many.signals), (true, true));
    let none = judge_take(Err(0));
    assert_eq!((none.permit, none.signals), (false, false));
    let odd = judge_take(Err(9));
    assert_eq!((odd.permit, odd.signals), (false, false));
}

#[test]
fn the_verdict_of_a_release() {
    assert_eq!(judge_lift(Ok(0)), true);
    assert_eq!(judge_lift(Ok(7)), true);
    assert_eq!(judge_lift(Err(0)), false);
    assert_eq!(judge_lift(Err(7)), false);
}

#[test]
fn nothing_is_never_refused() {
    let mut full = Semaphore::new(2, 2);
    assert_eq!(full.try_release(0), true);
    assert_eq!(full.release(0), true);
    assert_eq!(full.try_modify(0), true);
    assert_eq!(full.modify(0), true);
    // Nothing was changed by it.
    assert_eq!(full.try_release(1), false);
    let _a = full.wait0().unwrap();
    let _b = full.wait0().unwrap();
    full.wait0().unwrap_err();
}
