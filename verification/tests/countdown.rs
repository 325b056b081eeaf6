use rsevents_extra::countdown::grow;
use rsevents_extra::countdown::has_landed_on_zero;
use rsevents_extra::countdown::has_left_zero;
use rsevents_extra::countdown::is_done_at;
use rsevents_extra::countdown::judge_increment;
use rsevents_extra::countdown::judge_slice;
use rsevents_extra::countdown::judge_tick;
use rsevents_extra::countdown::report_poll;
use rsevents_extra::countdown::show;
use rsevents_extra::countdown::tick_down;
use rsevents_extra::CountdownEvent;
use rsevents_extra::TimeoutError;
use std::time::Duration;

#[test]
fn basic_countdown() {
    let countdown = CountdownEvent::new(1);
    assert_eq!(countdown.wait0(), false);
    countdown.tick();
    assert_eq!(countdown.wait0(), true);
}

#[test]
fn reset_countdown() {
    let countdown = CountdownEvent::new(1);
    assert_eq!(countdown.wait0(), false);
    countdown.tick();
    assert_eq!(countdown.wait0(), true);
    countdown.reset(1);
    assert_eq!(countdown.wait0(), false);
}

#[test]
fn start_at_zero() {
    let countdown = CountdownEvent::new(0);
    assert_eq!(countdown.wait0(), true);
}

#[test]
fn negative_countdown() {
    let countdown = CountdownEvent::new(1);
    assert_eq!(false, countdown.wait0());
    countdown.tick();
    assert_eq!(countdown.count(), 0);
    assert_eq!(true, countdown.wait0());
    countdown.tick();
    assert_eq!(countdown.count(), 0);
    assert_eq!(true, countdown.wait0());
}

#[test]
fn new_latch_is_done_only_at_zero() {
    assert_eq!(CountdownEvent::new(0).wait0(), true);
    assert_eq!(CountdownEvent::new(1).wait0(), false);
    assert_eq!(CountdownEvent::new(2).wait0(), false);
    assert_eq!(CountdownEvent::new(1000).wait0(), false);
    assert_eq!(CountdownEvent::new(isize::MAX as usize).wait0(), false);
}

#[test]
fn waiters_pass_at_the_last_tick() {
    let countdown = CountdownEvent::new(5);
    for left in (1..=5usize).rev() {
        assert_eq!(countdown.count(), left);
        assert_eq!(countdown.wait0(), false);
        assert_eq!(countdown.tick(), true);
    }
    assert_eq!(countdown.count(), 0);
    assert_eq!(countdown.wait0(), true);
    // It stays done, whatever else is ticked.
    assert_eq!(countdown.tick(), false);
    assert_eq!(countdown.wait0(), true);
    countdown.wait();
    assert_eq!(countdown.wait_for(Duration::from_millis(1)), true);
}

#[test]
fn tick_reports_a_spent_count() {
    let countdown = CountdownEvent::new(1);
    assert_eq!(countdown.tick(), true);
    assert_eq!(countdown.tick(), false);
    assert_eq!(countdown.tick(), false);
    assert_eq!(countdown.count(), 0);
    // The count did not move below zero: one increment is one unit of work.
    assert_eq!(countdown.increment(), true);
    assert_eq!(countdown.count(), 1);
    assert_eq!(countdown.wait0(), false);
}

#[test]
fn increment_off_zero_clears_done() {
    let countdown = CountdownEvent::new(0);
    assert_eq!(countdown.wait0(), true);
    assert_eq!(countdown.increment(), true);
    assert_eq!(countdown.count(), 1);
    assert_eq!(countdown.wait0(), false);
    assert_eq!(countdown.increment(), true);
    assert_eq!(countdown.count(), 2);
    assert_eq!(countdown.wait0(), false);
    assert_eq!(countdown.tick(), true);
    assert_eq!(countdown.wait0(), false);
    assert_eq!(countdown.tick(), true);
    assert_eq!(countdown.wait0(), true);
}

#[test]
fn increment_stops_at_the_top() {
    let countdown = CountdownEvent::new(isize::MAX as usize);
    assert_eq!(countdown.count(), isize::MAX as usize);
    assert_eq!(countdown.increment(), false);
    assert_eq!(countdown.count(), isize::MAX as usize);
    assert_eq!(countdown.tick(), true);
    assert_eq!(countdown.count(), isize::MAX as usize - 1);
    assert_eq!(countdown.increment(), true);
    assert_eq!(countdown.count(), isize::MAX as usize);
}

#[test]
fn reset_to_zero_sets_done() {
    let countdown = CountdownEvent::new(3);
    assert_eq!(countdown.wait0(), false);
    countdown.reset(0);
    assert_eq!(countdown.count(), 0);
    assert_eq!(countdown.wait0(), true);
    countdown.reset(2);
    assert_eq!(countdown.count(), 2);
    assert_eq!(countdown.wait0(), false);
    countdown.reset(7);
    assert_eq!(countdown.count(), 7);
    assert_eq!(countdown.wait0(), false);
}

#[test]
fn timed_wait_on_a_latch() {
    let countdown = CountdownEvent::new(1);
    assert_eq!(countdown.wait_for(Duration::ZERO), false);
    assert_eq!(countdown.wait_for(Duration::from_millis(20)), false);
    assert_eq!(countdown.try_wait_for(Duration::from_millis(5)), Err(TimeoutError));
    assert_eq!(countdown.try_wait0(), Err(TimeoutError));
    countdown.tick();
    assert_eq!(countdown.wait_for(Duration::ZERO), true);
    assert_eq!(countdown.wait_for(Duration::from_secs(3600 * 24 * 365)), true);
    assert_eq!(countdown.wait_for(Duration::MAX), true);
    assert_eq!(countdown.try_wait_for(Duration::from_millis(5)), Ok(()));
    assert_eq!(countdown.try_wait0(), Ok(()));
    assert!(countdown.try_wait().is_ok());
}

#[test]
fn a_tick_stores_one_less() {
    assert_eq!(tick_down(1), Some(0));
    assert_eq!(tick_down(2), Some(1));
    assert_eq!(tick_down(isize::MAX), Some(isize::MAX - 1));
    assert_eq!(tick_down(0), None);
    assert_eq!(tick_down(-1), None);
    assert_eq!(tick_down(isize::MIN), None);
}

#[test]
fn an_increment_stores_one_more() {
    assert_eq!(grow(0), Some(1));
    assert_eq!(grow(41), Some(42));
    assert_eq!(grow(isize::MAX - 1), Some(isize::MAX));
    assert_eq!(grow(isize::MAX), None);
    assert_eq!(grow(-1), Some(0));
}

#[test]
fn done_goes_with_a_count_of_zero() {
    assert_eq!(is_done_at(0), true);
    assert_eq!(is_done_at(1), false);
    assert_eq!(is_done_at(isize::MAX), false);
    assert_eq!(is_done_at(-1), true);
    assert_eq!(has_landed_on_zero(1), true);
    assert_eq!(has_landed_on_zero(2), false);
    assert_eq!(has_landed_on_zero(0), false);
    assert_eq!(has_left_zero(0), true);
    assert_eq!(has_left_zero(1), false);
    assert_eq!(has_left_zero(-1), false);
}

#[test]
fn the_count_is_shown_without_sign() {
    assert_eq!(show(0), 0);
    assert_eq!(show(7), 7);
    assert_eq!(show(isize::MAX), isize::MAX as usize);
    assert_eq!(show(-1), 0);
    assert_eq!(show(isize::MIN), 0);
}

#[test]
fn the_verdict_of_a_tick() {
    let last = judge_tick(Ok(1));
    assert_eq!((last.counted, last.settles), (true, true));
    let early = judge_tick(Ok(2));
    assert_eq!((early.counted, early.settles), (true, false));
    let top = judge_tick(Ok(isize::MAX));
    assert_eq!((top.counted, top.settles), (true, false));
    let spent = judge_tick(Err(0));
    assert_eq!((spent.counted, spent.settles), (false, false));
    let below = judge_tick(Err(-1));
    assert_eq!((below.counted, below.settles), (false, false));
}

#[test]
fn the_verdict_of_an_increment() {
    let first = judge_increment(Ok(0));
    assert_eq!((first.counted, first.settles), (true, true));
    let later = judge_increment(Ok(1));
    assert_eq!((later.counted, later.settles), (true, false));
    let full = judge_increment(Err(isize::MAX));
    assert_eq!((full.counted, full.settles), (false, false));
}

#[test]
fn a_poll_reports_a_timeout() {
    assert_eq!(report_poll(true), Ok(()));
    assert_eq!(report_poll(false), Err(TimeoutError));
}

#[test]
fn a_timed_wait_ends_when_done_or_out_of_time() {
    assert_eq!(judge_slice(true, false), Some(true));
    assert_eq!(judge_slice(true, true), Some(true));
    assert_eq!(judge_slice(false, true), Some(false));
    assert_eq!(judge_slice(false, false), None);
}
