//! The two wait handles of `rsevents`, as far as this library calls them.
//!
//! Nothing in this file is proved. An event's state is shared between threads,
//! so no contract here says what a wait returns: the callers are verified for
//! every outcome. The one thing that is said of an event is the state it was
//! made in.
use rsevents::AutoResetEvent;
use rsevents::Awaitable;
use rsevents::EventState;
use rsevents::ManualResetEvent;
use std::time::Duration;
use vstd::prelude::*;

verus! {

/// `rsevents::AutoResetEvent`: a signal that lets exactly one waiter through
/// per `set`, and keeps at most one signal pending when nobody waits.
#[verifier::external_type_specification]
#[verifier::external_body]
pub struct ExAutoResetEvent(AutoResetEvent);

/// `rsevents::ManualResetEvent`: a signal that, once set, lets every waiter
/// through until it is reset.
#[verifier::external_type_specification]
#[verifier::external_body]
pub struct ExManualResetEvent(ManualResetEvent);

/// `rsevents::EventState`: the two states an event can be created in.
#[verifier::external_type_specification]
pub struct ExEventState(EventState);

/// The longest single timed wait that is handed to `rsevents`, in nanoseconds
/// (one hour). A timed wait there adds its limit to the current `Instant`,
/// which fails for limits the clock cannot represent; longer waits are made
/// of several slices.
pub const MAX_SLICE_NANOS: u64 = 3_600_000_000_000u64;

/// The state that an `AutoResetEvent` was made in: `true` for set. It says
/// nothing of the state the event is in now.
pub uninterp spec fn auto_made_set(event: AutoResetEvent) -> bool;

/// The state that a `ManualResetEvent` was made in: `true` for set. It says
/// nothing of the state the event is in now.
pub uninterp spec fn manual_made_set(event: ManualResetEvent) -> bool;

/// `AutoResetEvent::new`: a new event, made in the given state.
pub assume_specification[ AutoResetEvent::new ](state: EventState) -> (event: AutoResetEvent)
    ensures
        auto_made_set(event) == (state == EventState::Set),
;

/// `AutoResetEvent::set`: wakes one waiter or, when nobody waits, leaves one
/// signal pending. It returns at once, and it is taken not to unwind: its
/// path through `rsevents` and `parking_lot_core` holds no panic outside
/// debug and test assertions.
#[verifier::external_body]
pub(crate) fn auto_set(event: &AutoResetEvent)
    opens_invariants none
    no_unwind
{
    event.set()
}

/// `ManualResetEvent::new`: a new event, made in the given state.
pub assume_specification[ ManualResetEvent::new ](state: EventState) -> (event: ManualResetEvent)
    ensures
        manual_made_set(event) == (state == EventState::Set),
;

/// `ManualResetEvent::set`: puts the event into the set state and wakes all
/// waiters.
pub assume_specification[ ManualResetEvent::set ](event: &ManualResetEvent);

/// `ManualResetEvent::reset`: puts the event into the unset state.
pub assume_specification[ ManualResetEvent::reset ](event: &ManualResetEvent);

/// `Awaitable::wait` on an `AutoResetEvent`: blocks until a signal is handed
/// to this caller, and consumes it.
#[verifier::external_body]
pub(crate) fn auto_wait(event: &AutoResetEvent) {
    event.wait()
}

/// `Awaitable::wait_for` on an `AutoResetEvent`: as `auto_wait`, but gives up
/// after `nanos` nanoseconds. The result says whether a signal was obtained;
/// nothing is promised of it.
#[verifier::external_body]
pub(crate) fn auto_wait_for(event: &AutoResetEvent, nanos: u64) -> (woken: bool)
    requires
        nanos <= MAX_SLICE_NANOS,
{
    event.wait_for(Duration::from_nanos(nanos))
}

/// `Awaitable::wait` on a `ManualResetEvent`: blocks until the event is set.
#[verifier::external_body]
pub(crate) fn manual_wait(event: &ManualResetEvent) {
    event.wait()
}

/// `Awaitable::wait_for` on a `ManualResetEvent`: blocks until the event is
/// set or `nanos` nanoseconds have passed. The result says whether the event
/// was seen set; nothing is promised of it.
#[verifier::external_body]
pub(crate) fn manual_wait_for(event: &ManualResetEvent, nanos: u64) -> (set: bool)
    requires
        nanos <= MAX_SLICE_NANOS,
{
    event.wait_for(Duration::from_nanos(nanos))
}

/// `Awaitable::wait0` on a `ManualResetEvent`: whether the event is set right
/// now, without blocking. Nothing is promised of the result.
#[verifier::external_body]
pub(crate) fn manual_wait0(event: &ManualResetEvent) -> (set: bool) {
    event.wait0()
}

} // verus!
