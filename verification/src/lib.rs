//! Two thread-coordination primitives built on `rsevents`: a countdown latch
//! and a counting semaphore with an adjustable ceiling.
//!
//! Both keep their counters in atomics and are used through shared
//! references. A contract of a method that takes `&self` therefore speaks of
//! what the call itself found and decided, never of "the" state of the
//! object, which other threads may change at any moment. What holds of the
//! shared state across all interleavings is stated and proved of the two
//! protocol models, `latch_protocol` and `permit_protocol`, whose steps are
//! built from the same decision functions that the executable code runs.
//! The one state of an object that its contracts do name is the state it was
//! made in, its `origin`: `new` makes a latch in the state `fresh` and a
//! semaphore in the state `stocked`, from which the laws of the two
//! protocols start.
//!
//! - `countdown`: the latch, `CountdownEvent`, and its decisions.
//! - `semaphore`: `Semaphore` and `SemaphoreGuard`, and their decisions.
//! - `latch_protocol`, `permit_protocol`: the two protocols and their laws.
//! - `clock`: deadlines for timed waits.
//! - `events`, `cells`: what is taken on trust of `rsevents` and of the
//!   atomics of std.
pub mod cells;
pub mod clock;
pub mod countdown;
pub mod events;
pub mod latch_protocol;
pub mod permit_protocol;
pub mod semaphore;

pub use crate::clock::TimeoutError;
pub use crate::countdown::CountdownEvent;
pub use crate::semaphore::Semaphore;
pub use crate::semaphore::SemaphoreGuard;
