//! The atomic operations of std that vstd leaves without a specification, or
//! without what this library needs of them: the value an atomic was made
//! with, and the clauses a destructor needs.
//!
//! Nothing in this file is proved. No contract here says what an atomic
//! holds now: that is shared between threads, and the callers are verified
//! for every value.
use std::sync::atomic::AtomicIsize;
use std::sync::atomic::AtomicU16;
use std::sync::atomic::Ordering;
use vstd::prelude::*;

verus! {

/// The value that an `AtomicIsize` was made with. It says nothing of the
/// value that is stored now.
pub uninterp spec fn isize_made_with(cell: AtomicIsize) -> isize;

/// The value that an `AtomicU16` was made with. It says nothing of the value
/// that is stored now.
pub uninterp spec fn u16_made_with(cell: AtomicU16) -> u16;

/// `AtomicIsize::new`: a new atomic, made with `value`. That it was made
/// with `value` is what this declaration adds to the one vstd has.
#[verifier::external_body]
pub(crate) fn new_isize(value: isize) -> (cell: AtomicIsize)
    ensures
        isize_made_with(cell) == value,
{
    AtomicIsize::new(value)
}

/// `AtomicU16::new`: a new atomic, made with `value`; see `new_isize`.
#[verifier::external_body]
pub(crate) fn new_u16(value: u16) -> (cell: AtomicU16)
    ensures
        u16_made_with(cell) == value,
{
    AtomicU16::new(value)
}

/// `AtomicIsize::fetch_update` with relaxed ordering. std documents it so:
/// it fetches the value and applies `f` to it; it returns `Ok` of the
/// previous value if `f` returned `Some`, having stored what `f` returned
/// over exactly that value, else `Err` of the previous value, having stored
/// nothing. The contract says that much: the value in the result is one that
/// `f` was applied to, and `f` gave `Some` for it behind an `Ok` and `None`
/// behind an `Err`.
#[verifier::external_body]
pub(crate) fn update_isize<F: Fn(isize) -> Option<isize>>(cell: &AtomicIsize, f: F) -> (r: Result<
    isize,
    isize,
>)
    requires
        forall|v: isize| call_requires(f, (v,)),
    ensures
        match r {
            Ok(prev) => exists|next: isize| call_ensures(f, (prev,), Some(next)),
            Err(prev) => call_ensures(f, (prev,), None),
        },
{
    cell.fetch_update(Ordering::Relaxed, Ordering::Relaxed, f)
}

/// `AtomicU16::fetch_update` with relaxed ordering; see `update_isize`.
#[verifier::external_body]
pub(crate) fn update_u16<F: Fn(u16) -> Option<u16>>(cell: &AtomicU16, f: F) -> (r: Result<
    u16,
    u16,
>)
    requires
        forall|v: u16| call_requires(f, (v,)),
    ensures
        match r {
            Ok(prev) => exists|next: u16| call_ensures(f, (prev,), Some(next)),
            Err(prev) => call_ensures(f, (prev,), None),
        },
{
    cell.fetch_update(Ordering::Relaxed, Ordering::Relaxed, f)
}

/// `AtomicU16::fetch_add` with relaxed ordering: adds `n`, wrapping, and
/// returns the value that was stored before. It cannot unwind, which is what
/// this declaration adds to the one vstd has. Nothing is promised of the
/// result.
#[verifier::external_body]
pub(crate) fn add_u16(cell: &AtomicU16, n: u16) -> (prev: u16)
    opens_invariants none
    no_unwind
{
    cell.fetch_add(n, Ordering::Relaxed)
}

/// `core::mem::forget`: takes ownership of a value and does not run its
/// destructor.
pub assume_specification<T>[ core::mem::forget::<T> ](t: T);

} // verus!
