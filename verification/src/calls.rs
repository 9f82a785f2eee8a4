//! Calls through function values.
//!
//! What such a call gave is known to be an outcome of that very function on those arguments,
//! which nothing but the call can show of a function that is not looked into.

use vstd::prelude::*;

verus! {

/// Calls `f`.
pub(crate) fn call<R, F: FnOnce() -> R>(f: F) -> (result: R)
    requires
        call_requires(f, ()),
    ensures
        call_ensures(f, (), result),
{
    f()
}

/// Calls `f` on `a`.
pub(crate) fn call_on<'a, A: ?Sized, R, F: FnOnce(&'a A) -> R>(f: F, a: &'a A) -> (result: R)
    requires
        call_requires(f, (a,)),
    ensures
        call_ensures(f, (a,), result),
{
    f(a)
}

/// Calls `f` on `a` and `b`.
pub(crate) fn call_with<'a, A, B, R, F: FnOnce(&'a A, B) -> R>(f: F, a: &'a A, b: B) -> (result: R)
    requires
        call_requires(f, (a, b)),
    ensures
        call_ensures(f, (a, b), result),
{
    f(a, b)
}

} // verus!
