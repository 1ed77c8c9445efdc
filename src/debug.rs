//! Timing helpers for diagnostics: run a closure and report how long it took.
//! The host supplies the clock, a monotonic reading in nanoseconds, since
//! not every target the library runs on has one of its own.
use vstd::prelude::*;

use crate::driver::elapsed;

verus! {

/// Runs `f` once between two readings of `clock` and returns the whole
/// milliseconds between the readings with the result of `f`.
pub fn debug_time_millis<R>(mut f: impl FnMut() -> R, clock: impl Fn() -> u64) -> (r: (u128, R))
    requires
        call_requires(f, ()),
        call_requires(clock, ()),
    ensures
        call_ensures(f, (), r.1),
        exists|start: u64, end: u64|
            call_ensures(clock, (), start) && call_ensures(clock, (), end) && r.0 == elapsed(
                start,
                end,
            ) / 1_000_000,
{
    let start = clock();
    let result = f();
    let end = clock();
    let nanos = if end >= start {
        end - start
    } else {
        0
    };
    assert(call_ensures(clock, (), start) && call_ensures(clock, (), end) && nanos == elapsed(
        start,
        end,
    ));
    ((nanos / 1_000_000) as u128, result)
}

/// Runs `f` once between two readings of `clock` and returns the
/// nanoseconds between the readings with the result of `f`.
pub fn debug_time_nanos<R>(mut f: impl FnMut() -> R, clock: impl Fn() -> u64) -> (r: (u128, R))
    requires
        call_requires(f, ()),
        call_requires(clock, ()),
    ensures
        call_ensures(f, (), r.1),
        exists|start: u64, end: u64|
            call_ensures(clock, (), start) && call_ensures(clock, (), end) && r.0 == elapsed(
                start,
                end,
            ),
{
    let start = clock();
    let result = f();
    let end = clock();
    let nanos = if end >= start {
        end - start
    } else {
        0
    };
    assert(call_ensures(clock, (), start) && call_ensures(clock, (), end) && nanos == elapsed(
        start,
        end,
    ));
    (nanos as u128, result)
}

} // verus!
