//! The ABI's timeout convention for `recv`: a negative value waits
//! indefinitely, `0` returns immediately, and a positive value waits up to
//! that many milliseconds.
use vstd::prelude::*;

use std::time::Duration;

verus! {

/// The `timeout_ms` that means "wait indefinitely".
pub const WAIT_FOREVER: i32 = -1;

/// The number of whole milliseconds that `Duration::as_millis` reports for
/// `d`.
pub uninterp spec fn duration_millis(d: Duration) -> u128;

/// Calls `Duration::as_millis`, which returns the total number of whole
/// milliseconds contained in the duration. The contract claims only that
/// the result is a function of the duration, named [`duration_millis`].
#[verifier::external_body]
fn duration_as_millis(d: &Duration) -> (ms: u128)
    ensures
        ms == duration_millis(*d),
{
    d.as_millis()
}

/// The `timeout_ms` for a wait of `millis` milliseconds, or for no bound
/// when `millis` is `None`: `-1` for `None`, otherwise `millis` saturated
/// at `i32::MAX`.
pub open spec fn timeout_ms_of(millis: Option<u128>) -> i32 {
    match millis {
        None => WAIT_FOREVER,
        Some(ms) => if ms > i32::MAX as u128 {
            i32::MAX
        } else {
            ms as i32
        },
    }
}

/// Converts an optional wait in whole milliseconds to the ABI's
/// `timeout_ms` (see [`timeout_ms_of`]).
pub fn timeout_ms_from_millis(millis: Option<u128>) -> (t: i32)
    ensures
        t == timeout_ms_of(millis),
{
    match millis {
        None => WAIT_FOREVER,
        Some(ms) => if ms > i32::MAX as u128 {
            i32::MAX
        } else {
            ms as i32
        },
    }
}

/// Converts `recv`'s timeout to the ABI's `timeout_ms`: `None` waits
/// indefinitely (`-1`), `Some(Duration::ZERO)` returns immediately (`0`),
/// and any other duration waits up to its whole milliseconds, saturated at
/// `i32::MAX`.
pub fn duration_to_timeout_ms(timeout: Option<Duration>) -> (t: i32)
    ensures
        t == timeout_ms_of(
            match timeout {
                None => None,
                Some(d) => Some(duration_millis(d)),
            },
        ),
{
    match timeout {
        None => timeout_ms_from_millis(None),
        Some(d) => timeout_ms_from_millis(Some(duration_as_millis(&d))),
    }
}

/// A bounded wait never turns into an unbounded one: it maps to a
/// non-negative `timeout_ms`, which is the wait itself whenever that fits
/// in an `i32` and `i32::MAX` otherwise; longer waits never map to shorter
/// timeouts; only `None` waits indefinitely.
pub proof fn lemma_timeout_ms_bounded(a: u128, b: u128)
    ensures
        timeout_ms_of(Some(a)) >= 0,
        a <= i32::MAX ==> timeout_ms_of(Some(a)) == a,
        a > i32::MAX ==> timeout_ms_of(Some(a)) == i32::MAX,
        a <= b ==> timeout_ms_of(Some(a)) <= timeout_ms_of(Some(b)),
        timeout_ms_of(None) < 0,
        timeout_ms_of(Some(0)) == 0,
{
}

} // verus!
