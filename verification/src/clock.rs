//! The monotonic clock of the standard library.
//!
//! Points in time are `std::time::Instant`s, whose value Verus cannot see.
//! The queues of this crate hold a reference instant and turn every other
//! instant into a signed number of nanoseconds relative to it, see
//! [`nanos_since`]; from there on all computation on time is verified.

use vstd::prelude::*;

use crate::time::Duration;

verus! {

/// `std::time::Instant`, a point in time on the monotonic clock, carried
/// through the library as an opaque value.
#[verifier::external_type_specification]
#[verifier::external_body]
pub struct ExInstant(std::time::Instant);

/// Calls `std::time::Instant::now`, the current point in time.
///
/// Nothing is claimed of the result: it depends on when the call is made.
#[verifier::external_body]
pub fn instant_now() -> (now: std::time::Instant) {
    std::time::Instant::now()
}

/// The span from `earlier` to `later` that
/// `std::time::Instant::checked_duration_since` gives: `None` where `earlier`
/// is later than `later`.
pub uninterp spec fn checked_span(later: std::time::Instant, earlier: std::time::Instant) -> Option<Duration>;

/// Calls `std::time::Instant::checked_duration_since`: the span from
/// `earlier` to `later`, or `None` where `earlier` is later than `later`.
///
/// The contract claims that the result depends on the two instants alone,
/// and, as the documentation gives, that an instant and itself are zero apart.
#[verifier::external_body]
pub fn instant_since(later: &std::time::Instant, earlier: &std::time::Instant) -> (span: Option<Duration>)
    ensures
        span == checked_span(*later, *earlier),
        *later == *earlier ==> span is Some && span->0.nanos() == 0,
{
    later.checked_duration_since(*earlier).map(|d| Duration::new(d.as_secs(), d.subsec_nanos()))
}

/// The signed number of nanoseconds from `reference` to `instant`, as the
/// clock gives it: positive where `instant` is later, negative where it is
/// earlier.
pub open spec fn signed_span(instant: std::time::Instant, reference: std::time::Instant) -> int {
    match checked_span(instant, reference) {
        Some(span) => span.nanos() as int,
        None => match checked_span(reference, instant) {
            Some(span) => -(span.nanos() as int),
            None => 0,
        },
    }
}

/// The signed number of nanoseconds from `reference` to `instant`: positive
/// where `instant` is later, negative where it is earlier.
pub fn nanos_since(instant: &std::time::Instant, reference: &std::time::Instant) -> (n: i128)
    ensures
        n == signed_span(*instant, *reference),
        -crate::time::max_nanos() <= n <= crate::time::max_nanos(),
        *instant == *reference ==> n == 0,
{
    match instant_since(instant, reference) {
        Some(span) => {
            let n = span.as_nanos();
            n as i128
        },
        None => match instant_since(reference, instant) {
            Some(span) => {
                let n = span.as_nanos();
                -(n as i128)
            },
            None => 0,
        },
    }
}

} // verus!
