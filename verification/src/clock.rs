//! The monotonic clock of the standard library, as far as the runner reads it.

use vstd::prelude::*;

verus! {

/// `std::time::Instant`: a reading of the monotonic clock, carried through
/// as an opaque value.
#[verifier::external_type_specification]
#[verifier::external_body]
pub struct ExInstant(std::time::Instant);

/// `Instant::now` reads the clock. Nothing is claimed of the reading.
pub assume_specification[ std::time::Instant::now ]() -> (now: std::time::Instant);

/// `Instant::elapsed` gives the time that has passed since the reading.
/// Nothing is claimed of its length.
pub assume_specification[ std::time::Instant::elapsed ](since: &std::time::Instant) -> (elapsed:
    std::time::Duration);

/// `Duration::as_nanos` gives the whole nanoseconds of a duration. Nothing
/// is claimed of their number.
pub assume_specification[ std::time::Duration::as_nanos ](duration: &std::time::Duration) -> (nanos:
    u128);

/// The nanoseconds of one millisecond.
pub const NANOS_PER_MILLI: u128 = 1_000_000;

/// The low 64 bits of `value`.
pub open spec fn spec_low_u64(value: u128) -> u64 {
    (value % 0x1_0000_0000_0000_0000) as u64
}

/// The low 64 bits of `value`.
pub fn low_u64(value: u128) -> (low: u64)
    ensures
        low == spec_low_u64(value),
{
    (value % 0x1_0000_0000_0000_0000) as u64
}

/// The whole milliseconds of `nanos` nanoseconds, cut to 64 bits.
pub open spec fn spec_millis_of(nanos: u128) -> u64 {
    spec_low_u64(nanos / NANOS_PER_MILLI)
}

/// The whole milliseconds of `nanos` nanoseconds, cut to 64 bits.
pub fn millis_of(nanos: u128) -> (millis: u64)
    ensures
        millis == spec_millis_of(nanos),
{
    low_u64(nanos / NANOS_PER_MILLI)
}

} // verus!
