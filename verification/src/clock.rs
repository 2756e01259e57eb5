//! Wall-clock readings and fresh order identifiers: values that depend on the
//! moment or on chance, so no contract here says which value comes back.

use vstd::prelude::*;
use std::time::{Duration, Instant, SystemTime, SystemTimeError};

verus! {

#[verifier::external_type_specification]
#[verifier::external_body]
pub struct ExSystemTime(SystemTime);

#[verifier::external_type_specification]
#[verifier::external_body]
pub struct ExSystemTimeError(SystemTimeError);

#[verifier::external_type_specification]
#[verifier::external_body]
pub struct ExInstant(Instant);

/// Calls `SystemTime::now`. The reading depends on the machine's clock, so
/// nothing is claimed of it.
#[verifier::external_body]
fn system_now() -> SystemTime {
    SystemTime::now()
}

/// Calls `SystemTime::duration_since(UNIX_EPOCH)`: the time elapsed since
/// the Unix epoch, or an error for a time before it. Nothing is claimed of
/// the duration.
#[verifier::external_body]
fn since_unix_epoch(t: &SystemTime) -> Result<Duration, SystemTimeError> {
    t.duration_since(std::time::UNIX_EPOCH)
}

/// Calls `Duration::as_millis`: the whole milliseconds of the duration.
/// Nothing is claimed of the number, as nothing is known of the duration.
#[verifier::external_body]
fn whole_millis(d: &Duration) -> u128 {
    d.as_millis()
}

/// Calls `Instant::now`: a reading of the monotonic clock. Nothing is
/// claimed of it.
#[verifier::external_body]
pub fn instant_now() -> Instant {
    Instant::now()
}

/// Calls `Instant::elapsed`: the time since the reading `start`. Nothing is
/// claimed of the duration.
#[verifier::external_body]
fn instant_elapsed(start: &Instant) -> Duration {
    start.elapsed()
}

/// The milliseconds that a clock reading stands for: the whole
/// milliseconds reduced to 64 bits, or 0 when there is no reading (a wall
/// clock set before the Unix epoch).
pub open spec fn reading_millis(reading: Option<u128>) -> u64 {
    match reading {
        Some(ms) => (ms % 0x1_0000_0000_0000_0000u128) as u64,
        None => 0,
    }
}

/// Turns a clock reading in whole milliseconds into the `u64` the library
/// keeps (see [`reading_millis`]).
pub fn millis_from_reading(reading: Option<u128>) -> (m: u64)
    ensures
        m == reading_millis(reading),
{
    match reading {
        Some(ms) => (ms % 0x1_0000_0000_0000_0000u128) as u64,
        None => 0,
    }
}

/// Whole milliseconds since the monotonic reading `start`, reduced to 64
/// bits.
pub fn elapsed_millis(start: &Instant) -> u64 {
    let d = instant_elapsed(start);
    millis_from_reading(Some(whole_millis(&d)))
}

/// Milliseconds since the Unix epoch, as the wall clock reads now, reduced
/// to 64 bits; a clock set before the epoch reads as 0.
pub fn now_millis() -> u64 {
    let t = system_now();
    let reading = match since_unix_epoch(&t) {
        Ok(d) => Some(whole_millis(&d)),
        Err(_) => None,
    };
    millis_from_reading(reading)
}

/// The version nibble (bits 76..80) of a 128-bit UUID.
pub open spec fn uuid_version(id: u128) -> u128 {
    (id >> 76u128) & 0xFu128
}

/// Calls `uuid::Uuid::new_v4` and returns the UUID as its 128-bit integer
/// (`Uuid::as_u128`). The bits are random; the one thing every outcome has in
/// common is the version nibble 4, which `new_v4` masks in over the random
/// bits before `Uuid::from_u128`.
#[verifier::external_body]
pub(crate) fn new_v4_id() -> (id: u128)
    ensures
        uuid_version(id) == 4,
{
    uuid::Uuid::new_v4().as_u128()
}

} // verus!
