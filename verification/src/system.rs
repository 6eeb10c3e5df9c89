//! What the election takes from the machine: a clock reading and randomness.

use vstd::prelude::*;
use std::time::{Duration, SystemTimeError};

verus! {

/// The error of `std::time::SystemTime::elapsed`: the clock stands before the
/// time it is compared with. Nothing is read from it.
#[verifier::external_type_specification]
#[verifier::external_body]
pub struct ExSystemTimeError(SystemTimeError);

/// `core::time::Duration::as_millis`: the whole milliseconds of a duration.
/// It does not panic. Nothing is claimed of the number, since a duration is
/// opaque here.
pub assume_specification[ Duration::as_millis ](duration: &Duration) -> (millis: u128);

/// Calls `rand::random::<u16>()`, which draws from the generator of the
/// calling thread. Nothing is claimed of the value beyond its type: two calls
/// may differ. The call panics only where the operating system hands out no
/// entropy when the thread's generator is first seeded.
#[verifier::external_body]
pub(crate) fn random_u16() -> u16 {
    rand::random::<u16>()
}

/// Calls `std::time::SystemTime::elapsed` on `UNIX_EPOCH`: the time from the
/// Unix epoch to the present reading of the system clock, or an error where
/// the clock stands before the epoch. Nothing is claimed of the value: two
/// calls may differ, and the clock may go back.
#[verifier::external_body]
pub(crate) fn since_unix_epoch() -> Result<Duration, SystemTimeError> {
    std::time::UNIX_EPOCH.elapsed()
}

/// A fresh tie-break priority: a random value of sixteen bits.
pub fn gen_priority() -> (priority: i32)
    ensures
        0 <= priority <= u16::MAX,
{
    let draw: u16 = random_u16();
    priority_from_draw(draw)
}

/// The current time in milliseconds since the Unix epoch. A clock that
/// stands before the epoch reads as the epoch, and a time too far off to
/// count as the last moment that can be counted.
pub fn current_time() -> u64 {
    let reading: Option<u128> = match since_unix_epoch() {
        Ok(elapsed) => Some(elapsed.as_millis()),
        Err(_) => None,
    };
    time_from_reading(reading)
}

/// The priority that a draw of sixteen random bits stands for: the draw
/// itself, as a number from 0 to 65535.
pub open spec fn priority_of(draw: u16) -> i32 {
    draw as i32
}

/// The tie-break priority for a draw of sixteen random bits.
pub fn priority_from_draw(draw: u16) -> (priority: i32)
    ensures
        priority == priority_of(draw),
        0 <= priority <= u16::MAX,
{
    draw as i32
}

/// The time that a clock reading stands for. The reading is the number of
/// whole milliseconds since the Unix epoch, or nothing where the clock
/// stands before the epoch, which reads as the epoch itself. A number too
/// large to count reads as the last moment that can be counted.
pub open spec fn time_of_reading(reading: Option<u128>) -> u64 {
    match reading {
        Some(millis) => if millis > u64::MAX {
            u64::MAX
        } else {
            millis as u64
        },
        None => 0,
    }
}

/// The time in milliseconds since the Unix epoch for a clock reading.
pub fn time_from_reading(reading: Option<u128>) -> (now: u64)
    ensures
        now == time_of_reading(reading),
{
    match reading {
        Some(millis) => {
            if millis > u64::MAX as u128 {
                u64::MAX
            } else {
                millis as u64
            }
        },
        None => 0,
    }
}

} // verus!
