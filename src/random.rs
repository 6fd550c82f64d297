//! The source of random draws: tinyrand's `Wyrand` generator, seeded from the
//! system clock.

use vstd::prelude::*;

use core::time::Duration;
use std::time::{SystemTime, UNIX_EPOCH};

use tinyrand::{RandRange, Seeded, Wyrand};

verus! {

#[verifier::external_type_specification]
#[verifier::external_body]
pub struct ExWyrand(tinyrand::Wyrand);

#[verifier::external_type_specification]
#[verifier::external_body]
pub struct ExSystemTime(std::time::SystemTime);

/// Relies on `SystemTime::now`: the current time of the system clock.
#[verifier::external_body]
fn clock_now() -> SystemTime {
    SystemTime::now()
}

/// Relies on `SystemTime::duration_since` with `UNIX_EPOCH`: the time elapsed
/// since the epoch, or `None` when `t` lies before it.
#[verifier::external_body]
fn since_epoch(t: &SystemTime) -> Option<Duration> {
    t.duration_since(UNIX_EPOCH).ok()
}

/// Relies on `Duration::as_nanos`: the whole duration in nanoseconds.
#[verifier::external_body]
fn total_nanos(d: &Duration) -> u128 {
    d.as_nanos()
}

/// Relies on `<Wyrand as Seeded>::seed`: a generator started from `seed`.
#[verifier::external_body]
fn seeded_generator(seed: u64) -> Wyrand {
    Wyrand::seed(seed)
}

/// A seed that changes from call to call: the low 64 bits of the nanoseconds
/// since the Unix epoch, or 0 when the clock is set before the epoch.
fn clock_seed() -> u64 {
    let now = clock_now();
    match since_epoch(&now) {
        Some(d) => total_nanos(&d) as u64,
        None => 0,
    }
}

/// A generator seeded from the system clock, so that successive calls start
/// from different states.
pub(crate) fn fresh_generator() -> Wyrand {
    seeded_generator(clock_seed())
}

/// Relies on `RandRange::<usize>::next_range`: on the non-empty range
/// `0..bound` it returns a value inside the range (it panics on an empty one).
#[verifier::external_body]
pub(crate) fn draw_below(rand: &mut Wyrand, bound: usize) -> (r: usize)
    requires
        0 < bound,
    ensures
        r < bound,
{
    rand.next_range(0..bound)
}

} // verus!
