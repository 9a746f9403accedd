//! Monotonic time in milliseconds, measured from a fixed origin.
use vstd::prelude::*;
use std::time::{Duration, Instant};

verus! {

/// A point in monotonic time (`std::time::Instant`).
#[verifier::external_type_specification]
#[verifier::external_body]
pub struct ExInstant(Instant);

/// Calls `Instant::now`: the current point of the monotonic clock. Nothing is
/// stated about the value, which depends on the time of the call.
#[verifier::external_body]
fn instant_now() -> Instant {
    Instant::now()
}

/// Calls `Instant::elapsed`: the time since `origin`. Nothing is stated about the
/// value, which depends on the time of the call.
#[verifier::external_body]
fn instant_elapsed(origin: &Instant) -> Duration {
    origin.elapsed()
}

/// Calls `Duration::as_millis`: the whole milliseconds of `d`. Nothing is stated
/// about the value, as `Duration` is opaque here.
#[verifier::external_body]
fn duration_millis(d: &Duration) -> u128 {
    d.as_millis()
}

/// A clock that counts milliseconds from the moment it was started.
pub struct Clock {
    origin: Instant,
}

impl Clock {
    /// Starts a clock at the current time.
    pub fn start() -> Clock {
        Clock { origin: instant_now() }
    }

    /// Milliseconds since the clock was started, saturating at `u64::MAX`.
    pub fn now_millis(&self) -> u64 {
        let ms = duration_millis(&instant_elapsed(&self.origin));
        if ms > 0xFFFF_FFFF_FFFF_FFFFu128 {
            0xFFFF_FFFF_FFFF_FFFFu64
        } else {
            ms as u64
        }
    }
}

} // verus!
