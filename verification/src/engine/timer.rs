//! Timers: producers of time steps. Each pull gives the time elapsed since
//! the previous pull; this need not reflect a real-world sense of time.

use vstd::prelude::*;
use std::time::{Duration, Instant};

verus! {

/// Producer of time steps.
pub trait Timer {
    /// The time step, in milliseconds, since the previous invocation.
    fn pull_time_step_millis(&mut self) -> u64;
}

/// Timer which does nothing, always returning zero elapsed time.
pub struct NullTimer {}

impl NullTimer {
    /// A new instance; an empty struct.
    pub fn new() -> (r: NullTimer)
        ensures
            r == (NullTimer {}),
    {
        NullTimer {}
    }
}

impl Timer for NullTimer {
    /// Zero elapsed time.
    fn pull_time_step_millis(&mut self) -> (r: u64)
        ensures
            r == 0,
            *final(self) == *old(self),
    {
        0
    }
}

/// `std::time::Instant`.
#[verifier::external_type_specification]
#[verifier::external_body]
pub struct ExInstant(Instant);

/// `Instant::now`: the current time. Nothing is stated of it: it depends on
/// the clock.
#[verifier::external_body]
fn instant_now() -> Instant {
    Instant::now()
}

/// `Instant::duration_since`: the time from `earlier` to `later`, zero when
/// `earlier` is the later one. Nothing is stated of the value: an instant's
/// contents are not visible here.
#[verifier::external_body]
fn instant_duration_since(later: &Instant, earlier: &Instant) -> Duration {
    later.duration_since(*earlier)
}

/// `Duration::as_millis`: the whole milliseconds of a duration. Nothing is
/// stated of the value: a duration's contents are not visible here.
#[verifier::external_body]
fn duration_as_millis(d: &Duration) -> u128 {
    d.as_millis()
}

/// A millisecond count as a time step: its low 64 bits.
pub fn millis_to_time_step(millis: u128) -> (r: u64)
    ensures
        r == millis as u64,
        millis <= u64::MAX ==> r == millis,
{
    millis as u64
}

/// Timer measuring real time, intended as a reference for all components of
/// the engine to get time on the same scale.
pub struct GlobalTimer {
    last_update_time: Instant,
}

impl GlobalTimer {
    /// The instant that the next time step is measured from.
    pub closed spec fn reference(&self) -> Instant {
        self.last_update_time
    }

    /// A timer that counts from the present time.
    pub fn new() -> GlobalTimer {
        GlobalTimer { last_update_time: instant_now() }
    }

    /// A pull made at the instant `now`: the milliseconds from the timer's
    /// reference instant to `now`, truncated to 64 bits. The reference then
    /// becomes `now`, so that the next pull measures only the time since
    /// this one.
    pub fn pull_time_step_millis_at(&mut self, now: Instant) -> (r: u64)
        ensures
            final(self).reference() == now,
    {
        let elapsed = instant_duration_since(&now, &self.last_update_time);
        self.last_update_time = now;
        millis_to_time_step(duration_as_millis(&elapsed))
    }
}

impl Timer for GlobalTimer {
    /// The milliseconds elapsed since the previous call (or since creation),
    /// truncated to 64 bits: a pull at the present instant (see
    /// [`GlobalTimer::pull_time_step_millis_at`]).
    fn pull_time_step_millis(&mut self) -> u64 {
        let now = instant_now();
        self.pull_time_step_millis_at(now)
    }
}

} // verus!
