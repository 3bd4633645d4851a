//! Measuring the time between ticks and counting frames.

use vstd::prelude::*;
use std::time::{Duration, Instant};

verus! {

/// The length of a tick, in milliseconds.
pub const MS_PER_UPDATE: u32 = 4;

/// The number of microseconds after which the frames are counted anew.
pub const MICROS_PER_SECOND: u64 = 1000000;

/// A point in time of the monotonic clock of the standard library.
#[verifier::external_type_specification]
#[verifier::external_body]
pub struct ExInstant(Instant);

/// `Instant::now`: the present moment.
#[verifier::external_body]
fn now() -> Instant {
    Instant::now()
}

/// `Instant::duration_since`: the time from `earlier` to `later`, or
/// nothing if `earlier` is the later of the two.
#[verifier::external_body]
fn duration_since(later: &Instant, earlier: Instant) -> Duration {
    later.duration_since(earlier)
}

/// `Duration::as_micros`: the whole microseconds in the duration.
#[verifier::external_body]
fn as_micros(duration: &Duration) -> u128 {
    duration.as_micros()
}

/// The sum of the two, or the largest number if the sum is larger.
pub open spec fn capped_sum(a: u64, b: u64) -> u64 {
    if a + b > u64::MAX {
        u64::MAX
    } else {
        (a + b) as u64
    }
}

/// The number, or the largest number that fits if it does not.
pub open spec fn capped(micros: u128) -> u64 {
    if micros > u64::MAX {
        u64::MAX
    } else {
        micros as u64
    }
}

/// A clock that measures the time between two ticks and counts the frames
/// of each second.  Times are whole microseconds.
#[derive(Debug)]
pub struct TimeStep {
    last_time: Instant,
    delta_time: u64,
    frame_count: u32,
    frame_time: u64,
}

impl TimeStep {
    /// The time that the last measurement gave, in microseconds.
    pub closed spec fn last_delta(&self) -> u64 {
        self.delta_time
    }

    /// The number of frames counted since the count was last reported.
    pub closed spec fn frames(&self) -> u32 {
        self.frame_count
    }

    /// The time that the frames counted so far have taken, in microseconds.
    pub closed spec fn elapsed(&self) -> u64 {
        self.frame_time
    }

    /// Starts a clock at the present moment.
    pub fn new() -> (step: TimeStep)
        ensures
            step.last_delta() == 0,
            step.frames() == 0,
            step.elapsed() == 0,
    {
        TimeStep { last_time: now(), delta_time: 0, frame_count: 0, frame_time: 0 }
    }

    /// The number of frames counted since the count was last reported.
    pub fn frame_count(&self) -> (count: u32)
        ensures
            count == self.frames(),
    {
        self.frame_count
    }

    /// Notes that `micros` microseconds have passed since the last
    /// measurement and that it is now `current`.
    pub fn advance(&mut self, current: Instant, micros: u128) -> (delta: u64)
        ensures
            delta == capped(micros),
            final(self).last_delta() == delta,
            final(self).frames() == old(self).frames(),
            final(self).elapsed() == old(self).elapsed(),
    {
        let delta: u64 = if micros > u64::MAX as u128 {
            u64::MAX
        } else {
            micros as u64
        };
        self.last_time = current;
        self.delta_time = delta;
        delta
    }

    /// Measures the time since the last measurement, in microseconds, and
    /// starts the next measurement.
    pub fn delta(&mut self) -> (delta: u64)
        ensures
            final(self).last_delta() == delta,
            final(self).frames() == old(self).frames(),
            final(self).elapsed() == old(self).elapsed(),
    {
        let current_time = now();
        let micros = as_micros(&duration_since(&current_time, self.last_time));
        self.advance(current_time, micros)
    }

    /// Counts one frame that took the time last measured.  Once the frames
    /// counted have taken a second or more, their number is returned and
    /// the count starts anew.
    pub fn fps(&mut self) -> (count: Option<u32>)
        requires
            old(self).frames() < u32::MAX,
        ensures
            final(self).last_delta() == old(self).last_delta(),
            count is Some <==> capped_sum(old(self).elapsed(), old(self).last_delta()) >= MICROS_PER_SECOND,
            count is Some ==> count == Some((old(self).frames() + 1) as u32) && final(self).frames() == 0
                && final(self).elapsed() == 0,
            count is None ==> final(self).frames() == old(self).frames() + 1 && final(self).elapsed()
                == capped_sum(old(self).elapsed(), old(self).last_delta()),
    {
        self.frame_count = self.frame_count + 1;
        self.frame_time = if self.frame_time > u64::MAX - self.delta_time {
            u64::MAX
        } else {
            self.frame_time + self.delta_time
        };
        if self.frame_time >= MICROS_PER_SECOND {
            let tmp = self.frame_count;
            self.frame_count = 0;
            self.frame_time = 0;
            return Some(tmp);
        }
        None
    }
}

} // verus!
