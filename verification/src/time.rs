//! Tick timing: the instant of the previous tick and the delta between
//! the last two ticks, in nanoseconds.
//!
//! The delta computation is ordinary verified code (`step`); only the
//! clock reading itself comes from outside, and nothing is promised of a
//! clock reading beyond what `step` does with every possible one.

use vstd::prelude::*;

verus! {

/// The timing state of the frame cycle.
pub struct Time {
    last_frame: u64,
    delta: u64,
}

impl Time {
    /// The clock reading of the previous tick, in nanoseconds.
    pub closed spec fn spec_last_frame(self) -> u64 {
        self.last_frame
    }

    /// Nanoseconds between the last two ticks.
    pub closed spec fn spec_delta(self) -> u64 {
        self.delta
    }

    /// Timing state anchored at clock reading `now`, with a zero delta.
    pub fn starting_at(now: u64) -> (t: Time)
        ensures
            t.spec_last_frame() == now,
            t.spec_delta() == 0,
    {
        Time { last_frame: now, delta: 0 }
    }

    /// Timing state anchored at the process clock, with a zero delta.
    pub fn new() -> (t: Time)
        ensures
            t.spec_delta() == 0,
    {
        let now = clock_nanos();
        Time::starting_at(now)
    }

    /// Advance to a tick at clock reading `now`: the delta becomes the
    /// time since the previous tick (zero if the clock went backwards),
    /// and `now` becomes the previous tick for the next call.
    pub fn step(&mut self, now: u64)
        ensures
            final(self).spec_last_frame() == now,
            final(self).spec_delta() == if now >= old(self).spec_last_frame() {
                now - old(self).spec_last_frame()
            } else {
                0
            },
    {
        if now >= self.last_frame {
            self.delta = now - self.last_frame;
        } else {
            self.delta = 0;
        }
        self.last_frame = now;
    }

    /// Advance to a tick at the process clock. Whatever reading comes
    /// back, the new delta is the distance from the previous tick to it
    /// (zero if the clock went backwards).
    pub fn update(&mut self)
        ensures
            final(self).spec_delta() == if final(self).spec_last_frame()
                >= old(self).spec_last_frame() {
                final(self).spec_last_frame() - old(self).spec_last_frame()
            } else {
                0
            },
    {
        let now = clock_nanos();
        self.step(now);
    }

    /// Nanoseconds between the last two ticks.
    pub fn delta(&self) -> (d: u64)
        ensures
            d == self.spec_delta(),
    {
        self.delta
    }
}

impl Default for Time {
    /// Same as `Time::new`: anchored at the process clock, zero delta.
    fn default() -> (t: Time)
        ensures
            t.spec_delta() == 0,
    {
        Time::new()
    }
}

/// Relies on std::time::SystemTime::now: the wall clock, in nanoseconds
/// since the epoch, truncated to 64 bits; zero for a reading before the
/// epoch. Nothing further can be promised of a clock reading.
#[verifier::external_body]
fn clock_nanos() -> (r: u64) {
    match std::time::SystemTime::now().duration_since(std::time::UNIX_EPOCH) {
        Ok(d) => d.as_nanos() as u64,
        Err(_) => 0,
    }
}

} // verus!
