//! Fixed-timestep pacing: wall-clock time goes into an accumulator, and one
//! logical frame is consumed whenever more than a frame's duration has
//! accumulated, so the simulation rate is independent of the render rate.
use vstd::prelude::*;

verus! {

/// Nominal duration of one logical frame, a sixtieth of a second in
/// nanoseconds.
pub const FRAME_DURATION_NANOS: u64 = 16_666_666;

/// Frame duration inflated by a tenth, used while this peer runs ahead of its
/// prediction window so that it slows down and lets the other peer catch up.
pub const INFLATED_FRAME_DURATION_NANOS: u64 = FRAME_DURATION_NANOS * 11 / 10;

/// The duration one logical frame should take, given how many frames this
/// peer is ahead of the confirmed inputs.
pub fn frame_duration_nanos(frames_ahead: i32) -> (r: u64)
    ensures
        r == (if frames_ahead > 0 {
            INFLATED_FRAME_DURATION_NANOS
        } else {
            FRAME_DURATION_NANOS
        }),
{
    if frames_ahead > 0 {
        INFLATED_FRAME_DURATION_NANOS
    } else {
        FRAME_DURATION_NANOS
    }
}

/// The accumulator of the fixed-timestep loop.
#[derive(Clone, Copy, PartialEq, Eq, Structural, Debug)]
pub struct Pacer {
    /// Wall-clock time received and not yet consumed by logical frames.
    pub accumulator_nanos: u64,
}

impl Pacer {
    /// A pacer with an empty accumulator.
    pub fn new() -> (r: Pacer)
        ensures
            r.accumulator_nanos == 0,
    {
        Pacer { accumulator_nanos: 0 }
    }

    /// Empty the accumulator, as when a new session starts.
    pub fn reset(&mut self)
        ensures
            final(self).accumulator_nanos == 0,
    {
        self.accumulator_nanos = 0;
    }

    /// Add elapsed wall-clock time to the accumulator, saturating at the
    /// largest representable value.
    pub fn record_elapsed(&mut self, delta_nanos: u64)
        ensures
            old(self).accumulator_nanos + delta_nanos <= u64::MAX ==> final(self).accumulator_nanos
                == old(self).accumulator_nanos + delta_nanos,
            old(self).accumulator_nanos + delta_nanos > u64::MAX ==> final(self).accumulator_nanos
                == u64::MAX,
    {
        if delta_nanos <= u64::MAX - self.accumulator_nanos {
            self.accumulator_nanos = self.accumulator_nanos + delta_nanos;
        } else {
            self.accumulator_nanos = u64::MAX;
        }
    }

    /// Consume one logical frame if strictly more than one frame's duration
    /// has accumulated; report whether a frame was consumed.
    pub fn try_consume_frame(&mut self, frame_nanos: u64) -> (stepped: bool)
        ensures
            stepped == (old(self).accumulator_nanos > frame_nanos),
            stepped ==> final(self).accumulator_nanos == old(self).accumulator_nanos - frame_nanos,
            !stepped ==> final(self).accumulator_nanos == old(self).accumulator_nanos,
    {
        if self.accumulator_nanos > frame_nanos {
            self.accumulator_nanos = self.accumulator_nanos - frame_nanos;
            true
        } else {
            false
        }
    }
}

} // verus!
