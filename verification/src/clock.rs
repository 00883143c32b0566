//! Frame timing: converts a wall-clock frame period into a threshold on a
//! free-running hardware tick counter. The counter itself is hardware; this
//! module holds the arithmetic and the boundary decision.

use vstd::prelude::*;

verus! {

/// Number of hardware ticks in one frame period: `delay_ms * tick_hz / 1000`
/// with integer (floor) division. A zero `delay_ms` yields zero ticks, so a
/// wait on the boundary returns immediately.
pub fn frame_ticks(tick_hz: u64, delay_ms: u64) -> (t: u64)
    requires
        delay_ms * tick_hz <= u64::MAX,
    ensures
        t == delay_ms * tick_hz / 1000,
{
    delay_ms * tick_hz / 1000
}

/// Gates frame emission: holds the tick threshold for one frame period.
/// The caller polls the hardware counter and asks `boundary_reached` until it
/// answers true, then resets the counter to zero and emits the frame.
pub struct FrameClock {
    pub frame_ticks: u64,
}

impl FrameClock {
    /// Starts a clock for the given counter rate and frame period.
    pub fn start(tick_hz: u64, delay_ms: u64) -> (c: FrameClock)
        requires
            delay_ms * tick_hz <= u64::MAX,
        ensures
            c.frame_ticks == delay_ms * tick_hz / 1000,
    {
        FrameClock { frame_ticks: frame_ticks(tick_hz, delay_ms) }
    }

    /// Decides whether the counter has passed the frame boundary. If the
    /// preceding frame already consumed more than a full period, this answers
    /// true at once: cadence is at least one period, never exact.
    pub fn boundary_reached(&self, counter: u64) -> (b: bool)
        ensures
            b == (counter >= self.frame_ticks),
    {
        counter >= self.frame_ticks
    }
}

} // verus!
