//! The RunningRainbow preset: a hue wheel staggered across the strip, advanced
//! one phase per frame, wrapping after 256 frames. Each frame is a pure
//! function of the phase counter and the strip length; the render loop that
//! paces and emits frames lives outside this crate, next to the hardware.

use vstd::prelude::*;

use crate::presets::{PresetKind, PresetSettings};

verus! {

/// Number of animation phases: one frame per phase in `[0, 256)`.
pub const PHASE_COUNT: usize = 256;

/// The three-segment piecewise-linear hue wheel over `pos` in `[0, 255]`.
/// Every intermediate value stays within `0..=255`, so 8-bit arithmetic never
/// truncates.
pub open spec fn wheel_spec(pos: u8) -> (u8, u8, u8) {
    if pos < 85 {
        ((pos * 3) as u8, (255 - pos * 3) as u8, 0u8)
    } else if pos < 170 {
        ((255 - (pos - 85) * 3) as u8, 0u8, ((pos - 85) * 3) as u8)
    } else {
        (0u8, ((pos - 170) * 3) as u8, (255 - (pos - 170) * 3) as u8)
    }
}

/// Hue-wheel position of LED `j` at phase `i`: the hue is staggered across
/// the strip so the pattern appears to travel.
pub open spec fn wheel_pos_spec(j: int, i: int, led_count: int) -> int {
    (j * 256 / led_count + i) % 256
}

/// RGB triple stored at LED slot `j` of a flat strip buffer.
pub open spec fn pixel_at(s: Seq<u8>, j: int) -> (u8, u8, u8) {
    (s[3 * j], s[3 * j + 1], s[3 * j + 2])
}

/// Maps an 8-bit wheel position to an RGB color.
pub fn wheel(wheel_pos: u8) -> (rgb: (u8, u8, u8))
    ensures
        rgb == wheel_spec(wheel_pos),
{
    if wheel_pos < 85 {
        (wheel_pos * 3, 255 - wheel_pos * 3, 0)
    } else if wheel_pos < 170 {
        (255 - (wheel_pos - 85) * 3, 0, (wheel_pos - 85) * 3)
    } else {
        (0, (wheel_pos - 170) * 3, 255 - (wheel_pos - 170) * 3)
    }
}

/// Advances the phase counter, wrapping at the cycle length.
pub fn advance_phase(i: usize) -> (r: usize)
    requires
        i < PHASE_COUNT,
    ensures
        r == (i + 1) % (PHASE_COUNT as int),
{
    if i + 1 == PHASE_COUNT {
        0
    } else {
        i + 1
    }
}

/// The hue-cycling preset variant.
pub struct RunningRainbowPreset {}

impl RunningRainbowPreset {
    /// Number of distinct animation phases before the visible pattern
    /// repeats, as exposed to callers that reason about cycle length.
    pub fn get_scale_state_count() -> (n: u8)
        ensures
            n == 255u8,
    {
        255
    }

    /// Computes one frame: `led_count` RGB triples, flat in LED order, where
    /// LED `j` carries the wheel color at position
    /// `(j * 256 / led_count + i) % 256`.
    pub fn render_frame(i: usize, led_count: usize) -> (strip: Vec<u8>)
        requires
            0 < led_count,
            led_count * 256 <= usize::MAX,
            i < PHASE_COUNT,
        ensures
            strip@.len() == 3 * led_count,
            forall|j: int|
                0 <= j < led_count ==> pixel_at(strip@, j) == wheel_spec(
                    wheel_pos_spec(j, i as int, led_count as int) as u8,
                ),
    {
        let mut strip: Vec<u8> = Vec::new();
        let mut j: usize = 0;
        while j < led_count
            invariant
                j <= led_count,
                0 < led_count,
                led_count * 256 <= usize::MAX,
                i < PHASE_COUNT,
                strip@.len() == 3 * j,
                forall|k: int|
                    0 <= k < j ==> pixel_at(strip@, k) == wheel_spec(
                        wheel_pos_spec(k, i as int, led_count as int) as u8,
                    ),
            decreases led_count - j,
        {
            assert((j as int) * 256 <= (led_count as int) * 256) by (nonlinear_arith)
                requires
                    j < led_count,
            ;
            assert((j as int) * 256 / (led_count as int) < 256) by (nonlinear_arith)
                requires
                    j < led_count && 0 < led_count,
            ;
            let wheel_pos: usize = (j * 256 / led_count + i) % 256;
            let pixel = wheel(wheel_pos as u8);
            let ghost strip0 = strip@;
            strip.push(pixel.0);
            strip.push(pixel.1);
            strip.push(pixel.2);
            assert forall|k: int|
                0 <= k < j + 1 implies pixel_at(strip@, k) == wheel_spec(
                wheel_pos_spec(k, i as int, led_count as int) as u8,
            ) by {
                if k < j {
                    assert(strip@[3 * k] == strip0[3 * k]);
                    assert(strip@[3 * k + 1] == strip0[3 * k + 1]);
                    assert(strip@[3 * k + 2] == strip0[3 * k + 2]);
                    assert(pixel_at(strip0, k) == wheel_spec(
                        wheel_pos_spec(k, i as int, led_count as int) as u8,
                    ));
                } else {
                    assert(pixel_at(strip@, k) == (pixel.0, pixel.1, pixel.2));
                }
            }
            j = j + 1;
        }
        strip
    }
}

impl PresetKind {
    /// Cycle length of the selected variant.
    pub fn scale_state_count(&self) -> (n: u8)
        ensures
            n == 255u8,
    {
        match self {
            PresetKind::RunningRainbow => RunningRainbowPreset::get_scale_state_count(),
        }
    }

    /// One frame of the selected variant. The tunables are accepted by the
    /// capability but the RunningRainbow variant does not consume them; that
    /// is documented behavior, not an omission.
    pub fn render_frame(&self, settings: &PresetSettings, i: usize, led_count: usize) -> (strip:
        Vec<u8>)
        requires
            0 < led_count,
            led_count * 256 <= usize::MAX,
            i < PHASE_COUNT,
        ensures
            strip@.len() == 3 * led_count,
            forall|j: int|
                0 <= j < led_count ==> pixel_at(strip@, j) == wheel_spec(
                    wheel_pos_spec(j, i as int, led_count as int) as u8,
                ),
    {
        let _ = settings;
        match self {
            PresetKind::RunningRainbow => RunningRainbowPreset::render_frame(i, led_count),
        }
    }
}

} // verus!
