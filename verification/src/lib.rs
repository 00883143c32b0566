//! Core logic of an addressable-LED controller: frame timing, preset
//! rendering, the preset registry, wireless configuration decisions, and the
//! persisted-settings binary codec. Hardware access (timer, LED transmission,
//! the non-volatile store, the wireless stack) lives outside this crate.

use vstd::prelude::*;

pub mod clock;
pub mod error;
pub mod presets;
pub mod running_rainbow;
pub mod settings;
pub mod wifi;

verus! {

/// Number of preset slots in the persisted settings record.
pub const PRESET_COUNT: usize = 2;

/// Nominal frame period in milliseconds.
pub const TIMER_DELAY: u64 = 10;

/// Number of LEDs on the strip this firmware drives.
pub const LED_COUNT: usize = 18;

} // verus!
