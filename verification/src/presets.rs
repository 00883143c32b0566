//! Preset abstraction: per-preset tunables and the registry that maps a small
//! integer identifier to a preset variant. The variant set is closed and
//! compile-time known, so dispatch is a single match on a tagged variant.

use vstd::prelude::*;

verus! {

/// Per-preset tunables. Each is an opaque knob in `0..=255`; a preset is
/// permitted to ignore any of them.
#[derive(Clone, Copy, Debug, PartialEq, Eq, Structural)]
pub struct PresetSettings {
    pub brightness: u8,
    pub speed: u8,
    pub scale: u8,
}

impl Default for PresetSettings {
    /// The midpoint of the range for all three knobs.
    fn default() -> (d: Self)
        ensures
            d == (PresetSettings { brightness: 127u8, speed: 127u8, scale: 127u8 }),
    {
        Self { brightness: u8::MAX / 2, speed: u8::MAX / 2, scale: u8::MAX / 2 }
    }
}

/// The closed set of preset variants.
#[derive(Clone, Copy, Debug, PartialEq, Eq, Structural)]
pub enum PresetKind {
    RunningRainbow,
}

/// Registry lookup. Exactly one identifier (0) is registered; any other
/// identifier is absent and the caller must treat that as a configuration
/// error, never substitute a default.
pub fn get_preset_by_id(id: &u16) -> (r: Option<PresetKind>)
    ensures
        *id == 0 ==> r == Some(PresetKind::RunningRainbow),
        *id != 0 ==> r is None,
{
    match *id {
        0u16 => Some(PresetKind::RunningRainbow),
        _ => None,
    }
}

} // verus!
