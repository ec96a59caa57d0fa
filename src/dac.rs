//! The linear DAC model shared by the four channels.
//!
//! A channel's DAC maps its 4-bit level `v` to `v / 7.5 - 1` in [-1, 1]
//! while powered, and to 0 while off. Levels here are kept exact as whole
//! fifteenths of full scale: `2 * v - 15`.
use vstd::prelude::*;

verus! {

/// The DAC output for `level`, in fifteenths of full scale.
pub open spec fn dac_value(dac_enabled: bool, level: u8) -> int {
    if dac_enabled {
        2 * level - 15
    } else {
        0
    }
}

/// The DAC output for `level` (0-15), in fifteenths of full scale.
pub fn dac_fifteenths(dac_enabled: bool, level: u8) -> (r: i32)
    requires
        level <= 15,
    ensures
        r == dac_value(dac_enabled, level),
        -15 <= r <= 15,
{
    if dac_enabled {
        2 * (level as i32) - 15
    } else {
        0
    }
}

} // verus!
