//! The stereo mixer: per-channel left/right routing and master volume.
use vstd::prelude::*;

use crate::bits::{bit_of, flag_bit, lemma_byte_fields};

verus! {

/// `Mixer::scaled` gives each side in this many parts of full scale: a
/// channel contributes fifteenths, and a master volume code `v` scales by
/// `(v + 1) / 8`.
pub const OUTPUT_DENOMINATOR: i32 = 120;

/// A channel's contribution to one side of the mix.
#[verifier::opaque]
pub open spec fn routed(on: bool, dac: int) -> int {
    if on {
        dac
    } else {
        0
    }
}

/// A channel's DAC output if it is routed to a side, else 0.
fn routed_level(on: bool, dac: i32) -> (r: i32)
    requires
        -15 <= dac <= 15,
    ensures
        r == routed(on, dac as int),
        -15 <= r <= 15,
{
    proof {
        reveal(routed);
    }
    if on {
        dac
    } else {
        0
    }
}

/// The sum of four channel outputs, each counted where it is routed.
fn routed_sum(
    on1: bool,
    dac1: i32,
    on2: bool,
    dac2: i32,
    on3: bool,
    dac3: i32,
    on4: bool,
    dac4: i32,
) -> (r: i32)
    requires
        -15 <= dac1 <= 15,
        -15 <= dac2 <= 15,
        -15 <= dac3 <= 15,
        -15 <= dac4 <= 15,
    ensures
        r == routed(on1, dac1 as int) + routed(on2, dac2 as int) + routed(on3, dac3 as int)
            + routed(on4, dac4 as int),
        -60 <= r <= 60,
{
    let x1 = routed_level(on1, dac1);
    let x2 = routed_level(on2, dac2);
    let x3 = routed_level(on3, dac3);
    let x4 = routed_level(on4, dac4);
    x1 + x2 + x3 + x4
}

/// Routing of the four channels to the two sides, and the master volume of
/// each side.
pub struct Mixer {
    pub left_enable_pulse1: bool,
    pub left_enable_pulse2: bool,
    pub left_enable_wave: bool,
    pub left_enable_noise: bool,
    pub right_enable_pulse1: bool,
    pub right_enable_pulse2: bool,
    pub right_enable_wave: bool,
    pub right_enable_noise: bool,
    /// Left master volume code (0-7).
    pub left_volume: u8,
    /// Right master volume code (0-7).
    pub right_volume: u8,
}

impl Mixer {
    /// The master volumes are 3-bit codes.
    pub open spec fn wf(&self) -> bool {
        self.left_volume <= 7 && self.right_volume <= 7
    }

    /// The master volume register (0xFF24): left code in bits 4-6, right
    /// code in bits 0-2.
    pub open spec fn volume_byte(&self) -> u8 {
        (self.left_volume << 4u8) | self.right_volume
    }

    /// The routing register (0xFF25): right enables in bits 4-7, left in
    /// bits 0-3, each in the order pulse 1, pulse 2, wave, noise.
    pub open spec fn routing_byte(&self) -> u8 {
        (bit_of(self.right_enable_noise) << 7u8) | (bit_of(self.right_enable_wave) << 6u8) | (
        bit_of(self.right_enable_pulse2) << 5u8) | (bit_of(self.right_enable_pulse1) << 4u8) | (
        bit_of(self.left_enable_noise) << 3u8) | (bit_of(self.left_enable_wave) << 2u8) | (
        bit_of(self.left_enable_pulse2) << 1u8) | bit_of(self.left_enable_pulse1)
    }

    /// The mixer after `w` is written to the master volume register.
    pub open spec fn volume_written(self, w: u8) -> Mixer {
        Mixer { left_volume: (w >> 4u8) & 7, right_volume: w & 7, ..self }
    }

    /// The mixer after `w` is written to the routing register.
    pub open spec fn routing_written(self, w: u8) -> Mixer {
        Mixer {
            right_enable_noise: w & 0x80 != 0,
            right_enable_wave: w & 0x40 != 0,
            right_enable_pulse2: w & 0x20 != 0,
            right_enable_pulse1: w & 0x10 != 0,
            left_enable_noise: w & 0x08 != 0,
            left_enable_wave: w & 0x04 != 0,
            left_enable_pulse2: w & 0x02 != 0,
            left_enable_pulse1: w & 0x01 != 0,
            ..self
        }
    }

    /// The left sum of the given channel outputs.
    pub open spec fn left_mix(&self, pulse1: int, pulse2: int, wave: int, noise: int) -> int {
        routed(self.left_enable_pulse1, pulse1) + routed(self.left_enable_pulse2, pulse2) + routed(
            self.left_enable_wave,
            wave,
        ) + routed(self.left_enable_noise, noise)
    }

    /// The right sum of the given channel outputs.
    pub open spec fn right_mix(&self, pulse1: int, pulse2: int, wave: int, noise: int) -> int {
        routed(self.right_enable_pulse1, pulse1) + routed(self.right_enable_pulse2, pulse2)
            + routed(self.right_enable_wave, wave) + routed(self.right_enable_noise, noise)
    }

    /// Nothing routed, both master volumes at code 0.
    pub fn new() -> (r: Mixer)
        ensures
            r.wf(),
            !r.left_enable_pulse1 && !r.left_enable_pulse2 && !r.left_enable_wave
                && !r.left_enable_noise,
            !r.right_enable_pulse1 && !r.right_enable_pulse2 && !r.right_enable_wave
                && !r.right_enable_noise,
            r.left_volume == 0,
            r.right_volume == 0,
    {
        Mixer {
            left_enable_pulse1: false,
            left_enable_pulse2: false,
            left_enable_wave: false,
            left_enable_noise: false,
            right_enable_pulse1: false,
            right_enable_pulse2: false,
            right_enable_wave: false,
            right_enable_noise: false,
            left_volume: 0,
            right_volume: 0,
        }
    }

    /// Reads the master volume register.
    pub fn read_volume(&self) -> (r: u8)
        ensures
            r == self.volume_byte(),
    {
        (self.left_volume << 4) | self.right_volume
    }

    /// Reads the routing register.
    pub fn read_routing(&self) -> (r: u8)
        ensures
            r == self.routing_byte(),
    {
        (flag_bit(self.right_enable_noise) << 7) | (flag_bit(self.right_enable_wave) << 6) | (
        flag_bit(self.right_enable_pulse2) << 5) | (flag_bit(self.right_enable_pulse1) << 4) | (
        flag_bit(self.left_enable_noise) << 3) | (flag_bit(self.left_enable_wave) << 2) | (
        flag_bit(self.left_enable_pulse2) << 1) | flag_bit(self.left_enable_pulse1)
    }

    /// Writes the master volume register.
    pub fn write_volume(&mut self, w: u8)
        ensures
            final(self).wf(),
            *final(self) == old(self).volume_written(w),
    {
        proof {
            lemma_byte_fields(w);
        }
        self.left_volume = (w >> 4) & 7;
        self.right_volume = w & 7;
    }

    /// Writes the routing register.
    pub fn write_routing(&mut self, w: u8)
        ensures
            final(self).left_volume == old(self).left_volume,
            final(self).right_volume == old(self).right_volume,
            *final(self) == old(self).routing_written(w),
    {
        self.right_enable_noise = (w & 0x80) != 0;
        self.right_enable_wave = (w & 0x40) != 0;
        self.right_enable_pulse2 = (w & 0x20) != 0;
        self.right_enable_pulse1 = (w & 0x10) != 0;
        self.left_enable_noise = (w & 0x08) != 0;
        self.left_enable_wave = (w & 0x04) != 0;
        self.left_enable_pulse2 = (w & 0x02) != 0;
        self.left_enable_pulse1 = (w & 0x01) != 0;
    }

    /// Sums the routed channel outputs (each in fifteenths of full scale,
    /// -15 to 15) on each side. No clipping is applied.
    pub fn mix(&self, pulse1: i32, pulse2: i32, wave: i32, noise: i32) -> (r: (i32, i32))
        requires
            -15 <= pulse1 <= 15,
            -15 <= pulse2 <= 15,
            -15 <= wave <= 15,
            -15 <= noise <= 15,
        ensures
            r.0 == self.left_mix(pulse1 as int, pulse2 as int, wave as int, noise as int),
            r.1 == self.right_mix(pulse1 as int, pulse2 as int, wave as int, noise as int),
            -60 <= r.0 <= 60,
            -60 <= r.1 <= 60,
    {
        let left = routed_sum(
            self.left_enable_pulse1,
            pulse1,
            self.left_enable_pulse2,
            pulse2,
            self.left_enable_wave,
            wave,
            self.left_enable_noise,
            noise,
        );
        let right = routed_sum(
            self.right_enable_pulse1,
            pulse1,
            self.right_enable_pulse2,
            pulse2,
            self.right_enable_wave,
            wave,
            self.right_enable_noise,
            noise,
        );
        (left, right)
    }

    /// Scales each side of a mix by its master volume, `(code + 1) / 8`;
    /// the result is in parts of `OUTPUT_DENOMINATOR` of full scale.
    pub fn scaled(&self, left: i32, right: i32) -> (r: (i32, i32))
        requires
            self.wf(),
            -60 <= left <= 60,
            -60 <= right <= 60,
        ensures
            r.0 == left * (self.left_volume + 1),
            r.1 == right * (self.right_volume + 1),
    {
        let lv = self.left_volume as i32 + 1;
        let rv = self.right_volume as i32 + 1;
        proof {
            assert(-480 <= left * lv <= 480) by (nonlinear_arith)
                requires
                    -60 <= left <= 60,
                    1 <= lv <= 8,
            ;
            assert(-480 <= right * rv <= 480) by (nonlinear_arith)
                requires
                    -60 <= right <= 60,
                    1 <= rv <= 8,
            ;
        }
        (left * lv, right * rv)
    }
}

} // verus!
