//! The noise channel: a linear-feedback shift register clocked at a
//! programmable rate.
use vstd::prelude::*;

use crate::bits::{bit_of, flag_bit, lemma_byte_fields};
use crate::dac::{dac_fifteenths, dac_value};
use crate::envelope::Envelope;

verus! {

/// Registers of the noise channel.
#[derive(Debug, Clone, Copy, PartialEq, Eq, Structural)]
pub enum Register {
    NR41,
    NR42,
    NR43,
    NR44,
}

/// Base divisor for a 3-bit divisor code: 8 for code 0, else 16 times the
/// code.
pub open spec fn divisor_of(code: u8) -> u32 {
    if code == 0 {
        8
    } else {
        (code * 16) as u32
    }
}

/// Cycles between two shifts of the register: the divisor shifted left by
/// the clock shift.
pub open spec fn noise_period(divisor_code: u8, clock_shift: u8) -> u32 {
    divisor_of(divisor_code) << clock_shift
}

/// One shift of the 15-bit register: the XOR of its two low bits goes into
/// bit 14 after the shift, and in 7-bit width mode into bit 6 as well.
pub open spec fn lfsr_step(lfsr: u16, width_mode: u8) -> u16 {
    let bit = (lfsr ^ (lfsr >> 1u16)) & 1;
    let shifted = (lfsr >> 1u16) | (bit << 14u16);
    if width_mode == 1 {
        (bit << 6u16) | (shifted & !0x40u16)
    } else {
        shifted
    }
}

/// The register stays within 15 bits.
pub proof fn lemma_lfsr_step_width(lfsr: u16, width_mode: u8)
    by (bit_vector)
    requires
        lfsr < 0x8000,
    ensures
        lfsr_step(lfsr, width_mode) < 0x8000,
{
}

/// In 7-bit width mode a shift writes the same bit into bits 14 and 6, and
/// the low seven bits move as a 7-bit register of their own, whatever the
/// bits above them hold.
pub proof fn lemma_short_mode_low_bits(lfsr: u16)
    by (bit_vector)
    requires
        lfsr < 0x8000,
    ensures
        (lfsr_step(lfsr, 1) >> 14u16) & 1 == (lfsr_step(lfsr, 1) >> 6u16) & 1,
        lfsr_step(lfsr, 1) & 0x7F == lfsr_step(lfsr & 0x7F, 1) & 0x7F,
{
}

proof fn lemma_noise_period_bound(d: u32, s: u8)
    by (bit_vector)
    requires
        d <= 112,
        s <= 15,
    ensures
        d << s <= 112u32 << 15u32,
{
}

proof fn lemma_inverted_low_bit(lfsr: u16)
    by (bit_vector)
    ensures
        lfsr & 1 == 0 ==> (!lfsr) & 1 == 1,
        lfsr & 1 != 0 ==> (!lfsr) & 1 == 0,
{
}

/// The noise channel.
pub struct Noise {
    /// The channel is generating sound.
    pub enabled: bool,
    /// The DAC is powered; while it is off the channel stays disabled.
    pub dac_enabled: bool,
    /// Cycles left before the next shift of the register.
    pub period: u32,
    /// 4-bit shift applied to the divisor.
    pub clock_shift: u8,
    /// 1 selects the short 7-bit sequence, 0 the full 15-bit one.
    pub width_mode: u8,
    /// 3-bit divisor code.
    pub divisor_code: u8,
    /// The 15-bit linear-feedback shift register.
    pub lfsr: u16,
    /// The length counter is clocked.
    pub length_enabled: bool,
    /// Length ticks left, at most 64.
    pub length_counter: u8,
    pub envelope: Envelope,
}

impl Noise {
    /// Fields stay within their widths, and a channel whose DAC is off is
    /// disabled.
    pub open spec fn wf(&self) -> bool {
        &&& self.clock_shift <= 15
        &&& self.width_mode <= 1
        &&& self.divisor_code <= 7
        &&& self.lfsr < 0x8000
        &&& self.period <= 112u32 << 15u32
        &&& self.length_counter <= 64
        &&& self.envelope.wf()
        &&& (!self.dac_enabled ==> !self.enabled)
    }

    /// Cycles between two shifts at the current settings.
    pub open spec fn current_period(&self) -> u32 {
        noise_period(self.divisor_code, self.clock_shift)
    }

    /// The channel after a trigger: enabled if its DAC is on, length
    /// reloaded to 64 if it had run out, timer reloaded, register set to all
    /// ones and envelope restarted.
    #[verifier::opaque]
    pub open spec fn triggered(self) -> Noise {
        Noise {
            enabled: self.dac_enabled,
            length_counter: if self.length_counter == 0 {
                64
            } else {
                self.length_counter
            },
            period: self.current_period(),
            lfsr: 0x7FFF,
            envelope: self.envelope.restarted(),
            ..self
        }
    }

    /// The channel after `w` is written to register `reg`.
    #[verifier::opaque]
    pub open spec fn written(self, reg: Register, w: u8) -> Noise {
        match reg {
            Register::NR41 => Noise { length_counter: (64 - (w & 0x3F)) as u8, ..self },
            Register::NR42 => Noise {
                envelope: self.envelope.written(w),
                dac_enabled: w >> 3u8 > 0,
                enabled: self.enabled && w >> 3u8 > 0,
                ..self
            },
            Register::NR43 => Noise {
                clock_shift: w >> 4u8,
                width_mode: (w >> 3u8) & 1,
                divisor_code: w & 7,
                ..self
            },
            Register::NR44 => {
                let s = Noise { length_enabled: w & 0x40 > 0, ..self };
                if w & 0x80 > 0 {
                    s.triggered()
                } else {
                    s
                }
            },
        }
    }

    /// What register `reg` reads back, before the unused bits are set.
    #[verifier::opaque]
    pub open spec fn register_value(&self, reg: Register) -> u8 {
        match reg {
            Register::NR41 => 0,
            Register::NR42 => self.envelope.register_value(),
            Register::NR43 => (self.clock_shift << 4u8) | (self.width_mode << 3u8)
                | self.divisor_code,
            Register::NR44 => bit_of(self.length_enabled) << 6u8,
        }
    }

    /// The channel after one length tick: the counter moves only while
    /// length is enabled, and the channel stops when it reaches 0.
    #[verifier::opaque]
    pub open spec fn length_clocked(self) -> Noise {
        if self.length_enabled && self.length_counter > 0 {
            Noise {
                length_counter: (self.length_counter - 1) as u8,
                enabled: self.enabled && self.length_counter > 1,
                ..self
            }
        } else {
            self
        }
    }

    /// The channel after one envelope tick.
    #[verifier::opaque]
    pub open spec fn envelope_clocked(self) -> Noise {
        Noise { envelope: self.envelope.clocked(), ..self }
    }

    /// The channel after one cycle of its frequency timer: the timer counts
    /// down, and on reaching zero reloads and shifts the register once.
    #[verifier::opaque]
    pub open spec fn frequency_clocked(self) -> Noise {
        if self.period > 1 {
            Noise { period: (self.period - 1) as u32, ..self }
        } else {
            Noise {
                period: self.current_period(),
                lfsr: lfsr_step(self.lfsr, self.width_mode),
                ..self
            }
        }
    }

    /// The channel's level before the DAC, in [0, 15]: the envelope volume
    /// while bit 0 of the register is clear and the channel enabled, else 0.
    #[verifier::opaque]
    pub open spec fn level(&self) -> u8 {
        if self.enabled && self.lfsr & 1 == 0 {
            self.envelope.volume
        } else {
            0
        }
    }

    /// The channel's DAC output, in fifteenths of full scale.
    pub open spec fn dac(&self) -> int {
        dac_value(self.dac_enabled, self.level())
    }

    /// The state at hardware reset.
    pub open spec fn is_reset(&self) -> bool {
        &&& !self.enabled
        &&& !self.dac_enabled
        &&& self.period == 0
        &&& self.clock_shift == 0
        &&& self.width_mode == 0
        &&& self.divisor_code == 0
        &&& self.lfsr == 0
        &&& !self.length_enabled
        &&& self.length_counter == 0
        &&& self.envelope == Envelope::new_spec()
    }

    /// A powered-off channel.
    pub fn new() -> (r: Noise)
        ensures
            r.wf(),
            r.is_reset(),
    {
        Noise {
            enabled: false,
            dac_enabled: false,
            period: 0,
            clock_shift: 0,
            width_mode: 0,
            divisor_code: 0,
            lfsr: 0,
            length_enabled: false,
            length_counter: 0,
            envelope: Envelope::new(),
        }
    }

    /// Whether the channel is generating sound.
    pub fn is_enabled(&self) -> (r: bool)
        ensures
            r == self.enabled,
    {
        self.enabled
    }

    /// Whether the channel's DAC is powered.
    pub fn is_dac_enabled(&self) -> (r: bool)
        ensures
            r == self.dac_enabled,
    {
        self.dac_enabled
    }

    /// Reads register `reg`; write-only parts read as 0.
    pub fn read(&self, reg: Register) -> (r: u8)
        ensures
            r == self.register_value(reg),
    {
        proof {
            reveal(Noise::register_value);
        }
        match reg {
            Register::NR41 => 0,
            Register::NR42 => self.envelope.read(),
            Register::NR43 => (self.clock_shift << 4) | (self.width_mode << 3) | self.divisor_code,
            Register::NR44 => flag_bit(self.length_enabled) << 6,
        }
    }

    /// Writes `w` to register `reg`; a write to NR44 with bit 7 set
    /// triggers the channel.
    pub fn write(&mut self, reg: Register, w: u8)
        requires
            old(self).wf(),
        ensures
            final(self).wf(),
            *final(self) == old(self).written(reg, w),
    {
        proof {
            reveal(Noise::written);
            lemma_byte_fields(w);
        }
        match reg {
            Register::NR41 => {
                self.length_counter = 64 - (w & 0x3F);
            },
            Register::NR42 => {
                self.envelope.write(w);
                self.dac_enabled = (w >> 3) > 0;
                if !self.dac_enabled {
                    self.enabled = false;
                }
            },
            Register::NR43 => {
                self.clock_shift = w >> 4;
                self.width_mode = (w >> 3) & 1;
                self.divisor_code = w & 7;
            },
            Register::NR44 => {
                self.length_enabled = (w & 0x40) > 0;
                if (w & 0x80) > 0 {
                    self.trigger();
                }
            },
        }
    }

    /// Cycles between two shifts at the current settings.
    pub fn get_period(&self) -> (r: u32)
        requires
            self.wf(),
        ensures
            r == self.current_period(),
            r <= 112u32 << 15u32,
    {
        let divisor: u32 = match self.divisor_code {
            0 => 8,
            1 => 16,
            2 => 32,
            3 => 48,
            4 => 64,
            5 => 80,
            6 => 96,
            _ => 112,
        };
        proof {
            lemma_noise_period_bound(divisor, self.clock_shift);
        }
        divisor << self.clock_shift
    }

    /// Restarts the channel.
    pub fn trigger(&mut self)
        requires
            old(self).wf(),
        ensures
            final(self).wf(),
            *final(self) == old(self).triggered(),
            final(self).length_counter > 0,
    {
        proof {
            reveal(Noise::triggered);
        }
        self.enabled = self.dac_enabled;
        if self.length_counter == 0 {
            self.length_counter = 64;
        }
        self.period = self.get_period();
        self.lfsr = 0x7FFF;
        self.envelope.restart();
    }

    /// One length tick.
    pub fn clock_length(&mut self)
        requires
            old(self).wf(),
        ensures
            final(self).wf(),
            *final(self) == old(self).length_clocked(),
            !old(self).length_enabled ==> *final(self) == *old(self),
    {
        proof {
            reveal(Noise::length_clocked);
        }
        if self.length_enabled && self.length_counter > 0 {
            self.length_counter -= 1;
            if self.length_counter == 0 {
                self.enabled = false;
            }
        }
    }

    /// One envelope tick.
    pub fn clock_envelope(&mut self)
        requires
            old(self).wf(),
        ensures
            final(self).wf(),
            *final(self) == old(self).envelope_clocked(),
    {
        proof {
            reveal(Noise::envelope_clocked);
        }
        self.envelope.clock();
    }

    /// One cycle of the frequency timer.
    pub fn clock_frequency(&mut self)
        requires
            old(self).wf(),
        ensures
            final(self).wf(),
            *final(self) == old(self).frequency_clocked(),
    {
        proof {
            reveal(Noise::frequency_clocked);
        }
        if self.period > 1 {
            self.period -= 1;
        } else {
            self.period = self.get_period();
            proof {
                lemma_lfsr_step_width(self.lfsr, self.width_mode);
            }
            let bit = (self.lfsr ^ (self.lfsr >> 1)) & 1;
            self.lfsr >>= 1;
            self.lfsr |= bit << 14;
            if self.width_mode == 1 {
                self.lfsr = (bit << 6) | (self.lfsr & !0x40);
            }
        }
    }

    /// The inverse of bit 0 of the register (0 or 1).
    pub fn waveform_output(&self) -> (r: u8)
        ensures
            r == bit_of(self.lfsr & 1 == 0),
    {
        proof {
            lemma_inverted_low_bit(self.lfsr);
        }
        ((!self.lfsr) & 1) as u8
    }

    /// The channel's level before the DAC, in [0, 15].
    pub fn volume_output(&self) -> (r: u8)
        requires
            self.wf(),
        ensures
            r == self.level(),
            r <= 15,
    {
        proof {
            reveal(Noise::level);
        }
        if self.enabled {
            self.waveform_output() * self.envelope.volume
        } else {
            0
        }
    }

    /// The channel's DAC output, in fifteenths of full scale (-15 to 15).
    pub fn dac_level(&self) -> (r: i32)
        requires
            self.wf(),
        ensures
            r == self.dac(),
            -15 <= r <= 15,
    {
        dac_fifteenths(self.dac_enabled, self.volume_output())
    }
}

} // verus!
