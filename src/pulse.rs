//! Square-wave channels; the first of them also sweeps its frequency.
use vstd::prelude::*;

use crate::bits::{bit_of, flag_bit, lemma_byte_fields, lemma_frequency_bytes, lemma_shift_right_le};
use crate::dac::{dac_fifteenths, dac_value};
use crate::envelope::Envelope;

verus! {

/// Registers of the two pulse channels (NR10-NR14 for the first, NR21-NR24
/// for the second).
#[derive(Debug, Clone, Copy, PartialEq, Eq, Structural)]
pub enum Register {
    NR10,
    NR11,
    NR12,
    NR13,
    NR14,
    NR21,
    NR22,
    NR23,
    NR24,
}

/// One of the four eight-step duty waveforms.
#[derive(Debug, Clone, Copy, PartialEq, Eq, Structural)]
pub enum Duty {
    HalfQuarter,
    Quarter,
    Half,
    ThreeQuarters,
}

impl Duty {
    /// The 2-bit code of the duty in the duty/length register.
    pub open spec fn code(self) -> u8 {
        match self {
            Duty::HalfQuarter => 0,
            Duty::Quarter => 1,
            Duty::Half => 2,
            Duty::ThreeQuarters => 3,
        }
    }

    /// Whether the waveform is high at step `idx` (0-7):
    /// 12.5% is high on step 7, 25% on steps 0 and 7, 50% on 0 and 5-7,
    /// 75% on 1-6.
    pub open spec fn is_high(self, idx: u8) -> bool {
        match self {
            Duty::HalfQuarter => idx == 7,
            Duty::Quarter => idx == 0 || idx == 7,
            Duty::Half => idx == 0 || (5 <= idx && idx <= 7),
            Duty::ThreeQuarters => 1 <= idx && idx <= 6,
        }
    }

    /// Decodes a 2-bit duty code; `None` for codes above 3.
    pub fn from_u8(v: u8) -> (r: Option<Duty>)
        ensures
            v <= 3 ==> r is Some && r->0.code() == v,
            v > 3 ==> r is None,
    {
        match v {
            0 => Some(Duty::HalfQuarter),
            1 => Some(Duty::Quarter),
            2 => Some(Duty::Half),
            3 => Some(Duty::ThreeQuarters),
            _ => None,
        }
    }

    /// The 2-bit code of the duty.
    pub fn to_u8(&self) -> (r: u8)
        ensures
            r == self.code(),
    {
        match self {
            Duty::HalfQuarter => 0,
            Duty::Quarter => 1,
            Duty::Half => 2,
            Duty::ThreeQuarters => 3,
        }
    }

    /// The waveform's level (0 or 1) at step `idx`.
    pub fn level(&self, idx: u8) -> (r: u8)
        ensures
            r == bit_of(self.is_high(idx)),
    {
        let high = match self {
            Duty::HalfQuarter => idx == 7,
            Duty::Quarter => idx == 0 || idx == 7,
            Duty::Half => idx == 0 || (5 <= idx && idx <= 7),
            Duty::ThreeQuarters => 1 <= idx && idx <= 6,
        };
        flag_bit(high)
    }
}

/// Direction of an envelope or of a frequency sweep.
#[derive(Debug, Clone, Copy, PartialEq, Eq, Structural)]
pub enum Sweep {
    Decrease,
    Increase,
}

impl Sweep {
    /// The bit that stands for the direction in an envelope register.
    pub open spec fn code(self) -> u8 {
        match self {
            Sweep::Decrease => 0,
            Sweep::Increase => 1,
        }
    }

    /// Decodes an envelope direction bit; `None` for anything but 0 or 1.
    pub fn from_u8(v: u8) -> (r: Option<Sweep>)
        ensures
            v == 0 ==> r == Some(Sweep::Decrease),
            v == 1 ==> r == Some(Sweep::Increase),
            v > 1 ==> r is None,
    {
        match v {
            0 => Some(Sweep::Decrease),
            1 => Some(Sweep::Increase),
            _ => None,
        }
    }

    /// The envelope direction bit of this direction.
    pub fn to_u8(&self) -> (r: u8)
        ensures
            r == self.code(),
    {
        match self {
            Sweep::Decrease => 0,
            Sweep::Increase => 1,
        }
    }
}

/// The duty that a 2-bit code selects.
pub open spec fn duty_of(code: u8) -> Duty {
    match code {
        0 => Duty::HalfQuarter,
        1 => Duty::Quarter,
        2 => Duty::Half,
        _ => Duty::ThreeQuarters,
    }
}

/// Cycles between two duty steps for an 11-bit frequency.
pub open spec fn pulse_period(frequency: u16) -> u16 {
    ((2048 - frequency) * 4) as u16
}

/// A square-wave channel with duty, length counter, volume envelope and
/// (used on the first channel only) frequency sweep.
pub struct Pulse {
    /// The channel is generating sound.
    pub enabled: bool,
    /// The DAC is powered; while it is off the channel stays disabled.
    pub dac_enabled: bool,
    /// Cycles left before the next duty step.
    pub period: u16,
    /// 11-bit frequency value.
    pub frequency: u16,
    pub duty: Duty,
    /// Position (0-7) in the duty waveform.
    pub duty_idx: u8,
    /// The length counter is clocked.
    pub length_enabled: bool,
    /// Length ticks left, at most 64.
    pub length_counter: u8,
    pub envelope: Envelope,
    /// Shift applied to the frequency on each sweep step (0-3).
    pub sweep_shifts: u8,
    pub sweep_direction: Sweep,
    /// Sweep ticks between sweep steps (0-3); 0 turns the sweep off.
    pub sweep_time: u8,
    /// Sweep ticks left before the next sweep step.
    pub sweep_counter: u8,
}

impl Pulse {
    /// Fields stay within their widths, and a channel whose DAC is off is
    /// disabled.
    pub open spec fn wf(&self) -> bool {
        &&& self.frequency < 2048
        &&& self.period <= 8192
        &&& self.duty_idx < 8
        &&& self.length_counter <= 64
        &&& self.envelope.wf()
        &&& self.sweep_shifts <= 3
        &&& self.sweep_time <= 3
        &&& self.sweep_counter <= 3
        &&& (!self.dac_enabled ==> !self.enabled)
    }

    /// The channel after a trigger: enabled if its DAC is on, length
    /// reloaded to 64 if it had run out, timer and envelope restarted.
    /// The sweep carries on from where it was.
    #[verifier::opaque]
    pub open spec fn triggered(self) -> Pulse {
        Pulse {
            enabled: self.dac_enabled,
            length_counter: if self.length_counter == 0 {
                64
            } else {
                self.length_counter
            },
            period: pulse_period(self.frequency),
            envelope: self.envelope.restarted(),
            ..self
        }
    }

    /// The channel after `w` is written to register `reg`:
    /// - NR10: sweep shift in bits 0-1, direction in bit 3 (0 raises the
    ///   frequency), sweep time in bits 6-7;
    /// - NRx1: duty code in bits 6-7, length `64 - (w & 0x3F)`;
    /// - NRx2: envelope; the DAC is on while any of bits 3-7 is set, and
    ///   turning it off disables the channel;
    /// - NRx3: low 8 bits of the frequency;
    /// - NRx4: high 3 bits of the frequency, length enable in bit 6, and a
    ///   trigger when bit 7 is set.
    #[verifier::opaque]
    pub open spec fn written(self, reg: Register, w: u8) -> Pulse {
        match reg {
            Register::NR10 => Pulse {
                sweep_shifts: w & 3,
                sweep_direction: if (w >> 3u8) & 1 == 0 {
                    Sweep::Increase
                } else {
                    Sweep::Decrease
                },
                sweep_time: (w >> 6u8) & 3,
                ..self
            },
            Register::NR11 | Register::NR21 => Pulse {
                duty: duty_of(w >> 6u8),
                length_counter: (64 - (w & 0x3F)) as u8,
                ..self
            },
            Register::NR12 | Register::NR22 => Pulse {
                envelope: self.envelope.written(w),
                dac_enabled: w >> 3u8 > 0,
                enabled: self.enabled && w >> 3u8 > 0,
                ..self
            },
            Register::NR13 | Register::NR23 => Pulse {
                frequency: (self.frequency & 0x0700) | (w as u16),
                ..self
            },
            Register::NR14 | Register::NR24 => {
                let s = Pulse {
                    frequency: (self.frequency & 0x00FF) | (((w & 7) as u16) << 8u16),
                    length_enabled: w & 0x40 > 0,
                    ..self
                };
                if w & 0x80 > 0 {
                    s.triggered()
                } else {
                    s
                }
            },
        }
    }

    /// What register `reg` reads back, before the unused bits are set.
    #[verifier::opaque]
    pub open spec fn register_value(&self, reg: Register) -> u8 {
        match reg {
            Register::NR10 => 0,
            Register::NR11 | Register::NR21 => self.duty.code() << 6u8,
            Register::NR12 | Register::NR22 => self.envelope.register_value(),
            Register::NR13 | Register::NR23 => 0,
            Register::NR14 | Register::NR24 => bit_of(self.length_enabled) << 6u8,
        }
    }

    /// The channel after one length tick: the counter moves only while
    /// length is enabled, and the channel stops when it reaches 0.
    #[verifier::opaque]
    pub open spec fn length_clocked(self) -> Pulse {
        if self.length_enabled && self.length_counter > 0 {
            Pulse {
                length_counter: (self.length_counter - 1) as u8,
                enabled: self.enabled && self.length_counter > 1,
                ..self
            }
        } else {
            self
        }
    }

    /// The channel after one envelope tick.
    #[verifier::opaque]
    pub open spec fn envelope_clocked(self) -> Pulse {
        Pulse { envelope: self.envelope.clocked(), ..self }
    }

    /// The frequency one sweep step computes: `f ± (f >> shifts)`, kept to
    /// the 11 bits of the frequency register.
    pub open spec fn swept_frequency(&self) -> u16 {
        let f = self.frequency;
        let d = f >> self.sweep_shifts;
        match self.sweep_direction {
            Sweep::Increase => ((f + d) % 2048) as u16,
            Sweep::Decrease => (f - d) as u16,
        }
    }

    /// The channel after one sweep tick.
    #[verifier::opaque]
    pub open spec fn sweep_clocked(self) -> Pulse {
        if self.sweep_time == 0 {
            self
        } else if self.sweep_counter > 1 {
            Pulse { sweep_counter: (self.sweep_counter - 1) as u8, ..self }
        } else {
            Pulse { sweep_counter: self.sweep_time, frequency: self.swept_frequency(), ..self }
        }
    }

    /// The channel after one cycle of its frequency timer: the timer counts
    /// down, and on reaching zero reloads and moves to the next duty step.
    #[verifier::opaque]
    pub open spec fn frequency_clocked(self) -> Pulse {
        if self.period > 1 {
            Pulse { period: (self.period - 1) as u16, ..self }
        } else {
            Pulse {
                period: pulse_period(self.frequency),
                duty_idx: ((self.duty_idx + 1) % 8) as u8,
                ..self
            }
        }
    }

    /// The channel's level before the DAC, in [0, 15].
    #[verifier::opaque]
    pub open spec fn level(&self) -> u8 {
        if self.enabled && self.duty.is_high(self.duty_idx) {
            self.envelope.volume
        } else {
            0
        }
    }

    /// The channel's DAC output, in fifteenths of full scale.
    pub open spec fn dac(&self) -> int {
        dac_value(self.dac_enabled, self.level())
    }

    /// The state at hardware reset.
    pub open spec fn is_reset(&self) -> bool {
        &&& !self.enabled
        &&& !self.dac_enabled
        &&& self.frequency == 0
        &&& self.period == 0
        &&& self.duty == Duty::Half
        &&& self.duty_idx == 0
        &&& !self.length_enabled
        &&& self.length_counter == 0
        &&& self.envelope == Envelope::new_spec()
        &&& self.sweep_shifts == 0
        &&& self.sweep_direction == Sweep::Increase
        &&& self.sweep_time == 0
        &&& self.sweep_counter == 0
    }

    /// A powered-off channel.
    pub fn new() -> (r: Pulse)
        ensures
            r.wf(),
            r.is_reset(),
    {
        Pulse {
            enabled: false,
            dac_enabled: false,
            period: 0,
            frequency: 0,
            duty: Duty::Half,
            duty_idx: 0,
            length_enabled: false,
            length_counter: 0,
            envelope: Envelope::new(),
            sweep_shifts: 0,
            sweep_direction: Sweep::Increase,
            sweep_time: 0,
            sweep_counter: 0,
        }
    }

    /// Whether the channel is generating sound.
    pub fn is_enabled(&self) -> (r: bool)
        ensures
            r == self.enabled,
    {
        self.enabled
    }

    /// Whether the channel's DAC is powered.
    pub fn is_dac_enabled(&self) -> (r: bool)
        ensures
            r == self.dac_enabled,
    {
        self.dac_enabled
    }

    /// Reads register `reg`; write-only parts read as 0.
    pub fn read(&self, reg: Register) -> (r: u8)
        ensures
            r == self.register_value(reg),
    {
        proof {
            reveal(Pulse::register_value);
        }
        match reg {
            Register::NR10 => 0,
            Register::NR11 | Register::NR21 => self.duty.to_u8() << 6,
            Register::NR12 | Register::NR22 => self.envelope.read(),
            Register::NR13 | Register::NR23 => 0,
            Register::NR14 | Register::NR24 => flag_bit(self.length_enabled) << 6,
        }
    }

    /// Writes `w` to register `reg`; a write to NRx4 with bit 7 set
    /// triggers the channel.
    pub fn write(&mut self, reg: Register, w: u8)
        requires
            old(self).wf(),
        ensures
            final(self).wf(),
            *final(self) == old(self).written(reg, w),
    {
        proof {
            reveal(Pulse::written);
            lemma_byte_fields(w);
            lemma_frequency_bytes(self.frequency, w);
        }
        match reg {
            Register::NR10 => {
                self.sweep_shifts = w & 3;
                self.sweep_direction = if (w >> 3) & 1 == 0 {
                    Sweep::Increase
                } else {
                    Sweep::Decrease
                };
                self.sweep_time = (w >> 6) & 3;
            },
            Register::NR11 | Register::NR21 => {
                self.duty = Duty::from_u8(w >> 6).unwrap();
                self.length_counter = 64 - (w & 0x3F);
            },
            Register::NR12 | Register::NR22 => {
                self.envelope.write(w);
                self.dac_enabled = (w >> 3) > 0;
                if !self.dac_enabled {
                    self.enabled = false;
                }
            },
            Register::NR13 | Register::NR23 => {
                self.frequency = (self.frequency & 0x0700) | (w as u16);
            },
            Register::NR14 | Register::NR24 => {
                self.frequency = (self.frequency & 0x00FF) | (((w & 7) as u16) << 8);
                self.length_enabled = (w & 0x40) > 0;
                if (w & 0x80) > 0 {
                    self.trigger();
                }
            },
        }
    }

    /// Restarts the channel.
    pub fn trigger(&mut self)
        requires
            old(self).wf(),
        ensures
            final(self).wf(),
            *final(self) == old(self).triggered(),
            final(self).length_counter > 0,
    {
        proof {
            reveal(Pulse::triggered);
        }
        self.enabled = self.dac_enabled;
        if self.length_counter == 0 {
            self.length_counter = 64;
        }
        self.period = (2048 - self.frequency) * 4;
        self.envelope.restart();
    }

    /// One length tick.
    pub fn clock_length(&mut self)
        requires
            old(self).wf(),
        ensures
            final(self).wf(),
            *final(self) == old(self).length_clocked(),
            !old(self).length_enabled ==> *final(self) == *old(self),
    {
        proof {
            reveal(Pulse::length_clocked);
        }
        if self.length_enabled && self.length_counter > 0 {
            self.length_counter -= 1;
            if self.length_counter == 0 {
                self.enabled = false;
            }
        }
    }

    /// One envelope tick.
    pub fn clock_envelope(&mut self)
        requires
            old(self).wf(),
        ensures
            final(self).wf(),
            *final(self) == old(self).envelope_clocked(),
    {
        proof {
            reveal(Pulse::envelope_clocked);
        }
        self.envelope.clock();
    }

    /// One sweep tick.
    pub fn clock_sweep(&mut self)
        requires
            old(self).wf(),
        ensures
            final(self).wf(),
            *final(self) == old(self).sweep_clocked(),
    {
        proof {
            reveal(Pulse::sweep_clocked);
        }
        if self.sweep_time == 0 {
            return ;
        }
        if self.sweep_counter > 1 {
            self.sweep_counter -= 1;
        } else {
            self.sweep_counter = self.sweep_time;
            let f = self.frequency;
            proof {
                lemma_shift_right_le(f, self.sweep_shifts);
            }
            let d = f >> self.sweep_shifts;
            self.frequency = match self.sweep_direction {
                Sweep::Increase => (f + d) % 2048,
                Sweep::Decrease => f - d,
            };
        }
    }

    /// One cycle of the frequency timer.
    pub fn clock_frequency(&mut self)
        requires
            old(self).wf(),
        ensures
            final(self).wf(),
            *final(self) == old(self).frequency_clocked(),
    {
        proof {
            reveal(Pulse::frequency_clocked);
        }
        if self.period > 1 {
            self.period -= 1;
        } else {
            self.period = (2048 - self.frequency) * 4;
            self.duty_idx = (self.duty_idx + 1) % 8;
        }
    }

    /// The duty waveform's level (0 or 1) at the current step.
    pub fn waveform_output(&self) -> (r: u8)
        ensures
            r == bit_of(self.duty.is_high(self.duty_idx)),
    {
        self.duty.level(self.duty_idx)
    }

    /// The channel's level before the DAC, in [0, 15]: the envelope volume
    /// while the waveform is high and the channel enabled, else 0.
    pub fn volume_output(&self) -> (r: u8)
        requires
            self.wf(),
        ensures
            r == self.level(),
            r <= 15,
    {
        proof {
            reveal(Pulse::level);
        }
        if self.enabled {
            self.waveform_output() * self.envelope.volume
        } else {
            0
        }
    }

    /// The channel's DAC output, in fifteenths of full scale (-15 to 15).
    pub fn dac_level(&self) -> (r: i32)
        requires
            self.wf(),
        ensures
            r == self.dac(),
            -15 <= r <= 15,
    {
        dac_fifteenths(self.dac_enabled, self.volume_output())
    }
}

} // verus!
