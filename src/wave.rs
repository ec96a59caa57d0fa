//! The wave-table channel: 32 four-bit samples played back at a set rate.
use vstd::prelude::*;

use crate::bits::{bit_of, flag_bit, lemma_byte_fields, lemma_frequency_bytes, lemma_sample_shift};
use crate::dac::{dac_fifteenths, dac_value};

verus! {

/// Registers of the wave channel.
#[derive(Debug, Clone, Copy, PartialEq, Eq, Structural)]
pub enum Register {
    NR30,
    NR31,
    NR32,
    NR33,
    NR34,
}

/// The 2-bit output level code of the wave channel. The code is used
/// directly as the right shift applied to each sample, so `Zero` plays at
/// full level and `Quarter` is shifted by 3.
#[derive(Debug, Clone, Copy, PartialEq, Eq, Structural)]
pub enum Volume {
    Zero,
    Full,
    Half,
    Quarter,
}

impl Volume {
    /// The 2-bit code, which is also the right shift applied to samples.
    pub open spec fn code(self) -> u8 {
        match self {
            Volume::Zero => 0,
            Volume::Full => 1,
            Volume::Half => 2,
            Volume::Quarter => 3,
        }
    }

    /// Decodes a 2-bit volume code; `None` for codes above 3.
    pub fn from_u8(v: u8) -> (r: Option<Volume>)
        ensures
            v <= 3 ==> r is Some && r->0.code() == v,
            v > 3 ==> r is None,
    {
        match v {
            0 => Some(Volume::Zero),
            1 => Some(Volume::Full),
            2 => Some(Volume::Half),
            3 => Some(Volume::Quarter),
            _ => None,
        }
    }

    /// The 2-bit code of the volume.
    pub fn to_u8(&self) -> (r: u8)
        ensures
            r == self.code(),
    {
        match self {
            Volume::Zero => 0,
            Volume::Full => 1,
            Volume::Half => 2,
            Volume::Quarter => 3,
        }
    }
}

/// The volume that a 2-bit code selects.
pub open spec fn volume_of(code: u8) -> Volume {
    match code {
        0 => Volume::Zero,
        1 => Volume::Full,
        2 => Volume::Half,
        _ => Volume::Quarter,
    }
}

/// Cycles between two samples for an 11-bit frequency.
pub open spec fn wave_period(frequency: u16) -> u16 {
    ((2048 - frequency) * 2) as u16
}

/// Sample `i` (0-31) of wave RAM: the high nibble of each byte comes first,
/// then its low nibble.
pub open spec fn nibble_at(samples: Seq<u8>, i: int) -> u8 {
    if i % 2 == 0 {
        samples[i / 2] >> 4u8
    } else {
        samples[i / 2] & 0x0F
    }
}

/// The wave-table channel.
pub struct Wave {
    /// The channel is generating sound.
    pub enabled: bool,
    /// The DAC is powered; while it is off the channel stays disabled.
    pub dac_enabled: bool,
    /// Cycles left before the next sample.
    pub period: u16,
    /// 11-bit frequency value.
    pub frequency: u16,
    /// The length counter is clocked.
    pub length_enabled: bool,
    /// Length ticks left, at most 256.
    pub length_counter: u16,
    pub volume: Volume,
    /// Wave RAM: 32 packed 4-bit samples.
    pub samples: [u8; 16],
    /// Index (0-31) of the sample being played.
    pub sample_nibble: usize,
    /// The last sample fetched from wave RAM.
    pub sample_buffer: u8,
}

impl Wave {
    /// Fields stay within their widths, and a channel whose DAC is off is
    /// disabled.
    pub open spec fn wf(&self) -> bool {
        &&& self.frequency < 2048
        &&& self.period <= 4096
        &&& self.length_counter <= 256
        &&& self.sample_nibble < 32
        &&& self.sample_buffer <= 15
        &&& (!self.dac_enabled ==> !self.enabled)
    }

    /// The channel after a trigger: enabled if its DAC is on, length
    /// reloaded to 256 if it had run out, timer reloaded and playback moved
    /// to the first sample. The sample buffer is not refetched.
    #[verifier::opaque]
    pub open spec fn triggered(self) -> Wave {
        Wave {
            enabled: self.dac_enabled,
            length_counter: if self.length_counter == 0 {
                256
            } else {
                self.length_counter
            },
            period: wave_period(self.frequency),
            sample_nibble: 0,
            ..self
        }
    }

    /// The channel after `w` is written to register `reg`.
    #[verifier::opaque]
    pub open spec fn written(self, reg: Register, w: u8) -> Wave {
        match reg {
            Register::NR30 => Wave {
                dac_enabled: w >> 7u8 > 0,
                enabled: self.enabled && w >> 7u8 > 0,
                ..self
            },
            Register::NR31 => Wave { length_counter: (256 - w) as u16, ..self },
            Register::NR32 => Wave { volume: volume_of((w >> 5u8) & 3), ..self },
            Register::NR33 => Wave { frequency: (self.frequency & 0x0700) | (w as u16), ..self },
            Register::NR34 => {
                let s = Wave {
                    frequency: (self.frequency & 0x00FF) | (((w & 7) as u16) << 8u16),
                    length_enabled: w & 0x40 > 0,
                    ..self
                };
                if w & 0x80 > 0 {
                    s.triggered()
                } else {
                    s
                }
            },
        }
    }

    /// What register `reg` reads back, before the unused bits are set.
    /// Bit 7 of the power register reads whether the channel is on: a write
    /// that powers the DAC does not turn the channel on before a trigger.
    #[verifier::opaque]
    pub open spec fn register_value(&self, reg: Register) -> u8 {
        match reg {
            Register::NR30 => bit_of(self.enabled) << 7u8,
            Register::NR31 => 0,
            Register::NR32 => self.volume.code() << 5u8,
            Register::NR33 => 0,
            Register::NR34 => bit_of(self.length_enabled) << 6u8,
        }
    }

    /// The channel after one length tick: the counter moves only while
    /// length is enabled, and the channel stops when it reaches 0.
    #[verifier::opaque]
    pub open spec fn length_clocked(self) -> Wave {
        if self.length_enabled && self.length_counter > 0 {
            Wave {
                length_counter: (self.length_counter - 1) as u16,
                enabled: self.enabled && self.length_counter > 1,
                ..self
            }
        } else {
            self
        }
    }

    /// The channel after one cycle of its frequency timer: the timer counts
    /// down, and on reaching zero reloads, moves to the next sample and
    /// fetches it into the sample buffer.
    #[verifier::opaque]
    pub open spec fn frequency_clocked(self) -> Wave {
        if self.period > 1 {
            Wave { period: (self.period - 1) as u16, ..self }
        } else {
            let next = (self.sample_nibble + 1) % 32;
            Wave {
                period: wave_period(self.frequency),
                sample_nibble: next as usize,
                sample_buffer: nibble_at(self.samples@, next as int),
                ..self
            }
        }
    }

    /// The channel's level before the DAC, in [0, 15]: the buffered sample
    /// shifted right by the volume code while the channel is enabled.
    #[verifier::opaque]
    pub open spec fn level(&self) -> u8 {
        if self.enabled {
            self.sample_buffer >> self.volume.code()
        } else {
            0
        }
    }

    /// The channel's DAC output, in fifteenths of full scale.
    pub open spec fn dac(&self) -> int {
        dac_value(self.dac_enabled, self.level())
    }

    /// The state at hardware reset.
    pub open spec fn is_reset(&self) -> bool {
        &&& !self.enabled
        &&& !self.dac_enabled
        &&& self.period == 0
        &&& self.frequency == 0
        &&& !self.length_enabled
        &&& self.length_counter == 0
        &&& self.volume == Volume::Zero
        &&& forall|i: int| 0 <= i < 16 ==> self.samples@[i] == 0
        &&& self.sample_nibble == 0
        &&& self.sample_buffer == 0
    }

    /// A powered-off channel with cleared wave RAM.
    pub fn new() -> (r: Wave)
        ensures
            r.wf(),
            r.is_reset(),
    {
        Wave {
            enabled: false,
            dac_enabled: false,
            period: 0,
            frequency: 0,
            length_enabled: false,
            length_counter: 0,
            volume: Volume::Zero,
            samples: [0u8; 16],
            sample_nibble: 0,
            sample_buffer: 0,
        }
    }

    /// Whether the channel is generating sound.
    pub fn is_enabled(&self) -> (r: bool)
        ensures
            r == self.enabled,
    {
        self.enabled
    }

    /// Whether the channel's DAC is powered.
    pub fn is_dac_enabled(&self) -> (r: bool)
        ensures
            r == self.dac_enabled,
    {
        self.dac_enabled
    }

    /// Reads register `reg`; write-only parts read as 0.
    pub fn read(&self, reg: Register) -> (r: u8)
        ensures
            r == self.register_value(reg),
    {
        proof {
            reveal(Wave::register_value);
        }
        match reg {
            Register::NR30 => flag_bit(self.enabled) << 7,
            Register::NR31 => 0,
            Register::NR32 => self.volume.to_u8() << 5,
            Register::NR33 => 0,
            Register::NR34 => flag_bit(self.length_enabled) << 6,
        }
    }

    /// Writes `w` to register `reg`; a write to NR34 with bit 7 set
    /// triggers the channel.
    pub fn write(&mut self, reg: Register, w: u8)
        requires
            old(self).wf(),
        ensures
            final(self).wf(),
            *final(self) == old(self).written(reg, w),
            final(self).sample_buffer == old(self).sample_buffer,
    {
        proof {
            reveal(Wave::written);
            lemma_byte_fields(w);
            lemma_frequency_bytes(self.frequency, w);
        }
        match reg {
            Register::NR30 => {
                self.dac_enabled = (w >> 7) > 0;
                if !self.dac_enabled {
                    self.enabled = false;
                }
            },
            Register::NR31 => {
                self.length_counter = 256 - (w as u16);
            },
            Register::NR32 => {
                self.volume = Volume::from_u8((w >> 5) & 3).unwrap();
            },
            Register::NR33 => {
                self.frequency = (self.frequency & 0x0700) | (w as u16);
            },
            Register::NR34 => {
                self.frequency = (self.frequency & 0x00FF) | (((w & 7) as u16) << 8);
                self.length_enabled = (w & 0x40) > 0;
                if (w & 0x80) > 0 {
                    self.trigger();
                }
            },
        }
    }

    /// Stores byte `w` (two samples) at index `idx` of wave RAM.
    pub fn write_sample(&mut self, idx: u16, w: u8)
        requires
            old(self).wf(),
            idx < 16,
        ensures
            final(self).wf(),
            final(self).samples@ == old(self).samples@.update(idx as int, w),
            *final(self) == (Wave { samples: final(self).samples, ..*old(self) }),
    {
        self.samples[idx as usize] = w;
    }

    /// Restarts the channel.
    pub fn trigger(&mut self)
        requires
            old(self).wf(),
        ensures
            final(self).wf(),
            *final(self) == old(self).triggered(),
            final(self).length_counter > 0,
            final(self).sample_buffer == old(self).sample_buffer,
    {
        proof {
            reveal(Wave::triggered);
        }
        self.enabled = self.dac_enabled;
        if self.length_counter == 0 {
            self.length_counter = 256;
        }
        self.period = (2048 - self.frequency) * 2;
        self.sample_nibble = 0;
    }

    /// One length tick.
    pub fn clock_length(&mut self)
        requires
            old(self).wf(),
        ensures
            final(self).wf(),
            *final(self) == old(self).length_clocked(),
            !old(self).length_enabled ==> *final(self) == *old(self),
    {
        proof {
            reveal(Wave::length_clocked);
        }
        if self.length_enabled && self.length_counter > 0 {
            self.length_counter -= 1;
            if self.length_counter == 0 {
                self.enabled = false;
            }
        }
    }

    /// One cycle of the frequency timer.
    pub fn clock_frequency(&mut self)
        requires
            old(self).wf(),
        ensures
            final(self).wf(),
            *final(self) == old(self).frequency_clocked(),
    {
        proof {
            reveal(Wave::frequency_clocked);
        }
        if self.period > 1 {
            self.period -= 1;
        } else {
            self.period = (2048 - self.frequency) * 2;
            self.sample_nibble = (self.sample_nibble + 1) % 32;
            self.sample_buffer = self.get_current_sample();
        }
    }

    /// The sample at the current playback position in wave RAM.
    pub fn get_current_sample(&self) -> (r: u8)
        requires
            self.sample_nibble < 32,
        ensures
            r == nibble_at(self.samples@, self.sample_nibble as int),
            r <= 15,
    {
        let s = self.samples[self.sample_nibble / 2];
        proof {
            lemma_byte_fields(s);
        }
        if self.sample_nibble % 2 == 0 {
            s >> 4
        } else {
            s & 0x0F
        }
    }

    /// The buffered sample (0-15).
    pub fn waveform_output(&self) -> (r: u8)
        ensures
            r == self.sample_buffer,
    {
        self.sample_buffer
    }

    /// The channel's level before the DAC, in [0, 15].
    pub fn volume_output(&self) -> (r: u8)
        requires
            self.wf(),
        ensures
            r == self.level(),
            r <= 15,
    {
        proof {
            reveal(Wave::level);
        }
        if self.enabled {
            proof {
                lemma_sample_shift(self.sample_buffer, self.volume.code());
            }
            self.waveform_output() >> self.volume.to_u8()
        } else {
            0
        }
    }

    /// The channel's DAC output, in fifteenths of full scale (-15 to 15).
    pub fn dac_level(&self) -> (r: i32)
        requires
            self.wf(),
        ensures
            r == self.dac(),
            -15 <= r <= 15,
    {
        dac_fifteenths(self.dac_enabled, self.volume_output())
    }
}

/// The sample buffer changes only when the frequency timer expires: register
/// writes, triggers, length ticks and timer cycles that do not expire leave
/// it as it was. A trigger moves playback back to the first sample without
/// refetching the buffer.
pub proof fn lemma_sample_buffer_only_on_expiry(wave: Wave, reg: Register, w: u8)
    ensures
        wave.written(reg, w).sample_buffer == wave.sample_buffer,
        wave.triggered().sample_buffer == wave.sample_buffer,
        wave.triggered().sample_nibble == 0,
        wave.length_clocked().sample_buffer == wave.sample_buffer,
        wave.period > 1 ==> wave.frequency_clocked().sample_buffer == wave.sample_buffer,
{
    reveal(Wave::written);
    reveal(Wave::triggered);
    reveal(Wave::length_clocked);
    reveal(Wave::frequency_clocked);
}

} // verus!
