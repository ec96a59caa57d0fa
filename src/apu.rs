//! The audio processing unit: the four channels, the frame sequencer, the
//! stereo mixer and the memory-mapped register interface.
use vstd::prelude::*;

use crate::bits::{bit_of, flag_bit, lemma_byte_fields};
use crate::mixer::{routed, Mixer};
use crate::noise::{Noise, Register as NoiseRegister};
use crate::pulse::{Pulse, Register as PulseRegister};
use crate::sequencer::{fires_envelope, fires_length, fires_sweep, FrameSequencer};
use crate::wave::{Register as WaveRegister, Wave};

verus! {

/// The register addresses 0xFF10-0xFF26, without the two unused ones.
pub open spec fn is_register(addr: u16) -> bool {
    0xFF10 <= addr && addr <= 0xFF26 && addr != 0xFF15 && addr != 0xFF1F
}

/// The 16 bytes of wave RAM, 0xFF30-0xFF3F.
pub open spec fn is_wave_ram(addr: u16) -> bool {
    0xFF30 <= addr && addr <= 0xFF3F
}

/// The bits of each register that read as 1 whatever the state: unused and
/// write-only bits.
pub open spec fn register_mask(addr: u16) -> u8 {
    match addr {
        0xFF10 => 0x80,
        0xFF11 => 0x3F,
        0xFF12 => 0x00,
        0xFF13 => 0xFF,
        0xFF14 => 0xBF,
        0xFF16 => 0x3F,
        0xFF17 => 0x00,
        0xFF18 => 0xFF,
        0xFF19 => 0xBF,
        0xFF1A => 0x7F,
        0xFF1B => 0xFF,
        0xFF1C => 0x9F,
        0xFF1D => 0xFF,
        0xFF1E => 0xBF,
        0xFF20 => 0xFF,
        0xFF21 => 0x00,
        0xFF22 => 0x00,
        0xFF23 => 0xBF,
        0xFF24 => 0x00,
        0xFF25 => 0x00,
        0xFF26 => 0x70,
        _ => 0xFF,
    }
}

/// The read mask of register `addr`.
fn read_mask(addr: u16) -> (r: u8)
    ensures
        r == register_mask(addr),
{
    match addr {
        0xFF10 => 0x80,
        0xFF11 => 0x3F,
        0xFF12 => 0x00,
        0xFF13 => 0xFF,
        0xFF14 => 0xBF,
        0xFF16 => 0x3F,
        0xFF17 => 0x00,
        0xFF18 => 0xFF,
        0xFF19 => 0xBF,
        0xFF1A => 0x7F,
        0xFF1B => 0xFF,
        0xFF1C => 0x9F,
        0xFF1D => 0xFF,
        0xFF1E => 0xBF,
        0xFF20 => 0xFF,
        0xFF21 => 0x00,
        0xFF22 => 0x00,
        0xFF23 => 0xBF,
        0xFF24 => 0x00,
        0xFF25 => 0x00,
        0xFF26 => 0x70,
        _ => 0xFF,
    }
}

/// The pulse register at `addr`: 0xFF10-0xFF14 for the first channel,
/// 0xFF16-0xFF19 for the second.
pub open spec fn pulse_register(addr: u16) -> PulseRegister {
    match addr {
        0xFF10 => PulseRegister::NR10,
        0xFF11 => PulseRegister::NR11,
        0xFF12 => PulseRegister::NR12,
        0xFF13 => PulseRegister::NR13,
        0xFF14 => PulseRegister::NR14,
        0xFF16 => PulseRegister::NR21,
        0xFF17 => PulseRegister::NR22,
        0xFF18 => PulseRegister::NR23,
        _ => PulseRegister::NR24,
    }
}

/// The wave register at `addr` (0xFF1A-0xFF1E).
pub open spec fn wave_register(addr: u16) -> WaveRegister {
    match addr {
        0xFF1A => WaveRegister::NR30,
        0xFF1B => WaveRegister::NR31,
        0xFF1C => WaveRegister::NR32,
        0xFF1D => WaveRegister::NR33,
        _ => WaveRegister::NR34,
    }
}

/// The noise register at `addr` (0xFF20-0xFF23).
pub open spec fn noise_register(addr: u16) -> NoiseRegister {
    match addr {
        0xFF20 => NoiseRegister::NR41,
        0xFF21 => NoiseRegister::NR42,
        0xFF22 => NoiseRegister::NR43,
        _ => NoiseRegister::NR44,
    }
}

fn pulse_register_at(addr: u16) -> (r: PulseRegister)
    ensures
        r == pulse_register(addr),
{
    match addr {
        0xFF10 => PulseRegister::NR10,
        0xFF11 => PulseRegister::NR11,
        0xFF12 => PulseRegister::NR12,
        0xFF13 => PulseRegister::NR13,
        0xFF14 => PulseRegister::NR14,
        0xFF16 => PulseRegister::NR21,
        0xFF17 => PulseRegister::NR22,
        0xFF18 => PulseRegister::NR23,
        _ => PulseRegister::NR24,
    }
}

fn wave_register_at(addr: u16) -> (r: WaveRegister)
    ensures
        r == wave_register(addr),
{
    match addr {
        0xFF1A => WaveRegister::NR30,
        0xFF1B => WaveRegister::NR31,
        0xFF1C => WaveRegister::NR32,
        0xFF1D => WaveRegister::NR33,
        _ => WaveRegister::NR34,
    }
}

fn noise_register_at(addr: u16) -> (r: NoiseRegister)
    ensures
        r == noise_register(addr),
{
    match addr {
        0xFF20 => NoiseRegister::NR41,
        0xFF21 => NoiseRegister::NR42,
        0xFF22 => NoiseRegister::NR43,
        _ => NoiseRegister::NR44,
    }
}

/// The audio processing unit.
pub struct APU {
    /// Master power bit.
    pub enabled: bool,
    pub pulse1: Pulse,
    pub pulse2: Pulse,
    pub wave: Wave,
    pub noise: Noise,
    pub frame_seq: FrameSequencer,
    pub mixer: Mixer,
}

impl APU {
    /// Every part is well formed.
    pub open spec fn wf(&self) -> bool {
        &&& self.pulse1.wf()
        &&& self.pulse2.wf()
        &&& self.wave.wf()
        &&& self.noise.wf()
        &&& self.frame_seq.wf()
        &&& self.mixer.wf()
    }

    /// The status register (0xFF26): master power in bit 7, and whether
    /// each channel is on in bits 0-3.
    pub open spec fn status_byte(&self) -> u8 {
        (bit_of(self.enabled) << 7u8) | (bit_of(self.noise.enabled) << 3u8) | (bit_of(
            self.wave.enabled,
        ) << 2u8) | (bit_of(self.pulse2.enabled) << 1u8) | bit_of(self.pulse1.enabled)
    }

    /// What register `addr` holds, before its mask is applied.
    pub open spec fn register_value(&self, addr: u16) -> u8 {
        if 0xFF10 <= addr && addr <= 0xFF14 {
            self.pulse1.register_value(pulse_register(addr))
        } else if 0xFF16 <= addr && addr <= 0xFF19 {
            self.pulse2.register_value(pulse_register(addr))
        } else if 0xFF1A <= addr && addr <= 0xFF1E {
            self.wave.register_value(wave_register(addr))
        } else if 0xFF20 <= addr && addr <= 0xFF23 {
            self.noise.register_value(noise_register(addr))
        } else if addr == 0xFF24 {
            self.mixer.volume_byte()
        } else if addr == 0xFF25 {
            self.mixer.routing_byte()
        } else {
            self.status_byte()
        }
    }

    /// The unit after `w` is written to register `addr`.
    pub open spec fn written(self, addr: u16, w: u8) -> APU {
        if 0xFF10 <= addr && addr <= 0xFF14 {
            APU { pulse1: self.pulse1.written(pulse_register(addr), w), ..self }
        } else if 0xFF16 <= addr && addr <= 0xFF19 {
            APU { pulse2: self.pulse2.written(pulse_register(addr), w), ..self }
        } else if 0xFF1A <= addr && addr <= 0xFF1E {
            APU { wave: self.wave.written(wave_register(addr), w), ..self }
        } else if 0xFF20 <= addr && addr <= 0xFF23 {
            APU { noise: self.noise.written(noise_register(addr), w), ..self }
        } else if addr == 0xFF24 {
            APU { mixer: self.mixer.volume_written(w), ..self }
        } else if addr == 0xFF25 {
            APU { mixer: self.mixer.routing_written(w), ..self }
        } else {
            APU { enabled: w & 0x80 != 0, ..self }
        }
    }

    /// Every channel after one cycle of its frequency timer.
    pub open spec fn timers_clocked(self) -> APU {
        APU {
            pulse1: self.pulse1.frequency_clocked(),
            pulse2: self.pulse2.frequency_clocked(),
            wave: self.wave.frequency_clocked(),
            noise: self.noise.frequency_clocked(),
            ..self
        }
    }

    /// Every channel after one length tick.
    pub open spec fn length_clocked(self) -> APU {
        APU {
            pulse1: self.pulse1.length_clocked(),
            pulse2: self.pulse2.length_clocked(),
            wave: self.wave.length_clocked(),
            noise: self.noise.length_clocked(),
            ..self
        }
    }

    /// The first pulse channel after one sweep tick.
    pub open spec fn sweep_clocked(self) -> APU {
        APU { pulse1: self.pulse1.sweep_clocked(), ..self }
    }

    /// The channels with an envelope after one envelope tick.
    pub open spec fn envelope_clocked(self) -> APU {
        APU {
            pulse1: self.pulse1.envelope_clocked(),
            pulse2: self.pulse2.envelope_clocked(),
            noise: self.noise.envelope_clocked(),
            ..self
        }
    }

    /// The ticks that frame `frame` fans out: length, then sweep, then
    /// envelope, each where the step table has it.
    pub open spec fn sequenced(self, frame: u32) -> APU {
        let a = if fires_length(frame) {
            self.length_clocked()
        } else {
            self
        };
        let b = if fires_sweep(frame) {
            a.sweep_clocked()
        } else {
            a
        };
        if fires_envelope(frame) {
            b.envelope_clocked()
        } else {
            b
        }
    }

    /// The unit after one hardware cycle: every frequency timer is clocked,
    /// then the frame sequencer, whose tick fans out to the channels.
    pub open spec fn stepped(self) -> APU {
        let timed = self.timers_clocked();
        let seq = APU { frame_seq: self.frame_seq.clocked(), ..timed };
        if self.frame_seq.ticks() {
            seq.sequenced(seq.frame_seq.frame)
        } else {
            seq
        }
    }

    /// The left side of the mix, in fifteenths of full scale.
    pub open spec fn left_mix(&self) -> int {
        self.mixer.left_mix(self.pulse1.dac(), self.pulse2.dac(), self.wave.dac(), self.noise.dac())
    }

    /// The right side of the mix, in fifteenths of full scale.
    pub open spec fn right_mix(&self) -> int {
        self.mixer.right_mix(self.pulse1.dac(), self.pulse2.dac(), self.wave.dac(), self.noise.dac())
    }

    /// The left output after master volume, in 120ths of full scale.
    pub open spec fn left_output(&self) -> int {
        self.left_mix() * (self.mixer.left_volume + 1)
    }

    /// The right output after master volume, in 120ths of full scale.
    pub open spec fn right_output(&self) -> int {
        self.right_mix() * (self.mixer.right_volume + 1)
    }

    /// A powered-off unit, as at hardware reset.
    pub fn new() -> (r: APU)
        ensures
            r.wf(),
            !r.enabled,
            r.pulse1.is_reset(),
            r.pulse2.is_reset(),
            r.wave.is_reset(),
            r.noise.is_reset(),
            r.frame_seq == (FrameSequencer { frame: 0, period: 0 }),
            !r.mixer.left_enable_pulse1 && !r.mixer.left_enable_pulse2
                && !r.mixer.left_enable_wave && !r.mixer.left_enable_noise,
            !r.mixer.right_enable_pulse1 && !r.mixer.right_enable_pulse2
                && !r.mixer.right_enable_wave && !r.mixer.right_enable_noise,
            r.mixer.left_volume == 0,
            r.mixer.right_volume == 0,
    {
        APU {
            enabled: false,
            pulse1: Pulse::new(),
            pulse2: Pulse::new(),
            wave: Wave::new(),
            noise: Noise::new(),
            frame_seq: FrameSequencer::new(),
            mixer: Mixer::new(),
        }
    }

    /// Reads register `addr`; its unused and write-only bits read as 1.
    /// Addresses outside the register map (wave RAM included) must not be
    /// passed: the precondition leaves them out.
    pub fn read(&self, addr: u16) -> (r: u8)
        requires
            is_register(addr),
        ensures
            r == self.register_value(addr) | register_mask(addr),
    {
        let v = if 0xFF10 <= addr && addr <= 0xFF14 {
            self.pulse1.read(pulse_register_at(addr))
        } else if 0xFF16 <= addr && addr <= 0xFF19 {
            self.pulse2.read(pulse_register_at(addr))
        } else if 0xFF1A <= addr && addr <= 0xFF1E {
            self.wave.read(wave_register_at(addr))
        } else if 0xFF20 <= addr && addr <= 0xFF23 {
            self.noise.read(noise_register_at(addr))
        } else if addr == 0xFF24 {
            self.mixer.read_volume()
        } else if addr == 0xFF25 {
            self.mixer.read_routing()
        } else {
            (flag_bit(self.enabled) << 7) | (flag_bit(self.noise.is_enabled()) << 3) | (flag_bit(
                self.wave.is_enabled(),
            ) << 2) | (flag_bit(self.pulse2.is_enabled()) << 1) | flag_bit(
                self.pulse1.is_enabled(),
            )
        };
        v | read_mask(addr)
    }

    /// Writes `w` to register `addr`, or to wave RAM for 0xFF30-0xFF3F.
    /// Other addresses must not be passed: the precondition leaves them out.
    pub fn write(&mut self, addr: u16, w: u8)
        requires
            old(self).wf(),
            is_register(addr) || is_wave_ram(addr),
        ensures
            final(self).wf(),
            is_register(addr) ==> *final(self) == old(self).written(addr, w),
            is_wave_ram(addr) ==> {
                &&& final(self).wave.samples@ == old(self).wave.samples@.update(
                    addr - 0xFF30,
                    w,
                )
                &&& final(self).wave == (Wave { samples: final(self).wave.samples, ..old(self).wave })
                &&& *final(self) == (APU { wave: final(self).wave, ..*old(self) })
            },
    {
        if 0xFF10 <= addr && addr <= 0xFF14 {
            self.pulse1.write(pulse_register_at(addr), w);
        } else if 0xFF16 <= addr && addr <= 0xFF19 {
            self.pulse2.write(pulse_register_at(addr), w);
        } else if 0xFF1A <= addr && addr <= 0xFF1E {
            self.wave.write(wave_register_at(addr), w);
        } else if 0xFF20 <= addr && addr <= 0xFF23 {
            self.noise.write(noise_register_at(addr), w);
        } else if addr == 0xFF24 {
            self.mixer.write_volume(w);
        } else if addr == 0xFF25 {
            self.mixer.write_routing(w);
        } else if addr == 0xFF26 {
            self.enabled = (w & 0x80) != 0;
        } else {
            self.wave.write_sample(addr - 0xFF30, w);
        }
    }

    /// One hardware cycle. The driver calls this once per emulated cycle.
    pub fn step(&mut self)
        requires
            old(self).wf(),
        ensures
            final(self).wf(),
            *final(self) == old(self).stepped(),
    {
        self.clock_timers();
        if self.frame_seq.clock() {
            let frame = self.frame_seq.frame;
            self.clock_frame(frame);
        }
    }

    /// One cycle of every channel's frequency timer.
    fn clock_timers(&mut self)
        requires
            old(self).wf(),
        ensures
            final(self).wf(),
            *final(self) == old(self).timers_clocked(),
    {
        self.pulse1.clock_frequency();
        self.pulse2.clock_frequency();
        self.wave.clock_frequency();
        self.noise.clock_frequency();
    }

    /// Fans a frame sequencer tick out to the channels.
    fn clock_frame(&mut self, frame: u32)
        requires
            old(self).wf(),
        ensures
            final(self).wf(),
            *final(self) == old(self).sequenced(frame),
    {
        if frame % 2 == 0 {
            self.clock_256();
        }
        if frame % 4 == 2 {
            self.clock_128();
        }
        if frame % 8 == 7 {
            self.clock_64();
        }
    }

    /// Length tick (256 Hz).
    fn clock_256(&mut self)
        requires
            old(self).wf(),
        ensures
            final(self).wf(),
            *final(self) == old(self).length_clocked(),
    {
        self.pulse1.clock_length();
        self.pulse2.clock_length();
        self.wave.clock_length();
        self.noise.clock_length();
    }

    /// Sweep tick (128 Hz).
    fn clock_128(&mut self)
        requires
            old(self).wf(),
        ensures
            final(self).wf(),
            *final(self) == old(self).sweep_clocked(),
    {
        self.pulse1.clock_sweep();
    }

    /// Envelope tick (64 Hz).
    fn clock_64(&mut self)
        requires
            old(self).wf(),
        ensures
            final(self).wf(),
            *final(self) == old(self).envelope_clocked(),
    {
        self.pulse1.clock_envelope();
        self.pulse2.clock_envelope();
        self.noise.clock_envelope();
    }

    /// The sum of the routed channels' DAC outputs on each side, in
    /// fifteenths of full scale; no clipping is applied.
    pub fn mixer_output(&self) -> (r: (i32, i32))
        requires
            self.wf(),
        ensures
            r.0 == self.left_mix(),
            r.1 == self.right_mix(),
            -60 <= r.0 <= 60,
            -60 <= r.1 <= 60,
    {
        let pulse1 = self.pulse1.dac_level();
        let pulse2 = self.pulse2.dac_level();
        let wave = self.wave.dac_level();
        let noise = self.noise.dac_level();
        self.mixer.mix(pulse1, pulse2, wave, noise)
    }

    /// The stereo output: each side of the mix scaled by its master volume
    /// `(code + 1) / 8`, in parts of `OUTPUT_DENOMINATOR` of full scale.
    pub fn output_level(&self) -> (r: (i32, i32))
        requires
            self.wf(),
        ensures
            r.0 == self.left_output(),
            r.1 == self.right_output(),
    {
        let (left, right) = self.mixer_output();
        self.mixer.scaled(left, right)
    }
}

/// Writing an envelope register (NR12, NR22, NR42) with its top five bits
/// clear (a value below 8), or the wave power register (NR30) with bit 7
/// clear, turns that channel's DAC off and disables the channel at once.
pub proof fn lemma_dac_off_disables(apu: APU, addr: u16, w: u8)
    requires
        ((addr == 0xFF12 || addr == 0xFF17 || addr == 0xFF21) && w < 8) || (addr == 0xFF1A && w
            < 0x80),
    ensures
        addr == 0xFF12 ==> !apu.written(addr, w).pulse1.dac_enabled
            && !apu.written(addr, w).pulse1.enabled,
        addr == 0xFF17 ==> !apu.written(addr, w).pulse2.dac_enabled
            && !apu.written(addr, w).pulse2.enabled,
        addr == 0xFF1A ==> !apu.written(addr, w).wave.dac_enabled
            && !apu.written(addr, w).wave.enabled,
        addr == 0xFF21 ==> !apu.written(addr, w).noise.dac_enabled
            && !apu.written(addr, w).noise.enabled,
{
    reveal(Pulse::written);
    reveal(Wave::written);
    reveal(Noise::written);
    lemma_byte_fields(w);
}

/// With pulse 1 routed to the left side only and nothing else routed, left
/// master volume 7 and right master volume 0, the right output is exactly 0
/// whatever the channels are doing, and the left output is pulse 1 at full
/// master volume.
pub proof fn lemma_right_silent_when_unrouted(apu: APU)
    requires
        apu.mixer.left_enable_pulse1,
        !apu.mixer.left_enable_pulse2,
        !apu.mixer.left_enable_wave,
        !apu.mixer.left_enable_noise,
        !apu.mixer.right_enable_pulse1,
        !apu.mixer.right_enable_pulse2,
        !apu.mixer.right_enable_wave,
        !apu.mixer.right_enable_noise,
        apu.mixer.left_volume == 7,
        apu.mixer.right_volume == 0,
    ensures
        apu.right_output() == 0,
        apu.left_output() == 8 * apu.pulse1.dac(),
{
    reveal(routed);
}

} // verus!
