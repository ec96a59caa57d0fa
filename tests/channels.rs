use gbs::noise::{Noise, Register as NoiseRegister};
use gbs::pulse::{Duty, Pulse, Register as PulseRegister, Sweep};
use gbs::wave::{Register as WaveRegister, Volume, Wave};

fn stepped_to_expiry_pulse(p: &mut Pulse) {
    let before = p.duty_idx;
    while p.duty_idx == before {
        p.clock_frequency();
    }
}

#[test]
fn envelope_write_with_top_bits_clear_disables_every_channel() {
    let mut p = Pulse::new();
    p.write(PulseRegister::NR12, 0xF0);
    p.write(PulseRegister::NR14, 0x80);
    assert!(p.is_enabled() && p.is_dac_enabled());
    p.write(PulseRegister::NR12, 0x07);
    assert!(!p.is_dac_enabled());
    assert!(!p.is_enabled());

    let mut n = Noise::new();
    n.write(NoiseRegister::NR42, 0x08);
    n.write(NoiseRegister::NR44, 0x80);
    assert!(n.is_enabled());
    n.write(NoiseRegister::NR42, 0x00);
    assert!(!n.is_dac_enabled());
    assert!(!n.is_enabled());

    let mut w = Wave::new();
    w.write(WaveRegister::NR30, 0x80);
    w.write(WaveRegister::NR34, 0x80);
    assert!(w.is_enabled());
    w.write(WaveRegister::NR30, 0x7F);
    assert!(!w.is_dac_enabled());
    assert!(!w.is_enabled());
}

#[test]
fn envelope_write_with_bit_three_keeps_dac_on() {
    let mut p = Pulse::new();
    p.write(PulseRegister::NR22, 0x08);
    assert!(p.is_dac_enabled());
    assert_eq!(p.envelope.initial, 0);
    assert_eq!(p.envelope.direction, Sweep::Increase);
}

#[test]
fn trigger_reloads_an_empty_length_counter() {
    let mut p = Pulse::new();
    assert_eq!(p.length_counter, 0);
    p.trigger();
    assert_eq!(p.length_counter, 64);

    let mut n = Noise::new();
    n.trigger();
    assert_eq!(n.length_counter, 64);

    let mut w = Wave::new();
    w.trigger();
    assert_eq!(w.length_counter, 256);
}

#[test]
fn trigger_keeps_a_running_length_counter() {
    let mut p = Pulse::new();
    p.write(PulseRegister::NR11, 0x3F);
    assert_eq!(p.length_counter, 1);
    p.trigger();
    assert_eq!(p.length_counter, 1);

    let mut w = Wave::new();
    w.write(WaveRegister::NR31, 200);
    assert_eq!(w.length_counter, 56);
    w.trigger();
    assert_eq!(w.length_counter, 56);
}

#[test]
fn trigger_with_dac_off_leaves_channel_disabled() {
    let mut p = Pulse::new();
    p.trigger();
    assert!(!p.is_enabled());
    assert!(p.length_counter > 0);
}

#[test]
fn length_clock_is_frozen_while_length_disabled() {
    let mut p = Pulse::new();
    p.write(PulseRegister::NR11, 0x30);
    p.write(PulseRegister::NR12, 0xF0);
    p.write(PulseRegister::NR14, 0x80);
    assert_eq!(p.length_counter, 16);
    for _ in 0..100 {
        p.clock_length();
    }
    assert_eq!(p.length_counter, 16);
    assert!(p.is_enabled());

    let mut w = Wave::new();
    w.write(WaveRegister::NR31, 0);
    for _ in 0..300 {
        w.clock_length();
    }
    assert_eq!(w.length_counter, 256);

    let mut n = Noise::new();
    n.write(NoiseRegister::NR41, 0x3E);
    n.clock_length();
    assert_eq!(n.length_counter, 2);
}

#[test]
fn length_clock_counts_down_and_stops_the_channel() {
    let mut p = Pulse::new();
    p.write(PulseRegister::NR11, 0x3D);
    p.write(PulseRegister::NR12, 0xF0);
    p.write(PulseRegister::NR14, 0xC0);
    assert_eq!(p.length_counter, 3);
    p.clock_length();
    p.clock_length();
    assert_eq!(p.length_counter, 1);
    assert!(p.is_enabled());
    p.clock_length();
    assert_eq!(p.length_counter, 0);
    assert!(!p.is_enabled());
    p.clock_length();
    assert_eq!(p.length_counter, 0);
}

#[test]
fn noise_length_register_uses_low_six_bits() {
    let mut n = Noise::new();
    n.write(NoiseRegister::NR41, 0xFF);
    assert_eq!(n.length_counter, 1);
    n.write(NoiseRegister::NR41, 0x00);
    assert_eq!(n.length_counter, 64);
}

#[test]
fn envelope_rises_to_fifteen_and_stays() {
    let mut p = Pulse::new();
    // initial volume 13, increase, period 1
    p.write(PulseRegister::NR12, 0xD9);
    p.write(PulseRegister::NR14, 0x80);
    assert_eq!(p.envelope.volume, 13);
    let mut last = p.envelope.volume;
    for _ in 0..10 {
        p.clock_envelope();
        assert!(p.envelope.volume >= last);
        assert!(p.envelope.volume <= 15);
        last = p.envelope.volume;
    }
    assert_eq!(p.envelope.volume, 15);
    let frozen = (p.envelope.volume, p.envelope.counter);
    p.clock_envelope();
    assert_eq!((p.envelope.volume, p.envelope.counter), frozen);
}

#[test]
fn envelope_falls_to_zero_and_stays() {
    let mut n = Noise::new();
    // initial volume 2, decrease, period 2
    n.write(NoiseRegister::NR42, 0x22);
    n.write(NoiseRegister::NR44, 0x80);
    assert_eq!(n.envelope.volume, 2);
    n.clock_envelope();
    assert_eq!(n.envelope.volume, 2);
    n.clock_envelope();
    assert_eq!(n.envelope.volume, 1);
    n.clock_envelope();
    n.clock_envelope();
    assert_eq!(n.envelope.volume, 0);
    for _ in 0..10 {
        n.clock_envelope();
        assert_eq!(n.envelope.volume, 0);
    }
}

#[test]
fn envelope_with_period_zero_holds_volume() {
    let mut p = Pulse::new();
    p.write(PulseRegister::NR12, 0x78);
    p.write(PulseRegister::NR14, 0x80);
    for _ in 0..20 {
        p.clock_envelope();
    }
    assert_eq!(p.envelope.volume, 7);
}

#[test]
fn envelope_register_reads_back() {
    let mut p = Pulse::new();
    p.write(PulseRegister::NR12, 0xAB);
    assert_eq!(p.read(PulseRegister::NR12), 0xAB);
    let mut n = Noise::new();
    n.write(NoiseRegister::NR42, 0x5C);
    assert_eq!(n.read(NoiseRegister::NR42), 0x5C);
}

#[test]
fn duty_register_selects_waveform_and_length() {
    let mut p = Pulse::new();
    p.write(PulseRegister::NR21, 0xC5);
    assert_eq!(p.duty, Duty::ThreeQuarters);
    assert_eq!(p.length_counter, 59);
    assert_eq!(p.read(PulseRegister::NR21), 0xC0);
}

#[test]
fn duty_waveforms_match_the_step_table() {
    let table: [(u8, [u8; 8]); 4] = [
        (0x00, [0, 0, 0, 0, 0, 0, 0, 1]),
        (0x40, [1, 0, 0, 0, 0, 0, 0, 1]),
        (0x80, [1, 0, 0, 0, 0, 1, 1, 1]),
        (0xC0, [0, 1, 1, 1, 1, 1, 1, 0]),
    ];
    for (reg, steps) in table.iter() {
        let mut p = Pulse::new();
        p.write(PulseRegister::NR11, *reg);
        p.write(PulseRegister::NR12, 0xF0);
        p.write(PulseRegister::NR14, 0x87);
        for i in 0..8 {
            assert_eq!(p.duty_idx, i as u8);
            assert_eq!(p.waveform_output(), steps[i]);
            assert_eq!(p.volume_output(), steps[i] * 15);
            stepped_to_expiry_pulse(&mut p);
        }
        assert_eq!(p.duty_idx, 0);
    }
}

#[test]
fn pulse_timer_expires_after_its_period() {
    let mut p = Pulse::new();
    p.write(PulseRegister::NR13, 0xFF);
    p.write(PulseRegister::NR14, 0x87);
    assert_eq!(p.frequency, 2047);
    assert_eq!(p.period, 4);
    for _ in 0..3 {
        p.clock_frequency();
    }
    assert_eq!(p.duty_idx, 0);
    p.clock_frequency();
    assert_eq!(p.duty_idx, 1);
    assert_eq!(p.period, 4);
}

#[test]
fn frequency_registers_combine_into_eleven_bits() {
    let mut p = Pulse::new();
    p.write(PulseRegister::NR13, 0xD6);
    p.write(PulseRegister::NR14, 0xFE);
    assert_eq!(p.frequency, 0x6D6);
    assert!(p.length_enabled);
    assert_eq!(p.read(PulseRegister::NR14), 0x40);
    assert_eq!(p.read(PulseRegister::NR13), 0);
}

#[test]
fn sweep_increases_frequency() {
    let mut p = Pulse::new();
    // sweep time 1, increase, shift 1
    p.write(PulseRegister::NR10, 0x41);
    assert_eq!(p.sweep_direction, Sweep::Increase);
    p.write(PulseRegister::NR13, 0x00);
    p.write(PulseRegister::NR14, 0x02);
    assert_eq!(p.frequency, 512);
    p.clock_sweep();
    assert_eq!(p.frequency, 768);
    p.clock_sweep();
    assert_eq!(p.frequency, 1152);
}

#[test]
fn sweep_decreases_frequency() {
    let mut p = Pulse::new();
    // sweep time 2, decrease, shift 2
    p.write(PulseRegister::NR10, 0x8A);
    assert_eq!(p.sweep_direction, Sweep::Decrease);
    p.write(PulseRegister::NR13, 0x00);
    p.write(PulseRegister::NR14, 0x04);
    assert_eq!(p.frequency, 1024);
    p.clock_sweep();
    assert_eq!(p.frequency, 768);
    p.clock_sweep();
    assert_eq!(p.frequency, 768);
    p.clock_sweep();
    assert_eq!(p.frequency, 576);
}

#[test]
fn sweep_off_leaves_frequency() {
    let mut p = Pulse::new();
    p.write(PulseRegister::NR10, 0x01);
    p.write(PulseRegister::NR13, 0x34);
    for _ in 0..10 {
        p.clock_sweep();
    }
    assert_eq!(p.frequency, 0x34);
}

#[test]
fn sweep_overflow_wraps_to_eleven_bits() {
    let mut p = Pulse::new();
    p.write(PulseRegister::NR10, 0x40);
    p.write(PulseRegister::NR13, 0x00);
    p.write(PulseRegister::NR14, 0x06);
    assert_eq!(p.frequency, 1536);
    p.clock_sweep();
    assert_eq!(p.frequency, 1024);
}

#[test]
fn sweep_direction_codes() {
    assert_eq!(Sweep::from_u8(0), Some(Sweep::Decrease));
    assert_eq!(Sweep::from_u8(1), Some(Sweep::Increase));
    assert_eq!(Sweep::from_u8(2), None);
    assert_eq!(Sweep::Increase.to_u8(), 1);
    assert_eq!(Duty::from_u8(2), Some(Duty::Half));
    assert_eq!(Duty::from_u8(4), None);
    assert_eq!(Volume::from_u8(1), Some(Volume::Full));
    assert_eq!(Volume::from_u8(7), None);
}

fn shifts_until(n: &mut Noise, target: u16) -> u32 {
    let mut count: u32 = 0;
    loop {
        let before = n.lfsr;
        while n.lfsr == before {
            n.clock_frequency();
        }
        count += 1;
        if n.lfsr == target {
            return count;
        }
    }
}

#[test]
fn noise_lfsr_full_width_has_maximal_period() {
    let mut n = Noise::new();
    n.write(NoiseRegister::NR42, 0xF0);
    n.write(NoiseRegister::NR43, 0x00);
    n.write(NoiseRegister::NR44, 0x80);
    assert_eq!(n.lfsr, 0x7FFF);
    assert_eq!(n.period, 8);
    let mut seen = vec![false; 0x8000];
    seen[0x7FFF] = true;
    let mut count: u32 = 0;
    loop {
        for _ in 0..8 {
            n.clock_frequency();
        }
        count += 1;
        if n.lfsr == 0x7FFF {
            break;
        }
        assert!(n.lfsr < 0x8000);
        assert!(!seen[n.lfsr as usize]);
        seen[n.lfsr as usize] = true;
    }
    assert_eq!(count, 32767);
}

#[test]
fn noise_lfsr_short_width_repeats_after_127() {
    let mut n = Noise::new();
    n.write(NoiseRegister::NR42, 0xF0);
    n.write(NoiseRegister::NR43, 0x08);
    n.write(NoiseRegister::NR44, 0x80);
    assert_eq!(n.width_mode, 1);
    for _ in 0..8 {
        n.clock_frequency();
    }
    let start = n.lfsr;
    assert_eq!(shifts_until(&mut n, start), 127);
}

#[test]
fn noise_lfsr_first_shift() {
    let mut n = Noise::new();
    n.write(NoiseRegister::NR42, 0xF0);
    n.write(NoiseRegister::NR44, 0x80);
    for _ in 0..8 {
        n.clock_frequency();
    }
    // 0x7FFF: low bits 1 ^ 1 = 0 goes into bit 14
    assert_eq!(n.lfsr, 0x3FFF);
    n.write(NoiseRegister::NR43, 0x08);
    n.write(NoiseRegister::NR44, 0x80);
    for _ in 0..8 {
        n.clock_frequency();
    }
    assert_eq!(n.lfsr, 0x3FBF);
}

#[test]
fn noise_output_is_inverse_of_low_bit() {
    let mut n = Noise::new();
    n.write(NoiseRegister::NR42, 0xA8);
    n.write(NoiseRegister::NR44, 0x80);
    assert_eq!(n.waveform_output(), 0);
    assert_eq!(n.volume_output(), 0);
    for _ in 0..8 * 15 {
        n.clock_frequency();
    }
    assert_eq!(n.lfsr & 1, 0);
    assert_eq!(n.waveform_output(), 1);
    assert_eq!(n.volume_output(), 10);
    assert_eq!(n.dac_level(), 5);
}

#[test]
fn noise_period_from_divisor_and_shift() {
    let expected: [u32; 8] = [8, 16, 32, 48, 64, 80, 96, 112];
    for code in 0..8u8 {
        let mut n = Noise::new();
        n.write(NoiseRegister::NR43, code);
        assert_eq!(n.get_period(), expected[code as usize]);
        n.write(NoiseRegister::NR43, 0x30 | code);
        assert_eq!(n.get_period(), expected[code as usize] << 3);
    }
    let mut n = Noise::new();
    n.write(NoiseRegister::NR43, 0xF7);
    assert_eq!(n.get_period(), 112 << 15);
    assert_eq!(n.read(NoiseRegister::NR43), 0xF7);
}

fn wave_with_ram(bytes: [u8; 16]) -> Wave {
    let mut w = Wave::new();
    for (i, b) in bytes.iter().enumerate() {
        w.write_sample(i as u16, *b);
    }
    w.write(WaveRegister::NR30, 0x80);
    w.write(WaveRegister::NR33, 0xFF);
    w.write(WaveRegister::NR34, 0x87);
    w
}

#[test]
fn wave_buffer_changes_only_on_timer_expiry() {
    let mut w = wave_with_ram([0x1F, 0x2E, 0x3D, 0x4C, 0, 0, 0, 0, 0, 0, 0, 0, 0, 0, 0, 0x9A]);
    assert_eq!(w.period, 2);
    assert_eq!(w.sample_buffer, 0);
    w.write(WaveRegister::NR32, 0x20);
    w.write_sample(0, 0xFF);
    w.write(WaveRegister::NR34, 0x87);
    assert_eq!(w.sample_buffer, 0);
    assert_eq!(w.sample_nibble, 0);
    w.clock_frequency();
    assert_eq!(w.sample_buffer, 0);
    w.clock_frequency();
    assert_eq!(w.sample_nibble, 1);
    assert_eq!(w.sample_buffer, 0x0F);
    w.clock_frequency();
    w.clock_frequency();
    assert_eq!(w.sample_nibble, 2);
    assert_eq!(w.sample_buffer, 0x02);
    // triggering moves back to the first sample but keeps the buffer
    w.write(WaveRegister::NR34, 0x87);
    assert_eq!(w.sample_nibble, 0);
    assert_eq!(w.sample_buffer, 0x02);
}

#[test]
fn wave_reads_low_nibble_then_wraps() {
    let mut w = wave_with_ram([0, 0, 0, 0, 0, 0, 0, 0, 0, 0, 0, 0, 0, 0, 0, 0xAB]);
    for _ in 0..30 {
        w.clock_frequency();
        w.clock_frequency();
    }
    assert_eq!(w.sample_nibble, 30);
    assert_eq!(w.sample_buffer, 0x0A);
    w.clock_frequency();
    w.clock_frequency();
    assert_eq!(w.sample_nibble, 31);
    assert_eq!(w.sample_buffer, 0x0B);
    assert_eq!(w.get_current_sample(), 0x0B);
    w.clock_frequency();
    w.clock_frequency();
    assert_eq!(w.sample_nibble, 0);
    assert_eq!(w.sample_buffer, 0);
}

#[test]
fn wave_volume_code_is_the_right_shift() {
    let mut w = wave_with_ram([0x0F; 16]);
    w.clock_frequency();
    w.clock_frequency();
    assert_eq!(w.sample_buffer, 15);
    let expected: [u8; 4] = [15, 7, 3, 1];
    for code in 0..4u8 {
        w.write(WaveRegister::NR32, code << 5);
        assert_eq!(w.volume.to_u8(), code);
        assert_eq!(w.volume_output(), expected[code as usize]);
        assert_eq!(w.read(WaveRegister::NR32), code << 5);
    }
    w.write(WaveRegister::NR32, 0x00);
    assert_eq!(w.volume, Volume::Zero);
    assert_eq!(w.dac_level(), 15);
}

#[test]
fn wave_power_bit_reads_channel_on() {
    let mut w = Wave::new();
    w.write(WaveRegister::NR30, 0x00);
    w.write(WaveRegister::NR30, 0x80);
    assert!(w.is_dac_enabled());
    assert_eq!(w.read(WaveRegister::NR30), 0x00);
    w.write(WaveRegister::NR34, 0x80);
    assert_eq!(w.read(WaveRegister::NR30), 0x80);
}

#[test]
fn dac_levels_span_full_scale() {
    let mut p = Pulse::new();
    assert_eq!(p.dac_level(), 0);
    p.write(PulseRegister::NR11, 0x00);
    p.write(PulseRegister::NR12, 0xF0);
    p.write(PulseRegister::NR14, 0x80);
    assert_eq!(p.volume_output(), 0);
    assert_eq!(p.dac_level(), -15);
    while p.duty_idx != 7 {
        p.clock_frequency();
    }
    assert_eq!(p.volume_output(), 15);
    assert_eq!(p.dac_level(), 15);
}
