use oxgbc_core::apu::apu::{Apu, FrameClocks, AUDIO_BUFFER_SIZE, FRAME_SEQUENCER_DIV, TICKS_PER_SAMPLE};
use oxgbc_core::apu::channel::ChannelType;
use oxgbc_core::apu::control::{NR50, NR51, NR52};
use oxgbc_core::apu::registers::{NRx1, NRx3x4, NRx4};
use oxgbc_core::apu::timers::LengthTimer;

fn no_clocks() -> FrameClocks {
    FrameClocks { length: false, sweep: false, envelope: false }
}

#[test]
fn nr52_power_and_channels() {
    let mut nr52 = NR52::default();
    assert!(!nr52.is_audio_on());
    assert_eq!(nr52.read(), 0x70);
    nr52.write(0x80);
    assert!(nr52.is_audio_on());
    nr52.activate_ch2();
    assert!(nr52.is_ch2_on());
    assert!(nr52.is_ch_on(ChannelType::CH2));
    assert!(!nr52.is_ch1_on());
    assert_eq!(nr52.read(), 0xF2);
    nr52.deactivate_ch(ChannelType::CH2);
    assert!(!nr52.is_ch2_on());
    nr52.activate_ch(ChannelType::CH4);
    nr52.write(0x00);
    assert!(!nr52.is_audio_on());
    assert!(!nr52.is_ch4_on());
    assert_eq!(nr52.read(), 0x70);
}

#[test]
fn nr51_and_nr50_bits() {
    let nr51 = NR51 { byte: 0b1000_0001 };
    assert!(nr51.ch4_left());
    assert!(nr51.ch1_right());
    assert!(!nr51.ch3_left());
    let nr50 = NR50 { byte: 0b1101_0011 };
    assert_eq!(nr50.left_volume(), 5);
    assert_eq!(nr50.right_volume(), 3);
    assert!(nr50.vin_left_enabled());
    assert!(!nr50.vin_right_enabled());
}

#[test]
fn apu_registers_read_back() {
    let mut apu = Apu::default();
    assert_eq!(apu.write(0xFF26, 0x80), None);
    assert_eq!(apu.read(0xFF26), Some(0xF0));
    assert_eq!(apu.write(0xFF25, 0xF3), None);
    assert_eq!(apu.read(0xFF25), Some(0xF3));
    assert_eq!(apu.write(0xFF24, 0x77), None);
    assert_eq!(apu.read(0xFF24), Some(0x77));
    assert_eq!(apu.read(0xFF12), None);
    assert_eq!(apu.read(0xFF30), None);
}

#[test]
fn apu_power_off_clears_panning_and_volume() {
    let mut apu = Apu::default();
    apu.write(0xFF26, 0x80);
    apu.write(0xFF25, 0xFF);
    apu.write(0xFF24, 0x77);
    apu.write(0xFF26, 0x00);
    assert_eq!(apu.read(0xFF26), Some(0x70));
    assert_eq!(apu.read(0xFF25), Some(0x00));
    assert_eq!(apu.read(0xFF24), Some(0x00));
}

#[test]
fn apu_masks_length_registers_while_off() {
    let mut apu = Apu::default();
    assert_eq!(apu.write(0xFF11, 0xFF), Some(0x3F));
    assert_eq!(apu.write(0xFF16, 0xC5), Some(0x05));
    assert_eq!(apu.write(0xFF20, 0x80), Some(0x00));
    assert_eq!(apu.write(0xFF12, 0xFF), Some(0xFF));
    assert_eq!(apu.write(0xFF3A, 0x12), Some(0x12));
    apu.write(0xFF26, 0x80);
    assert_eq!(apu.write(0xFF11, 0xFF), Some(0xFF));
}

#[test]
fn frame_sequencer_steps_every_div_ticks() {
    let mut apu = Apu::default();
    let mut seen = Vec::new();
    for _ in 0..(FRAME_SEQUENCER_DIV as u32 * 8) {
        let (clocks, _) = apu.tick();
        if clocks != no_clocks() {
            seen.push(clocks);
        }
    }
    let lengths = seen.iter().filter(|c| c.length).count();
    let sweeps = seen.iter().filter(|c| c.sweep).count();
    let envelopes = seen.iter().filter(|c| c.envelope).count();
    assert_eq!(lengths, 4);
    assert_eq!(sweeps, 2);
    assert_eq!(envelopes, 1);
}

#[test]
fn frame_sequencer_first_step() {
    let mut apu = Apu::default();
    for _ in 0..(FRAME_SEQUENCER_DIV - 1) {
        assert_eq!(apu.tick().0, no_clocks());
    }
    assert_eq!(apu.tick().0, FrameClocks { length: true, sweep: false, envelope: false });
}

#[test]
fn length_timer_counts_down_and_disables_channel() {
    let mut nr52 = NR52::default();
    nr52.write(0x80);
    nr52.activate_ch1();
    let mut nrx4 = NRx4::default();
    nrx4.write(0x40);
    let mut nrx1 = NRx1::new(ChannelType::CH1);
    nrx1.byte = 62;
    let mut timer = LengthTimer::new(ChannelType::CH1);
    assert_eq!(timer.get_initial_length(), 64);
    timer.reload(nrx1);
    assert!(!timer.is_expired());
    timer.tick(&mut nr52, &mut nrx4);
    assert!(!timer.is_expired());
    assert!(nr52.is_ch1_on());
    timer.tick(&mut nr52, &mut nrx4);
    assert!(timer.is_expired());
    assert!(!nr52.is_ch1_on());
    timer.reset();
    assert!(!timer.is_expired());
}

#[test]
fn period_round_trip() {
    let mut regs = NRx3x4::default();
    regs.set_period(0x5AB);
    assert_eq!(regs.get_period(), 0x5AB);
    regs.set_period(0xFFFF);
    assert_eq!(regs.get_period(), 0x7FF);
}

#[test]
fn nrx1_length_and_duty() {
    let mut nrx1 = NRx1::new(ChannelType::CH2);
    nrx1.byte = 0b1001_0101;
    assert_eq!(nrx1.get_duty_cycle_idx(), 2);
    assert_eq!(nrx1.initial_length_timer(), 0b01_0101);
    let mut ch3 = NRx1::new(ChannelType::CH3);
    ch3.byte = 0xC8;
    assert_eq!(ch3.initial_length_timer(), 0xC8);
}

#[test]
fn samples_are_taken_every_87_ticks_in_pairs() {
    let mut apu = Apu::default();
    let mut slots = Vec::new();
    for n in 1..=(TICKS_PER_SAMPLE as usize * 3) {
        let (_, slot) = apu.tick();
        if n % 87 == 0 {
            slots.push(slot.unwrap());
        } else {
            assert_eq!(slot, None);
        }
    }
    assert_eq!(slots, vec![0, 2, 4]);
    assert!(!apu.output_ready());
    assert_eq!(apu.take_output(), 6);
    assert_eq!(apu.take_output(), 0);
}

#[test]
fn output_buffer_fills_then_starts_over() {
    let mut apu = Apu::default();
    let pairs = AUDIO_BUFFER_SIZE / 2;
    let mut last = None;
    for _ in 0..(TICKS_PER_SAMPLE as usize * pairs) {
        if let (_, Some(i)) = apu.tick() {
            last = Some(i);
        }
    }
    assert_eq!(last, Some(AUDIO_BUFFER_SIZE - 2));
    assert!(apu.output_ready());
    let mut next = None;
    for _ in 0..TICKS_PER_SAMPLE {
        if let (_, Some(i)) = apu.tick() {
            next = Some(i);
        }
    }
    assert_eq!(next, Some(0));
    assert!(!apu.output_ready());
}
