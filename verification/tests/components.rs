use nes_core::apu::buffer::SampleBuffer;
use nes_core::apu::channels::{Noise, Triangle, DMC};
use nes_core::apu::components::{Envelope, Length, Timer, TimerClock, Waveform, LENGTH_TABLE};
use nes_core::apu::pulse::{Pulse, Sweep, PULSE_DUTY_CYCLES};
use nes_core::apu::sequencer::{Frame, Jitter, MODE, NTSC_TICK_LENGTH_TABLE, SUPPRESS_IRQ};
use nes_core::cpu::IrqInterrupt;

#[test]
fn interrupts_combine() {
    assert_eq!(IrqInterrupt::NoIrq.or(IrqInterrupt::NoIrq), IrqInterrupt::NoIrq);
    assert_eq!(IrqInterrupt::NoIrq.or(IrqInterrupt::IRQ), IrqInterrupt::IRQ);
    assert_eq!(IrqInterrupt::IRQ.or(IrqInterrupt::NoIrq), IrqInterrupt::IRQ);
    assert_eq!(IrqInterrupt::IRQ.or(IrqInterrupt::IRQ), IrqInterrupt::IRQ);
}

#[test]
fn length_counter_loads_counts_and_stops() {
    let mut length = Length::new(5);
    assert_eq!(length.halt_mask, 0x20);
    length.write_counter(0x08);
    assert_eq!(length.remaining, 0);
    assert!(!length.audible());
    length.set_enable(true);
    length.write_counter(0x08);
    assert_eq!(length.remaining, 254);
    assert_eq!(length.active(), 1);
    length.tick();
    assert_eq!(length.remaining, 253);
    length.write_halt(0x20);
    length.tick();
    assert_eq!(length.remaining, 253);
    length.write_halt(0xDF);
    length.write_counter(0x18);
    assert_eq!(length.remaining, 2);
    length.tick();
    length.tick();
    length.tick();
    assert_eq!(length.remaining, 0);
    assert_eq!(length.active(), 0);
    length.write_counter(0xF8);
    assert_eq!(length.remaining, 30);
    length.set_enable(false);
    assert_eq!(length.remaining, 0);
    assert_eq!(LENGTH_TABLE[0], 10);
    assert_eq!(Length::new(7).halt_mask, 0x80);
}

#[test]
fn envelope_decays_and_loops() {
    let mut envelope = Envelope::new();
    envelope.write(0b0000_0001);
    assert_eq!(envelope.volume(), 0);
    envelope.restart();
    envelope.tick();
    assert_eq!(envelope.volume(), 15);
    assert_eq!(envelope.divider, 1);
    envelope.tick();
    assert_eq!(envelope.volume(), 15);
    envelope.tick();
    assert_eq!(envelope.volume(), 14);
    for _ in 0..28 {
        envelope.tick();
    }
    assert_eq!(envelope.volume(), 0);
    envelope.tick();
    envelope.tick();
    assert_eq!(envelope.volume(), 0);
    envelope.write(0b0010_0001);
    envelope.tick();
    envelope.tick();
    assert_eq!(envelope.volume(), 15);
    envelope.write(0b0001_1001);
    assert_eq!(envelope.volume(), 9);
}

#[test]
fn timer_clocks_every_wavelength() {
    let mut timer = Timer::new(2);
    timer.write_low(0x10);
    timer.write_high(0xF8);
    assert_eq!(timer.period(), 0x10);
    let mut cycle = 0u32;
    let mut clocks = Vec::new();
    while let TimerClock::Clock = timer.run(&mut cycle, 100) {
        clocks.push(cycle);
    }
    assert_eq!(clocks, vec![0, 34, 68]);
    assert_eq!(cycle, 100);
    assert_eq!(timer.remaining, 2);
    let mut cycle = 100u32;
    assert_eq!(timer.run(&mut cycle, 102), TimerClock::NoClock);
    assert_eq!(timer.remaining, 0);
    let mut cycle = 102u32;
    assert_eq!(timer.run(&mut cycle, 103), TimerClock::Clock);
    assert_eq!(cycle, 102);
    assert_eq!(timer.remaining, 34);
    timer.write_high(0x07);
    assert_eq!(timer.period(), 0x710);
    timer.write_low(0xFF);
    assert_eq!(timer.period(), 0x7FF);
}

#[test]
fn timer_period_stays_in_eleven_bits() {
    let mut timer = Timer::new(1);
    timer.write_low(0x00);
    timer.write_high(0x04);
    timer.add_period_shift(0x100);
    assert_eq!(timer.period(), 0x500);
    timer.add_period_shift(0x400);
    assert_eq!(timer.period(), 0x500);
    timer.add_period_shift(-0x501);
    assert_eq!(timer.period(), 0x500);
    timer.add_period_shift(-0x500);
    assert_eq!(timer.period(), 0);
}

#[test]
fn sweep_shifts_the_period() {
    let mut timer = Timer::new(2);
    timer.write_low(0x00);
    timer.write_high(0x01);
    let mut sweep = Sweep::new(false);
    sweep.write(0b1001_0010);
    assert!(sweep.enable);
    assert_eq!(sweep.period, 1);
    assert_eq!(sweep.shift, 2);
    assert!(sweep.reload);
    assert!(sweep.audible());
    assert_eq!(sweep.period_shift(&timer), 0x40);
    sweep.write(0b1001_1010);
    assert_eq!(sweep.period_shift(&timer), -0x40);
    let mut second = Sweep::new(true);
    second.write(0b1001_1010);
    assert_eq!(second.period_shift(&timer), -0x3F);

    // The divider is at zero: the first clock fires and reloads it.
    sweep.tick(&mut timer);
    assert_eq!(timer.period(), 0x100 - 0x40);
    assert_eq!(sweep.divider, 1);
    assert!(!sweep.reload);
    // The next clock counts the divider down to zero and fires again.
    sweep.tick(&mut timer);
    assert_eq!(timer.period(), 0xC0 - 0x30);
    assert_eq!(sweep.divider, 1);

    let mut idle = Sweep::new(false);
    idle.write(0b0001_0010);
    idle.tick(&mut timer);
    assert_eq!(timer.period(), 0x90);
    assert!(idle.reload);
}

#[test]
fn waveform_records_changes_only() {
    let mut buffer = SampleBuffer::new(44100);
    let mut wave = Waveform::new();
    wave.set_amplitude(&mut buffer, 0, 3);
    assert_eq!(buffer.delta_at(3), 0);
    wave.set_amplitude(&mut buffer, 9, 4);
    assert_eq!(buffer.delta_at(4), 9);
    wave.set_amplitude(&mut buffer, 9, 5);
    assert_eq!(buffer.delta_at(5), 0);
    wave.set_amplitude(&mut buffer, 2, 6);
    assert_eq!(buffer.delta_at(6), -7);
    assert_eq!(wave.last_amp, 2);
}

fn audible_pulse() -> Pulse {
    let mut pulse = Pulse::new(false);
    pulse.length.set_enable(true);
    // Duty 2, halted length counter, constant volume 15.
    pulse.write(0x4000, 0b1011_1111);
    pulse.write(0x4002, 0x10);
    pulse.write(0x4003, 0x08);
    pulse
}

#[test]
fn pulse_duty_phase() {
    let mut buffer = SampleBuffer::new(44100);
    let mut pulse = audible_pulse();
    assert_eq!(pulse.duty, 2);
    assert_eq!(pulse.timer.period(), 0x10);
    assert_eq!(pulse.length.remaining, 254);
    pulse.play(&mut buffer, 0, 100);
    // The timer runs out at cycles 0, 34 and 68.
    assert_eq!(pulse.duty_index, 3);
    let positive: Vec<u32> = (0..100).filter(|t| buffer.delta_at(*t) > 0).collect();
    let negative: Vec<u32> = (0..100).filter(|t| buffer.delta_at(*t) < 0).collect();
    assert_eq!(positive, vec![0]);
    assert_eq!(negative, Vec::<u32>::new());
    assert_eq!(buffer.delta_at(0), 15);

    pulse.play(&mut buffer, 100, 400);
    // The timer runs out at 102, 136, 170, 204, 238, 272, 306, 340 and 374.
    assert_eq!(pulse.duty_index, 4);
    let positive: Vec<u32> = (0..400).filter(|t| buffer.delta_at(*t) > 0).collect();
    let negative: Vec<u32> = (0..400).filter(|t| buffer.delta_at(*t) < 0).collect();
    assert_eq!(positive, vec![0, 272]);
    assert_eq!(negative, vec![136]);
    assert_eq!(buffer.delta_at(136), -15);
}

#[test]
fn pulse_duty_tables() {
    for duty in 0..4 {
        let rises = PULSE_DUTY_CYCLES[duty].iter().filter(|e| **e == 1).count();
        let falls = PULSE_DUTY_CYCLES[duty].iter().filter(|e| **e == -1).count();
        assert_eq!((rises, falls), (1, 1));
    }
    assert_eq!(PULSE_DUTY_CYCLES[3][1], -1);
    assert_eq!(PULSE_DUTY_CYCLES[0][2], -1);
}

#[test]
fn silenced_pulse_drops_to_zero_and_holds_its_timer() {
    let mut buffer = SampleBuffer::new(44100);
    let mut pulse = audible_pulse();
    pulse.play(&mut buffer, 0, 10);
    assert_eq!(pulse.waveform.last_amp, 15);
    let remaining = pulse.timer.remaining;
    pulse.length.set_enable(false);
    pulse.play(&mut buffer, 10, 500);
    assert_eq!(buffer.delta_at(10), -15);
    assert_eq!(pulse.waveform.last_amp, 0);
    assert_eq!(pulse.timer.remaining, remaining);
    assert_eq!(pulse.duty_index, 1);
}

#[test]
fn pulse_register_three_restarts_envelope_and_sequencer() {
    let mut buffer = SampleBuffer::new(44100);
    let mut pulse = audible_pulse();
    pulse.play(&mut buffer, 0, 100);
    assert_eq!(pulse.duty_index, 3);
    pulse.envelope.tick();
    assert!(!pulse.envelope.start);
    pulse.write(3, 0x0F);
    assert_eq!(pulse.duty_index, 0);
    assert!(pulse.envelope.start);
    assert_eq!(pulse.timer.period(), 0x710);
    assert_eq!(pulse.length.remaining, 254);
}

#[test]
fn pulse_half_frame_clocks_length_and_sweep() {
    let mut pulse = Pulse::new(true);
    pulse.length.set_enable(true);
    pulse.write(3, 0x09);
    pulse.write(2, 0x00);
    pulse.write(1, 0b1000_1001);
    pulse.length_tick();
    assert_eq!(pulse.length.remaining, 253);
    assert_eq!(pulse.timer.period(), 0x100 + 1 - 0x80);
    pulse.envelope_tick();
    assert_eq!(pulse.envelope.decay, 15);
}

#[test]
fn silent_channels_keep_their_registers() {
    let mut triangle = Triangle::new();
    triangle.length.set_enable(true);
    triangle.write(0, 0xFF);
    assert_eq!(triangle.counter, 0x7F);
    assert!(triangle.length.halted);
    triangle.write(1, 0xFF);
    triangle.write(2, 0x34);
    triangle.write(3, 0x0A);
    assert_eq!(triangle.timer.period(), 0x234);
    assert_eq!(triangle.length.remaining, 254);
    triangle.length_tick();
    assert_eq!(triangle.length.remaining, 254);
    triangle.play(0, 100);
    assert_eq!(triangle.timer.remaining, 0);

    let mut noise = Noise::new();
    noise.length.set_enable(true);
    noise.write(0, 0b0001_0111);
    assert_eq!(noise.envelope.volume(), 7);
    noise.write(2, 0x8C);
    assert!(noise.mode);
    assert_eq!(noise.period_index, 12);
    noise.write(3, 0x18);
    assert_eq!(noise.length.remaining, 2);
    noise.length_tick();
    noise.envelope_tick();
    noise.play(0, 100);
    assert_eq!(noise.length.remaining, 1);

    let mut dmc = DMC::new();
    for (idx, val) in [(0u16, 1u8), (1, 2), (2, 3), (3, 4)] {
        dmc.write(idx, val);
    }
    dmc.play(0, 100);
    assert_eq!((dmc.freq, dmc.direct, dmc.sample_addr, dmc.sample_length), (1, 2, 3, 4));
}

#[test]
fn frame_register_bits() {
    let frame = Frame::from_bits_truncate(0xFF);
    assert_eq!(frame.bits(), 0xC0);
    assert_eq!(frame.mode(), 1);
    assert!(frame.suppresses_irq());
    assert!(frame.contains(MODE | SUPPRESS_IRQ));
    assert_eq!(Frame::empty().mode(), 0);
    assert!(!Frame::from_bits_truncate(0x80).suppresses_irq());
    assert_eq!(NTSC_TICK_LENGTH_TABLE[0][..5].iter().sum::<u64>(), 7459 + 7456 + 3 * 7458);
    assert_eq!(NTSC_TICK_LENGTH_TABLE[1][5], 7452);
    assert_ne!(Jitter::Delay(3, 4), Jitter::Settled);
}
