use nes_core::apu::APU;
use nes_core::audio::{AudioOut, AudioQueue, DummyAudioOut};
use nes_core::cpu::IrqInterrupt;

fn create_test_apu() -> APU<DummyAudioOut> {
    APU::new(DummyAudioOut::new())
}

fn recording_apu(rate: u32) -> APU<AudioQueue> {
    APU::new(AudioQueue::new(rate))
}

#[test]
fn test_writable_registers() {
    // Each register takes what is written to it, decoded into its fields.
    for val in [12u8, 125u8] {
        let mut apu = create_test_apu();
        apu.write(0x4015, 0x0F);
        apu.write(0x4000, val);
        assert_eq!(apu.pulse1().duty, (val >> 6) as usize);
        assert_eq!(apu.pulse1().envelope.volume, val & 0x0F);
        assert_eq!(apu.pulse1().envelope.constant, val & 0x10 != 0);
        assert_eq!(apu.pulse1().length.halted, val & 0x20 != 0);
        apu.write(0x4001, val);
        assert_eq!(apu.pulse1().sweep.enable, val & 0x80 != 0);
        assert_eq!(apu.pulse1().sweep.period, (val & 0x70) >> 4);
        assert_eq!(apu.pulse1().sweep.negate, val & 0x08 != 0);
        assert_eq!(apu.pulse1().sweep.shift, val & 0x07);
        apu.write(0x4002, val);
        assert_eq!(apu.pulse1().timer.period, val as u16);
        apu.write(0x4003, val);
        assert_eq!(apu.pulse1().timer.period, ((val as u16 & 7) << 8) | val as u16);
        apu.write(0x4004, val);
        assert_eq!(apu.pulse2().envelope.volume, val & 0x0F);
        apu.write(0x4005, val);
        assert_eq!(apu.pulse2().sweep.shift, val & 0x07);
        apu.write(0x4006, val);
        assert_eq!(apu.pulse2().timer.period, val as u16);
        apu.write(0x4007, val);
        assert_eq!(apu.pulse2().timer.period, ((val as u16 & 7) << 8) | val as u16);
        apu.write(0x4008, val);
        assert_eq!(apu.triangle().counter, val & 0x7F);
        apu.write(0x400A, val);
        assert_eq!(apu.triangle().timer.period, val as u16);
        apu.write(0x400B, val);
        assert_eq!(apu.triangle().timer.period, ((val as u16 & 7) << 8) | val as u16);
        apu.write(0x400C, val);
        assert_eq!(apu.noise().envelope.volume, val & 0x0F);
        apu.write(0x400E, val);
        assert_eq!(apu.noise().period_index, val & 0x0F);
        assert_eq!(apu.noise().mode, val & 0x80 != 0);
        apu.write(0x400F, val);
        assert!(apu.noise().length.remaining > 0);
        apu.write(0x4010, val);
        assert_eq!(apu.dmc().freq, val);
        apu.write(0x4011, val);
        assert_eq!(apu.dmc().direct, val);
        apu.write(0x4012, val);
        assert_eq!(apu.dmc().sample_addr, val);
        apu.write(0x4013, val);
        assert_eq!(apu.dmc().sample_length, val);
        apu.write(0x4017, val);
        assert_eq!(apu.frame().bits(), val & 0xC0);
    }
}

#[test]
fn unused_registers_take_nothing() {
    let mut apu = create_test_apu();
    for reg in [0x4009u16, 0x400D, 0x4014, 0x4016, 0x4018, 0x401F] {
        apu.write(reg, 0xFF);
    }
    assert_eq!(apu.pulse1(), APU::new(DummyAudioOut::new()).pulse1());
    assert_eq!(apu.triangle().counter, 0);
    assert_eq!(apu.dmc().freq, 0);
    assert_eq!(apu.frame().bits(), 0);
}

#[test]
fn registers_repeat_every_32_bytes() {
    let mut apu = create_test_apu();
    apu.write(0x4030, 0x55);
    assert_eq!(apu.dmc().freq, 0x55);
}

#[test]
fn power_on_schedule() {
    let apu = create_test_apu();
    assert_eq!(apu.global_cyc(), 0);
    assert_eq!(apu.requested_run_cycle(), 7459);
    assert_eq!(apu.next_transfer_cycle(), 29830);
    assert!(!apu.irq_requested());
    assert_eq!(apu.frame().mode(), 0);
}

#[test]
fn four_step_round_raises_irq() {
    let mut apu = create_test_apu();
    assert_eq!(apu.run_to(7459), IrqInterrupt::NoIrq);
    assert_eq!(apu.sequencer_step(), 1);
    assert_eq!(apu.requested_run_cycle(), 7459 + 7456);
    assert_eq!(apu.run_to(29830), IrqInterrupt::NoIrq);
    assert_eq!(apu.sequencer_step(), 3);
    assert_eq!(apu.requested_run_cycle(), 29831);
    assert_eq!(apu.run_to(29831), IrqInterrupt::IRQ);
    assert_eq!(apu.sequencer_step(), 0);
    assert_eq!(apu.requested_run_cycle(), 29831 + 7458);
    assert!(apu.irq_requested());

    let (irq, status) = apu.read_status(29832);
    assert_eq!(irq, IrqInterrupt::NoIrq);
    assert_eq!(status & 0x40, 0x40);
    let (irq, status) = apu.read_status(29832);
    assert_eq!(irq, IrqInterrupt::NoIrq);
    assert_eq!(status & 0x40, 0x00);
}

#[test]
fn irq_comes_once_per_round() {
    let mut apu = create_test_apu();
    assert_eq!(apu.run_to(29831), IrqInterrupt::IRQ);
    assert_eq!(apu.run_to(29831 + 29829), IrqInterrupt::NoIrq);
    assert_eq!(apu.run_to(29831 + 29830), IrqInterrupt::IRQ);
}

#[test]
fn status_read_at_the_cycle_of_the_irq_sees_the_flag_one_read_later() {
    let mut apu = create_test_apu();
    let (irq, status) = apu.read_status(29831);
    assert_eq!(irq, IrqInterrupt::IRQ);
    assert_eq!(status & 0x40, 0x00);
    let (_, status) = apu.read_status(29831);
    assert_eq!(status & 0x40, 0x40);
}

#[test]
fn status_read_at_cycle_zero() {
    let mut apu = create_test_apu();
    assert_eq!(apu.read_status(0), (IrqInterrupt::NoIrq, 0));
    assert_eq!(apu.global_cyc(), 0);
}

#[test]
fn suppressed_irq_is_not_raised() {
    let mut apu = create_test_apu();
    apu.write(0x4017, 0x40);
    assert_eq!(apu.run_to(40000), IrqInterrupt::NoIrq);
    assert!(!apu.irq_requested());
    let (_, status) = apu.read_status(40001);
    assert_eq!(status & 0x40, 0);
}

#[test]
fn suppress_bit_takes_a_pending_irq_back() {
    let mut apu = create_test_apu();
    assert_eq!(apu.run_to(29832), IrqInterrupt::IRQ);
    assert!(apu.irq_requested());
    apu.write(0x4017, 0x40);
    assert!(!apu.irq_requested());
}

#[test]
fn five_step_round_raises_no_irq() {
    let mut apu = create_test_apu();
    apu.write(0x4017, 0x80);
    assert_eq!(apu.frame().mode(), 1);
    assert_eq!(apu.requested_run_cycle(), 1);
    assert_eq!(apu.run_to(1), IrqInterrupt::NoIrq);
    assert_eq!(apu.sequencer_step(), 1);
    assert_eq!(apu.requested_run_cycle(), 1 + 7458);
    assert_eq!(apu.run_to(29831), IrqInterrupt::NoIrq);
    assert_eq!(apu.sequencer_step(), 0);
    assert_eq!(apu.requested_run_cycle(), 29831 + 7452);
    assert_eq!(apu.run_to(80000), IrqInterrupt::NoIrq);
}

#[test]
fn frame_register_write_on_an_odd_cycle_waits_one_cycle() {
    let mut apu = create_test_apu();
    apu.run_to(101);
    apu.write(0x4017, 0x80);
    assert_eq!(apu.frame().mode(), 0);
    apu.run_to(101);
    assert_eq!(apu.frame().mode(), 0);
    assert_eq!(apu.requested_run_cycle(), 7459);
    apu.run_to(102);
    assert_eq!(apu.frame().mode(), 1);
    assert_eq!(apu.sequencer_step(), 0);
    assert_eq!(apu.requested_run_cycle(), 103);
}

#[test]
fn frame_register_write_on_an_even_cycle_is_immediate() {
    let mut apu = create_test_apu();
    apu.run_to(100);
    apu.write(0x4017, 0x80);
    assert_eq!(apu.frame().mode(), 1);
    assert_eq!(apu.requested_run_cycle(), 101);
    apu.write(0x4017, 0x00);
    assert_eq!(apu.frame().mode(), 0);
    assert_eq!(apu.requested_run_cycle(), 100 + 7459);
}

fn start_decay(apu: &mut APU<DummyAudioOut>) {
    apu.write(0x4015, 0x01);
    apu.write(0x4000, 0x00);
    apu.write(0x4003, 0x08);
}

#[test]
fn one_round_clocks_the_envelopes_four_times() {
    // The first clock after a restart loads the decay counter with 15; with
    // a period of zero, each further clock takes one off.
    let mut apu = create_test_apu();
    start_decay(&mut apu);
    assert_eq!(apu.pulse1().length.remaining, 254);
    apu.run_to(29831);
    assert_eq!(apu.pulse1().envelope.decay, 12);
    assert_eq!(apu.pulse1().length.remaining, 252);

    let mut apu = create_test_apu();
    apu.write(0x4017, 0x80);
    start_decay(&mut apu);
    apu.run_to(29831);
    assert_eq!(apu.pulse1().envelope.decay, 12);
    assert_eq!(apu.pulse1().length.remaining, 252);
    // The fifth step clocks nothing.
    apu.run_to(29832);
    assert_eq!(apu.pulse1().envelope.decay, 12);
}

#[test]
fn apu_run_to_an_earlier_cycle_does_nothing() {
    let mut apu = create_test_apu();
    start_decay(&mut apu);
    apu.run_to(30000);
    let pulse = apu.pulse1();
    let next = apu.requested_run_cycle();
    assert_eq!(apu.run_to(30000), IrqInterrupt::NoIrq);
    assert_eq!(apu.run_to(500), IrqInterrupt::NoIrq);
    assert_eq!(apu.run_to(0), IrqInterrupt::NoIrq);
    assert_eq!(apu.global_cyc(), 30000);
    assert_eq!(apu.pulse1(), pulse);
    assert_eq!(apu.requested_run_cycle(), next);
    assert!(apu.irq_requested());
}

#[test]
fn status_tells_which_channels_are_audible() {
    let mut apu = create_test_apu();
    apu.write(0x4015, 0x0F);
    apu.write(0x4003, 0x08);
    apu.write(0x400B, 0x08);
    let (_, status) = apu.read_status(10);
    assert_eq!(status, 0b0000_0101);
    apu.write(0x4007, 0x08);
    apu.write(0x400F, 0x08);
    let (_, status) = apu.read_status(20);
    assert_eq!(status, 0b0000_1111);
    apu.write(0x4015, 0x02);
    let (_, status) = apu.read_status(30);
    assert_eq!(status, 0b0000_0010);
}

#[test]
fn disabled_channel_does_not_load_its_length_counter() {
    let mut apu = create_test_apu();
    apu.write(0x4003, 0x08);
    assert_eq!(apu.pulse1().length.remaining, 0);
    let (_, status) = apu.read_status(10);
    assert_eq!(status & 0x01, 0);
}

#[test]
fn samples_go_out_once_per_frame() {
    let mut apu = recording_apu(44100);
    assert_eq!(apu.next_transfer_cycle(), 29830);
    assert_eq!(apu.device().sample_rate(), 44100);
    apu.run_to(29829);
    assert_eq!(apu.device().len(), 0);
    apu.run_to(29830);
    assert_eq!(apu.device().len(), 1);
    assert_eq!(apu.device().get(0).len(), 735);
    assert_eq!(apu.next_transfer_cycle(), 29830 + 29830);
    apu.run_to(200000);
    let taken = apu.device_mut().take();
    assert_eq!(taken.len(), 6);
    for buffer in &taken {
        assert_eq!(buffer.len(), 735);
    }
    assert_eq!(apu.device().len(), 0);
    apu.run_to(210000);
    assert_eq!(apu.device().len(), 1);
}

#[test]
fn pulse_wave_reaches_the_device() {
    let mut apu = recording_apu(44100);
    apu.write(0x4015, 0x01);
    // Duty 2, constant volume 15, halted length counter.
    apu.write(0x4000, 0b1011_1111);
    // Period 0x0FD: the output changes every 254 * 2 cycles.
    apu.write(0x4002, 0xFD);
    apu.write(0x4003, 0x08);
    apu.run_to(29830);
    let samples = apu.device().get(0);
    assert_eq!(samples.len(), 735);
    assert!(samples.iter().all(|s| *s == 0 || *s == 15));
    // The first clock comes at cycle 0 and raises the output.
    assert_eq!(samples[0], 15);
    // Step 5 of the duty sequence, four clocks later, drops it.
    let fall = (4 * 508 * 44100 / 1789773) as usize;
    assert_eq!(samples[fall - 1], 15);
    assert_eq!(samples[fall + 1], 0);
    assert!(samples.iter().any(|s| *s == 15));
    assert!(samples.iter().any(|s| *s == 0));
}

#[test]
fn silent_apu_sends_silence() {
    let mut apu = recording_apu(48000);
    apu.run_to(100000);
    let taken = apu.device_mut().take();
    assert!(taken.len() >= 3);
    for buffer in &taken {
        assert_eq!(buffer.len(), 800);
        assert!(buffer.iter().all(|s| *s == 0));
    }
}

#[test]
fn slow_device_gets_one_sample_per_transfer() {
    let mut apu = recording_apu(30);
    assert_eq!(apu.next_transfer_cycle(), 59660);
    apu.run_to(59660);
    assert_eq!(apu.device().len(), 1);
    assert_eq!(apu.device().get(0).len(), 1);
}
