//! The audio processing unit: five sound channels, the frame sequencer that
//! clocks them, and the sample buffer that feeds the audio device.

pub mod buffer;
pub mod channels;
pub mod components;
pub mod laws;
pub mod pulse;
pub mod sequencer;
pub mod state;

use vstd::prelude::*;
use crate::apu::buffer::SampleBuffer;
use crate::apu::channels::{Noise, Triangle, DMC};
use crate::apu::pulse::Pulse;
use crate::apu::sequencer::{Frame, Jitter, NTSC_TICK_LENGTH_TABLE};
use crate::apu::state::ApuView;
use crate::audio::AudioOut;
use crate::cpu::{IrqInterrupt, MAX_CYCLE};

verus! {

/// One PCM sample.
pub type Sample = i16;

/// The APU. It runs at the rate of the CPU and is driven by `run_to`.
pub struct APU<A: AudioOut> {
    pulse1: Pulse,
    pulse2: Pulse,
    triangle: Triangle,
    noise: Noise,
    dmc: DMC,
    frame: Frame,
    square_buffer: SampleBuffer,
    device: A,
    global_cyc: u64,
    tick: u8,
    next_tick_cyc: u64,
    next_transfer_cyc: u64,
    last_frame_cyc: u64,
    irq_requested: bool,
    jitter: Jitter,
}

impl<A: AudioOut> APU<A> {
    pub closed spec fn view(&self) -> ApuView {
        ApuView {
            pulse1: self.pulse1,
            pulse2: self.pulse2,
            triangle: self.triangle,
            noise: self.noise,
            dmc: self.dmc,
            frame: self.frame,
            buffer: self.square_buffer@,
            played: self.device.played(),
            global_cyc: self.global_cyc as int,
            tick: self.tick as int,
            next_tick_cyc: self.next_tick_cyc as int,
            next_transfer_cyc: self.next_transfer_cyc as int,
            last_frame_cyc: self.last_frame_cyc as int,
            irq_requested: self.irq_requested,
            jitter: self.jitter,
        }
    }

    pub open spec fn wf(&self) -> bool {
        self@.wf()
    }

    /// The audio device of this APU.
    pub closed spec fn spec_device(&self) -> &A {
        &self.device
    }

    /// An APU at power-on that plays to `device`.
    pub fn new(device: A) -> (apu: APU<A>)
        requires
            device.rate() > 0,
        ensures
            apu.wf(),
            apu@ == ApuView::initial(device.rate(), device.played()),
            *apu.spec_device() == device,
    {
        let sample_rate = device.sample_rate();
        let square_buffer = SampleBuffer::new(sample_rate);
        let clocks_needed = square_buffer.clocks_needed() as u64;
        APU {
            pulse1: Pulse::new(false),
            pulse2: Pulse::new(true),
            triangle: Triangle::new(),
            noise: Noise::new(),
            dmc: DMC::new(),
            frame: Frame::empty(),
            square_buffer,
            device,
            global_cyc: 0,
            tick: 0,
            next_tick_cyc: NTSC_TICK_LENGTH_TABLE[0][0],
            next_transfer_cyc: clocks_needed,
            last_frame_cyc: 0,
            irq_requested: false,
            jitter: Jitter::Settled,
        }
    }

    /// Runs the APU up to `cpu_cycle` and returns `IRQ` if the frame
    /// sequencer raised an interrupt on the way. An APU that is already at
    /// or past `cpu_cycle` stays as it is.
    pub fn run_to(&mut self, cpu_cycle: u64) -> (interrupt: IrqInterrupt)
        requires
            old(self).wf(),
            cpu_cycle <= MAX_CYCLE,
        ensures
            final(self).wf(),
            final(self)@ == old(self)@.spec_run_to(cpu_cycle as int),
            interrupt == old(self)@.run_irq(cpu_cycle as int),
            final(self)@.global_cyc == if old(self)@.global_cyc >= cpu_cycle {
                old(self)@.global_cyc
            } else {
                cpu_cycle as int
            },
            old(self)@.global_cyc >= cpu_cycle ==> final(self)@ == old(self)@ && interrupt
                == IrqInterrupt::NoIrq,
            final(self).spec_device().rate() == old(self).spec_device().rate(),
    {
        let mut interrupt = IrqInterrupt::NoIrq;
        while self.global_cyc < cpu_cycle
            invariant
                old(self).wf(),
                self.wf(),
                cpu_cycle <= MAX_CYCLE,
                old(self)@.spec_run_to(cpu_cycle as int) == self@.spec_run_to(cpu_cycle as int),
                old(self)@.run_irq(cpu_cycle as int) == interrupt.spec_or(
                    self@.run_irq(cpu_cycle as int),
                ),
                self.spec_device().rate() == old(self).spec_device().rate(),
                old(self)@.global_cyc >= cpu_cycle ==> self@ == old(self)@ && interrupt
                    == IrqInterrupt::NoIrq,
                old(self)@.global_cyc < cpu_cycle ==> self@.global_cyc <= cpu_cycle,
            decreases cpu_cycle - self.global_cyc,
        {
            let raised = self.step(cpu_cycle);
            interrupt = interrupt.or(raised);
        }
        interrupt
    }

    /// One stride towards `cpu_cycle`: up to the next cycle at which
    /// something is due, and what is due there.
    fn step(&mut self, cpu_cycle: u64) -> (irq: IrqInterrupt)
        requires
            old(self).wf(),
            old(self)@.global_cyc < cpu_cycle <= MAX_CYCLE,
        ensures
            final(self).wf(),
            final(self)@ == old(self)@.spec_step(cpu_cycle as int),
            irq == old(self)@.step_irq(cpu_cycle as int),
            old(self)@.global_cyc < final(self)@.global_cyc <= cpu_cycle,
            final(self).spec_device().rate() == old(self).spec_device().rate(),
    {
        let next_step = self.next_step(cpu_cycle);
        self.advance(next_step);
        self.settle();
        let mut irq = IrqInterrupt::NoIrq;
        if self.global_cyc == self.next_tick_cyc {
            irq = self.tick();
        }
        if self.global_cyc == self.next_transfer_cyc {
            self.transfer();
        }
        irq
    }

    /// The next cycle at which something is due, on the way to `cpu_cycle`:
    /// a step of the sequencer, a transfer of samples, or a pending write to
    /// the frame register.
    fn next_step(&self, cpu_cycle: u64) -> (next: u64)
        ensures
            next == self@.next_step(cpu_cycle as int),
    {
        let mut next_step = if cpu_cycle <= self.next_tick_cyc {
            cpu_cycle
        } else {
            self.next_tick_cyc
        };
        if self.next_transfer_cyc < next_step {
            next_step = self.next_transfer_cyc;
        }
        if let Jitter::Delay(time, _) = self.jitter {
            if time < next_step {
                next_step = time;
            }
        }
        next_step
    }

    /// Plays up to `next` and moves the clock there.
    fn advance(&mut self, next: u64)
        requires
            old(self).wf(),
            old(self)@.global_cyc < next <= MAX_CYCLE,
            next <= old(self)@.next_tick_cyc,
            next <= old(self)@.next_transfer_cyc,
            old(self)@.jitter matches Jitter::Delay(time, _) ==> next <= time,
        ensures
            final(self)@ == old(self)@.spec_advance(next as int),
            final(self)@.reaches(old(self)@, next as int),
            *final(self).spec_device() == *old(self).spec_device(),
    {
        let current_cycle = self.global_cyc;
        self.play(current_cycle, next);
        self.global_cyc = next;
    }

    /// Lets a pending write to the frame register take effect if its cycle
    /// has come.
    fn settle(&mut self)
        requires
            old(self)@.global_cyc <= MAX_CYCLE,
        ensures
            final(self)@ == old(self)@.spec_settle(),
            *final(self).spec_device() == *old(self).spec_device(),
    {
        if let Jitter::Delay(time, val) = self.jitter {
            if self.global_cyc == time {
                self.set_4017(val);
                self.jitter = Jitter::Settled;
            }
        }
    }

    /// One step of the frame sequencer: schedules the step after it, clocks
    /// what the step clocks, and raises the interrupt at the end of a
    /// four-step round.
    fn tick(&mut self) -> (irq: IrqInterrupt)
        requires
            old(self)@.channels_wf(),
            old(self)@.global_cyc <= MAX_CYCLE,
            0 <= old(self)@.tick <= 3 + old(self)@.frame.spec_mode(),
        ensures
            final(self)@ == old(self)@.spec_tick(),
            final(self)@.buffer == old(self)@.buffer,
            irq == IrqInterrupt::IRQ <==> old(self)@.tick_raises_irq(),
            irq == IrqInterrupt::IRQ || irq == IrqInterrupt::NoIrq,
            final(self)@.channels_wf(),
            *final(self).spec_device() == *old(self).spec_device(),
    {
        self.tick += 1;
        let mode = self.frame.mode();
        self.next_tick_cyc = self.global_cyc + NTSC_TICK_LENGTH_TABLE[mode][self.tick as usize];
        if mode == 0 {
            match self.tick {
                1 => {
                    self.envelope_tick();
                },
                2 => {
                    self.envelope_tick();
                    self.length_tick();
                },
                3 => {
                    self.envelope_tick();
                },
                _ => {
                    self.tick = 0;
                    self.envelope_tick();
                    self.length_tick();
                    return self.raise_irq();
                },
            }
        } else {
            match self.tick {
                1 => {
                    self.envelope_tick();
                    self.length_tick()
                },
                2 => {
                    self.envelope_tick();
                },
                3 => {
                    self.envelope_tick();
                    self.length_tick()
                },
                4 => {
                    self.envelope_tick();
                },
                _ => {
                    self.tick = 0;
                },
            }
        }
        IrqInterrupt::NoIrq
    }

    /// A quarter-frame clock for the channels that have an envelope.
    fn envelope_tick(&mut self)
        requires
            old(self)@.channels_wf(),
        ensures
            final(self)@ == old(self)@.spec_envelope_tick(),
            final(self)@.channels_wf(),
            *final(self).spec_device() == *old(self).spec_device(),
    {
        self.pulse1.envelope_tick();
        self.pulse2.envelope_tick();
        self.noise.envelope_tick();
    }

    /// A half-frame clock for the channels that have a length counter.
    fn length_tick(&mut self)
        requires
            old(self)@.channels_wf(),
        ensures
            final(self)@ == old(self)@.spec_length_tick(),
            final(self)@.channels_wf(),
            *final(self).spec_device() == *old(self).spec_device(),
    {
        self.pulse1.length_tick();
        self.pulse2.length_tick();
        self.triangle.length_tick();
        self.noise.length_tick();
    }

    /// Raises the frame interrupt unless the frame register suppresses it.
    fn raise_irq(&mut self) -> (irq: IrqInterrupt)
        ensures
            final(self)@ == (ApuView {
                irq_requested: old(self)@.irq_requested || !old(self)@.frame.spec_suppresses_irq(),
                ..old(self)@
            }),
            irq == IrqInterrupt::IRQ <==> !old(self)@.frame.spec_suppresses_irq(),
            irq == IrqInterrupt::IRQ || irq == IrqInterrupt::NoIrq,
            *final(self).spec_device() == *old(self).spec_device(),
    {
        if !self.frame.suppresses_irq() {
            self.irq_requested = true;
            return IrqInterrupt::IRQ;
        }
        IrqInterrupt::NoIrq
    }

    /// Lets the channels play the cycles `[from_cyc, to_cyc)`, which they
    /// see as cycles since the start of the current frame of the buffer.
    fn play(&mut self, from_cyc: u64, to_cyc: u64)
        requires
            old(self)@.channels_wf(),
            old(self)@.last_frame_cyc <= from_cyc <= to_cyc,
            to_cyc - old(self)@.last_frame_cyc <= old(self)@.buffer.deltas.len(),
            from_cyc - old(self)@.last_frame_cyc < old(self)@.buffer.deltas.len(),
        ensures
            final(self)@ == old(self)@.spec_play(from_cyc as int, to_cyc as int),
            final(self)@.channels_wf(),
            old(self)@.buffer.same_but_deltas(final(self)@.buffer),
            *final(self).spec_device() == *old(self).spec_device(),
    {
        let from = (from_cyc - self.last_frame_cyc) as u32;
        let to = (to_cyc - self.last_frame_cyc) as u32;
        self.pulse1.play(&mut self.square_buffer, from, to);
        self.pulse2.play(&mut self.square_buffer, from, to);
        self.triangle.play(from, to);
        self.noise.play(from, to);
        self.dmc.play(from, to);
    }

    /// Ends the current frame of the sample buffer, hands its samples to the
    /// audio device and schedules the next transfer.
    fn transfer(&mut self)
        requires
            old(self)@.buffer.wf(),
            old(self)@.last_frame_cyc <= old(self)@.global_cyc <= MAX_CYCLE,
            old(self)@.global_cyc - old(self)@.last_frame_cyc <= old(self)@.buffer.deltas.len(),
        ensures
            final(self)@ == old(self)@.spec_transfer(),
            final(self)@.buffer.wf(),
            final(self)@.global_cyc < final(self)@.next_transfer_cyc,
            final(self)@.next_transfer_cyc - final(self)@.last_frame_cyc
                <= final(self)@.buffer.deltas.len(),
            final(self).spec_device().rate() == old(self).spec_device().rate(),
    {
        let cpu_cyc = self.global_cyc;
        let cycles_since_last_frame = (cpu_cyc - self.last_frame_cyc) as u32;
        self.last_frame_cyc = cpu_cyc;
        self.square_buffer.end_frame(cycles_since_last_frame);
        self.next_transfer_cyc = cpu_cyc + self.square_buffer.clocks_needed() as u64;
        self.device.play(self.square_buffer.read());
    }

    /// The CPU cycle that the APU has reached.
    pub fn global_cyc(&self) -> (cycle: u64)
        ensures
            cycle == self@.global_cyc,
    {
        self.global_cyc
    }

    /// The frame register.
    pub fn frame(&self) -> (frame: Frame)
        ensures
            frame == self@.frame,
    {
        self.frame
    }

    /// The last step that the frame sequencer took in its current round.
    pub fn sequencer_step(&self) -> (step: u8)
        ensures
            step == self@.tick,
    {
        self.tick
    }

    /// True while the frame interrupt waits to be acknowledged.
    pub fn irq_requested(&self) -> (flag: bool)
        ensures
            flag == self@.irq_requested,
    {
        self.irq_requested
    }

    /// The cycle of the next transfer of samples to the audio device.
    pub fn next_transfer_cycle(&self) -> (cycle: u64)
        ensures
            cycle == self@.next_transfer_cyc,
    {
        self.next_transfer_cyc
    }

    /// The first pulse channel.
    pub fn pulse1(&self) -> (pulse: Pulse)
        ensures
            pulse == self@.pulse1,
    {
        self.pulse1
    }

    /// The second pulse channel.
    pub fn pulse2(&self) -> (pulse: Pulse)
        ensures
            pulse == self@.pulse2,
    {
        self.pulse2
    }

    /// The triangle channel.
    pub fn triangle(&self) -> (triangle: Triangle)
        ensures
            triangle == self@.triangle,
    {
        self.triangle
    }

    /// The noise channel.
    pub fn noise(&self) -> (noise: Noise)
        ensures
            noise == self@.noise,
    {
        self.noise
    }

    /// The delta modulation channel.
    pub fn dmc(&self) -> (dmc: DMC)
        ensures
            dmc == self@.dmc,
    {
        self.dmc
    }

    /// The sample buffer of the pulse channels.
    pub fn square_buffer(&self) -> (buffer: &SampleBuffer)
        ensures
            buffer@ == self@.buffer,
    {
        &self.square_buffer
    }

    /// The audio device.
    pub fn device(&self) -> (device: &A)
        ensures
            device == self.spec_device(),
            device.played() == self@.played,
    {
        &self.device
    }

    /// The audio device, to take out of it what it has been given.
    pub fn device_mut(&mut self) -> (device: &mut A)
        ensures
            *device == *old(self).spec_device(),
            *final(self).spec_device() == *final(device),
            final(self)@ == (ApuView { played: final(device).played(), ..old(self)@ }),
    {
        &mut self.device
    }

    /// The cycle at which the CPU must run the APU again at the latest, so
    /// that no interrupt comes late: the next step of the frame sequencer.
    pub fn requested_run_cycle(&self) -> (cycle: u64)
        ensures
            cycle == self@.next_tick_cyc,
    {
        self.next_tick_cyc
    }

    /// Puts `val` into the frame register and starts the sequencer over.
    fn set_4017(&mut self, val: u8)
        requires
            old(self)@.global_cyc <= MAX_CYCLE,
        ensures
            final(self)@ == old(self)@.spec_set_4017(val),
            *final(self).spec_device() == *old(self).spec_device(),
    {
        self.frame = Frame::from_bits_truncate(val);
        if self.frame.suppresses_irq() {
            self.irq_requested = false;
        }
        self.tick = 0;
        self.next_tick_cyc = self.global_cyc + NTSC_TICK_LENGTH_TABLE[self.frame.mode()][0];
    }

    /// A read of the status register at `cycle`. The APU runs up to the
    /// cycle before, the register is read and its interrupt flag cleared,
    /// and the APU runs up to `cycle`. Returns the interrupt raised on the
    /// way and the byte read: bits 0 to 3 tell which of pulse 1, pulse 2,
    /// triangle and noise are audible, bit 6 is the interrupt flag.
    pub fn read_status(&mut self, cycle: u64) -> (r: (IrqInterrupt, u8))
        requires
            old(self).wf(),
            cycle <= MAX_CYCLE,
        ensures
            final(self).wf(),
            final(self)@ == old(self)@.spec_read_status(cycle as int),
            r.1 == old(self)@.spec_run_to(ApuView::cycle_before(cycle as int)).status(),
            r.0 == old(self)@.run_irq(ApuView::cycle_before(cycle as int)).spec_or(
                old(self)@.spec_run_to(
                    ApuView::cycle_before(cycle as int),
                ).spec_acknowledge().run_irq(cycle as int),
            ),
            final(self).spec_device().rate() == old(self).spec_device().rate(),
    {
        let before: u64 = if cycle > 0 {
            cycle - 1
        } else {
            0
        };
        let interrupt = self.run_to(before);
        let status: u8 = self.pulse1.length.active() | (self.pulse2.length.active() << 1u8) | (
        self.triangle.length.active() << 2u8) | (self.noise.length.active() << 3u8)
            | if self.irq_requested {
            0x40u8
        } else {
            0u8
        };
        self.irq_requested = false;
        let second = self.run_to(cycle);
        (interrupt.or(second), status)
    }

    /// A write of `val` to register `idx % 0x20`. Registers `0x00` to `0x13`
    /// belong to the channels, four each: pulse 1, pulse 2, triangle, noise,
    /// DMC. `0x15` enables the channels bit by bit. `0x17` is the frame
    /// register: on an even cycle the value takes effect at once, on an odd
    /// cycle one cycle later.
    pub fn write(&mut self, idx: u16, val: u8)
        requires
            old(self).wf(),
        ensures
            final(self).wf(),
            final(self)@ == old(self)@.spec_write(idx, val),
            *final(self).spec_device() == *old(self).spec_device(),
    {
        let reg = idx % 0x20;
        if reg <= 0x03 {
            self.pulse1.write(reg, val);
        } else if reg <= 0x07 {
            self.pulse2.write(reg, val);
        } else if reg <= 0x0B {
            self.triangle.write(reg, val);
        } else if reg <= 0x0F {
            self.noise.write(reg, val);
        } else if reg <= 0x13 {
            self.dmc.write(reg, val);
        } else if reg == 0x15 {
            self.noise.length.set_enable(val & 0x08 != 0);
            self.triangle.length.set_enable(val & 0x04 != 0);
            self.pulse2.length.set_enable(val & 0x02 != 0);
            self.pulse1.length.set_enable(val & 0x01 != 0);
        } else if reg == 0x17 {
            if self.global_cyc % 2 == 0 {
                self.set_4017(val);
            } else {
                self.jitter = Jitter::Delay(self.global_cyc + 1, val);
            }
        }
    }
}

} // verus!
