//! The state of the APU as a mathematical value, and the transitions that
//! the APU makes on it.

use vstd::prelude::*;
use crate::apu::buffer::SampleBufferView;
use crate::apu::channels::{Noise, Triangle, DMC};
use crate::apu::pulse::Pulse;
use crate::apu::sequencer::{
    asks_irq, clocks_envelope, clocks_length, wraps, Frame, Jitter, NTSC_TICK_LENGTH_TABLE,
};
use crate::cpu::{IrqInterrupt, MAX_CYCLE};

verus! {

/// What an APU holds, together with what its audio device has been given.
pub struct ApuView {
    pub pulse1: Pulse,
    pub pulse2: Pulse,
    pub triangle: Triangle,
    pub noise: Noise,
    pub dmc: DMC,
    pub frame: Frame,
    pub buffer: SampleBufferView,
    /// Every buffer of samples handed to the audio device, oldest first.
    pub played: Seq<Seq<i16>>,
    /// The CPU cycle that the APU has reached.
    pub global_cyc: int,
    /// The last step that the frame sequencer took in its current round.
    pub tick: int,
    pub next_tick_cyc: int,
    pub next_transfer_cyc: int,
    /// The cycle at which the current frame of the sample buffer began.
    pub last_frame_cyc: int,
    pub irq_requested: bool,
    pub jitter: Jitter,
}

impl ApuView {
    /// The channels and the buffer are in order.
    pub open spec fn channels_wf(self) -> bool {
        &&& self.pulse1.wf()
        &&& self.pulse2.wf()
        &&& self.triangle.wf()
        &&& self.noise.wf()
        &&& self.buffer.wf()
    }

    pub open spec fn wf(self) -> bool {
        &&& self.channels_wf()
        &&& 0 <= self.last_frame_cyc <= self.global_cyc <= MAX_CYCLE
        &&& self.global_cyc < self.next_transfer_cyc
        &&& self.next_transfer_cyc - self.last_frame_cyc <= self.buffer.deltas.len()
        &&& self.global_cyc < self.next_tick_cyc <= self.global_cyc + 7459
        &&& 0 <= self.tick <= 3 + self.frame.spec_mode()
        &&& (self.jitter matches Jitter::Delay(time, _) ==> time == self.global_cyc + 1)
    }

    /// The APU at power-on, for a device of the given rate that has been
    /// given `played` so far.
    pub open spec fn initial(rate: u32, played: Seq<Seq<i16>>) -> ApuView {
        let buffer = SampleBufferView::initial(rate);
        ApuView {
            pulse1: Pulse::initial(false),
            pulse2: Pulse::initial(true),
            triangle: Triangle::initial(),
            noise: Noise::initial(),
            dmc: DMC::initial(),
            frame: Frame { bits: 0 },
            buffer,
            played,
            global_cyc: 0,
            tick: 0,
            next_tick_cyc: NTSC_TICK_LENGTH_TABLE[0][0] as int,
            next_transfer_cyc: buffer.spec_clocks_needed(),
            last_frame_cyc: 0,
            irq_requested: false,
            jitter: Jitter::Settled,
        }
    }

    /// The channels play the cycles `[from_cyc, to_cyc)` into the buffer.
    pub open spec fn spec_play(self, from_cyc: int, to_cyc: int) -> ApuView {
        let from = (from_cyc - self.last_frame_cyc) as u32;
        let to = (to_cyc - self.last_frame_cyc) as u32;
        let (pulse1, buffer1) = self.pulse1.spec_play(self.buffer, from, to);
        let (pulse2, buffer2) = self.pulse2.spec_play(buffer1, from, to);
        ApuView { pulse1, pulse2, buffer: buffer2, ..self }
    }

    /// The value `val` takes effect in the frame register: the sequencer
    /// starts over, and a set suppress bit takes a pending request back.
    pub open spec fn spec_set_4017(self, val: u8) -> ApuView {
        let frame = Frame::spec_from_bits_truncate(val);
        ApuView {
            frame,
            irq_requested: self.irq_requested && !frame.spec_suppresses_irq(),
            tick: 0,
            next_tick_cyc: self.global_cyc + NTSC_TICK_LENGTH_TABLE[frame.spec_mode() as int][0],
            ..self
        }
    }

    pub open spec fn spec_envelope_tick(self) -> ApuView {
        ApuView {
            pulse1: self.pulse1.spec_envelope_tick(),
            pulse2: self.pulse2.spec_envelope_tick(),
            noise: self.noise.spec_envelope_tick(),
            ..self
        }
    }

    pub open spec fn spec_length_tick(self) -> ApuView {
        ApuView {
            pulse1: self.pulse1.spec_length_tick(),
            pulse2: self.pulse2.spec_length_tick(),
            triangle: self.triangle.spec_length_tick(),
            noise: self.noise.spec_length_tick(),
            ..self
        }
    }

    /// True if the next step of the sequencer raises an interrupt.
    pub open spec fn tick_raises_irq(self) -> bool {
        asks_irq(self.frame.spec_mode() as int, self.tick + 1)
            && !self.frame.spec_suppresses_irq()
    }

    /// The next step of the frame sequencer.
    pub open spec fn spec_tick(self) -> ApuView {
        let mode = self.frame.spec_mode() as int;
        let step = self.tick + 1;
        let scheduled = ApuView {
            tick: if wraps(mode, step) {
                0
            } else {
                step
            },
            next_tick_cyc: self.global_cyc + NTSC_TICK_LENGTH_TABLE[mode][step],
            irq_requested: self.irq_requested || self.tick_raises_irq(),
            ..self
        };
        let enveloped = if clocks_envelope(mode, step) {
            scheduled.spec_envelope_tick()
        } else {
            scheduled
        };
        if clocks_length(mode, step) {
            enveloped.spec_length_tick()
        } else {
            enveloped
        }
    }

    /// The current frame of the sample buffer ends and its samples go to the
    /// audio device.
    pub open spec fn spec_transfer(self) -> ApuView {
        let buffer = self.buffer.spec_end_frame(self.global_cyc - self.last_frame_cyc);
        ApuView {
            buffer,
            played: self.played.push(buffer.samples),
            last_frame_cyc: self.global_cyc,
            next_transfer_cyc: self.global_cyc + buffer.spec_clocks_needed(),
            ..self
        }
    }

    /// The next cycle at which something happens, on the way to `cpu_cycle`.
    pub open spec fn next_step(self, cpu_cycle: int) -> int {
        let first = if cpu_cycle <= self.next_tick_cyc {
            cpu_cycle
        } else {
            self.next_tick_cyc
        };
        let second = if first <= self.next_transfer_cyc {
            first
        } else {
            self.next_transfer_cyc
        };
        match self.jitter {
            Jitter::Delay(time, _) => if second <= time {
                second
            } else {
                time as int
            },
            Jitter::Settled => second,
        }
    }

    /// The APU after it has played up to `next` and before the events of
    /// that cycle.
    pub open spec fn spec_advance(self, next: int) -> ApuView {
        ApuView { global_cyc: next, ..self.spec_play(self.global_cyc, next) }
    }

    /// True if this is `before` moved to the cycle `next`, with nothing
    /// changed but what the channels played: the clock is at `next`, and
    /// the schedule of `before` has not been passed.
    pub open spec fn reaches(self, before: ApuView, next: int) -> bool {
        &&& self.channels_wf()
        &&& before.buffer.same_but_deltas(self.buffer)
        &&& self.global_cyc == next
        &&& self.frame == before.frame
        &&& self.tick == before.tick
        &&& self.next_tick_cyc == before.next_tick_cyc
        &&& self.next_transfer_cyc == before.next_transfer_cyc
        &&& self.last_frame_cyc == before.last_frame_cyc
        &&& self.jitter == before.jitter
    }

    /// A pending write to the frame register takes effect if its cycle has
    /// come.
    pub open spec fn spec_settle(self) -> ApuView {
        match self.jitter {
            Jitter::Delay(time, val) => if self.global_cyc == time {
                ApuView { jitter: Jitter::Settled, ..self.spec_set_4017(val) }
            } else {
                self
            },
            Jitter::Settled => self,
        }
    }

    /// True if the sequencer steps at the current cycle.
    pub open spec fn tick_due(self) -> bool {
        self.global_cyc == self.next_tick_cyc
    }

    /// True if the samples go out at the current cycle.
    pub open spec fn transfer_due(self) -> bool {
        self.global_cyc == self.next_transfer_cyc
    }

    /// The sequencer steps if its cycle has come.
    pub open spec fn spec_tick_if_due(self) -> ApuView {
        if self.tick_due() {
            self.spec_tick()
        } else {
            self
        }
    }

    /// The samples go out if their cycle has come.
    pub open spec fn spec_transfer_if_due(self) -> ApuView {
        if self.transfer_due() {
            self.spec_transfer()
        } else {
            self
        }
    }

    /// One stride towards `cpu_cycle`: play up to the next event, then a
    /// pending frame register write, a step of the sequencer and a transfer
    /// of samples, each if it is due at that cycle.
    pub open spec fn spec_step(self, cpu_cycle: int) -> ApuView {
        self.spec_advance(self.next_step(cpu_cycle)).spec_settle().spec_tick_if_due()
            .spec_transfer_if_due()
    }

    /// The interrupt that the stride towards `cpu_cycle` raises.
    pub open spec fn step_irq(self, cpu_cycle: int) -> IrqInterrupt {
        let settled = self.spec_advance(self.next_step(cpu_cycle)).spec_settle();
        if settled.tick_due() && settled.tick_raises_irq() {
            IrqInterrupt::IRQ
        } else {
            IrqInterrupt::NoIrq
        }
    }

    /// The APU after running to `cpu_cycle`.
    pub open spec fn spec_run_to(self, cpu_cycle: int) -> ApuView
        decreases cpu_cycle - self.global_cyc,
        when self.wf()
    {
        if self.global_cyc >= cpu_cycle {
            self
        } else {
            self.spec_step(cpu_cycle).spec_run_to(cpu_cycle)
        }
    }

    /// The interrupt that running to `cpu_cycle` raises: `IRQ` if one of the
    /// sequencer steps on the way raised one.
    pub open spec fn run_irq(self, cpu_cycle: int) -> IrqInterrupt
        decreases cpu_cycle - self.global_cyc,
        when self.wf()
    {
        if self.global_cyc >= cpu_cycle {
            IrqInterrupt::NoIrq
        } else {
            self.step_irq(cpu_cycle).spec_or(self.spec_step(cpu_cycle).run_irq(cpu_cycle))
        }
    }

    /// The byte that a read of the status register returns.
    pub open spec fn status(self) -> u8 {
        self.pulse1.length.spec_active() | (self.pulse2.length.spec_active() << 1u8) | (
        self.triangle.length.spec_active() << 2u8) | (self.noise.length.spec_active() << 3u8)
            | if self.irq_requested {
            0x40u8
        } else {
            0u8
        }
    }

    /// The APU after a read of the status register.
    pub open spec fn spec_acknowledge(self) -> ApuView {
        ApuView { irq_requested: false, ..self }
    }

    /// The cycle up to which a status read at `cycle` runs before it reads.
    pub open spec fn cycle_before(cycle: int) -> int {
        if cycle > 0 {
            cycle - 1
        } else {
            0
        }
    }

    /// The APU after a read of the status register at `cycle`.
    pub open spec fn spec_read_status(self, cycle: int) -> ApuView {
        self.spec_run_to(Self::cycle_before(cycle)).spec_acknowledge().spec_run_to(cycle)
    }

    /// The APU after a write of `val` to the frame register.
    pub open spec fn spec_write_4017(self, val: u8) -> ApuView {
        if self.global_cyc % 2 == 0 {
            self.spec_set_4017(val)
        } else {
            ApuView { jitter: Jitter::Delay((self.global_cyc + 1) as u64, val), ..self }
        }
    }

    /// The APU after a write of `val` to the channel enable register.
    pub open spec fn spec_write_4015(self, val: u8) -> ApuView {
        ApuView {
            noise: Noise { length: self.noise.length.spec_set_enable(val & 0x08 != 0), ..self.noise },
            triangle: Triangle {
                length: self.triangle.length.spec_set_enable(val & 0x04 != 0),
                ..self.triangle
            },
            pulse2: Pulse {
                length: self.pulse2.length.spec_set_enable(val & 0x02 != 0),
                ..self.pulse2
            },
            pulse1: Pulse {
                length: self.pulse1.length.spec_set_enable(val & 0x01 != 0),
                ..self.pulse1
            },
            ..self
        }
    }

    /// The APU after a write of `val` to register `idx % 0x20`.
    pub open spec fn spec_write(self, idx: u16, val: u8) -> ApuView {
        let reg = idx % 0x20;
        if reg <= 0x03 {
            ApuView { pulse1: self.pulse1.spec_write(reg, val), ..self }
        } else if reg <= 0x07 {
            ApuView { pulse2: self.pulse2.spec_write(reg, val), ..self }
        } else if reg <= 0x0B {
            ApuView { triangle: self.triangle.spec_write(reg, val), ..self }
        } else if reg <= 0x0F {
            ApuView { noise: self.noise.spec_write(reg, val), ..self }
        } else if reg <= 0x13 {
            ApuView { dmc: self.dmc.spec_write(reg, val), ..self }
        } else if reg == 0x15 {
            self.spec_write_4015(val)
        } else if reg == 0x17 {
            self.spec_write_4017(val)
        } else {
            self
        }
    }
}

} // verus!
