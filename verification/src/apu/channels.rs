//! The triangle, noise and DMC channels. They keep their registers and their
//! length counters, and stay silent.

use vstd::prelude::*;
use crate::apu::components::{lemma_low_nibble, Envelope, Length, Timer};

verus! {

/// The triangle channel.
#[derive(Clone, Copy, Debug, PartialEq, Eq, Structural)]
pub struct Triangle {
    /// The reload value of the linear counter.
    pub counter: u8,
    pub timer: Timer,
    pub length: Length,
}

impl Triangle {
    pub open spec fn wf(self) -> bool {
        self.timer.wf()
    }

    pub open spec fn initial() -> Triangle {
        Triangle {
            counter: 0,
            timer: Timer { period: 0, multiplier: 1, remaining: 0 },
            length: Length { halt_mask: 0x80, halted: false, enabled: false, remaining: 0 },
        }
    }

    pub open spec fn spec_write(self, idx: u16, val: u8) -> Triangle {
        if idx % 4 == 0 {
            Triangle { counter: val & 0x7F, length: self.length.spec_write_halt(val), ..self }
        } else if idx % 4 == 2 {
            Triangle { timer: self.timer.spec_write_low(val), ..self }
        } else if idx % 4 == 3 {
            Triangle {
                length: self.length.spec_write_counter(val),
                timer: self.timer.spec_write_high(val),
                ..self
            }
        } else {
            self
        }
    }

    pub open spec fn spec_length_tick(self) -> Triangle {
        Triangle { length: self.length.spec_tick(), ..self }
    }

    pub fn new() -> (t: Triangle)
        ensures
            t == Triangle::initial(),
            t.wf(),
    {
        assert(1u8 << 7u8 == 0x80) by (bit_vector);
        Triangle { counter: 0, timer: Timer::new(1), length: Length::new(7) }
    }

    /// One half-frame clock.
    pub fn length_tick(&mut self)
        ensures
            *final(self) == old(self).spec_length_tick(),
    {
        self.length.tick();
    }

    /// The channel is silent: playing changes nothing.
    pub fn play(&mut self, from_cyc: u32, to_cyc: u32)
        ensures
            *final(self) == *old(self),
    {
    }

    /// A write to register `idx % 4` of the channel: `0` sets the halt flag
    /// and the reload value of the linear counter; `2` the low byte of the
    /// period; `3` loads the length counter and sets the high bits of the
    /// period.
    pub fn write(&mut self, idx: u16, val: u8)
        requires
            old(self).wf(),
        ensures
            final(self).wf(),
            *final(self) == old(self).spec_write(idx, val),
    {
        match idx % 4 {
            0 => {
                self.counter = val & 0x7F;
                self.length.write_halt(val);
            },
            2 => self.timer.write_low(val),
            3 => {
                self.length.write_counter(val);
                self.timer.write_high(val);
            },
            _ => (),
        }
    }
}

/// The noise channel.
#[derive(Clone, Copy, Debug, PartialEq, Eq, Structural)]
pub struct Noise {
    pub envelope: Envelope,
    /// The feedback mode of the shift register.
    pub mode: bool,
    /// The index of the timer period.
    pub period_index: u8,
    pub length: Length,
}

impl Noise {
    pub open spec fn wf(self) -> bool {
        self.envelope.wf() && self.period_index <= 15
    }

    pub open spec fn initial() -> Noise {
        Noise {
            envelope: Envelope {
                start: false,
                looping: false,
                constant: false,
                volume: 0,
                divider: 0,
                decay: 0,
            },
            mode: false,
            period_index: 0,
            length: Length { halt_mask: 0x20, halted: false, enabled: false, remaining: 0 },
        }
    }

    pub open spec fn spec_write(self, idx: u16, val: u8) -> Noise {
        if idx % 4 == 0 {
            Noise {
                length: self.length.spec_write_halt(val),
                envelope: self.envelope.spec_write(val),
                ..self
            }
        } else if idx % 4 == 2 {
            Noise { mode: val & 0x80 != 0, period_index: val & 0x0F, ..self }
        } else if idx % 4 == 3 {
            Noise { length: self.length.spec_write_counter(val), ..self }
        } else {
            self
        }
    }

    pub open spec fn spec_length_tick(self) -> Noise {
        Noise { length: self.length.spec_tick(), ..self }
    }

    pub open spec fn spec_envelope_tick(self) -> Noise {
        Noise { envelope: self.envelope.spec_tick(), ..self }
    }

    pub fn new() -> (n: Noise)
        ensures
            n == Noise::initial(),
            n.wf(),
    {
        assert(1u8 << 5u8 == 0x20) by (bit_vector);
        Noise { envelope: Envelope::new(), mode: false, period_index: 0, length: Length::new(5) }
    }

    /// One half-frame clock.
    pub fn length_tick(&mut self)
        ensures
            *final(self) == old(self).spec_length_tick(),
    {
        self.length.tick();
    }

    /// One quarter-frame clock.
    pub fn envelope_tick(&mut self)
        requires
            old(self).wf(),
        ensures
            final(self).wf(),
            *final(self) == old(self).spec_envelope_tick(),
    {
        self.envelope.tick();
    }

    /// The channel is silent: playing changes nothing.
    pub fn play(&mut self, from_cyc: u32, to_cyc: u32)
        ensures
            *final(self) == *old(self),
    {
    }

    /// A write to register `idx % 4` of the channel: `0` sets the halt flag
    /// and the envelope; `2` mode and period index; `3` loads the length
    /// counter.
    pub fn write(&mut self, idx: u16, val: u8)
        requires
            old(self).wf(),
        ensures
            final(self).wf(),
            *final(self) == old(self).spec_write(idx, val),
    {
        match idx % 4 {
            0 => {
                self.length.write_halt(val);
                self.envelope.write(val);
            },
            2 => {
                proof {
                    lemma_low_nibble(val);
                }
                self.mode = val & 0x80 != 0;
                self.period_index = val & 0x0F;
            },
            3 => self.length.write_counter(val),
            _ => (),
        }
    }
}

/// The delta modulation channel: it only keeps what was written to it.
#[derive(Clone, Copy, Debug, PartialEq, Eq, Structural)]
pub struct DMC {
    pub freq: u8,
    pub direct: u8,
    pub sample_addr: u8,
    pub sample_length: u8,
}

impl DMC {
    pub open spec fn initial() -> DMC {
        DMC { freq: 0, direct: 0, sample_addr: 0, sample_length: 0 }
    }

    pub open spec fn spec_write(self, idx: u16, val: u8) -> DMC {
        if idx % 4 == 0 {
            DMC { freq: val, ..self }
        } else if idx % 4 == 1 {
            DMC { direct: val, ..self }
        } else if idx % 4 == 2 {
            DMC { sample_addr: val, ..self }
        } else {
            DMC { sample_length: val, ..self }
        }
    }

    pub fn new() -> (d: DMC)
        ensures
            d == DMC::initial(),
    {
        DMC { freq: 0, direct: 0, sample_addr: 0, sample_length: 0 }
    }

    /// The channel is silent: playing changes nothing.
    pub fn play(&mut self, from_cyc: u32, to_cyc: u32)
        ensures
            *final(self) == *old(self),
    {
    }

    /// A write to register `idx % 4` of the channel: frequency index, direct
    /// load, sample address, sample length.
    pub fn write(&mut self, idx: u16, val: u8)
        ensures
            *final(self) == old(self).spec_write(idx, val),
    {
        match idx % 4 {
            0 => self.freq = val,
            1 => self.direct = val,
            2 => self.sample_addr = val,
            _ => self.sample_length = val,
        }
    }
}

} // verus!
