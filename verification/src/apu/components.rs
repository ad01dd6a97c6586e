//! The small state machines that the sound channels are built from.

use vstd::prelude::*;
use crate::apu::buffer::{SampleBuffer, SampleBufferView};

verus! {

/// Counter values selected by the upper five bits of a length write.
pub const LENGTH_TABLE: [u8; 32] = [
    0x0A, 0xFE, 0x14, 0x02, 0x28, 0x04, 0x50, 0x06, 0xA0, 0x08, 0x3C, 0x0A, 0x0E, 0x0C, 0x1A, 0x0E,
    0x0C, 0x10, 0x18, 0x12, 0x30, 0x14, 0x60, 0x16, 0xC0, 0x18, 0x48, 0x1A, 0x10, 0x1C, 0x20, 0x1E,
];

/// Largest timer period: eleven bits.
pub const MAX_PERIOD: u16 = 0x07FF;

/// Largest clock multiplier a timer accepts.
pub const MAX_MULTIPLIER: u32 = 0x0010_0000;

proof fn lemma_length_index(val: u8)
    by (bit_vector)
    ensures
        val >> 3u8 < 32,
{
}

pub proof fn lemma_low_nibble(val: u8)
    by (bit_vector)
    ensures
        val & 0x0F <= 15,
{
}

proof fn lemma_period_bytes(period: u16, val: u8)
    by (bit_vector)
    ensures
        (period & 0x0700) | (val as u16) <= 0x07FF,
        (period & 0x00FF) | (((val & 0x07) as u16) << 8u16) <= 0x07FF,
{
}

pub proof fn lemma_shift_bounded(period: u16, shift: u8)
    by (bit_vector)
    requires
        period <= 0x07FF,
    ensures
        period >> shift <= 0x07FF,
{
}

/// The length counter of a channel: silences the channel when it runs out.
#[derive(Clone, Copy, Debug, PartialEq, Eq, Structural)]
pub struct Length {
    /// The bit of the control byte that halts the counter.
    pub halt_mask: u8,
    pub halted: bool,
    pub enabled: bool,
    pub remaining: u8,
}

impl Length {
    pub open spec fn spec_write_halt(self, val: u8) -> Length {
        Length { halted: val & self.halt_mask != 0, ..self }
    }

    pub open spec fn spec_write_counter(self, val: u8) -> Length {
        if self.enabled {
            Length { remaining: LENGTH_TABLE[(val >> 3u8) as int], ..self }
        } else {
            self
        }
    }

    pub open spec fn spec_tick(self) -> Length {
        if !self.halted && self.remaining > 0 {
            Length { remaining: (self.remaining - 1) as u8, ..self }
        } else {
            self
        }
    }

    pub open spec fn spec_set_enable(self, enable: bool) -> Length {
        Length { enabled: enable, remaining: if enable { self.remaining } else { 0 }, ..self }
    }

    pub open spec fn spec_audible(&self) -> bool {
        self.enabled && self.remaining > 0
    }

    pub open spec fn spec_active(&self) -> u8 {
        if self.spec_audible() {
            1
        } else {
            0
        }
    }

    /// A stopped, disabled counter whose halt flag is bit `halt_bit` of the
    /// channel's control byte.
    pub fn new(halt_bit: u8) -> (l: Length)
        requires
            halt_bit < 8,
        ensures
            l == (Length { halt_mask: 1u8 << halt_bit, halted: false, enabled: false, remaining: 0 }),
    {
        Length { halt_mask: 1u8 << halt_bit, halted: false, enabled: false, remaining: 0 }
    }

    pub fn write_halt(&mut self, val: u8)
        ensures
            *final(self) == old(self).spec_write_halt(val),
    {
        self.halted = val & self.halt_mask != 0;
    }

    /// Loads the counter from the table, if the channel is enabled.
    pub fn write_counter(&mut self, val: u8)
        ensures
            *final(self) == old(self).spec_write_counter(val),
    {
        if self.enabled {
            proof {
                lemma_length_index(val);
            }
            self.remaining = LENGTH_TABLE[(val >> 3u8) as usize];
        }
    }

    /// One half-frame clock: counts down unless halted or already at zero.
    pub fn tick(&mut self)
        ensures
            *final(self) == old(self).spec_tick(),
    {
        if !self.halted && self.remaining > 0 {
            self.remaining = self.remaining - 1;
        }
    }

    #[verifier::when_used_as_spec(spec_audible)]
    pub fn audible(&self) -> (r: bool)
        ensures
            r == self.spec_audible(),
    {
        self.enabled && self.remaining > 0
    }

    /// `1` while the channel is audible, else `0`.
    #[verifier::when_used_as_spec(spec_active)]
    pub fn active(&self) -> (r: u8)
        ensures
            r == self.spec_active(),
    {
        if self.audible() {
            1
        } else {
            0
        }
    }

    /// Disabling a channel also empties its counter.
    pub fn set_enable(&mut self, enable: bool)
        ensures
            *final(self) == old(self).spec_set_enable(enable),
    {
        self.enabled = enable;
        if !enable {
            self.remaining = 0;
        }
    }
}

/// The volume envelope of a channel.
#[derive(Clone, Copy, Debug, PartialEq, Eq, Structural)]
pub struct Envelope {
    pub start: bool,
    pub looping: bool,
    pub constant: bool,
    /// Constant volume, and the period of the divider.
    pub volume: u8,
    pub divider: u8,
    pub decay: u8,
}

impl Envelope {
    pub open spec fn wf(self) -> bool {
        self.volume <= 15 && self.decay <= 15
    }

    pub open spec fn spec_write(self, val: u8) -> Envelope {
        Envelope {
            looping: val & 0x20 != 0,
            constant: val & 0x10 != 0,
            volume: val & 0x0F,
            ..self
        }
    }

    pub open spec fn spec_restart(self) -> Envelope {
        Envelope { start: true, ..self }
    }

    pub open spec fn spec_tick(self) -> Envelope {
        if self.start {
            Envelope { start: false, decay: 15, divider: self.volume, ..self }
        } else if self.divider == 0 {
            Envelope {
                divider: self.volume,
                decay: if self.decay > 0 {
                    (self.decay - 1) as u8
                } else if self.looping {
                    15
                } else {
                    0
                },
                ..self
            }
        } else {
            Envelope { divider: (self.divider - 1) as u8, ..self }
        }
    }

    pub open spec fn spec_volume(&self) -> i16 {
        if self.constant {
            self.volume as i16
        } else {
            self.decay as i16
        }
    }

    pub fn new() -> (e: Envelope)
        ensures
            e == (Envelope {
                start: false,
                looping: false,
                constant: false,
                volume: 0,
                divider: 0,
                decay: 0,
            }),
            e.wf(),
    {
        Envelope { start: false, looping: false, constant: false, volume: 0, divider: 0, decay: 0 }
    }

    /// Takes the loop flag, the constant-volume flag and the volume from a
    /// control byte.
    pub fn write(&mut self, val: u8)
        ensures
            *final(self) == old(self).spec_write(val),
            old(self).wf() ==> final(self).wf(),
    {
        proof {
            lemma_low_nibble(val);
        }
        self.looping = val & 0x20 != 0;
        self.constant = val & 0x10 != 0;
        self.volume = val & 0x0F;
    }

    /// Asks for a restart at the next quarter-frame clock.
    pub fn restart(&mut self)
        ensures
            *final(self) == old(self).spec_restart(),
            old(self).wf() ==> final(self).wf(),
    {
        self.start = true;
    }

    /// One quarter-frame clock.
    pub fn tick(&mut self)
        ensures
            *final(self) == old(self).spec_tick(),
            old(self).wf() ==> final(self).wf(),
    {
        if self.start {
            self.start = false;
            self.decay = 15;
            self.divider = self.volume;
        } else if self.divider == 0 {
            self.divider = self.volume;
            if self.decay > 0 {
                self.decay = self.decay - 1;
            } else if self.looping {
                self.decay = 15;
            }
        } else {
            self.divider = self.divider - 1;
        }
    }

    /// The current output level.
    #[verifier::when_used_as_spec(spec_volume)]
    pub fn volume(&self) -> (v: i16)
        ensures
            v == self.spec_volume(),
            self.wf() ==> 0 <= v <= 15,
    {
        if self.constant {
            self.volume as i16
        } else {
            self.decay as i16
        }
    }
}

/// What one run of a timer ended with.
#[derive(Clone, Copy, Debug, PartialEq, Eq, Structural)]
pub enum TimerClock {
    Clock,
    NoClock,
}

/// The divider that turns CPU cycles into waveform steps.
#[derive(Clone, Copy, Debug, PartialEq, Eq, Structural)]
pub struct Timer {
    pub period: u16,
    /// CPU cycles per timer tick.
    pub multiplier: u32,
    /// CPU cycles until the next clock.
    pub remaining: u32,
}

impl Timer {
    pub open spec fn wf(self) -> bool {
        self.period <= MAX_PERIOD && 1 <= self.multiplier <= MAX_MULTIPLIER
    }

    /// CPU cycles between two clocks.
    pub open spec fn spec_wavelen(self) -> int {
        (self.period + 1) * self.multiplier
    }

    pub open spec fn spec_write_low(self, val: u8) -> Timer {
        Timer { period: (self.period & 0x0700) | (val as u16), ..self }
    }

    pub open spec fn spec_write_high(self, val: u8) -> Timer {
        Timer { period: (self.period & 0x00FF) | (((val & 0x07) as u16) << 8u16), ..self }
    }

    /// The period moved by `shift`, unless that leaves the eleven bits.
    pub open spec fn spec_add_period_shift(self, shift: i16) -> Timer {
        if 0 <= self.period + shift <= MAX_PERIOD {
            Timer { period: (self.period + shift) as u16, ..self }
        } else {
            self
        }
    }

    /// True if a clock falls into `[current, to)`.
    pub open spec fn clocks_before(self, current: u32, to: u32) -> bool {
        self.remaining < to - current
    }

    /// The timer after one run from `current` towards `to`.
    pub open spec fn spec_run(self, current: u32, to: u32) -> Timer {
        if self.clocks_before(current, to) {
            Timer { remaining: self.spec_wavelen() as u32, ..self }
        } else {
            Timer { remaining: (self.remaining - (to - current)) as u32, ..self }
        }
    }

    /// The cycle at which one run from `current` towards `to` stops.
    pub open spec fn spec_run_stop(self, current: u32, to: u32) -> u32 {
        if self.clocks_before(current, to) {
            (current + self.remaining) as u32
        } else {
            to
        }
    }

    pub proof fn lemma_wavelen_bounds(self)
        requires
            self.wf(),
        ensures
            1 <= self.spec_wavelen() <= 0x8000_0000,
    {
        assert(1 <= (self.period + 1) * self.multiplier <= 0x8000_0000) by (nonlinear_arith)
            requires
                0 <= self.period <= 0x07FF,
                1 <= self.multiplier <= 0x0010_0000,
        ;
    }

    /// A timer with period zero that counts `multiplier` CPU cycles per tick.
    pub fn new(multiplier: u32) -> (t: Timer)
        requires
            1 <= multiplier <= MAX_MULTIPLIER,
        ensures
            t == (Timer { period: 0, multiplier, remaining: 0 }),
            t.wf(),
    {
        Timer { period: 0, multiplier, remaining: 0 }
    }

    /// Sets the low eight bits of the period.
    pub fn write_low(&mut self, val: u8)
        ensures
            *final(self) == old(self).spec_write_low(val),
            old(self).wf() ==> final(self).wf(),
    {
        proof {
            lemma_period_bytes(self.period, val);
        }
        self.period = (self.period & 0x0700) | (val as u16);
    }

    /// Sets the high three bits of the period from the low three bits of `val`.
    pub fn write_high(&mut self, val: u8)
        ensures
            *final(self) == old(self).spec_write_high(val),
            old(self).wf() ==> final(self).wf(),
    {
        proof {
            lemma_period_bytes(self.period, val);
        }
        self.period = (self.period & 0x00FF) | (((val & 0x07) as u16) << 8u16);
    }

    pub fn add_period_shift(&mut self, shift: i16)
        ensures
            *final(self) == old(self).spec_add_period_shift(shift),
            old(self).wf() ==> final(self).wf(),
    {
        let target: i32 = self.period as i32 + shift as i32;
        if 0 <= target && target <= MAX_PERIOD as i32 {
            self.period = target as u16;
        }
    }

    pub fn period(&self) -> (p: u16)
        ensures
            p == self.period,
    {
        self.period
    }

    /// Runs the timer until its next clock, or until `current_cyc` reaches
    /// `to_cyc`. On `Clock`, `current_cyc` is the cycle of the clock, which
    /// lies in `[current_cyc, to_cyc)`, and the countdown starts over.
    pub fn run(&mut self, current_cyc: &mut u32, to_cyc: u32) -> (clock: TimerClock)
        requires
            old(self).wf(),
            *old(current_cyc) <= to_cyc,
        ensures
            final(self).wf(),
            *final(self) == old(self).spec_run(*old(current_cyc), to_cyc),
            *final(current_cyc) == old(self).spec_run_stop(*old(current_cyc), to_cyc),
            clock == TimerClock::Clock <==> old(self).clocks_before(*old(current_cyc), to_cyc),
            *old(current_cyc) <= *final(current_cyc) <= to_cyc,
            clock == TimerClock::Clock ==> *final(current_cyc) < to_cyc,
    {
        proof {
            self.lemma_wavelen_bounds();
        }
        if self.remaining < to_cyc - *current_cyc {
            *current_cyc = *current_cyc + self.remaining;
            self.remaining = (self.period as u32 + 1) * self.multiplier;
            TimerClock::Clock
        } else {
            self.remaining = self.remaining - (to_cyc - *current_cyc);
            *current_cyc = to_cyc;
            TimerClock::NoClock
        }
    }
}

/// The writer of one channel into the shared sample buffer. It remembers the
/// last level of the channel and records only the changes.
#[derive(Clone, Copy, Debug, PartialEq, Eq, Structural)]
pub struct Waveform {
    pub last_amp: i16,
}

impl Waveform {
    pub open spec fn spec_set_amplitude(self, amp: i16) -> Waveform {
        Waveform { last_amp: amp }
    }

    /// The buffer after the channel's level became `amp` at `cycle`.
    pub open spec fn spec_record(self, buffer: SampleBufferView, amp: i16, cycle: u32)
        -> SampleBufferView {
        if amp == self.last_amp {
            buffer
        } else {
            buffer.spec_add_delta(cycle, (amp - self.last_amp) as i32)
        }
    }

    pub fn new() -> (w: Waveform)
        ensures
            w == (Waveform { last_amp: 0 }),
    {
        Waveform { last_amp: 0 }
    }

    /// Records that the channel's level became `amp` at `cycle`.
    pub fn set_amplitude(&mut self, buffer: &mut SampleBuffer, amp: i16, cycle: u32)
        requires
            old(buffer).wf(),
            cycle < old(buffer).capacity(),
        ensures
            final(buffer).wf(),
            *final(self) == old(self).spec_set_amplitude(amp),
            final(buffer)@ == old(self).spec_record(old(buffer)@, amp, cycle),
            old(buffer)@.same_but_deltas(final(buffer)@),
    {
        let delta: i32 = amp as i32 - self.last_amp as i32;
        if delta != 0 {
            buffer.add_delta(cycle, delta);
            self.last_amp = amp;
        }
    }
}

} // verus!
