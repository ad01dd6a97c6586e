//! The two pulse channels and their sweep units.

use vstd::prelude::*;
use crate::apu::buffer::{SampleBuffer, SampleBufferView};
use crate::apu::components::{
    lemma_shift_bounded, Envelope, Length, Timer, TimerClock, Waveform, MAX_PERIOD,
};

verus! {

/// For each duty setting, what each of the eight steps of the sequencer does
/// to the output: `1` raises it to the envelope's volume, `-1` drops it to
/// zero, `0` leaves it.
pub const PULSE_DUTY_CYCLES: [[i16; 8]; 4] = [
    [0, 1, -1, 0, 0, 0, 0, 0],
    [0, 1, 0, -1, 0, 0, 0, 0],
    [0, 1, 0, 0, 0, -1, 0, 0],
    [0, -1, 0, 1, 0, 0, 0, 0],
];

proof fn lemma_sweep_fields(val: u8)
    by (bit_vector)
    ensures
        (val & 0x70) >> 4u8 <= 7,
        val & 0x07 <= 7,
{
}

proof fn lemma_duty_select(val: u8)
    by (bit_vector)
    ensures
        val >> 6u8 <= 3,
{
}

/// The sweep unit of a pulse channel: bends the period of the timer.
#[derive(Clone, Copy, Debug, PartialEq, Eq, Structural)]
pub struct Sweep {
    pub enable: bool,
    pub period: u8,
    pub negate: bool,
    pub shift: u8,
    /// The second pulse channel negates by one less.
    pub is_pulse2: bool,
    pub divider: u8,
    pub reload: bool,
}

impl Sweep {
    pub open spec fn wf(self) -> bool {
        self.shift <= 7
    }

    pub open spec fn spec_write(self, val: u8) -> Sweep {
        Sweep {
            enable: val & 0x80 != 0,
            period: (val & 0x70) >> 4u8,
            negate: val & 0x08 != 0,
            shift: val & 0x07,
            reload: true,
            ..self
        }
    }

    /// The change that one sweep step makes to the period of `timer`.
    pub open spec fn spec_period_shift(self, timer: Timer) -> i16 {
        let amount = (timer.period >> self.shift) as int;
        if !self.negate {
            amount as i16
        } else if self.is_pulse2 {
            (1 - amount) as i16
        } else {
            (-amount) as i16
        }
    }

    pub open spec fn spec_tick(self, timer: Timer) -> (Sweep, Timer) {
        if !self.enable {
            (self, timer)
        } else {
            let counted: u8 = if self.divider == 0 {
                0
            } else {
                (self.divider - 1) as u8
            };
            let fired = counted == 0;
            let divider = if fired || self.reload {
                self.period
            } else {
                counted
            };
            (
                Sweep { divider, reload: false, ..self },
                if fired {
                    timer.spec_add_period_shift(self.spec_period_shift(timer))
                } else {
                    timer
                },
            )
        }
    }

    pub open spec fn spec_audible(&self) -> bool {
        true
    }

    pub fn new(is_pulse2: bool) -> (s: Sweep)
        ensures
            s == (Sweep {
                enable: false,
                period: 0,
                negate: false,
                shift: 0,
                is_pulse2,
                divider: 0,
                reload: false,
            }),
            s.wf(),
    {
        Sweep {
            enable: false,
            period: 0,
            negate: false,
            shift: 0,
            is_pulse2,
            divider: 0,
            reload: false,
        }
    }

    /// Takes enable, period, negate and shift count from a control byte and
    /// asks for a reload of the divider.
    pub fn write(&mut self, val: u8)
        ensures
            *final(self) == old(self).spec_write(val),
            final(self).wf(),
    {
        proof {
            lemma_sweep_fields(val);
        }
        self.enable = (val & 0x80) != 0;
        self.period = (val & 0x70) >> 4u8;
        self.negate = (val & 0x08) != 0;
        self.shift = val & 0x07;
        self.reload = true;
    }

    /// One half-frame clock. When the divider runs out, the period of
    /// `timer` moves by the current shift.
    pub fn tick(&mut self, timer: &mut Timer)
        requires
            old(self).wf(),
            old(timer).wf(),
        ensures
            final(self).wf(),
            final(timer).wf(),
            (*final(self), *final(timer)) == old(self).spec_tick(*old(timer)),
    {
        if !self.enable {
            return ;
        }
        self.divider = self.divider.saturating_sub(1);
        if self.divider == 0 {
            self.divider = self.period;
            let period_shift = self.period_shift(timer);
            timer.add_period_shift(period_shift);
        }
        if self.reload {
            self.divider = self.period;
            self.reload = false;
        }
    }

    /// The sweep unit never mutes its channel.
    #[verifier::when_used_as_spec(spec_audible)]
    pub fn audible(&self) -> (r: bool)
        ensures
            r == self.spec_audible(),
    {
        true
    }

    pub fn period_shift(&self, timer: &Timer) -> (shift: i16)
        requires
            self.wf(),
            timer.wf(),
        ensures
            shift == self.spec_period_shift(*timer),
            -(MAX_PERIOD as int) <= shift <= MAX_PERIOD,
    {
        proof {
            lemma_shift_bounded(timer.period, self.shift);
        }
        let amount: i16 = (timer.period() >> self.shift) as i16;
        if !self.negate {
            amount
        } else if self.is_pulse2 {
            1 - amount
        } else {
            -amount
        }
    }
}

/// A pulse channel.
#[derive(Clone, Copy, Debug, PartialEq, Eq, Structural)]
pub struct Pulse {
    pub duty: usize,
    pub duty_index: usize,
    pub envelope: Envelope,
    pub sweep: Sweep,
    pub timer: Timer,
    pub length: Length,
    pub waveform: Waveform,
}

impl Pulse {
    pub open spec fn wf(self) -> bool {
        &&& self.duty < 4
        &&& self.duty_index < 8
        &&& self.envelope.wf()
        &&& self.sweep.wf()
        &&& self.timer.wf()
    }

    pub open spec fn initial(is_pulse2: bool) -> Pulse {
        Pulse {
            duty: 0,
            duty_index: 0,
            envelope: Envelope {
                start: false,
                looping: false,
                constant: false,
                volume: 0,
                divider: 0,
                decay: 0,
            },
            sweep: Sweep {
                enable: false,
                period: 0,
                negate: false,
                shift: 0,
                is_pulse2,
                divider: 0,
                reload: false,
            },
            timer: Timer { period: 0, multiplier: 2, remaining: 0 },
            length: Length { halt_mask: 0x20, halted: false, enabled: false, remaining: 0 },
            waveform: Waveform { last_amp: 0 },
        }
    }

    pub open spec fn spec_write(self, idx: u16, val: u8) -> Pulse {
        if idx % 4 == 0 {
            Pulse {
                duty: (val >> 6u8) as usize,
                length: self.length.spec_write_halt(val),
                envelope: self.envelope.spec_write(val),
                ..self
            }
        } else if idx % 4 == 1 {
            Pulse { sweep: self.sweep.spec_write(val), ..self }
        } else if idx % 4 == 2 {
            Pulse { timer: self.timer.spec_write_low(val), ..self }
        } else {
            Pulse {
                length: self.length.spec_write_counter(val),
                timer: self.timer.spec_write_high(val),
                envelope: self.envelope.spec_restart(),
                duty_index: 0,
                ..self
            }
        }
    }

    pub open spec fn spec_length_tick(self) -> Pulse {
        let (sweep, timer) = self.sweep.spec_tick(self.timer);
        Pulse { length: self.length.spec_tick(), sweep, timer, ..self }
    }

    pub open spec fn spec_envelope_tick(self) -> Pulse {
        Pulse { envelope: self.envelope.spec_tick(), ..self }
    }

    /// The level that the sequencer step after the current one sets at an
    /// envelope volume of `volume`, if it sets one.
    pub open spec fn next_level(self, volume: i16) -> Option<i16> {
        let edge = PULSE_DUTY_CYCLES[self.duty as int][(self.duty_index + 1) % 8];
        if edge == -1 {
            Some(0i16)
        } else if edge == 1 {
            Some(volume)
        } else {
            None
        }
    }

    /// The channel after the clock of its timer at `cycle`.
    pub open spec fn spec_clock(self, volume: i16) -> Pulse {
        Pulse {
            duty_index: ((self.duty_index + 1) % 8) as usize,
            timer: Timer { remaining: self.timer.spec_wavelen() as u32, ..self.timer },
            waveform: match self.next_level(volume) {
                Some(level) => self.waveform.spec_set_amplitude(level),
                None => self.waveform,
            },
            ..self
        }
    }

    /// The buffer after the clock of the timer at `cycle`.
    pub open spec fn spec_clock_record(self, buffer: SampleBufferView, volume: i16, cycle: u32)
        -> SampleBufferView {
        match self.next_level(volume) {
            Some(level) => self.waveform.spec_record(buffer, level, cycle),
            None => buffer,
        }
    }

    /// The channel and the buffer after every clock of the timer in
    /// `[current, to_cyc)`, taken in increasing order.
    pub open spec fn spec_play_from(
        self,
        buffer: SampleBufferView,
        volume: i16,
        current: u32,
        to_cyc: u32,
    ) -> (Pulse, SampleBufferView)
        decreases to_cyc - current, (if self.timer.remaining == 0 {
            1int
        } else {
            0int
        }),
        when self.timer.wf() && current <= to_cyc
    {
        if self.timer.clocks_before(current, to_cyc) {
            proof {
                self.timer.lemma_wavelen_bounds();
            }
            let cycle = self.timer.spec_run_stop(current, to_cyc);
            self.spec_clock(volume).spec_play_from(
                self.spec_clock_record(buffer, volume, cycle),
                volume,
                cycle,
                to_cyc,
            )
        } else {
            (Pulse { timer: self.timer.spec_run(current, to_cyc), ..self }, buffer)
        }
    }

    /// The channel and the buffer after playing `[from_cyc, to_cyc)`.
    pub open spec fn spec_play(self, buffer: SampleBufferView, from_cyc: u32, to_cyc: u32) -> (
        Pulse,
        SampleBufferView,
    ) {
        if !self.sweep.spec_audible() || !self.length.spec_audible() {
            (
                Pulse { waveform: self.waveform.spec_set_amplitude(0), ..self },
                self.waveform.spec_record(buffer, 0, from_cyc),
            )
        } else {
            self.spec_play_from(buffer, self.envelope.spec_volume(), from_cyc, to_cyc)
        }
    }

    /// Playing keeps channel and buffer in order, and touches nothing in
    /// the buffer but the level changes of the current frame.
    pub proof fn lemma_play_from_wf(
        self,
        buffer: SampleBufferView,
        volume: i16,
        current: u32,
        to_cyc: u32,
    )
        requires
            self.wf(),
            buffer.wf(),
            current <= to_cyc <= buffer.deltas.len(),
        ensures
            self.spec_play_from(buffer, volume, current, to_cyc).0.wf(),
            self.spec_play_from(buffer, volume, current, to_cyc).1.wf(),
            buffer.same_but_deltas(self.spec_play_from(buffer, volume, current, to_cyc).1),
        decreases to_cyc - current, (if self.timer.remaining == 0 {
            1int
        } else {
            0int
        }),
    {
        self.timer.lemma_wavelen_bounds();
        if self.timer.clocks_before(current, to_cyc) {
            let cycle = self.timer.spec_run_stop(current, to_cyc);
            let recorded = self.spec_clock_record(buffer, volume, cycle);
            assert(buffer.same_but_deltas(recorded));
            self.spec_clock(volume).lemma_play_from_wf(recorded, volume, cycle, to_cyc);
        }
    }

    /// See `lemma_play_from_wf`.
    pub proof fn lemma_play_wf(self, buffer: SampleBufferView, from_cyc: u32, to_cyc: u32)
        requires
            self.wf(),
            buffer.wf(),
            from_cyc <= to_cyc <= buffer.deltas.len(),
            from_cyc < buffer.deltas.len(),
        ensures
            self.spec_play(buffer, from_cyc, to_cyc).0.wf(),
            self.spec_play(buffer, from_cyc, to_cyc).1.wf(),
            buffer.same_but_deltas(self.spec_play(buffer, from_cyc, to_cyc).1),
    {
        if self.sweep.spec_audible() && self.length.spec_audible() {
            self.lemma_play_from_wf(buffer, self.envelope.spec_volume(), from_cyc, to_cyc);
        }
    }

    /// The clocks of a frame keep the channel in order.
    pub proof fn lemma_ticks_wf(self)
        requires
            self.wf(),
        ensures
            self.spec_envelope_tick().wf(),
            self.spec_length_tick().wf(),
    {
    }

    pub fn new(is_pulse2: bool) -> (p: Pulse)
        ensures
            p == Pulse::initial(is_pulse2),
            p.wf(),
    {
        assert(1u8 << 5u8 == 0x20) by (bit_vector);
        Pulse {
            duty: 0,
            duty_index: 0,
            envelope: Envelope::new(),
            sweep: Sweep::new(is_pulse2),
            timer: Timer::new(2),
            length: Length::new(5),
            waveform: Waveform::new(),
        }
    }

    /// One half-frame clock: the length counter, then the sweep unit.
    pub fn length_tick(&mut self)
        requires
            old(self).wf(),
        ensures
            final(self).wf(),
            *final(self) == old(self).spec_length_tick(),
    {
        self.length.tick();
        self.sweep.tick(&mut self.timer);
    }

    /// One quarter-frame clock.
    pub fn envelope_tick(&mut self)
        requires
            old(self).wf(),
        ensures
            final(self).wf(),
            *final(self) == old(self).spec_envelope_tick(),
    {
        self.envelope.tick();
    }

    /// Plays the cycles `[from_cyc, to_cyc)` of the current frame into
    /// `buffer`. A silenced channel drops to level zero at `from_cyc` and its
    /// timer stands still. Otherwise each clock of the timer advances the
    /// sequencer by one step, and a step with an edge records the new level
    /// at the cycle of the clock.
    pub fn play(&mut self, buffer: &mut SampleBuffer, from_cyc: u32, to_cyc: u32)
        requires
            old(self).wf(),
            old(buffer).wf(),
            from_cyc <= to_cyc <= old(buffer).spec_capacity(),
            from_cyc < old(buffer).spec_capacity(),
        ensures
            final(self).wf(),
            final(buffer).wf(),
            (*final(self), final(buffer)@) == old(self).spec_play(old(buffer)@, from_cyc, to_cyc),
            old(buffer)@.same_but_deltas(final(buffer)@),
    {
        if !self.sweep.audible() || !self.length.audible() {
            self.waveform.set_amplitude(buffer, 0, from_cyc);
            return ;
        }
        let volume = self.envelope.volume();
        let mut current_cyc = from_cyc;
        loop
            invariant_except_break
                self.wf(),
                buffer.wf(),
                current_cyc <= to_cyc <= buffer.spec_capacity(),
                old(buffer)@.same_but_deltas(buffer@),
                old(self).spec_play_from(old(buffer)@, volume, from_cyc, to_cyc)
                    == self.spec_play_from(buffer@, volume, current_cyc, to_cyc),
            ensures
                self.wf(),
                buffer.wf(),
                old(buffer)@.same_but_deltas(buffer@),
                (*self, buffer@) == old(self).spec_play_from(
                    old(buffer)@,
                    volume,
                    from_cyc,
                    to_cyc,
                ),
            decreases to_cyc - current_cyc, (if self.timer.remaining == 0 {
                1int
            } else {
                0int
            }),
        {
            let ghost before = *self;
            let ghost start = current_cyc;
            proof {
                self.timer.lemma_wavelen_bounds();
            }
            match self.timer.run(&mut current_cyc, to_cyc) {
                TimerClock::NoClock => {
                    break ;
                },
                TimerClock::Clock => {
                    self.duty_index = (self.duty_index + 1) % 8;
                    let edge = PULSE_DUTY_CYCLES[self.duty][self.duty_index];
                    if edge == -1 {
                        self.waveform.set_amplitude(buffer, 0, current_cyc);
                    } else if edge == 1 {
                        self.waveform.set_amplitude(buffer, volume, current_cyc);
                    }
                    assert(*self == before.spec_clock(volume));
                },
            }
        }
    }

    /// A write to register `idx % 4` of the channel: `0` sets duty, halt flag
    /// and envelope; `1` the sweep unit; `2` the low byte of the period; `3`
    /// loads the length counter, sets the high bits of the period, and
    /// restarts envelope and sequencer.
    pub fn write(&mut self, idx: u16, val: u8)
        requires
            old(self).wf(),
        ensures
            final(self).wf(),
            *final(self) == old(self).spec_write(idx, val),
    {
        match idx % 4 {
            0 => {
                proof {
                    lemma_duty_select(val);
                }
                self.duty = (val >> 6u8) as usize;
                self.length.write_halt(val);
                self.envelope.write(val);
            },
            1 => self.sweep.write(val),
            2 => self.timer.write_low(val),
            _ => {
                self.length.write_counter(val);
                self.timer.write_high(val);
                self.envelope.restart();
                self.duty_index = 0;
            },
        }
    }
}

} // verus!
