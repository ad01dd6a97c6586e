//! The frame sequencer: its register, its timetable and what each of its
//! steps clocks.

use vstd::prelude::*;

verus! {

/// CPU cycles from step `tick` of the sequencer to the next, by mode. Entry
/// zero is the wait after a write to the frame register.
pub const NTSC_TICK_LENGTH_TABLE: [[u64; 6]; 2] = [
    [7459, 7456, 7458, 7458, 7458, 0],
    [1, 7458, 7456, 7458, 7458, 7452],
];

/// Bit of the frame register that selects the five-step sequence.
pub const MODE: u8 = 0x80;

/// Bit of the frame register that keeps the sequencer from raising IRQs.
pub const SUPPRESS_IRQ: u8 = 0x40;

/// The frame register.
#[derive(Clone, Copy, Debug, PartialEq, Eq, Structural)]
pub struct Frame {
    pub bits: u8,
}

impl Frame {
    pub open spec fn spec_from_bits_truncate(val: u8) -> Frame {
        Frame { bits: val & 0xC0 }
    }

    pub open spec fn spec_contains(&self, flag: u8) -> bool {
        self.bits & flag == flag
    }

    pub open spec fn spec_mode(&self) -> usize {
        if self.bits & MODE != 0 {
            1
        } else {
            0
        }
    }

    pub open spec fn spec_suppresses_irq(&self) -> bool {
        self.bits & SUPPRESS_IRQ != 0
    }

    pub fn empty() -> (f: Frame)
        ensures
            f == (Frame { bits: 0 }),
    {
        Frame { bits: 0 }
    }

    /// The register with the bits of `val` that it has.
    #[verifier::when_used_as_spec(spec_from_bits_truncate)]
    pub fn from_bits_truncate(val: u8) -> (f: Frame)
        ensures
            f == Frame::spec_from_bits_truncate(val),
    {
        Frame { bits: val & 0xC0 }
    }

    pub fn bits(&self) -> (b: u8)
        ensures
            b == self.bits,
    {
        self.bits
    }

    #[verifier::when_used_as_spec(spec_contains)]
    pub fn contains(&self, flag: u8) -> (r: bool)
        ensures
            r == self.spec_contains(flag),
    {
        self.bits & flag == flag
    }

    /// `0` for the four-step sequence, `1` for the five-step sequence.
    #[verifier::when_used_as_spec(spec_mode)]
    pub fn mode(&self) -> (m: usize)
        ensures
            m == self.spec_mode(),
            m <= 1,
    {
        if self.bits & MODE != 0 {
            1
        } else {
            0
        }
    }

    #[verifier::when_used_as_spec(spec_suppresses_irq)]
    pub fn suppresses_irq(&self) -> (r: bool)
        ensures
            r == self.spec_suppresses_irq(),
    {
        self.bits & SUPPRESS_IRQ != 0
    }
}

/// A write to the frame register that waits for the next cycle.
#[derive(Clone, Copy, Debug, PartialEq, Eq, Structural)]
pub enum Jitter {
    /// The cycle at which the value takes effect, and the value.
    Delay(u64, u8),
    Settled,
}

/// The steps of one round of the sequencer: four in mode 0, five in mode 1.
pub open spec fn steps_per_frame(mode: int) -> int {
    if mode == 0 {
        4
    } else {
        5
    }
}

/// True if step `step` of the sequence clocks the envelopes.
pub open spec fn clocks_envelope(mode: int, step: int) -> bool {
    1 <= step <= 4
}

/// True if step `step` of the sequence clocks the length counters and the
/// sweep units.
pub open spec fn clocks_length(mode: int, step: int) -> bool {
    if mode == 0 {
        step == 2 || step == 4
    } else {
        step == 1 || step == 3
    }
}

/// True if the sequence starts over after step `step`.
pub open spec fn wraps(mode: int, step: int) -> bool {
    step >= steps_per_frame(mode)
}

/// True if step `step` of the sequence asks for an interrupt.
pub open spec fn asks_irq(mode: int, step: int) -> bool {
    mode == 0 && step == 4
}

/// The number of steps among the first `steps` of a round that clock the
/// envelopes.
pub open spec fn envelope_clocks(mode: int, steps: int) -> int
    decreases steps,
{
    if steps <= 0 {
        0
    } else {
        envelope_clocks(mode, steps - 1) + if clocks_envelope(mode, steps) {
            1int
        } else {
            0int
        }
    }
}

/// The number of steps among the first `steps` of a round that clock the
/// length counters.
pub open spec fn length_clocks(mode: int, steps: int) -> int
    decreases steps,
{
    if steps <= 0 {
        0
    } else {
        length_clocks(mode, steps - 1) + if clocks_length(mode, steps) {
            1int
        } else {
            0int
        }
    }
}

/// One round of the sequencer clocks the envelopes four times and the length
/// counters twice, in either mode.
pub proof fn lemma_clocks_per_frame(mode: int)
    requires
        mode == 0 || mode == 1,
    ensures
        envelope_clocks(mode, steps_per_frame(mode)) == 4,
        length_clocks(mode, steps_per_frame(mode)) == 2,
{
    reveal_with_fuel(envelope_clocks, 6);
    reveal_with_fuel(length_clocks, 6);
}

} // verus!
