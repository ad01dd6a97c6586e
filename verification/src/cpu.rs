//! Interrupt values that the co-processors hand back to the CPU.

use vstd::prelude::*;

verus! {

/// Upper bound on every cycle number handed to `run_to`. It leaves room for
/// the schedules that are kept a little ahead of the current cycle.
pub const MAX_CYCLE: u64 = 0x4000_0000_0000_0000;

/// The interrupt request line of the APU as seen over one interval.
#[derive(Clone, Copy, Debug, PartialEq, Eq, Structural)]
pub enum IrqInterrupt {
    IRQ,
    NoIrq,
}

impl IrqInterrupt {
    pub open spec fn spec_or(self, other: IrqInterrupt) -> IrqInterrupt {
        if self == IrqInterrupt::IRQ {
            IrqInterrupt::IRQ
        } else {
            other
        }
    }

    /// `IRQ` if either side is `IRQ`.
    #[verifier::when_used_as_spec(spec_or)]
    pub fn or(self, other: IrqInterrupt) -> (r: IrqInterrupt)
        ensures
            r == self.spec_or(other),
            r == IrqInterrupt::IRQ <==> (self == IrqInterrupt::IRQ || other
                == IrqInterrupt::IRQ),
    {
        match self {
            IrqInterrupt::IRQ => IrqInterrupt::IRQ,
            IrqInterrupt::NoIrq => other,
        }
    }
}

} // verus!
