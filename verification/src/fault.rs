//! The fatal conditions that end an interpreter instance.
use vstd::prelude::*;

verus! {

/// A fatal condition. None of them is recoverable: the instance that reports
/// one has stopped, and its driver decides what to do next.
#[derive(Copy, Clone, PartialEq, Eq, Structural, Debug)]
pub enum Fault {
    /// The instruction word matches no defined instruction.
    Decode { opcode: u16 },
    /// A return was executed with no call outstanding.
    StackUnderflow,
    /// A call was executed with sixteen calls already outstanding.
    StackOverflow,
    /// The program does not fit between the program origin and the end of
    /// memory.
    CapacityExceeded,
}

impl Fault {
    /// Whether this is a fault of the return-address stack.
    pub open spec fn is_stack_fault(self) -> bool {
        self == Fault::StackUnderflow || self == Fault::StackOverflow
    }
}

} // verus!
