//! What an instruction reports to the drive loop: a request to present the
//! display, or a fatal condition.

use vstd::prelude::*;

verus! {

/// A condition that halts emulation.
#[derive(Clone, Copy, Debug, PartialEq, Eq, Structural)]
pub enum Fault {
    /// A call was made with fifteen return addresses already on the stack.
    StackOverflow,
    /// A return was made with no return address on the stack.
    StackUnderflow,
    /// An instruction addressed a byte beyond the end of memory.
    AddressOutOfRange,
}

impl Fault {
    /// The words in which the fault is reported.
    pub open spec fn text(self) -> Seq<char> {
        match self {
            Fault::StackOverflow => "The CPU has a stack overflow."@,
            Fault::StackUnderflow => "The CPU has a stack underflow."@,
            Fault::AddressOutOfRange => "The memory has no such address."@,
        }
    }

    pub fn message(&self) -> (message: &'static str)
        ensures
            message@ == self.text(),
    {
        match self {
            Fault::StackOverflow => "The CPU has a stack overflow.",
            Fault::StackUnderflow => "The CPU has a stack underflow.",
            Fault::AddressOutOfRange => "The memory has no such address.",
        }
    }
}

/// What the host has to do once an instruction has completed.
#[derive(Clone, Copy, Debug, PartialEq, Eq, Structural)]
pub enum Action {
    /// Nothing: the display is as it was.
    Continue,
    /// Present the display: it was cleared or drawn on.
    Refresh,
}

} // verus!
