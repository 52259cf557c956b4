//! How an instruction can fail, what it does on the byte channel, and the
//! states in which a run can stop.

use vstd::prelude::*;

verus! {

/// Why an instruction could not be decoded or executed.
#[derive(Clone, Copy, Debug, PartialEq, Eq, Structural)]
pub enum Cause {
    /// The word at the instruction pointer is not one of the 22 opcodes.
    InvalidOpcode { opcode: u16 },
    /// An operand that is read is neither a literal nor a register reference.
    InvalidOperand { operand: u16 },
    /// An operand that is written to is not a register reference.
    InvalidDestination { operand: u16 },
    /// `pop` found the stack empty.
    StackUnderflow,
    /// `mod` was given the divisor 0.
    DivisionByZero,
    /// `in` found no byte left to read.
    InputExhausted,
    /// The address holds no word: it lies outside memory, or nothing was
    /// ever loaded or written there.
    UnmappedAddress { address: u16 },
    /// A word above 32767 was about to be put into a register.
    ValueOutOfRange { value: u16 },
}

/// An instruction that failed: where it stands, which it is and why it
/// failed. A failed instruction leaves the machine as it found it.
#[derive(Clone, Copy, Debug, PartialEq, Eq, Structural)]
pub struct Fault {
    /// The instruction pointer when the instruction failed.
    pub ip: u16,
    /// The opcode of the instruction; `None` where no opcode could be read.
    pub opcode: Option<u16>,
    /// What went wrong, with the word that was at fault.
    pub cause: Cause,
}

/// What an instruction did on the byte channel.
#[derive(Clone, Copy, Debug, PartialEq, Eq, Structural)]
pub enum Effect {
    /// It neither read nor wrote.
    Quiet,
    /// It wrote this byte.
    Emitted(u8),
    /// It read the byte that was offered to it.
    Consumed,
}

impl Effect {
    /// The bytes that the instruction wrote: one or none.
    pub open spec fn emitted(self) -> Seq<u8> {
        match self {
            Effect::Emitted(byte) => seq![byte],
            _ => Seq::empty(),
        }
    }

    /// The number of input bytes that the instruction read: one or none.
    pub open spec fn consumed(self) -> nat {
        match self {
            Effect::Consumed => 1,
            _ => 0,
        }
    }
}

/// The two run states of a machine that has not failed.
#[derive(Clone, Copy, Debug, PartialEq, Eq, Structural)]
pub enum Status {
    /// The machine can execute another instruction.
    Running,
    /// The machine has stopped for good, by `halt` or by `ret` on an empty
    /// stack.
    Halted,
}

/// Why a program image was not loaded.
#[derive(Clone, Copy, Debug, PartialEq, Eq, Structural)]
pub enum LoadError {
    /// The image has an odd number of bytes, so its last word is cut short.
    Truncated { length: usize },
    /// The image has more words than memory has cells.
    TooLarge { words: usize },
}

} // verus!
