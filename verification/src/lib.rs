//! An interpreter for a small virtual machine with 16-bit words.
//!
//! The machine has a word-addressed memory of 32768 cells, eight registers
//! that hold 15-bit values, an unbounded stack and an instruction pointer.
//! A program is a sequence of words: an opcode followed by its operands.
//!
//! * [`word`] classifies raw words and holds the 15-bit arithmetic.
//! * [`operation`] is the instruction set: opcodes, arities, decoded operations.
//! * [`fault`] names the ways in which a run ends or fails.
//! * [`state`] is the mathematical model: what decoding and executing mean.
//! * [`image`] reads a program image, a sequence of little-endian words.
//! * [`machine`] is the executable machine, proved against the model.
//! * [`laws`] states what holds of the instruction set as a whole.
//!
//! Input and output are a side channel of single bytes. The machine never
//! touches a console: an operation is handed the byte it may read and gives
//! back the byte it wrote, so the caller decides where bytes come from.

pub mod word;
pub mod fault;
pub mod operation;
pub mod state;
pub mod image;
pub mod machine;
pub mod laws;
