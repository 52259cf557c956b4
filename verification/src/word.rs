//! Raw words, the two ways to read one as an operand, and arithmetic on
//! 15-bit values.

use vstd::prelude::*;

verus! {

/// The largest value a register can hold, and the largest literal.
pub const MAX_VALUE: u16 = 32767;

/// The largest address of a memory cell.
pub const MAX_ADDRESS: u16 = 32767;

/// The word that refers to register 0.
pub const FIRST_REGISTER: u16 = 32768;

/// The word that refers to the last register.
pub const LAST_REGISTER: u16 = 32775;

/// The number of registers.
pub const REGISTER_COUNT: usize = 8;

/// A raw word read as an operand: either a value taken at face value or a
/// reference to one of the registers.
#[derive(Clone, Copy, Debug, PartialEq, Eq, Structural)]
pub enum Operand {
    /// A value between 0 and 32767.
    Literal(u16),
    /// The index of a register, between 0 and 7.
    Register(usize),
}

impl Operand {
    /// A literal is a 15-bit value and a register index is below 8.
    pub open spec fn wf(self) -> bool {
        match self {
            Operand::Literal(value) => value <= MAX_VALUE,
            Operand::Register(index) => index < REGISTER_COUNT,
        }
    }

    /// How a raw word reads as an operand: words up to 32767 are literals,
    /// the next eight refer to registers 0 to 7, and the rest mean nothing.
    pub open spec fn of_word(word: u16) -> Option<Operand> {
        if word <= MAX_VALUE {
            Some(Operand::Literal(word))
        } else if word <= LAST_REGISTER {
            Some(Operand::Register((word - FIRST_REGISTER) as usize))
        } else {
            None
        }
    }

    /// Reads a raw word as an operand. This is the one place where the
    /// ranges of literals and register references are told apart.
    pub fn from_word(word: u16) -> (operand: Option<Operand>)
        ensures
            operand == Self::of_word(word),
            operand matches Some(o) ==> o.wf(),
    {
        if word <= MAX_VALUE {
            Some(Operand::Literal(word))
        } else if word <= LAST_REGISTER {
            let index: u16 = word - FIRST_REGISTER;
            Some(Operand::Register(index as usize))
        } else {
            None
        }
    }
}

/// The index of the register that a word refers to, if it refers to one.
pub open spec fn register_index(word: u16) -> Option<usize> {
    match Operand::of_word(word) {
        Some(Operand::Register(index)) => Some(index),
        _ => None,
    }
}

/// Whether a word refers to a register.
pub open spec fn is_register(word: u16) -> bool {
    register_index(word) is Some
}

/// The sum of two values modulo 32768.
pub open spec fn sum_of(a: u16, b: u16) -> u16 {
    ((a + b) % 32768) as u16
}

/// The product of two values modulo 32768.
pub open spec fn product_of(a: u16, b: u16) -> u16 {
    ((a * b) % 32768) as u16
}

/// The bitwise complement of a value within its fifteen bits.
pub open spec fn complement_of(a: u16) -> u16 {
    (a ^ 0xffff) & 0x7fff
}

/// 1 for true and 0 for false.
pub open spec fn flag_of(b: bool) -> u16 {
    if b {
        1
    } else {
        0
    }
}

/// The low eight bits of a value.
pub open spec fn low_byte_of(a: u16) -> u8 {
    (a % 256) as u8
}

/// Adds two words modulo 32768. The sum is formed in 32 bits, so no pair
/// of words overflows.
pub fn wrapping_sum(a: u16, b: u16) -> (sum: u16)
    ensures
        sum == sum_of(a, b),
        sum <= MAX_VALUE,
{
    let wide: u32 = a as u32 + b as u32;
    (wide % 32768) as u16
}

/// Multiplies two words modulo 32768. The product is formed in 32 bits, so
/// no pair of words overflows.
pub fn wrapping_product(a: u16, b: u16) -> (product: u16)
    ensures
        product == product_of(a, b),
        product <= MAX_VALUE,
{
    assert(0 <= a * b <= 0xffff * 0xffff) by (nonlinear_arith)
        requires
            0 <= a <= 0xffff,
            0 <= b <= 0xffff,
    ;
    let wide: u32 = a as u32 * b as u32;
    (wide % 32768) as u16
}

/// Flips the low fifteen bits of a word and clears the sixteenth.
pub fn complement(a: u16) -> (flipped: u16)
    ensures
        flipped == complement_of(a),
        flipped <= MAX_VALUE,
{
    assert((a ^ 0xffff) & 0x7fff <= 0x7fff) by (bit_vector);
    (a ^ 0xffff) & 0x7fff
}

/// The low eight bits of a word, as a byte.
pub fn low_byte(a: u16) -> (byte: u8)
    ensures
        byte == low_byte_of(a),
{
    (a % 256) as u8
}

} // verus!
