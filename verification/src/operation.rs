//! The instruction set: 22 opcodes, each with a fixed number of operands.

use vstd::prelude::*;

verus! {

/// The largest opcode.
pub const MAX_OPCODE: u16 = 21;

/// A decoded instruction. The operands are raw words: whether one is a
/// literal or a register reference is decided when the operation executes.
#[derive(Clone, Copy, Debug, PartialEq, Eq, Structural)]
pub enum Operation {
    /// Opcode 0: stop the machine.
    Halt,
    /// Opcode 1: `set d a` puts the value of `a` into register `d`.
    SetReg(u16, u16),
    /// Opcode 2: `push a` pushes the value of `a` onto the stack.
    Push(u16),
    /// Opcode 3: `pop d` removes the top of the stack into register `d`.
    Pop(u16),
    /// Opcode 4: `eq d a b` sets `d` to 1 if `a` equals `b`, else to 0.
    Eq(u16, u16, u16),
    /// Opcode 5: `gt d a b` sets `d` to 1 if `a` is above `b`, else to 0.
    Gt(u16, u16, u16),
    /// Opcode 6: `jmp a` continues at address `a`.
    Jmp(u16),
    /// Opcode 7: `jt a t` continues at `t` if `a` is not 0.
    Jt(u16, u16),
    /// Opcode 8: `jf a t` continues at `t` if `a` is 0.
    Jf(u16, u16),
    /// Opcode 9: `add d a b` sets `d` to the sum of `a` and `b` modulo 32768.
    Add(u16, u16, u16),
    /// Opcode 10: `mult d a b` sets `d` to the product of `a` and `b`
    /// modulo 32768.
    Mult(u16, u16, u16),
    /// Opcode 11: `mod d a b` sets `d` to the remainder of `a` by `b`.
    Mod(u16, u16, u16),
    /// Opcode 12: `and d a b` sets `d` to the bitwise and of `a` and `b`.
    And(u16, u16, u16),
    /// Opcode 13: `or d a b` sets `d` to the bitwise or of `a` and `b`.
    Or(u16, u16, u16),
    /// Opcode 14: `not d a` sets `d` to the 15-bit complement of `a`.
    Not(u16, u16),
    /// Opcode 15: `rmem d a` sets `d` to the word at address `a`.
    Rmem(u16, u16),
    /// Opcode 16: `wmem a b` writes the value of `b` at address `a`.
    Wmem(u16, u16),
    /// Opcode 17: `call a` pushes the address of the next instruction and
    /// continues at `a`.
    Call(u16),
    /// Opcode 18: `ret` continues at the address on top of the stack, or
    /// stops the machine if the stack is empty.
    Ret,
    /// Opcode 19: `out a` writes the low byte of `a`.
    Out(u16),
    /// Opcode 20: `in d` reads one byte into register `d`.
    In(u16),
    /// Opcode 21: do nothing.
    Noop,
}

impl Operation {
    /// The number of operands that follow an opcode; `None` for a word
    /// that is no opcode.
    pub open spec fn arity(opcode: u16) -> Option<u16> {
        if opcode == 0 || opcode == 18 || opcode == 21 {
            Some(0)
        } else if opcode == 2 || opcode == 3 || opcode == 6 || opcode == 17 || opcode == 19
            || opcode == 20 {
            Some(1)
        } else if opcode == 1 || opcode == 7 || opcode == 8 || opcode == 14 || opcode == 15
            || opcode == 16 {
            Some(2)
        } else if opcode == 4 || opcode == 5 || 9 <= opcode <= 13 {
            Some(3)
        } else {
            None
        }
    }

    /// The operation that an opcode makes of the first operands in `args`,
    /// for an opcode whose operands are all there.
    pub open spec fn build(opcode: u16, args: Seq<u16>) -> Operation {
        if opcode == 0 {
            Operation::Halt
        } else if opcode == 1 {
            Operation::SetReg(args[0], args[1])
        } else if opcode == 2 {
            Operation::Push(args[0])
        } else if opcode == 3 {
            Operation::Pop(args[0])
        } else if opcode == 4 {
            Operation::Eq(args[0], args[1], args[2])
        } else if opcode == 5 {
            Operation::Gt(args[0], args[1], args[2])
        } else if opcode == 6 {
            Operation::Jmp(args[0])
        } else if opcode == 7 {
            Operation::Jt(args[0], args[1])
        } else if opcode == 8 {
            Operation::Jf(args[0], args[1])
        } else if opcode == 9 {
            Operation::Add(args[0], args[1], args[2])
        } else if opcode == 10 {
            Operation::Mult(args[0], args[1], args[2])
        } else if opcode == 11 {
            Operation::Mod(args[0], args[1], args[2])
        } else if opcode == 12 {
            Operation::And(args[0], args[1], args[2])
        } else if opcode == 13 {
            Operation::Or(args[0], args[1], args[2])
        } else if opcode == 14 {
            Operation::Not(args[0], args[1])
        } else if opcode == 15 {
            Operation::Rmem(args[0], args[1])
        } else if opcode == 16 {
            Operation::Wmem(args[0], args[1])
        } else if opcode == 17 {
            Operation::Call(args[0])
        } else if opcode == 18 {
            Operation::Ret
        } else if opcode == 19 {
            Operation::Out(args[0])
        } else if opcode == 20 {
            Operation::In(args[0])
        } else {
            Operation::Noop
        }
    }

    /// The operation that an opcode and its operands stand for: `None` if
    /// the word is no opcode or `args` holds fewer operands than the opcode
    /// takes. Operands beyond those are ignored.
    pub open spec fn assemble(opcode: u16, args: Seq<u16>) -> Option<Operation> {
        match Self::arity(opcode) {
            Some(count) if args.len() >= count => Some(Self::build(opcode, args)),
            _ => None,
        }
    }

    /// The opcode of an operation.
    pub open spec fn code(self) -> u16 {
        match self {
            Operation::Halt => 0,
            Operation::SetReg(..) => 1,
            Operation::Push(..) => 2,
            Operation::Pop(..) => 3,
            Operation::Eq(..) => 4,
            Operation::Gt(..) => 5,
            Operation::Jmp(..) => 6,
            Operation::Jt(..) => 7,
            Operation::Jf(..) => 8,
            Operation::Add(..) => 9,
            Operation::Mult(..) => 10,
            Operation::Mod(..) => 11,
            Operation::And(..) => 12,
            Operation::Or(..) => 13,
            Operation::Not(..) => 14,
            Operation::Rmem(..) => 15,
            Operation::Wmem(..) => 16,
            Operation::Call(..) => 17,
            Operation::Ret => 18,
            Operation::Out(..) => 19,
            Operation::In(..) => 20,
            Operation::Noop => 21,
        }
    }

    /// Looks up the number of operands of an opcode.
    pub fn num_arguments(opcode: u16) -> (count: Option<u16>)
        ensures
            count == Self::arity(opcode),
            count is Some <==> opcode <= MAX_OPCODE,
            count matches Some(n) ==> n <= 3,
    {
        match opcode {
            0 | 18 | 21 => Some(0),
            2 | 3 | 6 | 17 | 19 | 20 => Some(1),
            1 | 7 | 8 | 14 | 15 | 16 => Some(2),
            4 | 5 | 9 | 10 | 11 | 12 | 13 => Some(3),
            _ => None,
        }
    }

    /// Makes the operation of an opcode and its operands.
    pub fn new(opcode: u16, args: Vec<u16>) -> (operation: Option<Operation>)
        ensures
            operation == Self::assemble(opcode, args@),
            operation matches Some(op) ==> op.code() == opcode,
    {
        let count: usize = match Self::num_arguments(opcode) {
            Some(n) => n as usize,
            None => {
                return None;
            },
        };
        if args.len() < count {
            return None;
        }
        let operation = match opcode {
            0 => Operation::Halt,
            1 => Operation::SetReg(args[0], args[1]),
            2 => Operation::Push(args[0]),
            3 => Operation::Pop(args[0]),
            4 => Operation::Eq(args[0], args[1], args[2]),
            5 => Operation::Gt(args[0], args[1], args[2]),
            6 => Operation::Jmp(args[0]),
            7 => Operation::Jt(args[0], args[1]),
            8 => Operation::Jf(args[0], args[1]),
            9 => Operation::Add(args[0], args[1], args[2]),
            10 => Operation::Mult(args[0], args[1], args[2]),
            11 => Operation::Mod(args[0], args[1], args[2]),
            12 => Operation::And(args[0], args[1], args[2]),
            13 => Operation::Or(args[0], args[1], args[2]),
            14 => Operation::Not(args[0], args[1]),
            15 => Operation::Rmem(args[0], args[1]),
            16 => Operation::Wmem(args[0], args[1]),
            17 => Operation::Call(args[0]),
            18 => Operation::Ret,
            19 => Operation::Out(args[0]),
            20 => Operation::In(args[0]),
            _ => Operation::Noop,
        };
        Some(operation)
    }

    /// The opcode of this operation.
    pub fn opcode(&self) -> (opcode: u16)
        ensures
            opcode == self.code(),
            opcode <= MAX_OPCODE,
    {
        match self {
            Operation::Halt => 0,
            Operation::SetReg(..) => 1,
            Operation::Push(..) => 2,
            Operation::Pop(..) => 3,
            Operation::Eq(..) => 4,
            Operation::Gt(..) => 5,
            Operation::Jmp(..) => 6,
            Operation::Jt(..) => 7,
            Operation::Jf(..) => 8,
            Operation::Add(..) => 9,
            Operation::Mult(..) => 10,
            Operation::Mod(..) => 11,
            Operation::And(..) => 12,
            Operation::Or(..) => 13,
            Operation::Not(..) => 14,
            Operation::Rmem(..) => 15,
            Operation::Wmem(..) => 16,
            Operation::Call(..) => 17,
            Operation::Ret => 18,
            Operation::Out(..) => 19,
            Operation::In(..) => 20,
            Operation::Noop => 21,
        }
    }
}

} // verus!
