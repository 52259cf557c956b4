//! The mathematical model of the machine: its state, and what it means to
//! decode an operation, to execute one, and to run until the machine stops.

use vstd::prelude::*;
use crate::fault::{Cause, Effect, Fault, Status};
use crate::operation::Operation;
use crate::word::{
    complement_of, flag_of, low_byte_of, product_of, register_index, sum_of, Operand, MAX_ADDRESS,
    MAX_VALUE,
};

verus! {

/// The state of a machine.
#[verifier::ext_equal]
pub struct State {
    /// The address of the next opcode.
    pub ip: u16,
    /// The words in memory, by address. An address that was never loaded or
    /// written holds no word.
    pub memory: Map<u16, u16>,
    /// The contents of the eight registers.
    pub registers: Seq<u16>,
    /// The stack; its top is the last element.
    pub stack: Seq<u16>,
    /// Whether the machine has stopped.
    pub halted: bool,
}

/// What one instruction leaves behind: the next state and what happened on
/// the byte channel.
#[verifier::ext_equal]
pub struct Step {
    /// The state after the instruction.
    pub state: State,
    /// What the instruction read or wrote.
    pub effect: Effect,
}

/// What a run leaves behind.
#[verifier::ext_equal]
pub struct Trace {
    /// The state in which the run stopped.
    pub state: State,
    /// The bytes written, in order.
    pub output: Seq<u8>,
    /// The number of input bytes read.
    pub consumed: nat,
    /// How the run stopped: halted, still running when the budget of
    /// instructions was spent, or failed.
    pub end: Result<Status, Fault>,
}

impl Trace {
    /// The trace of a run that stops at once.
    pub open spec fn stopped(state: State, end: Result<Status, Fault>) -> Trace {
        Trace { state, output: Seq::empty(), consumed: 0, end }
    }

    /// This trace, preceded by output that was already written and input
    /// that was already read.
    pub open spec fn preceded_by(self, output: Seq<u8>, consumed: nat) -> Trace {
        Trace {
            state: self.state,
            output: output + self.output,
            consumed: consumed + self.consumed,
            end: self.end,
        }
    }
}

/// The byte that is offered to the next instruction: the first of the input.
pub open spec fn offered(input: Seq<u8>) -> Option<u8> {
    if input.len() > 0 {
        Some(input[0])
    } else {
        None
    }
}

impl State {
    /// There are eight registers, each holds a 15-bit value, and memory
    /// has no cell above address 32767.
    pub open spec fn wf(self) -> bool {
        &&& self.registers.len() == 8
        &&& forall|i: int| 0 <= i < 8 ==> #[trigger] self.registers[i] <= MAX_VALUE
        &&& forall|address: u16| #[trigger]
            self.memory.contains_key(address) ==> address <= MAX_ADDRESS
    }

    /// A fresh machine: all registers 0, the stack and memory empty, the
    /// instruction pointer at 0, not halted.
    pub open spec fn fresh() -> State {
        State {
            ip: 0,
            memory: Map::empty(),
            registers: Seq::new(8, |i: int| 0u16),
            stack: Seq::empty(),
            halted: false,
        }
    }

    /// The state after a program is loaded: word `i` of the program stands
    /// at address `i`, and every other address holds what it held.
    pub open spec fn load(self, words: Seq<u16>) -> State {
        State {
            memory: Map::new(
                |address: u16| address < words.len() || self.memory.contains_key(address),
                |address: u16|
                    if address < words.len() {
                        words[address as int]
                    } else {
                        self.memory[address]
                    },
            ),
            ..self
        }
    }

    /// A fault of an instruction at the instruction pointer.
    pub open spec fn fault(self, opcode: Option<u16>, cause: Cause) -> Fault {
        Fault { ip: self.ip, opcode, cause }
    }

    /// The word at an address.
    pub open spec fn fetch(self, address: u16) -> Result<u16, Cause> {
        if self.memory.contains_key(address) {
            Ok(self.memory[address])
        } else {
            Err(Cause::UnmappedAddress { address })
        }
    }

    /// The first `count` operand words after the instruction pointer, read
    /// in order; the first address that holds no word is reported.
    pub open spec fn operands(self, count: nat) -> Result<Seq<u16>, Cause>
        decreases count,
    {
        if count == 0 {
            Ok(Seq::empty())
        } else {
            match self.operands((count - 1) as nat) {
                Err(cause) => Err(cause),
                Ok(words) => match self.fetch((self.ip + count) as u16) {
                    Err(cause) => Err(cause),
                    Ok(word) => Ok(words.push(word)),
                },
            }
        }
    }

    /// Once an operand address holds no word, reading more operands fails
    /// in the same way.
    pub proof fn lemma_operands_fail(self, read: nat, count: nat)
        requires
            read <= count,
            self.operands(read) is Err,
        ensures
            self.operands(count) == self.operands(read),
        decreases count,
    {
        if read < count {
            self.lemma_operands_fail(read, (count - 1) as nat);
        }
    }

    /// The operation at the instruction pointer. The opcode is read first,
    /// then as many operands as it takes. A fault names the opcode unless
    /// the instruction pointer itself holds no word.
    pub open spec fn decode(self) -> Result<Operation, Fault> {
        if self.ip > MAX_ADDRESS {
            Err(self.fault(None, Cause::UnmappedAddress { address: self.ip }))
        } else {
            match self.fetch(self.ip) {
                Err(cause) => Err(self.fault(None, cause)),
                Ok(opcode) => match Operation::arity(opcode) {
                    None => Err(self.fault(Some(opcode), Cause::InvalidOpcode { opcode })),
                    Some(count) => match self.operands(count as nat) {
                        Err(cause) => Err(self.fault(Some(opcode), cause)),
                        Ok(words) => Ok(Operation::build(opcode, words)),
                    },
                },
            }
        }
    }

    /// The value of an operand that is read: a literal stands for itself, a
    /// register reference for what the register holds.
    pub open spec fn resolve(self, word: u16) -> Result<u16, Cause> {
        match Operand::of_word(word) {
            Some(Operand::Literal(value)) => Ok(value),
            Some(Operand::Register(index)) => Ok(self.registers[index as int]),
            None => Err(Cause::InvalidOperand { operand: word }),
        }
    }

    /// The values of two operands, read from left to right.
    pub open spec fn resolve_pair(self, a: u16, b: u16) -> Result<(u16, u16), Cause> {
        match self.resolve(a) {
            Err(cause) => Err(cause),
            Ok(x) => match self.resolve(b) {
                Err(cause) => Err(cause),
                Ok(y) => Ok((x, y)),
            },
        }
    }

    /// The state after `value` is put into the register that `destination`
    /// refers to. The destination must be a register reference and the
    /// value must fit a register.
    pub open spec fn store(self, destination: u16, value: u16) -> Result<State, Cause> {
        match register_index(destination) {
            None => Err(Cause::InvalidDestination { operand: destination }),
            Some(index) => if value > MAX_VALUE {
                Err(Cause::ValueOutOfRange { value })
            } else {
                Ok(State { registers: self.registers.update(index as int, value), ..self })
            },
        }
    }

    /// The state with the instruction pointer at `target`.
    pub open spec fn jump(self, target: u16) -> State {
        State { ip: target, ..self }
    }

    /// The state with the instruction pointer moved past an instruction of
    /// `width` words.
    pub open spec fn advance(self, width: u16) -> State {
        State { ip: (self.ip + width) as u16, ..self }
    }

    /// A step that reads and writes no byte.
    pub open spec fn quiet(self) -> Step {
        Step { state: self, effect: Effect::Quiet }
    }

    /// The step of an instruction of `width` words that puts `value` into
    /// the register `destination`.
    pub open spec fn write(self, destination: u16, value: u16, width: u16) -> Result<Step, Cause> {
        match self.store(destination, value) {
            Err(cause) => Err(cause),
            Ok(state) => Ok(state.advance(width).quiet()),
        }
    }

    /// What an operation does to the machine. `input` is the byte that `in`
    /// would read, if there is one.
    ///
    /// An operation executes only where the instruction pointer is an
    /// address. Its operands that are read are resolved from left to right;
    /// then the operation's own condition is tested (a stack that is not
    /// empty, a divisor that is not 0, an address that holds a word, a byte
    /// to read); then the destination is written.
    pub open spec fn perform(self, operation: Operation, input: Option<u8>) -> Result<Step, Cause> {
        if self.ip > MAX_ADDRESS {
            Err(Cause::UnmappedAddress { address: self.ip })
        } else {
            match operation {
                Operation::Halt => Ok(State { halted: true, ..self }.quiet()),
                Operation::SetReg(d, a) => match self.resolve(a) {
                    Err(cause) => Err(cause),
                    Ok(x) => self.write(d, x, 3),
                },
                Operation::Push(a) => match self.resolve(a) {
                    Err(cause) => Err(cause),
                    Ok(x) => Ok(State { stack: self.stack.push(x), ..self }.advance(2).quiet()),
                },
                Operation::Pop(d) => if self.stack.len() == 0 {
                    Err(Cause::StackUnderflow)
                } else {
                    State { stack: self.stack.drop_last(), ..self }.write(d, self.stack.last(), 2)
                },
                Operation::Eq(d, a, b) => match self.resolve_pair(a, b) {
                    Err(cause) => Err(cause),
                    Ok((x, y)) => self.write(d, flag_of(x == y), 4),
                },
                Operation::Gt(d, a, b) => match self.resolve_pair(a, b) {
                    Err(cause) => Err(cause),
                    Ok((x, y)) => self.write(d, flag_of(x > y), 4),
                },
                Operation::Jmp(a) => match self.resolve(a) {
                    Err(cause) => Err(cause),
                    Ok(target) => Ok(self.jump(target).quiet()),
                },
                Operation::Jt(a, t) => match self.resolve(a) {
                    Err(cause) => Err(cause),
                    Ok(x) => if x != 0 {
                        match self.resolve(t) {
                            Err(cause) => Err(cause),
                            Ok(target) => Ok(self.jump(target).quiet()),
                        }
                    } else {
                        Ok(self.advance(3).quiet())
                    },
                },
                Operation::Jf(a, t) => match self.resolve(a) {
                    Err(cause) => Err(cause),
                    Ok(x) => if x == 0 {
                        match self.resolve(t) {
                            Err(cause) => Err(cause),
                            Ok(target) => Ok(self.jump(target).quiet()),
                        }
                    } else {
                        Ok(self.advance(3).quiet())
                    },
                },
                Operation::Add(d, a, b) => match self.resolve_pair(a, b) {
                    Err(cause) => Err(cause),
                    Ok((x, y)) => self.write(d, sum_of(x, y), 4),
                },
                Operation::Mult(d, a, b) => match self.resolve_pair(a, b) {
                    Err(cause) => Err(cause),
                    Ok((x, y)) => self.write(d, product_of(x, y), 4),
                },
                Operation::Mod(d, a, b) => match self.resolve_pair(a, b) {
                    Err(cause) => Err(cause),
                    Ok((x, y)) => if y == 0 {
                        Err(Cause::DivisionByZero)
                    } else {
                        self.write(d, x % y, 4)
                    },
                },
                Operation::And(d, a, b) => match self.resolve_pair(a, b) {
                    Err(cause) => Err(cause),
                    Ok((x, y)) => self.write(d, x & y, 4),
                },
                Operation::Or(d, a, b) => match self.resolve_pair(a, b) {
                    Err(cause) => Err(cause),
                    Ok((x, y)) => self.write(d, x | y, 4),
                },
                Operation::Not(d, a) => match self.resolve(a) {
                    Err(cause) => Err(cause),
                    Ok(x) => self.write(d, complement_of(x), 3),
                },
                Operation::Rmem(d, a) => match self.resolve(a) {
                    Err(cause) => Err(cause),
                    Ok(address) => match self.fetch(address) {
                        Err(cause) => Err(cause),
                        Ok(word) => self.write(d, word, 3),
                    },
                },
                Operation::Wmem(a, b) => match self.resolve_pair(a, b) {
                    Err(cause) => Err(cause),
                    Ok((address, x)) => Ok(
                        State { memory: self.memory.insert(address, x), ..self }.advance(3).quiet(),
                    ),
                },
                Operation::Call(a) => match self.resolve(a) {
                    Err(cause) => Err(cause),
                    Ok(target) => Ok(
                        State { stack: self.stack.push((self.ip + 2) as u16), ..self }.jump(
                            target,
                        ).quiet(),
                    ),
                },
                Operation::Ret => if self.stack.len() == 0 {
                    Ok(State { halted: true, ..self }.quiet())
                } else {
                    Ok(
                        State { stack: self.stack.drop_last(), ..self }.jump(
                            self.stack.last(),
                        ).quiet(),
                    )
                },
                Operation::Out(a) => match self.resolve(a) {
                    Err(cause) => Err(cause),
                    Ok(x) => Ok(
                        Step { state: self.advance(2), effect: Effect::Emitted(low_byte_of(x)) },
                    ),
                },
                Operation::In(d) => match input {
                    None => Err(Cause::InputExhausted),
                    Some(byte) => match self.store(d, byte as u16) {
                        Err(cause) => Err(cause),
                        Ok(state) => Ok(Step { state: state.advance(2), effect: Effect::Consumed }),
                    },
                },
                Operation::Noop => Ok(self.advance(1).quiet()),
            }
        }
    }

    /// What executing an operation gives: the step that it performs, or a
    /// fault that names the instruction pointer, the operation's opcode and
    /// the cause.
    pub open spec fn execute(self, operation: Operation, input: Option<u8>) -> Result<Step, Fault> {
        match self.perform(operation, input) {
            Ok(step) => Ok(step),
            Err(cause) => Err(self.fault(Some(operation.code()), cause)),
        }
    }

    /// One instruction: decode the operation at the instruction pointer and
    /// execute it.
    #[verifier::opaque]
    pub open spec fn step(self, input: Option<u8>) -> Result<Step, Fault> {
        match self.decode() {
            Err(fault) => Err(fault),
            Ok(operation) => self.execute(operation, input),
        }
    }

    /// A run of at most `budget` instructions with the given bytes to read.
    ///
    /// A halted machine stops at once. A spent budget leaves the machine
    /// running where it is. Otherwise one instruction executes: if it fails,
    /// the run stops in the state before it; if not, the run goes on from
    /// the next state with what is left of the input.
    pub open spec fn run(self, input: Seq<u8>, budget: nat) -> Trace
        decreases budget,
    {
        if self.halted {
            Trace::stopped(self, Ok(Status::Halted))
        } else if budget == 0 {
            Trace::stopped(self, Ok(Status::Running))
        } else {
            match self.step(offered(input)) {
                Err(fault) => Trace::stopped(self, Err(fault)),
                Ok(step) => step.state.run(
                    input.skip(step.effect.consumed() as int),
                    (budget - 1) as nat,
                ).preceded_by(step.effect.emitted(), step.effect.consumed()),
            }
        }
    }
}

} // verus!
