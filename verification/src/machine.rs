//! The executable machine. Every method is proved to do what the model in
//! [`crate::state`] says.

use vstd::prelude::*;
use std::collections::HashMap;
use crate::fault::{Cause, Effect, Fault, LoadError, Status};
use crate::image::{parse, read_words, MAX_WORDS};
use crate::operation::Operation;
use crate::state::{State, Step, Trace};
use crate::word::{
    complement, low_byte, register_index, wrapping_product, wrapping_sum, Operand, LAST_REGISTER,
    MAX_ADDRESS, MAX_VALUE,
};

verus! {

/// A machine: memory, eight registers, a stack, an instruction pointer and
/// the flag that says whether it has halted.
#[derive(Debug)]
pub struct VM {
    instruction_ptr: u16,
    mem: HashMap<u16, u16>,
    registers: [u16; 8],
    stack: Vec<u16>,
    halted: bool,
}

/// What a run did and how it stopped.
#[derive(Debug, PartialEq, Eq)]
pub struct Transcript {
    /// The bytes that the program wrote, in order.
    pub output: Vec<u8>,
    /// The number of input bytes that the program read.
    pub consumed: usize,
    /// `Ok(Status::Halted)` if the machine halted, `Ok(Status::Running)` if
    /// the budget was spent first, and the fault if an instruction failed.
    pub end: Result<Status, Fault>,
}

impl Transcript {
    /// The transcript holds what the trace of a run says was written, read
    /// and reached.
    pub open spec fn records(&self, trace: Trace) -> bool {
        &&& self.output@ == trace.output
        &&& self.consumed == trace.consumed
        &&& self.end == trace.end
    }
}

/// An instruction took the machine from `before` to `after` as `expected`
/// says: on success to the step's state, giving the step's effect; on
/// failure nowhere, giving the failure.
pub open spec fn stepped<E>(
    before: State,
    after: State,
    result: Result<Effect, E>,
    expected: Result<Step, E>,
) -> bool {
    match expected {
        Ok(step) => result == Ok::<Effect, E>(step.effect) && after == step.state,
        Err(failure) => result == Err::<Effect, E>(failure) && after == before,
    }
}

impl View for VM {
    type V = State;

    closed spec fn view(&self) -> State {
        State {
            ip: self.instruction_ptr,
            memory: self.mem@,
            registers: self.registers@,
            stack: self.stack@,
            halted: self.halted,
        }
    }
}

impl VM {
    /// The machine's invariant: that of its state.
    pub open spec fn wf(&self) -> bool {
        self@.wf()
    }

    /// A fresh machine.
    pub fn new() -> (vm: VM)
        ensures
            vm.wf(),
            vm@ == State::fresh(),
    {
        VM {
            instruction_ptr: 0,
            mem: HashMap::new(),
            registers: [0u16; 8],
            stack: Vec::new(),
            halted: false,
        }
    }

    /// The address of the next opcode.
    pub fn instruction_ptr(&self) -> (ip: u16)
        ensures
            ip == self@.ip,
    {
        self.instruction_ptr
    }

    /// Whether the machine has halted.
    pub fn is_halted(&self) -> (halted: bool)
        ensures
            halted == self@.halted,
    {
        self.halted
    }

    /// What a register holds; `None` if there is no register of that index.
    pub fn register(&self, index: usize) -> (value: Option<u16>)
        ensures
            value == (if index < 8 {
                Some(self@.registers[index as int])
            } else {
                None
            }),
    {
        if index < 8 {
            Some(self.registers[index])
        } else {
            None
        }
    }

    /// The stack, its top last.
    pub fn stack(&self) -> (stack: &Vec<u16>)
        ensures
            stack@ == self@.stack,
    {
        &self.stack
    }

    /// The word at an address; `None` if the address holds no word.
    pub fn memory(&self, address: u16) -> (word: Option<u16>)
        ensures
            word == (if self@.memory.contains_key(address) {
                Some(self@.memory[address])
            } else {
                None
            }),
    {
        match self.mem.get(&address) {
            Some(word) => Some(*word),
            None => None,
        }
    }

    /// The index of the register that a word refers to: `Some` for the
    /// words 32768 to 32775, which refer to registers 0 to 7.
    pub fn register_idx(value: u16) -> (index: Option<usize>)
        ensures
            index == register_index(value),
            index matches Some(i) ==> i < 8 && i == value - 32768,
            index is Some <==> 32768 <= value <= 32775,
    {
        match Operand::from_word(value) {
            Some(Operand::Register(index)) => Some(index),
            _ => None,
        }
    }

    /// A fault of an instruction at the instruction pointer.
    fn fault(&self, opcode: Option<u16>, cause: Cause) -> (fault: Fault)
        ensures
            fault == self@.fault(opcode, cause),
    {
        Fault { ip: self.instruction_ptr, opcode, cause }
    }

    /// Reads the word at an address; fails where the address holds none.
    fn fetch(&self, address: u16) -> (word: Result<u16, Cause>)
        ensures
            word == self@.fetch(address),
    {
        match self.mem.get(&address) {
            Some(word) => Ok(*word),
            None => Err(Cause::UnmappedAddress { address }),
        }
    }

    /// Resolves an operand that is read: a literal gives itself, a register
    /// reference gives what the register holds, and any other word fails
    /// with `InvalidOperand`.
    pub fn get_value(&self, value: u16) -> (resolved: Result<u16, Cause>)
        requires
            self.wf(),
        ensures
            resolved == self@.resolve(value),
            resolved matches Ok(v) ==> v <= MAX_VALUE,
            resolved is Ok <==> value <= LAST_REGISTER,
    {
        match Operand::from_word(value) {
            Some(Operand::Literal(literal)) => Ok(literal),
            Some(Operand::Register(index)) => Ok(self.registers[index]),
            None => Err(Cause::InvalidOperand { operand: value }),
        }
    }

    /// Resolves two operands that are read, the left one first.
    fn get_values(&self, a: u16, b: u16) -> (resolved: Result<(u16, u16), Cause>)
        requires
            self.wf(),
        ensures
            resolved == self@.resolve_pair(a, b),
            resolved matches Ok(pair) ==> pair.0 <= MAX_VALUE && pair.1 <= MAX_VALUE,
    {
        let x: u16 = self.get_value(a)?;
        let y: u16 = self.get_value(b)?;
        Ok((x, y))
    }

    /// Puts a value into the register that `address` refers to. Fails with
    /// `InvalidDestination` if `address` is no register reference, else
    /// with `ValueOutOfRange` if the value is above 32767; a failure
    /// changes nothing.
    pub fn set_register(&mut self, address: u16, value: u16) -> (result: Result<(), Cause>)
        requires
            old(self).wf(),
        ensures
            final(self).wf(),
            match old(self)@.store(address, value) {
                Ok(state) => result is Ok && final(self)@ == state,
                Err(cause) => result == Err::<(), Cause>(cause) && final(self)@ == old(self)@,
            },
    {
        let index: usize = match Self::register_idx(address) {
            Some(index) => index,
            None => {
                return Err(Cause::InvalidDestination { operand: address });
            },
        };
        if value > MAX_VALUE {
            return Err(Cause::ValueOutOfRange { value });
        }
        self.registers[index] = value;
        Ok(())
    }

    /// Decodes the operation at the instruction pointer: reads the opcode,
    /// then as many operand words as the opcode takes. Fails with
    /// `UnmappedAddress` for the first of these addresses that holds no
    /// word, and with `InvalidOpcode` for a word that is no opcode. The
    /// machine is not changed.
    pub fn parse_next_operation(&self) -> (operation: Result<Operation, Fault>)
        requires
            self.wf(),
        ensures
            operation == self@.decode(),
    {
        let here: u16 = self.instruction_ptr;
        if here > MAX_ADDRESS {
            return Err(self.fault(None, Cause::UnmappedAddress { address: here }));
        }
        let opcode: u16 = match self.fetch(here) {
            Ok(word) => word,
            Err(cause) => {
                return Err(self.fault(None, cause));
            },
        };
        let count: u16 = match Operation::num_arguments(opcode) {
            Some(count) => count,
            None => {
                return Err(self.fault(Some(opcode), Cause::InvalidOpcode { opcode }));
            },
        };
        let mut args: Vec<u16> = Vec::new();
        let mut read: u16 = 0;
        while read < count
            invariant
                read <= count <= 3,
                here == self@.ip,
                here <= MAX_ADDRESS,
                self@.fetch(self@.ip) == Ok::<u16, Cause>(opcode),
                Operation::arity(opcode) == Some(count),
                self@.operands(read as nat) == Ok::<Seq<u16>, Cause>(args@),
                args@.len() == read,
            decreases count - read,
        {
            read = read + 1;
            match self.fetch(here + read) {
                Ok(word) => {
                    args.push(word);
                },
                Err(cause) => {
                    proof {
                        self@.lemma_operands_fail(read as nat, count as nat);
                    }
                    return Err(self.fault(Some(opcode), cause));
                },
            }
        }
        // `new` refuses only what `num_arguments` has refused above.
        match Operation::new(opcode, args) {
            Some(operation) => Ok(operation),
            None => Err(self.fault(Some(opcode), Cause::InvalidOpcode { opcode })),
        }
    }

    /// Puts a value into a register and moves past an instruction of
    /// `width` words.
    fn write(&mut self, destination: u16, value: u16, width: u16) -> (result: Result<
        Effect,
        Cause,
    >)
        requires
            old(self).wf(),
            old(self)@.ip <= MAX_ADDRESS,
            width <= 4,
        ensures
            final(self).wf(),
            stepped(old(self)@, final(self)@, result, old(self)@.write(destination, value, width)),
    {
        self.set_register(destination, value)?;
        self.instruction_ptr = self.instruction_ptr + width;
        Ok(Effect::Quiet)
    }

    /// Performs one operation: the instruction set, operation by operation.
    /// A failure gives the cause and changes nothing.
    fn perform(&mut self, operation: Operation, input: Option<u8>) -> (result: Result<
        Effect,
        Cause,
    >)
        requires
            old(self).wf(),
        ensures
            final(self).wf(),
            stepped(old(self)@, final(self)@, result, old(self)@.perform(operation, input)),
            result == Ok::<Effect, Cause>(Effect::Consumed) ==> input is Some,
    {
        if self.instruction_ptr > MAX_ADDRESS {
            return Err(Cause::UnmappedAddress { address: self.instruction_ptr });
        }
        match operation {
            Operation::Halt => {
                self.halted = true;
                Ok(Effect::Quiet)
            },
            Operation::SetReg(register, value) => {
                let value: u16 = self.get_value(value)?;
                self.write(register, value, 3)
            },
            Operation::Push(value) => {
                let value: u16 = self.get_value(value)?;
                self.stack.push(value);
                self.instruction_ptr = self.instruction_ptr + 2;
                Ok(Effect::Quiet)
            },
            Operation::Pop(address) => {
                let depth: usize = self.stack.len();
                if depth == 0 {
                    return Err(Cause::StackUnderflow);
                }
                let top: u16 = self.stack[depth - 1];
                self.write(address, top, 2)?;
                self.stack.pop();
                Ok(Effect::Quiet)
            },
            Operation::Eq(address, b, c) => {
                let (x, y): (u16, u16) = self.get_values(b, c)?;
                self.write(address, if x == y { 1 } else { 0 }, 4)
            },
            Operation::Gt(address, b, c) => {
                let (x, y): (u16, u16) = self.get_values(b, c)?;
                self.write(address, if x > y { 1 } else { 0 }, 4)
            },
            Operation::Jmp(address) => {
                self.instruction_ptr = self.get_value(address)?;
                Ok(Effect::Quiet)
            },
            Operation::Jt(value, address) => {
                if self.get_value(value)? != 0 {
                    self.instruction_ptr = self.get_value(address)?;
                } else {
                    self.instruction_ptr = self.instruction_ptr + 3;
                }
                Ok(Effect::Quiet)
            },
            Operation::Jf(value, address) => {
                if self.get_value(value)? == 0 {
                    self.instruction_ptr = self.get_value(address)?;
                } else {
                    self.instruction_ptr = self.instruction_ptr + 3;
                }
                Ok(Effect::Quiet)
            },
            Operation::Add(address, b, c) => {
                let (x, y): (u16, u16) = self.get_values(b, c)?;
                self.write(address, wrapping_sum(x, y), 4)
            },
            Operation::Mult(address, b, c) => {
                let (x, y): (u16, u16) = self.get_values(b, c)?;
                self.write(address, wrapping_product(x, y), 4)
            },
            Operation::Mod(address, b, c) => {
                let (x, y): (u16, u16) = self.get_values(b, c)?;
                if y == 0 {
                    return Err(Cause::DivisionByZero);
                }
                self.write(address, x % y, 4)
            },
            Operation::And(address, b, c) => {
                let (x, y): (u16, u16) = self.get_values(b, c)?;
                self.write(address, x & y, 4)
            },
            Operation::Or(address, b, c) => {
                let (x, y): (u16, u16) = self.get_values(b, c)?;
                self.write(address, x | y, 4)
            },
            Operation::Not(address, b) => {
                let x: u16 = self.get_value(b)?;
                self.write(address, complement(x), 3)
            },
            Operation::Rmem(write_address, read_address) => {
                let source: u16 = self.get_value(read_address)?;
                let word: u16 = self.fetch(source)?;
                self.write(write_address, word, 3)
            },
            Operation::Wmem(write_address, read_address) => {
                let (target, value): (u16, u16) = self.get_values(write_address, read_address)?;
                self.mem.insert(target, value);
                self.instruction_ptr = self.instruction_ptr + 3;
                Ok(Effect::Quiet)
            },
            Operation::Call(address) => {
                let target: u16 = self.get_value(address)?;
                self.stack.push(self.instruction_ptr + 2);
                self.instruction_ptr = target;
                Ok(Effect::Quiet)
            },
            Operation::Ret => {
                match self.stack.pop() {
                    Some(next) => {
                        self.instruction_ptr = next;
                    },
                    None => {
                        self.halted = true;
                    },
                }
                Ok(Effect::Quiet)
            },
            Operation::Out(value) => {
                let value: u16 = self.get_value(value)?;
                self.instruction_ptr = self.instruction_ptr + 2;
                Ok(Effect::Emitted(low_byte(value)))
            },
            Operation::In(address) => {
                let byte: u8 = match input {
                    Some(byte) => byte,
                    None => {
                        return Err(Cause::InputExhausted);
                    },
                };
                self.write(address, byte as u16, 2)?;
                Ok(Effect::Consumed)
            },
            Operation::Noop => {
                self.instruction_ptr = self.instruction_ptr + 1;
                Ok(Effect::Quiet)
            },
        }
    }

    /// Executes one operation. `input` is the byte that `in` reads; `None`
    /// says that no byte is left. Gives back what the operation did on the
    /// byte channel: the byte that `out` wrote, or that `in` took the byte
    /// offered. A failed operation changes nothing; its fault names the
    /// instruction pointer, the opcode and the cause.
    pub fn execute_operation(&mut self, operation: Operation, input: Option<u8>) -> (result:
        Result<Effect, Fault>)
        requires
            old(self).wf(),
        ensures
            final(self).wf(),
            stepped(old(self)@, final(self)@, result, old(self)@.execute(operation, input)),
            result == Ok::<Effect, Fault>(Effect::Consumed) ==> input is Some,
    {
        match self.perform(operation, input) {
            Ok(effect) => Ok(effect),
            Err(cause) => Err(self.fault(Some(operation.opcode()), cause)),
        }
    }

    /// Decodes the operation at the instruction pointer and executes it.
    pub fn execute_next_operation(&mut self, input: Option<u8>) -> (result: Result<Effect, Fault>)
        requires
            old(self).wf(),
        ensures
            final(self).wf(),
            stepped(old(self)@, final(self)@, result, old(self)@.step(input)),
            result == Ok::<Effect, Fault>(Effect::Consumed) ==> input is Some,
    {
        proof {
            reveal(State::step);
        }
        let operation: Operation = self.parse_next_operation()?;
        self.execute_operation(operation, input)
    }

    /// Loads a program image: word `i` of the image goes to address `i`.
    /// An image that is truncated or too large is refused and nothing is
    /// loaded.
    pub fn read_binary(&mut self, image: &[u8]) -> (result: Result<(), LoadError>)
        requires
            old(self).wf(),
        ensures
            final(self).wf(),
            match parse(image@) {
                Ok(words) => result is Ok && final(self)@ == old(self)@.load(words),
                Err(error) => result == Err::<(), LoadError>(error) && final(self)@ == old(self)@,
            },
            image@.len() % 2 == 1 ==> result is Err,
    {
        let words: Vec<u16> = read_words(image)?;
        let count: usize = words.len();
        let mut index: usize = 0;
        while index < count
            invariant
                index <= count,
                count == words@.len(),
                count <= MAX_WORDS,
                self.wf(),
                self@ == old(self)@.load(words@.take(index as int)),
            decreases count - index,
        {
            let ghost before: State = self@;
            self.mem.insert(index as u16, words[index]);
            index = index + 1;
            assert(self@.memory == before.memory.insert((index - 1) as u16, words@[index - 1]));
        }
        Ok(())
    }

    /// Runs the machine for at most `budget` instructions. `in` reads the
    /// bytes of `input` in order. The run stops when the machine has
    /// halted, when an instruction fails, or when the budget is spent; in
    /// the last case the machine is left running and can be run again with
    /// the input that is left.
    pub fn run(&mut self, input: &[u8], budget: u64) -> (transcript: Transcript)
        requires
            old(self).wf(),
        ensures
            final(self).wf(),
            final(self)@ == old(self)@.run(input@, budget as nat).state,
            transcript.records(old(self)@.run(input@, budget as nat)),
            transcript.consumed <= input@.len(),
    {
        let ghost start: State = self@;
        let mut output: Vec<u8> = Vec::new();
        let mut consumed: usize = 0;
        let mut spent: u64 = 0;
        let mut end: Result<Status, Fault> = Ok(Status::Running);
        assert(input@.skip(0) =~= input@);
        loop
            invariant_except_break
                self.wf(),
                consumed <= input@.len(),
                spent <= budget,
                start.run(input@, budget as nat) == self@.run(
                    input@.skip(consumed as int),
                    (budget - spent) as nat,
                ).preceded_by(output@, consumed as nat),
            ensures
                self.wf(),
                consumed <= input@.len(),
                start.run(input@, budget as nat) == (Trace {
                    state: self@,
                    output: output@,
                    consumed: consumed as nat,
                    end,
                }),
            decreases budget - spent,
        {
            let ghost rest: Seq<u8> = input@.skip(consumed as int);
            if self.halted {
                end = Ok(Status::Halted);
                break ;
            }
            if spent == budget {
                end = Ok(Status::Running);
                break ;
            }
            let byte: Option<u8> = if consumed < input.len() {
                Some(input[consumed])
            } else {
                None
            };
            match self.execute_next_operation(byte) {
                Ok(effect) => {
                    match effect {
                        Effect::Emitted(written) => {
                            output.push(written);
                        },
                        Effect::Consumed => {
                            consumed = consumed + 1;
                        },
                        Effect::Quiet => {},
                    }
                    spent = spent + 1;
                    assert(rest.skip(effect.consumed() as int) =~= input@.skip(consumed as int));
                },
                Err(fault) => {
                    end = Err(fault);
                    break ;
                },
            }
        }
        Transcript { output, consumed, end }
    }

    /// Loads a program image and runs it: see `read_binary` and `run`. An
    /// image that is refused leaves the machine as it was, and no
    /// instruction executes.
    pub fn run_binary(&mut self, image: &[u8], input: &[u8], budget: u64) -> (result:
        Result<Transcript, LoadError>)
        requires
            old(self).wf(),
        ensures
            final(self).wf(),
            match parse(image@) {
                Ok(words) => {
                    let trace = old(self)@.load(words).run(input@, budget as nat);
                    &&& result matches Ok(transcript)
                    &&& transcript.records(trace)
                    &&& transcript.consumed <= input@.len()
                    &&& final(self)@ == trace.state
                },
                Err(error) => {
                    &&& result == Err::<Transcript, LoadError>(error)
                    &&& final(self)@ == old(self)@
                },
            },
            image@.len() % 2 == 1 ==> result is Err && final(self)@ == old(self)@,
    {
        self.read_binary(image)?;
        Ok(self.run(input, budget))
    }
}

/// Runs a program image on a fresh machine: all registers 0, the stack
/// empty, the instruction pointer at 0. Gives what the program wrote, how
/// much of `input` it read, and how the run stopped; an image that is
/// refused runs nothing.
pub fn run_image(image: &[u8], input: &[u8], budget: u64) -> (result: Result<Transcript, LoadError>)
    ensures
        match parse(image@) {
            Ok(words) => {
                &&& result matches Ok(transcript)
                &&& transcript.records(State::fresh().load(words).run(input@, budget as nat))
                &&& transcript.consumed <= input@.len()
            },
            Err(error) => result == Err::<Transcript, LoadError>(error),
        },
        image@.len() % 2 == 1 ==> result is Err,
{
    let mut vm = VM::new();
    vm.run_binary(image, input, budget)
}

impl Default for VM {
    /// A fresh machine.
    fn default() -> (vm: VM)
        ensures
            vm.wf(),
            vm@ == State::fresh(),
    {
        VM::new()
    }
}

} // verus!
