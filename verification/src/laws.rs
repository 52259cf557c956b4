//! What holds of the instruction set, stated over the model and proved.
//!
//! An operation executes only where the instruction pointer is an address,
//! so each law asks that the instructions it speaks of stand in memory.

use vstd::prelude::*;
use crate::fault::{Cause, Effect, Fault, Status};
use crate::operation::Operation;
use crate::state::{offered, State, Step, Trace};
use crate::word::{complement_of, is_register, product_of, sum_of, MAX_ADDRESS, MAX_VALUE};

verus! {

/// A fresh machine is well formed.
pub proof fn law_fresh_is_well_formed()
    ensures
        State::fresh().wf(),
{
}

/// Loading a program of at most 32768 words keeps a machine well formed.
pub proof fn law_load_preserves_wf(s: State, words: Seq<u16>)
    requires
        s.wf(),
        words.len() <= 32768,
    ensures
        s.load(words).wf(),
{
}

/// No operation breaks the invariant: registers go on holding 15-bit
/// values, and memory gets no cell above address 32767.
pub proof fn law_execute_preserves_wf(s: State, operation: Operation, input: Option<u8>)
    requires
        s.wf(),
    ensures
        s.execute(operation, input) matches Ok(step) ==> step.state.wf(),
{
    match operation {
        Operation::SetReg(d, _) | Operation::Not(d, _) | Operation::Rmem(d, _) => {
            lemma_write_preserves_wf(s, d, 3);
        },
        Operation::Eq(d, _, _)
        | Operation::Gt(d, _, _)
        | Operation::Add(d, _, _)
        | Operation::Mult(d, _, _)
        | Operation::Mod(d, _, _)
        | Operation::And(d, _, _)
        | Operation::Or(d, _, _) => {
            lemma_write_preserves_wf(s, d, 4);
        },
        Operation::Pop(d) => {
            lemma_write_preserves_wf(State { stack: s.stack.drop_last(), ..s }, d, 2);
        },
        Operation::In(d) => {
            lemma_write_preserves_wf(s, d, 2);
        },
        _ => {},
    }
}

/// Writing a register keeps a state well formed, whatever is written.
proof fn lemma_write_preserves_wf(s: State, d: u16, width: u16)
    requires
        s.wf(),
    ensures
        forall|v: u16| #[trigger] s.write(d, v, width) matches Ok(step) ==> step.state.wf(),
        forall|v: u16| #[trigger] s.store(d, v) matches Ok(state) ==> state.wf(),
{
}

/// A run never breaks the invariant.
pub proof fn law_run_preserves_wf(s: State, input: Seq<u8>, budget: nat)
    requires
        s.wf(),
    ensures
        s.run(input, budget).state.wf(),
    decreases budget,
{
    reveal(State::step);
    if !s.halted && budget > 0 {
        match s.step(offered(input)) {
            Ok(step) => {
                law_execute_preserves_wf(s, s.decode().unwrap(), offered(input));
                law_run_preserves_wf(
                    step.state,
                    input.skip(step.effect.consumed() as int),
                    (budget - 1) as nat,
                );
            },
            Err(_) => {},
        }
    }
}

/// What the arithmetic and bitwise operations compute on 15-bit values is
/// a 15-bit value.
pub proof fn law_values_fit(x: u16, y: u16)
    requires
        x <= MAX_VALUE,
        y <= MAX_VALUE,
    ensures
        sum_of(x, y) <= MAX_VALUE,
        product_of(x, y) <= MAX_VALUE,
        y != 0 ==> x % y <= MAX_VALUE,
        x & y <= MAX_VALUE,
        x | y <= MAX_VALUE,
        complement_of(x) <= MAX_VALUE,
{
    assert(0 <= x * y) by (nonlinear_arith)
        requires
            0 <= x,
            0 <= y,
    ;
    if y != 0 {
        assert(x % y <= x) by (nonlinear_arith)
            requires
                0 <= x,
                0 < y,
        ;
    }
    assert(x <= 0x7fff && y <= 0x7fff ==> (x & y) <= 0x7fff) by (bit_vector);
    assert(x <= 0x7fff && y <= 0x7fff ==> (x | y) <= 0x7fff) by (bit_vector);
    assert((x ^ 0xffff) & 0x7fff <= 0x7fff) by (bit_vector);
}

/// An operation that computes a value into a register succeeds wherever
/// its destination is a register and its operands can be read; `mod` asks
/// besides for a divisor that is not 0.
pub proof fn law_computations_succeed(s: State, d: u16, a: u16, b: u16, input: Option<u8>)
    requires
        s.wf(),
        s.ip <= MAX_ADDRESS,
        is_register(d),
        s.resolve(a) is Ok,
        s.resolve(b) is Ok,
    ensures
        s.execute(Operation::SetReg(d, a), input) is Ok,
        s.execute(Operation::Eq(d, a, b), input) is Ok,
        s.execute(Operation::Gt(d, a, b), input) is Ok,
        s.execute(Operation::Add(d, a, b), input) is Ok,
        s.execute(Operation::Mult(d, a, b), input) is Ok,
        s.execute(Operation::Mod(d, a, b), input) is Ok <==> s.resolve(b) != Ok::<u16, Cause>(0),
        s.execute(Operation::And(d, a, b), input) is Ok,
        s.execute(Operation::Or(d, a, b), input) is Ok,
        s.execute(Operation::Not(d, a), input) is Ok,
{
    law_values_fit(s.resolve(a).unwrap(), s.resolve(b).unwrap());
}

/// `set r a` followed by reading `r` yields the value of `a`, for every
/// register `r`: the literal itself where `a` is a value up to 32767, and
/// what the register held where `a` refers to one.
pub proof fn law_set_then_read(s: State, r: u16, a: u16, input: Option<u8>)
    requires
        s.wf(),
        s.ip <= MAX_ADDRESS,
        is_register(r),
        s.resolve(a) is Ok,
    ensures
        ({
            &&& s.execute(Operation::SetReg(r, a), input) matches Ok(step)
            &&& step.state.resolve(r) == s.resolve(a)
            &&& a <= MAX_VALUE ==> step.state.resolve(r) == Ok::<u16, Cause>(a)
        }),
{
}

/// Addition and multiplication are commutative, and their results lie
/// between 0 and 32767.
pub proof fn law_arithmetic_commutes(a: u16, b: u16)
    ensures
        sum_of(a, b) == sum_of(b, a),
        product_of(a, b) == product_of(b, a),
        sum_of(a, b) <= MAX_VALUE,
        product_of(a, b) <= MAX_VALUE,
{
    assert(a * b == b * a) by (nonlinear_arith);
    assert(0 <= a * b) by (nonlinear_arith)
        requires
            0 <= a,
            0 <= b,
    ;
}

/// `add` and `mult` do the same with their two operands in either order,
/// and what they put into the register lies between 0 and 32767.
pub proof fn law_add_mult_commute(s: State, d: u16, a: u16, b: u16, input: Option<u8>)
    requires
        s.wf(),
        s.resolve(a) is Ok,
        s.resolve(b) is Ok,
    ensures
        s.execute(Operation::Add(d, a, b), input) == s.execute(Operation::Add(d, b, a), input),
        s.execute(Operation::Mult(d, a, b), input) == s.execute(Operation::Mult(d, b, a), input),
        s.execute(Operation::Add(d, a, b), input) matches Ok(step) ==> ({
            &&& step.state.resolve(d) matches Ok(sum)
            &&& sum <= MAX_VALUE
        }),
        s.execute(Operation::Mult(d, a, b), input) matches Ok(step) ==> ({
            &&& step.state.resolve(d) matches Ok(product)
            &&& product <= MAX_VALUE
        }),
{
    let x = s.resolve(a).unwrap();
    let y = s.resolve(b).unwrap();
    law_arithmetic_commutes(x, y);
}

/// `eq` and `gt` put exactly 0 or 1 into their register.
pub proof fn law_comparisons_yield_flags(s: State, d: u16, a: u16, b: u16, input: Option<u8>)
    requires
        s.wf(),
    ensures
        s.execute(Operation::Eq(d, a, b), input) matches Ok(step) ==> ({
            ||| step.state.resolve(d) == Ok::<u16, Cause>(0)
            ||| step.state.resolve(d) == Ok::<u16, Cause>(1)
        }),
        s.execute(Operation::Gt(d, a, b), input) matches Ok(step) ==> ({
            ||| step.state.resolve(d) == Ok::<u16, Cause>(0)
            ||| step.state.resolve(d) == Ok::<u16, Cause>(1)
        }),
{
}

/// The complement of the complement of a 15-bit value is the value.
pub proof fn law_complement_involution(a: u16)
    requires
        a <= MAX_VALUE,
    ensures
        complement_of(complement_of(a)) == a,
        complement_of(a) <= MAX_VALUE,
{
    assert(a <= 0x7fff ==> ((((a ^ 0xffff) & 0x7fff) ^ 0xffff) & 0x7fff) == a) by (bit_vector);
    assert((a ^ 0xffff) & 0x7fff <= 0x7fff) by (bit_vector);
}

/// `not d a` followed by `not d d` leaves in `d` the value that `a` had.
pub proof fn law_not_twice_restores(s: State, d: u16, a: u16, input: Option<u8>)
    requires
        s.wf(),
        s.ip + 3 <= MAX_ADDRESS,
        is_register(d),
        s.resolve(a) is Ok,
    ensures
        ({
            &&& s.execute(Operation::Not(d, a), input) matches Ok(first)
            &&& first.state.execute(Operation::Not(d, d), input) matches Ok(second)
            &&& second.state.resolve(d) == s.resolve(a)
        }),
{
    let x = s.resolve(a).unwrap();
    law_complement_involution(x);
}

/// `push v` followed by `pop r` leaves `r` holding the value of `v`, and
/// the stack as it was.
pub proof fn law_push_then_pop(s: State, v: u16, r: u16, input: Option<u8>)
    requires
        s.wf(),
        s.ip + 2 <= MAX_ADDRESS,
        is_register(r),
        s.resolve(v) is Ok,
    ensures
        ({
            &&& s.execute(Operation::Push(v), input) matches Ok(pushed)
            &&& pushed.state.execute(Operation::Pop(r), input) matches Ok(popped)
            &&& popped.state.resolve(r) == s.resolve(v)
            &&& popped.state.stack == s.stack
        }),
{
}

/// On an empty stack `pop` fails with a stack underflow, while `ret`
/// succeeds and halts the machine.
pub proof fn law_empty_stack(s: State, d: u16, input: Option<u8>)
    requires
        s.wf(),
        s.ip <= MAX_ADDRESS,
        s.stack.len() == 0,
    ensures
        s.execute(Operation::Pop(d), input) == Err::<Step, Fault>(
            Fault { ip: s.ip, opcode: Some(3), cause: Cause::StackUnderflow },
        ),
        s.execute(Operation::Ret, input) == Ok::<Step, Fault>(
            Step { state: State { halted: true, ..s }, effect: Effect::Quiet },
        ),
{
}

/// A run that meets `pop` on an empty stack ends in a fault; one that
/// meets `ret` on an empty stack ends halted.
pub proof fn law_empty_stack_ends_run(s: State, input: Seq<u8>, budget: nat)
    requires
        s.wf(),
        !s.halted,
        budget > 0,
        s.stack.len() == 0,
    ensures
        s.decode() matches Ok(Operation::Pop(d)) ==> s.run(input, budget) == Trace::stopped(
            s,
            Err(Fault { ip: s.ip, opcode: Some(3), cause: Cause::StackUnderflow }),
        ),
        s.decode() == Ok::<Operation, Fault>(Operation::Ret) ==> s.run(input, budget)
            == Trace::stopped(State { halted: true, ..s }, Ok(Status::Halted)),
{
    reveal(State::step);
    if s.decode() == Ok::<Operation, Fault>(Operation::Ret) {
        let halted = State { halted: true, ..s };
        assert(halted.run(input.skip(0), (budget - 1) as nat) == Trace::stopped(
            halted,
            Ok(Status::Halted),
        ));
    }
}

/// `call a` followed, once the stack is as the call left it, by `ret`
/// brings the instruction pointer to the address of the call plus 2, and
/// the stack to what it was before the call.
pub proof fn law_call_then_ret(s: State, a: u16, later: State, input: Option<u8>)
    requires
        s.wf(),
        s.ip <= MAX_ADDRESS,
        s.resolve(a) is Ok,
        later.wf(),
        later.ip <= MAX_ADDRESS,
        ({
            &&& s.execute(Operation::Call(a), input) matches Ok(called)
            &&& later.stack == called.state.stack
        }),
    ensures
        ({
            &&& s.execute(Operation::Call(a), input) matches Ok(called)
            &&& s.resolve(a) == Ok::<u16, Cause>(called.state.ip)
        }),
        ({
            &&& later.execute(Operation::Ret, input) matches Ok(returned)
            &&& returned.state.ip == s.ip + 2
            &&& returned.state.stack == s.stack
            &&& returned.state.halted == later.halted
        }),
{
}

/// `wmem a b` followed by `rmem d a` leaves `d` holding the value of `b`.
pub proof fn law_write_then_read_memory(s: State, a: u16, b: u16, d: u16, input: Option<u8>)
    requires
        s.wf(),
        s.ip + 3 <= MAX_ADDRESS,
        is_register(d),
        s.resolve(a) is Ok,
        s.resolve(b) is Ok,
    ensures
        ({
            &&& s.execute(Operation::Wmem(a, b), input) matches Ok(written)
            &&& written.state.resolve(a) == s.resolve(a)
            &&& written.state.execute(Operation::Rmem(d, a), input) matches Ok(read)
            &&& read.state.resolve(d) == s.resolve(b)
        }),
{
}

/// A run that meets a word that is no opcode ends at once in a fault that
/// names the instruction pointer and the word.
pub proof fn law_invalid_opcode_aborts(s: State, input: Seq<u8>, budget: nat)
    requires
        !s.halted,
        budget > 0,
        s.ip <= MAX_ADDRESS,
        s.memory.contains_key(s.ip),
        Operation::arity(s.memory[s.ip]) is None,
    ensures
        s.run(input, budget) == Trace::stopped(
            s,
            Err(
                Fault {
                    ip: s.ip,
                    opcode: Some(s.memory[s.ip]),
                    cause: Cause::InvalidOpcode { opcode: s.memory[s.ip] },
                },
            ),
        ),
{
    reveal(State::step);
}

/// Decoding looks at the instruction pointer and at memory, and at nothing
/// else: two states that agree on both hold the same operation.
pub proof fn law_decode_reads_memory_only(s: State, t: State)
    requires
        s.ip == t.ip,
        s.memory == t.memory,
    ensures
        s.decode() == t.decode(),
{
    assert(forall|count: nat| count <= 3 ==> s.operands(count) == t.operands(count)) by {
        reveal_with_fuel(State::operands, 4);
    }
}

/// A machine halts only by `halt`, or by `ret` on an empty stack.
pub proof fn law_halts_by_halt_or_ret(s: State, operation: Operation, input: Option<u8>)
    requires
        !s.halted,
    ensures
        s.execute(operation, input) matches Ok(step) ==> (step.state.halted <==> ({
            ||| operation == Operation::Halt
            ||| operation == Operation::Ret && s.stack.len() == 0
        })),
{
}

/// A run ends halted exactly if it leaves the machine halted; a run that
/// ends in a fault, or with its budget spent, leaves the machine running.
pub proof fn law_run_end_tells_halted(s: State, input: Seq<u8>, budget: nat)
    ensures
        s.run(input, budget).end == Ok::<Status, Fault>(Status::Halted) <==> s.run(
            input,
            budget,
        ).state.halted,
    decreases budget,
{
    if !s.halted && budget > 0 {
        match s.step(offered(input)) {
            Ok(step) => {
                law_run_end_tells_halted(
                    step.state,
                    input.skip(step.effect.consumed() as int),
                    (budget - 1) as nat,
                );
            },
            Err(_) => {},
        }
    }
}

/// A run reads no more bytes than the input holds.
pub proof fn law_run_reads_within_input(s: State, input: Seq<u8>, budget: nat)
    ensures
        s.run(input, budget).consumed <= input.len(),
    decreases budget,
{
    reveal(State::step);
    if !s.halted && budget > 0 {
        match s.step(offered(input)) {
            Ok(step) => {
                law_run_reads_within_input(
                    step.state,
                    input.skip(step.effect.consumed() as int),
                    (budget - 1) as nat,
                );
            },
            Err(_) => {},
        }
    }
}

/// The budget only cuts a run short. A run that was left running goes on,
/// with the input that is left, as if it had never stopped; a run that
/// halted or failed is the same under any larger budget.
pub proof fn law_run_resumes(s: State, input: Seq<u8>, first: nat, second: nat)
    ensures
        ({
            let begun = s.run(input, first);
            s.run(input, first + second) == (if begun.end == Ok::<Status, Fault>(Status::Running) {
                begun.state.run(input.skip(begun.consumed as int), second).preceded_by(
                    begun.output,
                    begun.consumed,
                )
            } else {
                begun
            })
        }),
    decreases first,
{
    if s.halted {
    } else if first == 0 {
        assert(input.skip(0) =~= input);
    } else {
        match s.step(offered(input)) {
            Err(_) => {},
            Ok(step) => {
                let consumed = step.effect.consumed();
                let rest = input.skip(consumed as int);
                let inner = step.state.run(rest, (first - 1) as nat);
                law_run_resumes(step.state, rest, (first - 1) as nat, second);
                law_run_reads_within_input(step.state, rest, (first - 1) as nat);
                law_run_reads_within_input(s, input, first);
                assert(rest.skip(inner.consumed as int) =~= input.skip(
                    (consumed + inner.consumed) as int,
                ));
            },
        }
    }
}

/// A halted machine does not run: whatever the input and the budget, a run
/// stops at once, halted, with nothing read or written.
pub proof fn law_halted_is_terminal(s: State, input: Seq<u8>, budget: nat)
    requires
        s.halted,
    ensures
        s.run(input, budget) == Trace::stopped(s, Ok(Status::Halted)),
{
}

} // verus!
