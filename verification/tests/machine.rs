use word_vm::fault::{Cause, Effect, Fault};
use word_vm::machine::VM;
use word_vm::operation::Operation;

const R0: u16 = 32768;
const R1: u16 = 32769;
const R2: u16 = 32770;
const R7: u16 = 32775;

fn quiet(vm: &mut VM, operation: Operation) {
    assert_eq!(vm.execute_operation(operation, None), Ok(Effect::Quiet));
}

fn fails(vm: &mut VM, operation: Operation, ip: u16, cause: Cause) {
    let opcode = Some(operation.opcode());
    assert_eq!(vm.execute_operation(operation, None), Err(Fault { ip, opcode, cause }));
}

fn registers(vm: &VM) -> Vec<u16> {
    (0..8).map(|index| vm.register(index).unwrap()).collect()
}

#[test]
fn a_fresh_machine_is_empty() {
    let vm = VM::new();
    assert_eq!(vm.instruction_ptr(), 0);
    assert!(!vm.is_halted());
    assert!(vm.stack().is_empty());
    assert_eq!(registers(&vm), vec![0; 8]);
    assert_eq!(vm.register(8), None);
    assert_eq!(vm.memory(0), None);
    assert_eq!(vm.memory(32767), None);
}

#[test]
fn the_default_machine_is_fresh() {
    let vm = VM::default();
    assert_eq!(vm.instruction_ptr(), 0);
    assert!(!vm.is_halted());
    assert!(vm.stack().is_empty());
    assert_eq!(registers(&vm), vec![0; 8]);
    assert_eq!(vm.memory(0), None);
}

#[test]
fn register_idx_maps_the_eight_reserved_words() {
    assert_eq!(VM::register_idx(32767), None);
    assert_eq!(VM::register_idx(32768), Some(0));
    assert_eq!(VM::register_idx(32771), Some(3));
    assert_eq!(VM::register_idx(32775), Some(7));
    assert_eq!(VM::register_idx(32776), None);
    assert_eq!(VM::register_idx(0), None);
    assert_eq!(VM::register_idx(65535), None);
}

#[test]
fn get_value_reads_literals_and_registers() {
    let mut vm = VM::new();
    assert_eq!(vm.set_register(R1, 1234), Ok(()));
    assert_eq!(vm.get_value(0), Ok(0));
    assert_eq!(vm.get_value(32767), Ok(32767));
    assert_eq!(vm.get_value(R0), Ok(0));
    assert_eq!(vm.get_value(R1), Ok(1234));
}

#[test]
fn get_value_refuses_words_from_32776() {
    let vm = VM::new();
    assert_eq!(vm.get_value(32776), Err(Cause::InvalidOperand { operand: 32776 }));
    assert_eq!(vm.get_value(65535), Err(Cause::InvalidOperand { operand: 65535 }));
}

#[test]
fn set_register_writes_one_register() {
    let mut vm = VM::new();
    assert_eq!(vm.set_register(R2, 77), Ok(()));
    assert_eq!(registers(&vm), vec![0, 0, 77, 0, 0, 0, 0, 0]);
    assert_eq!(vm.set_register(R7, 32767), Ok(()));
    assert_eq!(registers(&vm), vec![0, 0, 77, 0, 0, 0, 0, 32767]);
    assert_eq!(vm.instruction_ptr(), 0);
}

#[test]
fn set_register_refuses_what_is_no_register() {
    let mut vm = VM::new();
    assert_eq!(vm.set_register(5, 1), Err(Cause::InvalidDestination { operand: 5 }));
    assert_eq!(vm.set_register(32776, 1), Err(Cause::InvalidDestination { operand: 32776 }));
    assert_eq!(registers(&vm), vec![0; 8]);
}

#[test]
fn set_register_refuses_a_value_above_32767() {
    let mut vm = VM::new();
    assert_eq!(vm.set_register(R0, 32768), Err(Cause::ValueOutOfRange { value: 32768 }));
    assert_eq!(vm.set_register(5, 32768), Err(Cause::InvalidDestination { operand: 5 }));
    assert_eq!(registers(&vm), vec![0; 8]);
}

#[test]
fn set_then_read_yields_the_value() {
    for register in R0..=R7 {
        for value in [0u16, 1, 255, 256, 12345, 32766, 32767] {
            let mut vm = VM::new();
            quiet(&mut vm, Operation::SetReg(register, value));
            assert_eq!(vm.get_value(register), Ok(value));
            assert_eq!(vm.instruction_ptr(), 3);
        }
    }
}

#[test]
fn set_copies_a_register() {
    let mut vm = VM::new();
    quiet(&mut vm, Operation::SetReg(R0, 42));
    quiet(&mut vm, Operation::SetReg(R1, R0));
    assert_eq!(registers(&vm), vec![42, 42, 0, 0, 0, 0, 0, 0]);
    assert_eq!(vm.instruction_ptr(), 6);
}

#[test]
fn halt_sets_the_flag_and_stays() {
    let mut vm = VM::new();
    quiet(&mut vm, Operation::Halt);
    assert!(vm.is_halted());
    assert_eq!(vm.instruction_ptr(), 0);
}

#[test]
fn noop_moves_one_word() {
    let mut vm = VM::new();
    quiet(&mut vm, Operation::Noop);
    assert_eq!(vm.instruction_ptr(), 1);
    assert!(!vm.is_halted());
    assert_eq!(registers(&vm), vec![0; 8]);
}

#[test]
fn add_wraps_at_the_boundary() {
    let mut vm = VM::new();
    quiet(&mut vm, Operation::Add(R0, 32767, 1));
    assert_eq!(vm.register(0), Some(0));
    quiet(&mut vm, Operation::Add(R1, 4, 5));
    assert_eq!(vm.register(1), Some(9));
    assert_eq!(vm.instruction_ptr(), 8);
}

#[test]
fn add_reads_registers() {
    let mut vm = VM::new();
    quiet(&mut vm, Operation::SetReg(R0, 32760));
    quiet(&mut vm, Operation::SetReg(R1, 10));
    quiet(&mut vm, Operation::Add(R2, R0, R1));
    assert_eq!(vm.register(2), Some(2));
}

#[test]
fn mult_wraps_at_the_boundary() {
    let mut vm = VM::new();
    quiet(&mut vm, Operation::Mult(R0, 200, 200));
    assert_eq!(vm.register(0), Some(7232));
    quiet(&mut vm, Operation::Mult(R1, 32767, 32767));
    assert_eq!(vm.register(1), Some(1));
    assert_eq!(vm.instruction_ptr(), 8);
}

#[test]
fn add_and_mult_do_not_mind_the_order_of_operands() {
    for (a, b) in [(0u16, 0u16), (1, 32767), (200, 200), (12345, 23456), (R1, 7), (R1, R2)] {
        let mut left = VM::new();
        let mut right = VM::new();
        for vm in [&mut left, &mut right] {
            assert_eq!(vm.set_register(R1, 31000), Ok(()));
            assert_eq!(vm.set_register(R2, 9), Ok(()));
        }
        quiet(&mut left, Operation::Add(R0, a, b));
        quiet(&mut right, Operation::Add(R0, b, a));
        assert_eq!(left.register(0), right.register(0));
        assert!(left.register(0).unwrap() <= 32767);
        quiet(&mut left, Operation::Mult(R0, a, b));
        quiet(&mut right, Operation::Mult(R0, b, a));
        assert_eq!(left.register(0), right.register(0));
        assert!(left.register(0).unwrap() <= 32767);
    }
}

#[test]
fn mod_gives_the_remainder() {
    let mut vm = VM::new();
    quiet(&mut vm, Operation::Mod(R0, 17, 5));
    assert_eq!(vm.register(0), Some(2));
    quiet(&mut vm, Operation::Mod(R1, 5, 17));
    assert_eq!(vm.register(1), Some(5));
    quiet(&mut vm, Operation::Mod(R2, 32767, 1));
    assert_eq!(vm.register(2), Some(0));
    assert_eq!(vm.instruction_ptr(), 12);
}

#[test]
fn mod_by_zero_aborts() {
    let mut vm = VM::new();
    quiet(&mut vm, Operation::Noop);
    fails(&mut vm, Operation::Mod(R0, 17, 0), 1, Cause::DivisionByZero);
    fails(&mut vm, Operation::Mod(R0, 17, R1), 1, Cause::DivisionByZero);
    assert_eq!(vm.instruction_ptr(), 1);
    assert_eq!(registers(&vm), vec![0; 8]);
}

#[test]
fn eq_and_gt_yield_one_or_zero() {
    let mut vm = VM::new();
    quiet(&mut vm, Operation::Eq(R0, 5, 5));
    assert_eq!(vm.register(0), Some(1));
    quiet(&mut vm, Operation::Eq(R0, 5, 6));
    assert_eq!(vm.register(0), Some(0));
    quiet(&mut vm, Operation::Gt(R1, 6, 5));
    assert_eq!(vm.register(1), Some(1));
    quiet(&mut vm, Operation::Gt(R1, 5, 5));
    assert_eq!(vm.register(1), Some(0));
    quiet(&mut vm, Operation::Gt(R1, 4, 5));
    assert_eq!(vm.register(1), Some(0));
    assert_eq!(vm.instruction_ptr(), 20);
}

#[test]
fn eq_and_gt_never_yield_anything_else() {
    let samples = [0u16, 1, 2, 32766, 32767, R2];
    for a in samples {
        for b in samples {
            let mut vm = VM::new();
            assert_eq!(vm.set_register(R2, 2), Ok(()));
            quiet(&mut vm, Operation::Eq(R0, a, b));
            quiet(&mut vm, Operation::Gt(R1, a, b));
            assert!(vm.register(0) == Some(0) || vm.register(0) == Some(1));
            assert!(vm.register(1) == Some(0) || vm.register(1) == Some(1));
        }
    }
}

#[test]
fn and_or_work_bit_by_bit() {
    let mut vm = VM::new();
    quiet(&mut vm, Operation::And(R0, 0b1100, 0b1010));
    assert_eq!(vm.register(0), Some(0b1000));
    quiet(&mut vm, Operation::Or(R1, 0b1100, 0b1010));
    assert_eq!(vm.register(1), Some(0b1110));
    quiet(&mut vm, Operation::Or(R2, 32767, 0));
    assert_eq!(vm.register(2), Some(32767));
    assert_eq!(vm.instruction_ptr(), 12);
}

#[test]
fn not_twice_restores_the_value() {
    let mut vm = VM::new();
    quiet(&mut vm, Operation::Not(R0, 0));
    assert_eq!(vm.register(0), Some(32767));
    quiet(&mut vm, Operation::Not(R0, R0));
    assert_eq!(vm.register(0), Some(0));
    assert_eq!(vm.instruction_ptr(), 6);
    for a in [1u16, 2, 12345, 32766, 32767] {
        let mut vm = VM::new();
        quiet(&mut vm, Operation::Not(R0, a));
        quiet(&mut vm, Operation::Not(R0, R0));
        assert_eq!(vm.register(0), Some(a));
    }
}

#[test]
fn push_then_pop_moves_the_value_and_restores_the_stack() {
    for value in [0u16, 1, 32767] {
        let mut vm = VM::new();
        quiet(&mut vm, Operation::Push(9));
        let before = vm.stack().clone();
        quiet(&mut vm, Operation::Push(value));
        assert_eq!(vm.stack().len(), before.len() + 1);
        assert_eq!(vm.stack().last(), Some(&value));
        quiet(&mut vm, Operation::Pop(R1));
        assert_eq!(vm.register(1), Some(value));
        assert_eq!(vm.stack(), &before);
        assert_eq!(vm.instruction_ptr(), 6);
    }
}

#[test]
fn push_reads_a_register() {
    let mut vm = VM::new();
    quiet(&mut vm, Operation::SetReg(R0, 321));
    quiet(&mut vm, Operation::Push(R0));
    assert_eq!(vm.stack(), &vec![321]);
}

#[test]
fn pop_on_an_empty_stack_aborts() {
    let mut vm = VM::new();
    fails(&mut vm, Operation::Pop(R0), 0, Cause::StackUnderflow);
    assert!(!vm.is_halted());
    assert_eq!(vm.instruction_ptr(), 0);
}

#[test]
fn ret_on_an_empty_stack_halts() {
    let mut vm = VM::new();
    quiet(&mut vm, Operation::Ret);
    assert!(vm.is_halted());
    assert_eq!(vm.instruction_ptr(), 0);
    assert!(vm.stack().is_empty());
}

#[test]
fn pop_reports_the_empty_stack_before_the_destination() {
    let mut vm = VM::new();
    fails(&mut vm, Operation::Pop(5), 0, Cause::StackUnderflow);
}

#[test]
fn pop_into_what_is_no_register_keeps_the_stack() {
    let mut vm = VM::new();
    quiet(&mut vm, Operation::Push(7));
    fails(&mut vm, Operation::Pop(5), 2, Cause::InvalidDestination { operand: 5 });
    assert_eq!(vm.stack(), &vec![7]);
    assert_eq!(vm.instruction_ptr(), 2);
}

#[test]
fn jmp_sets_the_instruction_pointer() {
    let mut vm = VM::new();
    quiet(&mut vm, Operation::Jmp(1000));
    assert_eq!(vm.instruction_ptr(), 1000);
    quiet(&mut vm, Operation::SetReg(R0, 20));
    quiet(&mut vm, Operation::Jmp(R0));
    assert_eq!(vm.instruction_ptr(), 20);
}

#[test]
fn jt_jumps_on_a_value_that_is_not_zero() {
    let mut vm = VM::new();
    quiet(&mut vm, Operation::Jt(1, 100));
    assert_eq!(vm.instruction_ptr(), 100);
    quiet(&mut vm, Operation::Jt(0, 200));
    assert_eq!(vm.instruction_ptr(), 103);
    quiet(&mut vm, Operation::Jt(R0, 200));
    assert_eq!(vm.instruction_ptr(), 106);
}

#[test]
fn jf_jumps_on_zero() {
    let mut vm = VM::new();
    quiet(&mut vm, Operation::Jf(0, 100));
    assert_eq!(vm.instruction_ptr(), 100);
    quiet(&mut vm, Operation::Jf(1, 200));
    assert_eq!(vm.instruction_ptr(), 103);
    quiet(&mut vm, Operation::Jf(R0, 200));
    assert_eq!(vm.instruction_ptr(), 200);
}

#[test]
fn a_jump_that_is_not_taken_does_not_read_its_target() {
    let mut vm = VM::new();
    quiet(&mut vm, Operation::Jt(0, 40000));
    assert_eq!(vm.instruction_ptr(), 3);
    quiet(&mut vm, Operation::Jf(1, 40000));
    assert_eq!(vm.instruction_ptr(), 6);
    fails(&mut vm, Operation::Jt(1, 40000), 6, Cause::InvalidOperand { operand: 40000 });
    fails(&mut vm, Operation::Jf(0, 40000), 6, Cause::InvalidOperand { operand: 40000 });
}

#[test]
fn call_then_ret_comes_back_behind_the_call() {
    let mut vm = VM::new();
    quiet(&mut vm, Operation::Jmp(10));
    quiet(&mut vm, Operation::Call(500));
    assert_eq!(vm.instruction_ptr(), 500);
    assert_eq!(vm.stack(), &vec![12]);
    quiet(&mut vm, Operation::Push(1));
    quiet(&mut vm, Operation::Pop(R0));
    quiet(&mut vm, Operation::Noop);
    quiet(&mut vm, Operation::Ret);
    assert_eq!(vm.instruction_ptr(), 12);
    assert!(vm.stack().is_empty());
    assert!(!vm.is_halted());
}

#[test]
fn call_reads_its_target_from_a_register() {
    let mut vm = VM::new();
    quiet(&mut vm, Operation::SetReg(R0, 77));
    quiet(&mut vm, Operation::Call(R0));
    assert_eq!(vm.instruction_ptr(), 77);
    assert_eq!(vm.stack(), &vec![5]);
}

#[test]
fn wmem_then_rmem_yields_the_value() {
    let mut vm = VM::new();
    quiet(&mut vm, Operation::Wmem(100, 4242));
    assert_eq!(vm.memory(100), Some(4242));
    quiet(&mut vm, Operation::Rmem(R0, 100));
    assert_eq!(vm.register(0), Some(4242));
    assert_eq!(vm.instruction_ptr(), 6);
}

#[test]
fn wmem_resolves_its_address_as_a_value() {
    let mut vm = VM::new();
    quiet(&mut vm, Operation::SetReg(R1, 2000));
    quiet(&mut vm, Operation::SetReg(R2, 99));
    quiet(&mut vm, Operation::Wmem(R1, R2));
    assert_eq!(vm.memory(2000), Some(99));
    assert_eq!(vm.memory(R1), None);
    quiet(&mut vm, Operation::Rmem(R0, R1));
    assert_eq!(vm.register(0), Some(99));
    assert_eq!(registers(&vm), vec![99, 2000, 99, 0, 0, 0, 0, 0]);
}

#[test]
fn rmem_of_an_address_that_holds_nothing_aborts() {
    let mut vm = VM::new();
    fails(&mut vm, Operation::Rmem(R0, 100), 0, Cause::UnmappedAddress { address: 100 });
    assert_eq!(registers(&vm), vec![0; 8]);
    assert_eq!(vm.instruction_ptr(), 0);
}

#[test]
fn rmem_of_a_word_that_fits_no_register_aborts() {
    let mut vm = VM::new();
    assert_eq!(vm.read_binary(&[0x00, 0x80]), Ok(()));
    assert_eq!(vm.memory(0), Some(32768));
    fails(&mut vm, Operation::Rmem(R0, 0), 0, Cause::ValueOutOfRange { value: 32768 });
    assert_eq!(registers(&vm), vec![0; 8]);
}

#[test]
fn out_emits_the_low_byte() {
    let mut vm = VM::new();
    assert_eq!(vm.execute_operation(Operation::Out(72), None), Ok(Effect::Emitted(72)));
    assert_eq!(vm.execute_operation(Operation::Out(321), None), Ok(Effect::Emitted(65)));
    assert_eq!(vm.execute_operation(Operation::Out(R0), Some(9)), Ok(Effect::Emitted(0)));
    assert_eq!(vm.instruction_ptr(), 6);
}

#[test]
fn in_takes_the_byte_it_is_offered() {
    let mut vm = VM::new();
    assert_eq!(vm.execute_operation(Operation::In(R1), Some(65)), Ok(Effect::Consumed));
    assert_eq!(vm.register(1), Some(65));
    assert_eq!(vm.execute_operation(Operation::In(R2), Some(255)), Ok(Effect::Consumed));
    assert_eq!(vm.register(2), Some(255));
    assert_eq!(vm.instruction_ptr(), 4);
}

#[test]
fn in_without_a_byte_aborts() {
    let mut vm = VM::new();
    fails(&mut vm, Operation::In(R0), 0, Cause::InputExhausted);
    assert_eq!(vm.instruction_ptr(), 0);
}

#[test]
fn only_in_takes_the_byte() {
    let mut vm = VM::new();
    assert_eq!(vm.execute_operation(Operation::Noop, Some(1)), Ok(Effect::Quiet));
    assert_eq!(vm.execute_operation(Operation::Push(3), Some(1)), Ok(Effect::Quiet));
    assert_eq!(vm.execute_operation(Operation::Out(66), Some(1)), Ok(Effect::Emitted(66)));
}

#[test]
fn an_invalid_operand_aborts_every_reading_operation() {
    let bad: u16 = 32776;
    let cause = Cause::InvalidOperand { operand: bad };
    let mut vm = VM::new();
    for operation in [
        Operation::SetReg(R0, bad),
        Operation::Push(bad),
        Operation::Eq(R0, bad, 1),
        Operation::Eq(R0, 1, bad),
        Operation::Gt(R0, bad, 1),
        Operation::Jmp(bad),
        Operation::Jt(bad, 1),
        Operation::Jf(bad, 1),
        Operation::Add(R0, 1, bad),
        Operation::Mult(R0, bad, 1),
        Operation::Mod(R0, 1, bad),
        Operation::And(R0, bad, 1),
        Operation::Or(R0, 1, bad),
        Operation::Not(R0, bad),
        Operation::Rmem(R0, bad),
        Operation::Wmem(bad, 1),
        Operation::Wmem(1, bad),
        Operation::Call(bad),
        Operation::Out(bad),
    ] {
        fails(&mut vm, operation, 0, cause);
    }
    assert_eq!(registers(&vm), vec![0; 8]);
    assert!(vm.stack().is_empty());
    assert_eq!(vm.memory(1), None);
}

#[test]
fn the_left_operand_is_read_first() {
    let mut vm = VM::new();
    fails(&mut vm, Operation::Add(R0, 40000, 50000), 0, Cause::InvalidOperand { operand: 40000 });
    fails(&mut vm, Operation::Wmem(50000, 40000), 0, Cause::InvalidOperand { operand: 50000 });
}

#[test]
fn operands_are_read_before_the_destination_is_tested() {
    let mut vm = VM::new();
    fails(&mut vm, Operation::Add(5, 40000, 1), 0, Cause::InvalidOperand { operand: 40000 });
    fails(&mut vm, Operation::Mod(5, 1, 0), 0, Cause::DivisionByZero);
    fails(&mut vm, Operation::In(5), 0, Cause::InputExhausted);
}

#[test]
fn a_destination_that_is_no_register_aborts_every_writing_operation() {
    let mut vm = VM::new();
    quiet(&mut vm, Operation::Push(1));
    quiet(&mut vm, Operation::Wmem(0, 1));
    for destination in [0u16, 7, 32767, 32776, 65535] {
        let cause = Cause::InvalidDestination { operand: destination };
        for operation in [
            Operation::SetReg(destination, 1),
            Operation::Pop(destination),
            Operation::Eq(destination, 1, 1),
            Operation::Gt(destination, 1, 1),
            Operation::Add(destination, 1, 1),
            Operation::Mult(destination, 1, 1),
            Operation::Mod(destination, 1, 1),
            Operation::And(destination, 1, 1),
            Operation::Or(destination, 1, 1),
            Operation::Not(destination, 1),
            Operation::Rmem(destination, 0),
        ] {
            fails(&mut vm, operation, 5, cause);
        }
        assert_eq!(
            vm.execute_operation(Operation::In(destination), Some(1)),
            Err(Fault { ip: 5, opcode: Some(20), cause })
        );
    }
    assert_eq!(vm.stack(), &vec![1]);
    assert_eq!(registers(&vm), vec![0; 8]);
}

#[test]
fn nothing_executes_outside_memory() {
    let mut vm = VM::new();
    quiet(&mut vm, Operation::Jmp(32767));
    quiet(&mut vm, Operation::Noop);
    assert_eq!(vm.instruction_ptr(), 32768);
    fails(&mut vm, Operation::Noop, 32768, Cause::UnmappedAddress { address: 32768 });
    fails(&mut vm, Operation::Halt, 32768, Cause::UnmappedAddress { address: 32768 });
    assert!(!vm.is_halted());
    assert_eq!(
        vm.parse_next_operation(),
        Err(Fault { ip: 32768, opcode: None, cause: Cause::UnmappedAddress { address: 32768 } })
    );
}

#[test]
fn a_return_address_outside_the_values_fits_no_register() {
    let mut vm = VM::new();
    quiet(&mut vm, Operation::Jmp(32766));
    quiet(&mut vm, Operation::Call(0));
    assert_eq!(vm.stack(), &vec![32768]);
    fails(&mut vm, Operation::Pop(R0), 0, Cause::ValueOutOfRange { value: 32768 });
    assert_eq!(vm.stack(), &vec![32768]);
    quiet(&mut vm, Operation::Ret);
    assert_eq!(vm.instruction_ptr(), 32768);
}

#[test]
fn parse_reads_the_opcode_and_its_operands() {
    let mut vm = VM::new();
    let image = [9u8, 0, 0x00, 0x80, 0x01, 0x80, 4, 0, 21, 0, 19, 0, 65, 0, 0, 0];
    assert_eq!(vm.read_binary(&image), Ok(()));
    assert_eq!(vm.parse_next_operation(), Ok(Operation::Add(32768, 32769, 4)));
    assert_eq!(vm.parse_next_operation(), Ok(Operation::Add(32768, 32769, 4)));
    assert_eq!(vm.instruction_ptr(), 0);
    quiet(&mut vm, Operation::Jmp(4));
    assert_eq!(vm.parse_next_operation(), Ok(Operation::Noop));
    quiet(&mut vm, Operation::Jmp(5));
    assert_eq!(vm.parse_next_operation(), Ok(Operation::Out(65)));
    quiet(&mut vm, Operation::Jmp(7));
    assert_eq!(vm.parse_next_operation(), Ok(Operation::Halt));
}

#[test]
fn parse_refuses_a_word_that_is_no_opcode() {
    let mut vm = VM::new();
    assert_eq!(vm.read_binary(&[255, 0, 22, 0]), Ok(()));
    assert_eq!(
        vm.parse_next_operation(),
        Err(Fault { ip: 0, opcode: Some(255), cause: Cause::InvalidOpcode { opcode: 255 } })
    );
    quiet(&mut vm, Operation::Jmp(1));
    assert_eq!(
        vm.parse_next_operation(),
        Err(Fault { ip: 1, opcode: Some(22), cause: Cause::InvalidOpcode { opcode: 22 } })
    );
}

#[test]
fn parse_reports_the_first_address_that_holds_nothing() {
    let mut vm = VM::new();
    assert_eq!(
        vm.parse_next_operation(),
        Err(Fault { ip: 0, opcode: None, cause: Cause::UnmappedAddress { address: 0 } })
    );
    assert_eq!(vm.read_binary(&[9, 0, 0x00, 0x80]), Ok(()));
    assert_eq!(
        vm.parse_next_operation(),
        Err(Fault { ip: 0, opcode: Some(9), cause: Cause::UnmappedAddress { address: 2 } })
    );
}

#[test]
fn execute_next_decodes_and_executes() {
    let mut vm = VM::new();
    let image = [1u8, 0, 0x00, 0x80, 7, 0, 19, 0, 0x00, 0x80, 0, 0];
    assert_eq!(vm.read_binary(&image), Ok(()));
    assert_eq!(vm.execute_next_operation(None), Ok(Effect::Quiet));
    assert_eq!(vm.register(0), Some(7));
    assert_eq!(vm.instruction_ptr(), 3);
    assert_eq!(vm.execute_next_operation(None), Ok(Effect::Emitted(7)));
    assert_eq!(vm.instruction_ptr(), 5);
    assert_eq!(vm.execute_next_operation(None), Ok(Effect::Quiet));
    assert!(vm.is_halted());
}

#[test]
fn a_failed_instruction_changes_nothing() {
    let mut vm = VM::new();
    assert_eq!(vm.read_binary(&[11, 0, 0x00, 0x80, 5, 0, 0, 0]), Ok(()));
    quiet(&mut vm, Operation::Push(3));
    quiet(&mut vm, Operation::Jmp(0));
    assert_eq!(
        vm.execute_next_operation(None),
        Err(Fault { ip: 0, opcode: Some(11), cause: Cause::DivisionByZero })
    );
    assert_eq!(vm.instruction_ptr(), 0);
    assert_eq!(vm.stack(), &vec![3]);
    assert_eq!(registers(&vm), vec![0; 8]);
    assert!(!vm.is_halted());
    assert_eq!(vm.parse_next_operation(), Ok(Operation::Mod(32768, 5, 0)));
}

#[test]
fn registers_always_hold_fifteen_bits() {
    let mut seed: u32 = 12345;
    let mut next = move || {
        seed = seed.wrapping_mul(1103515245).wrapping_add(12345);
        let word = (seed >> 8) as u16;
        match word % 4 {
            0 => 32768 + word % 8,
            1 => word % 32768,
            2 => word % 8,
            _ => word,
        }
    };
    let mut vm = VM::new();
    let mut failures = 0;
    for _ in 0..20000 {
        if vm.instruction_ptr() > 32767 || vm.is_halted() {
            vm = VM::new();
        }
        let opcode = next() % 22;
        let operation = Operation::new(opcode, vec![next(), next(), next()]).unwrap();
        let before = (vm.instruction_ptr(), registers(&vm), vm.stack().clone());
        if let Err(fault) = vm.execute_operation(operation, Some(next() as u8)) {
            failures += 1;
            assert_eq!(fault.ip, before.0);
            assert_eq!(fault.opcode, Some(opcode));
            assert_eq!((vm.instruction_ptr(), registers(&vm), vm.stack().clone()), before);
        }
        assert!(registers(&vm).iter().all(|value| *value <= 32767));
        assert_eq!(vm.memory(32768 + next() % 32768), None);
    }
    assert!(failures > 1000 && failures < 19000);
}
