use bffcore::isa::Instruction;
use bffcore::vm::HostCall;
use bffcore::vm::HostReply;
use bffcore::vm::RunStatus;
use bffcore::vm::Trap;
use bffcore::vm::VirtualMachine;

const FUEL: u64 = 100_000;

#[test]
fn pc_moves_one_ahead_after_plain_instruction() {
    let mut vm = VirtualMachine::new();
    vm.load_program(vec![Instruction::MoveImmediate(1, 7)]);
    assert_eq!(vm.program_counter, 0);
    vm.execute_single_instruction().unwrap(); // the guard Nop at index 0
    assert_eq!(vm.program_counter, 1);
    vm.execute_single_instruction().unwrap();
    assert_eq!(vm.program_counter, 2);
    assert_eq!(vm.registers[1], 7);
}

#[test]
fn jump_lands_exactly_on_its_target_index() {
    let mut vm = VirtualMachine::new();
    vm.load_program(vec![
        Instruction::JumpImmediate(3),
        Instruction::MoveImmediate(1, 5),
        Instruction::MoveImmediate(2, 7),
    ]);
    let status = vm.execute_instruction_list(FUEL);
    assert_eq!(status, RunStatus::Halted);
    // Index 3 is the second MoveImmediate; the first is skipped.
    assert_eq!(vm.registers[1], 0);
    assert_eq!(vm.registers[2], 7);
}

#[test]
fn jump_not_zero_branches_only_on_nonzero() {
    let mut vm = VirtualMachine::new();
    vm.load_program(vec![
        Instruction::MoveImmediate(1, 1),
        Instruction::JumpNotZeroImmediate(1, 4),
        Instruction::MoveImmediate(2, 5),
        Instruction::JumpNotZeroImmediate(3, 2), // register 3 is zero: fall through
    ]);
    let status = vm.execute_instruction_list(FUEL);
    assert_eq!(status, RunStatus::Halted);
    assert_eq!(vm.registers[2], 0);
}

#[test]
fn call_returns_to_instruction_after_the_call() {
    let mut vm = VirtualMachine::new();
    vm.load_program(vec![
        Instruction::Call(4),             // 1
        Instruction::MoveImmediate(1, 42), // 2: runs after the Return
        Instruction::JumpImmediate(6),     // 3: jump past the end: halt
        Instruction::MoveImmediate(2, 99), // 4: the subroutine
        Instruction::Return,               // 5
    ]);
    let status = vm.execute_instruction_list(FUEL);
    assert_eq!(status, RunStatus::Halted);
    assert_eq!(vm.registers[1], 42);
    assert_eq!(vm.registers[2], 99);
    assert!(vm.call_stack.is_empty());
}

#[test]
fn stack_is_last_in_first_out() {
    let mut vm = VirtualMachine::new();
    vm.load_program(vec![
        Instruction::PushImmediate(11),
        Instruction::PushImmediate(22),
        Instruction::Pop(2),
        Instruction::Pop(1),
    ]);
    let status = vm.execute_instruction_list(FUEL);
    assert_eq!(status, RunStatus::Halted);
    assert_eq!(vm.registers[1], 11);
    assert_eq!(vm.registers[2], 22);
    assert_eq!(vm.registers[0], 0);
}

#[test]
fn family_purity_of_wrapping_arithmetic() {
    // 0xFFFFFFFF is -1 signed; adding 2 wraps to 1 under both readings.
    let mut vm = VirtualMachine::new();
    vm.load_program(vec![
        Instruction::MoveImmediate(1, 0xFFFFFFFF),
        Instruction::AddImmediate(2, 1, 2),
        Instruction::SignedAddImmediate(3, 1, 2),
        Instruction::MulImmediate(4, 1, 3),
        Instruction::SignedMulImmediate(5, 1, 3),
    ]);
    let status = vm.execute_instruction_list(FUEL);
    assert_eq!(status, RunStatus::Halted);
    assert_eq!(vm.registers[2], 1);
    assert_eq!(vm.registers[3], 1);
    assert_eq!(vm.registers[4], vm.registers[5]);
    assert_eq!(vm.registers[4], 0xFFFFFFFD); // -1 * 3 == -3
}

#[test]
fn signed_negate_gives_twos_complement() {
    let mut vm = VirtualMachine::new();
    vm.load_program(vec![
        Instruction::MoveImmediate(1, 5),
        Instruction::SignedNegate(2, 1),
    ]);
    let status = vm.execute_instruction_list(FUEL);
    assert_eq!(status, RunStatus::Halted);
    assert_eq!(vm.registers[2], 0xFFFFFFFB);
    assert_eq!(vm.registers[2] as i32, -5);
}

#[test]
fn signed_division_truncates_toward_zero() {
    let mut vm = VirtualMachine::new();
    vm.load_program(vec![
        Instruction::MoveImmediate(1, (-7i32) as u32),
        Instruction::MoveImmediate(2, 2),
        Instruction::SignedDivMod(3, 4, 1, 2),
    ]);
    let status = vm.execute_instruction_list(FUEL);
    assert_eq!(status, RunStatus::Halted);
    assert_eq!(vm.registers[3] as i32, -3);
    assert_eq!(vm.registers[4] as i32, -1);
}

#[test]
fn signed_comparison_orders_negatives_below() {
    let mut vm = VirtualMachine::new();
    vm.load_program(vec![
        Instruction::MoveImmediate(1, (-2i32) as u32),
        Instruction::MoveImmediate(2, 3),
        Instruction::SignedLessThan(3, 1, 2),
        Instruction::LessThan(4, 1, 2), // unsigned: 0xFFFFFFFE is large
    ]);
    let status = vm.execute_instruction_list(FUEL);
    assert_eq!(status, RunStatus::Halted);
    assert_eq!(vm.registers[3], 1);
    assert_eq!(vm.registers[4], 0);
}

#[test]
fn float_add_computes_through_the_host() {
    let mut vm = VirtualMachine::new();
    vm.load_program(vec![
        Instruction::MoveImmediate(1, 1.5f32.to_bits()),
        Instruction::MoveImmediate(2, 2.25f32.to_bits()),
        Instruction::FloatAdd(3, 1, 2),
    ]);
    let mut status = vm.execute_instruction_list(FUEL);
    while status == RunStatus::AwaitingHost {
        let reply = match &vm.pending {
            Some(HostCall::FloatBinary { lhs_bits, rhs_bits, .. }) => {
                let a = f32::from_bits(*lhs_bits);
                let b = f32::from_bits(*rhs_bits);
                HostReply::FloatBits((a + b).to_bits())
            }
            other => panic!("unexpected host call: {:?}", other),
        };
        vm.resume(reply).unwrap();
        status = vm.execute_instruction_list(FUEL);
    }
    assert_eq!(status, RunStatus::Halted);
    assert_eq!(f32::from_bits(vm.registers[3]), 3.75);
}

#[test]
fn float_comparison_runs_without_the_host() {
    let mut vm = VirtualMachine::new();
    let nan = f32::NAN.to_bits();
    vm.load_program(vec![
        Instruction::MoveImmediate(1, 1.5f32.to_bits()),
        Instruction::MoveImmediate(2, 2.25f32.to_bits()),
        Instruction::MoveImmediate(3, nan),
        Instruction::FloatLessThan(4, 1, 2),
        Instruction::FloatGreaterThan(5, 1, 2),
        Instruction::FloatLessThanOrEqual(6, 3, 3), // NaN: every ordering is false
        Instruction::FloatNegate(7, 1),
    ]);
    let status = vm.execute_instruction_list(FUEL);
    assert_eq!(status, RunStatus::Halted);
    assert_eq!(vm.registers[4], 1);
    assert_eq!(vm.registers[5], 0);
    assert_eq!(vm.registers[6], 0);
    assert_eq!(f32::from_bits(vm.registers[7]), -1.5);
}

#[test]
fn write_syscall_hands_the_bytes_to_the_host() {
    let mut vm = VirtualMachine::new();
    // "Hi" little-endian as a two-byte store: 'H' = 0x48 low, 'i' = 0x69 high.
    vm.load_program(vec![
        Instruction::MoveImmediate(1, 0x6948),
        Instruction::Store(0, 1, 2),
        Instruction::PushImmediate(2), // length
        Instruction::PushImmediate(0), // address
        Instruction::PushImmediate(0), // file descriptor: stdout
        Instruction::PushImmediate(1), // syscall number: write
        Instruction::SystemCall,
    ]);
    let status = vm.execute_instruction_list(FUEL);
    assert_eq!(status, RunStatus::AwaitingHost);
    match &vm.pending {
        Some(HostCall::Write { fd, bytes }) => {
            assert_eq!(*fd, 0);
            assert_eq!(bytes.as_slice(), b"Hi");
        }
        other => panic!("unexpected host call: {:?}", other),
    }
    vm.resume(HostReply::WriteDone).unwrap();
    let status = vm.execute_instruction_list(FUEL);
    assert_eq!(status, RunStatus::Halted);
}

#[test]
fn read_syscall_pushes_the_host_value() {
    let mut vm = VirtualMachine::new();
    vm.load_program(vec![
        Instruction::PushImmediate(0), // syscall number: read
        Instruction::SystemCall,
        Instruction::Pop(1),
    ]);
    let status = vm.execute_instruction_list(FUEL);
    assert_eq!(status, RunStatus::AwaitingHost);
    assert!(matches!(vm.pending, Some(HostCall::ReadLine)));
    vm.resume(HostReply::Value(1234)).unwrap();
    let status = vm.execute_instruction_list(FUEL);
    assert_eq!(status, RunStatus::Halted);
    assert_eq!(vm.registers[1], 1234);
}

#[test]
fn memory_store_and_load_round_trip() {
    let mut vm = VirtualMachine::new();
    vm.load_program(vec![
        Instruction::MoveImmediate(1, 0x11223344),
        Instruction::Store(100, 1, 0),
        Instruction::MoveImmediate(3, 100),
        Instruction::Load(2, 3, 0),
        Instruction::Load(4, 3, 2),
        Instruction::Load(5, 3, 3),
    ]);
    let status = vm.execute_instruction_list(FUEL);
    assert_eq!(status, RunStatus::Halted);
    assert_eq!(vm.registers[2], 0x11223344);
    assert_eq!(vm.registers[4], 0x3344);
    assert_eq!(vm.registers[5], 0x44); // lowest byte at the lowest address
    assert_eq!(vm.memory[100], 0x44);
    assert_eq!(vm.memory[103], 0x11);
}

#[test]
fn division_by_zero_traps() {
    let mut vm = VirtualMachine::new();
    vm.load_program(vec![
        Instruction::MoveImmediate(1, 5),
        Instruction::Div(2, 1, 3),
    ]);
    let status = vm.execute_instruction_list(FUEL);
    assert_eq!(status, RunStatus::Trapped(Trap::DivisionByZero));
    assert_eq!(vm.registers[2], 0); // the faulting instruction changed nothing
}

#[test]
fn invalid_width_code_traps() {
    let mut vm = VirtualMachine::new();
    vm.load_program(vec![Instruction::Store(0, 1, 1)]);
    let status = vm.execute_instruction_list(FUEL);
    assert_eq!(status, RunStatus::Trapped(Trap::InvalidWidthCode));
}

#[test]
fn invalid_syscall_number_traps() {
    let mut vm = VirtualMachine::new();
    vm.load_program(vec![
        Instruction::PushImmediate(9),
        Instruction::SystemCall,
    ]);
    let status = vm.execute_instruction_list(FUEL);
    assert_eq!(status, RunStatus::Trapped(Trap::InvalidSyscall));
}

#[test]
fn invalid_file_descriptor_traps() {
    let mut vm = VirtualMachine::new();
    vm.load_program(vec![
        Instruction::PushImmediate(1), // length
        Instruction::PushImmediate(0), // address
        Instruction::PushImmediate(7), // no such descriptor
        Instruction::PushImmediate(1), // syscall number: write
        Instruction::SystemCall,
    ]);
    let status = vm.execute_instruction_list(FUEL);
    assert_eq!(status, RunStatus::Trapped(Trap::InvalidFileDescriptor));
}

#[test]
fn invalid_utf8_in_write_buffer_traps() {
    let mut vm = VirtualMachine::new();
    vm.load_program(vec![
        Instruction::MoveImmediate(1, 0xFF),
        Instruction::Store(0, 1, 3),
        Instruction::PushImmediate(1), // length
        Instruction::PushImmediate(0), // address
        Instruction::PushImmediate(0), // stdout
        Instruction::PushImmediate(1), // syscall number: write
        Instruction::SystemCall,
    ]);
    let status = vm.execute_instruction_list(FUEL);
    assert_eq!(status, RunStatus::Trapped(Trap::InvalidUtf8));
}

#[test]
fn return_without_call_traps() {
    let mut vm = VirtualMachine::new();
    vm.load_program(vec![Instruction::Return]);
    let status = vm.execute_instruction_list(FUEL);
    assert_eq!(status, RunStatus::Trapped(Trap::CallStackUnderflow));
}

#[test]
fn pop_from_empty_stack_traps() {
    let mut vm = VirtualMachine::new();
    vm.load_program(vec![Instruction::Pop(1)]);
    let status = vm.execute_instruction_list(FUEL);
    assert_eq!(status, RunStatus::Trapped(Trap::StackUnderflow));
}

#[test]
fn jump_to_index_zero_traps() {
    let mut vm = VirtualMachine::new();
    vm.load_program(vec![Instruction::JumpImmediate(0)]);
    let status = vm.execute_instruction_list(FUEL);
    assert_eq!(status, RunStatus::Trapped(Trap::InvalidJumpTarget));
}

#[test]
fn register_out_of_range_traps() {
    let mut vm = VirtualMachine::new();
    vm.load_program(vec![Instruction::Move(20, 1)]);
    let status = vm.execute_instruction_list(FUEL);
    assert_eq!(status, RunStatus::Trapped(Trap::RegisterOutOfRange));
}

#[test]
fn infinite_loop_runs_out_of_steps() {
    let mut vm = VirtualMachine::new();
    vm.load_program(vec![Instruction::JumpImmediate(1)]);
    let status = vm.execute_instruction_list(10);
    assert_eq!(status, RunStatus::OutOfSteps);
}

#[test]
fn push_and_pop_methods_follow_the_stack_pointer() {
    let mut vm = VirtualMachine::new();
    vm.push_stack(5).unwrap();
    vm.push_stack(6).unwrap();
    assert_eq!(vm.registers[0], 2);
    assert_eq!(vm.pop_stack().unwrap(), 6);
    assert_eq!(vm.pop_stack().unwrap(), 5);
    assert_eq!(vm.pop_stack(), Err(Trap::StackUnderflow));
}

#[test]
fn store_string_writes_bytes_into_memory() {
    let mut vm = VirtualMachine::new();
    vm.store_string(5, b"abc").unwrap();
    assert_eq!(&vm.memory[5..8], b"abc");
    let err = vm.store_string(0xFFFFFFFF, b"abc");
    assert_eq!(err, Err(Trap::MemoryOutOfBounds));
}

#[test]
fn multi_byte_utf8_passes_the_write_check() {
    let mut vm = VirtualMachine::new();
    // 0xC3 0xA9 is a two-byte encoded scalar value.
    vm.store_string(0, &[0xC3, 0xA9]).unwrap();
    vm.load_program(vec![
        Instruction::PushImmediate(2), // length
        Instruction::PushImmediate(0), // address
        Instruction::PushImmediate(0), // stdout
        Instruction::PushImmediate(1), // syscall number: write
        Instruction::SystemCall,
    ]);
    let status = vm.execute_instruction_list(FUEL);
    assert_eq!(status, RunStatus::AwaitingHost);
    match &vm.pending {
        Some(HostCall::Write { bytes, .. }) => assert_eq!(bytes.as_slice(), &[0xC3, 0xA9]),
        other => panic!("unexpected host call: {:?}", other),
    }
}

#[test]
fn overlong_utf8_form_traps() {
    let mut vm = VirtualMachine::new();
    // 0xC0 0x80 is the forbidden overlong encoding of NUL.
    vm.store_string(0, &[0xC0, 0x80]).unwrap();
    vm.load_program(vec![
        Instruction::PushImmediate(2),
        Instruction::PushImmediate(0),
        Instruction::PushImmediate(0),
        Instruction::PushImmediate(1),
        Instruction::SystemCall,
    ]);
    let status = vm.execute_instruction_list(FUEL);
    assert_eq!(status, RunStatus::Trapped(Trap::InvalidUtf8));
}

#[test]
fn truncated_utf8_sequence_traps() {
    let mut vm = VirtualMachine::new();
    // A three-byte lead with only one continuation byte in the buffer.
    vm.store_string(0, &[0xE2, 0x82]).unwrap();
    vm.load_program(vec![
        Instruction::PushImmediate(2),
        Instruction::PushImmediate(0),
        Instruction::PushImmediate(0),
        Instruction::PushImmediate(1),
        Instruction::SystemCall,
    ]);
    let status = vm.execute_instruction_list(FUEL);
    assert_eq!(status, RunStatus::Trapped(Trap::InvalidUtf8));
}

#[test]
fn shift_count_wraps_at_word_width() {
    let mut vm = VirtualMachine::new();
    vm.load_program(vec![
        Instruction::MoveImmediate(1, 1),
        Instruction::ShiftLeftImmediate(2, 1, 33), // counts are taken modulo 32
        Instruction::ShiftLeftImmediate(3, 1, 4),
        Instruction::MoveImmediate(4, 0x80000000),
        Instruction::ShiftRightImmediate(5, 4, 31),
    ]);
    let status = vm.execute_instruction_list(FUEL);
    assert_eq!(status, RunStatus::Halted);
    assert_eq!(vm.registers[2], 2);
    assert_eq!(vm.registers[3], 16);
    assert_eq!(vm.registers[5], 1);
}

#[test]
fn bitwise_operations_compute_exactly() {
    let mut vm = VirtualMachine::new();
    vm.load_program(vec![
        Instruction::MoveImmediate(1, 0b1100),
        Instruction::MoveImmediate(2, 0b1010),
        Instruction::And(3, 1, 2),
        Instruction::Or(4, 1, 2),
        Instruction::Xor(5, 1, 2),
        Instruction::Not(6, 1),
    ]);
    let status = vm.execute_instruction_list(FUEL);
    assert_eq!(status, RunStatus::Halted);
    assert_eq!(vm.registers[3], 0b1000);
    assert_eq!(vm.registers[4], 0b1110);
    assert_eq!(vm.registers[5], 0b0110);
    assert_eq!(vm.registers[6], !0b1100u32);
}

#[test]
fn push_beyond_the_stack_end_traps() {
    // Register 0 is the stack pointer and writing it is permitted; pointing
    // it at the stack end makes the next push overflow.
    let mut vm = VirtualMachine::new();
    vm.load_program(vec![
        Instruction::MoveImmediate(0, 262144),
        Instruction::PushImmediate(1),
    ]);
    let status = vm.execute_instruction_list(FUEL);
    assert_eq!(status, RunStatus::Trapped(Trap::StackOverflow));
}

#[test]
fn store_past_the_end_of_memory_traps() {
    let mut vm = VirtualMachine::new();
    vm.load_program(vec![Instruction::Store(0xFFFFFFFF, 1, 0)]);
    let status = vm.execute_instruction_list(FUEL);
    assert_eq!(status, RunStatus::Trapped(Trap::MemoryOutOfBounds));
}

#[test]
fn register_held_jump_targets_work_like_immediates() {
    let mut vm = VirtualMachine::new();
    vm.load_program(vec![
        Instruction::MoveImmediate(5, 4),  // the target index
        Instruction::Jump(5),
        Instruction::MoveImmediate(1, 9),  // skipped
        Instruction::MoveImmediate(2, 8),  // index 4
    ]);
    let status = vm.execute_instruction_list(FUEL);
    assert_eq!(status, RunStatus::Halted);
    assert_eq!(vm.registers[1], 0);
    assert_eq!(vm.registers[2], 8);
}
