use bffcore::assembler::ArithOp;
use bffcore::assembler::AsmError;
use bffcore::assembler::AsmOperand;
use bffcore::assembler::BffAsmParser;
use bffcore::assembler::Family;
use bffcore::assembler::Statement;
use bffcore::isa::Instruction;
use bffcore::program::BFFProgram;
use bffcore::program::BFOReader;
use bffcore::program::DecodeError;
use bffcore::program::print_string_as_instructions;
use bffcore::program::string_to_instructions;
use bffcore::vm::HostCall;
use bffcore::vm::HostReply;
use bffcore::vm::RunStatus;
use bffcore::vm::VirtualMachine;

const FUEL: u64 = 100_000;

#[test]
fn program_bytes_round_trip() {
    let program = BFFProgram::new(
        (0, 1, 0),
        vec![
            Instruction::MoveImmediate(1, 0xDEADBEEF),
            Instruction::Add(1, 1, 2),
            Instruction::SystemCall,
        ],
        vec![(0, b"Hi".to_vec()), (100, b"there".to_vec())],
    );
    let bytes = program.to_bfo_bytes();
    let back = BFOReader::read_program(bytes).unwrap();
    assert_eq!(back.version, program.version);
    assert_eq!(back.instructions, program.instructions);
    assert_eq!(back.string_table, program.string_table);
    assert!(back.version_matches());
}

#[test]
fn program_header_layout() {
    let program = BFFProgram::new((0, 1, 0), vec![], vec![]);
    let bytes = program.to_bfo_bytes();
    // Three little-endian version fields, two reserved bytes, and a zero
    // string-table count: sixteen bytes of prelude, no code body.
    assert_eq!(
        bytes,
        vec![0, 0, 1, 0, 0, 0, 0, 0, 0, 0, 0, 0, 0, 0, 0, 0]
    );
}

#[test]
fn reader_rejects_short_streams() {
    assert_eq!(
        BFOReader::read_program(vec![0, 0, 1, 0]),
        Err(DecodeError::TooShort)
    );
    // A full prelude but a code body that is not a multiple of the slot size.
    let mut bytes = BFFProgram::new((0, 1, 0), vec![], vec![]).to_bfo_bytes();
    bytes.extend_from_slice(&[0, 0, 0]);
    assert_eq!(BFOReader::read_program(bytes), Err(DecodeError::TooShort));
}

#[test]
fn reader_rejects_unknown_opcodes() {
    let mut bytes = BFFProgram::new((0, 1, 0), vec![], vec![]).to_bfo_bytes();
    bytes.extend_from_slice(&[200, 0, 0, 0, 0, 0, 0, 0]);
    assert_eq!(
        BFOReader::read_program(bytes),
        Err(DecodeError::UnknownOpcode(200))
    );
}

#[test]
fn version_mismatch_is_reported_not_fatal() {
    let program = BFFProgram::new((9, 9, 9), vec![Instruction::Nop], vec![]);
    let bytes = program.to_bfo_bytes();
    let back = BFOReader::read_program(bytes).unwrap();
    assert!(!back.version_matches());
    let (_, status) = back.execute(FUEL);
    assert_eq!(status, RunStatus::Halted);
}

#[test]
fn execute_preloads_the_string_table() {
    let program = BFFProgram::new(
        (0, 1, 0),
        vec![Instruction::MoveImmediate(3, 100)],
        vec![(4, b"Ok".to_vec())],
    );
    let (vm, status) = program.execute(FUEL);
    assert_eq!(status, RunStatus::Halted);
    assert_eq!(vm.memory[4], b'O');
    assert_eq!(vm.memory[5], b'k');
    assert_eq!(vm.registers[3], 100);
}

#[test]
fn assembler_resolves_labels_across_both_passes() {
    // Count register 1 down from 3; the loop label points at the subtract,
    // which sits after the guard Nop the machine prepends.
    let statements = vec![
        Statement::MoveSt { dst: 1, src: AsmOperand::Unsigned(3) },
        Statement::LabelDecl(b"top".to_vec()),
        Statement::ArithSt {
            op: ArithOp::Sub,
            family: Family::Unsigned,
            dst: 1,
            lhs: 1,
            rhs: AsmOperand::Unsigned(1),
        },
        Statement::JnzSt { cond: 1, label: b"top".to_vec() },
    ];
    let mut parser = BffAsmParser::new();
    parser.parse(&statements).unwrap();
    assert_eq!(
        parser.instructions,
        vec![
            Instruction::MoveImmediate(1, 3),
            Instruction::SubImmediate(1, 1, 1),
            Instruction::JumpNotZeroImmediate(1, 2),
        ]
    );
    let mut vm = VirtualMachine::new();
    vm.load_program(parser.instructions);
    let status = vm.execute_instruction_list(FUEL);
    assert_eq!(status, RunStatus::Halted);
    assert_eq!(vm.registers[1], 0);
}

#[test]
fn assembler_rejects_undefined_labels() {
    let statements = vec![Statement::JumpSt { label: b"nowhere".to_vec() }];
    let mut parser = BffAsmParser::new();
    assert_eq!(parser.parse(&statements), Err(AsmError::UndefinedLabel));
}

#[test]
fn assembler_rejects_illegal_family_combinations() {
    // There is no unsigned negate.
    let mut parser = BffAsmParser::new();
    assert_eq!(
        parser.parse(&vec![Statement::NegateSt {
            family: Family::Unsigned,
            dst: 1,
            src: AsmOperand::Reg(2),
        }]),
        Err(AsmError::IllegalCombination)
    );
    // A shift amount cannot be a signed literal.
    let mut parser = BffAsmParser::new();
    assert_eq!(
        parser.parse(&vec![Statement::ShiftLeftSt {
            dst: 1,
            lhs: 1,
            rhs: AsmOperand::Signed((-1i32) as u32),
        }]),
        Err(AsmError::IllegalCombination)
    );
    // A float literal cannot feed an unsigned add.
    let mut parser = BffAsmParser::new();
    assert_eq!(
        parser.parse(&vec![Statement::ArithSt {
            op: ArithOp::Add,
            family: Family::Unsigned,
            dst: 1,
            lhs: 1,
            rhs: AsmOperand::Float(1.5f32.to_bits()),
        }]),
        Err(AsmError::IllegalCombination)
    );
}

#[test]
fn assembler_types_immediates_by_family() {
    let statements = vec![
        Statement::MoveSt { dst: 1, src: AsmOperand::Float(1.5f32.to_bits()) },
        Statement::ArithSt {
            op: ArithOp::Add,
            family: Family::Signed,
            dst: 2,
            lhs: 1,
            rhs: AsmOperand::Signed((-2i32) as u32),
        },
        Statement::NegateSt { family: Family::Float, dst: 3, src: AsmOperand::Reg(1) },
    ];
    let mut parser = BffAsmParser::new();
    parser.parse(&statements).unwrap();
    assert_eq!(
        parser.instructions,
        vec![
            Instruction::MoveImmediate(1, 1.5f32.to_bits()),
            Instruction::SignedAddImmediate(2, 1, (-2i32) as u32),
            Instruction::FloatNegate(3, 1),
        ]
    );
}

#[test]
fn later_label_declaration_wins() {
    let statements = vec![
        Statement::LabelDecl(b"x".to_vec()),
        Statement::ReturnSt,
        Statement::LabelDecl(b"x".to_vec()),
        Statement::JumpSt { label: b"x".to_vec() },
    ];
    let mut parser = BffAsmParser::new();
    parser.parse(&statements).unwrap();
    assert_eq!(
        parser.instructions,
        vec![Instruction::Return, Instruction::JumpImmediate(2)]
    );
}

#[test]
fn print_string_instructions_write_the_string() {
    let instructions = print_string_as_instructions(0, 1, b"Hello World!");
    let mut vm = VirtualMachine::new();
    vm.load_program(instructions);
    let status = vm.execute_instruction_list(FUEL);
    assert_eq!(status, RunStatus::AwaitingHost);
    let written = match &vm.pending {
        Some(HostCall::Write { fd, bytes }) => {
            assert_eq!(*fd, 0);
            bytes.clone()
        }
        other => panic!("unexpected host call: {:?}", other),
    };
    assert_eq!(written.as_slice(), b"Hello World!");
    vm.resume(HostReply::WriteDone).unwrap();
    assert_eq!(vm.execute_instruction_list(FUEL), RunStatus::Halted);
}

#[test]
fn string_to_instructions_chunks_little_endian() {
    // Seven bytes: one 4-byte word, one 2-byte tail, one single byte.
    let r = string_to_instructions(10, 2, b"ABCDEFG");
    assert_eq!(
        r,
        vec![
            Instruction::MoveImmediate(2, u32::from_le_bytes(*b"ABCD")),
            Instruction::Store(10, 2, 0),
            Instruction::MoveImmediate(2, u16::from_le_bytes(*b"EF") as u32),
            Instruction::Store(14, 2, 2),
            Instruction::MoveImmediate(2, b'G' as u32),
            Instruction::Store(16, 2, 3),
        ]
    );
}

#[test]
fn full_pipeline_from_statements_to_execution() {
    // Statements to instruction list, instruction list to bytes, bytes back
    // to a program, and the program into the machine.
    let statements = vec![
        Statement::MoveSt { dst: 1, src: AsmOperand::Unsigned(3) },
        Statement::MoveSt { dst: 2, src: AsmOperand::Unsigned(4) },
        Statement::ArithSt {
            op: ArithOp::Add,
            family: Family::Unsigned,
            dst: 1,
            lhs: 1,
            rhs: AsmOperand::Reg(2),
        },
    ];
    let mut parser = BffAsmParser::new();
    parser.parse(&statements).unwrap();
    let program = BFFProgram::new((0, 1, 0), parser.instructions, vec![]);
    let bytes = program.to_bfo_bytes();
    let loaded = BFOReader::read_program(bytes).unwrap();
    let (vm, status) = loaded.execute(FUEL);
    assert_eq!(status, RunStatus::Halted);
    assert_eq!(vm.registers[1], 7);
}
