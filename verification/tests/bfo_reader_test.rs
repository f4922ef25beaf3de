use bffcore::isa::Instruction;
use bffcore::isa::INSTRUCTION_COUNT;

#[test]
fn instruction_conversion_integrity_check() {
    assert_eq!(INSTRUCTION_COUNT, 95);

    for i in 0..INSTRUCTION_COUNT as u8 {
        let raw = [i, 0, 0, 0, 0, 0, 0, 0];
        let instruction = Instruction::from_bfo_bytes(raw);
        let bytes = instruction.to_bfo_bytes();

        assert_eq!(raw[0], bytes[0]);
        assert_eq!(raw[1], bytes[1]);
        assert_eq!(raw[2], bytes[2]);
        assert_eq!(raw[3], bytes[3]);
        assert_eq!(raw[4], bytes[4]);
        assert_eq!(raw[5], bytes[5]);
        assert_eq!(raw[6], bytes[6]);
        assert_eq!(raw[7], bytes[7]);

        println!("Passed: {:?}", instruction)
    }
}

#[test]
fn codec_round_trip_nonzero_operands() {
    let samples = vec![
        Instruction::Add(1, 2, 3),
        Instruction::AddImmediate(1, 2, 0xDEADBEEF),
        Instruction::DivMod(3, 4, 1, 2),
        Instruction::DivModImmediate(3, 4, 1, 0xCAFEBABE),
        Instruction::SignedDivModImmediate(5, 6, 7, 0x01020304),
        Instruction::FloatNegateImmediate(2, 0x3FC00000),
        Instruction::SignedNegateImmediate(9, 0xFFFFFFFB),
        Instruction::NotImmediate(1, 0x0F0F0F0F),
        Instruction::ShiftRightImmediate(1, 2, 31),
        Instruction::Jump(16),
        Instruction::JumpImmediate(1000),
        Instruction::JumpNotZero(1, 2),
        Instruction::JumpNotZeroImmediate(1, 65536),
        Instruction::Move(1, 2),
        Instruction::MoveImmediate(1, 0x12345678),
        Instruction::Push(5),
        Instruction::PushImmediate(0xFFFFFFFF),
        Instruction::Pop(16),
        Instruction::Store(0x12345678, 3, 2),
        Instruction::Load(1, 2, 3),
        Instruction::Call(7),
        Instruction::Return,
        Instruction::SystemCall,
        Instruction::Nop,
    ];
    for x in samples {
        let encoded = x.to_bfo_bytes();
        let decoded = Instruction::from_bfo_bytes(encoded);
        assert_eq!(decoded, x);
    }
}

#[test]
fn codec_layout_of_known_slots() {
    // rrI layout: opcode, two registers, a padding byte, then the
    // little-endian immediate.
    assert_eq!(
        Instruction::AddImmediate(1, 2, 0x0A0B0C0D).to_bfo_bytes(),
        [2, 1, 2, 0, 0x0D, 0x0C, 0x0B, 0x0A]
    );
    // I layout: two zero bytes, then the little-endian immediate.
    assert_eq!(
        Instruction::JumpImmediate(0x0102).to_bfo_bytes(),
        [82, 0, 0, 0x02, 0x01, 0, 0, 0]
    );
    // Iw layout: the direct store address, the source register, the width.
    assert_eq!(
        Instruction::Store(0x01020304, 5, 2).to_bfo_bytes(),
        [90, 0x04, 0x03, 0x02, 0x01, 5, 2, 0]
    );
}
