//! The binary object codec. Every instruction maps to one fixed 8-byte slot:
//! byte 0 is the opcode, bytes 1..7 carry the operands in one of a handful of
//! layouts. Immediates are little-endian. `to_bfo_bytes` and `from_bfo_bytes`
//! are inverses of one another, which `lemma_decode_encode` and
//! `lemma_encode_decode_zero` state and prove.
use vstd::prelude::*;
use vstd::arithmetic::div_mod::lemma_div_denominator;
use crate::isa::Instruction;
use crate::isa::INSTRUCTION_SIZE;

verus! {

/// Lowest little-endian byte of a 32-bit word.
pub open spec fn byte0(x: u32) -> u8 {
    (x % 256) as u8
}

/// Second little-endian byte of a 32-bit word.
pub open spec fn byte1(x: u32) -> u8 {
    ((x / 256) % 256) as u8
}

/// Third little-endian byte of a 32-bit word.
pub open spec fn byte2(x: u32) -> u8 {
    ((x / 65536) % 256) as u8
}

/// Highest little-endian byte of a 32-bit word.
pub open spec fn byte3(x: u32) -> u8 {
    ((x / 16777216) % 256) as u8
}

/// The 32-bit word whose little-endian bytes are `b0`, `b1`, `b2`, `b3`.
pub open spec fn le32(b0: u8, b1: u8, b2: u8, b3: u8) -> u32 {
    (b0 + 256 * b1 + 65536 * b2 + 16777216 * b3) as u32
}

/// Recomposing the four little-endian bytes of a word gives the word back.
pub proof fn lemma_le32_bytes(x: u32)
    ensures
        le32(byte0(x), byte1(x), byte2(x), byte3(x)) == x,
{
    let xi = x as int;
    lemma_div_denominator(xi, 256, 256);
    lemma_div_denominator(xi, 65536, 256);
    assert(xi / 65536 / 256 == xi / 16777216);
    assert(xi / 16777216 < 256);
    assert(xi == 256 * (xi / 256) + xi % 256);
    assert(xi / 256 == 256 * (xi / 256 / 256) + (xi / 256) % 256);
    assert(xi / 65536 == 256 * (xi / 65536 / 256) + (xi / 65536) % 256);
}

/// The 8-byte slot that an instruction encodes to, as a sequence.
pub open spec fn spec_encode(i: Instruction) -> Seq<u8> {
    match i {
        Instruction::Nop => seq![0u8, 0u8, 0u8, 0u8, 0u8, 0u8, 0u8, 0u8],
        Instruction::Add(a, b, c) => seq![1u8, a, b, c, 0u8, 0u8, 0u8, 0u8],
        Instruction::AddImmediate(a, b, v) => seq![2u8, a, b, 0u8, byte0(v), byte1(v), byte2(v), byte3(v)],
        Instruction::Sub(a, b, c) => seq![3u8, a, b, c, 0u8, 0u8, 0u8, 0u8],
        Instruction::SubImmediate(a, b, v) => seq![4u8, a, b, 0u8, byte0(v), byte1(v), byte2(v), byte3(v)],
        Instruction::Mul(a, b, c) => seq![5u8, a, b, c, 0u8, 0u8, 0u8, 0u8],
        Instruction::MulImmediate(a, b, v) => seq![6u8, a, b, 0u8, byte0(v), byte1(v), byte2(v), byte3(v)],
        Instruction::Div(a, b, c) => seq![7u8, a, b, c, 0u8, 0u8, 0u8, 0u8],
        Instruction::DivImmediate(a, b, v) => seq![8u8, a, b, 0u8, byte0(v), byte1(v), byte2(v), byte3(v)],
        Instruction::Mod(a, b, c) => seq![9u8, a, b, c, 0u8, 0u8, 0u8, 0u8],
        Instruction::ModImmediate(a, b, v) => seq![10u8, a, b, 0u8, byte0(v), byte1(v), byte2(v), byte3(v)],
        Instruction::DivMod(a, b, c, d) => seq![11u8, a, b, c, d, 0u8, 0u8, 0u8],
        Instruction::DivModImmediate(a, b, c, v) => seq![12u8, a, b, c, byte0(v), byte1(v), byte2(v), byte3(v)],
        Instruction::GreaterThan(a, b, c) => seq![13u8, a, b, c, 0u8, 0u8, 0u8, 0u8],
        Instruction::GreaterThanImmediate(a, b, v) => seq![14u8, a, b, 0u8, byte0(v), byte1(v), byte2(v), byte3(v)],
        Instruction::LessThan(a, b, c) => seq![15u8, a, b, c, 0u8, 0u8, 0u8, 0u8],
        Instruction::LessThanImmediate(a, b, v) => seq![16u8, a, b, 0u8, byte0(v), byte1(v), byte2(v), byte3(v)],
        Instruction::GreaterThanOrEqual(a, b, c) => seq![17u8, a, b, c, 0u8, 0u8, 0u8, 0u8],
        Instruction::GreaterThanOrEqualImmediate(a, b, v) => seq![18u8, a, b, 0u8, byte0(v), byte1(v), byte2(v), byte3(v)],
        Instruction::LessThanOrEqual(a, b, c) => seq![19u8, a, b, c, 0u8, 0u8, 0u8, 0u8],
        Instruction::LessThanOrEqualImmediate(a, b, v) => seq![20u8, a, b, 0u8, byte0(v), byte1(v), byte2(v), byte3(v)],
        Instruction::Equal(a, b, c) => seq![21u8, a, b, c, 0u8, 0u8, 0u8, 0u8],
        Instruction::EqualImmediate(a, b, v) => seq![22u8, a, b, 0u8, byte0(v), byte1(v), byte2(v), byte3(v)],
        Instruction::NotEqual(a, b, c) => seq![23u8, a, b, c, 0u8, 0u8, 0u8, 0u8],
        Instruction::NotEqualImmediate(a, b, v) => seq![24u8, a, b, 0u8, byte0(v), byte1(v), byte2(v), byte3(v)],
        Instruction::FloatAdd(a, b, c) => seq![25u8, a, b, c, 0u8, 0u8, 0u8, 0u8],
        Instruction::FloatAddImmediate(a, b, v) => seq![26u8, a, b, 0u8, byte0(v), byte1(v), byte2(v), byte3(v)],
        Instruction::FloatSub(a, b, c) => seq![27u8, a, b, c, 0u8, 0u8, 0u8, 0u8],
        Instruction::FloatSubImmediate(a, b, v) => seq![28u8, a, b, 0u8, byte0(v), byte1(v), byte2(v), byte3(v)],
        Instruction::FloatMul(a, b, c) => seq![29u8, a, b, c, 0u8, 0u8, 0u8, 0u8],
        Instruction::FloatMulImmediate(a, b, v) => seq![30u8, a, b, 0u8, byte0(v), byte1(v), byte2(v), byte3(v)],
        Instruction::FloatDiv(a, b, c) => seq![31u8, a, b, c, 0u8, 0u8, 0u8, 0u8],
        Instruction::FloatDivImmediate(a, b, v) => seq![32u8, a, b, 0u8, byte0(v), byte1(v), byte2(v), byte3(v)],
        Instruction::FloatMod(a, b, c) => seq![33u8, a, b, c, 0u8, 0u8, 0u8, 0u8],
        Instruction::FloatModImmediate(a, b, v) => seq![34u8, a, b, 0u8, byte0(v), byte1(v), byte2(v), byte3(v)],
        Instruction::FloatDivMod(a, b, c, d) => seq![35u8, a, b, c, d, 0u8, 0u8, 0u8],
        Instruction::FloatDivModImmediate(a, b, c, v) => seq![36u8, a, b, c, byte0(v), byte1(v), byte2(v), byte3(v)],
        Instruction::FloatGreaterThan(a, b, c) => seq![37u8, a, b, c, 0u8, 0u8, 0u8, 0u8],
        Instruction::FloatGreaterThanImmediate(a, b, v) => seq![38u8, a, b, 0u8, byte0(v), byte1(v), byte2(v), byte3(v)],
        Instruction::FloatLessThan(a, b, c) => seq![39u8, a, b, c, 0u8, 0u8, 0u8, 0u8],
        Instruction::FloatLessThanImmediate(a, b, v) => seq![40u8, a, b, 0u8, byte0(v), byte1(v), byte2(v), byte3(v)],
        Instruction::FloatGreaterThanOrEqual(a, b, c) => seq![41u8, a, b, c, 0u8, 0u8, 0u8, 0u8],
        Instruction::FloatGreaterThanOrEqualImmediate(a, b, v) => seq![42u8, a, b, 0u8, byte0(v), byte1(v), byte2(v), byte3(v)],
        Instruction::FloatLessThanOrEqual(a, b, c) => seq![43u8, a, b, c, 0u8, 0u8, 0u8, 0u8],
        Instruction::FloatLessThanOrEqualImmediate(a, b, v) => seq![44u8, a, b, 0u8, byte0(v), byte1(v), byte2(v), byte3(v)],
        Instruction::FloatNegate(a, b) => seq![45u8, a, b, 0u8, 0u8, 0u8, 0u8, 0u8],
        Instruction::FloatNegateImmediate(a, v) => seq![46u8, a, 0u8, byte0(v), byte1(v), byte2(v), byte3(v), 0u8],
        Instruction::SignedAdd(a, b, c) => seq![47u8, a, b, c, 0u8, 0u8, 0u8, 0u8],
        Instruction::SignedAddImmediate(a, b, v) => seq![48u8, a, b, 0u8, byte0(v), byte1(v), byte2(v), byte3(v)],
        Instruction::SignedSub(a, b, c) => seq![49u8, a, b, c, 0u8, 0u8, 0u8, 0u8],
        Instruction::SignedSubImmediate(a, b, v) => seq![50u8, a, b, 0u8, byte0(v), byte1(v), byte2(v), byte3(v)],
        Instruction::SignedMul(a, b, c) => seq![51u8, a, b, c, 0u8, 0u8, 0u8, 0u8],
        Instruction::SignedMulImmediate(a, b, v) => seq![52u8, a, b, 0u8, byte0(v), byte1(v), byte2(v), byte3(v)],
        Instruction::SignedDiv(a, b, c) => seq![53u8, a, b, c, 0u8, 0u8, 0u8, 0u8],
        Instruction::SignedDivImmediate(a, b, v) => seq![54u8, a, b, 0u8, byte0(v), byte1(v), byte2(v), byte3(v)],
        Instruction::SignedMod(a, b, c) => seq![55u8, a, b, c, 0u8, 0u8, 0u8, 0u8],
        Instruction::SignedModImmediate(a, b, v) => seq![56u8, a, b, 0u8, byte0(v), byte1(v), byte2(v), byte3(v)],
        Instruction::SignedDivMod(a, b, c, d) => seq![57u8, a, b, c, d, 0u8, 0u8, 0u8],
        Instruction::SignedDivModImmediate(a, b, c, v) => seq![58u8, a, b, c, byte0(v), byte1(v), byte2(v), byte3(v)],
        Instruction::SignedGreaterThan(a, b, c) => seq![59u8, a, b, c, 0u8, 0u8, 0u8, 0u8],
        Instruction::SignedGreaterThanImmediate(a, b, v) => seq![60u8, a, b, 0u8, byte0(v), byte1(v), byte2(v), byte3(v)],
        Instruction::SignedLessThan(a, b, c) => seq![61u8, a, b, c, 0u8, 0u8, 0u8, 0u8],
        Instruction::SignedLessThanImmediate(a, b, v) => seq![62u8, a, b, 0u8, byte0(v), byte1(v), byte2(v), byte3(v)],
        Instruction::SignedGreaterThanOrEqual(a, b, c) => seq![63u8, a, b, c, 0u8, 0u8, 0u8, 0u8],
        Instruction::SignedGreaterThanOrEqualImmediate(a, b, v) => seq![64u8, a, b, 0u8, byte0(v), byte1(v), byte2(v), byte3(v)],
        Instruction::SignedLessThanOrEqual(a, b, c) => seq![65u8, a, b, c, 0u8, 0u8, 0u8, 0u8],
        Instruction::SignedLessThanOrEqualImmediate(a, b, v) => seq![66u8, a, b, 0u8, byte0(v), byte1(v), byte2(v), byte3(v)],
        Instruction::SignedNegate(a, b) => seq![67u8, a, b, 0u8, 0u8, 0u8, 0u8, 0u8],
        Instruction::SignedNegateImmediate(a, v) => seq![68u8, a, 0u8, byte0(v), byte1(v), byte2(v), byte3(v), 0u8],
        Instruction::Not(a, b) => seq![69u8, a, b, 0u8, 0u8, 0u8, 0u8, 0u8],
        Instruction::NotImmediate(a, v) => seq![70u8, a, 0u8, byte0(v), byte1(v), byte2(v), byte3(v), 0u8],
        Instruction::And(a, b, c) => seq![71u8, a, b, c, 0u8, 0u8, 0u8, 0u8],
        Instruction::AndImmediate(a, b, v) => seq![72u8, a, b, 0u8, byte0(v), byte1(v), byte2(v), byte3(v)],
        Instruction::Or(a, b, c) => seq![73u8, a, b, c, 0u8, 0u8, 0u8, 0u8],
        Instruction::OrImmediate(a, b, v) => seq![74u8, a, b, 0u8, byte0(v), byte1(v), byte2(v), byte3(v)],
        Instruction::Xor(a, b, c) => seq![75u8, a, b, c, 0u8, 0u8, 0u8, 0u8],
        Instruction::XorImmediate(a, b, v) => seq![76u8, a, b, 0u8, byte0(v), byte1(v), byte2(v), byte3(v)],
        Instruction::ShiftLeft(a, b, c) => seq![77u8, a, b, c, 0u8, 0u8, 0u8, 0u8],
        Instruction::ShiftLeftImmediate(a, b, v) => seq![78u8, a, b, 0u8, byte0(v), byte1(v), byte2(v), byte3(v)],
        Instruction::ShiftRight(a, b, c) => seq![79u8, a, b, c, 0u8, 0u8, 0u8, 0u8],
        Instruction::ShiftRightImmediate(a, b, v) => seq![80u8, a, b, 0u8, byte0(v), byte1(v), byte2(v), byte3(v)],
        Instruction::Jump(a) => seq![81u8, a, 0u8, 0u8, 0u8, 0u8, 0u8, 0u8],
        Instruction::JumpImmediate(v) => seq![82u8, 0u8, 0u8, byte0(v), byte1(v), byte2(v), byte3(v), 0u8],
        Instruction::JumpNotZero(a, b) => seq![83u8, a, b, 0u8, 0u8, 0u8, 0u8, 0u8],
        Instruction::JumpNotZeroImmediate(a, v) => seq![84u8, a, 0u8, byte0(v), byte1(v), byte2(v), byte3(v), 0u8],
        Instruction::Move(a, b) => seq![85u8, a, b, 0u8, 0u8, 0u8, 0u8, 0u8],
        Instruction::MoveImmediate(a, v) => seq![86u8, a, 0u8, byte0(v), byte1(v), byte2(v), byte3(v), 0u8],
        Instruction::Push(a) => seq![87u8, a, 0u8, 0u8, 0u8, 0u8, 0u8, 0u8],
        Instruction::PushImmediate(v) => seq![88u8, 0u8, 0u8, byte0(v), byte1(v), byte2(v), byte3(v), 0u8],
        Instruction::Pop(a) => seq![89u8, a, 0u8, 0u8, 0u8, 0u8, 0u8, 0u8],
        Instruction::Store(v, a, w) => seq![90u8, byte0(v), byte1(v), byte2(v), byte3(v), a, w, 0u8],
        Instruction::Load(a, b, w) => seq![91u8, a, b, w, 0u8, 0u8, 0u8, 0u8],
        Instruction::Call(v) => seq![92u8, 0u8, 0u8, byte0(v), byte1(v), byte2(v), byte3(v), 0u8],
        Instruction::Return => seq![93u8, 0u8, 0u8, 0u8, 0u8, 0u8, 0u8, 0u8],
        Instruction::SystemCall => seq![94u8, 0u8, 0u8, 0u8, 0u8, 0u8, 0u8, 0u8],
    }
}

/// The instruction that an 8-byte slot decodes to; meaningful when the
/// opcode byte is below INSTRUCTION_COUNT and the slot has 8 bytes.
pub open spec fn spec_decode(b: Seq<u8>) -> Instruction
    recommends
        b.len() == 8,
        b[0] < 95,
{
    if b[0] == 0 {
        Instruction::Nop
    } else if b[0] == 1 {
        Instruction::Add(b[1], b[2], b[3])
    } else if b[0] == 2 {
        Instruction::AddImmediate(b[1], b[2], le32(b[4], b[5], b[6], b[7]))
    } else if b[0] == 3 {
        Instruction::Sub(b[1], b[2], b[3])
    } else if b[0] == 4 {
        Instruction::SubImmediate(b[1], b[2], le32(b[4], b[5], b[6], b[7]))
    } else if b[0] == 5 {
        Instruction::Mul(b[1], b[2], b[3])
    } else if b[0] == 6 {
        Instruction::MulImmediate(b[1], b[2], le32(b[4], b[5], b[6], b[7]))
    } else if b[0] == 7 {
        Instruction::Div(b[1], b[2], b[3])
    } else if b[0] == 8 {
        Instruction::DivImmediate(b[1], b[2], le32(b[4], b[5], b[6], b[7]))
    } else if b[0] == 9 {
        Instruction::Mod(b[1], b[2], b[3])
    } else if b[0] == 10 {
        Instruction::ModImmediate(b[1], b[2], le32(b[4], b[5], b[6], b[7]))
    } else if b[0] == 11 {
        Instruction::DivMod(b[1], b[2], b[3], b[4])
    } else if b[0] == 12 {
        Instruction::DivModImmediate(b[1], b[2], b[3], le32(b[4], b[5], b[6], b[7]))
    } else if b[0] == 13 {
        Instruction::GreaterThan(b[1], b[2], b[3])
    } else if b[0] == 14 {
        Instruction::GreaterThanImmediate(b[1], b[2], le32(b[4], b[5], b[6], b[7]))
    } else if b[0] == 15 {
        Instruction::LessThan(b[1], b[2], b[3])
    } else if b[0] == 16 {
        Instruction::LessThanImmediate(b[1], b[2], le32(b[4], b[5], b[6], b[7]))
    } else if b[0] == 17 {
        Instruction::GreaterThanOrEqual(b[1], b[2], b[3])
    } else if b[0] == 18 {
        Instruction::GreaterThanOrEqualImmediate(b[1], b[2], le32(b[4], b[5], b[6], b[7]))
    } else if b[0] == 19 {
        Instruction::LessThanOrEqual(b[1], b[2], b[3])
    } else if b[0] == 20 {
        Instruction::LessThanOrEqualImmediate(b[1], b[2], le32(b[4], b[5], b[6], b[7]))
    } else if b[0] == 21 {
        Instruction::Equal(b[1], b[2], b[3])
    } else if b[0] == 22 {
        Instruction::EqualImmediate(b[1], b[2], le32(b[4], b[5], b[6], b[7]))
    } else if b[0] == 23 {
        Instruction::NotEqual(b[1], b[2], b[3])
    } else if b[0] == 24 {
        Instruction::NotEqualImmediate(b[1], b[2], le32(b[4], b[5], b[6], b[7]))
    } else if b[0] == 25 {
        Instruction::FloatAdd(b[1], b[2], b[3])
    } else if b[0] == 26 {
        Instruction::FloatAddImmediate(b[1], b[2], le32(b[4], b[5], b[6], b[7]))
    } else if b[0] == 27 {
        Instruction::FloatSub(b[1], b[2], b[3])
    } else if b[0] == 28 {
        Instruction::FloatSubImmediate(b[1], b[2], le32(b[4], b[5], b[6], b[7]))
    } else if b[0] == 29 {
        Instruction::FloatMul(b[1], b[2], b[3])
    } else if b[0] == 30 {
        Instruction::FloatMulImmediate(b[1], b[2], le32(b[4], b[5], b[6], b[7]))
    } else if b[0] == 31 {
        Instruction::FloatDiv(b[1], b[2], b[3])
    } else if b[0] == 32 {
        Instruction::FloatDivImmediate(b[1], b[2], le32(b[4], b[5], b[6], b[7]))
    } else if b[0] == 33 {
        Instruction::FloatMod(b[1], b[2], b[3])
    } else if b[0] == 34 {
        Instruction::FloatModImmediate(b[1], b[2], le32(b[4], b[5], b[6], b[7]))
    } else if b[0] == 35 {
        Instruction::FloatDivMod(b[1], b[2], b[3], b[4])
    } else if b[0] == 36 {
        Instruction::FloatDivModImmediate(b[1], b[2], b[3], le32(b[4], b[5], b[6], b[7]))
    } else if b[0] == 37 {
        Instruction::FloatGreaterThan(b[1], b[2], b[3])
    } else if b[0] == 38 {
        Instruction::FloatGreaterThanImmediate(b[1], b[2], le32(b[4], b[5], b[6], b[7]))
    } else if b[0] == 39 {
        Instruction::FloatLessThan(b[1], b[2], b[3])
    } else if b[0] == 40 {
        Instruction::FloatLessThanImmediate(b[1], b[2], le32(b[4], b[5], b[6], b[7]))
    } else if b[0] == 41 {
        Instruction::FloatGreaterThanOrEqual(b[1], b[2], b[3])
    } else if b[0] == 42 {
        Instruction::FloatGreaterThanOrEqualImmediate(b[1], b[2], le32(b[4], b[5], b[6], b[7]))
    } else if b[0] == 43 {
        Instruction::FloatLessThanOrEqual(b[1], b[2], b[3])
    } else if b[0] == 44 {
        Instruction::FloatLessThanOrEqualImmediate(b[1], b[2], le32(b[4], b[5], b[6], b[7]))
    } else if b[0] == 45 {
        Instruction::FloatNegate(b[1], b[2])
    } else if b[0] == 46 {
        Instruction::FloatNegateImmediate(b[1], le32(b[3], b[4], b[5], b[6]))
    } else if b[0] == 47 {
        Instruction::SignedAdd(b[1], b[2], b[3])
    } else if b[0] == 48 {
        Instruction::SignedAddImmediate(b[1], b[2], le32(b[4], b[5], b[6], b[7]))
    } else if b[0] == 49 {
        Instruction::SignedSub(b[1], b[2], b[3])
    } else if b[0] == 50 {
        Instruction::SignedSubImmediate(b[1], b[2], le32(b[4], b[5], b[6], b[7]))
    } else if b[0] == 51 {
        Instruction::SignedMul(b[1], b[2], b[3])
    } else if b[0] == 52 {
        Instruction::SignedMulImmediate(b[1], b[2], le32(b[4], b[5], b[6], b[7]))
    } else if b[0] == 53 {
        Instruction::SignedDiv(b[1], b[2], b[3])
    } else if b[0] == 54 {
        Instruction::SignedDivImmediate(b[1], b[2], le32(b[4], b[5], b[6], b[7]))
    } else if b[0] == 55 {
        Instruction::SignedMod(b[1], b[2], b[3])
    } else if b[0] == 56 {
        Instruction::SignedModImmediate(b[1], b[2], le32(b[4], b[5], b[6], b[7]))
    } else if b[0] == 57 {
        Instruction::SignedDivMod(b[1], b[2], b[3], b[4])
    } else if b[0] == 58 {
        Instruction::SignedDivModImmediate(b[1], b[2], b[3], le32(b[4], b[5], b[6], b[7]))
    } else if b[0] == 59 {
        Instruction::SignedGreaterThan(b[1], b[2], b[3])
    } else if b[0] == 60 {
        Instruction::SignedGreaterThanImmediate(b[1], b[2], le32(b[4], b[5], b[6], b[7]))
    } else if b[0] == 61 {
        Instruction::SignedLessThan(b[1], b[2], b[3])
    } else if b[0] == 62 {
        Instruction::SignedLessThanImmediate(b[1], b[2], le32(b[4], b[5], b[6], b[7]))
    } else if b[0] == 63 {
        Instruction::SignedGreaterThanOrEqual(b[1], b[2], b[3])
    } else if b[0] == 64 {
        Instruction::SignedGreaterThanOrEqualImmediate(b[1], b[2], le32(b[4], b[5], b[6], b[7]))
    } else if b[0] == 65 {
        Instruction::SignedLessThanOrEqual(b[1], b[2], b[3])
    } else if b[0] == 66 {
        Instruction::SignedLessThanOrEqualImmediate(b[1], b[2], le32(b[4], b[5], b[6], b[7]))
    } else if b[0] == 67 {
        Instruction::SignedNegate(b[1], b[2])
    } else if b[0] == 68 {
        Instruction::SignedNegateImmediate(b[1], le32(b[3], b[4], b[5], b[6]))
    } else if b[0] == 69 {
        Instruction::Not(b[1], b[2])
    } else if b[0] == 70 {
        Instruction::NotImmediate(b[1], le32(b[3], b[4], b[5], b[6]))
    } else if b[0] == 71 {
        Instruction::And(b[1], b[2], b[3])
    } else if b[0] == 72 {
        Instruction::AndImmediate(b[1], b[2], le32(b[4], b[5], b[6], b[7]))
    } else if b[0] == 73 {
        Instruction::Or(b[1], b[2], b[3])
    } else if b[0] == 74 {
        Instruction::OrImmediate(b[1], b[2], le32(b[4], b[5], b[6], b[7]))
    } else if b[0] == 75 {
        Instruction::Xor(b[1], b[2], b[3])
    } else if b[0] == 76 {
        Instruction::XorImmediate(b[1], b[2], le32(b[4], b[5], b[6], b[7]))
    } else if b[0] == 77 {
        Instruction::ShiftLeft(b[1], b[2], b[3])
    } else if b[0] == 78 {
        Instruction::ShiftLeftImmediate(b[1], b[2], le32(b[4], b[5], b[6], b[7]))
    } else if b[0] == 79 {
        Instruction::ShiftRight(b[1], b[2], b[3])
    } else if b[0] == 80 {
        Instruction::ShiftRightImmediate(b[1], b[2], le32(b[4], b[5], b[6], b[7]))
    } else if b[0] == 81 {
        Instruction::Jump(b[1])
    } else if b[0] == 82 {
        Instruction::JumpImmediate(le32(b[3], b[4], b[5], b[6]))
    } else if b[0] == 83 {
        Instruction::JumpNotZero(b[1], b[2])
    } else if b[0] == 84 {
        Instruction::JumpNotZeroImmediate(b[1], le32(b[3], b[4], b[5], b[6]))
    } else if b[0] == 85 {
        Instruction::Move(b[1], b[2])
    } else if b[0] == 86 {
        Instruction::MoveImmediate(b[1], le32(b[3], b[4], b[5], b[6]))
    } else if b[0] == 87 {
        Instruction::Push(b[1])
    } else if b[0] == 88 {
        Instruction::PushImmediate(le32(b[3], b[4], b[5], b[6]))
    } else if b[0] == 89 {
        Instruction::Pop(b[1])
    } else if b[0] == 90 {
        Instruction::Store(le32(b[1], b[2], b[3], b[4]), b[5], b[6])
    } else if b[0] == 91 {
        Instruction::Load(b[1], b[2], b[3])
    } else if b[0] == 92 {
        Instruction::Call(le32(b[3], b[4], b[5], b[6]))
    } else if b[0] == 93 {
        Instruction::Return
    } else if b[0] == 94 {
        Instruction::SystemCall
    } else {
        Instruction::Nop
    }
}

/// Reads one byte at `index`.
pub fn get_b(program: &[u8; INSTRUCTION_SIZE], index: usize) -> (r: u8)
    requires
        index < 8,
    ensures
        r == program[index as int],
{
    program[index]
}

/// Reads a little-endian 32-bit word at `index`.
pub fn get_d(program: &[u8; INSTRUCTION_SIZE], index: usize) -> (r: u32)
    requires
        index + 4 <= 8,
    ensures
        r == le32(
            program[index as int],
            program[index + 1],
            program[index + 2],
            program[index + 3],
        ),
{
    let b0 = program[index] as u32;
    let b1 = program[index + 1] as u32;
    let b2 = program[index + 2] as u32;
    let b3 = program[index + 3] as u32;
    b0 + 256 * b1 + 65536 * b2 + 16777216 * b3
}

/// Reads two bytes at `index`.
pub fn get_bb(program: &[u8; INSTRUCTION_SIZE], index: usize) -> (r: (u8, u8))
    requires
        index + 2 <= 8,
    ensures
        r.0 == program[index as int],
        r.1 == program[index + 1],
{
    (program[index], program[index + 1])
}

/// Reads three bytes at `index`.
pub fn get_bbb(program: &[u8; INSTRUCTION_SIZE], index: usize) -> (r: (u8, u8, u8))
    requires
        index + 3 <= 8,
    ensures
        r.0 == program[index as int],
        r.1 == program[index + 1],
        r.2 == program[index + 2],
{
    (program[index], program[index + 1], program[index + 2])
}

/// Reads four bytes at `index`.
pub fn get_bbbb(program: &[u8; INSTRUCTION_SIZE], index: usize) -> (r: (u8, u8, u8, u8))
    requires
        index + 4 <= 8,
    ensures
        r.0 == program[index as int],
        r.1 == program[index + 1],
        r.2 == program[index + 2],
        r.3 == program[index + 3],
{
    (program[index], program[index + 1], program[index + 2], program[index + 3])
}

/// Reads three bytes at `index` followed by a little-endian word.
pub fn get_bbbd(program: &[u8; INSTRUCTION_SIZE], index: usize) -> (r: (u8, u8, u8, u32))
    requires
        index + 7 <= 8,
    ensures
        r.0 == program[index as int],
        r.1 == program[index + 1],
        r.2 == program[index + 2],
        r.3 == le32(
            program[index + 3],
            program[index + 4],
            program[index + 5],
            program[index + 6],
        ),
{
    let v = get_d(program, index + 3);
    (program[index], program[index + 1], program[index + 2], v)
}

/// Reads a little-endian word at `index` followed by two bytes.
pub fn get_dbb(program: &[u8; INSTRUCTION_SIZE], index: usize) -> (r: (u32, u8, u8))
    requires
        index + 6 <= 8,
    ensures
        r.0 == le32(
            program[index as int],
            program[index + 1],
            program[index + 2],
            program[index + 3],
        ),
        r.1 == program[index + 4],
        r.2 == program[index + 5],
{
    let v = get_d(program, index);
    (v, program[index + 4], program[index + 5])
}

impl Instruction {
    /// Encodes this instruction as its 8-byte slot.
    pub fn to_bfo_bytes(&self) -> (r: [u8; INSTRUCTION_SIZE])
        ensures
            r@ == spec_encode(*self),
    {
        let bytes: [u8; INSTRUCTION_SIZE] = match *self {
            Instruction::Nop => [0, 0, 0, 0, 0, 0, 0, 0],
            Instruction::Add(a, b, c) => [1, a, b, c, 0, 0, 0, 0],
            Instruction::AddImmediate(a, b, v) => [2, a, b, 0, (v % 256) as u8, ((v / 256) % 256) as u8, ((v / 65536) % 256) as u8, ((v / 16777216) % 256) as u8],
            Instruction::Sub(a, b, c) => [3, a, b, c, 0, 0, 0, 0],
            Instruction::SubImmediate(a, b, v) => [4, a, b, 0, (v % 256) as u8, ((v / 256) % 256) as u8, ((v / 65536) % 256) as u8, ((v / 16777216) % 256) as u8],
            Instruction::Mul(a, b, c) => [5, a, b, c, 0, 0, 0, 0],
            Instruction::MulImmediate(a, b, v) => [6, a, b, 0, (v % 256) as u8, ((v / 256) % 256) as u8, ((v / 65536) % 256) as u8, ((v / 16777216) % 256) as u8],
            Instruction::Div(a, b, c) => [7, a, b, c, 0, 0, 0, 0],
            Instruction::DivImmediate(a, b, v) => [8, a, b, 0, (v % 256) as u8, ((v / 256) % 256) as u8, ((v / 65536) % 256) as u8, ((v / 16777216) % 256) as u8],
            Instruction::Mod(a, b, c) => [9, a, b, c, 0, 0, 0, 0],
            Instruction::ModImmediate(a, b, v) => [10, a, b, 0, (v % 256) as u8, ((v / 256) % 256) as u8, ((v / 65536) % 256) as u8, ((v / 16777216) % 256) as u8],
            Instruction::DivMod(a, b, c, d) => [11, a, b, c, d, 0, 0, 0],
            Instruction::DivModImmediate(a, b, c, v) => [12, a, b, c, (v % 256) as u8, ((v / 256) % 256) as u8, ((v / 65536) % 256) as u8, ((v / 16777216) % 256) as u8],
            Instruction::GreaterThan(a, b, c) => [13, a, b, c, 0, 0, 0, 0],
            Instruction::GreaterThanImmediate(a, b, v) => [14, a, b, 0, (v % 256) as u8, ((v / 256) % 256) as u8, ((v / 65536) % 256) as u8, ((v / 16777216) % 256) as u8],
            Instruction::LessThan(a, b, c) => [15, a, b, c, 0, 0, 0, 0],
            Instruction::LessThanImmediate(a, b, v) => [16, a, b, 0, (v % 256) as u8, ((v / 256) % 256) as u8, ((v / 65536) % 256) as u8, ((v / 16777216) % 256) as u8],
            Instruction::GreaterThanOrEqual(a, b, c) => [17, a, b, c, 0, 0, 0, 0],
            Instruction::GreaterThanOrEqualImmediate(a, b, v) => [18, a, b, 0, (v % 256) as u8, ((v / 256) % 256) as u8, ((v / 65536) % 256) as u8, ((v / 16777216) % 256) as u8],
            Instruction::LessThanOrEqual(a, b, c) => [19, a, b, c, 0, 0, 0, 0],
            Instruction::LessThanOrEqualImmediate(a, b, v) => [20, a, b, 0, (v % 256) as u8, ((v / 256) % 256) as u8, ((v / 65536) % 256) as u8, ((v / 16777216) % 256) as u8],
            Instruction::Equal(a, b, c) => [21, a, b, c, 0, 0, 0, 0],
            Instruction::EqualImmediate(a, b, v) => [22, a, b, 0, (v % 256) as u8, ((v / 256) % 256) as u8, ((v / 65536) % 256) as u8, ((v / 16777216) % 256) as u8],
            Instruction::NotEqual(a, b, c) => [23, a, b, c, 0, 0, 0, 0],
            Instruction::NotEqualImmediate(a, b, v) => [24, a, b, 0, (v % 256) as u8, ((v / 256) % 256) as u8, ((v / 65536) % 256) as u8, ((v / 16777216) % 256) as u8],
            Instruction::FloatAdd(a, b, c) => [25, a, b, c, 0, 0, 0, 0],
            Instruction::FloatAddImmediate(a, b, v) => [26, a, b, 0, (v % 256) as u8, ((v / 256) % 256) as u8, ((v / 65536) % 256) as u8, ((v / 16777216) % 256) as u8],
            Instruction::FloatSub(a, b, c) => [27, a, b, c, 0, 0, 0, 0],
            Instruction::FloatSubImmediate(a, b, v) => [28, a, b, 0, (v % 256) as u8, ((v / 256) % 256) as u8, ((v / 65536) % 256) as u8, ((v / 16777216) % 256) as u8],
            Instruction::FloatMul(a, b, c) => [29, a, b, c, 0, 0, 0, 0],
            Instruction::FloatMulImmediate(a, b, v) => [30, a, b, 0, (v % 256) as u8, ((v / 256) % 256) as u8, ((v / 65536) % 256) as u8, ((v / 16777216) % 256) as u8],
            Instruction::FloatDiv(a, b, c) => [31, a, b, c, 0, 0, 0, 0],
            Instruction::FloatDivImmediate(a, b, v) => [32, a, b, 0, (v % 256) as u8, ((v / 256) % 256) as u8, ((v / 65536) % 256) as u8, ((v / 16777216) % 256) as u8],
            Instruction::FloatMod(a, b, c) => [33, a, b, c, 0, 0, 0, 0],
            Instruction::FloatModImmediate(a, b, v) => [34, a, b, 0, (v % 256) as u8, ((v / 256) % 256) as u8, ((v / 65536) % 256) as u8, ((v / 16777216) % 256) as u8],
            Instruction::FloatDivMod(a, b, c, d) => [35, a, b, c, d, 0, 0, 0],
            Instruction::FloatDivModImmediate(a, b, c, v) => [36, a, b, c, (v % 256) as u8, ((v / 256) % 256) as u8, ((v / 65536) % 256) as u8, ((v / 16777216) % 256) as u8],
            Instruction::FloatGreaterThan(a, b, c) => [37, a, b, c, 0, 0, 0, 0],
            Instruction::FloatGreaterThanImmediate(a, b, v) => [38, a, b, 0, (v % 256) as u8, ((v / 256) % 256) as u8, ((v / 65536) % 256) as u8, ((v / 16777216) % 256) as u8],
            Instruction::FloatLessThan(a, b, c) => [39, a, b, c, 0, 0, 0, 0],
            Instruction::FloatLessThanImmediate(a, b, v) => [40, a, b, 0, (v % 256) as u8, ((v / 256) % 256) as u8, ((v / 65536) % 256) as u8, ((v / 16777216) % 256) as u8],
            Instruction::FloatGreaterThanOrEqual(a, b, c) => [41, a, b, c, 0, 0, 0, 0],
            Instruction::FloatGreaterThanOrEqualImmediate(a, b, v) => [42, a, b, 0, (v % 256) as u8, ((v / 256) % 256) as u8, ((v / 65536) % 256) as u8, ((v / 16777216) % 256) as u8],
            Instruction::FloatLessThanOrEqual(a, b, c) => [43, a, b, c, 0, 0, 0, 0],
            Instruction::FloatLessThanOrEqualImmediate(a, b, v) => [44, a, b, 0, (v % 256) as u8, ((v / 256) % 256) as u8, ((v / 65536) % 256) as u8, ((v / 16777216) % 256) as u8],
            Instruction::FloatNegate(a, b) => [45, a, b, 0, 0, 0, 0, 0],
            Instruction::FloatNegateImmediate(a, v) => [46, a, 0, (v % 256) as u8, ((v / 256) % 256) as u8, ((v / 65536) % 256) as u8, ((v / 16777216) % 256) as u8, 0],
            Instruction::SignedAdd(a, b, c) => [47, a, b, c, 0, 0, 0, 0],
            Instruction::SignedAddImmediate(a, b, v) => [48, a, b, 0, (v % 256) as u8, ((v / 256) % 256) as u8, ((v / 65536) % 256) as u8, ((v / 16777216) % 256) as u8],
            Instruction::SignedSub(a, b, c) => [49, a, b, c, 0, 0, 0, 0],
            Instruction::SignedSubImmediate(a, b, v) => [50, a, b, 0, (v % 256) as u8, ((v / 256) % 256) as u8, ((v / 65536) % 256) as u8, ((v / 16777216) % 256) as u8],
            Instruction::SignedMul(a, b, c) => [51, a, b, c, 0, 0, 0, 0],
            Instruction::SignedMulImmediate(a, b, v) => [52, a, b, 0, (v % 256) as u8, ((v / 256) % 256) as u8, ((v / 65536) % 256) as u8, ((v / 16777216) % 256) as u8],
            Instruction::SignedDiv(a, b, c) => [53, a, b, c, 0, 0, 0, 0],
            Instruction::SignedDivImmediate(a, b, v) => [54, a, b, 0, (v % 256) as u8, ((v / 256) % 256) as u8, ((v / 65536) % 256) as u8, ((v / 16777216) % 256) as u8],
            Instruction::SignedMod(a, b, c) => [55, a, b, c, 0, 0, 0, 0],
            Instruction::SignedModImmediate(a, b, v) => [56, a, b, 0, (v % 256) as u8, ((v / 256) % 256) as u8, ((v / 65536) % 256) as u8, ((v / 16777216) % 256) as u8],
            Instruction::SignedDivMod(a, b, c, d) => [57, a, b, c, d, 0, 0, 0],
            Instruction::SignedDivModImmediate(a, b, c, v) => [58, a, b, c, (v % 256) as u8, ((v / 256) % 256) as u8, ((v / 65536) % 256) as u8, ((v / 16777216) % 256) as u8],
            Instruction::SignedGreaterThan(a, b, c) => [59, a, b, c, 0, 0, 0, 0],
            Instruction::SignedGreaterThanImmediate(a, b, v) => [60, a, b, 0, (v % 256) as u8, ((v / 256) % 256) as u8, ((v / 65536) % 256) as u8, ((v / 16777216) % 256) as u8],
            Instruction::SignedLessThan(a, b, c) => [61, a, b, c, 0, 0, 0, 0],
            Instruction::SignedLessThanImmediate(a, b, v) => [62, a, b, 0, (v % 256) as u8, ((v / 256) % 256) as u8, ((v / 65536) % 256) as u8, ((v / 16777216) % 256) as u8],
            Instruction::SignedGreaterThanOrEqual(a, b, c) => [63, a, b, c, 0, 0, 0, 0],
            Instruction::SignedGreaterThanOrEqualImmediate(a, b, v) => [64, a, b, 0, (v % 256) as u8, ((v / 256) % 256) as u8, ((v / 65536) % 256) as u8, ((v / 16777216) % 256) as u8],
            Instruction::SignedLessThanOrEqual(a, b, c) => [65, a, b, c, 0, 0, 0, 0],
            Instruction::SignedLessThanOrEqualImmediate(a, b, v) => [66, a, b, 0, (v % 256) as u8, ((v / 256) % 256) as u8, ((v / 65536) % 256) as u8, ((v / 16777216) % 256) as u8],
            Instruction::SignedNegate(a, b) => [67, a, b, 0, 0, 0, 0, 0],
            Instruction::SignedNegateImmediate(a, v) => [68, a, 0, (v % 256) as u8, ((v / 256) % 256) as u8, ((v / 65536) % 256) as u8, ((v / 16777216) % 256) as u8, 0],
            Instruction::Not(a, b) => [69, a, b, 0, 0, 0, 0, 0],
            Instruction::NotImmediate(a, v) => [70, a, 0, (v % 256) as u8, ((v / 256) % 256) as u8, ((v / 65536) % 256) as u8, ((v / 16777216) % 256) as u8, 0],
            Instruction::And(a, b, c) => [71, a, b, c, 0, 0, 0, 0],
            Instruction::AndImmediate(a, b, v) => [72, a, b, 0, (v % 256) as u8, ((v / 256) % 256) as u8, ((v / 65536) % 256) as u8, ((v / 16777216) % 256) as u8],
            Instruction::Or(a, b, c) => [73, a, b, c, 0, 0, 0, 0],
            Instruction::OrImmediate(a, b, v) => [74, a, b, 0, (v % 256) as u8, ((v / 256) % 256) as u8, ((v / 65536) % 256) as u8, ((v / 16777216) % 256) as u8],
            Instruction::Xor(a, b, c) => [75, a, b, c, 0, 0, 0, 0],
            Instruction::XorImmediate(a, b, v) => [76, a, b, 0, (v % 256) as u8, ((v / 256) % 256) as u8, ((v / 65536) % 256) as u8, ((v / 16777216) % 256) as u8],
            Instruction::ShiftLeft(a, b, c) => [77, a, b, c, 0, 0, 0, 0],
            Instruction::ShiftLeftImmediate(a, b, v) => [78, a, b, 0, (v % 256) as u8, ((v / 256) % 256) as u8, ((v / 65536) % 256) as u8, ((v / 16777216) % 256) as u8],
            Instruction::ShiftRight(a, b, c) => [79, a, b, c, 0, 0, 0, 0],
            Instruction::ShiftRightImmediate(a, b, v) => [80, a, b, 0, (v % 256) as u8, ((v / 256) % 256) as u8, ((v / 65536) % 256) as u8, ((v / 16777216) % 256) as u8],
            Instruction::Jump(a) => [81, a, 0, 0, 0, 0, 0, 0],
            Instruction::JumpImmediate(v) => [82, 0, 0, (v % 256) as u8, ((v / 256) % 256) as u8, ((v / 65536) % 256) as u8, ((v / 16777216) % 256) as u8, 0],
            Instruction::JumpNotZero(a, b) => [83, a, b, 0, 0, 0, 0, 0],
            Instruction::JumpNotZeroImmediate(a, v) => [84, a, 0, (v % 256) as u8, ((v / 256) % 256) as u8, ((v / 65536) % 256) as u8, ((v / 16777216) % 256) as u8, 0],
            Instruction::Move(a, b) => [85, a, b, 0, 0, 0, 0, 0],
            Instruction::MoveImmediate(a, v) => [86, a, 0, (v % 256) as u8, ((v / 256) % 256) as u8, ((v / 65536) % 256) as u8, ((v / 16777216) % 256) as u8, 0],
            Instruction::Push(a) => [87, a, 0, 0, 0, 0, 0, 0],
            Instruction::PushImmediate(v) => [88, 0, 0, (v % 256) as u8, ((v / 256) % 256) as u8, ((v / 65536) % 256) as u8, ((v / 16777216) % 256) as u8, 0],
            Instruction::Pop(a) => [89, a, 0, 0, 0, 0, 0, 0],
            Instruction::Store(v, a, w) => [90, (v % 256) as u8, ((v / 256) % 256) as u8, ((v / 65536) % 256) as u8, ((v / 16777216) % 256) as u8, a, w, 0],
            Instruction::Load(a, b, w) => [91, a, b, w, 0, 0, 0, 0],
            Instruction::Call(v) => [92, 0, 0, (v % 256) as u8, ((v / 256) % 256) as u8, ((v / 65536) % 256) as u8, ((v / 16777216) % 256) as u8, 0],
            Instruction::Return => [93, 0, 0, 0, 0, 0, 0, 0],
            Instruction::SystemCall => [94, 0, 0, 0, 0, 0, 0, 0],        };
        proof {
            assert(bytes@ =~= spec_encode(*self));
        }
        bytes
    }

    /// Decodes an 8-byte slot whose opcode byte is a known opcode.
    pub fn from_bfo_bytes(bytes: [u8; INSTRUCTION_SIZE]) -> (r: Instruction)
        requires
            bytes[0] < 95,
        ensures
            r == spec_decode(bytes@),
    {
        match bytes[0] {
            0 => Instruction::Nop,
            1 => {
                let (a, b, c) = get_bbb(&bytes, 1);
                Instruction::Add(a, b, c)
            },
            2 => {
                let (a, b) = get_bb(&bytes, 1);
                let v = get_d(&bytes, 4);
                Instruction::AddImmediate(a, b, v)
            },
            3 => {
                let (a, b, c) = get_bbb(&bytes, 1);
                Instruction::Sub(a, b, c)
            },
            4 => {
                let (a, b) = get_bb(&bytes, 1);
                let v = get_d(&bytes, 4);
                Instruction::SubImmediate(a, b, v)
            },
            5 => {
                let (a, b, c) = get_bbb(&bytes, 1);
                Instruction::Mul(a, b, c)
            },
            6 => {
                let (a, b) = get_bb(&bytes, 1);
                let v = get_d(&bytes, 4);
                Instruction::MulImmediate(a, b, v)
            },
            7 => {
                let (a, b, c) = get_bbb(&bytes, 1);
                Instruction::Div(a, b, c)
            },
            8 => {
                let (a, b) = get_bb(&bytes, 1);
                let v = get_d(&bytes, 4);
                Instruction::DivImmediate(a, b, v)
            },
            9 => {
                let (a, b, c) = get_bbb(&bytes, 1);
                Instruction::Mod(a, b, c)
            },
            10 => {
                let (a, b) = get_bb(&bytes, 1);
                let v = get_d(&bytes, 4);
                Instruction::ModImmediate(a, b, v)
            },
            11 => {
                let (a, b, c, d) = get_bbbb(&bytes, 1);
                Instruction::DivMod(a, b, c, d)
            },
            12 => {
                let (a, b, c, v) = get_bbbd(&bytes, 1);
                Instruction::DivModImmediate(a, b, c, v)
            },
            13 => {
                let (a, b, c) = get_bbb(&bytes, 1);
                Instruction::GreaterThan(a, b, c)
            },
            14 => {
                let (a, b) = get_bb(&bytes, 1);
                let v = get_d(&bytes, 4);
                Instruction::GreaterThanImmediate(a, b, v)
            },
            15 => {
                let (a, b, c) = get_bbb(&bytes, 1);
                Instruction::LessThan(a, b, c)
            },
            16 => {
                let (a, b) = get_bb(&bytes, 1);
                let v = get_d(&bytes, 4);
                Instruction::LessThanImmediate(a, b, v)
            },
            17 => {
                let (a, b, c) = get_bbb(&bytes, 1);
                Instruction::GreaterThanOrEqual(a, b, c)
            },
            18 => {
                let (a, b) = get_bb(&bytes, 1);
                let v = get_d(&bytes, 4);
                Instruction::GreaterThanOrEqualImmediate(a, b, v)
            },
            19 => {
                let (a, b, c) = get_bbb(&bytes, 1);
                Instruction::LessThanOrEqual(a, b, c)
            },
            20 => {
                let (a, b) = get_bb(&bytes, 1);
                let v = get_d(&bytes, 4);
                Instruction::LessThanOrEqualImmediate(a, b, v)
            },
            21 => {
                let (a, b, c) = get_bbb(&bytes, 1);
                Instruction::Equal(a, b, c)
            },
            22 => {
                let (a, b) = get_bb(&bytes, 1);
                let v = get_d(&bytes, 4);
                Instruction::EqualImmediate(a, b, v)
            },
            23 => {
                let (a, b, c) = get_bbb(&bytes, 1);
                Instruction::NotEqual(a, b, c)
            },
            24 => {
                let (a, b) = get_bb(&bytes, 1);
                let v = get_d(&bytes, 4);
                Instruction::NotEqualImmediate(a, b, v)
            },
            25 => {
                let (a, b, c) = get_bbb(&bytes, 1);
                Instruction::FloatAdd(a, b, c)
            },
            26 => {
                let (a, b) = get_bb(&bytes, 1);
                let v = get_d(&bytes, 4);
                Instruction::FloatAddImmediate(a, b, v)
            },
            27 => {
                let (a, b, c) = get_bbb(&bytes, 1);
                Instruction::FloatSub(a, b, c)
            },
            28 => {
                let (a, b) = get_bb(&bytes, 1);
                let v = get_d(&bytes, 4);
                Instruction::FloatSubImmediate(a, b, v)
            },
            29 => {
                let (a, b, c) = get_bbb(&bytes, 1);
                Instruction::FloatMul(a, b, c)
            },
            30 => {
                let (a, b) = get_bb(&bytes, 1);
                let v = get_d(&bytes, 4);
                Instruction::FloatMulImmediate(a, b, v)
            },
            31 => {
                let (a, b, c) = get_bbb(&bytes, 1);
                Instruction::FloatDiv(a, b, c)
            },
            32 => {
                let (a, b) = get_bb(&bytes, 1);
                let v = get_d(&bytes, 4);
                Instruction::FloatDivImmediate(a, b, v)
            },
            33 => {
                let (a, b, c) = get_bbb(&bytes, 1);
                Instruction::FloatMod(a, b, c)
            },
            34 => {
                let (a, b) = get_bb(&bytes, 1);
                let v = get_d(&bytes, 4);
                Instruction::FloatModImmediate(a, b, v)
            },
            35 => {
                let (a, b, c, d) = get_bbbb(&bytes, 1);
                Instruction::FloatDivMod(a, b, c, d)
            },
            36 => {
                let (a, b, c, v) = get_bbbd(&bytes, 1);
                Instruction::FloatDivModImmediate(a, b, c, v)
            },
            37 => {
                let (a, b, c) = get_bbb(&bytes, 1);
                Instruction::FloatGreaterThan(a, b, c)
            },
            38 => {
                let (a, b) = get_bb(&bytes, 1);
                let v = get_d(&bytes, 4);
                Instruction::FloatGreaterThanImmediate(a, b, v)
            },
            39 => {
                let (a, b, c) = get_bbb(&bytes, 1);
                Instruction::FloatLessThan(a, b, c)
            },
            40 => {
                let (a, b) = get_bb(&bytes, 1);
                let v = get_d(&bytes, 4);
                Instruction::FloatLessThanImmediate(a, b, v)
            },
            41 => {
                let (a, b, c) = get_bbb(&bytes, 1);
                Instruction::FloatGreaterThanOrEqual(a, b, c)
            },
            42 => {
                let (a, b) = get_bb(&bytes, 1);
                let v = get_d(&bytes, 4);
                Instruction::FloatGreaterThanOrEqualImmediate(a, b, v)
            },
            43 => {
                let (a, b, c) = get_bbb(&bytes, 1);
                Instruction::FloatLessThanOrEqual(a, b, c)
            },
            44 => {
                let (a, b) = get_bb(&bytes, 1);
                let v = get_d(&bytes, 4);
                Instruction::FloatLessThanOrEqualImmediate(a, b, v)
            },
            45 => {
                let (a, b) = get_bb(&bytes, 1);
                Instruction::FloatNegate(a, b)
            },
            46 => {
                let a = get_b(&bytes, 1);
                let v = get_d(&bytes, 3);
                Instruction::FloatNegateImmediate(a, v)
            },
            47 => {
                let (a, b, c) = get_bbb(&bytes, 1);
                Instruction::SignedAdd(a, b, c)
            },
            48 => {
                let (a, b) = get_bb(&bytes, 1);
                let v = get_d(&bytes, 4);
                Instruction::SignedAddImmediate(a, b, v)
            },
            49 => {
                let (a, b, c) = get_bbb(&bytes, 1);
                Instruction::SignedSub(a, b, c)
            },
            50 => {
                let (a, b) = get_bb(&bytes, 1);
                let v = get_d(&bytes, 4);
                Instruction::SignedSubImmediate(a, b, v)
            },
            51 => {
                let (a, b, c) = get_bbb(&bytes, 1);
                Instruction::SignedMul(a, b, c)
            },
            52 => {
                let (a, b) = get_bb(&bytes, 1);
                let v = get_d(&bytes, 4);
                Instruction::SignedMulImmediate(a, b, v)
            },
            53 => {
                let (a, b, c) = get_bbb(&bytes, 1);
                Instruction::SignedDiv(a, b, c)
            },
            54 => {
                let (a, b) = get_bb(&bytes, 1);
                let v = get_d(&bytes, 4);
                Instruction::SignedDivImmediate(a, b, v)
            },
            55 => {
                let (a, b, c) = get_bbb(&bytes, 1);
                Instruction::SignedMod(a, b, c)
            },
            56 => {
                let (a, b) = get_bb(&bytes, 1);
                let v = get_d(&bytes, 4);
                Instruction::SignedModImmediate(a, b, v)
            },
            57 => {
                let (a, b, c, d) = get_bbbb(&bytes, 1);
                Instruction::SignedDivMod(a, b, c, d)
            },
            58 => {
                let (a, b, c, v) = get_bbbd(&bytes, 1);
                Instruction::SignedDivModImmediate(a, b, c, v)
            },
            59 => {
                let (a, b, c) = get_bbb(&bytes, 1);
                Instruction::SignedGreaterThan(a, b, c)
            },
            60 => {
                let (a, b) = get_bb(&bytes, 1);
                let v = get_d(&bytes, 4);
                Instruction::SignedGreaterThanImmediate(a, b, v)
            },
            61 => {
                let (a, b, c) = get_bbb(&bytes, 1);
                Instruction::SignedLessThan(a, b, c)
            },
            62 => {
                let (a, b) = get_bb(&bytes, 1);
                let v = get_d(&bytes, 4);
                Instruction::SignedLessThanImmediate(a, b, v)
            },
            63 => {
                let (a, b, c) = get_bbb(&bytes, 1);
                Instruction::SignedGreaterThanOrEqual(a, b, c)
            },
            64 => {
                let (a, b) = get_bb(&bytes, 1);
                let v = get_d(&bytes, 4);
                Instruction::SignedGreaterThanOrEqualImmediate(a, b, v)
            },
            65 => {
                let (a, b, c) = get_bbb(&bytes, 1);
                Instruction::SignedLessThanOrEqual(a, b, c)
            },
            66 => {
                let (a, b) = get_bb(&bytes, 1);
                let v = get_d(&bytes, 4);
                Instruction::SignedLessThanOrEqualImmediate(a, b, v)
            },
            67 => {
                let (a, b) = get_bb(&bytes, 1);
                Instruction::SignedNegate(a, b)
            },
            68 => {
                let a = get_b(&bytes, 1);
                let v = get_d(&bytes, 3);
                Instruction::SignedNegateImmediate(a, v)
            },
            69 => {
                let (a, b) = get_bb(&bytes, 1);
                Instruction::Not(a, b)
            },
            70 => {
                let a = get_b(&bytes, 1);
                let v = get_d(&bytes, 3);
                Instruction::NotImmediate(a, v)
            },
            71 => {
                let (a, b, c) = get_bbb(&bytes, 1);
                Instruction::And(a, b, c)
            },
            72 => {
                let (a, b) = get_bb(&bytes, 1);
                let v = get_d(&bytes, 4);
                Instruction::AndImmediate(a, b, v)
            },
            73 => {
                let (a, b, c) = get_bbb(&bytes, 1);
                Instruction::Or(a, b, c)
            },
            74 => {
                let (a, b) = get_bb(&bytes, 1);
                let v = get_d(&bytes, 4);
                Instruction::OrImmediate(a, b, v)
            },
            75 => {
                let (a, b, c) = get_bbb(&bytes, 1);
                Instruction::Xor(a, b, c)
            },
            76 => {
                let (a, b) = get_bb(&bytes, 1);
                let v = get_d(&bytes, 4);
                Instruction::XorImmediate(a, b, v)
            },
            77 => {
                let (a, b, c) = get_bbb(&bytes, 1);
                Instruction::ShiftLeft(a, b, c)
            },
            78 => {
                let (a, b) = get_bb(&bytes, 1);
                let v = get_d(&bytes, 4);
                Instruction::ShiftLeftImmediate(a, b, v)
            },
            79 => {
                let (a, b, c) = get_bbb(&bytes, 1);
                Instruction::ShiftRight(a, b, c)
            },
            80 => {
                let (a, b) = get_bb(&bytes, 1);
                let v = get_d(&bytes, 4);
                Instruction::ShiftRightImmediate(a, b, v)
            },
            81 => {
                let a = get_b(&bytes, 1);
                Instruction::Jump(a)
            },
            82 => {
                let v = get_d(&bytes, 3);
                Instruction::JumpImmediate(v)
            },
            83 => {
                let (a, b) = get_bb(&bytes, 1);
                Instruction::JumpNotZero(a, b)
            },
            84 => {
                let a = get_b(&bytes, 1);
                let v = get_d(&bytes, 3);
                Instruction::JumpNotZeroImmediate(a, v)
            },
            85 => {
                let (a, b) = get_bb(&bytes, 1);
                Instruction::Move(a, b)
            },
            86 => {
                let a = get_b(&bytes, 1);
                let v = get_d(&bytes, 3);
                Instruction::MoveImmediate(a, v)
            },
            87 => {
                let a = get_b(&bytes, 1);
                Instruction::Push(a)
            },
            88 => {
                let v = get_d(&bytes, 3);
                Instruction::PushImmediate(v)
            },
            89 => {
                let a = get_b(&bytes, 1);
                Instruction::Pop(a)
            },
            90 => {
                let (v, a, w) = get_dbb(&bytes, 1);
                Instruction::Store(v, a, w)
            },
            91 => {
                let (a, b, w) = get_bbb(&bytes, 1);
                Instruction::Load(a, b, w)
            },
            92 => {
                let v = get_d(&bytes, 3);
                Instruction::Call(v)
            },
            93 => Instruction::Return,
            94 => Instruction::SystemCall,            _ => {
                proof {
                    assert(false);
                }
                Instruction::Nop
            },
        }
    }
}

/// Decoding an encoded instruction gives the instruction back, for every
/// instruction value: the codec loses nothing.
pub proof fn lemma_decode_encode(i: Instruction)
    ensures
        spec_decode(spec_encode(i)) == i,
{
    match i {
        Instruction::AddImmediate(_, _, v) => lemma_le32_bytes(v),
        Instruction::SubImmediate(_, _, v) => lemma_le32_bytes(v),
        Instruction::MulImmediate(_, _, v) => lemma_le32_bytes(v),
        Instruction::DivImmediate(_, _, v) => lemma_le32_bytes(v),
        Instruction::ModImmediate(_, _, v) => lemma_le32_bytes(v),
        Instruction::DivModImmediate(_, _, _, v) => lemma_le32_bytes(v),
        Instruction::GreaterThanImmediate(_, _, v) => lemma_le32_bytes(v),
        Instruction::LessThanImmediate(_, _, v) => lemma_le32_bytes(v),
        Instruction::GreaterThanOrEqualImmediate(_, _, v) => lemma_le32_bytes(v),
        Instruction::LessThanOrEqualImmediate(_, _, v) => lemma_le32_bytes(v),
        Instruction::EqualImmediate(_, _, v) => lemma_le32_bytes(v),
        Instruction::NotEqualImmediate(_, _, v) => lemma_le32_bytes(v),
        Instruction::FloatAddImmediate(_, _, v) => lemma_le32_bytes(v),
        Instruction::FloatSubImmediate(_, _, v) => lemma_le32_bytes(v),
        Instruction::FloatMulImmediate(_, _, v) => lemma_le32_bytes(v),
        Instruction::FloatDivImmediate(_, _, v) => lemma_le32_bytes(v),
        Instruction::FloatModImmediate(_, _, v) => lemma_le32_bytes(v),
        Instruction::FloatDivModImmediate(_, _, _, v) => lemma_le32_bytes(v),
        Instruction::FloatGreaterThanImmediate(_, _, v) => lemma_le32_bytes(v),
        Instruction::FloatLessThanImmediate(_, _, v) => lemma_le32_bytes(v),
        Instruction::FloatGreaterThanOrEqualImmediate(_, _, v) => lemma_le32_bytes(v),
        Instruction::FloatLessThanOrEqualImmediate(_, _, v) => lemma_le32_bytes(v),
        Instruction::FloatNegateImmediate(_, v) => lemma_le32_bytes(v),
        Instruction::SignedAddImmediate(_, _, v) => lemma_le32_bytes(v),
        Instruction::SignedSubImmediate(_, _, v) => lemma_le32_bytes(v),
        Instruction::SignedMulImmediate(_, _, v) => lemma_le32_bytes(v),
        Instruction::SignedDivImmediate(_, _, v) => lemma_le32_bytes(v),
        Instruction::SignedModImmediate(_, _, v) => lemma_le32_bytes(v),
        Instruction::SignedDivModImmediate(_, _, _, v) => lemma_le32_bytes(v),
        Instruction::SignedGreaterThanImmediate(_, _, v) => lemma_le32_bytes(v),
        Instruction::SignedLessThanImmediate(_, _, v) => lemma_le32_bytes(v),
        Instruction::SignedGreaterThanOrEqualImmediate(_, _, v) => lemma_le32_bytes(v),
        Instruction::SignedLessThanOrEqualImmediate(_, _, v) => lemma_le32_bytes(v),
        Instruction::SignedNegateImmediate(_, v) => lemma_le32_bytes(v),
        Instruction::NotImmediate(_, v) => lemma_le32_bytes(v),
        Instruction::AndImmediate(_, _, v) => lemma_le32_bytes(v),
        Instruction::OrImmediate(_, _, v) => lemma_le32_bytes(v),
        Instruction::XorImmediate(_, _, v) => lemma_le32_bytes(v),
        Instruction::ShiftLeftImmediate(_, _, v) => lemma_le32_bytes(v),
        Instruction::ShiftRightImmediate(_, _, v) => lemma_le32_bytes(v),
        Instruction::JumpImmediate(v) => lemma_le32_bytes(v),
        Instruction::JumpNotZeroImmediate(_, v) => lemma_le32_bytes(v),
        Instruction::MoveImmediate(_, v) => lemma_le32_bytes(v),
        Instruction::PushImmediate(v) => lemma_le32_bytes(v),
        Instruction::Store(v, _, _) => lemma_le32_bytes(v),
        Instruction::Call(v) => lemma_le32_bytes(v),
        _ => {}    }
}

/// Encoding the instruction decoded from a slot that holds only an opcode
/// byte reproduces that slot, for every opcode: zero operand positions
/// survive the round trip byte for byte.
pub proof fn lemma_encode_decode_zero(b: u8)
    requires
        b < 95,
    ensures
        spec_encode(spec_decode(seq![b, 0u8, 0u8, 0u8, 0u8, 0u8, 0u8, 0u8]))
            == seq![b, 0u8, 0u8, 0u8, 0u8, 0u8, 0u8, 0u8],
{
    let s = seq![b, 0u8, 0u8, 0u8, 0u8, 0u8, 0u8, 0u8];
    if b == 0 {
        assert(spec_encode(spec_decode(s)) =~= s);
    }
    if b == 1 {
        assert(spec_encode(spec_decode(s)) =~= s);
    }
    if b == 2 {
        assert(spec_encode(spec_decode(s)) =~= s);
    }
    if b == 3 {
        assert(spec_encode(spec_decode(s)) =~= s);
    }
    if b == 4 {
        assert(spec_encode(spec_decode(s)) =~= s);
    }
    if b == 5 {
        assert(spec_encode(spec_decode(s)) =~= s);
    }
    if b == 6 {
        assert(spec_encode(spec_decode(s)) =~= s);
    }
    if b == 7 {
        assert(spec_encode(spec_decode(s)) =~= s);
    }
    if b == 8 {
        assert(spec_encode(spec_decode(s)) =~= s);
    }
    if b == 9 {
        assert(spec_encode(spec_decode(s)) =~= s);
    }
    if b == 10 {
        assert(spec_encode(spec_decode(s)) =~= s);
    }
    if b == 11 {
        assert(spec_encode(spec_decode(s)) =~= s);
    }
    if b == 12 {
        assert(spec_encode(spec_decode(s)) =~= s);
    }
    if b == 13 {
        assert(spec_encode(spec_decode(s)) =~= s);
    }
    if b == 14 {
        assert(spec_encode(spec_decode(s)) =~= s);
    }
    if b == 15 {
        assert(spec_encode(spec_decode(s)) =~= s);
    }
    if b == 16 {
        assert(spec_encode(spec_decode(s)) =~= s);
    }
    if b == 17 {
        assert(spec_encode(spec_decode(s)) =~= s);
    }
    if b == 18 {
        assert(spec_encode(spec_decode(s)) =~= s);
    }
    if b == 19 {
        assert(spec_encode(spec_decode(s)) =~= s);
    }
    if b == 20 {
        assert(spec_encode(spec_decode(s)) =~= s);
    }
    if b == 21 {
        assert(spec_encode(spec_decode(s)) =~= s);
    }
    if b == 22 {
        assert(spec_encode(spec_decode(s)) =~= s);
    }
    if b == 23 {
        assert(spec_encode(spec_decode(s)) =~= s);
    }
    if b == 24 {
        assert(spec_encode(spec_decode(s)) =~= s);
    }
    if b == 25 {
        assert(spec_encode(spec_decode(s)) =~= s);
    }
    if b == 26 {
        assert(spec_encode(spec_decode(s)) =~= s);
    }
    if b == 27 {
        assert(spec_encode(spec_decode(s)) =~= s);
    }
    if b == 28 {
        assert(spec_encode(spec_decode(s)) =~= s);
    }
    if b == 29 {
        assert(spec_encode(spec_decode(s)) =~= s);
    }
    if b == 30 {
        assert(spec_encode(spec_decode(s)) =~= s);
    }
    if b == 31 {
        assert(spec_encode(spec_decode(s)) =~= s);
    }
    if b == 32 {
        assert(spec_encode(spec_decode(s)) =~= s);
    }
    if b == 33 {
        assert(spec_encode(spec_decode(s)) =~= s);
    }
    if b == 34 {
        assert(spec_encode(spec_decode(s)) =~= s);
    }
    if b == 35 {
        assert(spec_encode(spec_decode(s)) =~= s);
    }
    if b == 36 {
        assert(spec_encode(spec_decode(s)) =~= s);
    }
    if b == 37 {
        assert(spec_encode(spec_decode(s)) =~= s);
    }
    if b == 38 {
        assert(spec_encode(spec_decode(s)) =~= s);
    }
    if b == 39 {
        assert(spec_encode(spec_decode(s)) =~= s);
    }
    if b == 40 {
        assert(spec_encode(spec_decode(s)) =~= s);
    }
    if b == 41 {
        assert(spec_encode(spec_decode(s)) =~= s);
    }
    if b == 42 {
        assert(spec_encode(spec_decode(s)) =~= s);
    }
    if b == 43 {
        assert(spec_encode(spec_decode(s)) =~= s);
    }
    if b == 44 {
        assert(spec_encode(spec_decode(s)) =~= s);
    }
    if b == 45 {
        assert(spec_encode(spec_decode(s)) =~= s);
    }
    if b == 46 {
        assert(spec_encode(spec_decode(s)) =~= s);
    }
    if b == 47 {
        assert(spec_encode(spec_decode(s)) =~= s);
    }
    if b == 48 {
        assert(spec_encode(spec_decode(s)) =~= s);
    }
    if b == 49 {
        assert(spec_encode(spec_decode(s)) =~= s);
    }
    if b == 50 {
        assert(spec_encode(spec_decode(s)) =~= s);
    }
    if b == 51 {
        assert(spec_encode(spec_decode(s)) =~= s);
    }
    if b == 52 {
        assert(spec_encode(spec_decode(s)) =~= s);
    }
    if b == 53 {
        assert(spec_encode(spec_decode(s)) =~= s);
    }
    if b == 54 {
        assert(spec_encode(spec_decode(s)) =~= s);
    }
    if b == 55 {
        assert(spec_encode(spec_decode(s)) =~= s);
    }
    if b == 56 {
        assert(spec_encode(spec_decode(s)) =~= s);
    }
    if b == 57 {
        assert(spec_encode(spec_decode(s)) =~= s);
    }
    if b == 58 {
        assert(spec_encode(spec_decode(s)) =~= s);
    }
    if b == 59 {
        assert(spec_encode(spec_decode(s)) =~= s);
    }
    if b == 60 {
        assert(spec_encode(spec_decode(s)) =~= s);
    }
    if b == 61 {
        assert(spec_encode(spec_decode(s)) =~= s);
    }
    if b == 62 {
        assert(spec_encode(spec_decode(s)) =~= s);
    }
    if b == 63 {
        assert(spec_encode(spec_decode(s)) =~= s);
    }
    if b == 64 {
        assert(spec_encode(spec_decode(s)) =~= s);
    }
    if b == 65 {
        assert(spec_encode(spec_decode(s)) =~= s);
    }
    if b == 66 {
        assert(spec_encode(spec_decode(s)) =~= s);
    }
    if b == 67 {
        assert(spec_encode(spec_decode(s)) =~= s);
    }
    if b == 68 {
        assert(spec_encode(spec_decode(s)) =~= s);
    }
    if b == 69 {
        assert(spec_encode(spec_decode(s)) =~= s);
    }
    if b == 70 {
        assert(spec_encode(spec_decode(s)) =~= s);
    }
    if b == 71 {
        assert(spec_encode(spec_decode(s)) =~= s);
    }
    if b == 72 {
        assert(spec_encode(spec_decode(s)) =~= s);
    }
    if b == 73 {
        assert(spec_encode(spec_decode(s)) =~= s);
    }
    if b == 74 {
        assert(spec_encode(spec_decode(s)) =~= s);
    }
    if b == 75 {
        assert(spec_encode(spec_decode(s)) =~= s);
    }
    if b == 76 {
        assert(spec_encode(spec_decode(s)) =~= s);
    }
    if b == 77 {
        assert(spec_encode(spec_decode(s)) =~= s);
    }
    if b == 78 {
        assert(spec_encode(spec_decode(s)) =~= s);
    }
    if b == 79 {
        assert(spec_encode(spec_decode(s)) =~= s);
    }
    if b == 80 {
        assert(spec_encode(spec_decode(s)) =~= s);
    }
    if b == 81 {
        assert(spec_encode(spec_decode(s)) =~= s);
    }
    if b == 82 {
        assert(spec_encode(spec_decode(s)) =~= s);
    }
    if b == 83 {
        assert(spec_encode(spec_decode(s)) =~= s);
    }
    if b == 84 {
        assert(spec_encode(spec_decode(s)) =~= s);
    }
    if b == 85 {
        assert(spec_encode(spec_decode(s)) =~= s);
    }
    if b == 86 {
        assert(spec_encode(spec_decode(s)) =~= s);
    }
    if b == 87 {
        assert(spec_encode(spec_decode(s)) =~= s);
    }
    if b == 88 {
        assert(spec_encode(spec_decode(s)) =~= s);
    }
    if b == 89 {
        assert(spec_encode(spec_decode(s)) =~= s);
    }
    if b == 90 {
        assert(spec_encode(spec_decode(s)) =~= s);
    }
    if b == 91 {
        assert(spec_encode(spec_decode(s)) =~= s);
    }
    if b == 92 {
        assert(spec_encode(spec_decode(s)) =~= s);
    }
    if b == 93 {
        assert(spec_encode(spec_decode(s)) =~= s);
    }
    if b == 94 {
        assert(spec_encode(spec_decode(s)) =~= s);
    }}


/// Every encoded slot is exactly 8 bytes.
pub proof fn lemma_encode_len(i: Instruction)
    ensures
        spec_encode(i).len() == 8,
{
}

/// Every encoded slot starts with an assigned opcode byte.
pub proof fn lemma_encode_opcode(i: Instruction)
    ensures
        spec_encode(i)[0] < 95,
{
}

} // verus!
