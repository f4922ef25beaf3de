//! The instruction set: a three-address register machine with immediate
//! variants. Every register value is a raw 32-bit word; each instruction
//! chooses its interpretation (unsigned, two's-complement signed, or
//! IEEE-754 binary32 bit pattern).
use vstd::prelude::*;

verus! {

/// Index of a register; 0 is the stack pointer, 1..=16 are general purpose.
pub type Register = u8;

/// A raw 32-bit word, the unit of every register and immediate.
pub type Bits = u32;

/// A 32-bit address into linear memory (byte-addressed) or into the
/// instruction list (addressed by instruction slot).
pub type Address = u32;

/// An 8-bit unsigned value, the unit of linear memory addressing.
pub type Byte = u8;

/// Number of general-purpose registers.
pub const GENERAL_PURPOSE_REGISTER_COUNT: usize = 16;

/// Total register count: the general-purpose registers plus the stack pointer.
pub const REGISTER_COUNT: usize = 17;

/// Size of the linear memory in bytes (1 MiB).
pub const BASE_MEMORY_SIZE: usize = 1048576;

/// Size of the value stack in 32-bit words (1 MiB of words).
pub const BASE_STACK_SIZE: usize = 262144;

/// The register that holds the stack pointer.
pub const STACK_POINTER: Register = 0;

/// Size in bytes of one encoded instruction slot.
pub const INSTRUCTION_SIZE: usize = 8;

/// Number of distinct opcodes.
pub const INSTRUCTION_COUNT: usize = 95;

/// One machine instruction. Operand order follows the mnemonic comments;
/// destinations come first. The `Immediate` variants carry a 32-bit word in
/// place of the second source register.
#[derive(Copy, Clone, Debug, PartialEq, Eq, Structural)]
pub enum Instruction {
    Nop,

    Add(Register, Register, Register),
    AddImmediate(Register, Register, Bits),
    Sub(Register, Register, Register),
    SubImmediate(Register, Register, Bits),
    Mul(Register, Register, Register),
    MulImmediate(Register, Register, Bits),
    Div(Register, Register, Register),
    DivImmediate(Register, Register, Bits),
    Mod(Register, Register, Register),
    ModImmediate(Register, Register, Bits),
    DivMod(Register, Register, Register, Register),
    DivModImmediate(Register, Register, Register, Bits),

    GreaterThan(Register, Register, Register),
    GreaterThanImmediate(Register, Register, Bits),
    LessThan(Register, Register, Register),
    LessThanImmediate(Register, Register, Bits),
    GreaterThanOrEqual(Register, Register, Register),
    GreaterThanOrEqualImmediate(Register, Register, Bits),
    LessThanOrEqual(Register, Register, Register),
    LessThanOrEqualImmediate(Register, Register, Bits),
    Equal(Register, Register, Register),
    EqualImmediate(Register, Register, Bits),
    NotEqual(Register, Register, Register),
    NotEqualImmediate(Register, Register, Bits),

    FloatAdd(Register, Register, Register),
    FloatAddImmediate(Register, Register, Bits),
    FloatSub(Register, Register, Register),
    FloatSubImmediate(Register, Register, Bits),
    FloatMul(Register, Register, Register),
    FloatMulImmediate(Register, Register, Bits),
    FloatDiv(Register, Register, Register),
    FloatDivImmediate(Register, Register, Bits),
    FloatMod(Register, Register, Register),
    FloatModImmediate(Register, Register, Bits),
    FloatDivMod(Register, Register, Register, Register),
    FloatDivModImmediate(Register, Register, Register, Bits),

    FloatGreaterThan(Register, Register, Register),
    FloatGreaterThanImmediate(Register, Register, Bits),
    FloatLessThan(Register, Register, Register),
    FloatLessThanImmediate(Register, Register, Bits),
    FloatGreaterThanOrEqual(Register, Register, Register),
    FloatGreaterThanOrEqualImmediate(Register, Register, Bits),
    FloatLessThanOrEqual(Register, Register, Register),
    FloatLessThanOrEqualImmediate(Register, Register, Bits),
    FloatNegate(Register, Register),
    FloatNegateImmediate(Register, Bits),

    SignedAdd(Register, Register, Register),
    SignedAddImmediate(Register, Register, Bits),
    SignedSub(Register, Register, Register),
    SignedSubImmediate(Register, Register, Bits),
    SignedMul(Register, Register, Register),
    SignedMulImmediate(Register, Register, Bits),
    SignedDiv(Register, Register, Register),
    SignedDivImmediate(Register, Register, Bits),
    SignedMod(Register, Register, Register),
    SignedModImmediate(Register, Register, Bits),
    SignedDivMod(Register, Register, Register, Register),
    SignedDivModImmediate(Register, Register, Register, Bits),

    SignedGreaterThan(Register, Register, Register),
    SignedGreaterThanImmediate(Register, Register, Bits),
    SignedLessThan(Register, Register, Register),
    SignedLessThanImmediate(Register, Register, Bits),
    SignedGreaterThanOrEqual(Register, Register, Register),
    SignedGreaterThanOrEqualImmediate(Register, Register, Bits),
    SignedLessThanOrEqual(Register, Register, Register),
    SignedLessThanOrEqualImmediate(Register, Register, Bits),
    SignedNegate(Register, Register),
    SignedNegateImmediate(Register, Bits),

    Not(Register, Register),
    NotImmediate(Register, Bits),
    And(Register, Register, Register),
    AndImmediate(Register, Register, Bits),
    Or(Register, Register, Register),
    OrImmediate(Register, Register, Bits),
    Xor(Register, Register, Register),
    XorImmediate(Register, Register, Bits),
    ShiftLeft(Register, Register, Register),
    ShiftLeftImmediate(Register, Register, Bits),
    ShiftRight(Register, Register, Register),
    ShiftRightImmediate(Register, Register, Bits),

    Jump(Register),
    JumpImmediate(Address),
    JumpNotZero(Register, Register),
    JumpNotZeroImmediate(Register, Address),

    Move(Register, Register),
    MoveImmediate(Register, Bits),

    Push(Register),
    PushImmediate(Bits),
    Pop(Register),

    /// Store to a direct (immediate) memory address; the third operand is the
    /// subtractive width code: 0 writes 4 bytes, 2 writes 2, 3 writes 1.
    Store(Address, Register, Byte),
    /// Load from the address held in the second register; the third operand is
    /// the subtractive width code, as for `Store`.
    Load(Register, Register, Byte),

    Call(Address),
    Return,

    SystemCall,
}

} // verus!
