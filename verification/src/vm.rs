//! The virtual machine: 17 registers of 32-bit words (register 0 is the
//! stack pointer), a preallocated value stack and byte-addressed linear
//! memory, a separate call stack of return addresses, a program counter, and
//! the loaded instruction list.
//!
//! Execution is a step relation: `vm_step` gives the mathematical meaning of
//! one instruction, and `execute_single_instruction` is proved to follow it.
//! An instruction whose result the machine cannot compute by itself - binary32
//! arithmetic, or a system call that reaches the host - parks the machine in a
//! pending state that names the outside work; `resume` takes the host's reply
//! and completes the instruction. Runtime faults (division by zero, an invalid
//! width code, stack or memory violations, and the rest of the trap taxonomy)
//! end execution with the `Trap` that names them, and leave the state as it
//! stood before the faulting instruction.
use vstd::prelude::*;
use vstd::pervasive::VecAdditionalExecFns;
use crate::isa::Instruction;
use crate::isa::Register;
use crate::isa::Bits;
use crate::isa::Byte;
use crate::isa::Address;
use crate::isa::BASE_MEMORY_SIZE;
use crate::isa::BASE_STACK_SIZE;
use crate::isa::REGISTER_COUNT;
use crate::codec::byte0;
use crate::codec::byte1;
use crate::codec::byte2;
use crate::codec::byte3;
use crate::codec::le32;
use crate::words::s32;
use crate::words::wrap32;
use crate::words::sdiv_trunc;
use crate::words::srem_trunc;
use crate::words::f32_lt;
use crate::words::f32_le;
use crate::words::f32_negate;
use crate::words::wrapping_add_bits;
use crate::words::wrapping_sub_bits;
use crate::words::wrapping_mul_bits;
use crate::words::signed_div_bits;
use crate::words::signed_rem_bits;
use crate::words::signed_lt_bits;
use crate::words::signed_negate_bits;
use crate::words::float_lt_bits;
use crate::words::float_le_bits;
use crate::words::float_negate_bits;
use crate::words::not_bits;
use crate::utf8::is_utf8;
use crate::utf8::utf8_check;

verus! {

/// A fatal runtime fault. Every trap ends execution; none is recoverable.
#[derive(Copy, Clone, Debug, PartialEq, Eq, Structural)]
pub enum Trap {
    DivisionByZero,
    InvalidWidthCode,
    InvalidSyscall,
    InvalidFileDescriptor,
    InvalidUtf8,
    CallStackUnderflow,
    StackOverflow,
    StackUnderflow,
    MemoryOutOfBounds,
    RegisterOutOfRange,
    InvalidJumpTarget,
}

/// A second operand: either a register to read or an immediate word.
#[derive(Copy, Clone, Debug, PartialEq, Eq, Structural)]
pub enum Src {
    Reg(Register),
    Imm(Bits),
}

/// The two-source operations the machine computes by itself: unsigned,
/// signed, bitwise, shifts, and the binary32 comparisons (which are exact
/// functions of the bit patterns).
#[derive(Copy, Clone, Debug, PartialEq, Eq, Structural)]
pub enum AluKind {
    AddU,
    SubU,
    MulU,
    DivU,
    ModU,
    GtU,
    LtU,
    GeU,
    LeU,
    EqU,
    NeU,
    AddS,
    SubS,
    MulS,
    DivS,
    ModS,
    GtS,
    LtS,
    GeS,
    LeS,
    GtF,
    LtF,
    GeF,
    LeF,
    AndB,
    OrB,
    XorB,
    ShlB,
    ShrB,
}

/// Binary32 arithmetic that the host computes; the machine hands over the
/// operand bit patterns and stores the bits that come back.
#[derive(Copy, Clone, Debug, PartialEq, Eq, Structural)]
pub enum FloatArithKind {
    AddF,
    SubF,
    MulF,
    DivF,
    ModF,
}

/// Single-operand operations: signed negate, binary32 negate, bitwise not.
#[derive(Copy, Clone, Debug, PartialEq, Eq, Structural)]
pub enum UnaryKind {
    NegS,
    NegF,
    NotB,
}

/// The operation class of an instruction, as the interpreter reads it.
#[derive(Copy, Clone, Debug, PartialEq, Eq, Structural)]
pub enum Decoded {
    Plain,
    Alu { kind: AluKind, dst: Register, lhs: Register, rhs: Src },
    IntDivMod { signed: bool, dst_div: Register, dst_mod: Register, lhs: Register, rhs: Src },
    FloatArith { kind: FloatArithKind, dst: Register, lhs: Register, rhs: Src },
    FloatDivModArith { dst_div: Register, dst_mod: Register, lhs: Register, rhs: Src },
    Unary { kind: UnaryKind, dst: Register, src: Src },
    JumpTo { target: Src },
    JumpNz { cond: Register, target: Src },
    MoveOp { dst: Register, src: Src },
    PushOp { src: Src },
    PopOp { dst: Register },
    StoreOp { addr: Address, src: Register, width: Byte },
    LoadOp { dst: Register, addr: Register, width: Byte },
    CallOp { target: Address },
    ReturnOp,
    SysCallOp,
}

/// Work that only the host can perform for the machine.
#[derive(Clone, Debug, PartialEq, Eq)]
pub enum HostCall {
    /// Read a line from standard input and parse it as an unsigned word.
    ReadLine,
    /// Write `bytes` (known valid UTF-8) to descriptor 0 (stdout) or 1
    /// (stderr).
    Write { fd: u32, bytes: Vec<u8> },
    /// Compute a binary32 operation on the two operand bit patterns.
    FloatBinary { op: FloatArithKind, dst: Register, lhs_bits: u32, rhs_bits: u32 },
    /// Compute binary32 quotient and remainder of the two operand patterns.
    FloatDivModBits { dst_div: Register, dst_mod: Register, lhs_bits: u32, rhs_bits: u32 },
}

/// `HostCall` at the specification level.
pub enum HostCallModel {
    ReadLine,
    Write { fd: u32, bytes: Seq<u8> },
    FloatBinary { op: FloatArithKind, dst: Register, lhs_bits: u32, rhs_bits: u32 },
    FloatDivModBits { dst_div: Register, dst_mod: Register, lhs_bits: u32, rhs_bits: u32 },
}

impl View for HostCall {
    type V = HostCallModel;

    open spec fn view(&self) -> HostCallModel {
        match self {
            HostCall::ReadLine => HostCallModel::ReadLine,
            HostCall::Write { fd, bytes } => HostCallModel::Write { fd: *fd, bytes: bytes@ },
            HostCall::FloatBinary { op, dst, lhs_bits, rhs_bits } => HostCallModel::FloatBinary {
                op: *op,
                dst: *dst,
                lhs_bits: *lhs_bits,
                rhs_bits: *rhs_bits,
            },
            HostCall::FloatDivModBits {
                dst_div,
                dst_mod,
                lhs_bits,
                rhs_bits,
            } => HostCallModel::FloatDivModBits {
                dst_div: *dst_div,
                dst_mod: *dst_mod,
                lhs_bits: *lhs_bits,
                rhs_bits: *rhs_bits,
            },
        }
    }
}

/// The host's reply to the pending host call.
#[derive(Copy, Clone, Debug, PartialEq, Eq, Structural)]
pub enum HostReply {
    /// The word read for `ReadLine`.
    Value(u32),
    /// Acknowledges a `Write`.
    WriteDone,
    /// The result pattern of a `FloatBinary`.
    FloatBits(u32),
    /// Quotient and remainder patterns of a `FloatDivModBits`.
    FloatPair(u32, u32),
}

/// How a bounded run ended.
#[derive(Copy, Clone, Debug, PartialEq, Eq, Structural)]
pub enum RunStatus {
    /// The program counter left the instruction list: normal termination.
    Halted,
    /// The machine parked on a host call; answer it with `resume`.
    AwaitingHost,
    /// A fatal fault; the state is as it stood before the faulting
    /// instruction.
    Trapped(Trap),
    /// The step bound ran out first.
    OutOfSteps,
}

/// The machine state at the specification level.
pub struct VmModel {
    pub regs: Seq<u32>,
    pub stack: Seq<u32>,
    pub mem: Seq<u8>,
    pub calls: Seq<u32>,
    pub pc: int,
    pub prog: Seq<Instruction>,
    pub pending: Option<HostCallModel>,
}

/// How the interpreter reads an instruction: its operation class and
/// operand roles.
pub open spec fn classify(i: Instruction) -> Decoded {
    match i {
        Instruction::Nop => Decoded::Plain,
        Instruction::Add(dst, lhs, rhs) => Decoded::Alu { kind: AluKind::AddU, dst, lhs, rhs: Src::Reg(rhs) },
        Instruction::AddImmediate(dst, lhs, v) => Decoded::Alu { kind: AluKind::AddU, dst, lhs, rhs: Src::Imm(v) },
        Instruction::Sub(dst, lhs, rhs) => Decoded::Alu { kind: AluKind::SubU, dst, lhs, rhs: Src::Reg(rhs) },
        Instruction::SubImmediate(dst, lhs, v) => Decoded::Alu { kind: AluKind::SubU, dst, lhs, rhs: Src::Imm(v) },
        Instruction::Mul(dst, lhs, rhs) => Decoded::Alu { kind: AluKind::MulU, dst, lhs, rhs: Src::Reg(rhs) },
        Instruction::MulImmediate(dst, lhs, v) => Decoded::Alu { kind: AluKind::MulU, dst, lhs, rhs: Src::Imm(v) },
        Instruction::Div(dst, lhs, rhs) => Decoded::Alu { kind: AluKind::DivU, dst, lhs, rhs: Src::Reg(rhs) },
        Instruction::DivImmediate(dst, lhs, v) => Decoded::Alu { kind: AluKind::DivU, dst, lhs, rhs: Src::Imm(v) },
        Instruction::Mod(dst, lhs, rhs) => Decoded::Alu { kind: AluKind::ModU, dst, lhs, rhs: Src::Reg(rhs) },
        Instruction::ModImmediate(dst, lhs, v) => Decoded::Alu { kind: AluKind::ModU, dst, lhs, rhs: Src::Imm(v) },
        Instruction::GreaterThan(dst, lhs, rhs) => Decoded::Alu { kind: AluKind::GtU, dst, lhs, rhs: Src::Reg(rhs) },
        Instruction::GreaterThanImmediate(dst, lhs, v) => Decoded::Alu { kind: AluKind::GtU, dst, lhs, rhs: Src::Imm(v) },
        Instruction::LessThan(dst, lhs, rhs) => Decoded::Alu { kind: AluKind::LtU, dst, lhs, rhs: Src::Reg(rhs) },
        Instruction::LessThanImmediate(dst, lhs, v) => Decoded::Alu { kind: AluKind::LtU, dst, lhs, rhs: Src::Imm(v) },
        Instruction::GreaterThanOrEqual(dst, lhs, rhs) => Decoded::Alu { kind: AluKind::GeU, dst, lhs, rhs: Src::Reg(rhs) },
        Instruction::GreaterThanOrEqualImmediate(dst, lhs, v) => Decoded::Alu { kind: AluKind::GeU, dst, lhs, rhs: Src::Imm(v) },
        Instruction::LessThanOrEqual(dst, lhs, rhs) => Decoded::Alu { kind: AluKind::LeU, dst, lhs, rhs: Src::Reg(rhs) },
        Instruction::LessThanOrEqualImmediate(dst, lhs, v) => Decoded::Alu { kind: AluKind::LeU, dst, lhs, rhs: Src::Imm(v) },
        Instruction::Equal(dst, lhs, rhs) => Decoded::Alu { kind: AluKind::EqU, dst, lhs, rhs: Src::Reg(rhs) },
        Instruction::EqualImmediate(dst, lhs, v) => Decoded::Alu { kind: AluKind::EqU, dst, lhs, rhs: Src::Imm(v) },
        Instruction::NotEqual(dst, lhs, rhs) => Decoded::Alu { kind: AluKind::NeU, dst, lhs, rhs: Src::Reg(rhs) },
        Instruction::NotEqualImmediate(dst, lhs, v) => Decoded::Alu { kind: AluKind::NeU, dst, lhs, rhs: Src::Imm(v) },
        Instruction::SignedAdd(dst, lhs, rhs) => Decoded::Alu { kind: AluKind::AddS, dst, lhs, rhs: Src::Reg(rhs) },
        Instruction::SignedAddImmediate(dst, lhs, v) => Decoded::Alu { kind: AluKind::AddS, dst, lhs, rhs: Src::Imm(v) },
        Instruction::SignedSub(dst, lhs, rhs) => Decoded::Alu { kind: AluKind::SubS, dst, lhs, rhs: Src::Reg(rhs) },
        Instruction::SignedSubImmediate(dst, lhs, v) => Decoded::Alu { kind: AluKind::SubS, dst, lhs, rhs: Src::Imm(v) },
        Instruction::SignedMul(dst, lhs, rhs) => Decoded::Alu { kind: AluKind::MulS, dst, lhs, rhs: Src::Reg(rhs) },
        Instruction::SignedMulImmediate(dst, lhs, v) => Decoded::Alu { kind: AluKind::MulS, dst, lhs, rhs: Src::Imm(v) },
        Instruction::SignedDiv(dst, lhs, rhs) => Decoded::Alu { kind: AluKind::DivS, dst, lhs, rhs: Src::Reg(rhs) },
        Instruction::SignedDivImmediate(dst, lhs, v) => Decoded::Alu { kind: AluKind::DivS, dst, lhs, rhs: Src::Imm(v) },
        Instruction::SignedMod(dst, lhs, rhs) => Decoded::Alu { kind: AluKind::ModS, dst, lhs, rhs: Src::Reg(rhs) },
        Instruction::SignedModImmediate(dst, lhs, v) => Decoded::Alu { kind: AluKind::ModS, dst, lhs, rhs: Src::Imm(v) },
        Instruction::SignedGreaterThan(dst, lhs, rhs) => Decoded::Alu { kind: AluKind::GtS, dst, lhs, rhs: Src::Reg(rhs) },
        Instruction::SignedGreaterThanImmediate(dst, lhs, v) => Decoded::Alu { kind: AluKind::GtS, dst, lhs, rhs: Src::Imm(v) },
        Instruction::SignedLessThan(dst, lhs, rhs) => Decoded::Alu { kind: AluKind::LtS, dst, lhs, rhs: Src::Reg(rhs) },
        Instruction::SignedLessThanImmediate(dst, lhs, v) => Decoded::Alu { kind: AluKind::LtS, dst, lhs, rhs: Src::Imm(v) },
        Instruction::SignedGreaterThanOrEqual(dst, lhs, rhs) => Decoded::Alu { kind: AluKind::GeS, dst, lhs, rhs: Src::Reg(rhs) },
        Instruction::SignedGreaterThanOrEqualImmediate(dst, lhs, v) => Decoded::Alu { kind: AluKind::GeS, dst, lhs, rhs: Src::Imm(v) },
        Instruction::SignedLessThanOrEqual(dst, lhs, rhs) => Decoded::Alu { kind: AluKind::LeS, dst, lhs, rhs: Src::Reg(rhs) },
        Instruction::SignedLessThanOrEqualImmediate(dst, lhs, v) => Decoded::Alu { kind: AluKind::LeS, dst, lhs, rhs: Src::Imm(v) },
        Instruction::FloatGreaterThan(dst, lhs, rhs) => Decoded::Alu { kind: AluKind::GtF, dst, lhs, rhs: Src::Reg(rhs) },
        Instruction::FloatGreaterThanImmediate(dst, lhs, v) => Decoded::Alu { kind: AluKind::GtF, dst, lhs, rhs: Src::Imm(v) },
        Instruction::FloatLessThan(dst, lhs, rhs) => Decoded::Alu { kind: AluKind::LtF, dst, lhs, rhs: Src::Reg(rhs) },
        Instruction::FloatLessThanImmediate(dst, lhs, v) => Decoded::Alu { kind: AluKind::LtF, dst, lhs, rhs: Src::Imm(v) },
        Instruction::FloatGreaterThanOrEqual(dst, lhs, rhs) => Decoded::Alu { kind: AluKind::GeF, dst, lhs, rhs: Src::Reg(rhs) },
        Instruction::FloatGreaterThanOrEqualImmediate(dst, lhs, v) => Decoded::Alu { kind: AluKind::GeF, dst, lhs, rhs: Src::Imm(v) },
        Instruction::FloatLessThanOrEqual(dst, lhs, rhs) => Decoded::Alu { kind: AluKind::LeF, dst, lhs, rhs: Src::Reg(rhs) },
        Instruction::FloatLessThanOrEqualImmediate(dst, lhs, v) => Decoded::Alu { kind: AluKind::LeF, dst, lhs, rhs: Src::Imm(v) },
        Instruction::And(dst, lhs, rhs) => Decoded::Alu { kind: AluKind::AndB, dst, lhs, rhs: Src::Reg(rhs) },
        Instruction::AndImmediate(dst, lhs, v) => Decoded::Alu { kind: AluKind::AndB, dst, lhs, rhs: Src::Imm(v) },
        Instruction::Or(dst, lhs, rhs) => Decoded::Alu { kind: AluKind::OrB, dst, lhs, rhs: Src::Reg(rhs) },
        Instruction::OrImmediate(dst, lhs, v) => Decoded::Alu { kind: AluKind::OrB, dst, lhs, rhs: Src::Imm(v) },
        Instruction::Xor(dst, lhs, rhs) => Decoded::Alu { kind: AluKind::XorB, dst, lhs, rhs: Src::Reg(rhs) },
        Instruction::XorImmediate(dst, lhs, v) => Decoded::Alu { kind: AluKind::XorB, dst, lhs, rhs: Src::Imm(v) },
        Instruction::ShiftLeft(dst, lhs, rhs) => Decoded::Alu { kind: AluKind::ShlB, dst, lhs, rhs: Src::Reg(rhs) },
        Instruction::ShiftLeftImmediate(dst, lhs, v) => Decoded::Alu { kind: AluKind::ShlB, dst, lhs, rhs: Src::Imm(v) },
        Instruction::ShiftRight(dst, lhs, rhs) => Decoded::Alu { kind: AluKind::ShrB, dst, lhs, rhs: Src::Reg(rhs) },
        Instruction::ShiftRightImmediate(dst, lhs, v) => Decoded::Alu { kind: AluKind::ShrB, dst, lhs, rhs: Src::Imm(v) },
        Instruction::FloatAdd(dst, lhs, rhs) => Decoded::FloatArith { kind: FloatArithKind::AddF, dst, lhs, rhs: Src::Reg(rhs) },
        Instruction::FloatAddImmediate(dst, lhs, v) => Decoded::FloatArith { kind: FloatArithKind::AddF, dst, lhs, rhs: Src::Imm(v) },
        Instruction::FloatSub(dst, lhs, rhs) => Decoded::FloatArith { kind: FloatArithKind::SubF, dst, lhs, rhs: Src::Reg(rhs) },
        Instruction::FloatSubImmediate(dst, lhs, v) => Decoded::FloatArith { kind: FloatArithKind::SubF, dst, lhs, rhs: Src::Imm(v) },
        Instruction::FloatMul(dst, lhs, rhs) => Decoded::FloatArith { kind: FloatArithKind::MulF, dst, lhs, rhs: Src::Reg(rhs) },
        Instruction::FloatMulImmediate(dst, lhs, v) => Decoded::FloatArith { kind: FloatArithKind::MulF, dst, lhs, rhs: Src::Imm(v) },
        Instruction::FloatDiv(dst, lhs, rhs) => Decoded::FloatArith { kind: FloatArithKind::DivF, dst, lhs, rhs: Src::Reg(rhs) },
        Instruction::FloatDivImmediate(dst, lhs, v) => Decoded::FloatArith { kind: FloatArithKind::DivF, dst, lhs, rhs: Src::Imm(v) },
        Instruction::FloatMod(dst, lhs, rhs) => Decoded::FloatArith { kind: FloatArithKind::ModF, dst, lhs, rhs: Src::Reg(rhs) },
        Instruction::FloatModImmediate(dst, lhs, v) => Decoded::FloatArith { kind: FloatArithKind::ModF, dst, lhs, rhs: Src::Imm(v) },
        Instruction::DivMod(dst_div, dst_mod, lhs, rhs) => Decoded::IntDivMod { signed: false, dst_div, dst_mod, lhs, rhs: Src::Reg(rhs) },
        Instruction::DivModImmediate(dst_div, dst_mod, lhs, v) => Decoded::IntDivMod { signed: false, dst_div, dst_mod, lhs, rhs: Src::Imm(v) },
        Instruction::SignedDivMod(dst_div, dst_mod, lhs, rhs) => Decoded::IntDivMod { signed: true, dst_div, dst_mod, lhs, rhs: Src::Reg(rhs) },
        Instruction::SignedDivModImmediate(dst_div, dst_mod, lhs, v) => Decoded::IntDivMod { signed: true, dst_div, dst_mod, lhs, rhs: Src::Imm(v) },
        Instruction::FloatDivMod(dst_div, dst_mod, lhs, rhs) => Decoded::FloatDivModArith { dst_div, dst_mod, lhs, rhs: Src::Reg(rhs) },
        Instruction::FloatDivModImmediate(dst_div, dst_mod, lhs, v) => Decoded::FloatDivModArith { dst_div, dst_mod, lhs, rhs: Src::Imm(v) },
        Instruction::SignedNegate(dst, src) => Decoded::Unary { kind: UnaryKind::NegS, dst, src: Src::Reg(src) },
        Instruction::SignedNegateImmediate(dst, v) => Decoded::Unary { kind: UnaryKind::NegS, dst, src: Src::Imm(v) },
        Instruction::FloatNegate(dst, src) => Decoded::Unary { kind: UnaryKind::NegF, dst, src: Src::Reg(src) },
        Instruction::FloatNegateImmediate(dst, v) => Decoded::Unary { kind: UnaryKind::NegF, dst, src: Src::Imm(v) },
        Instruction::Not(dst, src) => Decoded::Unary { kind: UnaryKind::NotB, dst, src: Src::Reg(src) },
        Instruction::NotImmediate(dst, v) => Decoded::Unary { kind: UnaryKind::NotB, dst, src: Src::Imm(v) },
        Instruction::Jump(r) => Decoded::JumpTo { target: Src::Reg(r) },
        Instruction::JumpImmediate(a) => Decoded::JumpTo { target: Src::Imm(a) },
        Instruction::JumpNotZero(cond, r) => Decoded::JumpNz { cond, target: Src::Reg(r) },
        Instruction::JumpNotZeroImmediate(cond, a) => Decoded::JumpNz { cond, target: Src::Imm(a) },
        Instruction::Move(dst, src) => Decoded::MoveOp { dst, src: Src::Reg(src) },
        Instruction::MoveImmediate(dst, v) => Decoded::MoveOp { dst, src: Src::Imm(v) },
        Instruction::Push(r) => Decoded::PushOp { src: Src::Reg(r) },
        Instruction::PushImmediate(v) => Decoded::PushOp { src: Src::Imm(v) },
        Instruction::Pop(dst) => Decoded::PopOp { dst },
        Instruction::Store(addr, src, width) => Decoded::StoreOp { addr, src, width },
        Instruction::Load(dst, addr, width) => Decoded::LoadOp { dst, addr, width },
        Instruction::Call(a) => Decoded::CallOp { target: a },
        Instruction::Return => Decoded::ReturnOp,
        Instruction::SystemCall => Decoded::SysCallOp,
    }
}

/// Computes the operation class of an instruction.
pub fn classify_instruction(i: Instruction) -> (d: Decoded)
    ensures
        d == classify(i),
{
    match i {
        Instruction::Nop => Decoded::Plain,
        Instruction::Add(dst, lhs, rhs) => Decoded::Alu { kind: AluKind::AddU, dst, lhs, rhs: Src::Reg(rhs) },
        Instruction::AddImmediate(dst, lhs, v) => Decoded::Alu { kind: AluKind::AddU, dst, lhs, rhs: Src::Imm(v) },
        Instruction::Sub(dst, lhs, rhs) => Decoded::Alu { kind: AluKind::SubU, dst, lhs, rhs: Src::Reg(rhs) },
        Instruction::SubImmediate(dst, lhs, v) => Decoded::Alu { kind: AluKind::SubU, dst, lhs, rhs: Src::Imm(v) },
        Instruction::Mul(dst, lhs, rhs) => Decoded::Alu { kind: AluKind::MulU, dst, lhs, rhs: Src::Reg(rhs) },
        Instruction::MulImmediate(dst, lhs, v) => Decoded::Alu { kind: AluKind::MulU, dst, lhs, rhs: Src::Imm(v) },
        Instruction::Div(dst, lhs, rhs) => Decoded::Alu { kind: AluKind::DivU, dst, lhs, rhs: Src::Reg(rhs) },
        Instruction::DivImmediate(dst, lhs, v) => Decoded::Alu { kind: AluKind::DivU, dst, lhs, rhs: Src::Imm(v) },
        Instruction::Mod(dst, lhs, rhs) => Decoded::Alu { kind: AluKind::ModU, dst, lhs, rhs: Src::Reg(rhs) },
        Instruction::ModImmediate(dst, lhs, v) => Decoded::Alu { kind: AluKind::ModU, dst, lhs, rhs: Src::Imm(v) },
        Instruction::GreaterThan(dst, lhs, rhs) => Decoded::Alu { kind: AluKind::GtU, dst, lhs, rhs: Src::Reg(rhs) },
        Instruction::GreaterThanImmediate(dst, lhs, v) => Decoded::Alu { kind: AluKind::GtU, dst, lhs, rhs: Src::Imm(v) },
        Instruction::LessThan(dst, lhs, rhs) => Decoded::Alu { kind: AluKind::LtU, dst, lhs, rhs: Src::Reg(rhs) },
        Instruction::LessThanImmediate(dst, lhs, v) => Decoded::Alu { kind: AluKind::LtU, dst, lhs, rhs: Src::Imm(v) },
        Instruction::GreaterThanOrEqual(dst, lhs, rhs) => Decoded::Alu { kind: AluKind::GeU, dst, lhs, rhs: Src::Reg(rhs) },
        Instruction::GreaterThanOrEqualImmediate(dst, lhs, v) => Decoded::Alu { kind: AluKind::GeU, dst, lhs, rhs: Src::Imm(v) },
        Instruction::LessThanOrEqual(dst, lhs, rhs) => Decoded::Alu { kind: AluKind::LeU, dst, lhs, rhs: Src::Reg(rhs) },
        Instruction::LessThanOrEqualImmediate(dst, lhs, v) => Decoded::Alu { kind: AluKind::LeU, dst, lhs, rhs: Src::Imm(v) },
        Instruction::Equal(dst, lhs, rhs) => Decoded::Alu { kind: AluKind::EqU, dst, lhs, rhs: Src::Reg(rhs) },
        Instruction::EqualImmediate(dst, lhs, v) => Decoded::Alu { kind: AluKind::EqU, dst, lhs, rhs: Src::Imm(v) },
        Instruction::NotEqual(dst, lhs, rhs) => Decoded::Alu { kind: AluKind::NeU, dst, lhs, rhs: Src::Reg(rhs) },
        Instruction::NotEqualImmediate(dst, lhs, v) => Decoded::Alu { kind: AluKind::NeU, dst, lhs, rhs: Src::Imm(v) },
        Instruction::SignedAdd(dst, lhs, rhs) => Decoded::Alu { kind: AluKind::AddS, dst, lhs, rhs: Src::Reg(rhs) },
        Instruction::SignedAddImmediate(dst, lhs, v) => Decoded::Alu { kind: AluKind::AddS, dst, lhs, rhs: Src::Imm(v) },
        Instruction::SignedSub(dst, lhs, rhs) => Decoded::Alu { kind: AluKind::SubS, dst, lhs, rhs: Src::Reg(rhs) },
        Instruction::SignedSubImmediate(dst, lhs, v) => Decoded::Alu { kind: AluKind::SubS, dst, lhs, rhs: Src::Imm(v) },
        Instruction::SignedMul(dst, lhs, rhs) => Decoded::Alu { kind: AluKind::MulS, dst, lhs, rhs: Src::Reg(rhs) },
        Instruction::SignedMulImmediate(dst, lhs, v) => Decoded::Alu { kind: AluKind::MulS, dst, lhs, rhs: Src::Imm(v) },
        Instruction::SignedDiv(dst, lhs, rhs) => Decoded::Alu { kind: AluKind::DivS, dst, lhs, rhs: Src::Reg(rhs) },
        Instruction::SignedDivImmediate(dst, lhs, v) => Decoded::Alu { kind: AluKind::DivS, dst, lhs, rhs: Src::Imm(v) },
        Instruction::SignedMod(dst, lhs, rhs) => Decoded::Alu { kind: AluKind::ModS, dst, lhs, rhs: Src::Reg(rhs) },
        Instruction::SignedModImmediate(dst, lhs, v) => Decoded::Alu { kind: AluKind::ModS, dst, lhs, rhs: Src::Imm(v) },
        Instruction::SignedGreaterThan(dst, lhs, rhs) => Decoded::Alu { kind: AluKind::GtS, dst, lhs, rhs: Src::Reg(rhs) },
        Instruction::SignedGreaterThanImmediate(dst, lhs, v) => Decoded::Alu { kind: AluKind::GtS, dst, lhs, rhs: Src::Imm(v) },
        Instruction::SignedLessThan(dst, lhs, rhs) => Decoded::Alu { kind: AluKind::LtS, dst, lhs, rhs: Src::Reg(rhs) },
        Instruction::SignedLessThanImmediate(dst, lhs, v) => Decoded::Alu { kind: AluKind::LtS, dst, lhs, rhs: Src::Imm(v) },
        Instruction::SignedGreaterThanOrEqual(dst, lhs, rhs) => Decoded::Alu { kind: AluKind::GeS, dst, lhs, rhs: Src::Reg(rhs) },
        Instruction::SignedGreaterThanOrEqualImmediate(dst, lhs, v) => Decoded::Alu { kind: AluKind::GeS, dst, lhs, rhs: Src::Imm(v) },
        Instruction::SignedLessThanOrEqual(dst, lhs, rhs) => Decoded::Alu { kind: AluKind::LeS, dst, lhs, rhs: Src::Reg(rhs) },
        Instruction::SignedLessThanOrEqualImmediate(dst, lhs, v) => Decoded::Alu { kind: AluKind::LeS, dst, lhs, rhs: Src::Imm(v) },
        Instruction::FloatGreaterThan(dst, lhs, rhs) => Decoded::Alu { kind: AluKind::GtF, dst, lhs, rhs: Src::Reg(rhs) },
        Instruction::FloatGreaterThanImmediate(dst, lhs, v) => Decoded::Alu { kind: AluKind::GtF, dst, lhs, rhs: Src::Imm(v) },
        Instruction::FloatLessThan(dst, lhs, rhs) => Decoded::Alu { kind: AluKind::LtF, dst, lhs, rhs: Src::Reg(rhs) },
        Instruction::FloatLessThanImmediate(dst, lhs, v) => Decoded::Alu { kind: AluKind::LtF, dst, lhs, rhs: Src::Imm(v) },
        Instruction::FloatGreaterThanOrEqual(dst, lhs, rhs) => Decoded::Alu { kind: AluKind::GeF, dst, lhs, rhs: Src::Reg(rhs) },
        Instruction::FloatGreaterThanOrEqualImmediate(dst, lhs, v) => Decoded::Alu { kind: AluKind::GeF, dst, lhs, rhs: Src::Imm(v) },
        Instruction::FloatLessThanOrEqual(dst, lhs, rhs) => Decoded::Alu { kind: AluKind::LeF, dst, lhs, rhs: Src::Reg(rhs) },
        Instruction::FloatLessThanOrEqualImmediate(dst, lhs, v) => Decoded::Alu { kind: AluKind::LeF, dst, lhs, rhs: Src::Imm(v) },
        Instruction::And(dst, lhs, rhs) => Decoded::Alu { kind: AluKind::AndB, dst, lhs, rhs: Src::Reg(rhs) },
        Instruction::AndImmediate(dst, lhs, v) => Decoded::Alu { kind: AluKind::AndB, dst, lhs, rhs: Src::Imm(v) },
        Instruction::Or(dst, lhs, rhs) => Decoded::Alu { kind: AluKind::OrB, dst, lhs, rhs: Src::Reg(rhs) },
        Instruction::OrImmediate(dst, lhs, v) => Decoded::Alu { kind: AluKind::OrB, dst, lhs, rhs: Src::Imm(v) },
        Instruction::Xor(dst, lhs, rhs) => Decoded::Alu { kind: AluKind::XorB, dst, lhs, rhs: Src::Reg(rhs) },
        Instruction::XorImmediate(dst, lhs, v) => Decoded::Alu { kind: AluKind::XorB, dst, lhs, rhs: Src::Imm(v) },
        Instruction::ShiftLeft(dst, lhs, rhs) => Decoded::Alu { kind: AluKind::ShlB, dst, lhs, rhs: Src::Reg(rhs) },
        Instruction::ShiftLeftImmediate(dst, lhs, v) => Decoded::Alu { kind: AluKind::ShlB, dst, lhs, rhs: Src::Imm(v) },
        Instruction::ShiftRight(dst, lhs, rhs) => Decoded::Alu { kind: AluKind::ShrB, dst, lhs, rhs: Src::Reg(rhs) },
        Instruction::ShiftRightImmediate(dst, lhs, v) => Decoded::Alu { kind: AluKind::ShrB, dst, lhs, rhs: Src::Imm(v) },
        Instruction::FloatAdd(dst, lhs, rhs) => Decoded::FloatArith { kind: FloatArithKind::AddF, dst, lhs, rhs: Src::Reg(rhs) },
        Instruction::FloatAddImmediate(dst, lhs, v) => Decoded::FloatArith { kind: FloatArithKind::AddF, dst, lhs, rhs: Src::Imm(v) },
        Instruction::FloatSub(dst, lhs, rhs) => Decoded::FloatArith { kind: FloatArithKind::SubF, dst, lhs, rhs: Src::Reg(rhs) },
        Instruction::FloatSubImmediate(dst, lhs, v) => Decoded::FloatArith { kind: FloatArithKind::SubF, dst, lhs, rhs: Src::Imm(v) },
        Instruction::FloatMul(dst, lhs, rhs) => Decoded::FloatArith { kind: FloatArithKind::MulF, dst, lhs, rhs: Src::Reg(rhs) },
        Instruction::FloatMulImmediate(dst, lhs, v) => Decoded::FloatArith { kind: FloatArithKind::MulF, dst, lhs, rhs: Src::Imm(v) },
        Instruction::FloatDiv(dst, lhs, rhs) => Decoded::FloatArith { kind: FloatArithKind::DivF, dst, lhs, rhs: Src::Reg(rhs) },
        Instruction::FloatDivImmediate(dst, lhs, v) => Decoded::FloatArith { kind: FloatArithKind::DivF, dst, lhs, rhs: Src::Imm(v) },
        Instruction::FloatMod(dst, lhs, rhs) => Decoded::FloatArith { kind: FloatArithKind::ModF, dst, lhs, rhs: Src::Reg(rhs) },
        Instruction::FloatModImmediate(dst, lhs, v) => Decoded::FloatArith { kind: FloatArithKind::ModF, dst, lhs, rhs: Src::Imm(v) },
        Instruction::DivMod(dst_div, dst_mod, lhs, rhs) => Decoded::IntDivMod { signed: false, dst_div, dst_mod, lhs, rhs: Src::Reg(rhs) },
        Instruction::DivModImmediate(dst_div, dst_mod, lhs, v) => Decoded::IntDivMod { signed: false, dst_div, dst_mod, lhs, rhs: Src::Imm(v) },
        Instruction::SignedDivMod(dst_div, dst_mod, lhs, rhs) => Decoded::IntDivMod { signed: true, dst_div, dst_mod, lhs, rhs: Src::Reg(rhs) },
        Instruction::SignedDivModImmediate(dst_div, dst_mod, lhs, v) => Decoded::IntDivMod { signed: true, dst_div, dst_mod, lhs, rhs: Src::Imm(v) },
        Instruction::FloatDivMod(dst_div, dst_mod, lhs, rhs) => Decoded::FloatDivModArith { dst_div, dst_mod, lhs, rhs: Src::Reg(rhs) },
        Instruction::FloatDivModImmediate(dst_div, dst_mod, lhs, v) => Decoded::FloatDivModArith { dst_div, dst_mod, lhs, rhs: Src::Imm(v) },
        Instruction::SignedNegate(dst, src) => Decoded::Unary { kind: UnaryKind::NegS, dst, src: Src::Reg(src) },
        Instruction::SignedNegateImmediate(dst, v) => Decoded::Unary { kind: UnaryKind::NegS, dst, src: Src::Imm(v) },
        Instruction::FloatNegate(dst, src) => Decoded::Unary { kind: UnaryKind::NegF, dst, src: Src::Reg(src) },
        Instruction::FloatNegateImmediate(dst, v) => Decoded::Unary { kind: UnaryKind::NegF, dst, src: Src::Imm(v) },
        Instruction::Not(dst, src) => Decoded::Unary { kind: UnaryKind::NotB, dst, src: Src::Reg(src) },
        Instruction::NotImmediate(dst, v) => Decoded::Unary { kind: UnaryKind::NotB, dst, src: Src::Imm(v) },
        Instruction::Jump(r) => Decoded::JumpTo { target: Src::Reg(r) },
        Instruction::JumpImmediate(a) => Decoded::JumpTo { target: Src::Imm(a) },
        Instruction::JumpNotZero(cond, r) => Decoded::JumpNz { cond, target: Src::Reg(r) },
        Instruction::JumpNotZeroImmediate(cond, a) => Decoded::JumpNz { cond, target: Src::Imm(a) },
        Instruction::Move(dst, src) => Decoded::MoveOp { dst, src: Src::Reg(src) },
        Instruction::MoveImmediate(dst, v) => Decoded::MoveOp { dst, src: Src::Imm(v) },
        Instruction::Push(r) => Decoded::PushOp { src: Src::Reg(r) },
        Instruction::PushImmediate(v) => Decoded::PushOp { src: Src::Imm(v) },
        Instruction::Pop(dst) => Decoded::PopOp { dst },
        Instruction::Store(addr, src, width) => Decoded::StoreOp { addr, src, width },
        Instruction::Load(dst, addr, width) => Decoded::LoadOp { dst, addr, width },
        Instruction::Call(a) => Decoded::CallOp { target: a },
        Instruction::Return => Decoded::ReturnOp,
        Instruction::SystemCall => Decoded::SysCallOp,
    }
}

impl VmModel {
    /// Structural soundness of a machine state: the fixed sizes hold, the
    /// program fits instruction addressing, and a pending float operation
    /// names destinations inside the register file.
    pub open spec fn wf(self) -> bool {
        &&& self.regs.len() == REGISTER_COUNT
        &&& self.stack.len() == BASE_STACK_SIZE
        &&& self.mem.len() == BASE_MEMORY_SIZE
        &&& self.prog.len() <= 0xFFFF_FFFF
        &&& 0 <= self.pc <= 0xFFFF_FFFF
        &&& forall|k: int| 0 <= k < self.calls.len() ==> self.calls[k] < 0xFFFF_FFFFu32
        &&& match self.pending {
            Some(HostCallModel::FloatBinary { dst, .. }) => dst < REGISTER_COUNT,
            Some(HostCallModel::FloatDivModBits { dst_div, dst_mod, .. }) => dst_div
                < REGISTER_COUNT && dst_mod < REGISTER_COUNT,
            _ => true,
        }
    }

    /// The state with one register replaced.
    pub open spec fn with_reg(self, r: Register, v: u32) -> VmModel {
        VmModel { regs: self.regs.update(r as int, v), ..self }
    }

    /// The state with the program counter moved past the current instruction.
    pub open spec fn advance(self) -> VmModel {
        VmModel { pc: self.pc + 1, ..self }
    }

    /// The stack pointer, register 0.
    pub open spec fn sp(self) -> u32 {
        self.regs[0]
    }

    /// Whether a second operand can be read: an immediate always, a register
    /// only inside the register file.
    pub open spec fn src_ok(self, s: Src) -> bool {
        match s {
            Src::Reg(r) => r < REGISTER_COUNT,
            Src::Imm(_) => true,
        }
    }

    /// The word a second operand denotes.
    pub open spec fn src_val(self, s: Src) -> u32 {
        match s {
            Src::Reg(r) => self.regs[r as int],
            Src::Imm(v) => v,
        }
    }
}

/// Whether an ALU operation traps on second operand `b`: the four integer
/// divisions trap on zero.
pub open spec fn alu_trap(kind: AluKind, b: u32) -> bool {
    match kind {
        AluKind::DivU | AluKind::ModU | AluKind::DivS | AluKind::ModS => b == 0,
        _ => false,
    }
}

/// The result word of an ALU operation on operand words `a` and `b`.
/// Unsigned and signed arithmetic wrap; comparisons produce 1 for true and 0
/// for false; shifts take the count modulo the word width.
pub open spec fn alu_value(kind: AluKind, a: u32, b: u32) -> u32
    recommends
        !alu_trap(kind, b),
{
    match kind {
        AluKind::AddU => wrap32(a + b),
        AluKind::SubU => wrap32(a - b),
        AluKind::MulU => wrap32(a * b),
        AluKind::DivU => a / b,
        AluKind::ModU => a % b,
        AluKind::GtU => if a > b { 1 } else { 0 },
        AluKind::LtU => if a < b { 1 } else { 0 },
        AluKind::GeU => if a >= b { 1 } else { 0 },
        AluKind::LeU => if a <= b { 1 } else { 0 },
        AluKind::EqU => if a == b { 1 } else { 0 },
        AluKind::NeU => if a != b { 1 } else { 0 },
        AluKind::AddS => wrap32(s32(a) + s32(b)),
        AluKind::SubS => wrap32(s32(a) - s32(b)),
        AluKind::MulS => wrap32(s32(a) * s32(b)),
        AluKind::DivS => wrap32(sdiv_trunc(s32(a), s32(b))),
        AluKind::ModS => wrap32(srem_trunc(s32(a), s32(b))),
        AluKind::GtS => if s32(a) > s32(b) { 1 } else { 0 },
        AluKind::LtS => if s32(a) < s32(b) { 1 } else { 0 },
        AluKind::GeS => if s32(a) >= s32(b) { 1 } else { 0 },
        AluKind::LeS => if s32(a) <= s32(b) { 1 } else { 0 },
        AluKind::GtF => if f32_lt(b, a) { 1 } else { 0 },
        AluKind::LtF => if f32_lt(a, b) { 1 } else { 0 },
        AluKind::GeF => if f32_le(b, a) { 1 } else { 0 },
        AluKind::LeF => if f32_le(a, b) { 1 } else { 0 },
        AluKind::AndB => a & b,
        AluKind::OrB => a | b,
        AluKind::XorB => a ^ b,
        AluKind::ShlB => a << (b % 32),
        AluKind::ShrB => a >> (b % 32),
    }
}

/// The result word of a unary operation on operand word `v`.
pub open spec fn unary_value(kind: UnaryKind, v: u32) -> u32 {
    match kind {
        UnaryKind::NegS => wrap32(-s32(v)),
        UnaryKind::NegF => f32_negate(v),
        UnaryKind::NotB => (0xFFFF_FFFFu32 - v) as u32,
    }
}

/// Bytes written by a Store of `code`: 4, 2 or 1; width code 1 and codes
/// above 3 are invalid.
pub open spec fn width_of(code: u8) -> Option<int> {
    if code == 0 {
        Some(4int)
    } else if code == 2 {
        Some(2int)
    } else if code == 3 {
        Some(1int)
    } else {
        None
    }
}

/// Memory after writing the low `n` bytes of `v` at `addr`, little-endian.
pub open spec fn mem_write(mem: Seq<u8>, addr: int, v: u32, n: int) -> Seq<u8>
    recommends
        n == 1 || n == 2 || n == 4,
        0 <= addr,
        addr + n <= mem.len(),
{
    if n == 1 {
        mem.update(addr, byte0(v))
    } else if n == 2 {
        mem.update(addr, byte0(v)).update(addr + 1, byte1(v))
    } else {
        mem.update(addr, byte0(v)).update(addr + 1, byte1(v)).update(addr + 2, byte2(v)).update(
            addr + 3,
            byte3(v),
        )
    }
}

/// The word read as `n` little-endian bytes at `addr`, zero-extended.
pub open spec fn mem_read(mem: Seq<u8>, addr: int, n: int) -> u32
    recommends
        n == 1 || n == 2 || n == 4,
        0 <= addr,
        addr + n <= mem.len(),
{
    if n == 1 {
        mem[addr] as u32
    } else if n == 2 {
        le32(mem[addr], mem[addr + 1], 0, 0)
    } else {
        le32(mem[addr], mem[addr + 1], mem[addr + 2], mem[addr + 3])
    }
}

/// The state after pushing `v`: the word goes to the slot the stack pointer
/// names and the pointer moves up; pushing with the pointer at or past the
/// stack end is a trap.
pub open spec fn push_model(m: VmModel, v: u32) -> Result<VmModel, Trap>
    recommends
        m.wf(),
{
    let sp = m.sp();
    if sp >= BASE_STACK_SIZE {
        Err(Trap::StackOverflow)
    } else {
        Ok(
            VmModel {
                stack: m.stack.update(sp as int, v),
                regs: m.regs.update(0, (sp + 1) as u32),
                ..m
            },
        )
    }
}

/// The state and word of a pop: the pointer moves down first, then the slot
/// it names is read. An empty stack underflows; a pointer past the stack end
/// is an overflow fault.
pub open spec fn pop_model(m: VmModel) -> Result<(VmModel, u32), Trap>
    recommends
        m.wf(),
{
    let sp = m.sp();
    if sp == 0 {
        Err(Trap::StackUnderflow)
    } else if sp > BASE_STACK_SIZE {
        Err(Trap::StackOverflow)
    } else {
        Ok((VmModel { regs: m.regs.update(0, (sp - 1) as u32), ..m }, m.stack[sp - 1]))
    }
}

/// The state after a system call instruction. The call number is popped from
/// the value stack: 0 parks the machine to read a word from standard input;
/// 1 pops descriptor, address and length, checks the buffer, and parks the
/// machine to write it; anything else is a trap.
pub open spec fn syscall_model(m: VmModel) -> Result<VmModel, Trap>
    recommends
        m.wf(),
{
    let sp = m.sp();
    if sp == 0 {
        Err(Trap::StackUnderflow)
    } else if sp > BASE_STACK_SIZE {
        Err(Trap::StackOverflow)
    } else {
        let n = m.stack[sp - 1];
        if n == 0 {
            Ok(
                VmModel {
                    regs: m.regs.update(0, (sp - 1) as u32),
                    pending: Some(HostCallModel::ReadLine),
                    ..m
                },
            )
        } else if n == 1 {
            if sp < 4 {
                Err(Trap::StackUnderflow)
            } else {
                let fd = m.stack[sp - 2];
                let addr = m.stack[sp - 3];
                let len = m.stack[sp - 4];
                if addr + len > BASE_MEMORY_SIZE {
                    Err(Trap::MemoryOutOfBounds)
                } else if !is_utf8(m.mem.subrange(addr as int, addr + len)) {
                    Err(Trap::InvalidUtf8)
                } else if fd > 1 {
                    Err(Trap::InvalidFileDescriptor)
                } else {
                    Ok(
                        VmModel {
                            regs: m.regs.update(0, (sp - 4) as u32),
                            pending: Some(
                                HostCallModel::Write {
                                    fd,
                                    bytes: m.mem.subrange(addr as int, addr + len),
                                },
                            ),
                            ..m
                        },
                    )
                }
            }
        } else {
            Err(Trap::InvalidSyscall)
        }
    }
}

/// The meaning of executing the instruction under the program counter: the
/// state after the step, or the trap that faults it (in which case the
/// machine keeps the state from before the instruction). Branch targets are
/// instruction indices; a taken branch to index `t` continues at `t`, every
/// other instruction continues at the next index. A step that needs the host
/// parks the machine with `pending` set and the program counter still on the
/// instruction; `vm_resume` finishes it. The two-destination divisions read
/// both sources once, before either destination is written, and write the
/// quotient first, so a shared destination register ends holding the
/// remainder.
pub open spec fn vm_step(m: VmModel) -> Result<VmModel, Trap>
    recommends
        m.wf(),
        0 <= m.pc < m.prog.len(),
        m.pending is None,
{
    match classify(m.prog[m.pc]) {
        Decoded::Plain => Ok(m.advance()),
        Decoded::Alu { kind, dst, lhs, rhs } => {
            if dst >= REGISTER_COUNT || lhs >= REGISTER_COUNT || !m.src_ok(rhs) {
                Err(Trap::RegisterOutOfRange)
            } else if alu_trap(kind, m.src_val(rhs)) {
                Err(Trap::DivisionByZero)
            } else {
                Ok(m.with_reg(dst, alu_value(kind, m.regs[lhs as int], m.src_val(rhs))).advance())
            }
        },
        Decoded::IntDivMod { signed, dst_div, dst_mod, lhs, rhs } => {
            if dst_div >= REGISTER_COUNT || dst_mod >= REGISTER_COUNT || lhs >= REGISTER_COUNT
                || !m.src_ok(rhs) {
                Err(Trap::RegisterOutOfRange)
            } else if m.src_val(rhs) == 0 {
                Err(Trap::DivisionByZero)
            } else {
                let a = m.regs[lhs as int];
                let b = m.src_val(rhs);
                let q = if signed {
                    wrap32(sdiv_trunc(s32(a), s32(b)))
                } else {
                    a / b
                };
                let r = if signed {
                    wrap32(srem_trunc(s32(a), s32(b)))
                } else {
                    a % b
                };
                Ok(m.with_reg(dst_div, q).with_reg(dst_mod, r).advance())
            }
        },
        Decoded::FloatArith { kind, dst, lhs, rhs } => {
            if dst >= REGISTER_COUNT || lhs >= REGISTER_COUNT || !m.src_ok(rhs) {
                Err(Trap::RegisterOutOfRange)
            } else {
                Ok(
                    VmModel {
                        pending: Some(
                            HostCallModel::FloatBinary {
                                op: kind,
                                dst,
                                lhs_bits: m.regs[lhs as int],
                                rhs_bits: m.src_val(rhs),
                            },
                        ),
                        ..m
                    },
                )
            }
        },
        Decoded::FloatDivModArith { dst_div, dst_mod, lhs, rhs } => {
            if dst_div >= REGISTER_COUNT || dst_mod >= REGISTER_COUNT || lhs >= REGISTER_COUNT
                || !m.src_ok(rhs) {
                Err(Trap::RegisterOutOfRange)
            } else {
                Ok(
                    VmModel {
                        pending: Some(
                            HostCallModel::FloatDivModBits {
                                dst_div,
                                dst_mod,
                                lhs_bits: m.regs[lhs as int],
                                rhs_bits: m.src_val(rhs),
                            },
                        ),
                        ..m
                    },
                )
            }
        },
        Decoded::Unary { kind, dst, src } => {
            if dst >= REGISTER_COUNT || !m.src_ok(src) {
                Err(Trap::RegisterOutOfRange)
            } else {
                Ok(m.with_reg(dst, unary_value(kind, m.src_val(src))).advance())
            }
        },
        Decoded::JumpTo { target } => {
            if !m.src_ok(target) {
                Err(Trap::RegisterOutOfRange)
            } else if m.src_val(target) == 0 {
                Err(Trap::InvalidJumpTarget)
            } else {
                Ok(VmModel { pc: m.src_val(target) as int, ..m })
            }
        },
        Decoded::JumpNz { cond, target } => {
            if cond >= REGISTER_COUNT || !m.src_ok(target) {
                Err(Trap::RegisterOutOfRange)
            } else if m.regs[cond as int] == 0 {
                Ok(m.advance())
            } else if m.src_val(target) == 0 {
                Err(Trap::InvalidJumpTarget)
            } else {
                Ok(VmModel { pc: m.src_val(target) as int, ..m })
            }
        },
        Decoded::MoveOp { dst, src } => {
            if dst >= REGISTER_COUNT || !m.src_ok(src) {
                Err(Trap::RegisterOutOfRange)
            } else {
                Ok(m.with_reg(dst, m.src_val(src)).advance())
            }
        },
        Decoded::PushOp { src } => {
            if !m.src_ok(src) {
                Err(Trap::RegisterOutOfRange)
            } else {
                match push_model(m, m.src_val(src)) {
                    Ok(m2) => Ok(m2.advance()),
                    Err(t) => Err(t),
                }
            }
        },
        Decoded::PopOp { dst } => {
            if dst >= REGISTER_COUNT {
                Err(Trap::RegisterOutOfRange)
            } else {
                match pop_model(m) {
                    Ok((m2, v)) => Ok(m2.with_reg(dst, v).advance()),
                    Err(t) => Err(t),
                }
            }
        },
        Decoded::StoreOp { addr, src, width } => {
            if src >= REGISTER_COUNT {
                Err(Trap::RegisterOutOfRange)
            } else {
                match width_of(width) {
                    None => Err(Trap::InvalidWidthCode),
                    Some(n) => {
                        if addr + n > BASE_MEMORY_SIZE {
                            Err(Trap::MemoryOutOfBounds)
                        } else {
                            Ok(
                                VmModel {
                                    mem: mem_write(m.mem, addr as int, m.regs[src as int], n),
                                    ..m
                                }.advance(),
                            )
                        }
                    },
                }
            }
        },
        Decoded::LoadOp { dst, addr, width } => {
            if dst >= REGISTER_COUNT || addr >= REGISTER_COUNT {
                Err(Trap::RegisterOutOfRange)
            } else {
                match width_of(width) {
                    None => Err(Trap::InvalidWidthCode),
                    Some(n) => {
                        let a = m.regs[addr as int];
                        if a + n > BASE_MEMORY_SIZE {
                            Err(Trap::MemoryOutOfBounds)
                        } else {
                            Ok(m.with_reg(dst, mem_read(m.mem, a as int, n)).advance())
                        }
                    },
                }
            }
        },
        Decoded::CallOp { target } => {
            if target == 0 {
                Err(Trap::InvalidJumpTarget)
            } else {
                Ok(VmModel { calls: m.calls.push(m.pc as u32), pc: target as int, ..m })
            }
        },
        Decoded::ReturnOp => {
            if m.calls.len() == 0 {
                Err(Trap::CallStackUnderflow)
            } else {
                Ok(VmModel { calls: m.calls.drop_last(), pc: m.calls.last() + 1, ..m })
            }
        },
        Decoded::SysCallOp => syscall_model(m),
    }
}

/// Whether a reply answers the pending host call.
pub open spec fn reply_matches(p: Option<HostCallModel>, r: HostReply) -> bool {
    match p {
        Some(HostCallModel::ReadLine) => r is Value,
        Some(HostCallModel::Write { .. }) => r is WriteDone,
        Some(HostCallModel::FloatBinary { .. }) => r is FloatBits,
        Some(HostCallModel::FloatDivModBits { .. }) => r is FloatPair,
        None => false,
    }
}

/// The state after the host's reply completes the parked instruction: the
/// reply's words land where the instruction put its destination, the pending
/// mark clears, and the program counter moves past the instruction.
pub open spec fn vm_resume(m: VmModel, r: HostReply) -> Result<VmModel, Trap>
    recommends
        m.wf(),
        reply_matches(m.pending, r),
{
    let cleared = VmModel { pending: None, ..m };
    match (m.pending, r) {
        (Some(HostCallModel::ReadLine), HostReply::Value(v)) => match push_model(cleared, v) {
            Ok(m2) => Ok(m2.advance()),
            Err(t) => Err(t),
        },
        (Some(HostCallModel::Write { .. }), HostReply::WriteDone) => Ok(cleared.advance()),
        (
            Some(HostCallModel::FloatBinary { dst, .. }),
            HostReply::FloatBits(b),
        ) => Ok(cleared.with_reg(dst, b).advance()),
        (
            Some(HostCallModel::FloatDivModBits { dst_div, dst_mod, .. }),
            HostReply::FloatPair(q, rr),
        ) => Ok(cleared.with_reg(dst_div, q).with_reg(dst_mod, rr).advance()),
        _ => Err(Trap::InvalidSyscall),
    }
}

/// A bounded run of the dispatch loop: step while the program counter is
/// inside the instruction list, stopping at a trap, at a parked host call,
/// or when `fuel` steps have run.
pub open spec fn vm_run(m: VmModel, fuel: nat) -> (VmModel, RunStatus)
    recommends
        m.wf(),
        m.pending is None,
    decreases fuel,
{
    if m.pc >= m.prog.len() {
        (m, RunStatus::Halted)
    } else if fuel == 0 {
        (m, RunStatus::OutOfSteps)
    } else {
        match vm_step(m) {
            Err(t) => (m, RunStatus::Trapped(t)),
            Ok(m2) => if m2.pending is Some {
                (m2, RunStatus::AwaitingHost)
            } else {
                vm_run(m2, (fuel - 1) as nat)
            },
        }
    }
}


/// The machine state a fresh machine starts in: zeroed registers, stack and
/// memory, an empty call stack, and a single harmless instruction loaded.
pub open spec fn initial_model() -> VmModel {
    VmModel {
        regs: Seq::new(REGISTER_COUNT as nat, |i: int| 0u32),
        stack: Seq::new(BASE_STACK_SIZE as nat, |i: int| 0u32),
        mem: Seq::new(BASE_MEMORY_SIZE as nat, |i: int| 0u8),
        calls: Seq::empty(),
        pc: 0,
        prog: seq![Instruction::Nop],
        pending: None,
    }
}

/// Memory after splicing `bytes` in at `addr`.
pub open spec fn write_bytes(mem: Seq<u8>, addr: int, bytes: Seq<u8>) -> Seq<u8>
    recommends
        0 <= addr,
        addr + bytes.len() <= mem.len(),
{
    Seq::new(
        mem.len(),
        |i: int|
            if addr <= i < addr + bytes.len() {
                bytes[i - addr]
            } else {
                mem[i]
            },
    )
}

/// A vector of `n` zero words.
fn zero_words(n: usize) -> (r: Vec<u32>)
    ensures
        r@ == Seq::new(n as nat, |i: int| 0u32),
{
    let mut r: Vec<u32> = Vec::new();
    let mut i: usize = 0;
    while i < n
        invariant
            i <= n,
            r@.len() == i,
            forall|j: int| 0 <= j < i ==> r@[j] == 0u32,
        decreases n - i,
    {
        r.push(0);
        i = i + 1;
    }
    proof {
        assert(r@ =~= Seq::new(n as nat, |i: int| 0u32));
    }
    r
}

/// A vector of `n` zero bytes.
fn zero_bytes(n: usize) -> (r: Vec<u8>)
    ensures
        r@ == Seq::new(n as nat, |i: int| 0u8),
{
    let mut r: Vec<u8> = Vec::new();
    let mut i: usize = 0;
    while i < n
        invariant
            i <= n,
            r@.len() == i,
            forall|j: int| 0 <= j < i ==> r@[j] == 0u8,
        decreases n - i,
    {
        r.push(0);
        i = i + 1;
    }
    proof {
        assert(r@ =~= Seq::new(n as nat, |i: int| 0u8));
    }
    r
}

/// A copy of `len` bytes of memory starting at `addr`.
pub(crate) fn copy_mem(mem: &Vec<u8>, addr: usize, len: usize) -> (r: Vec<u8>)
    requires
        addr + len <= mem@.len(),
    ensures
        r@ == mem@.subrange(addr as int, addr + len),
{
    let total = mem.len();
    let mut r: Vec<u8> = Vec::new();
    let mut k: usize = 0;
    while k < len
        invariant
            k <= len,
            addr + len <= total,
            total == mem@.len(),
            r@ == mem@.subrange(addr as int, addr + k),
        decreases len - k,
    {
        r.push(mem[addr + k]);
        proof {
            assert(r@ =~= mem@.subrange(addr as int, addr + k + 1));
        }
        k = k + 1;
    }
    r
}

/// Splices `value` into `mem` at `addr`.
fn splice_bytes(mem: &mut Vec<u8>, addr: usize, value: &[u8])
    requires
        addr + value@.len() <= old(mem)@.len(),
    ensures
        final(mem)@ == write_bytes(old(mem)@, addr as int, value@),
{
    let n = value.len();
    let total = mem.len();
    let mut k: usize = 0;
    while k < n
        invariant
            k <= n,
            n == value@.len(),
            addr + n <= total,
            total == mem@.len(),
            mem@.len() == old(mem)@.len(),
            mem@ == write_bytes(old(mem)@, addr as int, value@.subrange(0, k as int)),
        decreases n - k,
    {
        mem.set(addr + k, value[k]);
        proof {
            assert(mem@ =~= write_bytes(old(mem)@, addr as int, value@.subrange(0, k + 1)));
        }
        k = k + 1;
    }
    proof {
        assert(value@.subrange(0, n as int) =~= value@);
    }
}

/// Whether an ALU operation traps on second operand `b`.
fn alu_trap_exec(kind: AluKind, b: u32) -> (r: bool)
    ensures
        r == alu_trap(kind, b),
{
    match kind {
        AluKind::DivU | AluKind::ModU | AluKind::DivS | AluKind::ModS => b == 0,
        _ => false,
    }
}

/// Computes an ALU operation on operand words.
fn alu_exec(kind: AluKind, a: u32, b: u32) -> (r: u32)
    requires
        !alu_trap(kind, b),
    ensures
        r == alu_value(kind, a, b),
{
    match kind {
        AluKind::AddU => wrapping_add_bits(a, b),
        AluKind::SubU => wrapping_sub_bits(a, b),
        AluKind::MulU => wrapping_mul_bits(a, b),
        AluKind::DivU => a / b,
        AluKind::ModU => a % b,
        AluKind::GtU => if a > b { 1 } else { 0 },
        AluKind::LtU => if a < b { 1 } else { 0 },
        AluKind::GeU => if a >= b { 1 } else { 0 },
        AluKind::LeU => if a <= b { 1 } else { 0 },
        AluKind::EqU => if a == b { 1 } else { 0 },
        AluKind::NeU => if a != b { 1 } else { 0 },
        AluKind::AddS => wrapping_add_bits(a, b),
        AluKind::SubS => wrapping_sub_bits(a, b),
        AluKind::MulS => wrapping_mul_bits(a, b),
        AluKind::DivS => signed_div_bits(a, b),
        AluKind::ModS => signed_rem_bits(a, b),
        AluKind::GtS => if signed_lt_bits(b, a) { 1 } else { 0 },
        AluKind::LtS => if signed_lt_bits(a, b) { 1 } else { 0 },
        AluKind::GeS => if signed_lt_bits(a, b) { 0 } else { 1 },
        AluKind::LeS => if signed_lt_bits(b, a) { 0 } else { 1 },
        AluKind::GtF => if float_lt_bits(b, a) { 1 } else { 0 },
        AluKind::LtF => if float_lt_bits(a, b) { 1 } else { 0 },
        AluKind::GeF => if float_le_bits(b, a) { 1 } else { 0 },
        AluKind::LeF => if float_le_bits(a, b) { 1 } else { 0 },
        AluKind::AndB => a & b,
        AluKind::OrB => a | b,
        AluKind::XorB => a ^ b,
        AluKind::ShlB => a.wrapping_shl(b),
        AluKind::ShrB => a.wrapping_shr(b),
    }
}

/// Computes a unary operation on an operand word.
fn unary_exec(kind: UnaryKind, v: u32) -> (r: u32)
    ensures
        r == unary_value(kind, v),
{
    match kind {
        UnaryKind::NegS => signed_negate_bits(v),
        UnaryKind::NegF => float_negate_bits(v),
        UnaryKind::NotB => not_bits(v),
    }
}

/// The number of bytes a width code selects, if it is valid.
fn width_bytes(code: u8) -> (r: Option<usize>)
    ensures
        (match r {
            Some(n) => width_of(code) == Some(n as int),
            None => width_of(code) is None,
        }),
{
    if code == 0 {
        Some(4)
    } else if code == 2 {
        Some(2)
    } else if code == 3 {
        Some(1)
    } else {
        None
    }
}

/// The running machine. Register 0 is the stack pointer; `pending` parks an
/// instruction that waits on the host.
#[derive(Debug)]
pub struct VirtualMachine {
    pub registers: Vec<Bits>,
    pub stack: Vec<Bits>,
    pub memory: Vec<Byte>,
    pub call_stack: Vec<Address>,
    pub program_counter: usize,
    pub instruction_list: Vec<Instruction>,
    pub pending: Option<HostCall>,
}

impl View for VirtualMachine {
    type V = VmModel;

    open spec fn view(&self) -> VmModel {
        VmModel {
            regs: self.registers@,
            stack: self.stack@,
            mem: self.memory@,
            calls: self.call_stack@,
            pc: self.program_counter as int,
            prog: self.instruction_list@,
            pending: match self.pending {
                Some(h) => Some(h@),
                None => None,
            },
        }
    }
}

impl VirtualMachine {
    /// Structural soundness of the machine.
    pub open spec fn wf(&self) -> bool {
        self@.wf()
    }

    /// A fresh machine: zeroed registers, stack and memory, an empty call
    /// stack, the program counter at 0, and a single Nop loaded so that
    /// address 0 is harmless.
    pub fn new() -> (r: VirtualMachine)
        ensures
            r.wf(),
            r@ == initial_model(),
    {
        let mut prog: Vec<Instruction> = Vec::new();
        prog.push(Instruction::Nop);
        let r = VirtualMachine {
            registers: zero_words(REGISTER_COUNT),
            stack: zero_words(BASE_STACK_SIZE),
            memory: zero_bytes(BASE_MEMORY_SIZE),
            call_stack: Vec::new(),
            program_counter: 0,
            instruction_list: prog,
            pending: None,
        };
        proof {
            assert(r@.prog =~= initial_model().prog);
            assert(r@.calls =~= initial_model().calls);
        }
        r
    }

    /// Replaces the loaded program with `instruction_list`, a harmless Nop
    /// prepended so that label index 1 names the first instruction given.
    pub fn load_program(&mut self, instruction_list: Vec<Instruction>)
        requires
            old(self).wf(),
            instruction_list@.len() < 0xFFFF_FFFF,
        ensures
            final(self).wf(),
            final(self)@ == (VmModel {
                prog: seq![Instruction::Nop] + instruction_list@,
                ..old(self)@
            }),
    {
        let mut prog: Vec<Instruction> = Vec::new();
        prog.push(Instruction::Nop);
        proof {
            assert(prog@ =~= seq![Instruction::Nop] + instruction_list@.subrange(0, 0));
        }
        let n = instruction_list.len();
        let mut i: usize = 0;
        while i < n
            invariant
                i <= n,
                n == instruction_list@.len(),
                prog@ == seq![Instruction::Nop] + instruction_list@.subrange(0, i as int),
            decreases n - i,
        {
            prog.push(instruction_list[i]);
            proof {
                assert(prog@ =~= seq![Instruction::Nop] + instruction_list@.subrange(0, i + 1));
            }
            i = i + 1;
        }
        proof {
            assert(instruction_list@.subrange(0, n as int) =~= instruction_list@);
        }
        self.instruction_list = prog;
    }

    /// Pops the top of the value stack: the stack pointer moves down first,
    /// then the slot it names is read.
    pub fn pop_stack(&mut self) -> (r: Result<Bits, Trap>)
        requires
            old(self).wf(),
        ensures
            final(self).wf(),
            (match pop_model(old(self)@) {
                Ok((m2, v)) => r == Ok::<Bits, Trap>(v) && final(self)@ == m2,
                Err(t) => r == Err::<Bits, Trap>(t) && final(self)@ == old(self)@,
            }),
    {
        let sp = self.registers[0];
        if sp == 0 {
            Err(Trap::StackUnderflow)
        } else if sp > BASE_STACK_SIZE as u32 {
            Err(Trap::StackOverflow)
        } else {
            self.registers.set(0, sp - 1);
            Ok(self.stack[(sp - 1) as usize])
        }
    }

    /// Pushes a word: it goes to the slot the stack pointer names and the
    /// pointer moves up.
    pub fn push_stack(&mut self, value: Bits) -> (r: Result<(), Trap>)
        requires
            old(self).wf(),
        ensures
            final(self).wf(),
            (match push_model(old(self)@, value) {
                Ok(m2) => r == Ok::<(), Trap>(()) && final(self)@ == m2,
                Err(t) => r == Err::<(), Trap>(t) && final(self)@ == old(self)@,
            }),
    {
        let sp = self.registers[0];
        if sp >= BASE_STACK_SIZE as u32 {
            Err(Trap::StackOverflow)
        } else {
            self.stack.set(sp as usize, value);
            self.registers.set(0, sp + 1);
            Ok(())
        }
    }

    /// Writes the low bytes of `value` at `address`, as many as the width
    /// code selects, little-endian.
    fn store(&mut self, address: Address, value: Bits, size: u8) -> (r: Result<(), Trap>)
        requires
            old(self).wf(),
        ensures
            final(self).wf(),
            (match width_of(size) {
                None => r == Err::<(), Trap>(Trap::InvalidWidthCode) && final(self)@ == old(
                    self,
                )@,
                Some(n) => if address + n > BASE_MEMORY_SIZE {
                    r == Err::<(), Trap>(Trap::MemoryOutOfBounds) && final(self)@ == old(self)@
                } else {
                    r == Ok::<(), Trap>(()) && final(self)@ == (VmModel {
                        mem: mem_write(old(self)@.mem, address as int, value, n),
                        ..old(self)@
                    })
                },
            }),
    {
        match width_bytes(size) {
            None => Err(Trap::InvalidWidthCode),
            Some(n) => {
                if n > self.memory.len() || address as usize > self.memory.len() - n {
                    return Err(Trap::MemoryOutOfBounds);
                }
                let a = address as usize;
                if n == 4 {
                    self.memory.set(a, (value % 256) as u8);
                    self.memory.set(a + 1, ((value / 256) % 256) as u8);
                    self.memory.set(a + 2, ((value / 65536) % 256) as u8);
                    self.memory.set(a + 3, ((value / 16777216) % 256) as u8);
                } else if n == 2 {
                    self.memory.set(a, (value % 256) as u8);
                    self.memory.set(a + 1, ((value / 256) % 256) as u8);
                } else {
                    self.memory.set(a, (value % 256) as u8);
                }
                Ok(())
            },
        }
    }

    /// Reads as many bytes at `address` as the width code selects,
    /// little-endian, zero-extended to a word.
    fn load(&self, address: Address, size: u8) -> (r: Result<Bits, Trap>)
        requires
            self.wf(),
        ensures
            (match width_of(size) {
                None => r == Err::<Bits, Trap>(Trap::InvalidWidthCode),
                Some(n) => if address + n > BASE_MEMORY_SIZE {
                    r == Err::<Bits, Trap>(Trap::MemoryOutOfBounds)
                } else {
                    r == Ok::<Bits, Trap>(mem_read(self@.mem, address as int, n))
                },
            }),
    {
        match width_bytes(size) {
            None => Err(Trap::InvalidWidthCode),
            Some(n) => {
                if n > self.memory.len() || address as usize > self.memory.len() - n {
                    return Err(Trap::MemoryOutOfBounds);
                }
                let a = address as usize;
                if n == 4 {
                    let b0 = self.memory[a] as u32;
                    let b1 = self.memory[a + 1] as u32;
                    let b2 = self.memory[a + 2] as u32;
                    let b3 = self.memory[a + 3] as u32;
                    Ok(b0 + 256 * b1 + 65536 * b2 + 16777216 * b3)
                } else if n == 2 {
                    let b0 = self.memory[a] as u32;
                    let b1 = self.memory[a + 1] as u32;
                    Ok(b0 + 256 * b1)
                } else {
                    Ok(self.memory[a] as u32)
                }
            },
        }
    }

    /// Writes a byte string into memory at `address`, as the loader does for
    /// each string-table entry.
    pub fn store_string(&mut self, address: Address, value: &[u8]) -> (r: Result<(), Trap>)
        requires
            old(self).wf(),
        ensures
            final(self).wf(),
            (if address + value@.len() > BASE_MEMORY_SIZE {
                r == Err::<(), Trap>(Trap::MemoryOutOfBounds) && final(self)@ == old(self)@
            } else {
                r == Ok::<(), Trap>(()) && final(self)@ == (VmModel {
                    mem: write_bytes(old(self)@.mem, address as int, value@),
                    ..old(self)@
                })
            }),
    {
        if value.len() > self.memory.len() || address as usize > self.memory.len() - value.len() {
            return Err(Trap::MemoryOutOfBounds);
        }
        splice_bytes(&mut self.memory, address as usize, value);
        Ok(())
    }
}

impl VirtualMachine {
    /// Executes the instruction under the program counter: one step of
    /// `vm_step`. Branch targets are instruction indices; a taken branch to
    /// index `t` continues there, every other instruction continues at the
    /// next index. On a trap the machine is left as it stood; on an
    /// instruction that needs the host the machine parks with `pending` set
    /// and waits for `resume`.
    #[verifier::rlimit(100)]
    pub fn execute_single_instruction(&mut self) -> (r: Result<(), Trap>)
        requires
            old(self).wf(),
            old(self)@.pending is None,
            old(self).program_counter < old(self).instruction_list.len(),
        ensures
            final(self).wf(),
            (match vm_step(old(self)@) {
                Ok(m2) => r == Ok::<(), Trap>(()) && final(self)@ == m2,
                Err(t) => r == Err::<(), Trap>(t) && final(self)@ == old(self)@,
            }),
    {
        let i = self.instruction_list[self.program_counter];
        match classify_instruction(i) {
            Decoded::Plain => {
                self.program_counter = self.program_counter + 1;
                Ok(())
            },
            Decoded::Alu { kind, dst, lhs, rhs } => {
                if dst as usize >= REGISTER_COUNT || lhs as usize >= REGISTER_COUNT
                    || !self.src_ok_exec(rhs) {
                    return Err(Trap::RegisterOutOfRange);
                }
                let b = self.src_val_exec(rhs);
                if alu_trap_exec(kind, b) {
                    return Err(Trap::DivisionByZero);
                }
                let a = self.registers[lhs as usize];
                let v = alu_exec(kind, a, b);
                self.registers.set(dst as usize, v);
                self.program_counter = self.program_counter + 1;
                Ok(())
            },
            Decoded::IntDivMod { signed, dst_div, dst_mod, lhs, rhs } => {
                if dst_div as usize >= REGISTER_COUNT || dst_mod as usize >= REGISTER_COUNT
                    || lhs as usize >= REGISTER_COUNT || !self.src_ok_exec(rhs) {
                    return Err(Trap::RegisterOutOfRange);
                }
                let b = self.src_val_exec(rhs);
                if b == 0 {
                    return Err(Trap::DivisionByZero);
                }
                let a = self.registers[lhs as usize];
                let q = if signed {
                    signed_div_bits(a, b)
                } else {
                    a / b
                };
                let m = if signed {
                    signed_rem_bits(a, b)
                } else {
                    a % b
                };
                self.registers.set(dst_div as usize, q);
                self.registers.set(dst_mod as usize, m);
                self.program_counter = self.program_counter + 1;
                Ok(())
            },
            Decoded::FloatArith { kind, dst, lhs, rhs } => {
                if dst as usize >= REGISTER_COUNT || lhs as usize >= REGISTER_COUNT
                    || !self.src_ok_exec(rhs) {
                    return Err(Trap::RegisterOutOfRange);
                }
                let b = self.src_val_exec(rhs);
                let a = self.registers[lhs as usize];
                self.pending = Some(HostCall::FloatBinary { op: kind, dst, lhs_bits: a, rhs_bits: b });
                Ok(())
            },
            Decoded::FloatDivModArith { dst_div, dst_mod, lhs, rhs } => {
                if dst_div as usize >= REGISTER_COUNT || dst_mod as usize >= REGISTER_COUNT
                    || lhs as usize >= REGISTER_COUNT || !self.src_ok_exec(rhs) {
                    return Err(Trap::RegisterOutOfRange);
                }
                let b = self.src_val_exec(rhs);
                let a = self.registers[lhs as usize];
                self.pending = Some(
                    HostCall::FloatDivModBits { dst_div, dst_mod, lhs_bits: a, rhs_bits: b },
                );
                Ok(())
            },
            Decoded::Unary { kind, dst, src } => {
                if dst as usize >= REGISTER_COUNT || !self.src_ok_exec(src) {
                    return Err(Trap::RegisterOutOfRange);
                }
                let v = self.src_val_exec(src);
                self.registers.set(dst as usize, unary_exec(kind, v));
                self.program_counter = self.program_counter + 1;
                Ok(())
            },
            Decoded::JumpTo { target } => {
                if !self.src_ok_exec(target) {
                    return Err(Trap::RegisterOutOfRange);
                }
                let t = self.src_val_exec(target);
                if t == 0 {
                    return Err(Trap::InvalidJumpTarget);
                }
                self.program_counter = t as usize;
                Ok(())
            },
            Decoded::JumpNz { cond, target } => {
                if cond as usize >= REGISTER_COUNT || !self.src_ok_exec(target) {
                    return Err(Trap::RegisterOutOfRange);
                }
                if self.registers[cond as usize] == 0 {
                    self.program_counter = self.program_counter + 1;
                    return Ok(());
                }
                let t = self.src_val_exec(target);
                if t == 0 {
                    return Err(Trap::InvalidJumpTarget);
                }
                self.program_counter = t as usize;
                Ok(())
            },
            Decoded::MoveOp { dst, src } => {
                if dst as usize >= REGISTER_COUNT || !self.src_ok_exec(src) {
                    return Err(Trap::RegisterOutOfRange);
                }
                let v = self.src_val_exec(src);
                self.registers.set(dst as usize, v);
                self.program_counter = self.program_counter + 1;
                Ok(())
            },
            Decoded::PushOp { src } => {
                if !self.src_ok_exec(src) {
                    return Err(Trap::RegisterOutOfRange);
                }
                let v = self.src_val_exec(src);
                match self.push_stack(v) {
                    Ok(()) => {
                        self.program_counter = self.program_counter + 1;
                        Ok(())
                    },
                    Err(t) => Err(t),
                }
            },
            Decoded::PopOp { dst } => {
                if dst as usize >= REGISTER_COUNT {
                    return Err(Trap::RegisterOutOfRange);
                }
                match self.pop_stack() {
                    Ok(v) => {
                        self.registers.set(dst as usize, v);
                        self.program_counter = self.program_counter + 1;
                        Ok(())
                    },
                    Err(t) => Err(t),
                }
            },
            Decoded::StoreOp { addr, src, width } => {
                if src as usize >= REGISTER_COUNT {
                    return Err(Trap::RegisterOutOfRange);
                }
                let v = self.registers[src as usize];
                match self.store(addr, v, width) {
                    Ok(()) => {
                        self.program_counter = self.program_counter + 1;
                        Ok(())
                    },
                    Err(t) => Err(t),
                }
            },
            Decoded::LoadOp { dst, addr, width } => {
                if dst as usize >= REGISTER_COUNT || addr as usize >= REGISTER_COUNT {
                    return Err(Trap::RegisterOutOfRange);
                }
                let a = self.registers[addr as usize];
                match self.load(a, width) {
                    Ok(v) => {
                        self.registers.set(dst as usize, v);
                        self.program_counter = self.program_counter + 1;
                        Ok(())
                    },
                    Err(t) => Err(t),
                }
            },
            Decoded::CallOp { target } => {
                if target == 0 {
                    return Err(Trap::InvalidJumpTarget);
                }
                self.call_stack.push(self.program_counter as u32);
                self.program_counter = target as usize;
                Ok(())
            },
            Decoded::ReturnOp => {
                if self.call_stack.len() == 0 {
                    return Err(Trap::CallStackUnderflow);
                }
                match self.call_stack.pop() {
                    Some(a) => {
                        self.program_counter = a as usize + 1;
                        Ok(())
                    },
                    None => {
                        proof {
                            assert(false);
                        }
                        Err(Trap::CallStackUnderflow)
                    },
                }
            },
            Decoded::SysCallOp => {
                let sp = self.registers[0];
                if sp == 0 {
                    return Err(Trap::StackUnderflow);
                }
                if sp > BASE_STACK_SIZE as u32 {
                    return Err(Trap::StackOverflow);
                }
                let n = self.stack[(sp - 1) as usize];
                if n == 0 {
                    self.registers.set(0, sp - 1);
                    self.pending = Some(HostCall::ReadLine);
                    Ok(())
                } else if n == 1 {
                    if sp < 4 {
                        return Err(Trap::StackUnderflow);
                    }
                    let fd = self.stack[(sp - 2) as usize];
                    let addr = self.stack[(sp - 3) as usize];
                    let len = self.stack[(sp - 4) as usize];
                    if len as usize > self.memory.len() || addr as usize > self.memory.len()
                        - len as usize {
                        return Err(Trap::MemoryOutOfBounds);
                    }
                    let buffer = copy_mem(&self.memory, addr as usize, len as usize);
                    if !utf8_check(&buffer) {
                        return Err(Trap::InvalidUtf8);
                    }
                    if fd > 1 {
                        return Err(Trap::InvalidFileDescriptor);
                    }
                    self.registers.set(0, sp - 4);
                    self.pending = Some(HostCall::Write { fd, bytes: buffer });
                    Ok(())
                } else {
                    Err(Trap::InvalidSyscall)
                }
            },
        }
    }

    /// Whether a second operand can be read on this machine.
    fn src_ok_exec(&self, s: Src) -> (r: bool)
        ensures
            r == self@.src_ok(s),
    {
        match s {
            Src::Reg(rg) => (rg as usize) < REGISTER_COUNT,
            Src::Imm(_) => true,
        }
    }

    /// Reads a second operand.
    fn src_val_exec(&self, s: Src) -> (r: u32)
        requires
            self.wf(),
            self@.src_ok(s),
        ensures
            r == self@.src_val(s),
    {
        match s {
            Src::Reg(rg) => self.registers[rg as usize],
            Src::Imm(v) => v,
        }
    }

    /// Answers the pending host call: the reply's words land where the
    /// parked instruction put its destination, the pending mark clears, and
    /// the program counter moves past the instruction.
    pub fn resume(&mut self, reply: HostReply) -> (r: Result<(), Trap>)
        requires
            old(self).wf(),
            reply_matches(old(self)@.pending, reply),
            old(self).program_counter < old(self).instruction_list.len(),
        ensures
            final(self).wf(),
            (match vm_resume(old(self)@, reply) {
                Ok(m2) => r == Ok::<(), Trap>(()) && final(self)@ == m2,
                Err(t) => r == Err::<(), Trap>(t) && final(self)@ == old(self)@,
            }),
    {
        match reply {
            HostReply::Value(v) => {
                let sp = self.registers[0];
                if sp >= BASE_STACK_SIZE as u32 {
                    return Err(Trap::StackOverflow);
                }
                self.stack.set(sp as usize, v);
                self.registers.set(0, sp + 1);
                self.pending = None;
                self.program_counter = self.program_counter + 1;
                Ok(())
            },
            HostReply::WriteDone => {
                self.pending = None;
                self.program_counter = self.program_counter + 1;
                Ok(())
            },
            HostReply::FloatBits(b) => {
                let dst = match &self.pending {
                    Some(HostCall::FloatBinary { dst, .. }) => *dst,
                    _ => {
                        proof {
                            assert(false);
                        }
                        0
                    },
                };
                self.registers.set(dst as usize, b);
                self.pending = None;
                self.program_counter = self.program_counter + 1;
                Ok(())
            },
            HostReply::FloatPair(q, m) => {
                let (dst_div, dst_mod) = match &self.pending {
                    Some(HostCall::FloatDivModBits { dst_div, dst_mod, .. }) => (*dst_div, *dst_mod),
                    _ => {
                        proof {
                            assert(false);
                        }
                        (0, 0)
                    },
                };
                self.registers.set(dst_div as usize, q);
                self.registers.set(dst_mod as usize, m);
                self.pending = None;
                self.program_counter = self.program_counter + 1;
                Ok(())
            },
        }
    }

    /// Runs the dispatch loop: steps while the program counter is inside the
    /// instruction list, stopping at a trap, at a parked host call, or after
    /// `max_steps` steps.
    pub fn execute_instruction_list(&mut self, max_steps: u64) -> (r: RunStatus)
        requires
            old(self).wf(),
            old(self)@.pending is None,
        ensures
            final(self).wf(),
            (final(self)@, r) == vm_run(old(self)@, max_steps as nat),
    {
        let mut fuel = max_steps;
        loop
            invariant
                self.wf(),
                self@.pending is None,
                vm_run(old(self)@, max_steps as nat) == vm_run(self@, fuel as nat),
            decreases fuel,
        {
            if self.program_counter >= self.instruction_list.len() {
                return RunStatus::Halted;
            }
            if fuel == 0 {
                return RunStatus::OutOfSteps;
            }
            match self.execute_single_instruction() {
                Err(t) => {
                    return RunStatus::Trapped(t);
                },
                Ok(()) => {
                    if self.pending.is_some() {
                        return RunStatus::AwaitingHost;
                    }
                    fuel = fuel - 1;
                },
            }
        }
    }
}


/// Whether an instruction can move the program counter anywhere but the
/// next index.
pub open spec fn is_branching(i: Instruction) -> bool {
    match classify(i) {
        Decoded::JumpTo { .. } => true,
        Decoded::JumpNz { .. } => true,
        Decoded::CallOp { .. } => true,
        Decoded::ReturnOp => true,
        _ => false,
    }
}

/// After a non-branching instruction at index p the next instruction is at
/// p + 1: a completed step moves the counter one ahead, and a step that
/// parked on a host call moves it one ahead the moment the reply completes
/// it.
pub proof fn lemma_pc_increment(m: VmModel, reply: HostReply)
    requires
        m.wf(),
        m.pending is None,
        0 <= m.pc < m.prog.len(),
        !is_branching(m.prog[m.pc]),
        vm_step(m) is Ok,
    ensures
        ({
            let m2 = vm_step(m)->Ok_0;
            m2.pending is None ==> m2.pc == m.pc + 1
        }),
        ({
            let m2 = vm_step(m)->Ok_0;
            (m2.pending is Some && reply_matches(m2.pending, reply) && vm_resume(m2, reply) is Ok)
                ==> vm_resume(m2, reply)->Ok_0.pc == m.pc + 1
        }),
{
}

/// Branch convention: a jump to instruction index `target` continues exactly
/// at `target`.
pub proof fn lemma_branch_convention(m: VmModel, target: u32)
    requires
        m.wf(),
        m.pending is None,
        0 <= m.pc < m.prog.len(),
        m.prog[m.pc] == Instruction::JumpImmediate(target),
        target != 0,
    ensures
        vm_step(m) == Ok::<VmModel, Trap>(VmModel { pc: target as int, ..m }),
{
}

/// Call/Return balance: a Call at index p records p and continues at its
/// target; a Return that later runs with the call stack as the Call left it
/// continues at p + 1, the instruction after the Call, with the recorded
/// entry gone.
pub proof fn lemma_call_return_balance(m1: VmModel, m2: VmModel, target: u32)
    requires
        m1.wf(),
        m1.pending is None,
        0 <= m1.pc < m1.prog.len(),
        m1.prog[m1.pc] == Instruction::Call(target),
        target != 0,
        m2.wf(),
        m2.pending is None,
        0 <= m2.pc < m2.prog.len(),
        m2.prog[m2.pc] == Instruction::Return,
        m2.calls == vm_step(m1)->Ok_0.calls,
    ensures
        vm_step(m1) is Ok,
        vm_step(m1)->Ok_0.pc == target,
        vm_step(m2) is Ok,
        vm_step(m2)->Ok_0.pc == m1.pc + 1,
        vm_step(m2)->Ok_0.calls == m1.calls,
{
    assert(m1.calls.push(m1.pc as u32).drop_last() =~= m1.calls);
}

/// Stack discipline is last-in first-out: pushing v1 then v2 and popping
/// twice hands back v2 and then v1, with the stack pointer where it began.
pub proof fn lemma_stack_lifo(m: VmModel, v1: u32, v2: u32)
    requires
        m.wf(),
        m.sp() + 2 <= BASE_STACK_SIZE,
    ensures
        ({
            let m1 = push_model(m, v1)->Ok_0;
            let m2 = push_model(m1, v2)->Ok_0;
            &&& push_model(m, v1) is Ok
            &&& push_model(m1, v2) is Ok
            &&& pop_model(m2) is Ok
            &&& pop_model(m2)->Ok_0.1 == v2
            &&& pop_model(pop_model(m2)->Ok_0.0) is Ok
            &&& pop_model(pop_model(m2)->Ok_0.0)->Ok_0.1 == v1
            &&& pop_model(pop_model(m2)->Ok_0.0)->Ok_0.0.sp() == m.sp()
        }),
{
}

/// Family purity: on equal bit patterns the unsigned and the signed forms of
/// addition, subtraction and multiplication produce the identical result
/// word, whether or not the signed computation would have overflowed.
pub proof fn lemma_family_purity(a: u32, b: u32)
    ensures
        alu_value(AluKind::AddU, a, b) == alu_value(AluKind::AddS, a, b),
        alu_value(AluKind::SubU, a, b) == alu_value(AluKind::SubS, a, b),
        alu_value(AluKind::MulU, a, b) == alu_value(AluKind::MulS, a, b),
{
    crate::words::lemma_family_purity_add(a, b);
    crate::words::lemma_family_purity_sub(a, b);
    crate::words::lemma_family_purity_mul(a, b);
}

} // verus!
