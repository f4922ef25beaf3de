//! The two-pass assembler. It consumes parsed statements: the textual
//! surface (mnemonics, register tokens, typed literals) is lexed by a thin
//! front end outside the library, which hands every literal over as the
//! 32-bit word it denotes. Pass 1 lowers statements in order to an
//! intermediate list, recording each label as (intermediate count + 1) - the
//! +1 matches the harmless Nop the machine prepends on load, so a label
//! names the assembled instruction after it. Pass 2 rewrites the symbolic
//! jumps, conditional jumps and calls to absolute instruction indices; an
//! unresolved label is an error, as is an operand kind that the statement's
//! family does not admit.
use vstd::prelude::*;
use crate::isa::Instruction;
use crate::vm::copy_mem;

verus! {

/// An operand as the front end hands it over: a register index, or a
/// literal already reduced to its 32-bit pattern (two's complement for
/// signed literals, the binary32 pattern for float literals).
#[derive(Copy, Clone, Debug, PartialEq, Eq, Structural)]
pub enum AsmOperand {
    Reg(u8),
    Unsigned(u32),
    Signed(u32),
    Float(u32),
}

/// The family tag on arithmetic, comparison and negate mnemonics.
#[derive(Copy, Clone, Debug, PartialEq, Eq, Structural)]
pub enum Family {
    Unsigned,
    Signed,
    Float,
}

/// An arithmetic mnemonic that takes a family tag.
#[derive(Copy, Clone, Debug, PartialEq, Eq, Structural)]
pub enum ArithOp {
    Add,
    Sub,
    Mul,
    Div,
    Mod,
}

/// An ordering comparison mnemonic that takes a family tag.
#[derive(Copy, Clone, Debug, PartialEq, Eq, Structural)]
pub enum CompareOp {
    Gt,
    Lt,
    Ge,
    Le,
}

/// One parsed statement of the assembly surface.
#[derive(Clone, Debug, PartialEq, Eq)]
pub enum Statement {
    LabelDecl(Vec<u8>),
    MoveSt { dst: u8, src: AsmOperand },
    EqualSt { dst: u8, lhs: u8, rhs: AsmOperand },
    NotEqualSt { dst: u8, lhs: u8, rhs: AsmOperand },
    NotSt { dst: u8, src: AsmOperand },
    AndSt { dst: u8, lhs: u8, rhs: AsmOperand },
    OrSt { dst: u8, lhs: u8, rhs: AsmOperand },
    XorSt { dst: u8, lhs: u8, rhs: AsmOperand },
    ShiftLeftSt { dst: u8, lhs: u8, rhs: AsmOperand },
    ShiftRightSt { dst: u8, lhs: u8, rhs: AsmOperand },
    ArithSt { op: ArithOp, family: Family, dst: u8, lhs: u8, rhs: AsmOperand },
    DivModSt { family: Family, dst_div: u8, dst_mod: u8, lhs: u8, rhs: AsmOperand },
    CompareSt { op: CompareOp, family: Family, dst: u8, lhs: u8, rhs: AsmOperand },
    NegateSt { family: Family, dst: u8, src: AsmOperand },
    JumpSt { label: Vec<u8> },
    JnzSt { cond: u8, label: Vec<u8> },
    PushSt { src: AsmOperand },
    PopSt { dst: u8 },
    CallSt { label: Vec<u8> },
    ReturnSt,
    SysCallSt,
    StoreSt { addr: AsmOperand, src: u8, width: u8 },
    LoadSt { dst: u8, addr: AsmOperand, width: u8 },
}

/// Why a statement list does not assemble.
#[derive(Copy, Clone, Debug, PartialEq, Eq, Structural)]
pub enum AsmError {
    /// A literal kind the statement's family does not admit, or an operand
    /// role this machine cannot encode.
    IllegalCombination,
    /// A jump, conditional jump or call names a label never declared.
    UndefinedLabel,
}

/// Pass 1 output: a finished instruction, or a control transfer that still
/// names a label.
#[derive(Clone, Debug, PartialEq, Eq)]
pub enum ParseIntermediate {
    Instruction(Instruction),
    Jump(Vec<u8>),
    Jnz(u8, Vec<u8>),
    Call(Vec<u8>),
}

/// `ParseIntermediate` at the specification level.
pub enum IntermediateModel {
    Instr(Instruction),
    JumpL(Seq<u8>),
    JnzL(u8, Seq<u8>),
    CallL(Seq<u8>),
}

impl View for ParseIntermediate {
    type V = IntermediateModel;

    open spec fn view(&self) -> IntermediateModel {
        match self {
            ParseIntermediate::Instruction(i) => IntermediateModel::Instr(*i),
            ParseIntermediate::Jump(l) => IntermediateModel::JumpL(l@),
            ParseIntermediate::Jnz(c, l) => IntermediateModel::JnzL(*c, l@),
            ParseIntermediate::Call(l) => IntermediateModel::CallL(l@),
        }
    }
}

/// The specification-level reading of an intermediate list.
pub open spec fn inter_model(v: Seq<ParseIntermediate>) -> Seq<IntermediateModel> {
    Seq::new(v.len(), |i: int| v[i]@)
}

/// The specification-level reading of the label table: later declarations
/// of a name win.
pub open spec fn labels_model(l: Seq<(Vec<u8>, u32)>) -> Map<Seq<u8>, int>
    decreases l.len(),
{
    if l.len() == 0 {
        Map::empty()
    } else {
        labels_model(l.drop_last()).insert(l.last().0@, l.last().1 as int)
    }
}

/// The word a literal operand carries, whatever its family.
pub open spec fn operand_bits(rhs: AsmOperand) -> Option<u32> {
    match rhs {
        AsmOperand::Reg(_) => None,
        AsmOperand::Unsigned(v) => Some(v),
        AsmOperand::Signed(v) => Some(v),
        AsmOperand::Float(v) => Some(v),
    }
}

/// The instruction an arithmetic statement lowers to.
pub open spec fn lower_arith(
    op: ArithOp,
    family: Family,
    dst: u8,
    lhs: u8,
    rhs: AsmOperand,
) -> Result<Instruction, AsmError> {
    match family {
        Family::Unsigned => match rhs {
            AsmOperand::Reg(r) => Ok(
                match op {
                    ArithOp::Add => Instruction::Add(dst, lhs, r),
                    ArithOp::Sub => Instruction::Sub(dst, lhs, r),
                    ArithOp::Mul => Instruction::Mul(dst, lhs, r),
                    ArithOp::Div => Instruction::Div(dst, lhs, r),
                    ArithOp::Mod => Instruction::Mod(dst, lhs, r),
                },
            ),
            AsmOperand::Unsigned(v) => Ok(
                match op {
                    ArithOp::Add => Instruction::AddImmediate(dst, lhs, v),
                    ArithOp::Sub => Instruction::SubImmediate(dst, lhs, v),
                    ArithOp::Mul => Instruction::MulImmediate(dst, lhs, v),
                    ArithOp::Div => Instruction::DivImmediate(dst, lhs, v),
                    ArithOp::Mod => Instruction::ModImmediate(dst, lhs, v),
                },
            ),
            _ => Err(AsmError::IllegalCombination),
        },
        Family::Signed => match rhs {
            AsmOperand::Reg(r) => Ok(
                match op {
                    ArithOp::Add => Instruction::SignedAdd(dst, lhs, r),
                    ArithOp::Sub => Instruction::SignedSub(dst, lhs, r),
                    ArithOp::Mul => Instruction::SignedMul(dst, lhs, r),
                    ArithOp::Div => Instruction::SignedDiv(dst, lhs, r),
                    ArithOp::Mod => Instruction::SignedMod(dst, lhs, r),
                },
            ),
            AsmOperand::Unsigned(v) => Ok(
                match op {
                    ArithOp::Add => Instruction::SignedAddImmediate(dst, lhs, v),
                    ArithOp::Sub => Instruction::SignedSubImmediate(dst, lhs, v),
                    ArithOp::Mul => Instruction::SignedMulImmediate(dst, lhs, v),
                    ArithOp::Div => Instruction::SignedDivImmediate(dst, lhs, v),
                    ArithOp::Mod => Instruction::SignedModImmediate(dst, lhs, v),
                },
            ),
            AsmOperand::Signed(v) => Ok(
                match op {
                    ArithOp::Add => Instruction::SignedAddImmediate(dst, lhs, v),
                    ArithOp::Sub => Instruction::SignedSubImmediate(dst, lhs, v),
                    ArithOp::Mul => Instruction::SignedMulImmediate(dst, lhs, v),
                    ArithOp::Div => Instruction::SignedDivImmediate(dst, lhs, v),
                    ArithOp::Mod => Instruction::SignedModImmediate(dst, lhs, v),
                },
            ),
            AsmOperand::Float(_) => Err(AsmError::IllegalCombination),
        },
        Family::Float => match rhs {
            AsmOperand::Reg(r) => Ok(
                match op {
                    ArithOp::Add => Instruction::FloatAdd(dst, lhs, r),
                    ArithOp::Sub => Instruction::FloatSub(dst, lhs, r),
                    ArithOp::Mul => Instruction::FloatMul(dst, lhs, r),
                    ArithOp::Div => Instruction::FloatDiv(dst, lhs, r),
                    ArithOp::Mod => Instruction::FloatMod(dst, lhs, r),
                },
            ),
            AsmOperand::Float(v) => Ok(
                match op {
                    ArithOp::Add => Instruction::FloatAddImmediate(dst, lhs, v),
                    ArithOp::Sub => Instruction::FloatSubImmediate(dst, lhs, v),
                    ArithOp::Mul => Instruction::FloatMulImmediate(dst, lhs, v),
                    ArithOp::Div => Instruction::FloatDivImmediate(dst, lhs, v),
                    ArithOp::Mod => Instruction::FloatModImmediate(dst, lhs, v),
                },
            ),
            _ => Err(AsmError::IllegalCombination),
        },
    }
}

/// The instruction an ordering comparison lowers to.
pub open spec fn lower_compare(
    op: CompareOp,
    family: Family,
    dst: u8,
    lhs: u8,
    rhs: AsmOperand,
) -> Result<Instruction, AsmError> {
    match family {
        Family::Unsigned => match rhs {
            AsmOperand::Reg(r) => Ok(
                match op {
                    CompareOp::Gt => Instruction::GreaterThan(dst, lhs, r),
                    CompareOp::Lt => Instruction::LessThan(dst, lhs, r),
                    CompareOp::Ge => Instruction::GreaterThanOrEqual(dst, lhs, r),
                    CompareOp::Le => Instruction::LessThanOrEqual(dst, lhs, r),
                },
            ),
            AsmOperand::Unsigned(v) => Ok(
                match op {
                    CompareOp::Gt => Instruction::GreaterThanImmediate(dst, lhs, v),
                    CompareOp::Lt => Instruction::LessThanImmediate(dst, lhs, v),
                    CompareOp::Ge => Instruction::GreaterThanOrEqualImmediate(dst, lhs, v),
                    CompareOp::Le => Instruction::LessThanOrEqualImmediate(dst, lhs, v),
                },
            ),
            _ => Err(AsmError::IllegalCombination),
        },
        Family::Signed => match rhs {
            AsmOperand::Reg(r) => Ok(
                match op {
                    CompareOp::Gt => Instruction::SignedGreaterThan(dst, lhs, r),
                    CompareOp::Lt => Instruction::SignedLessThan(dst, lhs, r),
                    CompareOp::Ge => Instruction::SignedGreaterThanOrEqual(dst, lhs, r),
                    CompareOp::Le => Instruction::SignedLessThanOrEqual(dst, lhs, r),
                },
            ),
            AsmOperand::Unsigned(v) => Ok(
                match op {
                    CompareOp::Gt => Instruction::SignedGreaterThanImmediate(dst, lhs, v),
                    CompareOp::Lt => Instruction::SignedLessThanImmediate(dst, lhs, v),
                    CompareOp::Ge => Instruction::SignedGreaterThanOrEqualImmediate(dst, lhs, v),
                    CompareOp::Le => Instruction::SignedLessThanOrEqualImmediate(dst, lhs, v),
                },
            ),
            AsmOperand::Signed(v) => Ok(
                match op {
                    CompareOp::Gt => Instruction::SignedGreaterThanImmediate(dst, lhs, v),
                    CompareOp::Lt => Instruction::SignedLessThanImmediate(dst, lhs, v),
                    CompareOp::Ge => Instruction::SignedGreaterThanOrEqualImmediate(dst, lhs, v),
                    CompareOp::Le => Instruction::SignedLessThanOrEqualImmediate(dst, lhs, v),
                },
            ),
            AsmOperand::Float(_) => Err(AsmError::IllegalCombination),
        },
        Family::Float => match rhs {
            AsmOperand::Reg(r) => Ok(
                match op {
                    CompareOp::Gt => Instruction::FloatGreaterThan(dst, lhs, r),
                    CompareOp::Lt => Instruction::FloatLessThan(dst, lhs, r),
                    CompareOp::Ge => Instruction::FloatGreaterThanOrEqual(dst, lhs, r),
                    CompareOp::Le => Instruction::FloatLessThanOrEqual(dst, lhs, r),
                },
            ),
            AsmOperand::Float(v) => Ok(
                match op {
                    CompareOp::Gt => Instruction::FloatGreaterThanImmediate(dst, lhs, v),
                    CompareOp::Lt => Instruction::FloatLessThanImmediate(dst, lhs, v),
                    CompareOp::Ge => Instruction::FloatGreaterThanOrEqualImmediate(dst, lhs, v),
                    CompareOp::Le => Instruction::FloatLessThanOrEqualImmediate(dst, lhs, v),
                },
            ),
            _ => Err(AsmError::IllegalCombination),
        },
    }
}

/// The instruction a divmod statement lowers to.
pub open spec fn lower_divmod(
    family: Family,
    dst_div: u8,
    dst_mod: u8,
    lhs: u8,
    rhs: AsmOperand,
) -> Result<Instruction, AsmError> {
    match family {
        Family::Unsigned => match rhs {
            AsmOperand::Reg(r) => Ok(Instruction::DivMod(dst_div, dst_mod, lhs, r)),
            AsmOperand::Unsigned(v) => Ok(Instruction::DivModImmediate(dst_div, dst_mod, lhs, v)),
            _ => Err(AsmError::IllegalCombination),
        },
        Family::Signed => match rhs {
            AsmOperand::Reg(r) => Ok(Instruction::SignedDivMod(dst_div, dst_mod, lhs, r)),
            AsmOperand::Unsigned(v) => Ok(
                Instruction::SignedDivModImmediate(dst_div, dst_mod, lhs, v),
            ),
            AsmOperand::Signed(v) => Ok(
                Instruction::SignedDivModImmediate(dst_div, dst_mod, lhs, v),
            ),
            AsmOperand::Float(_) => Err(AsmError::IllegalCombination),
        },
        Family::Float => match rhs {
            AsmOperand::Reg(r) => Ok(Instruction::FloatDivMod(dst_div, dst_mod, lhs, r)),
            AsmOperand::Float(v) => Ok(Instruction::FloatDivModImmediate(dst_div, dst_mod, lhs, v)),
            _ => Err(AsmError::IllegalCombination),
        },
    }
}

/// The instruction a negate statement lowers to; there is no unsigned
/// negate.
pub open spec fn lower_negate(family: Family, dst: u8, src: AsmOperand) -> Result<
    Instruction,
    AsmError,
> {
    match family {
        Family::Unsigned => Err(AsmError::IllegalCombination),
        Family::Signed => match src {
            AsmOperand::Reg(r) => Ok(Instruction::SignedNegate(dst, r)),
            AsmOperand::Unsigned(v) => Ok(Instruction::SignedNegateImmediate(dst, v)),
            AsmOperand::Signed(v) => Ok(Instruction::SignedNegateImmediate(dst, v)),
            AsmOperand::Float(_) => Err(AsmError::IllegalCombination),
        },
        Family::Float => match src {
            AsmOperand::Reg(r) => Ok(Instruction::FloatNegate(dst, r)),
            AsmOperand::Float(v) => Ok(Instruction::FloatNegateImmediate(dst, v)),
            _ => Err(AsmError::IllegalCombination),
        },
    }
}

/// The instruction a plain (label-free) statement lowers to; label
/// declarations and the three label-bearing transfers are handled by the
/// passes themselves.
pub open spec fn lower_plain(st: Statement) -> Result<Instruction, AsmError> {
    match st {
        Statement::MoveSt { dst, src } => match src {
            AsmOperand::Reg(r) => Ok(Instruction::Move(dst, r)),
            _ => Ok(Instruction::MoveImmediate(dst, operand_bits(src)->Some_0)),
        },
        Statement::EqualSt { dst, lhs, rhs } => match rhs {
            AsmOperand::Reg(r) => Ok(Instruction::Equal(dst, lhs, r)),
            _ => Ok(Instruction::EqualImmediate(dst, lhs, operand_bits(rhs)->Some_0)),
        },
        Statement::NotEqualSt { dst, lhs, rhs } => match rhs {
            AsmOperand::Reg(r) => Ok(Instruction::NotEqual(dst, lhs, r)),
            _ => Ok(Instruction::NotEqualImmediate(dst, lhs, operand_bits(rhs)->Some_0)),
        },
        Statement::NotSt { dst, src } => match src {
            AsmOperand::Reg(r) => Ok(Instruction::Not(dst, r)),
            _ => Ok(Instruction::NotImmediate(dst, operand_bits(src)->Some_0)),
        },
        Statement::AndSt { dst, lhs, rhs } => match rhs {
            AsmOperand::Reg(r) => Ok(Instruction::And(dst, lhs, r)),
            _ => Ok(Instruction::AndImmediate(dst, lhs, operand_bits(rhs)->Some_0)),
        },
        Statement::OrSt { dst, lhs, rhs } => match rhs {
            AsmOperand::Reg(r) => Ok(Instruction::Or(dst, lhs, r)),
            _ => Ok(Instruction::OrImmediate(dst, lhs, operand_bits(rhs)->Some_0)),
        },
        Statement::XorSt { dst, lhs, rhs } => match rhs {
            AsmOperand::Reg(r) => Ok(Instruction::Xor(dst, lhs, r)),
            _ => Ok(Instruction::XorImmediate(dst, lhs, operand_bits(rhs)->Some_0)),
        },
        Statement::ShiftLeftSt { dst, lhs, rhs } => match rhs {
            AsmOperand::Reg(r) => Ok(Instruction::ShiftLeft(dst, lhs, r)),
            AsmOperand::Unsigned(v) => Ok(Instruction::ShiftLeftImmediate(dst, lhs, v)),
            _ => Err(AsmError::IllegalCombination),
        },
        Statement::ShiftRightSt { dst, lhs, rhs } => match rhs {
            AsmOperand::Reg(r) => Ok(Instruction::ShiftRight(dst, lhs, r)),
            AsmOperand::Unsigned(v) => Ok(Instruction::ShiftRightImmediate(dst, lhs, v)),
            _ => Err(AsmError::IllegalCombination),
        },
        Statement::ArithSt { op, family, dst, lhs, rhs } => lower_arith(op, family, dst, lhs, rhs),
        Statement::DivModSt { family, dst_div, dst_mod, lhs, rhs } => lower_divmod(
            family,
            dst_div,
            dst_mod,
            lhs,
            rhs,
        ),
        Statement::CompareSt { op, family, dst, lhs, rhs } => lower_compare(
            op,
            family,
            dst,
            lhs,
            rhs,
        ),
        Statement::NegateSt { family, dst, src } => lower_negate(family, dst, src),
        Statement::PushSt { src } => match src {
            AsmOperand::Reg(r) => Ok(Instruction::Push(r)),
            _ => Ok(Instruction::PushImmediate(operand_bits(src)->Some_0)),
        },
        Statement::PopSt { dst } => Ok(Instruction::Pop(dst)),
        Statement::ReturnSt => Ok(Instruction::Return),
        Statement::SysCallSt => Ok(Instruction::SystemCall),
        Statement::StoreSt { addr, src, width } => match addr {
            AsmOperand::Unsigned(a) => Ok(Instruction::Store(a, src, width)),
            _ => Err(AsmError::IllegalCombination),
        },
        Statement::LoadSt { dst, addr, width } => match addr {
            AsmOperand::Reg(r) => Ok(Instruction::Load(dst, r, width)),
            _ => Err(AsmError::IllegalCombination),
        },
        _ => Err(AsmError::IllegalCombination),
    }
}

/// Pass 1 over the statements still to walk: label declarations go to the
/// map as (intermediate count + 1), control transfers keep their symbolic
/// label, everything else lowers to an instruction at once.
pub open spec fn pass1(
    sts: Seq<Statement>,
    inter: Seq<IntermediateModel>,
    labels: Map<Seq<u8>, int>,
) -> Result<(Seq<IntermediateModel>, Map<Seq<u8>, int>), AsmError>
    decreases sts.len(),
{
    if sts.len() == 0 {
        Ok((inter, labels))
    } else {
        match sts[0] {
            Statement::LabelDecl(name) => pass1(
                sts.skip(1),
                inter,
                labels.insert(name@, inter.len() as int + 1),
            ),
            Statement::JumpSt { label } => pass1(
                sts.skip(1),
                inter.push(IntermediateModel::JumpL(label@)),
                labels,
            ),
            Statement::JnzSt { cond, label } => pass1(
                sts.skip(1),
                inter.push(IntermediateModel::JnzL(cond, label@)),
                labels,
            ),
            Statement::CallSt { label } => pass1(
                sts.skip(1),
                inter.push(IntermediateModel::CallL(label@)),
                labels,
            ),
            _ => match lower_plain(sts[0]) {
                Ok(i) => pass1(sts.skip(1), inter.push(IntermediateModel::Instr(i)), labels),
                Err(e) => Err(e),
            },
        }
    }
}

/// Pass 2 over the intermediates still to walk: each symbolic transfer
/// becomes the absolute form with the label's recorded index; a label never
/// declared is an error.
pub open spec fn pass2(
    inter: Seq<IntermediateModel>,
    labels: Map<Seq<u8>, int>,
    acc: Seq<Instruction>,
) -> Result<Seq<Instruction>, AsmError>
    decreases inter.len(),
{
    if inter.len() == 0 {
        Ok(acc)
    } else {
        match inter[0] {
            IntermediateModel::Instr(i) => pass2(inter.skip(1), labels, acc.push(i)),
            IntermediateModel::JumpL(l) => if labels.contains_key(l) {
                pass2(
                    inter.skip(1),
                    labels,
                    acc.push(Instruction::JumpImmediate(labels[l] as u32)),
                )
            } else {
                Err(AsmError::UndefinedLabel)
            },
            IntermediateModel::JnzL(c, l) => if labels.contains_key(l) {
                pass2(
                    inter.skip(1),
                    labels,
                    acc.push(Instruction::JumpNotZeroImmediate(c, labels[l] as u32)),
                )
            } else {
                Err(AsmError::UndefinedLabel)
            },
            IntermediateModel::CallL(l) => if labels.contains_key(l) {
                pass2(inter.skip(1), labels, acc.push(Instruction::Call(labels[l] as u32)))
            } else {
                Err(AsmError::UndefinedLabel)
            },
        }
    }
}

/// What a statement list assembles to: pass 1 and then pass 2.
pub open spec fn spec_assemble(sts: Seq<Statement>) -> Result<Seq<Instruction>, AsmError> {
    match pass1(sts, Seq::empty(), Map::empty()) {
        Ok((inter, labels)) => pass2(inter, labels, Seq::empty()),
        Err(e) => Err(e),
    }
}


/// Whether two byte strings hold the same bytes.
fn bytes_eq(a: &Vec<u8>, b: &Vec<u8>) -> (r: bool)
    ensures
        r == (a@ == b@),
{
    if a.len() != b.len() {
        return false;
    }
    let n = a.len();
    let mut i: usize = 0;
    while i < n
        invariant
            i <= n,
            n == a@.len(),
            n == b@.len(),
            forall|j: int| 0 <= j < i ==> a@[j] == b@[j],
        decreases n - i,
    {
        if a[i] != b[i] {
            return false;
        }
        i = i + 1;
    }
    proof {
        assert(a@ =~= b@);
    }
    true
}

/// A label's recorded index is the one of its last declaration.
proof fn lemma_labels_found(l: Seq<(Vec<u8>, u32)>, k: Seq<u8>, i: int)
    requires
        0 <= i < l.len(),
        l[i].0@ == k,
        forall|j: int| i < j < l.len() ==> l[j].0@ != k,
    ensures
        labels_model(l).contains_key(k),
        labels_model(l)[k] == l[i].1 as int,
    decreases l.len(),
{
    if i < l.len() - 1 {
        lemma_labels_found(l.drop_last(), k, i);
    }
}

/// A name no entry declares is not in the label map.
proof fn lemma_labels_missing(l: Seq<(Vec<u8>, u32)>, k: Seq<u8>)
    requires
        forall|j: int| 0 <= j < l.len() ==> l[j].0@ != k,
    ensures
        !labels_model(l).contains_key(k),
    decreases l.len(),
{
    if l.len() > 0 {
        lemma_labels_missing(l.drop_last(), k);
    }
}

/// Finds the recorded index of a label, its last declaration winning.
fn lookup_label(labels: &Vec<(Vec<u8>, u32)>, name: &Vec<u8>) -> (r: Option<u32>)
    ensures
        (match r {
            Some(v) => labels_model(labels@).contains_key(name@) && labels_model(labels@)[name@]
                == v as int,
            None => !labels_model(labels@).contains_key(name@),
        }),
{
    let n = labels.len();
    let mut i: usize = n;
    while i > 0
        invariant
            i <= n,
            n == labels@.len(),
            forall|j: int| i <= j < n ==> labels@[j].0@ != name@,
        decreases i,
    {
        i = i - 1;
        let entry = &labels[i];
        if bytes_eq(&entry.0, name) {
            proof {
                lemma_labels_found(labels@, name@, i as int);
            }
            return Some(entry.1);
        }
    }
    proof {
        lemma_labels_missing(labels@, name@);
    }
    None
}

/// Lowers a plain statement, as `lower_plain` reads it.
fn lower_plain_exec(st: &Statement) -> (r: Result<Instruction, AsmError>)
    ensures
        r == lower_plain(*st),
{
    match st {
        Statement::MoveSt { dst, src } => match src {
            AsmOperand::Reg(r) => Ok(Instruction::Move(*dst, *r)),
            AsmOperand::Unsigned(v) => Ok(Instruction::MoveImmediate(*dst, *v)),
            AsmOperand::Signed(v) => Ok(Instruction::MoveImmediate(*dst, *v)),
            AsmOperand::Float(v) => Ok(Instruction::MoveImmediate(*dst, *v)),
        },
        Statement::EqualSt { dst, lhs, rhs } => match rhs {
            AsmOperand::Reg(r) => Ok(Instruction::Equal(*dst, *lhs, *r)),
            AsmOperand::Unsigned(v) => Ok(Instruction::EqualImmediate(*dst, *lhs, *v)),
            AsmOperand::Signed(v) => Ok(Instruction::EqualImmediate(*dst, *lhs, *v)),
            AsmOperand::Float(v) => Ok(Instruction::EqualImmediate(*dst, *lhs, *v)),
        },
        Statement::NotEqualSt { dst, lhs, rhs } => match rhs {
            AsmOperand::Reg(r) => Ok(Instruction::NotEqual(*dst, *lhs, *r)),
            AsmOperand::Unsigned(v) => Ok(Instruction::NotEqualImmediate(*dst, *lhs, *v)),
            AsmOperand::Signed(v) => Ok(Instruction::NotEqualImmediate(*dst, *lhs, *v)),
            AsmOperand::Float(v) => Ok(Instruction::NotEqualImmediate(*dst, *lhs, *v)),
        },
        Statement::NotSt { dst, src } => match src {
            AsmOperand::Reg(r) => Ok(Instruction::Not(*dst, *r)),
            AsmOperand::Unsigned(v) => Ok(Instruction::NotImmediate(*dst, *v)),
            AsmOperand::Signed(v) => Ok(Instruction::NotImmediate(*dst, *v)),
            AsmOperand::Float(v) => Ok(Instruction::NotImmediate(*dst, *v)),
        },
        Statement::AndSt { dst, lhs, rhs } => match rhs {
            AsmOperand::Reg(r) => Ok(Instruction::And(*dst, *lhs, *r)),
            AsmOperand::Unsigned(v) => Ok(Instruction::AndImmediate(*dst, *lhs, *v)),
            AsmOperand::Signed(v) => Ok(Instruction::AndImmediate(*dst, *lhs, *v)),
            AsmOperand::Float(v) => Ok(Instruction::AndImmediate(*dst, *lhs, *v)),
        },
        Statement::OrSt { dst, lhs, rhs } => match rhs {
            AsmOperand::Reg(r) => Ok(Instruction::Or(*dst, *lhs, *r)),
            AsmOperand::Unsigned(v) => Ok(Instruction::OrImmediate(*dst, *lhs, *v)),
            AsmOperand::Signed(v) => Ok(Instruction::OrImmediate(*dst, *lhs, *v)),
            AsmOperand::Float(v) => Ok(Instruction::OrImmediate(*dst, *lhs, *v)),
        },
        Statement::XorSt { dst, lhs, rhs } => match rhs {
            AsmOperand::Reg(r) => Ok(Instruction::Xor(*dst, *lhs, *r)),
            AsmOperand::Unsigned(v) => Ok(Instruction::XorImmediate(*dst, *lhs, *v)),
            AsmOperand::Signed(v) => Ok(Instruction::XorImmediate(*dst, *lhs, *v)),
            AsmOperand::Float(v) => Ok(Instruction::XorImmediate(*dst, *lhs, *v)),
        },
        Statement::ShiftLeftSt { dst, lhs, rhs } => match rhs {
            AsmOperand::Reg(r) => Ok(Instruction::ShiftLeft(*dst, *lhs, *r)),
            AsmOperand::Unsigned(v) => Ok(Instruction::ShiftLeftImmediate(*dst, *lhs, *v)),
            _ => Err(AsmError::IllegalCombination),
        },
        Statement::ShiftRightSt { dst, lhs, rhs } => match rhs {
            AsmOperand::Reg(r) => Ok(Instruction::ShiftRight(*dst, *lhs, *r)),
            AsmOperand::Unsigned(v) => Ok(Instruction::ShiftRightImmediate(*dst, *lhs, *v)),
            _ => Err(AsmError::IllegalCombination),
        },
        Statement::ArithSt { op, family, dst, lhs, rhs } => lower_arith_exec(
            *op,
            *family,
            *dst,
            *lhs,
            *rhs,
        ),
        Statement::DivModSt { family, dst_div, dst_mod, lhs, rhs } => lower_divmod_exec(
            *family,
            *dst_div,
            *dst_mod,
            *lhs,
            *rhs,
        ),
        Statement::CompareSt { op, family, dst, lhs, rhs } => lower_compare_exec(
            *op,
            *family,
            *dst,
            *lhs,
            *rhs,
        ),
        Statement::NegateSt { family, dst, src } => lower_negate_exec(*family, *dst, *src),
        Statement::PushSt { src } => match src {
            AsmOperand::Reg(r) => Ok(Instruction::Push(*r)),
            AsmOperand::Unsigned(v) => Ok(Instruction::PushImmediate(*v)),
            AsmOperand::Signed(v) => Ok(Instruction::PushImmediate(*v)),
            AsmOperand::Float(v) => Ok(Instruction::PushImmediate(*v)),
        },
        Statement::PopSt { dst } => Ok(Instruction::Pop(*dst)),
        Statement::ReturnSt => Ok(Instruction::Return),
        Statement::SysCallSt => Ok(Instruction::SystemCall),
        Statement::StoreSt { addr, src, width } => match addr {
            AsmOperand::Unsigned(a) => Ok(Instruction::Store(*a, *src, *width)),
            _ => Err(AsmError::IllegalCombination),
        },
        Statement::LoadSt { dst, addr, width } => match addr {
            AsmOperand::Reg(r) => Ok(Instruction::Load(*dst, *r, *width)),
            _ => Err(AsmError::IllegalCombination),
        },
        _ => Err(AsmError::IllegalCombination),
    }
}

/// Lowers an arithmetic statement, as `lower_arith` reads it.
fn lower_arith_exec(op: ArithOp, family: Family, dst: u8, lhs: u8, rhs: AsmOperand) -> (r: Result<
    Instruction,
    AsmError,
>)
    ensures
        r == lower_arith(op, family, dst, lhs, rhs),
{
    match family {
        Family::Unsigned => match rhs {
            AsmOperand::Reg(rg) => Ok(
                match op {
                    ArithOp::Add => Instruction::Add(dst, lhs, rg),
                    ArithOp::Sub => Instruction::Sub(dst, lhs, rg),
                    ArithOp::Mul => Instruction::Mul(dst, lhs, rg),
                    ArithOp::Div => Instruction::Div(dst, lhs, rg),
                    ArithOp::Mod => Instruction::Mod(dst, lhs, rg),
                },
            ),
            AsmOperand::Unsigned(v) => Ok(
                match op {
                    ArithOp::Add => Instruction::AddImmediate(dst, lhs, v),
                    ArithOp::Sub => Instruction::SubImmediate(dst, lhs, v),
                    ArithOp::Mul => Instruction::MulImmediate(dst, lhs, v),
                    ArithOp::Div => Instruction::DivImmediate(dst, lhs, v),
                    ArithOp::Mod => Instruction::ModImmediate(dst, lhs, v),
                },
            ),
            _ => Err(AsmError::IllegalCombination),
        },
        Family::Signed => match rhs {
            AsmOperand::Reg(rg) => Ok(
                match op {
                    ArithOp::Add => Instruction::SignedAdd(dst, lhs, rg),
                    ArithOp::Sub => Instruction::SignedSub(dst, lhs, rg),
                    ArithOp::Mul => Instruction::SignedMul(dst, lhs, rg),
                    ArithOp::Div => Instruction::SignedDiv(dst, lhs, rg),
                    ArithOp::Mod => Instruction::SignedMod(dst, lhs, rg),
                },
            ),
            AsmOperand::Unsigned(v) => Ok(
                match op {
                    ArithOp::Add => Instruction::SignedAddImmediate(dst, lhs, v),
                    ArithOp::Sub => Instruction::SignedSubImmediate(dst, lhs, v),
                    ArithOp::Mul => Instruction::SignedMulImmediate(dst, lhs, v),
                    ArithOp::Div => Instruction::SignedDivImmediate(dst, lhs, v),
                    ArithOp::Mod => Instruction::SignedModImmediate(dst, lhs, v),
                },
            ),
            AsmOperand::Signed(v) => Ok(
                match op {
                    ArithOp::Add => Instruction::SignedAddImmediate(dst, lhs, v),
                    ArithOp::Sub => Instruction::SignedSubImmediate(dst, lhs, v),
                    ArithOp::Mul => Instruction::SignedMulImmediate(dst, lhs, v),
                    ArithOp::Div => Instruction::SignedDivImmediate(dst, lhs, v),
                    ArithOp::Mod => Instruction::SignedModImmediate(dst, lhs, v),
                },
            ),
            AsmOperand::Float(_) => Err(AsmError::IllegalCombination),
        },
        Family::Float => match rhs {
            AsmOperand::Reg(rg) => Ok(
                match op {
                    ArithOp::Add => Instruction::FloatAdd(dst, lhs, rg),
                    ArithOp::Sub => Instruction::FloatSub(dst, lhs, rg),
                    ArithOp::Mul => Instruction::FloatMul(dst, lhs, rg),
                    ArithOp::Div => Instruction::FloatDiv(dst, lhs, rg),
                    ArithOp::Mod => Instruction::FloatMod(dst, lhs, rg),
                },
            ),
            AsmOperand::Float(v) => Ok(
                match op {
                    ArithOp::Add => Instruction::FloatAddImmediate(dst, lhs, v),
                    ArithOp::Sub => Instruction::FloatSubImmediate(dst, lhs, v),
                    ArithOp::Mul => Instruction::FloatMulImmediate(dst, lhs, v),
                    ArithOp::Div => Instruction::FloatDivImmediate(dst, lhs, v),
                    ArithOp::Mod => Instruction::FloatModImmediate(dst, lhs, v),
                },
            ),
            _ => Err(AsmError::IllegalCombination),
        },
    }
}

/// Lowers an ordering comparison, as `lower_compare` reads it.
fn lower_compare_exec(
    op: CompareOp,
    family: Family,
    dst: u8,
    lhs: u8,
    rhs: AsmOperand,
) -> (r: Result<Instruction, AsmError>)
    ensures
        r == lower_compare(op, family, dst, lhs, rhs),
{
    match family {
        Family::Unsigned => match rhs {
            AsmOperand::Reg(rg) => Ok(
                match op {
                    CompareOp::Gt => Instruction::GreaterThan(dst, lhs, rg),
                    CompareOp::Lt => Instruction::LessThan(dst, lhs, rg),
                    CompareOp::Ge => Instruction::GreaterThanOrEqual(dst, lhs, rg),
                    CompareOp::Le => Instruction::LessThanOrEqual(dst, lhs, rg),
                },
            ),
            AsmOperand::Unsigned(v) => Ok(
                match op {
                    CompareOp::Gt => Instruction::GreaterThanImmediate(dst, lhs, v),
                    CompareOp::Lt => Instruction::LessThanImmediate(dst, lhs, v),
                    CompareOp::Ge => Instruction::GreaterThanOrEqualImmediate(dst, lhs, v),
                    CompareOp::Le => Instruction::LessThanOrEqualImmediate(dst, lhs, v),
                },
            ),
            _ => Err(AsmError::IllegalCombination),
        },
        Family::Signed => match rhs {
            AsmOperand::Reg(rg) => Ok(
                match op {
                    CompareOp::Gt => Instruction::SignedGreaterThan(dst, lhs, rg),
                    CompareOp::Lt => Instruction::SignedLessThan(dst, lhs, rg),
                    CompareOp::Ge => Instruction::SignedGreaterThanOrEqual(dst, lhs, rg),
                    CompareOp::Le => Instruction::SignedLessThanOrEqual(dst, lhs, rg),
                },
            ),
            AsmOperand::Unsigned(v) => Ok(
                match op {
                    CompareOp::Gt => Instruction::SignedGreaterThanImmediate(dst, lhs, v),
                    CompareOp::Lt => Instruction::SignedLessThanImmediate(dst, lhs, v),
                    CompareOp::Ge => Instruction::SignedGreaterThanOrEqualImmediate(dst, lhs, v),
                    CompareOp::Le => Instruction::SignedLessThanOrEqualImmediate(dst, lhs, v),
                },
            ),
            AsmOperand::Signed(v) => Ok(
                match op {
                    CompareOp::Gt => Instruction::SignedGreaterThanImmediate(dst, lhs, v),
                    CompareOp::Lt => Instruction::SignedLessThanImmediate(dst, lhs, v),
                    CompareOp::Ge => Instruction::SignedGreaterThanOrEqualImmediate(dst, lhs, v),
                    CompareOp::Le => Instruction::SignedLessThanOrEqualImmediate(dst, lhs, v),
                },
            ),
            AsmOperand::Float(_) => Err(AsmError::IllegalCombination),
        },
        Family::Float => match rhs {
            AsmOperand::Reg(rg) => Ok(
                match op {
                    CompareOp::Gt => Instruction::FloatGreaterThan(dst, lhs, rg),
                    CompareOp::Lt => Instruction::FloatLessThan(dst, lhs, rg),
                    CompareOp::Ge => Instruction::FloatGreaterThanOrEqual(dst, lhs, rg),
                    CompareOp::Le => Instruction::FloatLessThanOrEqual(dst, lhs, rg),
                },
            ),
            AsmOperand::Float(v) => Ok(
                match op {
                    CompareOp::Gt => Instruction::FloatGreaterThanImmediate(dst, lhs, v),
                    CompareOp::Lt => Instruction::FloatLessThanImmediate(dst, lhs, v),
                    CompareOp::Ge => Instruction::FloatGreaterThanOrEqualImmediate(dst, lhs, v),
                    CompareOp::Le => Instruction::FloatLessThanOrEqualImmediate(dst, lhs, v),
                },
            ),
            _ => Err(AsmError::IllegalCombination),
        },
    }
}

/// Lowers a divmod statement, as `lower_divmod` reads it.
fn lower_divmod_exec(
    family: Family,
    dst_div: u8,
    dst_mod: u8,
    lhs: u8,
    rhs: AsmOperand,
) -> (r: Result<Instruction, AsmError>)
    ensures
        r == lower_divmod(family, dst_div, dst_mod, lhs, rhs),
{
    match family {
        Family::Unsigned => match rhs {
            AsmOperand::Reg(rg) => Ok(Instruction::DivMod(dst_div, dst_mod, lhs, rg)),
            AsmOperand::Unsigned(v) => Ok(Instruction::DivModImmediate(dst_div, dst_mod, lhs, v)),
            _ => Err(AsmError::IllegalCombination),
        },
        Family::Signed => match rhs {
            AsmOperand::Reg(rg) => Ok(Instruction::SignedDivMod(dst_div, dst_mod, lhs, rg)),
            AsmOperand::Unsigned(v) => Ok(
                Instruction::SignedDivModImmediate(dst_div, dst_mod, lhs, v),
            ),
            AsmOperand::Signed(v) => Ok(
                Instruction::SignedDivModImmediate(dst_div, dst_mod, lhs, v),
            ),
            AsmOperand::Float(_) => Err(AsmError::IllegalCombination),
        },
        Family::Float => match rhs {
            AsmOperand::Reg(rg) => Ok(Instruction::FloatDivMod(dst_div, dst_mod, lhs, rg)),
            AsmOperand::Float(v) => Ok(
                Instruction::FloatDivModImmediate(dst_div, dst_mod, lhs, v),
            ),
            _ => Err(AsmError::IllegalCombination),
        },
    }
}

/// Lowers a negate statement, as `lower_negate` reads it.
fn lower_negate_exec(family: Family, dst: u8, src: AsmOperand) -> (r: Result<
    Instruction,
    AsmError,
>)
    ensures
        r == lower_negate(family, dst, src),
{
    match family {
        Family::Unsigned => Err(AsmError::IllegalCombination),
        Family::Signed => match src {
            AsmOperand::Reg(rg) => Ok(Instruction::SignedNegate(dst, rg)),
            AsmOperand::Unsigned(v) => Ok(Instruction::SignedNegateImmediate(dst, v)),
            AsmOperand::Signed(v) => Ok(Instruction::SignedNegateImmediate(dst, v)),
            AsmOperand::Float(_) => Err(AsmError::IllegalCombination),
        },
        Family::Float => match src {
            AsmOperand::Reg(rg) => Ok(Instruction::FloatNegate(dst, rg)),
            AsmOperand::Float(v) => Ok(Instruction::FloatNegateImmediate(dst, v)),
            _ => Err(AsmError::IllegalCombination),
        },
    }
}

/// The two-pass assembler: pass 1 fills `intermediates` and `labels`, pass 2
/// fills `instructions`.
pub struct BffAsmParser {
    pub intermediates: Vec<ParseIntermediate>,
    pub instructions: Vec<Instruction>,
    pub labels: Vec<(Vec<u8>, u32)>,
}

impl BffAsmParser {
    /// A fresh assembler with nothing recorded.
    pub fn new() -> (r: BffAsmParser)
        ensures
            r.intermediates@.len() == 0,
            r.instructions@.len() == 0,
            r.labels@.len() == 0,
    {
        BffAsmParser { intermediates: Vec::new(), instructions: Vec::new(), labels: Vec::new() }
    }

    /// Assembles a statement list: on success `instructions` holds exactly
    /// what `spec_assemble` gives, and `intermediates` and `labels` hold the
    /// pass 1 record.
    pub fn parse(&mut self, statements: &Vec<Statement>) -> (r: Result<(), AsmError>)
        requires
            old(self).intermediates@.len() == 0,
            old(self).instructions@.len() == 0,
            old(self).labels@.len() == 0,
            statements@.len() < 0xFFFF_FFFE,
        ensures
            (match spec_assemble(statements@) {
                Ok(instrs) => r == Ok::<(), AsmError>(()) && final(self).instructions@ == instrs
                    && pass1(statements@, Seq::empty(), Map::empty()) == Ok::<
                    (Seq<IntermediateModel>, Map<Seq<u8>, int>),
                    AsmError,
                >((inter_model(final(self).intermediates@), labels_model(final(self).labels@))),
                Err(e) => r == Err::<(), AsmError>(e),
            }),
    {
        let n = statements.len();
        let mut i: usize = 0;
        proof {
            assert(inter_model(self.intermediates@) =~= Seq::<IntermediateModel>::empty());
            assert(statements@.skip(0) =~= statements@);
        }
        while i < n
            invariant
                i <= n,
                n == statements@.len(),
                n < 0xFFFF_FFFE,
                self.instructions@.len() == 0,
                self.intermediates@.len() <= i,
                pass1(statements@, Seq::empty(), Map::empty()) == pass1(
                    statements@.skip(i as int),
                    inter_model(self.intermediates@),
                    labels_model(self.labels@),
                ),
            decreases n - i,
        {
            let ghost im = inter_model(self.intermediates@);
            let ghost lm = labels_model(self.labels@);
            let st = &statements[i];
            proof {
                assert(statements@.skip(i as int)[0] == statements@[i as int]);
                assert(statements@.skip(i as int).skip(1) =~= statements@.skip(i + 1));
            }
            match st {
                Statement::LabelDecl(name) => {
                    let nm = copy_mem(name, 0, name.len());
                    let ghost lbls = self.labels@;
                    let idx_val = self.intermediates.len() as u32 + 1;
                    self.labels.push((nm, idx_val));
                    proof {
                        assert(nm@ =~= name@);
                        assert(self.labels@.drop_last() =~= lbls);
                        assert(labels_model(self.labels@) == lm.insert(name@, im.len() as int + 1));
                    }
                },
                Statement::JumpSt { label } => {
                    let nm = copy_mem(label, 0, label.len());
                    self.intermediates.push(ParseIntermediate::Jump(nm));
                    proof {
                        assert(nm@ =~= label@);
                        assert(inter_model(self.intermediates@) =~= im.push(
                            IntermediateModel::JumpL(label@),
                        ));
                    }
                },
                Statement::JnzSt { cond, label } => {
                    let nm = copy_mem(label, 0, label.len());
                    self.intermediates.push(ParseIntermediate::Jnz(*cond, nm));
                    proof {
                        assert(nm@ =~= label@);
                        assert(inter_model(self.intermediates@) =~= im.push(
                            IntermediateModel::JnzL(*cond, label@),
                        ));
                    }
                },
                Statement::CallSt { label } => {
                    let nm = copy_mem(label, 0, label.len());
                    self.intermediates.push(ParseIntermediate::Call(nm));
                    proof {
                        assert(nm@ =~= label@);
                        assert(inter_model(self.intermediates@) =~= im.push(
                            IntermediateModel::CallL(label@),
                        ));
                    }
                },
                _ => {
                    match lower_plain_exec(st) {
                        Ok(insn) => {
                            self.intermediates.push(ParseIntermediate::Instruction(insn));
                            proof {
                                assert(inter_model(self.intermediates@) =~= im.push(
                                    IntermediateModel::Instr(insn),
                                ));
                            }
                        },
                        Err(e) => {
                            return Err(e);
                        },
                    }
                },
            }
            i = i + 1;
        }
        proof {
            assert(statements@.skip(n as int) =~= Seq::<Statement>::empty());
        }
        let ghost inter_full = inter_model(self.intermediates@);
        let ghost label_map = labels_model(self.labels@);
        proof {
            assert(inter_full.skip(0) =~= inter_full);
            assert(self.instructions@ =~= Seq::<Instruction>::empty());
        }
        let m = self.intermediates.len();
        let mut j: usize = 0;
        while j < m
            invariant
                j <= m,
                m == self.intermediates@.len(),
                inter_full == inter_model(self.intermediates@),
                label_map == labels_model(self.labels@),
                pass1(statements@, Seq::empty(), Map::empty()) == Ok::<
                    (Seq<IntermediateModel>, Map<Seq<u8>, int>),
                    AsmError,
                >((inter_full, label_map)),
                pass2(inter_full, label_map, Seq::empty()) == pass2(
                    inter_full.skip(j as int),
                    label_map,
                    self.instructions@,
                ),
            decreases m - j,
        {
            proof {
                assert(inter_full.skip(j as int)[0] == inter_full[j as int]);
                assert(inter_full[j as int] == self.intermediates@[j as int]@);
                assert(inter_full.skip(j as int).skip(1) =~= inter_full.skip(j + 1));
            }
            let item = &self.intermediates[j];
            match item {
                ParseIntermediate::Instruction(insn) => {
                    let v = *insn;
                    self.instructions.push(v);
                },
                ParseIntermediate::Jump(l) => {
                    match lookup_label(&self.labels, l) {
                        Some(v) => {
                            self.instructions.push(Instruction::JumpImmediate(v));
                        },
                        None => {
                            return Err(AsmError::UndefinedLabel);
                        },
                    }
                },
                ParseIntermediate::Jnz(c, l) => {
                    match lookup_label(&self.labels, l) {
                        Some(v) => {
                            self.instructions.push(Instruction::JumpNotZeroImmediate(*c, v));
                        },
                        None => {
                            return Err(AsmError::UndefinedLabel);
                        },
                    }
                },
                ParseIntermediate::Call(l) => {
                    match lookup_label(&self.labels, l) {
                        Some(v) => {
                            self.instructions.push(Instruction::Call(v));
                        },
                        None => {
                            return Err(AsmError::UndefinedLabel);
                        },
                    }
                },
            }
            j = j + 1;
        }
        proof {
            assert(inter_full.skip(m as int) =~= Seq::<IntermediateModel>::empty());
        }
        Ok(())
    }
}

} // verus!
