//! The binary object container: a version header, a string table whose
//! entries are preloaded into memory, and the code body of fixed 8-byte
//! instruction slots. `to_bfo_bytes` and `read_program` are stated against
//! the same byte-level grammar, `spec_program_bytes` and `spec_read_program`.
use vstd::prelude::*;
use crate::isa::Instruction;
use crate::isa::BASE_MEMORY_SIZE;
use crate::codec::byte0;
use crate::codec::byte1;
use crate::codec::byte2;
use crate::codec::byte3;
use crate::codec::le32;
use crate::codec::spec_encode;
use crate::codec::spec_decode;
use crate::codec::lemma_le32_bytes;
use crate::codec::lemma_encode_len;
use crate::codec::lemma_encode_opcode;
use crate::codec::lemma_decode_encode;
use vstd::arithmetic::div_mod::lemma_div_denominator;
use crate::vm::VirtualMachine;
use crate::vm::VmModel;
use crate::vm::RunStatus;
use crate::vm::Trap;
use crate::vm::initial_model;
use crate::vm::write_bytes;
use crate::vm::vm_run;
use crate::vm::copy_mem;
use crate::isa::INSTRUCTION_SIZE;

verus! {

/// Version this toolchain writes and expects: major.
pub const VERSION_MAJOR: u16 = 0;

/// Version this toolchain writes and expects: minor.
pub const VERSION_MINOR: u16 = 1;

/// Version this toolchain writes and expects: incremental.
pub const VERSION_INCREMENTAL: u16 = 0;

/// Why a byte stream is not a program.
#[derive(Copy, Clone, Debug, PartialEq, Eq, Structural)]
pub enum DecodeError {
    /// The stream ends inside the header, the string table, or a slot.
    TooShort,
    /// A code-body opcode byte is not assigned.
    UnknownOpcode(u8),
}

/// A loaded or assembled program: version triple, instruction list, and the
/// string table written into memory before execution.
#[derive(Debug, PartialEq, Eq)]
pub struct BFFProgram {
    pub version: (u16, u16, u16),
    pub instructions: Vec<Instruction>,
    pub string_table: Vec<(u32, Vec<u8>)>,
}

/// `BFFProgram` at the specification level.
pub struct ProgramModel {
    pub version: (u16, u16, u16),
    pub instructions: Seq<Instruction>,
    pub table: Seq<(u32, Seq<u8>)>,
}

/// The specification-level reading of a string table held in vectors.
pub open spec fn table_model(t: Seq<(u32, Vec<u8>)>) -> Seq<(u32, Seq<u8>)> {
    Seq::new(t.len(), |i: int| (t[i].0, t[i].1@))
}

impl View for BFFProgram {
    type V = ProgramModel;

    open spec fn view(&self) -> ProgramModel {
        ProgramModel {
            version: self.version,
            instructions: self.instructions@,
            table: table_model(self.string_table@),
        }
    }
}

/// The two little-endian bytes of a 16-bit word.
pub open spec fn u16_le(x: u16) -> Seq<u8> {
    seq![(x % 256) as u8, ((x / 256) % 256) as u8]
}

/// The four little-endian bytes of a 32-bit word.
pub open spec fn u32_le(x: u32) -> Seq<u8> {
    seq![byte0(x), byte1(x), byte2(x), byte3(x)]
}

/// The eight little-endian bytes of a 64-bit count.
pub open spec fn u64_le(x: u64) -> Seq<u8> {
    seq![
        (x % 256) as u8,
        ((x / 0x100) % 256) as u8,
        ((x / 0x1_0000) % 256) as u8,
        ((x / 0x100_0000) % 256) as u8,
        ((x / 0x1_0000_0000) % 256) as u8,
        ((x / 0x100_0000_0000) % 256) as u8,
        ((x / 0x1_0000_0000_0000) % 256) as u8,
        ((x / 0x100_0000_0000_0000) % 256) as u8,
    ]
}

/// The bytes of one string-table entry: length, target address, data.
pub open spec fn entry_bytes(e: (u32, Seq<u8>)) -> Seq<u8> {
    u32_le(e.1.len() as u32) + u32_le(e.0) + e.1
}

/// The bytes of the string table, entries in order.
pub open spec fn table_bytes(t: Seq<(u32, Seq<u8>)>) -> Seq<u8>
    decreases t.len(),
{
    if t.len() == 0 {
        Seq::empty()
    } else {
        entry_bytes(t[0]) + table_bytes(t.skip(1))
    }
}

/// The bytes of the code body, one 8-byte slot per instruction.
pub open spec fn code_bytes(prog: Seq<Instruction>) -> Seq<u8>
    decreases prog.len(),
{
    if prog.len() == 0 {
        Seq::empty()
    } else {
        spec_encode(prog[0]) + code_bytes(prog.skip(1))
    }
}

/// The whole stream a program serializes to: three version fields, two
/// reserved zero bytes, the table count, the table, then the code body.
pub open spec fn spec_program_bytes(p: ProgramModel) -> Seq<u8> {
    u16_le(p.version.0) + u16_le(p.version.1) + u16_le(p.version.2) + seq![0u8, 0u8] + u64_le(
        p.table.len() as u64,
    ) + table_bytes(p.table) + code_bytes(p.instructions)
}

/// Parses `n` string-table entries starting at `idx`, entries read so far in
/// `acc`; gives the entries and the index after them.
pub open spec fn parse_table(
    bytes: Seq<u8>,
    idx: int,
    n: nat,
    acc: Seq<(u32, Seq<u8>)>,
) -> Result<(Seq<(u32, Seq<u8>)>, int), DecodeError>
    decreases n,
{
    if n == 0 {
        Ok((acc, idx))
    } else if idx + 8 > bytes.len() {
        Err(DecodeError::TooShort)
    } else {
        let l = le32(bytes[idx], bytes[idx + 1], bytes[idx + 2], bytes[idx + 3]);
        let a = le32(bytes[idx + 4], bytes[idx + 5], bytes[idx + 6], bytes[idx + 7]);
        if idx + 8 + l > bytes.len() {
            Err(DecodeError::TooShort)
        } else {
            parse_table(
                bytes,
                idx + 8 + l,
                (n - 1) as nat,
                acc.push((a, bytes.subrange(idx + 8, idx + 8 + l))),
            )
        }
    }
}

/// Parses the code body from `idx` to the end of the stream, slots read so
/// far in `acc`. A trailing fragment shorter than a slot, and an unassigned
/// opcode byte, are errors.
pub open spec fn parse_code(
    bytes: Seq<u8>,
    idx: int,
    acc: Seq<Instruction>,
) -> Result<Seq<Instruction>, DecodeError>
    decreases bytes.len() - idx,
{
    if idx >= bytes.len() {
        Ok(acc)
    } else if idx + 8 > bytes.len() {
        Err(DecodeError::TooShort)
    } else if bytes[idx] >= 95 {
        Err(DecodeError::UnknownOpcode(bytes[idx]))
    } else {
        parse_code(bytes, idx + 8, acc.push(spec_decode(bytes.subrange(idx, idx + 8))))
    }
}

/// The table count read from the stream's count field at `i`.
pub open spec fn le64_at(bytes: Seq<u8>, i: int) -> int {
    bytes[i] + 0x100 * bytes[i + 1] + 0x1_0000 * bytes[i + 2] + 0x100_0000 * bytes[i + 3]
        + 0x1_0000_0000 * bytes[i + 4] + 0x100_0000_0000 * bytes[i + 5] + 0x1_0000_0000_0000
        * bytes[i + 6] + 0x100_0000_0000_0000 * bytes[i + 7]
}

/// The program a byte stream parses to, or why it does not.
pub open spec fn spec_read_program(bytes: Seq<u8>) -> Result<ProgramModel, DecodeError> {
    if bytes.len() < 16 {
        Err(DecodeError::TooShort)
    } else {
        let major = (bytes[0] + 256 * bytes[1]) as u16;
        let minor = (bytes[2] + 256 * bytes[3]) as u16;
        let incremental = (bytes[4] + 256 * bytes[5]) as u16;
        let count = le64_at(bytes, 8);
        match parse_table(bytes, 16, count as nat, Seq::empty()) {
            Err(e) => Err(e),
            Ok((table, idx)) => match parse_code(bytes, idx, Seq::empty()) {
                Err(e) => Err(e),
                Ok(instructions) => Ok(
                    ProgramModel { version: (major, minor, incremental), instructions, table },
                ),
            },
        }
    }
}

/// The memory after the string table is written in order; an entry that
/// reaches past the end of memory is the loader's fault.
pub open spec fn store_table(m: VmModel, t: Seq<(u32, Seq<u8>)>) -> Result<VmModel, Trap>
    decreases t.len(),
{
    if t.len() == 0 {
        Ok(m)
    } else {
        let (a, bs) = t[0];
        if a + bs.len() > BASE_MEMORY_SIZE {
            Err(Trap::MemoryOutOfBounds)
        } else {
            store_table(VmModel { mem: write_bytes(m.mem, a as int, bs), ..m }, t.skip(1))
        }
    }
}

/// The machine a program boots into: a fresh machine with the program loaded
/// behind the guard Nop and the string table written into memory.
pub open spec fn program_boot(p: ProgramModel) -> Result<VmModel, Trap> {
    store_table(
        VmModel { prog: seq![Instruction::Nop] + p.instructions, ..initial_model() },
        p.table,
    )
}

impl BFFProgram {
    /// Bounds under which the program serializes and loads: each string fits
    /// a 32-bit length and the instruction list fits instruction addressing.
    pub open spec fn wf(&self) -> bool {
        &&& self.instructions@.len() < 0xFFFF_FFFF
        &&& forall|i: int|
            0 <= i < self.string_table@.len() ==> (#[trigger] self.string_table@[i]).1@.len()
                < 0x1_0000_0000
        &&& self.string_table@.len() < 0x1_0000_0000
    }

    /// Wraps the parts of a program.
    pub fn new(
        version: (u16, u16, u16),
        instructions: Vec<Instruction>,
        string_table: Vec<(u32, Vec<u8>)>,
    ) -> (r: BFFProgram)
        ensures
            r.version == version,
            r.instructions == instructions,
            r.string_table == string_table,
    {
        BFFProgram { version, instructions, string_table }
    }

    /// Whether the version triple is the one this toolchain expects; a
    /// mismatch is a warning for the caller to report, never an error.
    pub fn version_matches(&self) -> (r: bool)
        ensures
            r == (self.version == (VERSION_MAJOR, VERSION_MINOR, VERSION_INCREMENTAL)),
    {
        self.version.0 == VERSION_MAJOR && self.version.1 == VERSION_MINOR && self.version.2
            == VERSION_INCREMENTAL
    }

    /// Boots a fresh machine with this program and runs it for at most
    /// `max_steps` steps.
    pub fn execute(&self, max_steps: u64) -> (r: (VirtualMachine, RunStatus))
        requires
            self.wf(),
        ensures
            r.0.wf(),
            (match program_boot(self@) {
                Err(t) => r.1 == RunStatus::Trapped(t),
                Ok(m0) => (r.0@, r.1) == vm_run(m0, max_steps as nat),
            }),
    {
        let mut vm = VirtualMachine::new();
        let mut instructions: Vec<Instruction> = Vec::new();
        let n = self.instructions.len();
        let mut i: usize = 0;
        while i < n
            invariant
                i <= n,
                n == self.instructions@.len(),
                instructions@ == self.instructions@.subrange(0, i as int),
            decreases n - i,
        {
            instructions.push(self.instructions[i]);
            proof {
                assert(instructions@ =~= self.instructions@.subrange(0, i + 1));
            }
            i = i + 1;
        }
        proof {
            assert(self.instructions@.subrange(0, n as int) =~= self.instructions@);
        }
        vm.load_program(instructions);
        proof {
            assert(self@.table.skip(0) =~= self@.table);
        }
        let k = self.string_table.len();
        let mut j: usize = 0;
        while j < k
            invariant
                j <= k,
                k == self.string_table@.len(),
                self.wf(),
                vm.wf(),
                vm@.pending is None,
                store_table(vm@, self@.table.skip(j as int)) == program_boot(self@),
            decreases k - j,
        {
            let entry_addr = self.string_table[j].0;
            let r = vm.store_string(entry_addr, self.string_table[j].1.as_slice());
            proof {
                assert(self@.table.skip(j as int)[0] == (self.string_table@[j as int].0, self.string_table@[j as int].1@));
                assert(self@.table.skip(j as int).skip(1) =~= self@.table.skip(j + 1));
            }
            match r {
                Ok(()) => {
                },
                Err(t) => {
                    return (vm, RunStatus::Trapped(t));
                },
            }
            j = j + 1;
        }
        proof {
            assert(self@.table.skip(k as int) =~= Seq::<(u32, Seq<u8>)>::empty());
        }
        let status = vm.execute_instruction_list(max_steps);
        (vm, status)
    }
}


/// Appends the two little-endian bytes of a 16-bit word.
fn push_u16_le(bytes: &mut Vec<u8>, x: u16)
    ensures
        final(bytes)@ == old(bytes)@ + u16_le(x),
{
    bytes.push((x % 256) as u8);
    bytes.push(((x / 256) % 256) as u8);
    proof {
        assert(bytes@ =~= old(bytes)@ + u16_le(x));
    }
}

/// Appends the four little-endian bytes of a 32-bit word.
fn push_u32_le(bytes: &mut Vec<u8>, x: u32)
    ensures
        final(bytes)@ == old(bytes)@ + u32_le(x),
{
    bytes.push((x % 256) as u8);
    bytes.push(((x / 256) % 256) as u8);
    bytes.push(((x / 65536) % 256) as u8);
    bytes.push(((x / 16777216) % 256) as u8);
    proof {
        assert(bytes@ =~= old(bytes)@ + u32_le(x));
    }
}

/// Appends the eight little-endian bytes of a 64-bit count.
fn push_u64_le(bytes: &mut Vec<u8>, x: u64)
    ensures
        final(bytes)@ == old(bytes)@ + u64_le(x),
{
    bytes.push((x % 256) as u8);
    bytes.push(((x / 0x100) % 256) as u8);
    bytes.push(((x / 0x1_0000) % 256) as u8);
    bytes.push(((x / 0x100_0000) % 256) as u8);
    bytes.push(((x / 0x1_0000_0000) % 256) as u8);
    bytes.push(((x / 0x100_0000_0000) % 256) as u8);
    bytes.push(((x / 0x1_0000_0000_0000) % 256) as u8);
    bytes.push(((x / 0x100_0000_0000_0000) % 256) as u8);
    proof {
        assert(bytes@ =~= old(bytes)@ + u64_le(x));
    }
}

impl BFFProgram {
    /// Serializes the program: header, reserved padding, table count, table
    /// entries in order, then one 8-byte slot per instruction.
    pub fn to_bfo_bytes(&self) -> (r: Vec<u8>)
        requires
            self.wf(),
        ensures
            r@ == spec_program_bytes(self@),
    {
        let mut bytes: Vec<u8> = Vec::new();
        push_u16_le(&mut bytes, self.version.0);
        push_u16_le(&mut bytes, self.version.1);
        push_u16_le(&mut bytes, self.version.2);
        bytes.push(0);
        bytes.push(0);
        push_u64_le(&mut bytes, self.string_table.len() as u64);
        proof {
            assert(bytes@ =~= u16_le(self@.version.0) + u16_le(self@.version.1) + u16_le(
                self@.version.2,
            ) + seq![0u8, 0u8] + u64_le(self@.table.len() as u64));
            assert(self@.table.skip(0) =~= self@.table);
        }
        let k = self.string_table.len();
        let mut j: usize = 0;
        while j < k
            invariant
                j <= k,
                k == self.string_table@.len(),
                self.wf(),
                bytes@ + table_bytes(self@.table.skip(j as int)) + code_bytes(self@.instructions)
                    == spec_program_bytes(self@),
            decreases k - j,
        {
            let ghost start = bytes@;
            let ghost suffix = self@.table.skip(j as int);
            let entry_len = self.string_table[j].1.len();
            push_u32_le(&mut bytes, entry_len as u32);
            push_u32_le(&mut bytes, self.string_table[j].0);
            let mut b: usize = 0;
            while b < entry_len
                invariant
                    b <= entry_len,
                    j < k,
                    k == self.string_table@.len(),
                    entry_len == self.string_table@[j as int].1@.len(),
                    entry_len < 0x1_0000_0000,
                    bytes@ == start + u32_le(entry_len as u32) + u32_le(
                        self.string_table@[j as int].0,
                    ) + self.string_table@[j as int].1@.subrange(0, b as int),
                decreases entry_len - b,
            {
                bytes.push(self.string_table[j].1[b]);
                proof {
                    assert(bytes@ =~= start + u32_le(entry_len as u32) + u32_le(
                        self.string_table@[j as int].0,
                    ) + self.string_table@[j as int].1@.subrange(0, b + 1));
                }
                b = b + 1;
            }
            proof {
                assert(self.string_table@[j as int].1@.subrange(
                    0,
                    entry_len as int,
                ) =~= self.string_table@[j as int].1@);
                assert(suffix[0] == (self.string_table@[j as int].0, self.string_table@[j as int].1@));
                assert(bytes@ =~= start + entry_bytes(suffix[0]));
                assert(suffix.skip(1) =~= self@.table.skip(j + 1));
                assert(table_bytes(suffix) == entry_bytes(suffix[0]) + table_bytes(
                    self@.table.skip(j + 1),
                ));
                assert(bytes@ + table_bytes(self@.table.skip(j + 1)) =~= start + table_bytes(
                    suffix,
                ));
                assert(bytes@ + table_bytes(self@.table.skip(j + 1)) + code_bytes(
                    self@.instructions,
                ) =~= start + table_bytes(suffix) + code_bytes(self@.instructions));
            }
            j = j + 1;
        }
        proof {
            assert(self@.table.skip(k as int) =~= Seq::<(u32, Seq<u8>)>::empty());
            assert(bytes@ + table_bytes(self@.table.skip(k as int)) =~= bytes@);
            assert(self@.instructions.skip(0) =~= self@.instructions);
            assert(bytes@ + code_bytes(self@.instructions) == spec_program_bytes(self@));
        }
        let n = self.instructions.len();
        let mut i: usize = 0;
        while i < n
            invariant
                i <= n,
                n == self.instructions@.len(),
                bytes@ + code_bytes(self@.instructions.skip(i as int)) == spec_program_bytes(
                    self@,
                ),
            decreases n - i,
        {
            let ghost start = bytes@;
            let ghost suffix = self@.instructions.skip(i as int);
            let slot = self.instructions[i].to_bfo_bytes();
            let mut t: usize = 0;
            while t < INSTRUCTION_SIZE
                invariant
                    t <= INSTRUCTION_SIZE,
                    slot@.len() == INSTRUCTION_SIZE,
                    bytes@ == start + slot@.subrange(0, t as int),
                decreases INSTRUCTION_SIZE - t,
            {
                bytes.push(slot[t]);
                proof {
                    assert(bytes@ =~= start + slot@.subrange(0, t + 1));
                }
                t = t + 1;
            }
            proof {
                assert(slot@.subrange(0, 8) =~= slot@);
                assert(suffix[0] == self@.instructions[i as int]);
                assert(suffix.skip(1) =~= self@.instructions.skip(i + 1));
                assert(code_bytes(suffix) == spec_encode(suffix[0]) + code_bytes(
                    self@.instructions.skip(i + 1),
                ));
                assert(bytes@ + code_bytes(self@.instructions.skip(i + 1)) =~= start + code_bytes(
                    suffix,
                ));
            }
            i = i + 1;
        }
        proof {
            assert(self@.instructions.skip(n as int) =~= Seq::<Instruction>::empty());
            assert(bytes@ + code_bytes(self@.instructions.skip(n as int)) =~= bytes@);
        }
        bytes
    }
}

/// Reads programs back from their byte streams.
pub struct BFOReader {}

impl BFOReader {
    /// Parses a byte stream into a program, against the same grammar that
    /// `to_bfo_bytes` writes: header, table count, table entries, then
    /// 8-byte slots to the end of the stream.
    pub fn read_program(program: Vec<u8>) -> (r: Result<BFFProgram, DecodeError>)
        ensures
            (match r {
                Ok(p) => spec_read_program(program@) == Ok::<ProgramModel, DecodeError>(p@),
                Err(e) => spec_read_program(program@) == Err::<ProgramModel, DecodeError>(e),
            }),
    {
        let total = program.len();
        if total < 16 {
            return Err(DecodeError::TooShort);
        }
        let major = program[0] as u16 + 256 * (program[1] as u16);
        let minor = program[2] as u16 + 256 * (program[3] as u16);
        let incremental = program[4] as u16 + 256 * (program[5] as u16);
        let count = program[8] as u64 + 0x100 * (program[9] as u64) + 0x1_0000 * (
        program[10] as u64) + 0x100_0000 * (program[11] as u64) + 0x1_0000_0000 * (
        program[12] as u64) + 0x100_0000_0000 * (program[13] as u64) + 0x1_0000_0000_0000 * (
        program[14] as u64) + 0x100_0000_0000_0000 * (program[15] as u64);
        let mut table: Vec<(u32, Vec<u8>)> = Vec::new();
        let mut idx: usize = 16;
        let mut done: u64 = 0;
        proof {
            assert(table_model(table@) =~= Seq::<(u32, Seq<u8>)>::empty());
            assert(count as int == le64_at(program@, 8));
        }
        while done < count
            invariant
                16 <= idx <= total,
                total == program@.len(),
                done <= count,
                count as int == le64_at(program@, 8),
                parse_table(program@, 16, count as nat, Seq::empty()) == parse_table(
                    program@,
                    idx as int,
                    (count - done) as nat,
                    table_model(table@),
                ),
            decreases count - done,
        {
            if total - idx < 8 {
                proof {
                    assert(parse_table(
                        program@,
                        idx as int,
                        (count - done) as nat,
                        table_model(table@),
                    ) == Err::<(Seq<(u32, Seq<u8>)>, int), DecodeError>(DecodeError::TooShort));
                }
                return Err(DecodeError::TooShort);
            }
            let l = program[idx] as u32 + 256 * (program[idx + 1] as u32) + 65536 * (
            program[idx + 2] as u32) + 16777216 * (program[idx + 3] as u32);
            let a = program[idx + 4] as u32 + 256 * (program[idx + 5] as u32) + 65536 * (
            program[idx + 6] as u32) + 16777216 * (program[idx + 7] as u32);
            if l as usize > total - (idx + 8) {
                proof {
                    assert(parse_table(
                        program@,
                        idx as int,
                        (count - done) as nat,
                        table_model(table@),
                    ) == Err::<(Seq<(u32, Seq<u8>)>, int), DecodeError>(DecodeError::TooShort));
                }
                return Err(DecodeError::TooShort);
            }
            let data = copy_mem(&program, idx + 8, l as usize);
            let ghost tm = table_model(table@);
            table.push((a, data));
            proof {
                assert(table_model(table@) =~= tm.push((a, program@.subrange(idx + 8, idx + 8 + l))));
            }
            idx = idx + 8 + l as usize;
            done = done + 1;
        }
        let mut instructions: Vec<Instruction> = Vec::new();
        let ghost code_start = idx as int;
        while idx < total
            invariant
                idx <= total,
                16 <= total,
                total == program@.len(),
                count as int == le64_at(program@, 8),
                parse_table(program@, 16, count as nat, Seq::empty()) == Ok::<
                    (Seq<(u32, Seq<u8>)>, int),
                    DecodeError,
                >((table_model(table@), code_start)),
                parse_code(program@, code_start, Seq::empty()) == parse_code(
                    program@,
                    idx as int,
                    instructions@,
                ),
            decreases total - idx,
        {
            if total - idx < 8 {
                return Err(DecodeError::TooShort);
            }
            let op = program[idx];
            if op >= 95 {
                return Err(DecodeError::UnknownOpcode(op));
            }
            let slot: [u8; INSTRUCTION_SIZE] = [
                program[idx],
                program[idx + 1],
                program[idx + 2],
                program[idx + 3],
                program[idx + 4],
                program[idx + 5],
                program[idx + 6],
                program[idx + 7],
            ];
            proof {
                assert(slot@ =~= program@.subrange(idx as int, idx + 8));
            }
            let insn = Instruction::from_bfo_bytes(slot);
            instructions.push(insn);
            idx = idx + 8;
        }
        Ok(
            BFFProgram {
                version: (major, minor, incremental),
                instructions,
                string_table: table,
            },
        )
    }
}


/// The instruction pairs that write a byte string into memory: greedy
/// 4-byte words, then a 2-byte tail, then a single byte, each as a
/// MoveImmediate into the scratch register followed by a direct Store.
pub open spec fn spec_string_stores(address: u32, register: u8, s: Seq<u8>) -> Seq<Instruction>
    decreases s.len(),
{
    if s.len() == 0 {
        Seq::empty()
    } else if s.len() >= 4 {
        seq![
            Instruction::MoveImmediate(register, le32(s[0], s[1], s[2], s[3])),
            Instruction::Store(address, register, 0),
        ] + spec_string_stores((address + 4) as u32, register, s.skip(4))
    } else if s.len() >= 2 {
        seq![
            Instruction::MoveImmediate(register, le32(s[0], s[1], 0, 0)),
            Instruction::Store(address, register, 2),
        ] + spec_string_stores((address + 2) as u32, register, s.skip(2))
    } else {
        seq![
            Instruction::MoveImmediate(register, s[0] as u32),
            Instruction::Store(address, register, 3),
        ] + spec_string_stores((address + 1) as u32, register, s.skip(1))
    }
}

/// Instructions that write `input` into memory at `address`, staging each
/// chunk through `register`.
pub fn string_to_instructions(address: u32, register: u8, input: &[u8]) -> (r: Vec<Instruction>)
    requires
        address + input@.len() <= 0xFFFF_FFFF,
    ensures
        r@ == spec_string_stores(address, register, input@),
{
    let mut r: Vec<Instruction> = Vec::new();
    let n = input.len();
    let mut i: usize = 0;
    let mut a: u32 = address;
    proof {
        assert(input@.skip(0) =~= input@);
    }
    while i < n
        invariant
            i <= n,
            n == input@.len(),
            a == address + i,
            address + n <= 0xFFFF_FFFF,
            r@ + spec_string_stores(a, register, input@.skip(i as int)) == spec_string_stores(
                address,
                register,
                input@,
            ),
        decreases n - i,
    {
        let ghost suffix = input@.skip(i as int);
        let ghost start = r@;
        let remaining = n - i;
        proof {
            assert(suffix[0] == input@[i as int]);
            assert(suffix.len() > 1 ==> suffix[1] == input@[i + 1]);
            assert(suffix.len() > 2 ==> suffix[2] == input@[i + 2]);
            assert(suffix.len() > 3 ==> suffix[3] == input@[i + 3]);
        }
        let step: usize = if remaining >= 4 {
            let b0 = input[i] as u32;
            let b1 = input[i + 1] as u32;
            let b2 = input[i + 2] as u32;
            let b3 = input[i + 3] as u32;
            r.push(Instruction::MoveImmediate(register, b0 + 256 * b1 + 65536 * b2 + 16777216 * b3));
            r.push(Instruction::Store(a, register, 0));
            4
        } else if remaining >= 2 {
            let b0 = input[i] as u32;
            let b1 = input[i + 1] as u32;
            r.push(Instruction::MoveImmediate(register, b0 + 256 * b1));
            r.push(Instruction::Store(a, register, 2));
            2
        } else {
            r.push(Instruction::MoveImmediate(register, input[i] as u32));
            r.push(Instruction::Store(a, register, 3));
            1
        };
        proof {
            assert(suffix.skip(step as int) =~= input@.skip(i + step));
            assert(r@ =~= start + spec_string_stores(a, register, suffix).take(2));
            assert(spec_string_stores(a, register, suffix).take(2) + spec_string_stores(
                (a + step) as u32,
                register,
                input@.skip(i + step),
            ) =~= spec_string_stores(a, register, suffix));
            assert(r@ + spec_string_stores((a + step) as u32, register, input@.skip(i + step))
                =~= start + spec_string_stores(a, register, suffix));
        }
        i = i + step;
        a = a + step as u32;
    }
    proof {
        assert(input@.skip(n as int) =~= Seq::<u8>::empty());
        assert(r@ + spec_string_stores(a, register, input@.skip(n as int)) =~= r@);
    }
    r
}

/// Instructions that write `string` into memory and then print it to
/// standard output through the write system call: length, address,
/// descriptor and call number pushed in that order.
pub fn print_string_as_instructions(address: u32, register: u8, string: &[u8]) -> (r: Vec<
    Instruction,
>)
    requires
        address + string@.len() <= 0xFFFF_FFFF,
    ensures
        r@ == spec_string_stores(address, register, string@) + seq![
            Instruction::PushImmediate(string@.len() as u32),
            Instruction::PushImmediate(address),
            Instruction::PushImmediate(0u32),
            Instruction::PushImmediate(1u32),
            Instruction::SystemCall,
        ],
{
    let mut r = string_to_instructions(address, register, string);
    let ghost stores = r@;
    r.push(Instruction::PushImmediate(string.len() as u32));
    r.push(Instruction::PushImmediate(address));
    r.push(Instruction::PushImmediate(0));
    r.push(Instruction::PushImmediate(1));
    r.push(Instruction::SystemCall);
    proof {
        assert(r@ =~= stores + seq![
            Instruction::PushImmediate(string@.len() as u32),
            Instruction::PushImmediate(address),
            Instruction::PushImmediate(0u32),
            Instruction::PushImmediate(1u32),
            Instruction::SystemCall,
        ]);
    }
    r
}


/// The two little-endian bytes of a 16-bit word recompose to the word.
proof fn lemma_u16_le_value(x: u16)
    ensures
        u16_le(x)[0] + 256 * u16_le(x)[1] == x,
{
    assert(x as int == 256 * (x as int / 256) + x as int % 256);
}

/// The eight little-endian bytes of a 64-bit count recompose to the count.
proof fn lemma_u64_le_value(x: u64)
    ensures
        u64_le(x)[0] + 0x100 * u64_le(x)[1] + 0x1_0000 * u64_le(x)[2] + 0x100_0000 * u64_le(x)[3]
            + 0x1_0000_0000 * u64_le(x)[4] + 0x100_0000_0000 * u64_le(x)[5] + 0x1_0000_0000_0000
            * u64_le(x)[6] + 0x100_0000_0000_0000 * u64_le(x)[7] == x,
{
    let xi = x as int;
    lemma_div_denominator(xi, 0x100, 0x100);
    lemma_div_denominator(xi, 0x1_0000, 0x100);
    lemma_div_denominator(xi, 0x100_0000, 0x100);
    lemma_div_denominator(xi, 0x1_0000_0000, 0x100);
    lemma_div_denominator(xi, 0x100_0000_0000, 0x100);
    lemma_div_denominator(xi, 0x1_0000_0000_0000, 0x100);
    assert(xi / 0x1_0000_0000_0000 / 0x100 == xi / 0x100_0000_0000_0000);
    assert(xi / 0x100_0000_0000_0000 < 0x100);
    assert(xi == 0x100 * (xi / 0x100) + xi % 0x100);
    assert(xi / 0x100 == 0x100 * (xi / 0x100 / 0x100) + (xi / 0x100) % 0x100);
    assert(xi / 0x1_0000 == 0x100 * (xi / 0x1_0000 / 0x100) + (xi / 0x1_0000) % 0x100);
    assert(xi / 0x100_0000 == 0x100 * (xi / 0x100_0000 / 0x100) + (xi / 0x100_0000) % 0x100);
    assert(xi / 0x1_0000_0000 == 0x100 * (xi / 0x1_0000_0000 / 0x100) + (xi / 0x1_0000_0000)
        % 0x100);
    assert(xi / 0x100_0000_0000 == 0x100 * (xi / 0x100_0000_0000 / 0x100) + (xi
        / 0x100_0000_0000) % 0x100);
    assert(xi / 0x1_0000_0000_0000 == 0x100 * (xi / 0x1_0000_0000_0000 / 0x100) + (xi
        / 0x1_0000_0000_0000) % 0x100);
}

/// The code body is eight bytes per instruction.
proof fn lemma_code_bytes_len(prog: Seq<Instruction>)
    ensures
        code_bytes(prog).len() == 8 * prog.len(),
    decreases prog.len(),
{
    if prog.len() > 0 {
        lemma_encode_len(prog[0]);
        lemma_code_bytes_len(prog.skip(1));
    }
}

/// Parsing a serialized code body gives the instruction list back.
proof fn lemma_parse_code_inverts(
    bytes: Seq<u8>,
    idx: int,
    prog: Seq<Instruction>,
    acc: Seq<Instruction>,
)
    requires
        0 <= idx,
        bytes.len() == idx + code_bytes(prog).len(),
        bytes.subrange(idx, bytes.len() as int) == code_bytes(prog),
    ensures
        parse_code(bytes, idx, acc) == Ok::<Seq<Instruction>, DecodeError>(acc + prog),
    decreases prog.len(),
{
    lemma_code_bytes_len(prog);
    if prog.len() == 0 {
        assert(acc + prog =~= acc);
    } else {
        let slot = spec_encode(prog[0]);
        lemma_encode_len(prog[0]);
        lemma_encode_opcode(prog[0]);
        lemma_code_bytes_len(prog.skip(1));
        assert forall|k: int| 0 <= k < 8 implies bytes[idx + k] == slot[k] by {
            assert(bytes.subrange(idx, bytes.len() as int)[k] == bytes[idx + k]);
            assert(code_bytes(prog)[k] == slot[k]);
        }
        assert(bytes[idx] == slot[0]);
        assert(bytes.subrange(idx, idx + 8) =~= slot);
        lemma_decode_encode(prog[0]);
        assert(spec_decode(bytes.subrange(idx, idx + 8)) == prog[0]);
        assert forall|k: int| 0 <= k < code_bytes(prog.skip(1)).len() implies bytes[idx + 8 + k]
            == code_bytes(prog.skip(1))[k] by {
            assert(bytes.subrange(idx, bytes.len() as int)[8 + k] == bytes[idx + 8 + k]);
            assert(code_bytes(prog)[8 + k] == code_bytes(prog.skip(1))[k]);
        }
        assert(bytes.subrange(idx + 8, bytes.len() as int) =~= code_bytes(prog.skip(1)));
        lemma_parse_code_inverts(bytes, idx + 8, prog.skip(1), acc.push(prog[0]));
        assert(acc.push(prog[0]) + prog.skip(1) =~= acc + prog);
    }
}

/// Parsing a serialized string table gives the entries back and lands just
/// after them.
proof fn lemma_parse_table_inverts(
    bytes: Seq<u8>,
    idx: int,
    t: Seq<(u32, Seq<u8>)>,
    acc: Seq<(u32, Seq<u8>)>,
)
    requires
        0 <= idx,
        idx + table_bytes(t).len() <= bytes.len(),
        bytes.subrange(idx, idx + table_bytes(t).len()) == table_bytes(t),
        forall|k: int| 0 <= k < t.len() ==> (#[trigger] t[k]).1.len() < 0x1_0000_0000,
    ensures
        parse_table(bytes, idx, t.len() as nat, acc) == Ok::<
            (Seq<(u32, Seq<u8>)>, int),
            DecodeError,
        >((acc + t, idx + table_bytes(t).len())),
    decreases t.len(),
{
    if t.len() == 0 {
        assert(acc + t =~= acc);
    } else {
        let e = t[0];
        let eb = entry_bytes(e);
        let l32 = e.1.len() as u32;
        assert(eb.len() == 8 + e.1.len());
        assert forall|k: int| 0 <= k < eb.len() implies bytes[idx + k] == eb[k] by {
            assert(table_bytes(t)[k] == eb[k]);
            assert(bytes.subrange(idx, idx + table_bytes(t).len())[k] == bytes[idx + k]);
        }
        lemma_le32_bytes(l32);
        lemma_le32_bytes(e.0);
        assert(eb[0] == byte0(l32) && eb[1] == byte1(l32) && eb[2] == byte2(l32) && eb[3]
            == byte3(l32));
        assert(eb[4] == byte0(e.0) && eb[5] == byte1(e.0) && eb[6] == byte2(e.0) && eb[7]
            == byte3(e.0));
        assert(le32(bytes[idx], bytes[idx + 1], bytes[idx + 2], bytes[idx + 3]) == l32);
        assert(le32(bytes[idx + 4], bytes[idx + 5], bytes[idx + 6], bytes[idx + 7]) == e.0);
        assert forall|k: int| 0 <= k < e.1.len() implies bytes[idx + 8 + k] == e.1[k] by {
            assert(bytes[idx + (8 + k)] == eb[8 + k]);
            assert(eb[8 + k] == e.1[k]);
        }
        assert(bytes.subrange(idx + 8, idx + 8 + l32) =~= e.1);
        assert((e.0, bytes.subrange(idx + 8, idx + 8 + l32)) == e);
        assert(table_bytes(t.skip(1)).len() == table_bytes(t).len() - eb.len());
        assert forall|k: int| 0 <= k < table_bytes(t.skip(1)).len() implies bytes[idx + eb.len()
            + k] == table_bytes(t.skip(1))[k] by {
            assert(bytes.subrange(idx, idx + table_bytes(t).len() as int)[eb.len() + k]
                == bytes[idx + eb.len() + k]);
            assert(table_bytes(t)[eb.len() + k] == table_bytes(t.skip(1))[k]);
        }
        assert(bytes.subrange(idx + eb.len(), idx + table_bytes(t).len()) =~= table_bytes(
            t.skip(1),
        ));
        lemma_parse_table_inverts(bytes, idx + eb.len(), t.skip(1), acc.push(e));
        assert(acc.push(e) + t.skip(1) =~= acc + t);
    }
}

/// Serializing a program and reading the stream back gives the program: the
/// container codec loses nothing.
pub proof fn lemma_program_bytes_roundtrip(p: ProgramModel)
    requires
        p.table.len() < 0x1_0000_0000,
        forall|k: int| 0 <= k < p.table.len() ==> (#[trigger] p.table[k]).1.len() < 0x1_0000_0000,
    ensures
        spec_read_program(spec_program_bytes(p)) == Ok::<ProgramModel, DecodeError>(p),
{
    let bytes = spec_program_bytes(p);
    let cnt = p.table.len() as u64;
    let prefix = u16_le(p.version.0) + u16_le(p.version.1) + u16_le(p.version.2) + seq![0u8, 0u8]
        + u64_le(cnt);
    assert(prefix.len() == 16);
    assert(bytes.len() == 16 + table_bytes(p.table).len() + code_bytes(p.instructions).len());
    assert forall|k: int| 0 <= k < 16 implies bytes[k] == prefix[k] by {
    }
    lemma_u16_le_value(p.version.0);
    lemma_u16_le_value(p.version.1);
    lemma_u16_le_value(p.version.2);
    assert((bytes[0] + 256 * bytes[1]) as u16 == p.version.0);
    assert((bytes[2] + 256 * bytes[3]) as u16 == p.version.1);
    assert((bytes[4] + 256 * bytes[5]) as u16 == p.version.2);
    lemma_u64_le_value(cnt);
    assert(le64_at(bytes, 8) == cnt);
    assert(bytes.subrange(16, 16 + table_bytes(p.table).len() as int) =~= table_bytes(p.table));
    lemma_parse_table_inverts(bytes, 16, p.table, Seq::empty());
    assert(Seq::empty() + p.table =~= p.table);
    let code_start: int = 16 + table_bytes(p.table).len() as int;
    assert(bytes.subrange(code_start, bytes.len() as int) =~= code_bytes(p.instructions));
    lemma_parse_code_inverts(bytes, code_start, p.instructions, Seq::empty());
    assert(Seq::empty() + p.instructions =~= p.instructions);
    assert((p.version.0, p.version.1, p.version.2) == p.version);
    assert(spec_read_program(bytes) == Ok::<ProgramModel, DecodeError>(
        ProgramModel {
            version: p.version,
            instructions: p.instructions,
            table: p.table,
        },
    ));
    assert(ProgramModel { version: p.version, instructions: p.instructions, table: p.table } == p);
}

} // verus!
