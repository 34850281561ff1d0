//! The Z80 instruction set.
//!
//! The instruction set is made of seven tables: the main one, the tables of the `CB`, `ED`, `DD`
//! and `FD` prefixes, and the tables of the `DD CB` and `FD CB` prefixes, whose opcode comes after
//! an offset byte.

pub mod bit_instructions;
pub mod indexed;
pub mod misc;
pub mod two_prefix;

use crate::cpus::z80::bit_instructions::{
    bit_entry, bit_micros, operand_register, spec_operand_register,
};
use crate::cpus::z80::indexed::{indexed_entry, indexed_table};
use crate::cpus::z80::misc::{misc_entry, misc_table};
use crate::cpus::z80::two_prefix::{index_bit_entry, index_bit_micros};
use crate::instructions::micro::step::{
    Address, Condition, MathOp, Microinstruction,
};
use crate::instructions::{micros_wf, EntryView, ExtraBytes, Instruction, InstructionSet};
use crate::state::{Register, Register16};
use vstd::prelude::*;

verus! {

/// Number of tables of the Z80 instruction set.
pub const N_TABLES: usize = 7;

/// Index of the main table.
pub const MAIN_TABLE: usize = 0;

/// Index of the table of the `CB` prefix: rotations, shifts and bit instructions.
pub const BIT_TABLE: usize = 1;

/// Index of the table of the `ED` prefix: miscellaneous instructions.
pub const MISC_TABLE: usize = 2;

/// Index of the table of the `DD` prefix: instructions on `IX`.
pub const IX_TABLE: usize = 3;

/// Index of the table of the `FD` prefix: instructions on `IY`.
pub const IY_TABLE: usize = 4;

/// Index of the table of the `DD CB` prefix: bit instructions on `(IX+d)`.
pub const IX_BIT_TABLE: usize = 5;

/// Index of the table of the `FD CB` prefix: bit instructions on `(IY+d)`.
pub const IY_BIT_TABLE: usize = 6;

/// An instruction without extra bytes.
pub fn plain(micros: Vec<Microinstruction>) -> (instruction: Instruction)
    ensures
        instruction == (Instruction::Instruction { extra_bytes: ExtraBytes::Zero, micros }),
{
    Instruction::Instruction { extra_bytes: ExtraBytes::Zero, micros }
}

/// An instruction followed by one byte, which is loaded into `Z`.
pub fn with_byte(micros: Vec<Microinstruction>) -> (instruction: Instruction)
    ensures
        instruction == (Instruction::Instruction { extra_bytes: ExtraBytes::One, micros }),
{
    Instruction::Instruction { extra_bytes: ExtraBytes::One, micros }
}

/// An instruction followed by two bytes, which are loaded into `WZ`.
pub fn with_word(micros: Vec<Microinstruction>) -> (instruction: Instruction)
    ensures
        instruction == (Instruction::Instruction { extra_bytes: ExtraBytes::Two, micros }),
{
    Instruction::Instruction { extra_bytes: ExtraBytes::Two, micros }
}

/// The fields of an opcode as numbers: bits 7-6, bits 5-3 and bits 2-0, with the two halves of
/// bits 5-3.
pub proof fn lemma_opcode_fields(opcode: u8)
    by (bit_vector)
    ensures
        opcode >> 6u8 == opcode / 64,
        (opcode >> 3u8) & 7 == (opcode / 8) % 8,
        opcode & 7 == opcode % 8,
        ((opcode >> 3u8) & 7) >> 1u8 == (opcode / 16) % 4,
        ((opcode >> 3u8) & 7) & 1 == (opcode / 8) % 2,
{
}

/// The condition selected by bits 5-3 of an opcode.
pub open spec fn spec_condition(code: u8) -> Condition {
    match code {
        0 => Condition::NonZero,
        1 => Condition::Zero,
        2 => Condition::NoCarry,
        3 => Condition::Carry,
        4 => Condition::ParityOdd,
        5 => Condition::ParityEven,
        6 => Condition::Positive,
        _ => Condition::Negative,
    }
}

/// The condition selected by bits 5-3 of an opcode.
#[verifier::when_used_as_spec(spec_condition)]
fn condition(code: u8) -> (cond: Condition)
    requires
        code < 8,
    ensures
        cond == spec_condition(code),
{
    match code {
        0 => Condition::NonZero,
        1 => Condition::Zero,
        2 => Condition::NoCarry,
        3 => Condition::Carry,
        4 => Condition::ParityOdd,
        5 => Condition::ParityEven,
        6 => Condition::Positive,
        _ => Condition::Negative,
    }
}

/// The register pair selected by bits 5-4 of an opcode, with `SP` as the fourth.
pub open spec fn spec_pair(code: u8) -> Register16 {
    match code {
        0 => Register16::BC,
        1 => Register16::DE,
        2 => Register16::HL,
        _ => Register16::SP,
    }
}

/// The register pair selected by bits 5-4 of an opcode, with `SP` as the fourth.
#[verifier::when_used_as_spec(spec_pair)]
pub fn pair(code: u8) -> (r: Register16)
    requires
        code < 4,
    ensures
        r == spec_pair(code),
{
    match code {
        0 => Register16::BC,
        1 => Register16::DE,
        2 => Register16::HL,
        _ => Register16::SP,
    }
}

/// The register pair selected by bits 5-4 of a `push` or `pop` opcode, with `AF` as the fourth.
pub open spec fn spec_stack_pair(code: u8) -> Register16 {
    match code {
        0 => Register16::BC,
        1 => Register16::DE,
        2 => Register16::HL,
        _ => Register16::AF,
    }
}

/// The register pair selected by bits 5-4 of a `push` or `pop` opcode, with `AF` as the fourth.
#[verifier::when_used_as_spec(spec_stack_pair)]
fn stack_pair(code: u8) -> (r: Register16)
    requires
        code < 4,
    ensures
        r == spec_stack_pair(code),
{
    match code {
        0 => Register16::BC,
        1 => Register16::DE,
        2 => Register16::HL,
        _ => Register16::AF,
    }
}

/// The operation on the accumulator of the main table's opcodes with bits 2-0 set, selected by
/// bits 5-3: rotations, `daa`, `cpl`, `scf` and `ccf`.
pub open spec fn spec_accumulator_op(code: u8) -> Microinstruction {
    match code {
        0 => Microinstruction::Rlca(0),
        1 => Microinstruction::Rrca(0),
        2 => Microinstruction::Rla(0),
        3 => Microinstruction::Rra(0),
        4 => Microinstruction::Daa(0),
        5 => Microinstruction::Cpl(0),
        6 => Microinstruction::Scf(0),
        _ => Microinstruction::Ccf(0),
    }
}

/// The operation on the accumulator selected by bits 5-3 of an opcode.
#[verifier::when_used_as_spec(spec_accumulator_op)]
fn accumulator_op(code: u8) -> (micro: Microinstruction)
    requires
        code < 8,
    ensures
        micro == spec_accumulator_op(code),
{
    match code {
        0 => Microinstruction::Rlca(0),
        1 => Microinstruction::Rrca(0),
        2 => Microinstruction::Rla(0),
        3 => Microinstruction::Rra(0),
        4 => Microinstruction::Daa(0),
        5 => Microinstruction::Cpl(0),
        6 => Microinstruction::Scf(0),
        _ => Microinstruction::Ccf(0),
    }
}

/// The main table's opcodes 00h to 3Fh that follow the columns of bits 2-0: 16-bit loads and
/// additions, 16-bit increments and decrements, 8-bit increments, decrements and immediate loads
/// (`6` standing for `(hl)`), and the operations on the accumulator. Columns 0 and 2 have none.
pub open spec fn low_column(opcode: u8) -> Option<(ExtraBytes, Seq<Microinstruction>)> {
    let y = (opcode >> 3u8) & 7;
    let z = opcode & 7;
    let p = y >> 1u8;
    let q = y & 1;
    let hl = Address::Register(Register16::HL);
    if z == 1 && q == 0 {
        Some((ExtraBytes::Two, seq![Microinstruction::LdRrNn(spec_pair(p), 0)]))
    } else if z == 1 {
        Some((ExtraBytes::Zero, seq![Microinstruction::AddRrRr(Register16::HL, spec_pair(p), 7)]))
    } else if z == 3 && q == 0 {
        Some((ExtraBytes::Zero, seq![Microinstruction::IncRr(spec_pair(p), 2)]))
    } else if z == 3 {
        Some((ExtraBytes::Zero, seq![Microinstruction::DecRr(spec_pair(p), 2)]))
    } else if z == 4 && y == 6 {
        Some(
            (
                ExtraBytes::Zero,
                seq![Microinstruction::Load(hl), Microinstruction::IncMem(hl), Microinstruction::Done(1)],
            ),
        )
    } else if z == 4 {
        Some((ExtraBytes::Zero, seq![Microinstruction::IncR(spec_operand_register(y), 0)]))
    } else if z == 5 && y == 6 {
        Some(
            (
                ExtraBytes::Zero,
                seq![Microinstruction::Load(hl), Microinstruction::DecMem(hl), Microinstruction::Done(1)],
            ),
        )
    } else if z == 5 {
        Some((ExtraBytes::Zero, seq![Microinstruction::DecR(spec_operand_register(y), 0)]))
    } else if z == 6 && y == 6 {
        Some((ExtraBytes::One, seq![Microinstruction::Store(hl, Register::Z), Microinstruction::Done(0)]))
    } else if z == 6 {
        Some((ExtraBytes::One, seq![Microinstruction::LdRN(spec_operand_register(y), 0)]))
    } else if z == 7 {
        Some((ExtraBytes::Zero, seq![spec_accumulator_op(y)]))
    } else {
        None
    }
}

/// The main table's opcodes C0h to FFh that follow the columns of bits 2-0: conditional returns,
/// `pop`, conditional jumps and calls, `push`, arithmetic with an immediate byte and `rst`. Column
/// 3, and the other halves of columns 1 and 5, have none.
pub open spec fn high_column(opcode: u8) -> Option<(ExtraBytes, Seq<Microinstruction>)> {
    let y = (opcode >> 3u8) & 7;
    let z = opcode & 7;
    let p = y >> 1u8;
    let q = y & 1;
    if z == 0 {
        Some(
            (
                ExtraBytes::Zero,
                seq![
                    Microinstruction::LoadSpOrBreak(spec_condition(y), 1),
                    Microinstruction::Ret(1),
                ],
            ),
        )
    } else if z == 1 && q == 0 {
        Some(
            (
                ExtraBytes::Zero,
                seq![
                    Microinstruction::Pop,
                    Microinstruction::LdRrRr(spec_stack_pair(p), Register16::WZ, 0),
                ],
            ),
        )
    } else if z == 2 {
        Some((ExtraBytes::Two, seq![Microinstruction::JpCc(spec_condition(y), 0)]))
    } else if z == 4 {
        Some(
            (
                ExtraBytes::Two,
                seq![
                    Microinstruction::PushPcOrBreak(spec_condition(y), 0),
                    Microinstruction::JrMm(1),
                ],
            ),
        )
    } else if z == 5 && q == 0 {
        Some(
            (
                ExtraBytes::Zero,
                seq![Microinstruction::Push(spec_stack_pair(p)), Microinstruction::Done(1)],
            ),
        )
    } else if z == 6 {
        Some((ExtraBytes::One, seq![Microinstruction::Math(spec_math_op(y), Register::Z, 0)]))
    } else if z == 7 {
        Some(
            (
                ExtraBytes::Zero,
                seq![
                    Microinstruction::Push(Register16::PC),
                    Microinstruction::JumpTo((y * 8) as u16, 1),
                ],
            ),
        )
    } else {
        None
    }
}

/// The microinstructions of a described entry.
spec fn described_micros(entry: Option<(ExtraBytes, Seq<Microinstruction>)>) -> Seq<Microinstruction> {
    match entry {
        Some((_, micros)) => micros,
        None => Seq::empty(),
    }
}

/// An instruction of a table, from its extra bytes and microinstructions.
fn instruction(extra: ExtraBytes, micros: Vec<Microinstruction>) -> (instruction: Instruction)
    ensures
        instruction.has(extra, micros@),
{
    Instruction::Instruction { extra_bytes: extra, micros }
}

/// The entries of [low_column].
fn low_column_entry(opcode: u8) -> (entry: Instruction)
    requires
        opcode < 0x40,
        low_column(opcode) is Some,
    ensures
        entry.wf(N_TABLES as int),
        entry.is_described_by(low_column(opcode)),
{
    let y = (opcode >> 3u8) & 7;
    let z = opcode & 7;
    let p = y >> 1u8;
    let q = y & 1;
    assert((opcode >> 3u8) & 7 < 8 && opcode & 7 < 8 && ((opcode >> 3u8) & 7) >> 1u8 < 4) by (bit_vector);
    let hl = Address::Register(Register16::HL);
    let (extra, micros) = if z == 1 && q == 0 {
        (ExtraBytes::Two, vec![Microinstruction::LdRrNn(pair(p), 0)])
    } else if z == 1 {
        (ExtraBytes::Zero, vec![Microinstruction::AddRrRr(Register16::HL, pair(p), 7)])
    } else if z == 3 && q == 0 {
        (ExtraBytes::Zero, vec![Microinstruction::IncRr(pair(p), 2)])
    } else if z == 3 {
        (ExtraBytes::Zero, vec![Microinstruction::DecRr(pair(p), 2)])
    } else if z == 4 && y == 6 {
        (
            ExtraBytes::Zero,
            vec![Microinstruction::Load(hl), Microinstruction::IncMem(hl), Microinstruction::Done(1)],
        )
    } else if z == 4 {
        (ExtraBytes::Zero, vec![Microinstruction::IncR(operand_register(y), 0)])
    } else if z == 5 && y == 6 {
        (
            ExtraBytes::Zero,
            vec![Microinstruction::Load(hl), Microinstruction::DecMem(hl), Microinstruction::Done(1)],
        )
    } else if z == 5 {
        (ExtraBytes::Zero, vec![Microinstruction::DecR(operand_register(y), 0)])
    } else if z == 6 && y == 6 {
        (ExtraBytes::One, vec![Microinstruction::Store(hl, Register::Z), Microinstruction::Done(0)])
    } else if z == 6 {
        (ExtraBytes::One, vec![Microinstruction::LdRN(operand_register(y), 0)])
    } else {
        (ExtraBytes::Zero, vec![accumulator_op(y)])
    };
    assert(micros@ =~= described_micros(low_column(opcode)));
    instruction(extra, micros)
}

/// The entries of [high_column].
fn high_column_entry(opcode: u8) -> (entry: Instruction)
    requires
        0xc0 <= opcode,
        high_column(opcode) is Some,
    ensures
        entry.wf(N_TABLES as int),
        entry.is_described_by(high_column(opcode)),
{
    let y = (opcode >> 3u8) & 7;
    let z = opcode & 7;
    let p = y >> 1u8;
    let q = y & 1;
    assert((opcode >> 3u8) & 7 < 8 && opcode & 7 < 8 && ((opcode >> 3u8) & 7) >> 1u8 < 4) by (bit_vector);
    let (extra, micros) = if z == 0 {
        (
            ExtraBytes::Zero,
            vec![Microinstruction::LoadSpOrBreak(condition(y), 1), Microinstruction::Ret(1)],
        )
    } else if z == 1 {
        (
            ExtraBytes::Zero,
            vec![Microinstruction::Pop, Microinstruction::LdRrRr(stack_pair(p), Register16::WZ, 0)],
        )
    } else if z == 2 {
        (ExtraBytes::Two, vec![Microinstruction::JpCc(condition(y), 0)])
    } else if z == 4 {
        (
            ExtraBytes::Two,
            vec![Microinstruction::PushPcOrBreak(condition(y), 0), Microinstruction::JrMm(1)],
        )
    } else if z == 5 {
        (ExtraBytes::Zero, vec![Microinstruction::Push(stack_pair(p)), Microinstruction::Done(1)])
    } else if z == 6 {
        (ExtraBytes::One, vec![Microinstruction::Math(math_op(y), Register::Z, 0)])
    } else {
        (
            ExtraBytes::Zero,
            vec![Microinstruction::Push(Register16::PC), Microinstruction::JumpTo(y as u16 * 8, 1)],
        )
    };
    assert(micros@ =~= described_micros(high_column(opcode)));
    instruction(extra, micros)
}

/// The main table's opcodes outside the columns and the prefixes: `nop`, `ex af, af'`, the
/// relative jumps, the loads between the accumulator and memory, `ret`, `exx`, `jp (hl)`,
/// `ld sp, hl`, `jp nn`, the port instructions, the exchanges with `HL`, `di`, `ei` and `call nn`.
/// Every other opcode is a prefix or in a column.
pub open spec fn main_other(opcode: u8) -> EntryView {
    match opcode {
        0x00 => EntryView::Instruction(ExtraBytes::Zero, seq![Microinstruction::Done(0)]),
        0x02 => EntryView::Instruction(ExtraBytes::Zero, seq![Microinstruction::StoreAMemptr(Register16::BC), Microinstruction::Done(0)]),
        0x08 => EntryView::Instruction(ExtraBytes::Zero, seq![Microinstruction::ExAfAf(0)]),
        0x0a => EntryView::Instruction(ExtraBytes::Zero, seq![Microinstruction::LoadMemptr(Address::Register(Register16::BC)), Microinstruction::LdRR(Register::A, Register::Z, 0)]),
        0x10 => EntryView::Instruction(ExtraBytes::One, seq![Microinstruction::Djnz(6, 1)]),
        0x12 => EntryView::Instruction(ExtraBytes::Zero, seq![Microinstruction::StoreAMemptr(Register16::DE), Microinstruction::Done(0)]),
        0x18 => EntryView::Instruction(ExtraBytes::One, seq![Microinstruction::JrCc(Condition::Always, 5, 5)]),
        0x1a => EntryView::Instruction(ExtraBytes::Zero, seq![Microinstruction::LoadMemptr(Address::Register(Register16::DE)), Microinstruction::LdRR(Register::A, Register::Z, 0)]),
        0x20 => EntryView::Instruction(ExtraBytes::One, seq![Microinstruction::JrCc(Condition::NonZero, 5, 0)]),
        0x22 => EntryView::Instruction(ExtraBytes::Two, seq![Microinstruction::LdMmRr(Register16::HL), Microinstruction::Done(0)]),
        0x28 => EntryView::Instruction(ExtraBytes::One, seq![Microinstruction::JrCc(Condition::Zero, 5, 0)]),
        0x2a => EntryView::Instruction(ExtraBytes::Two, seq![Microinstruction::Load16Memptr(Address::Register(Register16::WZ)), Microinstruction::LdRrRr(Register16::HL, Register16::WZ, 0)]),
        0x30 => EntryView::Instruction(ExtraBytes::One, seq![Microinstruction::JrCc(Condition::NoCarry, 5, 0)]),
        0x32 => EntryView::Instruction(ExtraBytes::Two, seq![Microinstruction::StoreAMemptr(Register16::WZ), Microinstruction::Done(0)]),
        0x38 => EntryView::Instruction(ExtraBytes::One, seq![Microinstruction::JrCc(Condition::Carry, 5, 0)]),
        0x3a => EntryView::Instruction(ExtraBytes::Two, seq![Microinstruction::LoadMemptr(Address::Register(Register16::WZ)), Microinstruction::LdRR(Register::A, Register::Z, 0)]),
        0xc3 => EntryView::Instruction(ExtraBytes::Two, seq![Microinstruction::JpCc(Condition::Always, 0)]),
        0xc9 => EntryView::Instruction(ExtraBytes::Zero, seq![Microinstruction::Load16(Address::Register(Register16::SP)), Microinstruction::Ret(1)]),
        0xcd => EntryView::Instruction(ExtraBytes::Two, seq![Microinstruction::Push(Register16::PC), Microinstruction::JrMm(1)]),
        0xd3 => EntryView::Instruction(ExtraBytes::One, seq![Microinstruction::OutNA, Microinstruction::Done(0)]),
        0xd9 => EntryView::Instruction(ExtraBytes::Zero, seq![Microinstruction::Exx(0)]),
        0xdb => EntryView::Instruction(ExtraBytes::One, seq![Microinstruction::InPortA, Microinstruction::LdRR(Register::A, Register::Z, 0)]),
        0xe3 => EntryView::Instruction(ExtraBytes::Zero, seq![Microinstruction::Load16(Address::Register(Register16::SP)), Microinstruction::StoreWord(Address::Register(Register16::SP), Register16::HL), Microinstruction::ExSpFinish(Register16::HL)]),
        0xe9 => EntryView::Instruction(ExtraBytes::Zero, seq![Microinstruction::Jp(Register16::HL, 0)]),
        0xeb => EntryView::Instruction(ExtraBytes::Zero, seq![Microinstruction::ExDeHl]),
        0xf3 => EntryView::Instruction(ExtraBytes::Zero, seq![Microinstruction::Di]),
        0xf9 => EntryView::Instruction(ExtraBytes::Zero, seq![Microinstruction::LdRrRr(Register16::SP, Register16::HL, 2)]),
        0xfb => EntryView::Instruction(ExtraBytes::Zero, seq![Microinstruction::Ei]),
        _ => EntryView::NoPrefix,
    }
}

/// The main table.
pub open spec fn main_table(opcode: u8) -> EntryView {
    match prefix_table(opcode) {
        Some(table) => EntryView::Prefix(table),
        None => if 0x40 <= opcode < 0x80 {
            EntryView::Instruction(ExtraBytes::Zero, load_micros(opcode))
        } else if 0x80 <= opcode < 0xc0 {
            EntryView::Instruction(ExtraBytes::Zero, math_micros(opcode))
        } else {
            match if opcode < 0x40 {
                low_column(opcode)
            } else {
                high_column(opcode)
            } {
                Some((extra, micros)) => EntryView::Instruction(extra, micros),
                None => main_other(opcode),
            }
        },
    }
}

/// The main table's opcodes 00h to 3Fh outside [low_column]: `nop`, `ex af, af'`, the relative
/// jumps, and the loads between the accumulator and memory.
#[verifier::spinoff_prover]
fn low_other_entry(opcode: u8) -> (entry: Instruction)
    requires
        opcode < 0x40,
        opcode & 7 == 0 || opcode & 7 == 2,
    ensures
        entry.wf(N_TABLES as int),
        !(entry is NoPrefix),
        entry@ == main_other(opcode),
{
    assert(opcode & 7 == 0 || opcode & 7 == 2 ==> opcode == 0x00 || opcode == 0x02 || opcode == 0x08
        || opcode == 0x0a || opcode == 0x10 || opcode == 0x12 || opcode == 0x18 || opcode == 0x1a
        || opcode == 0x20 || opcode == 0x22 || opcode == 0x28 || opcode == 0x2a || opcode == 0x30
        || opcode == 0x32 || opcode == 0x38 || opcode == 0x3a) by (bit_vector)
        requires
            opcode < 0x40,
    ;
    match opcode {
        0x00 => plain(vec![Microinstruction::Done(0)]),
        0x02 => plain(vec![Microinstruction::StoreAMemptr(Register16::BC), Microinstruction::Done(0)]),
        0x08 => plain(vec![Microinstruction::ExAfAf(0)]),
        0x0a => plain(vec![Microinstruction::LoadMemptr(Address::Register(Register16::BC)), Microinstruction::LdRR(Register::A, Register::Z, 0)]),
        0x10 => with_byte(vec![Microinstruction::Djnz(6, 1)]),
        0x12 => plain(vec![Microinstruction::StoreAMemptr(Register16::DE), Microinstruction::Done(0)]),
        0x18 => with_byte(vec![Microinstruction::JrCc(Condition::Always, 5, 5)]),
        0x1a => plain(vec![Microinstruction::LoadMemptr(Address::Register(Register16::DE)), Microinstruction::LdRR(Register::A, Register::Z, 0)]),
        0x20 => with_byte(vec![Microinstruction::JrCc(Condition::NonZero, 5, 0)]),
        0x22 => with_word(vec![Microinstruction::LdMmRr(Register16::HL), Microinstruction::Done(0)]),
        0x28 => with_byte(vec![Microinstruction::JrCc(Condition::Zero, 5, 0)]),
        0x2a => with_word(vec![Microinstruction::Load16Memptr(Address::Register(Register16::WZ)), Microinstruction::LdRrRr(Register16::HL, Register16::WZ, 0)]),
        0x30 => with_byte(vec![Microinstruction::JrCc(Condition::NoCarry, 5, 0)]),
        0x32 => with_word(vec![Microinstruction::StoreAMemptr(Register16::WZ), Microinstruction::Done(0)]),
        0x38 => with_byte(vec![Microinstruction::JrCc(Condition::Carry, 5, 0)]),
        _ => with_word(vec![Microinstruction::LoadMemptr(Address::Register(Register16::WZ)), Microinstruction::LdRR(Register::A, Register::Z, 0)]),
    }
}

/// The main table's opcodes C0h to FFh outside [high_column]: `ret`, `exx`, `jp (hl)`,
/// `ld sp, hl`, `jp nn`, the port instructions, the exchanges with `HL`, `di`, `ei`, `call nn`
/// and the prefixes.
#[verifier::spinoff_prover]
fn high_other_entry(opcode: u8) -> (entry: Instruction)
    requires
        0xc0 <= opcode,
        opcode & 7 == 3 || ((opcode & 7 == 1 || opcode & 7 == 5) && ((opcode >> 3u8) & 7) & 1 == 1),
    ensures
        entry.wf(N_TABLES as int),
        !(entry is NoPrefix),
        entry@ == match prefix_table(opcode) {
            Some(table) => EntryView::Prefix(table),
            None => main_other(opcode),
        },
{
    assert(opcode == 0xc3 || opcode == 0xc9 || opcode == 0xcb || opcode == 0xcd || opcode == 0xd3
        || opcode == 0xd9 || opcode == 0xdb || opcode == 0xdd || opcode == 0xe3 || opcode == 0xe9
        || opcode == 0xeb || opcode == 0xed || opcode == 0xf3 || opcode == 0xf9 || opcode == 0xfb
        || opcode == 0xfd) by (bit_vector)
        requires
            0xc0 <= opcode,
            opcode & 7 == 3 || ((opcode & 7 == 1 || opcode & 7 == 5) && ((opcode >> 3u8) & 7) & 1
                == 1),
    ;
    match opcode {
        0xc3 => with_word(vec![Microinstruction::JpCc(Condition::Always, 0)]),
        0xc9 => plain(vec![Microinstruction::Load16(Address::Register(Register16::SP)), Microinstruction::Ret(1)]),
        0xcb => Instruction::Prefix(BIT_TABLE),
        0xcd => with_word(vec![Microinstruction::Push(Register16::PC), Microinstruction::JrMm(1)]),
        0xd3 => with_byte(vec![Microinstruction::OutNA, Microinstruction::Done(0)]),
        0xd9 => plain(vec![Microinstruction::Exx(0)]),
        0xdb => with_byte(vec![Microinstruction::InPortA, Microinstruction::LdRR(Register::A, Register::Z, 0)]),
        0xdd => Instruction::Prefix(IX_TABLE),
        0xe3 => plain(vec![Microinstruction::Load16(Address::Register(Register16::SP)), Microinstruction::StoreWord(Address::Register(Register16::SP), Register16::HL), Microinstruction::ExSpFinish(Register16::HL)]),
        0xe9 => plain(vec![Microinstruction::Jp(Register16::HL, 0)]),
        0xeb => plain(vec![Microinstruction::ExDeHl]),
        0xed => Instruction::Prefix(MISC_TABLE),
        0xf3 => plain(vec![Microinstruction::Di]),
        0xf9 => plain(vec![Microinstruction::LdRrRr(Register16::SP, Register16::HL, 2)]),
        0xfb => plain(vec![Microinstruction::Ei]),
        _ => Instruction::Prefix(IY_TABLE),
    }
}

/// The arithmetic or logic operation selected by bits 5-3 of an opcode.
pub open spec fn spec_math_op(code: u8) -> MathOp {
    match code {
        0 => MathOp::Add,
        1 => MathOp::Adc,
        2 => MathOp::Sub,
        3 => MathOp::Sbc,
        4 => MathOp::And,
        5 => MathOp::Xor,
        6 => MathOp::Or,
        _ => MathOp::Cp,
    }
}

/// The arithmetic or logic operation selected by bits 5-3 of an opcode.
#[verifier::when_used_as_spec(spec_math_op)]
pub fn math_op(code: u8) -> (op: MathOp)
    requires
        code < 8,
    ensures
        op == spec_math_op(code),
{
    match code {
        0 => MathOp::Add,
        1 => MathOp::Adc,
        2 => MathOp::Sub,
        3 => MathOp::Sbc,
        4 => MathOp::And,
        5 => MathOp::Xor,
        6 => MathOp::Or,
        _ => MathOp::Cp,
    }
}

/// The microinstructions of the main table's opcodes 40h to 7Fh: `ld r, r'`, with bits 5-3
/// selecting the destination and bits 2-0 the source, `6` standing for `(hl)`; 76h is `halt`.
pub open spec fn load_micros(opcode: u8) -> Seq<Microinstruction> {
    let dst = (opcode >> 3u8) & 7;
    let src = opcode & 7;
    let hl = Address::Register(Register16::HL);
    if opcode == 0x76 {
        seq![Microinstruction::Halt]
    } else if src == 6 {
        seq![Microinstruction::Load(hl), Microinstruction::LdRR(spec_operand_register(dst), Register::Z, 0)]
    } else if dst == 6 {
        seq![Microinstruction::Store(hl, spec_operand_register(src)), Microinstruction::Done(0)]
    } else {
        seq![Microinstruction::LdRR(spec_operand_register(dst), spec_operand_register(src), 0)]
    }
}

/// The microinstructions of the main table's opcodes 80h to BFh: the operation on the
/// accumulator selected by bits 5-3, with the register selected by bits 2-0, `6` standing for
/// `(hl)`.
pub open spec fn math_micros(opcode: u8) -> Seq<Microinstruction> {
    let op = spec_math_op((opcode >> 3u8) & 7);
    let src = opcode & 7;
    if src == 6 {
        seq![
            Microinstruction::Load(Address::Register(Register16::HL)),
            Microinstruction::Math(op, Register::Z, 0),
        ]
    } else {
        seq![Microinstruction::Math(op, spec_operand_register(src), 0)]
    }
}

/// Entries 40h to 7Fh of the main table.
fn load_entry(opcode: u8) -> (instruction: Instruction)
    requires
        0x40 <= opcode < 0x80,
    ensures
        instruction.wf(N_TABLES as int),
        instruction.is_plain(load_micros(opcode)),
{
    let dst = (opcode >> 3u8) & 7;
    let src = opcode & 7;
    assert((opcode >> 3u8) & 7 < 8 && opcode & 7 < 8 && (opcode == 0x76 <==> ((opcode >> 3u8) & 7
        == 6 && opcode & 7 == 6))) by (bit_vector)
        requires
            0x40 <= opcode < 0x80,
    ;
    let hl = Address::Register(Register16::HL);
    let micros = if src == 6 && dst == 6 {
        vec![Microinstruction::Halt]
    } else if src == 6 {
        vec![Microinstruction::Load(hl), Microinstruction::LdRR(operand_register(dst), Register::Z, 0)]
    } else if dst == 6 {
        vec![Microinstruction::Store(hl, operand_register(src)), Microinstruction::Done(0)]
    } else {
        vec![Microinstruction::LdRR(operand_register(dst), operand_register(src), 0)]
    };
    assert(micros@ =~= load_micros(opcode));
    plain(micros)
}

/// Entries 80h to BFh of the main table.
fn math_entry(opcode: u8) -> (instruction: Instruction)
    requires
        0x80 <= opcode < 0xc0,
    ensures
        instruction.wf(N_TABLES as int),
        instruction.is_plain(math_micros(opcode)),
{
    let op = (opcode >> 3u8) & 7;
    let src = opcode & 7;
    assert((opcode >> 3u8) & 7 < 8 && opcode & 7 < 8) by (bit_vector);
    let micros = if src == 6 {
        vec![
            Microinstruction::Load(Address::Register(Register16::HL)),
            Microinstruction::Math(math_op(op), Register::Z, 0),
        ]
    } else {
        vec![Microinstruction::Math(math_op(op), operand_register(src), 0)]
    };
    assert(micros@ =~= math_micros(opcode));
    plain(micros)
}

/// The table that a prefix of the main table leads to, if the opcode is a prefix.
pub open spec fn prefix_table(opcode: u8) -> Option<usize> {
    if opcode == 0xcb {
        Some(BIT_TABLE)
    } else if opcode == 0xdd {
        Some(IX_TABLE)
    } else if opcode == 0xed {
        Some(MISC_TABLE)
    } else if opcode == 0xfd {
        Some(IY_TABLE)
    } else {
        None
    }
}

/// Entry of the main table for an opcode.
pub fn main_entry(opcode: u8) -> (instruction: Instruction)
    ensures
        instruction.wf(N_TABLES as int),
        !(instruction is NoPrefix),
        instruction@ == main_table(opcode),
{
    let column = opcode & 7;
    let odd = ((opcode >> 3u8) & 7) & 1;
    assert(opcode & 7 < 8 && ((opcode >> 3u8) & 7) & 1 < 2 && ((opcode == 0xcb || opcode == 0xdd
        || opcode == 0xed || opcode == 0xfd) ==> (opcode & 7 == 3 || (opcode & 7 == 5 && ((opcode
        >> 3u8) & 7) & 1 == 1)))) by (bit_vector);
    if opcode < 0x40 {
        if column == 0 || column == 2 {
            low_other_entry(opcode)
        } else {
            low_column_entry(opcode)
        }
    } else if opcode < 0x80 {
        load_entry(opcode)
    } else if opcode < 0xc0 {
        math_entry(opcode)
    } else if column == 3 || ((column == 1 || column == 5) && odd == 1) {
        high_other_entry(opcode)
    } else {
        high_column_entry(opcode)
    }
}

/// The tables of the Z80 instruction set.
pub open spec fn z80_table(table: int, opcode: u8) -> EntryView {
    if table == MAIN_TABLE {
        main_table(opcode)
    } else if table == BIT_TABLE {
        EntryView::Instruction(ExtraBytes::Zero, bit_micros(opcode))
    } else if table == MISC_TABLE {
        misc_table(opcode)
    } else if table == IX_TABLE {
        indexed_table(Register16::IX, Register::IXH, Register::IXL, IX_BIT_TABLE, opcode)
    } else if table == IY_TABLE {
        indexed_table(Register16::IY, Register::IYH, Register::IYL, IY_BIT_TABLE, opcode)
    } else if table == IX_BIT_TABLE {
        EntryView::Instruction(ExtraBytes::Zero, index_bit_micros(Register16::IX, opcode))
    } else {
        EntryView::Instruction(ExtraBytes::Zero, index_bit_micros(Register16::IY, opcode))
    }
}

/// What the entries of the tables of the Z80 instruction set are: the entry of [z80_table], which
/// can run; no entry of the main table ignores the prefix.
pub open spec fn entry_ok(table: int, opcode: u8, instruction: Instruction) -> bool {
    &&& instruction.wf(N_TABLES as int)
    &&& instruction@ == z80_table(table, opcode)
    &&& table == MAIN_TABLE ==> !(instruction is NoPrefix)
}

/// Entry of a table of the Z80 instruction set.
pub fn entry(table: usize, opcode: u8) -> (instruction: Instruction)
    requires
        table < N_TABLES,
    ensures
        entry_ok(table as int, opcode, instruction),
{
    if table == MAIN_TABLE {
        main_entry(opcode)
    } else if table == BIT_TABLE {
        bit_entry(opcode)
    } else if table == MISC_TABLE {
        misc_entry(opcode)
    } else if table == IX_TABLE {
        indexed_entry(Register16::IX, Register::IXH, Register::IXL, IX_BIT_TABLE, opcode)
    } else if table == IY_TABLE {
        indexed_entry(Register16::IY, Register::IYH, Register::IYL, IY_BIT_TABLE, opcode)
    } else if table == IX_BIT_TABLE {
        index_bit_entry(Register16::IX, opcode)
    } else {
        index_bit_entry(Register16::IY, opcode)
    }
}

/// Build one of the tables of the Z80 instruction set.
fn build_table(table: usize) -> (entries: Vec<Instruction>)
    requires
        table < N_TABLES,
    ensures
        entries@.len() == 256,
        forall|o: int| 0 <= o < 256 ==> entry_ok(table as int, o as u8, #[trigger] entries@[o]),
{
    let mut entries: Vec<Instruction> = Vec::new();
    let mut opcode: usize = 0;
    while opcode < 256
        invariant
            table < N_TABLES,
            opcode <= 256,
            entries@.len() == opcode,
            forall|o: int| 0 <= o < opcode ==> entry_ok(table as int, o as u8, #[trigger] entries@[o]),
        decreases 256 - opcode,
    {
        entries.push(entry(table, opcode as u8));
        opcode += 1;
    }
    entries
}

/// The Z80 instruction set.
pub fn z80() -> (instruction_set: InstructionSet)
    ensures
        instruction_set.wf(),
        instruction_set.tables@.len() == N_TABLES,
        forall|t: int, o: int|
            0 <= t < N_TABLES && 0 <= o < 256 ==> entry_ok(
                t,
                o as u8,
                #[trigger] instruction_set.entry(t, o),
            ),
{
    let mut tables: Vec<Vec<Instruction>> = Vec::new();
    let mut table: usize = 0;
    while table < N_TABLES
        invariant
            table <= N_TABLES,
            tables@.len() == table,
            forall|t: int| #![trigger tables@[t]] 0 <= t < table ==> tables@[t]@.len() == 256,
            forall|t: int, o: int|
                #![trigger tables@[t]@[o]]
                0 <= t < table && 0 <= o < 256 ==> entry_ok(t, o as u8, tables@[t]@[o]),
        decreases N_TABLES - table,
    {
        tables.push(build_table(table));
        table += 1;
    }
    let instruction_set = InstructionSet { tables };
    assert forall|t: int, o: int, p: int|
        instruction_set.has_table(t) && 0 <= o < 256 && instruction_set.entry(t, o) is TwoPrefix
            && 0 <= p < 256 implies instruction_set.entry(
        instruction_set.entry(t, o)->TwoPrefix_0 as int,
        p,
    ) is Instruction by {
        assert(entry_ok(t, o as u8, instruction_set.entry(t, o)));
        let u = instruction_set.entry(t, o)->TwoPrefix_0 as int;
        assert(entry_ok(u, p as u8, instruction_set.entry(u, p)));
    }
    instruction_set
}

} // verus!
