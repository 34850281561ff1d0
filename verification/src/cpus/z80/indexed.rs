//! IX and IY instructions
//!
//! The tables of the `DD` and `FD` prefixes are the same but for the index register. A few opcodes
//! ignore the prefix and run as in the main table; the others without an instruction behave as a
//! `nop`.

use crate::cpus::z80::bit_instructions::{operand_register, spec_operand_register};
use crate::cpus::z80::{
    math_op, plain, spec_math_op, with_byte, with_word, IX_BIT_TABLE, IY_BIT_TABLE, N_TABLES,
};
use crate::instructions::micro::step::{Address, MathOp, Microinstruction};
use crate::instructions::{EntryView, ExtraBytes, Instruction};
use crate::state::{Register, Register16};
use vstd::prelude::*;

verus! {

/// A register of an `ld r, r'` or arithmetic opcode under an index prefix, from three bits of the
/// opcode: `H` and `L` stand for the halves `high` and `low` of the index register.
pub open spec fn spec_indexed_register(code: u8, high: Register, low: Register) -> Register {
    if code == 4 {
        high
    } else if code == 5 {
        low
    } else {
        spec_operand_register(code)
    }
}

/// A register of an `ld r, r'` or arithmetic opcode under an index prefix.
#[verifier::when_used_as_spec(spec_indexed_register)]
fn indexed_register(code: u8, high: Register, low: Register) -> (reg: Register)
    requires
        code < 8,
        code != 6,
    ensures
        reg == spec_indexed_register(code, high, low),
{
    if code == 4 {
        high
    } else if code == 5 {
        low
    } else {
        operand_register(code)
    }
}

/// Entries 40h to BFh of the `DD` and `FD` tables, or `None` where the prefix is ignored.
///
/// These are the `ld r, r'` and arithmetic opcodes of the main table. `(hl)` becomes the index
/// register plus the offset that follows the opcode, and `H` and `L` become the halves of the
/// index register, except next to `(hl)`. The opcodes that use none of these ignore the prefix,
/// but for 76h, which does nothing.
pub open spec fn indexed_block(index: Register16, high: Register, low: Register, opcode: u8) -> Option<
    (ExtraBytes, Seq<Microinstruction>),
> {
    let x = (opcode >> 3u8) & 7;
    let y = opcode & 7;
    let at_index = Address::IndexZ(index);
    let names_half = x == 4 || x == 5 || y == 4 || y == 5;
    if opcode < 0x80 {
        if opcode == 0x76 {
            Some((ExtraBytes::Zero, seq![Microinstruction::Done(0)]))
        } else if y == 6 {
            Some(
                (
                    ExtraBytes::One,
                    seq![
                        Microinstruction::Load(at_index),
                        Microinstruction::LdRR(spec_operand_register(x), Register::Z, 5),
                    ],
                ),
            )
        } else if x == 6 {
            Some(
                (
                    ExtraBytes::One,
                    seq![
                        Microinstruction::Store(at_index, spec_operand_register(y)),
                        Microinstruction::Done(4),
                    ],
                ),
            )
        } else if names_half {
            Some(
                (
                    ExtraBytes::Zero,
                    seq![
                        Microinstruction::LdRR(
                            spec_indexed_register(x, high, low),
                            spec_indexed_register(y, high, low),
                            0,
                        ),
                    ],
                ),
            )
        } else {
            None
        }
    } else {
        let op = spec_math_op(x);
        if y == 6 {
            Some(
                (
                    ExtraBytes::One,
                    seq![Microinstruction::Load(at_index), Microinstruction::Math(op, Register::Z, 5)],
                ),
            )
        } else if y == 4 || y == 5 {
            Some(
                (
                    ExtraBytes::Zero,
                    seq![Microinstruction::Math(op, spec_indexed_register(y, high, low), 0)],
                ),
            )
        } else {
            None
        }
    }
}

/// The microinstructions of an entry of [indexed_block].
spec fn block_micros(index: Register16, high: Register, low: Register, opcode: u8) -> Seq<
    Microinstruction,
> {
    match indexed_block(index, high, low, opcode) {
        Some((_, micros)) => micros,
        None => Seq::empty(),
    }
}

/// Entries 40h to BFh of the `DD` and `FD` tables.
fn indexed_block_entry(index: Register16, high: Register, low: Register, opcode: u8) -> (instruction:
    Instruction)
    requires
        0x40 <= opcode < 0xc0,
    ensures
        instruction.wf(N_TABLES as int),
        instruction.is_described_by(indexed_block(index, high, low, opcode)),
{
    let x = (opcode >> 3u8) & 7;
    let y = opcode & 7;
    assert((opcode >> 3u8) & 7 < 8 && opcode & 7 < 8 && (opcode == 0x76 <==> ((opcode >> 3u8) & 7
        == 6 && opcode & 7 == 6 && opcode < 0x80))) by (bit_vector)
        requires
            0x40 <= opcode,
    ;
    let at_index = Address::IndexZ(index);
    let names_half = x == 4 || x == 5 || y == 4 || y == 5;
    if opcode < 0x80 {
        if x == 6 && y == 6 {
            let micros = vec![Microinstruction::Done(0)];
            assert(micros@ =~= seq![Microinstruction::Done(0)]);
            plain(micros)
        } else if y == 6 {
            let micros = vec![
                Microinstruction::Load(at_index),
                Microinstruction::LdRR(operand_register(x), Register::Z, 5),
            ];
            assert(micros@ =~= block_micros(index, high, low, opcode));
            with_byte(micros)
        } else if x == 6 {
            let micros = vec![
                Microinstruction::Store(at_index, operand_register(y)),
                Microinstruction::Done(4),
            ];
            assert(micros@ =~= block_micros(index, high, low, opcode));
            with_byte(micros)
        } else if names_half {
            let micros = vec![
                Microinstruction::LdRR(indexed_register(x, high, low), indexed_register(y, high, low), 0),
            ];
            assert(micros@ =~= block_micros(index, high, low, opcode));
            plain(micros)
        } else {
            Instruction::NoPrefix
        }
    } else {
        let op = math_op(x);
        if y == 6 {
            let micros = vec![Microinstruction::Load(at_index), Microinstruction::Math(op, Register::Z, 5)];
            assert(micros@ =~= block_micros(index, high, low, opcode));
            with_byte(micros)
        } else if y == 4 || y == 5 {
            let micros = vec![Microinstruction::Math(op, indexed_register(y, high, low), 0)];
            assert(micros@ =~= block_micros(index, high, low, opcode));
            plain(micros)
        } else {
            Instruction::NoPrefix
        }
    }
}

/// The entries of the `DD` and `FD` tables outside 40h to BFh and CBh: the instructions on the
/// index register, the increments, decrements and immediate loads that ignore the prefix, and
/// two byte `nop`s for the other opcodes.
pub open spec fn indexed_other(index: Register16, high: Register, low: Register, opcode: u8) -> EntryView {
    match opcode {
        0x4 => EntryView::NoPrefix,
        0x5 => EntryView::NoPrefix,
        0x6 => EntryView::NoPrefix,
        0x9 => EntryView::Instruction(ExtraBytes::Zero, seq![Microinstruction::AddRrRr(index, Register16::BC, 7)]),
        0xc => EntryView::NoPrefix,
        0xd => EntryView::NoPrefix,
        0xe => EntryView::NoPrefix,
        0x14 => EntryView::NoPrefix,
        0x15 => EntryView::NoPrefix,
        0x16 => EntryView::NoPrefix,
        0x19 => EntryView::Instruction(ExtraBytes::Zero, seq![Microinstruction::AddRrRr(index, Register16::DE, 7)]),
        0x1c => EntryView::NoPrefix,
        0x1d => EntryView::NoPrefix,
        0x1e => EntryView::NoPrefix,
        0x21 => EntryView::Instruction(ExtraBytes::Two, seq![Microinstruction::LdRrNn(index, 0)]),
        0x22 => EntryView::Instruction(ExtraBytes::Two, seq![Microinstruction::LdMmRr(index), Microinstruction::Done(0)]),
        0x23 => EntryView::Instruction(ExtraBytes::Zero, seq![Microinstruction::IncRr(index, 2)]),
        0x24 => EntryView::Instruction(ExtraBytes::Zero, seq![Microinstruction::IncR(high, 0)]),
        0x25 => EntryView::Instruction(ExtraBytes::Zero, seq![Microinstruction::DecR(high, 0)]),
        0x26 => EntryView::Instruction(ExtraBytes::One, seq![Microinstruction::LdRN(high, 0)]),
        0x29 => EntryView::Instruction(ExtraBytes::Zero, seq![Microinstruction::AddRrRr(index, index, 7)]),
        0x2a => EntryView::Instruction(ExtraBytes::Two, seq![Microinstruction::Load16Memptr(Address::Register(Register16::WZ)), Microinstruction::LdRrRr(index, Register16::WZ, 0)]),
        0x2b => EntryView::Instruction(ExtraBytes::Zero, seq![Microinstruction::DecRr(index, 2)]),
        0x2c => EntryView::Instruction(ExtraBytes::Zero, seq![Microinstruction::IncR(low, 0)]),
        0x2d => EntryView::Instruction(ExtraBytes::Zero, seq![Microinstruction::DecR(low, 0)]),
        0x2e => EntryView::Instruction(ExtraBytes::One, seq![Microinstruction::LdRN(low, 0)]),
        0x34 => EntryView::Instruction(ExtraBytes::One, seq![Microinstruction::SaveOffsetLoad(index), Microinstruction::IncMem(Address::IndexW(index)), Microinstruction::Done(6)]),
        0x35 => EntryView::Instruction(ExtraBytes::One, seq![Microinstruction::SaveOffsetLoad(index), Microinstruction::DecMem(Address::IndexW(index)), Microinstruction::Done(6)]),
        0x36 => EntryView::Instruction(ExtraBytes::Two, seq![Microinstruction::Store(Address::IndexZ(index), Register::W), Microinstruction::Done(2)]),
        0x39 => EntryView::Instruction(ExtraBytes::Zero, seq![Microinstruction::AddRrRr(index, Register16::SP, 7)]),
        0x3c => EntryView::NoPrefix,
        0x3d => EntryView::NoPrefix,
        0x3e => EntryView::NoPrefix,
        0xdd => EntryView::NoPrefix,
        0xe1 => EntryView::Instruction(ExtraBytes::Zero, seq![Microinstruction::Pop, Microinstruction::LdRrRr(index, Register16::WZ, 0)]),
        0xe3 => EntryView::Instruction(ExtraBytes::Zero, seq![Microinstruction::Load16(Address::Register(Register16::SP)), Microinstruction::StoreWord(Address::Register(Register16::SP), index), Microinstruction::LdRrRr(index, Register16::WZ, 3)]),
        0xe5 => EntryView::Instruction(ExtraBytes::Zero, seq![Microinstruction::Push(index), Microinstruction::Done(1)]),
        0xe9 => EntryView::Instruction(ExtraBytes::Zero, seq![Microinstruction::Jp(index, 0)]),
        0xf9 => EntryView::Instruction(ExtraBytes::Zero, seq![Microinstruction::LdRrRr(Register16::SP, index, 2)]),
        0xfd => EntryView::NoPrefix,
        _ => EntryView::Instruction(ExtraBytes::Zero, seq![Microinstruction::Done(0)]),
    }
}

/// The `DD` or `FD` table, for the index register `index` with halves `high` and `low`, whose bit
/// instructions are in `bits_table`.
pub open spec fn indexed_table(
    index: Register16,
    high: Register,
    low: Register,
    bits_table: usize,
    opcode: u8,
) -> EntryView {
    if opcode == 0xcb {
        EntryView::TwoPrefix(bits_table)
    } else if 0x40 <= opcode < 0xc0 {
        match indexed_block(index, high, low, opcode) {
            Some((extra, micros)) => EntryView::Instruction(extra, micros),
            None => EntryView::NoPrefix,
        }
    } else {
        indexed_other(index, high, low, opcode)
    }
}

/// The entries of [indexed_other].
#[verifier::spinoff_prover]
#[verifier::rlimit(50)]
fn indexed_other_entry(index: Register16, high: Register, low: Register, opcode: u8) -> (instruction:
    Instruction)
    ensures
        instruction.wf(N_TABLES as int),
        instruction@ == indexed_other(index, high, low, opcode),
{
    match opcode {
        0x4 => Instruction::NoPrefix,
        0x5 => Instruction::NoPrefix,
        0x6 => Instruction::NoPrefix,
        0x9 => plain(vec![Microinstruction::AddRrRr(index, Register16::BC, 7)]),
        0xc => Instruction::NoPrefix,
        0xd => Instruction::NoPrefix,
        0xe => Instruction::NoPrefix,
        0x14 => Instruction::NoPrefix,
        0x15 => Instruction::NoPrefix,
        0x16 => Instruction::NoPrefix,
        0x19 => plain(vec![Microinstruction::AddRrRr(index, Register16::DE, 7)]),
        0x1c => Instruction::NoPrefix,
        0x1d => Instruction::NoPrefix,
        0x1e => Instruction::NoPrefix,
        0x21 => with_word(vec![Microinstruction::LdRrNn(index, 0)]),
        0x22 => with_word(vec![Microinstruction::LdMmRr(index), Microinstruction::Done(0)]),
        0x23 => plain(vec![Microinstruction::IncRr(index, 2)]),
        0x24 => plain(vec![Microinstruction::IncR(high, 0)]),
        0x25 => plain(vec![Microinstruction::DecR(high, 0)]),
        0x26 => with_byte(vec![Microinstruction::LdRN(high, 0)]),
        0x29 => plain(vec![Microinstruction::AddRrRr(index, index, 7)]),
        0x2a => with_word(vec![Microinstruction::Load16Memptr(Address::Register(Register16::WZ)), Microinstruction::LdRrRr(index, Register16::WZ, 0)]),
        0x2b => plain(vec![Microinstruction::DecRr(index, 2)]),
        0x2c => plain(vec![Microinstruction::IncR(low, 0)]),
        0x2d => plain(vec![Microinstruction::DecR(low, 0)]),
        0x2e => with_byte(vec![Microinstruction::LdRN(low, 0)]),
        0x34 => with_byte(vec![Microinstruction::SaveOffsetLoad(index), Microinstruction::IncMem(Address::IndexW(index)), Microinstruction::Done(6)]),
        0x35 => with_byte(vec![Microinstruction::SaveOffsetLoad(index), Microinstruction::DecMem(Address::IndexW(index)), Microinstruction::Done(6)]),
        0x36 => with_word(vec![Microinstruction::Store(Address::IndexZ(index), Register::W), Microinstruction::Done(2)]),
        0x39 => plain(vec![Microinstruction::AddRrRr(index, Register16::SP, 7)]),
        0x3c => Instruction::NoPrefix,
        0x3d => Instruction::NoPrefix,
        0x3e => Instruction::NoPrefix,
        0xdd => Instruction::NoPrefix,
        0xe1 => plain(vec![Microinstruction::Pop, Microinstruction::LdRrRr(index, Register16::WZ, 0)]),
        0xe3 => plain(vec![Microinstruction::Load16(Address::Register(Register16::SP)), Microinstruction::StoreWord(Address::Register(Register16::SP), index), Microinstruction::LdRrRr(index, Register16::WZ, 3)]),
        0xe5 => plain(vec![Microinstruction::Push(index), Microinstruction::Done(1)]),
        0xe9 => plain(vec![Microinstruction::Jp(index, 0)]),
        0xf9 => plain(vec![Microinstruction::LdRrRr(Register16::SP, index, 2)]),
        0xfd => Instruction::NoPrefix,
        _ => plain(vec![Microinstruction::Done(0)]),
    }
}

/// Entry of the `DD` or `FD` table for an opcode.
///
/// `index` is the index register, `high` and `low` its halves, and `bits_table` the table of the
/// bit instructions that follow the `CB` prefix.
pub fn indexed_entry(
    index: Register16,
    high: Register,
    low: Register,
    bits_table: usize,
    opcode: u8,
) -> (instruction: Instruction)
    requires
        bits_table == IX_BIT_TABLE || bits_table == IY_BIT_TABLE,
    ensures
        instruction.wf(N_TABLES as int),
        instruction@ == indexed_table(index, high, low, bits_table, opcode),
{
    if opcode == 0xcb {
        Instruction::TwoPrefix(bits_table)
    } else if 0x40 <= opcode && opcode < 0xc0 {
        indexed_block_entry(index, high, low, opcode)
    } else {
        indexed_other_entry(index, high, low, opcode)
    }
}

} // verus!
