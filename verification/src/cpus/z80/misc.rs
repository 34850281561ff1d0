//! Miscellaneous instructions.
//!
//! These are instructions with the `ED` prefix. Opcodes without an instruction behave as a two
//! byte `nop`.

use crate::cpus::z80::bit_instructions::{operand_register, spec_operand_register};
use crate::cpus::z80::{pair, plain, spec_pair, N_TABLES};
use crate::instructions::micro::step::{Address, BlockOp, Microinstruction};
use crate::instructions::{EntryView, ExtraBytes, Instruction};
use crate::state::{InterruptMode, Register, Register16};
use vstd::prelude::*;

verus! {

/// The block instruction selected by bits 4-3 of an opcode (`y`: increment or decrement,
/// repeated or not) and bits 1-0 (`z`: load, compare, input, output).
pub open spec fn spec_block_op(y: u8, z: u8) -> BlockOp {
    match (y, z) {
        (4, 0) => BlockOp::Ldi,
        (4, 1) => BlockOp::Cpi,
        (4, 2) => BlockOp::Ini,
        (4, _) => BlockOp::Outi,
        (5, 0) => BlockOp::Ldd,
        (5, 1) => BlockOp::Cpd,
        (5, 2) => BlockOp::Ind,
        (5, _) => BlockOp::Outd,
        (6, 0) => BlockOp::Ldir,
        (6, 1) => BlockOp::Cpir,
        (6, 2) => BlockOp::Inir,
        (6, _) => BlockOp::Otir,
        (_, 0) => BlockOp::Lddr,
        (_, 1) => BlockOp::Cpdr,
        (_, 2) => BlockOp::Indr,
        (_, _) => BlockOp::Otdr,
    }
}

/// The block instruction selected by the fields of an opcode.
#[verifier::when_used_as_spec(spec_block_op)]
fn block_op(y: u8, z: u8) -> (op: BlockOp)
    ensures
        op == spec_block_op(y, z),
{
    match (y, z) {
        (4, 0) => BlockOp::Ldi,
        (4, 1) => BlockOp::Cpi,
        (4, 2) => BlockOp::Ini,
        (4, _) => BlockOp::Outi,
        (5, 0) => BlockOp::Ldd,
        (5, 1) => BlockOp::Cpd,
        (5, 2) => BlockOp::Ind,
        (5, _) => BlockOp::Outd,
        (6, 0) => BlockOp::Ldir,
        (6, 1) => BlockOp::Cpir,
        (6, 2) => BlockOp::Inir,
        (6, _) => BlockOp::Otir,
        (_, 0) => BlockOp::Lddr,
        (_, 1) => BlockOp::Cpdr,
        (_, 2) => BlockOp::Indr,
        (_, _) => BlockOp::Otdr,
    }
}

/// The entries of the `ED` table that follow the columns of bits 2-0 of their opcode.
///
/// From 40h to 7Fh: port input and output with the register of bits 5-3 (`6` standing for `Z`,
/// which only holds the byte), 16-bit subtraction and addition with carry, and 16-bit loads and
/// stores, with the register pair of bits 5-4. From A0h to BFh: the block instructions, which
/// end with the updates of the registers.
pub open spec fn misc_column(opcode: u8) -> Option<(ExtraBytes, Seq<Microinstruction>)> {
    let y = (opcode >> 3u8) & 7;
    let z = opcode & 7;
    let p = y >> 1u8;
    let q = y & 1;
    let hl = Address::Register(Register16::HL);
    if 0x40 <= opcode < 0x80 {
        let r = if y == 6 {
            Register::Z
        } else {
            spec_operand_register(y)
        };
        if z == 0 {
            Some((ExtraBytes::Zero, seq![Microinstruction::Input(Register16::BC), Microinstruction::InR(r, 12)]))
        } else if z == 1 {
            Some((ExtraBytes::Zero, seq![Microinstruction::Out(Register16::BC, r), Microinstruction::Done(12)]))
        } else if z == 2 && q == 0 {
            Some((ExtraBytes::Zero, seq![Microinstruction::SbcHl(spec_pair(p), 15)]))
        } else if z == 2 {
            Some((ExtraBytes::Zero, seq![Microinstruction::AdcHl(spec_pair(p), 15)]))
        } else if z == 3 && q == 0 {
            Some((ExtraBytes::Two, seq![Microinstruction::LdMmRr(spec_pair(p)), Microinstruction::Done(20)]))
        } else if z == 3 {
            Some(
                (
                    ExtraBytes::Two,
                    seq![
                        Microinstruction::Load16(Address::Register(Register16::WZ)),
                        Microinstruction::LdRrRr(spec_pair(p), Register16::WZ, 20),
                    ],
                ),
            )
        } else {
            None
        }
    } else if 0xa0 <= opcode < 0xc0 && z < 4 {
        let last = Microinstruction::Block(spec_block_op(y, z), if y >= 6 { 21 } else { 16 }, 16);
        Some(
            (
                ExtraBytes::Zero,
                if z == 0 {
                    seq![
                        Microinstruction::Load(hl),
                        Microinstruction::Store(Address::Register(Register16::DE), Register::Z),
                        last,
                    ]
                } else if z == 1 {
                    seq![Microinstruction::Load(hl), last]
                } else if z == 2 {
                    seq![Microinstruction::Input(Register16::BC), Microinstruction::Store(hl, Register::Z), last]
                } else {
                    seq![Microinstruction::Load(hl), Microinstruction::Out(Register16::BC, Register::Z), last]
                },
            ),
        )
    } else {
        None
    }
}

/// The microinstructions of a described entry.
spec fn column_micros(entry: Option<(ExtraBytes, Seq<Microinstruction>)>) -> Seq<Microinstruction> {
    match entry {
        Some((_, micros)) => micros,
        None => Seq::empty(),
    }
}

/// The entries of [misc_column].
fn misc_column_entry(opcode: u8) -> (instruction: Instruction)
    requires
        misc_column(opcode) is Some,
    ensures
        instruction.wf(N_TABLES as int),
        instruction.is_described_by(misc_column(opcode)),
{
    let y = (opcode >> 3u8) & 7;
    let z = opcode & 7;
    let p = y >> 1u8;
    let q = y & 1;
    assert((opcode >> 3u8) & 7 < 8 && opcode & 7 < 8 && ((opcode >> 3u8) & 7) >> 1u8 < 4 && (0xa0
        <= opcode < 0xc0 ==> (opcode >> 3u8) & 7 >= 4)) by (bit_vector);
    let hl = Address::Register(Register16::HL);
    let (extra, micros) = if opcode < 0x80 {
        let r = if y == 6 {
            Register::Z
        } else {
            operand_register(y)
        };
        if z == 0 {
            (ExtraBytes::Zero, vec![Microinstruction::Input(Register16::BC), Microinstruction::InR(r, 12)])
        } else if z == 1 {
            (ExtraBytes::Zero, vec![Microinstruction::Out(Register16::BC, r), Microinstruction::Done(12)])
        } else if z == 2 && q == 0 {
            (ExtraBytes::Zero, vec![Microinstruction::SbcHl(pair(p), 15)])
        } else if z == 2 {
            (ExtraBytes::Zero, vec![Microinstruction::AdcHl(pair(p), 15)])
        } else if q == 0 {
            (ExtraBytes::Two, vec![Microinstruction::LdMmRr(pair(p)), Microinstruction::Done(20)])
        } else {
            (
                ExtraBytes::Two,
                vec![
                    Microinstruction::Load16(Address::Register(Register16::WZ)),
                    Microinstruction::LdRrRr(pair(p), Register16::WZ, 20),
                ],
            )
        }
    } else {
        let last = Microinstruction::Block(block_op(y, z), if y >= 6 { 21 } else { 16 }, 16);
        (
            ExtraBytes::Zero,
            if z == 0 {
                vec![
                    Microinstruction::Load(hl),
                    Microinstruction::Store(Address::Register(Register16::DE), Register::Z),
                    last,
                ]
            } else if z == 1 {
                vec![Microinstruction::Load(hl), last]
            } else if z == 2 {
                vec![Microinstruction::Input(Register16::BC), Microinstruction::Store(hl, Register::Z), last]
            } else {
                vec![Microinstruction::Load(hl), Microinstruction::Out(Register16::BC, Register::Z), last]
            },
        )
    };
    assert(micros@ =~= column_micros(misc_column(opcode)));
    Instruction::Instruction { extra_bytes: extra, micros }
}

/// The entries of the `ED` table outside [misc_column]: `neg`, the returns from interrupts, the
/// interrupt modes, the loads between the accumulator and `I` or `R`, `rrd` and `rld`; the other
/// opcodes are two byte `nop`s.
pub open spec fn misc_other(opcode: u8) -> EntryView {
    match opcode {
        0x44 => EntryView::Instruction(ExtraBytes::Zero, seq![Microinstruction::Neg(8)]),
        0x45 => EntryView::Instruction(ExtraBytes::Zero, seq![Microinstruction::Load16(Address::Register(Register16::SP)), Microinstruction::Retn(14)]),
        0x46 => EntryView::Instruction(ExtraBytes::Zero, seq![Microinstruction::Im(InterruptMode::Instruction, 8)]),
        0x47 => EntryView::Instruction(ExtraBytes::Zero, seq![Microinstruction::LdRR(Register::I, Register::A, 9)]),
        0x4d => EntryView::Instruction(ExtraBytes::Zero, seq![Microinstruction::Load16(Address::Register(Register16::SP)), Microinstruction::Reti(14)]),
        0x4f => EntryView::Instruction(ExtraBytes::Zero, seq![Microinstruction::LdRR(Register::R, Register::A, 9)]),
        0x56 => EntryView::Instruction(ExtraBytes::Zero, seq![Microinstruction::Im(InterruptMode::Rst0038, 8)]),
        0x57 => EntryView::Instruction(ExtraBytes::Zero, seq![Microinstruction::LdAIR(Register::I)]),
        0x5e => EntryView::Instruction(ExtraBytes::Zero, seq![Microinstruction::Im(InterruptMode::Vectored, 8)]),
        0x5f => EntryView::Instruction(ExtraBytes::Zero, seq![Microinstruction::LdAIR(Register::R)]),
        0x67 => EntryView::Instruction(ExtraBytes::Zero, seq![Microinstruction::Load16(Address::Register(Register16::HL)), Microinstruction::RrdStore, Microinstruction::Done(18)]),
        0x6f => EntryView::Instruction(ExtraBytes::Zero, seq![Microinstruction::Load16(Address::Register(Register16::HL)), Microinstruction::RldStore, Microinstruction::Done(18)]),
        _ => EntryView::Instruction(ExtraBytes::Zero, seq![Microinstruction::Done(8)]),
    }
}

/// The `ED` table.
pub open spec fn misc_table(opcode: u8) -> EntryView {
    match misc_column(opcode) {
        Some((extra, micros)) => EntryView::Instruction(extra, micros),
        None => misc_other(opcode),
    }
}

/// The entries of [misc_other].
#[verifier::spinoff_prover]
fn misc_other_entry(opcode: u8) -> (instruction: Instruction)
    ensures
        instruction.wf(N_TABLES as int),
        instruction@ == misc_other(opcode),
{
    match opcode {
        0x44 => plain(vec![Microinstruction::Neg(8)]),
        0x45 => plain(vec![Microinstruction::Load16(Address::Register(Register16::SP)), Microinstruction::Retn(14)]),
        0x46 => plain(vec![Microinstruction::Im(InterruptMode::Instruction, 8)]),
        0x47 => plain(vec![Microinstruction::LdRR(Register::I, Register::A, 9)]),
        0x4d => plain(vec![Microinstruction::Load16(Address::Register(Register16::SP)), Microinstruction::Reti(14)]),
        0x4f => plain(vec![Microinstruction::LdRR(Register::R, Register::A, 9)]),
        0x56 => plain(vec![Microinstruction::Im(InterruptMode::Rst0038, 8)]),
        0x57 => plain(vec![Microinstruction::LdAIR(Register::I)]),
        0x5e => plain(vec![Microinstruction::Im(InterruptMode::Vectored, 8)]),
        0x5f => plain(vec![Microinstruction::LdAIR(Register::R)]),
        0x67 => plain(vec![Microinstruction::Load16(Address::Register(Register16::HL)), Microinstruction::RrdStore, Microinstruction::Done(18)]),
        0x6f => plain(vec![Microinstruction::Load16(Address::Register(Register16::HL)), Microinstruction::RldStore, Microinstruction::Done(18)]),
        _ => plain(vec![Microinstruction::Done(8)]),
    }
}

/// Entry of the `ED` table for an opcode.
pub fn misc_entry(opcode: u8) -> (instruction: Instruction)
    ensures
        instruction.wf(N_TABLES as int),
        instruction@ == misc_table(opcode),
{
    assert((0x40 <= opcode < 0x80 || 0xa0 <= opcode < 0xc0) && opcode & 7 < 4 <==> misc_column(
        opcode,
    ) is Some);
    if (0x40 <= opcode && opcode < 0x80 || 0xa0 <= opcode && opcode < 0xc0) && opcode & 7 < 4 {
        misc_column_entry(opcode)
    } else {
        misc_other_entry(opcode)
    }
}

} // verus!
