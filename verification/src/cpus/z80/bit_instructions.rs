//! Bit instructions with the CB prefix.
//!
//! The opcode is split in three fields: bits 7-6 select the operation (rotation or shift, `bit`,
//! `res`, `set`), bits 5-3 the kind of rotation or the bit number, and bits 2-0 the register, with
//! `6` standing for `(hl)`.

use crate::cpus::z80::{plain, N_TABLES};
use crate::instructions::micro::step::{Address, Microinstruction, RotateOp};
use crate::instructions::Instruction;
use crate::state::{Register, Register16};
use vstd::prelude::*;

verus! {

/// The rotation or shift selected by bits 5-3 of an opcode.
pub open spec fn spec_rotate_op(code: u8) -> RotateOp {
    match code {
        0 => RotateOp::Rlc,
        1 => RotateOp::Rrc,
        2 => RotateOp::Rl,
        3 => RotateOp::Rr,
        4 => RotateOp::Sla,
        5 => RotateOp::Sra,
        6 => RotateOp::Sll,
        _ => RotateOp::Srl,
    }
}

/// The rotation or shift selected by bits 5-3 of an opcode.
#[verifier::when_used_as_spec(spec_rotate_op)]
pub fn rotate_op(code: u8) -> (op: RotateOp)
    requires
        code < 8,
    ensures
        op == spec_rotate_op(code),
{
    match code {
        0 => RotateOp::Rlc,
        1 => RotateOp::Rrc,
        2 => RotateOp::Rl,
        3 => RotateOp::Rr,
        4 => RotateOp::Sla,
        5 => RotateOp::Sra,
        6 => RotateOp::Sll,
        _ => RotateOp::Srl,
    }
}

/// The register selected by bits 2-0 of an opcode, where `6` doesn't name a register.
pub open spec fn spec_operand_register(code: u8) -> Register {
    match code {
        0 => Register::B,
        1 => Register::C,
        2 => Register::D,
        3 => Register::E,
        4 => Register::H,
        5 => Register::L,
        _ => Register::A,
    }
}

/// The register selected by bits 2-0 of an opcode, where `6` doesn't name a register.
#[verifier::when_used_as_spec(spec_operand_register)]
pub fn operand_register(code: u8) -> (reg: Register)
    requires
        code < 8,
        code != 6,
    ensures
        reg == spec_operand_register(code),
{
    match code {
        0 => Register::B,
        1 => Register::C,
        2 => Register::D,
        3 => Register::E,
        4 => Register::H,
        5 => Register::L,
        _ => Register::A,
    }
}

/// The microinstructions of a `CB` instruction.
///
/// A register operand takes one microinstruction. `(hl)` is loaded into `Z`, operated on, and
/// stored back.
pub open spec fn bit_micros(opcode: u8) -> Seq<Microinstruction> {
    let group = opcode >> 6u8;
    let selector = (opcode >> 3u8) & 7;
    let code = opcode & 7;
    let bit = selector as u32;
    let hl = Address::Register(Register16::HL);
    if code == 6 {
        seq![
            Microinstruction::Load(hl),
            if group == 0 {
                Microinstruction::RotateStore(spec_rotate_op(selector), hl, Register::Z)
            } else if group == 1 {
                Microinstruction::TestBitStore(hl, bit)
            } else if group == 2 {
                Microinstruction::ResetBitStore(hl, bit, Register::Z)
            } else {
                Microinstruction::SetBitStore(hl, bit, Register::Z)
            },
            Microinstruction::Done(1),
        ]
    } else {
        let reg = spec_operand_register(code);
        seq![
            if group == 0 {
                Microinstruction::Rotate(spec_rotate_op(selector), reg, 0)
            } else if group == 1 {
                Microinstruction::TestBit(reg, bit, 0)
            } else if group == 2 {
                Microinstruction::ResetBit(reg, bit, 0)
            } else {
                Microinstruction::SetBit(reg, bit, 0)
            },
        ]
    }
}

/// Entry of the `CB` table for an opcode.
pub fn bit_entry(opcode: u8) -> (instruction: Instruction)
    ensures
        instruction.wf(N_TABLES as int),
        instruction.is_plain(bit_micros(opcode)),
{
    let group = opcode >> 6u8;
    let selector = (opcode >> 3u8) & 7;
    let code = opcode & 7;
    assert((opcode >> 3u8) & 7 < 8 && opcode & 7 < 8 && opcode >> 6u8 < 4) by (bit_vector);
    let hl = Address::Register(Register16::HL);
    let bit = selector as u32;
    if code == 6 {
        // Operate on (hl): load it into Z, operate, store it back
        let op = if group == 0 {
            Microinstruction::RotateStore(rotate_op(selector), hl, Register::Z)
        } else if group == 1 {
            Microinstruction::TestBitStore(hl, bit)
        } else if group == 2 {
            Microinstruction::ResetBitStore(hl, bit, Register::Z)
        } else {
            Microinstruction::SetBitStore(hl, bit, Register::Z)
        };
        let micros = vec![Microinstruction::Load(hl), op, Microinstruction::Done(1)];
        assert(micros@ =~= bit_micros(opcode));
        plain(micros)
    } else {
        let reg = operand_register(code);
        let op = if group == 0 {
            Microinstruction::Rotate(rotate_op(selector), reg, 0)
        } else if group == 1 {
            Microinstruction::TestBit(reg, bit, 0)
        } else if group == 2 {
            Microinstruction::ResetBit(reg, bit, 0)
        } else {
            Microinstruction::SetBit(reg, bit, 0)
        };
        let micros = vec![op];
        assert(micros@ =~= bit_micros(opcode));
        plain(micros)
    }
}

} // verus!
