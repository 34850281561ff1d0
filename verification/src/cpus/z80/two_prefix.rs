//! Two prefixes bit instructions.
//!
//! This file handles the IX and IY bit instructions (`DD CB d op` and `FD CB d op`). The offset `d`
//! is in `W` when they run. Rotations, shifts, `res` and `set` also copy the result to the
//! register selected by bits 2-0 of the opcode (`6` selects none).

use crate::cpus::z80::bit_instructions::{rotate_op, spec_rotate_op};
use crate::cpus::z80::{plain, N_TABLES};
use crate::instructions::micro::step::{Address, Microinstruction};
use crate::instructions::Instruction;
use crate::state::{Register, Register16};
use vstd::prelude::*;

verus! {

/// The register that receives a copy of the result, from bits 2-0 of the opcode.
///
/// `6` selects `Z`, which holds the result anyway.
pub open spec fn spec_copy_register(code: u8) -> Register {
    match code {
        0 => Register::B,
        1 => Register::C,
        2 => Register::D,
        3 => Register::E,
        4 => Register::H,
        5 => Register::L,
        6 => Register::Z,
        _ => Register::A,
    }
}

/// The register that receives a copy of the result, from bits 2-0 of the opcode.
#[verifier::when_used_as_spec(spec_copy_register)]
fn copy_register(code: u8) -> (reg: Register)
    requires
        code < 8,
    ensures
        reg == spec_copy_register(code),
{
    match code {
        0 => Register::B,
        1 => Register::C,
        2 => Register::D,
        3 => Register::E,
        4 => Register::H,
        5 => Register::L,
        6 => Register::Z,
        _ => Register::A,
    }
}

/// The microinstructions of a `DD CB` or `FD CB` instruction on the index register `index`: the
/// byte at the index plus the offset is loaded into `Z`, operated on, and stored back.
pub open spec fn index_bit_micros(index: Register16, opcode: u8) -> Seq<Microinstruction> {
    let group = opcode >> 6u8;
    let selector = (opcode >> 3u8) & 7;
    let bit = selector as u32;
    let reg = spec_copy_register(opcode & 7);
    let address = Address::IndexW(index);
    seq![
        Microinstruction::Load(address),
        if group == 0 {
            Microinstruction::RotateStore(spec_rotate_op(selector), address, reg)
        } else if group == 1 {
            Microinstruction::TestBitStore(address, bit)
        } else if group == 2 {
            Microinstruction::ResetBitStore(address, bit, reg)
        } else {
            Microinstruction::SetBitStore(address, bit, reg)
        },
        Microinstruction::Done(if group == 1 { 0 } else { 3 }),
    ]
}

/// Entry of the `DD CB` or `FD CB` table for an opcode, for the index register `index`.
pub fn index_bit_entry(index: Register16, opcode: u8) -> (instruction: Instruction)
    ensures
        instruction.wf(N_TABLES as int),
        instruction.is_plain(index_bit_micros(index, opcode)),
{
    let group = opcode >> 6u8;
    let selector = (opcode >> 3u8) & 7;
    let code = opcode & 7;
    assert((opcode >> 3u8) & 7 < 8 && opcode & 7 < 8 && opcode >> 6u8 < 4) by (bit_vector);
    let address = Address::IndexW(index);
    let bit = selector as u32;
    let reg = copy_register(code);
    if group == 0 {
        plain(
            vec![
                Microinstruction::Load(address),
                Microinstruction::RotateStore(rotate_op(selector), address, reg),
                Microinstruction::Done(3),
            ],
        )
    } else if group == 1 {
        plain(
            vec![
                Microinstruction::Load(address),
                Microinstruction::TestBitStore(address, bit),
                Microinstruction::Done(0),
            ],
        )
    } else if group == 2 {
        plain(
            vec![
                Microinstruction::Load(address),
                Microinstruction::ResetBitStore(address, bit, reg),
                Microinstruction::Done(3),
            ],
        )
    } else {
        plain(
            vec![
                Microinstruction::Load(address),
                Microinstruction::SetBitStore(address, bit, reg),
                Microinstruction::Done(3),
            ],
        )
    }
}

} // verus!
