//! Microinstructions and related fun.
//!
//! This module contains functions that implement microinstructions: small steps that operate on
//! the [`State`] and yield an [`ExecResult`].
//!
//! Most Z80 instructions can be implemented with a single microinstruction, so the functions that
//! implement them are named after Z80 instructions and their parameters:
//!
//! * `r` - an 8-bit register.
//! * `rr` - a 16-bit register.
//! * `n` - an immediate 8-bit value.
//! * `nn` - an immediate 16-bit value.
//! * `pp` - a 16-bit register that contains a memory address.
//! * `mm` - an immediate value that is used as a memory address.
//! * `d` - an immediate offset added to some register
//! * `cc` - a boolean condition
//!
//! Functions with a `cycles` parameter return [`ExecResult::Done`] by themselves.

use crate::instructions::ExecResult;
use crate::state::{add16, next_r, Register, Register16, State, StateView};
use vstd::prelude::*;

pub mod bit;
pub mod io;
pub mod jump;
pub mod ld;
pub mod math;
pub mod step;
pub mod transfer;

verus! {

/// Microinstruction to load one byte as instruction argument.
///
/// The _Load_ this function returns reads a single byte to the `Z` register.
///
/// This can be used by two byte instructions to load their arguments.
pub fn fetch_byte(state: &mut State) -> (result: ExecResult)
    ensures
        final(state)@ == old(state)@.set16(Register16::PC, add16(old(state)@.pc(), 1)),
        result == (ExecResult::Load { address: old(state)@.pc() }),
{
    let pc = state.get_register_16(Register16::PC);
    state.advance_pc(1);
    ExecResult::load(pc)
}

/// Microinstruction to load a two byte word as instruction arguments.
///
/// The _Load16_ this function returns reads two bytes to the `WZ` register.
///
/// This can be used by three byte instructions to load their arguments.
pub fn fetch_word(state: &mut State) -> (result: ExecResult)
    ensures
        final(state)@ == old(state)@.set16(Register16::PC, add16(old(state)@.pc(), 2)),
        result == (ExecResult::Load16 { address: old(state)@.pc() }),
{
    let pc = state.get_register_16(Register16::PC);
    state.advance_pc(2);
    ExecResult::load16(pc)
}

/// Effect of an opcode fetch: `PC` moves to the next byte and the refresh register counts.
pub open spec fn fetch_state(s: StateView) -> StateView {
    s.set16(Register16::PC, add16(s.pc(), 1)).set8(Register::R, next_r(s.r8(Register::R)))
}

/// Microinstruction to fetch an opcode.
///
/// The opcode is received in the `Z` register.
pub fn fetch(state: &mut State) -> (result: ExecResult)
    ensures
        final(state)@ == fetch_state(old(state)@),
        result == (ExecResult::Fetch { address: old(state)@.pc() }),
{
    let pc = state.get_register_16(Register16::PC);
    state.advance_pc(1);
    // Advance the R register
    state.advance_r();
    ExecResult::fetch(pc)
}

/// Load the parameter for a two byte instruction.
///
/// The result is stored in the `Z` register.
pub fn load_byte_parameter(state: &mut State) -> (result: ExecResult)
    ensures
        final(state)@ == old(state)@.set16(Register16::PC, add16(old(state)@.pc(), 1)),
        result == (ExecResult::Load { address: old(state)@.pc() }),
{
    fetch_byte(state)
}

/// Loads the parameter for a three byte instruction
///
/// The result is stored in the `WZ` register.
pub fn load_word_parameter(state: &mut State) -> (result: ExecResult)
    ensures
        final(state)@ == old(state)@.set16(Register16::PC, add16(old(state)@.pc(), 2)),
        result == (ExecResult::Load16 { address: old(state)@.pc() }),
{
    fetch_word(state)
}

/// If the condition is true, load a 16 bit value to `WZ`. Otherwise, abort running the instruction
/// and return [`ExecResult::Done`],
pub fn load_16_or_break(state: &mut State, address: u16, cond: bool, cycles: u32) -> (result:
    ExecResult)
    ensures
        cond ==> final(state)@ == old(state)@ && result == (ExecResult::Load16 { address }),
        !cond ==> final(state)@ == old(state)@.set_mpc(usize::MAX) && result == ExecResult::Done(
            cycles,
        ),
{
    if cond {
        ExecResult::load16(address)
    } else {
        state.skip_instruction();
        ExecResult::Done(cycles)
    }
}

/// Microinstruction component to write a 16-bit value to a memory location
pub fn store_16(address: u16, data: u16) -> (result: ExecResult)
    ensures
        result == (ExecResult::Store16 {
            address,
            data: [(data % 256) as u8, (data / 256) as u8],
        }),
{
    ExecResult::Store16 { address, data: [(data % 256) as u8, (data / 256) as u8] }
}

} // verus!
