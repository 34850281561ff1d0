//! Input and output

use crate::instructions::ExecResult;
use crate::state::{parity_bits, value_bits, Flags, InterruptMode, Register, State, StateView};
use vstd::prelude::*;

verus! {

/// Write `A` to the port formed by `A` (high byte) and `Z` (low byte)
pub fn out_n_a(state: &mut State) -> (result: ExecResult)
    ensures
        final(state)@ == old(state)@,
        result == (ExecResult::Out {
            port: (old(state)@.r8(Register::A) * 256 + old(state)@.r8(Register::Z)) as u16,
            data: old(state)@.r8(Register::A),
        }),
{
    let a = state.a();
    let port = a as u16 * 256 + state.z() as u16;
    ExecResult::Out { port, data: a }
}

/// Effect of the processing part of `in r, (c)`: the byte read in `Z` goes to `reg`.
pub open spec fn in_r_state(s: StateView, reg: Register) -> StateView {
    let data = s.r8(Register::Z);
    s.set_flags((((s.flags() & 0x01) | value_bits(data)) | parity_bits(data)) as u8).set8(
        reg,
        data,
    )
}

/// Perform the processing part of an `in r, (c)` instruction
///
/// The data received from the device should be in the `Z` register
pub fn in_r_bc(state: &mut State, reg: Register, cycles: u32) -> (result: ExecResult)
    ensures
        final(state)@ == in_r_state(old(state)@, reg),
        result == ExecResult::Done(cycles),
{
    let c_flag = state.get_flags() & Flags::C();
    let data = state.z();
    state.update_flags(c_flag | Flags::from_value(data) | Flags::parity(data));
    state.set_register_8(reg, data);
    ExecResult::Done(cycles)
}

/// Sets the interrupt mode
pub fn im_n(state: &mut State, interrupt_mode: InterruptMode, cycles: u32) -> (result: ExecResult)
    ensures
        final(state)@ == old(state)@.set_interrupt_mode(interrupt_mode),
        result == ExecResult::Done(cycles),
{
    state.interrupt_mode = interrupt_mode;
    ExecResult::Done(cycles)
}

} // verus!
