//! Jumps and other things that change the program counter

use crate::instructions::ExecResult;
use crate::instructions::micro::math::signed;
use crate::state::{add16, Register, Register16, State, StateView};
use vstd::prelude::*;

verus! {

/// Target of a relative jump: `PC` plus the signed offset in `Z`.
pub open spec fn relative_target(s: StateView) -> u16 {
    add16(s.pc(), signed(s.r8(Register::Z)))
}

/// Effect of a relative jump: `MEMPTR` takes the target, `PC` only if the condition holds.
pub open spec fn jr_state(s: StateView, cond: bool) -> StateView {
    let target = relative_target(s);
    if cond {
        s.set_memptr(target).set16(Register16::PC, target)
    } else {
        s.set_memptr(target)
    }
}

/// Jump to a relative address if the condition is true
///
/// This also sets `MEMPTR` to the address even if the jump doesn't happen
pub fn jr_cc_d(state: &mut State, cond: bool, cycles_jump: u32, cycles_not_jump: u32) -> (result:
    ExecResult)
    ensures
        final(state)@ == jr_state(old(state)@, cond),
        result == ExecResult::Done(if cond { cycles_jump } else { cycles_not_jump }),
{
    let z = state.z();
    // Sign extend the offset
    let offset: u16 = if z < 128 {
        z as u16
    } else {
        z as u16 + 0xff00
    };
    let new_pc = state.pc().wrapping_add(offset);
    state.memptr = new_pc;
    if cond {
        state.set_register_16(Register16::PC, new_pc);
        ExecResult::Done(cycles_jump)
    } else {
        ExecResult::Done(cycles_not_jump)
    }
}

/// Effect of `djnz d`: `B` is decremented and the jump happens if it didn't reach zero.
pub open spec fn djnz_state(s: StateView) -> StateView {
    let b = ((s.r8(Register::B) + 255) % 256) as u8;
    jr_state(s.set8(Register::B, b), b != 0)
}

/// Decrement B and jump to immediate offset if not zero.
///
/// The number of cycles depends on if the instruction jumps or not.
pub fn djnz_d(state: &mut State, cycles_jump: u32, cycles_not_jump: u32) -> (result: ExecResult)
    ensures
        final(state)@ == djnz_state(old(state)@),
        result == ExecResult::Done(
            if old(state)@.r8(Register::B) != 1 {
                cycles_jump
            } else {
                cycles_not_jump
            },
        ),
{
    let b = state.b().wrapping_sub(1);
    *state.b_mut() = b;
    jr_cc_d(state, b != 0, cycles_jump, cycles_not_jump)
}

/// If the condition is true, the value pointed by sp is loaded to `WZ`. Otherwise, abort running
/// the instruction and return [`ExecResult::Done`].
pub fn load_sp_or_break(state: &mut State, cond: bool, cycles: u32) -> (result: ExecResult)
    ensures
        cond ==> final(state)@ == old(state)@ && result == (ExecResult::Load16 {
            address: old(state)@.r16(Register16::SP),
        }),
        !cond ==> final(state)@ == old(state)@.set_mpc(usize::MAX) && result == ExecResult::Done(
            cycles,
        ),
{
    let address = state.sp();
    if cond {
        ExecResult::load16(address)
    } else {
        state.skip_instruction();
        ExecResult::Done(cycles)
    }
}

/// Effect of `ret` once the return address is in `WZ`: jump to it and pop the stack.
pub open spec fn ret_state(s: StateView) -> StateView {
    let wz = s.r16(Register16::WZ);
    s.set_memptr(wz).set16(Register16::PC, wz).set16(
        Register16::SP,
        add16(s.r16(Register16::SP), 2),
    )
}

/// Pops the stack and jump to the value loaded into `WZ`.
///
/// This assumes the value pointed by `SP` was loaded into `WZ`
pub fn ret(state: &mut State, cycles: u32) -> (result: ExecResult)
    ensures
        final(state)@ == ret_state(old(state)@),
        result == ExecResult::Done(cycles),
{
    state.memptr = state.wz();
    // Jump
    state.set_register_16(Register16::PC, state.wz());
    // Pop
    state.set_register_16(Register16::SP, state.sp().wrapping_add(2));
    ExecResult::Done(cycles)
}

/// Pops the stack into the `WZ` 16-bit register
pub fn pop(state: &mut State) -> (result: ExecResult)
    ensures
        final(state)@ == old(state)@.set16(
            Register16::SP,
            add16(old(state)@.r16(Register16::SP), 2),
        ),
        result == (ExecResult::Load16 { address: old(state)@.r16(Register16::SP) }),
{
    let address = state.sp();
    // Pop
    state.set_register_16(Register16::SP, address.wrapping_add(2));
    ExecResult::load16(address)
}

/// Stack pointer after a push.
pub open spec fn pushed_sp(s: StateView) -> u16 {
    add16(s.r16(Register16::SP), -2)
}

/// Push a 16-bit register into the stack
///
/// The register is read after the stack pointer moved.
pub fn push(state: &mut State, reg: Register16) -> (result: ExecResult)
    ensures
        final(state)@ == old(state)@.set16(Register16::SP, pushed_sp(old(state)@)),
        result == (ExecResult::Store16 {
            address: pushed_sp(old(state)@),
            data: final(state)@.bytes(reg),
        }),
{
    let address = state.sp().wrapping_sub(2);
    state.set_register_16(Register16::SP, address);
    ExecResult::Store16 { address, data: state.get_register_16_bytes(reg) }
}

/// Push the program counter into the stack
pub fn push_pc(state: &mut State) -> (result: ExecResult)
    ensures
        final(state)@ == old(state)@.set16(Register16::SP, pushed_sp(old(state)@)),
        result == (ExecResult::Store16 {
            address: pushed_sp(old(state)@),
            data: old(state)@.bytes(Register16::PC),
        }),
{
    push(state, Register16::PC)
}

/// Effect of a conditional absolute jump to `WZ`.
pub open spec fn jp_cc_state(s: StateView, cond: bool) -> StateView {
    let wz = s.r16(Register16::WZ);
    if cond {
        s.set_memptr(wz).set16(Register16::PC, wz)
    } else {
        s.set_memptr(wz)
    }
}

/// Jump to the immediate value if the condition is true
pub fn jp_cc_nn(state: &mut State, cond: bool, cycles: u32) -> (result: ExecResult)
    ensures
        final(state)@ == jp_cc_state(old(state)@, cond),
        result == ExecResult::Done(cycles),
{
    state.memptr = state.wz();
    if cond {
        state.set_register_16(Register16::PC, state.wz());
    }
    ExecResult::Done(cycles)
}

/// Push `PC` into the stack if the condition is true. Otherwise, finish instruction execution
///
/// It also sets `MEMPTR` to `WZ`
pub fn push_pc_or_break(state: &mut State, cond: bool, cycles: u32) -> (result: ExecResult)
    ensures
        cond ==> final(state)@ == old(state)@.set_memptr(old(state)@.r16(Register16::WZ)).set16(
            Register16::SP,
            pushed_sp(old(state)@),
        ) && result == (ExecResult::Store16 {
            address: pushed_sp(old(state)@),
            data: old(state)@.bytes(Register16::PC),
        }),
        !cond ==> final(state)@ == old(state)@.set_memptr(old(state)@.r16(Register16::WZ)).set_mpc(
            usize::MAX,
        ) && result == ExecResult::Done(cycles),
{
    state.memptr = state.wz();
    if cond {
        let sp = state.sp().wrapping_sub(2);
        state.set_register_16(Register16::SP, sp);
        ExecResult::Store16 { address: sp, data: state.pc_bytes() }
    } else {
        state.skip_instruction();
        ExecResult::Done(cycles)
    }
}

/// Jump to the immediate value
pub fn jr_mm(state: &mut State, cycles: u32) -> (result: ExecResult)
    ensures
        final(state)@ == jp_cc_state(old(state)@, true),
        result == ExecResult::Done(cycles),
{
    state.set_register_16(Register16::PC, state.wz());
    state.memptr = state.wz();
    ExecResult::Done(cycles)
}

/// Jump to the address
pub fn jp(state: &mut State, address: u16, cycles: u32) -> (result: ExecResult)
    ensures
        final(state)@ == old(state)@.set16(Register16::PC, address),
        result == ExecResult::Done(cycles),
{
    state.set_register_16(Register16::PC, address);
    ExecResult::Done(cycles)
}

/// Jump to a fixed address, which also goes to `MEMPTR`
pub fn jump_to(state: &mut State, address: u16, cycles: u32) -> (result: ExecResult)
    ensures
        final(state)@ == old(state)@.set_memptr(address).set16(Register16::PC, address),
        result == ExecResult::Done(cycles),
{
    state.memptr = address;
    jp(state, address, cycles)
}

} // verus!
