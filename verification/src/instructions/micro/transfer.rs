//! Register exchanges and block transfer instructions

use crate::instructions::ExecResult;
use crate::instructions::micro::math::{sub8, sub8_flags};
use crate::instructions::micro::math;
use crate::state::{add16, lemma_flag_bits, Flags, Register, Register16, State, StateView};
use vstd::prelude::*;

verus! {

/// A 16-bit address moved by a signed offset, wrapping around.
fn step_address(address: u16, offset: i16) -> (moved: u16)
    ensures
        moved == add16(address, offset as int),
{
    address.wrapping_add_signed(offset)
}

/// Effect of `ex af, af'`.
pub open spec fn ex_af_state(s: StateView) -> StateView {
    let alt = s.bytes(Register16::AfAlt);
    s.set_pair(Register16::AF, alt[0], alt[1]).set16(Register16::AfAlt, s.r16(Register16::AF))
}

/// Switch the data of AF and AF'
pub fn ex_af_af(state: &mut State, cycles: u32) -> (result: ExecResult)
    ensures
        final(state)@ == ex_af_state(old(state)@),
        result == ExecResult::Done(cycles),
{
    let af = state.af();
    let alt = state.get_register_16_bytes(Register16::AfAlt);
    state.set_register_16_bytes(Register16::AF, alt);
    state.set_register_16(Register16::AfAlt, af);
    ExecResult::Done(cycles)
}

/// Effect of `exx`: `BC`, `DE` and `HL` trade places with `BC'`, `DE'` and `HL'`.
pub open spec fn exx_state(s: StateView) -> StateView {
    StateView {
        regs: Seq::new(
            28,
            |i: int|
                if 2 <= i < 8 {
                    s.regs[i + 20]
                } else if 22 <= i < 28 {
                    s.regs[i - 20]
                } else {
                    s.regs[i]
                },
        ),
        ..s
    }
}

/// Switch between register sets
pub fn exx(state: &mut State, cycles: u32) -> (result: ExecResult)
    ensures
        final(state)@ == exx_state(old(state)@),
        result == ExecResult::Done(cycles),
{
    let offset = Register16::HlAlt.index() - Register16::HL.index();
    let mut register = Register16::BC.index();
    while register <= Register16::HL.index()
        invariant
            1 <= register <= 4,
            offset == 10,
            forall|k: int|
                0 <= k < 14 ==> #[trigger] state.registers[k] == if 1 <= k < register {
                    old(state).registers[k + 10]
                } else if 11 <= k < register + 10 {
                    old(state).registers[k - 10]
                } else {
                    old(state).registers[k]
                },
            state@.iff1 == old(state)@.iff1,
            state@.iff2 == old(state)@.iff2,
            state@.mpc == old(state)@.mpc,
            state@.interrupt_mode == old(state)@.interrupt_mode,
            state@.memptr == old(state)@.memptr,
        decreases 4 - register,
    {
        let value = state.registers[register];
        state.registers[register] = state.registers[register + offset];
        state.registers[register + offset] = value;
        register += 1;
    }
    assert(state@.regs =~= exx_state(old(state)@).regs);
    ExecResult::Done(cycles)
}

/// Flags after a block transfer: H, N, P/V, X and Y are replaced.
///
/// X and Y come from bits 3 and 1 of `A` plus the transferred byte.
pub open spec fn ldx_flags(flags: u8, a: u8, byte: u8, bc: u16) -> u8 {
    let za = ((byte + a) % 256) as u8;
    (((flags & 0xc1) | (if bc != 0 {
        0x04u8
    } else {
        0u8
    })) | ((if za & 0x08 != 0 {
        0x08u8
    } else {
        0u8
    }) | (if za & 0x02 != 0 {
        0x20u8
    } else {
        0u8
    }))) as u8
}

/// Clearing H, N, V, X and Y through the complement of their mask.
proof fn lemma_clear_block_flags(f: u8)
    ensures
        f & !0x3eu8 == f & 0xc1,
{
    lemma_flag_bits(f);
}

/// Effect of the register updates of `ldi` (offset 1) or `ldd` (offset -1).
pub open spec fn ldx_state(s: StateView, offset: int) -> StateView {
    let bc = add16(s.r16(Register16::BC), -1);
    let s1 = s.set16(Register16::DE, add16(s.r16(Register16::DE), offset)).set16(
        Register16::HL,
        add16(s.r16(Register16::HL), offset),
    ).set16(Register16::BC, bc);
    s1.set_flags(ldx_flags(s1.flags(), s1.r8(Register::A), s1.r8(Register::Z), bc))
}

/// Update the registers for a `LDI` or `LDD` instruction.
///
/// The offset is applied to DE and HL.
///
/// This should be called after the memory transfer is done
#[verifier::spinoff_prover]
#[verifier::rlimit(40)]
fn ldx_registers(state: &mut State, offset: i16)
    ensures
        final(state)@ == ldx_state(old(state)@, offset as int),
{
    let de = step_address(state.de(), offset);
    state.set_register_16(Register16::DE, de);
    let hl = step_address(state.hl(), offset);
    state.set_register_16(Register16::HL, hl);
    let bc = state.bc().wrapping_sub(1);
    state.set_register_16(Register16::BC, bc);
    // Clear H, N, V, X and Y
    let flags = state.get_flags() - Flags::from_raw(0x3e);
    // The XY flags on ldi and friends are weird
    let za = state.z().wrapping_add(state.a());
    let xy = Flags::X().set_if(za & 0x08 != 0) | Flags::Y().set_if(za & 0x02 != 0);
    proof {
        lemma_clear_block_flags(state@.flags());
    }
    state.update_flags(flags | Flags::P().set_if(bc != 0) | xy);
}

/// Updates the registers for a `LDI` instruction
///
/// This should be called after the memory transfer is done
pub fn ldi_registers(state: &mut State, cycles: u32) -> (result: ExecResult)
    ensures
        final(state)@ == ldx_state(old(state)@, 1),
        result == ExecResult::Done(cycles),
{
    ldx_registers(state, 1);
    ExecResult::Done(cycles)
}

/// Effect of repeating a block instruction of `length` bytes: `PC` goes back to it.
pub open spec fn loop_state(s: StateView, condition: bool, length: u16, memptr: u16) -> StateView {
    if condition {
        s.set_memptr(memptr).set16(Register16::PC, add16(s.pc(), -length))
    } else {
        s
    }
}

/// Loop an instruction if the condition is true
///
/// Perform a loop for an instruction of length `length`, returning an [`ExecResult::Done`] with
/// the right value if a loop was performed or not.
///
/// If the loop is performed, `state.memptr` is set to `memptr`.
fn loop_if(
    state: &mut State,
    condition: bool,
    length: u16,
    memptr: u16,
    cycles_loop: u32,
    cycles_no_loop: u32,
) -> (result: ExecResult)
    ensures
        final(state)@ == loop_state(old(state)@, condition, length, memptr),
        result == ExecResult::Done(if condition { cycles_loop } else { cycles_no_loop }),
{
    if condition {
        state.memptr = memptr;
        state.set_register_16(Register16::PC, state.pc().wrapping_sub(length));
        ExecResult::Done(cycles_loop)
    } else {
        // End of loop
        ExecResult::Done(cycles_no_loop)
    }
}

/// Effect of the register updates of `ldir` or `lddr`: repeat while `BC` isn't zero.
pub open spec fn ldxr_state(s: StateView, offset: int) -> StateView {
    let s1 = ldx_state(s, offset);
    loop_state(s1, s1.r16(Register16::BC) != 0, 2, add16(s1.pc(), -1))
}

/// Result of the register updates of `ldir` or `lddr`.
pub open spec fn ldxr_result(s: StateView, cycles_loop: u32, cycles_no_loop: u32) -> ExecResult {
    ExecResult::Done(
        if s.r16(Register16::BC) != 1 {
            cycles_loop
        } else {
            cycles_no_loop
        },
    )
}

/// Updates the registers for a `LDIR` or `LDDR` instruction
///
/// This should be called after the memory transfer is done
fn ldxr_registers(state: &mut State, offset: i16, cycles_loop: u32, cycles_no_loop: u32) -> (result:
    ExecResult)
    ensures
        final(state)@ == ldxr_state(old(state)@, offset as int),
        result == ldxr_result(old(state)@, cycles_loop, cycles_no_loop),
{
    ldx_registers(state, offset);
    let bc = state.bc();
    let memptr = state.pc().wrapping_sub(1);
    loop_if(state, bc != 0, 2, memptr, cycles_loop, cycles_no_loop)
}

/// Updates the registers for a `LDIR` instruction
///
/// This should be called after the memory transfer is done
pub fn ldir_registers(state: &mut State, cycles_loop: u32, cycles_no_loop: u32) -> (result:
    ExecResult)
    ensures
        final(state)@ == ldxr_state(old(state)@, 1),
        result == ldxr_result(old(state)@, cycles_loop, cycles_no_loop),
{
    ldxr_registers(state, 1, cycles_loop, cycles_no_loop)
}

/// Updates the registers for a `LDD` instruction
///
/// This should be called after the memory transfer is done
pub fn ldd_registers(state: &mut State, cycles: u32) -> (result: ExecResult)
    ensures
        final(state)@ == ldx_state(old(state)@, -1),
        result == ExecResult::Done(cycles),
{
    ldx_registers(state, -1);
    ExecResult::Done(cycles)
}

/// Updates the registers for a `LDDR` instruction
///
/// This should be called after the memory transfer is done
pub fn lddr_registers(state: &mut State, cycles_loop: u32, cycles_no_loop: u32) -> (result:
    ExecResult)
    ensures
        final(state)@ == ldxr_state(old(state)@, -1),
        result == ldxr_result(old(state)@, cycles_loop, cycles_no_loop),
{
    ldxr_registers(state, -1, cycles_loop, cycles_no_loop)
}

/// Flags of `cpi` and friends: the comparison `A - Z`, with the carry kept, P/V telling if `BC`
/// isn't zero and X and Y taken from the difference minus the half carry.
pub open spec fn cpx_flags(flags: u8, a: u8, byte: u8, bc: u16) -> u8 {
    let f = sub8_flags(a, byte, false);
    let diff = sub8(a, byte, false);
    let xy_diff = ((diff - (if f & 0x10 != 0 {
        1int
    } else {
        0int
    })) % 256) as u8;
    (((((f & 0xd2) | (flags & 0x01)) | (if bc != 0 {
        0x04u8
    } else {
        0u8
    })) | (if xy_diff & 0x08 != 0 {
        0x08u8
    } else {
        0u8
    })) | (if xy_diff & 0x02 != 0 {
        0x20u8
    } else {
        0u8
    })) as u8
}

/// Effect of the register updates of `cpi` (offset 1) or `cpd` (offset -1).
pub open spec fn cpx_state(s: StateView, offset: int) -> StateView {
    let bc = add16(s.r16(Register16::BC), -1);
    let s1 = s.set_memptr(add16(s.memptr, offset)).set16(Register16::BC, bc).set16(
        Register16::HL,
        add16(s.r16(Register16::HL), offset),
    );
    s1.set_flags(cpx_flags(s1.flags(), s1.r8(Register::A), s1.r8(Register::Z), bc))
}

/// Updates the registers for a `CPX(L)` instruction after HL was already loaded.
fn cpx_registers(state: &mut State, offset: i16)
    ensures
        final(state)@ == cpx_state(old(state)@, offset as int),
{
    state.memptr = step_address(state.memptr, offset);
    let bc = state.bc().wrapping_sub(1);
    state.set_register_16(Register16::BC, bc);
    let hl = step_address(state.hl(), offset);
    state.set_register_16(Register16::HL, hl);

    let (diff, flags) = math::sub_flags(state.a(), state.z(), false);
    // The strange source of X and Y
    let half: u8 = if flags.is_set(Flags::H()) {
        1
    } else {
        0
    };
    let xy_diff = diff.wrapping_sub(half);
    // Keep S, Z, H and N from the comparison
    let flags = flags.select(Flags::from_raw(0xd2)) | state.get_flags().select(Flags::C())
        | Flags::P().set_if(bc != 0) | Flags::X().set_if(xy_diff & 0x08 != 0) | Flags::Y().set_if(
        xy_diff & 0x02 != 0,
    );

    state.update_flags(flags);
}

/// Updates the registers for a `CPI` instruction
///
/// This should be called after `(HL)` was already loaded
pub fn cpi_registers(state: &mut State, cycles: u32) -> (result: ExecResult)
    ensures
        final(state)@ == cpx_state(old(state)@, 1),
        result == ExecResult::Done(cycles),
{
    cpx_registers(state, 1);
    ExecResult::Done(cycles)
}

/// Updates the registers for a `CPD` instruction
///
/// This should be called after `(HL)` was already loaded
pub fn cpd_registers(state: &mut State, cycles: u32) -> (result: ExecResult)
    ensures
        final(state)@ == cpx_state(old(state)@, -1),
        result == ExecResult::Done(cycles),
{
    cpx_registers(state, -1);
    ExecResult::Done(cycles)
}

/// Does a `cpir` or `cpdr` go on after this step?
pub open spec fn cpxr_repeats(s: StateView) -> bool {
    s.r16(Register16::BC) != 0 && s.flags() & 0x40 == 0
}

/// Effect of the register updates of `cpir` or `cpdr`: repeat while `BC` isn't zero and no
/// match was found.
pub open spec fn cpxr_state(s: StateView, offset: int) -> StateView {
    let s1 = cpx_state(s, offset);
    loop_state(s1, cpxr_repeats(s1), 2, s1.pc())
}

/// Updates the registers for a `CPIR` or `CPDR` instruction
///
/// This should be called after `(HL)` was already loaded
pub fn cpxr_registers(state: &mut State, offset: i16, cycles_loop: u32, cycles_no_loop: u32) -> (result:
    ExecResult)
    ensures
        final(state)@ == cpxr_state(old(state)@, offset as int),
        result == ExecResult::Done(
            if cpxr_repeats(cpx_state(old(state)@, offset as int)) {
                cycles_loop
            } else {
                cycles_no_loop
            },
        ),
{
    cpx_registers(state, offset);
    let repeat = state.bc() != 0 && !state.get_flags().is_set(Flags::Z());
    let memptr = state.pc();
    loop_if(state, repeat, 2, memptr, cycles_loop, cycles_no_loop)
}

/// Updates the registers for a `CPIR` instruction
///
/// This should be called after `(HL)` was already loaded
pub fn cpir_registers(state: &mut State, cycles_loop: u32, cycles_no_loop: u32) -> (result:
    ExecResult)
    ensures
        final(state)@ == cpxr_state(old(state)@, 1),
        result == ExecResult::Done(
            if cpxr_repeats(cpx_state(old(state)@, 1)) {
                cycles_loop
            } else {
                cycles_no_loop
            },
        ),
{
    cpxr_registers(state, 1, cycles_loop, cycles_no_loop)
}

/// Updates the registers for a `CPDR` instruction
///
/// This should be called after `(HL)` was already loaded
pub fn cpdr_registers(state: &mut State, cycles_loop: u32, cycles_no_loop: u32) -> (result:
    ExecResult)
    ensures
        final(state)@ == cpxr_state(old(state)@, -1),
        result == ExecResult::Done(
            if cpxr_repeats(cpx_state(old(state)@, -1)) {
                cycles_loop
            } else {
                cycles_no_loop
            },
        ),
{
    cpxr_registers(state, -1, cycles_loop, cycles_no_loop)
}

/// Flags of the block I/O instructions: Z tells if `B` reached zero, N is set.
pub open spec fn io_block_flags(flags: u8, b: u8) -> u8 {
    (((flags & 0xbf) | 0x02u8) | (if b == 0 {
        0x40u8
    } else {
        0u8
    })) as u8
}

/// Effect of the register updates of `ini` (offset 1) or `ind` (offset -1).
pub open spec fn inx_state(s: StateView, offset: int) -> StateView {
    let b = ((s.r8(Register::B) + 255) % 256) as u8;
    let s1 = s.set_memptr(add16(s.r16(Register16::BC), offset)).set8(Register::B, b).set16(
        Register16::HL,
        add16(s.r16(Register16::HL), offset),
    );
    s1.set_flags(io_block_flags(s1.flags(), b))
}

/// Updates the registers for a `INX(R)` instruction after input and storage were already done.
fn inx_registers(state: &mut State, offset: i16)
    ensures
        final(state)@ == inx_state(old(state)@, offset as int),
{
    state.memptr = step_address(state.bc(), offset);
    let b = state.b().wrapping_sub(1);
    *state.b_mut() = b;
    let hl = step_address(state.hl(), offset);
    state.set_register_16(Register16::HL, hl);
    proof {
        let f = state@.flags();
        lemma_flag_bits(f);
    }
    state.update_flags((state.get_flags() - Flags::Z()) | Flags::N() | Flags::Z().set_if(b == 0));
}

/// Updates the registers for an `INI` instruction
///
/// This should be called after `(HL)` was already loaded
pub fn ini_registers(state: &mut State, cycles: u32) -> (result: ExecResult)
    ensures
        final(state)@ == inx_state(old(state)@, 1),
        result == ExecResult::Done(cycles),
{
    inx_registers(state, 1);
    ExecResult::Done(cycles)
}

/// Updates the registers for an `IND` instruction
///
/// This should be called after `(HL)` was already loaded
pub fn ind_registers(state: &mut State, cycles: u32) -> (result: ExecResult)
    ensures
        final(state)@ == inx_state(old(state)@, -1),
        result == ExecResult::Done(cycles),
{
    inx_registers(state, -1);
    ExecResult::Done(cycles)
}

/// Effect of the register updates of `inir` or `indr`: repeat while `B` isn't zero.
pub open spec fn inxr_state(s: StateView, offset: int) -> StateView {
    let s1 = inx_state(s, offset);
    loop_state(s1, s1.r8(Register::B) != 0, 2, s1.memptr)
}

/// Result of a block I/O step: which cycle count depends on `B` reaching zero.
pub open spec fn io_block_result(s: StateView, cycles_loop: u32, cycles_no_loop: u32) -> ExecResult {
    ExecResult::Done(
        if s.r8(Register::B) != 1 {
            cycles_loop
        } else {
            cycles_no_loop
        },
    )
}

/// Updates the registers for an `INIR` or `INDR` instruction
///
/// This should be called after `(HL)` was already loaded
pub fn inxr_registers(state: &mut State, offset: i16, cycles_loop: u32, cycles_no_loop: u32) -> (result:
    ExecResult)
    ensures
        final(state)@ == inxr_state(old(state)@, offset as int),
        result == io_block_result(old(state)@, cycles_loop, cycles_no_loop),
{
    inx_registers(state, offset);
    let repeat = state.b() != 0;
    let memptr = state.memptr;
    loop_if(state, repeat, 2, memptr, cycles_loop, cycles_no_loop)
}

/// Updates the registers for an `INIR` instruction
///
/// This should be called after `(HL)` was already loaded
pub fn inir_registers(state: &mut State, cycles_loop: u32, cycles_no_loop: u32) -> (result:
    ExecResult)
    ensures
        final(state)@ == inxr_state(old(state)@, 1),
        result == io_block_result(old(state)@, cycles_loop, cycles_no_loop),
{
    inxr_registers(state, 1, cycles_loop, cycles_no_loop)
}

/// Updates the registers for an `INDR` instruction
///
/// This should be called after `(HL)` was already loaded
pub fn indr_registers(state: &mut State, cycles_loop: u32, cycles_no_loop: u32) -> (result:
    ExecResult)
    ensures
        final(state)@ == inxr_state(old(state)@, -1),
        result == io_block_result(old(state)@, cycles_loop, cycles_no_loop),
{
    inxr_registers(state, -1, cycles_loop, cycles_no_loop)
}

/// Effect of the register updates of `outi` (offset 1) or `outd` (offset -1).
pub open spec fn outx_state(s: StateView, offset: int) -> StateView {
    let b = ((s.r8(Register::B) + 255) % 256) as u8;
    let s1 = s.set8(Register::B, b);
    let s2 = s1.set_memptr(add16(s1.r16(Register16::BC), offset)).set16(
        Register16::HL,
        add16(s.r16(Register16::HL), offset),
    );
    s2.set_flags(io_block_flags(s2.flags(), b))
}

/// Updates the registers for an `OUTX(R)` instruction
fn outx_registers(state: &mut State, offset: i16)
    ensures
        final(state)@ == outx_state(old(state)@, offset as int),
{
    let b = state.b().wrapping_sub(1);
    *state.b_mut() = b;
    state.memptr = step_address(state.bc(), offset);
    let hl = step_address(state.hl(), offset);
    state.set_register_16(Register16::HL, hl);
    proof {
        let f = state@.flags();
        lemma_flag_bits(f);
    }
    state.update_flags((state.get_flags() - Flags::Z()) | Flags::N() | Flags::Z().set_if(b == 0));
}

/// Updates the registers for an `OUTI` instruction
pub fn outi_registers(state: &mut State, cycles: u32) -> (result: ExecResult)
    ensures
        final(state)@ == outx_state(old(state)@, 1),
        result == ExecResult::Done(cycles),
{
    outx_registers(state, 1);
    ExecResult::Done(cycles)
}

/// Updates the registers for an `OUTD` instruction
pub fn outd_registers(state: &mut State, cycles: u32) -> (result: ExecResult)
    ensures
        final(state)@ == outx_state(old(state)@, -1),
        result == ExecResult::Done(cycles),
{
    outx_registers(state, -1);
    ExecResult::Done(cycles)
}

/// Effect of the register updates of `otir` or `otdr`: repeat while `B` isn't zero.
pub open spec fn otxr_state(s: StateView, offset: int) -> StateView {
    let s1 = outx_state(s, offset);
    loop_state(s1, s1.r8(Register::B) != 0, 2, s1.memptr)
}

/// Updates the registers for an `OTIR` or `OTDR` instruction
pub fn otxr_registers(state: &mut State, offset: i16, cycles_loop: u32, cycles_no_loop: u32) -> (result:
    ExecResult)
    ensures
        final(state)@ == otxr_state(old(state)@, offset as int),
        result == io_block_result(old(state)@, cycles_loop, cycles_no_loop),
{
    outx_registers(state, offset);
    let repeat = state.b() != 0;
    let memptr = state.memptr;
    loop_if(state, repeat, 2, memptr, cycles_loop, cycles_no_loop)
}

/// Updates the registers for an `OTIR` instruction
pub fn otir_registers(state: &mut State, cycles_loop: u32, cycles_no_loop: u32) -> (result:
    ExecResult)
    ensures
        final(state)@ == otxr_state(old(state)@, 1),
        result == io_block_result(old(state)@, cycles_loop, cycles_no_loop),
{
    otxr_registers(state, 1, cycles_loop, cycles_no_loop)
}

/// Updates the registers for an `OTDR` instruction
pub fn otdr_registers(state: &mut State, cycles_loop: u32, cycles_no_loop: u32) -> (result:
    ExecResult)
    ensures
        final(state)@ == otxr_state(old(state)@, -1),
        result == io_block_result(old(state)@, cycles_loop, cycles_no_loop),
{
    otxr_registers(state, -1, cycles_loop, cycles_no_loop)
}

} // verus!
