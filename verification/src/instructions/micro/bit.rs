//! Bit operations

use crate::instructions::ExecResult;
use crate::state::{lemma_flag_bits, parity_bits, value_bits, Flags, Register, State, StateView};
use vstd::prelude::*;

verus! {

/// A byte rotated left by one bit.
pub open spec fn rol8(v: u8) -> u8 {
    ((v << 1u8) | (v >> 7u8)) as u8
}

/// A byte rotated right by one bit.
pub open spec fn ror8(v: u8) -> u8 {
    ((v >> 1u8) | (v << 7u8)) as u8
}

/// The carry bit of a flags byte as a number.
pub open spec fn carry_bit(flags: u8) -> u8 {
    (flags & 0x01) as u8
}

/// Flags of the accumulator rotations: S, Z and P/V are kept, C is given.
pub open spec fn rotate_a_flags(flags: u8, value: u8, carry: bool) -> u8 {
    (((flags & 0xc4) | (value & 0x28)) | (if carry {
        0x01u8
    } else {
        0u8
    })) as u8
}

/// Effect of an accumulator rotation that leaves `value` in `A` and `carry` in the carry flag.
pub open spec fn rotate_a_state(s: StateView, value: u8, carry: bool) -> StateView {
    s.set8(Register::A, value).set_flags(rotate_a_flags(s.flags(), value, carry))
}

/// Effect of `rlca`: the accumulator rotates left, its bit 7 goes to the carry flag.
pub open spec fn rlca_state(s: StateView) -> StateView {
    let a = s.r8(Register::A);
    rotate_a_state(s, rol8(a), a & 0x80 != 0)
}

/// Effect of `rrca`: the accumulator rotates right, its bit 0 goes to the carry flag.
pub open spec fn rrca_state(s: StateView) -> StateView {
    let a = s.r8(Register::A);
    rotate_a_state(s, ror8(a), a & 0x01 != 0)
}

/// Effect of `rla`: the accumulator and the carry flag rotate left as nine bits.
pub open spec fn rla_state(s: StateView) -> StateView {
    let a = s.r8(Register::A);
    rotate_a_state(s, ((a << 1u8) | carry_bit(s.flags())) as u8, a & 0x80 != 0)
}

/// Effect of `rra`: the accumulator and the carry flag rotate right as nine bits.
pub open spec fn rra_state(s: StateView) -> StateView {
    let a = s.r8(Register::A);
    rotate_a_state(s, ((a >> 1u8) | (carry_bit(s.flags()) << 7u8)) as u8, a & 0x01 != 0)
}

/// Rotate the accumulator left and copy the original most significant bit to the carry flag
pub fn rlca(state: &mut State, cycles: u32) -> (result: ExecResult)
    ensures
        final(state)@ == rlca_state(old(state)@),
        result == ExecResult::Done(cycles),
{
    let a = state.a();
    let rotated = (a << 1u8) | (a >> 7u8);
    // Flags S, Z and V are unchanged
    let mut flags = state.get_flags().select(Flags::from_raw(0xc4));
    flags = flags | Flags::xy(rotated);
    // Flag C is the bit 7 (now moved to bit 0) of the accumulator
    assert((((a << 1u8) | (a >> 7u8)) as u8) & 1 != 0 <==> a & 0x80 != 0) by (bit_vector);
    if rotated & 1 != 0 {
        flags = flags | Flags::C();
    } else {
        flags = flags | Flags::new();
    }
    *state.a_mut() = rotated;
    state.update_flags(flags);
    ExecResult::Done(cycles)
}

/// Rotate the accumulator right and copy the original least significant bit to the carry flag
pub fn rrca(state: &mut State, cycles: u32) -> (result: ExecResult)
    ensures
        final(state)@ == rrca_state(old(state)@),
        result == ExecResult::Done(cycles),
{
    let a = state.a();
    let rotated = (a >> 1u8) | (a << 7u8);
    // Flags S, Z and V are unchanged
    let mut flags = state.get_flags().select(Flags::from_raw(0xc4));
    flags = flags | Flags::xy(rotated);
    // Flag C is the bit 0 (now moved to bit 7) of the accumulator
    assert((((a >> 1u8) | (a << 7u8)) as u8) & 0x80 != 0 <==> a & 1 != 0) by (bit_vector);
    if rotated & 0x80 != 0 {
        flags = flags | Flags::C();
    } else {
        flags = flags | Flags::new();
    }
    *state.a_mut() = rotated;
    state.update_flags(flags);
    ExecResult::Done(cycles)
}

/// Rotate the 9-bit value composed by the C flag and the accumulator to the left
pub fn rla(state: &mut State, cycles: u32) -> (result: ExecResult)
    ensures
        final(state)@ == rla_state(old(state)@),
        result == ExecResult::Done(cycles),
{
    let acc = state.a();
    // The MSB of the accumulator will move to the C flag
    let new_c_flag = Flags::C().set_if(acc & 0b10000000 != 0);
    // Rotate
    let old_carry: u8 = if state.get_flags().is_set(Flags::C()) {
        1
    } else {
        0
    };
    let a = (acc << 1u8) | old_carry;
    let f = state.get_flags();
    proof {
        let fv: u8 = f@;
        lemma_flag_bits(fv);
    }
    // Flags S, Z and V are unchanged
    let flags = f.select(Flags::from_raw(0xc4)) | Flags::xy(a) | new_c_flag;
    *state.a_mut() = a;
    state.update_flags(flags);
    ExecResult::Done(cycles)
}

/// Rotate the 9-bit value composed by the C flag and the accumulator to the right
pub fn rra(state: &mut State, cycles: u32) -> (result: ExecResult)
    ensures
        final(state)@ == rra_state(old(state)@),
        result == ExecResult::Done(cycles),
{
    let acc = state.a();
    // The LSB of the accumulator will move to the C flag
    let new_c_flag = Flags::C().set_if(acc & 1 != 0);
    // Rotate
    let old_carry: u8 = if state.get_flags().is_set(Flags::C()) {
        1
    } else {
        0
    };
    let a = (acc >> 1u8) | (old_carry << 7u8);
    let f = state.get_flags();
    proof {
        let fv: u8 = f@;
        lemma_flag_bits(fv);
    }
    // Flags S, Z and V are unchanged
    let flags = f.select(Flags::from_raw(0xc4)) | Flags::xy(a) | new_c_flag;
    *state.a_mut() = a;
    state.update_flags(flags);
    ExecResult::Done(cycles)
}

/// Flags of the rotations and shifts of the `CB` table: S, Z, X, Y and parity of the result,
/// and the carry.
pub open spec fn shift_flags(value: u8, carry: bool) -> u8 {
    ((value_bits(value) | parity_bits(value)) | (if carry {
        0x01u8
    } else {
        0u8
    })) as u8
}

/// Effect of a rotation or shift that leaves `value` in `reg` and `carry` in the carry flag.
pub open spec fn shift_state(s: StateView, reg: Register, value: u8, carry: bool) -> StateView {
    s.set8(reg, value).set_flags(shift_flags(value, carry))
}

/// Rotate the register left and copy the original most significant bit to the carry flag, updating
/// the flags.
pub fn rlc_r(state: &mut State, reg: Register, cycles: u32) -> (result: ExecResult)
    ensures
        final(state)@ == shift_state(
            old(state)@,
            reg,
            rol8(old(state)@.r8(reg)),
            old(state)@.r8(reg) & 0x80 != 0,
        ),
        result == ExecResult::Done(cycles),
{
    let v = state.get_register_8(reg);
    let value = (v << 1u8) | (v >> 7u8);
    assert((((v << 1u8) | (v >> 7u8)) as u8) & 1 != 0 <==> v & 0x80 != 0) by (bit_vector);
    state.set_register_8(reg, value);
    state.update_flags(
        Flags::from_value(value) | Flags::parity(value) | Flags::C().set_if(value & 0x1 != 0),
    );
    ExecResult::Done(cycles)
}

/// Rotate the register right and copy the original most significant bit to the carry flag,
/// updating the flags.
pub fn rrc_r(state: &mut State, reg: Register, cycles: u32) -> (result: ExecResult)
    ensures
        final(state)@ == shift_state(
            old(state)@,
            reg,
            ror8(old(state)@.r8(reg)),
            old(state)@.r8(reg) & 0x80 != 0,
        ),
        result == ExecResult::Done(cycles),
{
    let v = state.get_register_8(reg);
    let value = (v >> 1u8) | (v << 7u8);
    state.set_register_8(reg, value);
    state.update_flags(
        Flags::from_value(value) | Flags::parity(value) | Flags::C().set_if(v & 0b10000000 != 0),
    );
    ExecResult::Done(cycles)
}

/// Rotate left the 9-bit virtual register composed by the carry flag and the specified register.
pub fn rl_r(state: &mut State, reg: Register, cycles: u32) -> (result: ExecResult)
    ensures
        final(state)@ == shift_state(
            old(state)@,
            reg,
            ((old(state)@.r8(reg) << 1u8) | carry_bit(old(state)@.flags())) as u8,
            old(state)@.r8(reg) & 0x80 != 0,
        ),
        result == ExecResult::Done(cycles),
{
    let value = state.get_register_8(reg);
    let carry = Flags::C().set_if(value & 0b10000000 != 0);
    let f = state.get_flags();
    proof {
        let fv: u8 = f@;
        lemma_flag_bits(fv);
    }
    let old_carry: u8 = if f.is_set(Flags::C()) {
        1
    } else {
        0
    };
    let value = (value << 1u8) | old_carry;
    state.set_register_8(reg, value);
    state.update_flags(Flags::from_value(value) | Flags::parity(value) | carry);
    ExecResult::Done(cycles)
}

/// Rotate right the 9-bit virtual register composed by the specified register and the carry flag.
pub fn rr_r(state: &mut State, reg: Register, cycles: u32) -> (result: ExecResult)
    ensures
        final(state)@ == shift_state(
            old(state)@,
            reg,
            ((old(state)@.r8(reg) >> 1u8) | (carry_bit(old(state)@.flags()) << 7u8)) as u8,
            old(state)@.r8(reg) & 0x01 != 0,
        ),
        result == ExecResult::Done(cycles),
{
    let value = state.get_register_8(reg);
    let carry = Flags::C().set_if(value & 0x1 != 0);
    let f = state.get_flags();
    proof {
        let fv: u8 = f@;
        lemma_flag_bits(fv);
    }
    let old_carry: u8 = if f.is_set(Flags::C()) {
        1
    } else {
        0
    };
    let value = (value >> 1u8) | (old_carry << 7u8);
    state.set_register_8(reg, value);
    state.update_flags(Flags::from_value(value) | Flags::parity(value) | carry);
    ExecResult::Done(cycles)
}

/// The shifts of the `CB` table.
#[derive(Debug, Copy, Clone, Eq, PartialEq, Structural)]
pub enum Shift {
    /// Arithmetic left shift
    Sla,
    /// Arithmetic right shift: the sign bit is kept
    Sra,
    /// Left shift that brings a 1 into bit 0
    Sll,
    /// Logical right shift
    Srl,
}

impl Shift {
    /// The shifted value.
    pub open spec fn apply(self, v: u8) -> u8 {
        match self {
            Shift::Sla => (v << 1u8) as u8,
            Shift::Sra => ((v >> 1u8) | (v & 0x80)) as u8,
            Shift::Sll => ((v << 1u8) | 1) as u8,
            Shift::Srl => (v >> 1u8) as u8,
        }
    }

    /// The bit that falls out of the value.
    pub open spec fn lost_bit(self) -> u8 {
        match self {
            Shift::Sla | Shift::Sll => 0x80,
            Shift::Sra | Shift::Srl => 0x01,
        }
    }
}

/// Common core for shifts
///
/// `shift` selects the operation; the bit that falls out of the value goes to the carry flag.
fn shift_common(state: &mut State, reg: Register, shift: Shift, cycles: u32) -> (result: ExecResult)
    ensures
        final(state)@ == shift_state(
            old(state)@,
            reg,
            shift.apply(old(state)@.r8(reg)),
            old(state)@.r8(reg) & shift.lost_bit() != 0,
        ),
        result == ExecResult::Done(cycles),
{
    let value = state.get_register_8(reg);
    let lost_bit: u8 = match shift {
        Shift::Sla | Shift::Sll => 0x80,
        Shift::Sra | Shift::Srl => 0x01,
    };
    let carry = Flags::C().set_if(value & lost_bit != 0);
    let value = match shift {
        Shift::Sla => value << 1u8,
        Shift::Sra => (value >> 1u8) | (value & 0x80),
        Shift::Sll => (value << 1u8) | 1,
        Shift::Srl => value >> 1u8,
    };
    state.set_register_8(reg, value);
    state.update_flags(Flags::from_value(value) | Flags::parity(value) | carry);
    ExecResult::Done(cycles)
}

/// Arithmetic left shift
pub fn sla_r(state: &mut State, reg: Register, cycles: u32) -> (result: ExecResult)
    ensures
        final(state)@ == shift_state(
            old(state)@,
            reg,
            Shift::Sla.apply(old(state)@.r8(reg)),
            old(state)@.r8(reg) & 0x80 != 0,
        ),
        result == ExecResult::Done(cycles),
{
    shift_common(state, reg, Shift::Sla, cycles)
}

/// Arithmetic right shift
pub fn sra_r(state: &mut State, reg: Register, cycles: u32) -> (result: ExecResult)
    ensures
        final(state)@ == shift_state(
            old(state)@,
            reg,
            Shift::Sra.apply(old(state)@.r8(reg)),
            old(state)@.r8(reg) & 0x01 != 0,
        ),
        result == ExecResult::Done(cycles),
{
    shift_common(state, reg, Shift::Sra, cycles)
}

/// Logical left shift
///
/// This is an undocumented instruction
pub fn sll_r(state: &mut State, reg: Register, cycles: u32) -> (result: ExecResult)
    ensures
        final(state)@ == shift_state(
            old(state)@,
            reg,
            Shift::Sll.apply(old(state)@.r8(reg)),
            old(state)@.r8(reg) & 0x80 != 0,
        ),
        result == ExecResult::Done(cycles),
{
    shift_common(state, reg, Shift::Sll, cycles)
}

/// Logical right shift
pub fn srl_r(state: &mut State, reg: Register, cycles: u32) -> (result: ExecResult)
    ensures
        final(state)@ == shift_state(
            old(state)@,
            reg,
            Shift::Srl.apply(old(state)@.r8(reg)),
            old(state)@.r8(reg) & 0x01 != 0,
        ),
        result == ExecResult::Done(cycles),
{
    shift_common(state, reg, Shift::Srl, cycles)
}

/// Mask of a bit of a byte.
pub open spec fn bit_mask(bit_number: u32) -> u8 {
    (1u8 << bit_number) as u8
}

/// Effect of `bit n, r`: zero and parity flags tell if the bit is reset, carry is kept.
pub open spec fn bit_state(s: StateView, reg: Register, bit_number: u32) -> StateView {
    let value = s.r8(reg);
    let bit = (value & bit_mask(bit_number)) as u8;
    s.set_flags(
        (((((s.flags() & 0x01) | value_bits(bit)) | (value & 0x28)) | parity_bits(bit))
            | 0x10u8) as u8,
    )
}

/// Check if a bit is reset
///
/// If the bit is `0`, sets the `Z` flag
pub fn bit_r(state: &mut State, reg: Register, bit_number: u32, cycles: u32) -> (result:
    ExecResult)
    requires
        bit_number < 8,
    ensures
        final(state)@ == bit_state(old(state)@, reg, bit_number),
        result == ExecResult::Done(cycles),
{
    let value = state.get_register_8(reg);
    let bit = value & (1u8 << bit_number);
    let flags = state.get_flags().select(Flags::C()) | Flags::from_value(bit) | Flags::xy(value)
        | Flags::parity(bit) | Flags::H();
    state.update_flags(flags);
    ExecResult::Done(cycles)
}

/// Reset a bit
pub fn res_r(state: &mut State, reg: Register, bit_number: u32, cycles: u32) -> (result:
    ExecResult)
    requires
        bit_number < 8,
    ensures
        final(state)@ == old(state)@.set8(reg, old(state)@.r8(reg) & !bit_mask(bit_number)),
        result == ExecResult::Done(cycles),
{
    let value = state.get_register_8(reg);
    state.set_register_8(reg, value & !(1u8 << bit_number));
    ExecResult::Done(cycles)
}

/// Set a bit
pub fn set_r(state: &mut State, reg: Register, bit_number: u32, cycles: u32) -> (result:
    ExecResult)
    requires
        bit_number < 8,
    ensures
        final(state)@ == old(state)@.set8(reg, old(state)@.r8(reg) | bit_mask(bit_number)),
        result == ExecResult::Done(cycles),
{
    let value = state.get_register_8(reg);
    state.set_register_8(reg, value | (1u8 << bit_number));
    ExecResult::Done(cycles)
}

} // verus!
