//! Math instructions

use crate::instructions::ExecResult;
use crate::state::{
    add16, high_byte, lemma_flag_bits, parity_bits, sz_bits, value_bits, Flags, Register, Register16,
    State, StateView,
};
use vstd::prelude::*;

verus! {



/// Numeric value of a carry.
pub open spec fn carry_value(carry: bool) -> int {
    if carry {
        1
    } else {
        0
    }
}

/// A byte read as a two's complement signed number.
pub open spec fn signed(v: u8) -> int {
    if v < 128 {
        v as int
    } else {
        v - 256
    }
}

/// Flags byte with the half carry, parity/overflow and carry bits given by booleans.
pub open spec fn hvc_bits(h: bool, v: bool, c: bool) -> u8 {
    ((if h {
        0x10u8
    } else {
        0u8
    }) | (if v {
        0x04u8
    } else {
        0u8
    }) | (if c {
        0x01u8
    } else {
        0u8
    })) as u8
}

/// Low byte of `a + b + carry`.
pub open spec fn add8(a: u8, b: u8, carry: bool) -> u8 {
    ((a + b + carry_value(carry)) % 256) as u8
}

/// Flags of the 8-bit addition `a + b + carry`.
///
/// Half carry is the carry out of bit 3, overflow is a signed result out of the byte's range.
pub open spec fn add8_flags(a: u8, b: u8, carry: bool) -> u8 {
    let signed_sum = signed(a) + signed(b) + carry_value(carry);
    (value_bits(add8(a, b, carry)) | hvc_bits(
        a % 16 + b % 16 + carry_value(carry) >= 16,
        signed_sum < -128 || signed_sum > 127,
        a + b + carry_value(carry) > 255,
    )) as u8
}

/// Low byte of `a - b - borrow`.
pub open spec fn sub8(a: u8, b: u8, borrow: bool) -> u8 {
    ((a - b - carry_value(borrow)) % 256) as u8
}

/// Flags of the 8-bit subtraction `a - b - borrow`.
///
/// Half carry is the borrow into bit 4, overflow is a signed result out of the byte's range.
pub open spec fn sub8_flags(a: u8, b: u8, borrow: bool) -> u8 {
    let signed_diff = signed(a) - signed(b) - carry_value(borrow);
    ((value_bits(sub8(a, b, borrow)) | 0x02u8) | hvc_bits(
        a % 16 < b % 16 + carry_value(borrow),
        signed_diff < -128 || signed_diff > 127,
        a < b + carry_value(borrow),
    )) as u8
}

/// Check if the operation `a + b = sum` had a carry into the specified bit.
fn check_carry(bit: u32, a: u16, b: u16, sum: u16) -> (carry: bool)
    requires
        bit < 16,
    ensures
        carry == ((sum ^ a ^ b) & (1u16 << bit) != 0),
{
    (sum ^ a ^ b) & (1u16 << bit) != 0
}

/// Add two values and a carry-in together, getting the sum and the flags
pub fn add_flags(a: u8, b: u8, carry_in: bool) -> (result: (u8, Flags))
    ensures
        result.0 == add8(a, b, carry_in),
        result.1@ == add8_flags(a, b, carry_in),
{
    let a16 = a as u16;
    let b16 = b as u16;
    let carry16: u16 = if carry_in {
        1
    } else {
        0
    };
    // Do the math
    let c = a16 + b16 + carry16;
    // Updates the S and Z flags
    let mut flags = Flags::from_value(c as u8);
    // Half carry
    flags = flags | Flags::H().set_if(check_carry(4, a16, b16, c));
    // Overflow == if sign bit was overwritten
    flags = flags | Flags::V().set_if(check_carry(7, a16, b16, c) != check_carry(8, a16, b16, c));
    // Carry
    flags = flags | Flags::C().set_if(c & (1u16 << 8u16) != 0);
    proof {
        let cv = carry16;
        assert(a16 < 256 && b16 < 256 && cv <= 1 && c == a16 + b16 + cv ==> (((c ^ a16 ^ b16) & (
        1u16 << 4u32) != 0) == (a16 % 16 + b16 % 16 + cv >= 16))) by (bit_vector);
        assert(a16 < 256 && b16 < 256 && cv <= 1 && c == a16 + b16 + cv ==> ((c & (1u16 << 8u16)
            != 0) == (a16 + b16 + cv > 255))) by (bit_vector);
        assert(a16 < 256 && b16 < 256 && cv <= 1 && c == a16 + b16 + cv ==> ((((c ^ a16 ^ b16) & (
        1u16 << 7u32) != 0) != ((c ^ a16 ^ b16) & (1u16 << 8u32) != 0)) == ((if a16 < 128 {
            a16 as int
        } else {
            a16 - 256
        }) + (if b16 < 128 {
            b16 as int
        } else {
            b16 - 256
        }) + cv < -128 || (if a16 < 128 {
            a16 as int
        } else {
            a16 - 256
        }) + (if b16 < 128 {
            b16 as int
        } else {
            b16 - 256
        }) + cv > 127))) by (bit_vector);
        assert(c as u8 == (c % 256) as u8) by (bit_vector);
        assert(c as u8 == add8(a, b, carry_in));
        lemma_or_flags(
            value_bits(c as u8),
            a % 16 + b % 16 + carry_value(carry_in) >= 16,
            signed(a) + signed(b) + carry_value(carry_in) < -128 || signed(a) + signed(b)
                + carry_value(carry_in) > 127,
            a + b + carry_value(carry_in) > 255,
        );
    }
    (c as u8, flags)
}

/// Turning the flags of `a + !b + !borrow` into those of `a - b - borrow`: flip C and H, set N.
proof fn lemma_flip_borrow_bits(x: u8, h: bool, v: bool, c: bool)
    requires
        x & 0x17 == 0,
    ensures
        (x | hvc_bits(h, v, c)) ^ 0x11u8 | 0x02u8 == (x | 0x02u8) | hvc_bits(!h, v, !c),
{
    assert(x & 0x17 == 0 ==> (x | hvc_bits(h, v, c)) ^ 0x11u8 | 0x02u8 == (x | 0x02u8) | hvc_bits(
        !h,
        v,
        !c,
    )) by (bit_vector);
}

/// Combining the separately computed flags of a sum.
proof fn lemma_or_flags(x: u8, h: bool, v: bool, c: bool)
    ensures
        ((x | (if h { 0x10u8 } else { 0u8 })) | (if v { 0x04u8 } else { 0u8 })) | (if c {
            0x01u8
        } else {
            0u8
        }) == x | hvc_bits(h, v, c),
{
    assert(((x | (if h { 0x10u8 } else { 0u8 })) | (if v { 0x04u8 } else { 0u8 })) | (if c {
        0x01u8
    } else {
        0u8
    }) == x | hvc_bits(h, v, c)) by (bit_vector);
}

/// The sign, zero, X and Y flags never touch the bits of C, N, P/V and H.
proof fn lemma_value_bits_free(v: u8)
    ensures
        value_bits(v) & 0x17 == 0,
{
    let s = sz_bits(v);
    assert(s == 0 || s == 0x40 || s == 0x80);
    assert((s == 0 || s == 0x40 || s == 0x80) ==> (s | (v & 0x28)) & 0x17 == 0) by (bit_vector);
}

/// Subtraction is the addition of the complement with the complemented borrow.
#[verifier::spinoff_prover]
#[verifier::rlimit(40)]
proof fn lemma_sub8_by_complement(a: u8, b: u8, borrow: bool)
    ensures
        add8(a, !b, !borrow) == sub8(a, b, borrow),
        add8_flags(a, !b, !borrow) ^ 0x11u8 | 0x02u8 == sub8_flags(a, b, borrow),
{
    let nb = !b;
    assert(nb == 255 - b) by (bit_vector)
        requires
            nb == !b,
    ;
    let cv = carry_value(borrow);
    assert(signed(nb) == -signed(b) - 1);
    let r = sub8(a, b, borrow);
    lemma_value_bits_free(r);
    lemma_flip_borrow_bits(
        value_bits(r),
        a % 16 + nb % 16 + carry_value(!borrow) >= 16,
        signed(a) + signed(nb) + carry_value(!borrow) < -128 || signed(a) + signed(nb)
            + carry_value(!borrow) > 127,
        a + nb + carry_value(!borrow) > 255,
    );
}

/// Subtract one value and the carry from another, getting the difference and the flags
pub fn sub_flags(a: u8, b: u8, borrow_in: bool) -> (result: (u8, Flags))
    ensures
        result.0 == sub8(a, b, borrow_in),
        result.1@ == sub8_flags(a, b, borrow_in),
{
    let (result, flags) = add_flags(a, !b, !borrow_in);
    proof {
        lemma_sub8_by_complement(a, b, borrow_in);
    }
    (result, flags.flip(Flags::from_raw(0x11)) | Flags::N())
}

/// Increment a 16-bit register
pub fn inc_rr(state: &mut State, register: Register16, cycles: u32) -> (result: ExecResult)
    ensures
        final(state)@ == old(state)@.set16(register, add16(old(state)@.r16(register), 1)),
        result == ExecResult::Done(cycles),
{
    state.set_register_16(register, state.get_register_16(register).wrapping_add(1));
    ExecResult::Done(cycles)
}

/// Decrement a 16-bit register
pub fn dec_rr(state: &mut State, register: Register16, cycles: u32) -> (result: ExecResult)
    ensures
        final(state)@ == old(state)@.set16(register, add16(old(state)@.r16(register), -1)),
        result == ExecResult::Done(cycles),
{
    state.set_register_16(register, state.get_register_16(register).wrapping_sub(1));
    ExecResult::Done(cycles)
}

/// Clearing the carry bit through the complement of its mask.
proof fn lemma_clear_carry(f: u8)
    ensures
        f & !0x01u8 == f & 0xfe,
{
    lemma_flag_bits(f);
}

/// Effect of `inc r`: the register is incremented, the carry flag is kept.
pub open spec fn inc_r_state(s: StateView, register: Register) -> StateView {
    let v = s.r8(register);
    let s1 = s.set8(register, add8(v, 1, false));
    s1.set_flags(((s1.flags() & 0x01) | (add8_flags(v, 1, false) & 0xfe)) as u8)
}

/// Effect of `dec r`: the register is decremented, the carry flag is kept.
pub open spec fn dec_r_state(s: StateView, register: Register) -> StateView {
    let v = s.r8(register);
    let s1 = s.set8(register, sub8(v, 1, false));
    s1.set_flags(((s1.flags() & 0x01) | (sub8_flags(v, 1, false) & 0xfe)) as u8)
}

/// Increment an 8-bit register
///
/// Return Done
pub fn inc_r(state: &mut State, register: Register, cycles: u32) -> (result: ExecResult)
    ensures
        final(state)@ == inc_r_state(old(state)@, register),
        result == ExecResult::Done(cycles),
{
    let (inc, flags) = add_flags(state.get_register_8(register), 1, false);
    state.set_register_8(register, inc);
    // Old C flag || Computed new flags
    proof {
        lemma_clear_carry(flags@);
    }
    let flags = (state.get_flags() & Flags::C()) | (flags - Flags::C());
    state.update_flags(flags);
    ExecResult::Done(cycles)
}

/// Decrement an 8-bit register
///
/// Return Done
pub fn dec_r(state: &mut State, register: Register, cycles: u32) -> (result: ExecResult)
    ensures
        final(state)@ == dec_r_state(old(state)@, register),
        result == ExecResult::Done(cycles),
{
    let (dec, flags) = sub_flags(state.get_register_8(register), 1, false);
    state.set_register_8(register, dec);
    // Old C flag || Computed new flags
    proof {
        lemma_clear_carry(flags@);
    }
    let flags = (state.get_flags() & Flags::C()) | (flags - Flags::C());
    state.update_flags(flags);
    ExecResult::Done(cycles)
}

/// A 16-bit word read as a two's complement signed number.
pub open spec fn signed16(v: u16) -> int {
    if v < 0x8000 {
        v as int
    } else {
        v - 0x10000
    }
}

/// `a + b + carry` modulo 2^16.
pub open spec fn add16c(a: u16, b: u16, carry: bool) -> u16 {
    ((a + b + carry_value(carry)) % 0x10000) as u16
}

/// Flags of the 16-bit addition `a + b + carry`.
///
/// X and Y come from the high byte of the result, half carry is the carry out of bit 11.
pub open spec fn add16_flags(a: u16, b: u16, carry: bool) -> u8 {
    let r = add16c(a, b, carry);
    let signed_sum = signed16(a) + signed16(b) + carry_value(carry);
    ((if r == 0 {
        0x40u8
    } else if r >= 0x8000 {
        0x80u8
    } else {
        0u8
    }) | (high_byte(r) & 0x28) | hvc_bits(
        a % 0x1000 + b % 0x1000 + carry_value(carry) >= 0x1000,
        signed_sum < -0x8000 || signed_sum > 0x7fff,
        a + b + carry_value(carry) > 0xffff,
    )) as u8
}

/// `a - b - borrow` modulo 2^16.
pub open spec fn sub16c(a: u16, b: u16, borrow: bool) -> u16 {
    ((a - b - carry_value(borrow)) % 0x10000) as u16
}

/// Flags of the 16-bit subtraction `a - b - borrow`.
pub open spec fn sub16_flags(a: u16, b: u16, borrow: bool) -> u8 {
    let r = sub16c(a, b, borrow);
    let signed_diff = signed16(a) - signed16(b) - carry_value(borrow);
    ((if r == 0 {
        0x40u8
    } else if r >= 0x8000 {
        0x80u8
    } else {
        0u8
    }) | (high_byte(r) & 0x28) | 0x02u8 | hvc_bits(
        a % 0x1000 < b % 0x1000 + carry_value(borrow),
        signed_diff < -0x8000 || signed_diff > 0x7fff,
        a < b + carry_value(borrow),
    )) as u8
}

/// The flags of the high byte of a 16-bit sum, with zero standing for the whole result.
proof fn lemma_word_zero_flag(hi: u8, zero: bool, h: bool, v: bool, c: bool)
    requires
        zero ==> hi == 0,
    ensures
        ((value_bits(hi) | hvc_bits(h, v, c)) & !0x40u8) | (if zero { 0x40u8 } else { 0u8 }) == ((
        if zero {
            0x40u8
        } else if hi > 0x7f {
            0x80u8
        } else {
            0u8
        }) | (hi & 0x28)) | hvc_bits(h, v, c),
{
    assert((zero ==> hi == 0) ==> ((value_bits(hi) | hvc_bits(h, v, c)) & !0x40u8) | (if zero {
        0x40u8
    } else {
        0u8
    }) == ((if zero {
        0x40u8
    } else if hi > 0x7f {
        0x80u8
    } else {
        0u8
    }) | (hi & 0x28)) | hvc_bits(h, v, c)) by (bit_vector);
}

/// A 16-bit addition computed as two 8-bit additions chained by the carry.
proof fn lemma_add16_bytes(a: u16, b: u16, cv: u16)
    requires
        cv <= 1,
    ensures
        ({
            let k: u16 = if a % 256 + b % 256 + cv > 255 {
                1
            } else {
                0
            };
            &&& ((a / 256) % 16 + (b / 256) % 16 + k >= 16) == (a % 4096 + b % 4096 + cv >= 4096)
            &&& (a / 256 + b / 256 + k > 255) == (a + b + cv > 65535)
            &&& (a + b + cv) % 65536 == (a % 256 + b % 256 + cv) % 256 + 256 * ((a / 256 + b / 256
                + k) % 256)
            &&& ((a / 256 < 128 && b / 256 < 128 && a / 256 + b / 256 + k > 127) || (a / 256 >= 128
                && b / 256 >= 128 && a / 256 + b / 256 + k < 384)) == ((a < 0x8000 && b < 0x8000 && a
                + b + cv > 0x7fff) || (a >= 0x8000 && b >= 0x8000 && a + b + cv < 0x18000))
        }),
{
    assert(cv <= 1 ==> ({
        let k: u16 = if a % 256 + b % 256 + cv > 255 {
            1
        } else {
            0
        };
        &&& ((a / 256) % 16 + (b / 256) % 16 + k >= 16) == (a % 4096 + b % 4096 + cv >= 4096)
        &&& (a / 256 + b / 256 + k > 255) == (a + b + cv > 65535)
        &&& (a + b + cv) % 65536 == (a % 256 + b % 256 + cv) % 256 + 256 * ((a / 256 + b / 256 + k)
            % 256)
        &&& ((a / 256 < 128 && b / 256 < 128 && a / 256 + b / 256 + k > 127) || (a / 256 >= 128
            && b / 256 >= 128 && a / 256 + b / 256 + k < 384)) == ((a < 0x8000 && b < 0x8000 && a + b
            + cv > 0x7fff) || (a >= 0x8000 && b >= 0x8000 && a + b + cv < 0x18000))
    })) by (bit_vector);
}

/// Adds two 16-bit numbers and the carry together, returning the sum and the flags
#[verifier::spinoff_prover]
#[verifier::rlimit(60)]
fn add_16_flags(a: u16, b: u16, carry_in: bool) -> (result: (u16, Flags))
    ensures
        result.0 == add16c(a, b, carry_in),
        result.1@ == add16_flags(a, b, carry_in),
{
    let a_low = (a % 256) as u8;
    let a_high = (a / 256) as u8;
    let b_low = (b % 256) as u8;
    let b_high = (b / 256) as u8;
    let (low, flags) = add_flags(a_low, b_low, carry_in);
    let low_carry = flags.is_set(Flags::C());
    let (high, flags) = add_flags(a_high, b_high, low_carry);
    let result = low as u16 + 256 * high as u16;
    proof {
        let cv: u16 = if carry_in {
            1
        } else {
            0
        };
        let lf = add8_flags(a_low, b_low, carry_in);
        assert(hvc_bits(a_low % 16 + b_low % 16 + carry_value(carry_in) >= 16, signed(a_low) + signed(
            b_low) + carry_value(carry_in) < -128 || signed(a_low) + signed(b_low) + carry_value(
            carry_in) > 127, a_low + b_low + carry_value(carry_in) > 255) & 1 != 0 <==> a_low + b_low
            + carry_value(carry_in) > 255) by {
            let h = a_low % 16 + b_low % 16 + carry_value(carry_in) >= 16;
            let v = signed(a_low) + signed(b_low) + carry_value(carry_in) < -128 || signed(a_low)
                + signed(b_low) + carry_value(carry_in) > 127;
            let c = a_low + b_low + carry_value(carry_in) > 255;
            assert(hvc_bits(h, v, c) & 1 != 0 <==> c) by (bit_vector);
        }
        assert(lf & 1 != 0 <==> a_low + b_low + carry_value(carry_in) > 255) by {
            let x = value_bits(add8(a_low, b_low, carry_in));
            lemma_value_bits_free(add8(a_low, b_low, carry_in));
            let y = hvc_bits(a_low % 16 + b_low % 16 + carry_value(carry_in) >= 16, signed(a_low)
                + signed(b_low) + carry_value(carry_in) < -128 || signed(a_low) + signed(b_low)
                + carry_value(carry_in) > 127, a_low + b_low + carry_value(carry_in) > 255);
            assert(x & 0x17 == 0 ==> ((x | y) & 1 != 0 <==> y & 1 != 0)) by (bit_vector);
        }
        lemma_add16_bytes(a, b, cv);
        lemma_word_zero_flag(
            high,
            result == 0,
            a_high % 16 + b_high % 16 + carry_value(low_carry) >= 16,
            signed(a_high) + signed(b_high) + carry_value(low_carry) < -128 || signed(a_high)
                + signed(b_high) + carry_value(low_carry) > 127,
            a_high + b_high + carry_value(low_carry) > 255,
        );
        lemma_clear_zero(flags@);
    }
    let flags = flags.reset(Flags::Z()) | Flags::Z().set_if(result == 0);
    (result, flags)
}

/// Clearing the zero bit through the complement of its mask.
proof fn lemma_clear_zero(f: u8)
    ensures
        f & !0x40u8 == f & 0xbf,
{
    lemma_flag_bits(f);
}

/// 16-bit subtraction is the addition of the complement with the complemented borrow.
#[verifier::spinoff_prover]
#[verifier::rlimit(40)]
proof fn lemma_sub16_by_complement(a: u16, b: u16, borrow: bool)
    ensures
        add16c(a, !b, !borrow) == sub16c(a, b, borrow),
        add16_flags(a, !b, !borrow) ^ 0x11u8 | 0x02u8 == sub16_flags(a, b, borrow),
{
    let nb = !b;
    assert(nb == 65535 - b) by (bit_vector)
        requires
            nb == !b,
    ;
    assert(nb % 0x1000 == 0xfff - b % 0x1000);
    assert(signed16(nb) == -signed16(b) - 1);
    let r = sub16c(a, b, borrow);
    let x = ((if r == 0 {
        0x40u8
    } else if r >= 0x8000 {
        0x80u8
    } else {
        0u8
    }) | (high_byte(r) & 0x28)) as u8;
    let hr = high_byte(r);
    assert(x & 0x17 == 0) by (bit_vector)
        requires
            x == ((if r == 0 {
                0x40u8
            } else if r >= 0x8000 {
                0x80u8
            } else {
                0u8
            }) | (hr & 0x28)),
    ;
    lemma_flip_borrow_bits(
        x,
        a % 0x1000 + nb % 0x1000 + carry_value(!borrow) >= 0x1000,
        signed16(a) + signed16(nb) + carry_value(!borrow) < -0x8000 || signed16(a) + signed16(nb)
            + carry_value(!borrow) > 0x7fff,
        a + nb + carry_value(!borrow) > 0xffff,
    );
}

/// Subtract one 16-bit value and the carry from another, getting the difference and the flags
fn sub_16_flags(a: u16, b: u16, carry_in: bool) -> (result: (u16, Flags))
    ensures
        result.0 == sub16c(a, b, carry_in),
        result.1@ == sub16_flags(a, b, carry_in),
{
    let (result, flags) = add_16_flags(a, !b, !carry_in);
    proof {
        lemma_sub16_by_complement(a, b, carry_in);
    }
    (result, flags.flip(Flags::from_raw(0x11)) | Flags::N())
}

/// Effect of `add rr, rr`: 16-bit addition that keeps the flags S, Z and P/V.
pub open spec fn add_rr_rr_state(s: StateView, a: Register16, b: Register16) -> StateView {
    let va = s.r16(a);
    let vb = s.r16(b);
    s.set_memptr(add16(va, 1)).set_flags(
        ((add16_flags(va, vb, false) & 0x39) | (s.flags() & 0xc4)) as u8,
    ).set16(a, add16c(va, vb, false))
}

/// Add two 16-bit registers together
pub fn add_rr_rr(state: &mut State, a: Register16, b: Register16, cycles: u32) -> (result:
    ExecResult)
    ensures
        final(state)@ == add_rr_rr_state(old(state)@, a, b),
        result == ExecResult::Done(cycles),
{
    let value = state.get_register_16(a);
    state.memptr = value.wrapping_add(1);
    let (result, flags) = add_16_flags(value, state.get_register_16(b), false);
    // Only use the flags C, H, X and Y
    let flags = flags & Flags::from_raw(0x39);
    // Keep the flags S, Z and V
    let old_flags = state.get_flags() & Flags::from_raw(0xc4);
    state.update_flags(flags | old_flags);
    // Store the result back in the accumulator register
    state.set_register_16(a, result);
    ExecResult::Done(cycles)
}

/// The correction `daa` adds to (or subtracts from) the accumulator.
pub open spec fn daa_diff(a: u8, flags: u8) -> u8 {
    ((if flags & 0x10 != 0 || a & 0x0f > 9 {
        0x06u8
    } else {
        0u8
    }) + (if flags & 0x01 != 0 || a > 0x99 {
        0x60u8
    } else {
        0u8
    })) as u8
}

/// The accumulator after a `daa`.
pub open spec fn daa_value(a: u8, flags: u8) -> u8 {
    if flags & 0x02 != 0 {
        ((a - daa_diff(a, flags)) % 256) as u8
    } else {
        ((a + daa_diff(a, flags)) % 256) as u8
    }
}

/// Effect of `daa`: the accumulator is adjusted to a valid BCD value.
pub open spec fn daa_state(s: StateView) -> StateView {
    let a = s.r8(Register::A);
    let f = s.flags();
    let r = daa_value(a, f);
    s.set8(Register::A, r).set_flags(
        ((((f & 0x03) | value_bits(r)) | (if a > 0x99 {
            0x01u8
        } else {
            0u8
        })) | (if (a ^ r) & 0x10 != 0 {
            0x10u8
        } else {
            0u8
        }) | parity_bits(r)) as u8,
    )
}

/// Adjust a BCD value after a math operation
#[verifier::spinoff_prover]
pub fn daa(state: &mut State, cycles: u32) -> (result: ExecResult)
    ensures
        final(state)@ == daa_state(old(state)@),
        result == ExecResult::Done(cycles),
{
    let a = state.a();
    let flags = state.get_flags();

    let mut diff: u8 = 0;
    if flags.is_set(Flags::H()) || a & 0x0f > 9 {
        diff = 0x06;
    }
    if flags.is_set(Flags::C()) || a > 0x99 {
        diff += 0x60;
    }

    assert(diff == daa_diff(a, flags@));
    let daa = if flags.is_set(Flags::N()) {
        a.wrapping_sub(diff)
    } else {
        a.wrapping_add(diff)
    };
    assert(daa == daa_value(a, flags@));

    *state.a_mut() = daa;
    // Keep N and C
    let kept = flags.select(Flags::from_raw(0x03));
    let carry = Flags::C().set_if(a > 0x99);
    let half_carry = Flags::H().set_if((a ^ daa) & 0x10 != 0);
    state.update_flags(kept | Flags::from_value(daa) | carry | half_carry | Flags::parity(daa));
    ExecResult::Done(cycles)
}

/// Effect of `cpl`: the accumulator is complemented.
pub open spec fn cpl_state(s: StateView) -> StateView {
    let complement = !s.r8(Register::A);
    s.set8(Register::A, complement).set_flags(
        ((((s.flags() & 0xc5) | 0x02u8) | 0x10u8) | (complement & 0x28)) as u8,
    )
}

/// Complement of the accumulator.
///
/// `!a`
pub fn cpl(state: &mut State, cycles: u32) -> (result: ExecResult)
    ensures
        final(state)@ == cpl_state(old(state)@),
        result == ExecResult::Done(cycles),
{
    let complement = !state.a();
    *state.a_mut() = complement;
    // Keep C, P, Z and S
    let flags = state.get_flags().select(Flags::from_raw(0xc5)) | Flags::N() | Flags::H()
        | Flags::xy(complement);
    state.update_flags(flags);
    ExecResult::Done(cycles)
}

/// Increment the contents of the `Z` register then store the result in the given address
pub fn inc_z_mem(state: &mut State, address: u16) -> (result: ExecResult)
    ensures
        final(state)@ == inc_r_state(old(state)@, Register::Z),
        result == (ExecResult::Store { address, data: final(state)@.r8(Register::Z) }),
{
    inc_r(state, Register::Z, 0);
    ExecResult::Store { address, data: state.z() }
}

/// Decrement the contents of the `Z` register then store the result in the given address
pub fn dec_z_mem(state: &mut State, address: u16) -> (result: ExecResult)
    ensures
        final(state)@ == dec_r_state(old(state)@, Register::Z),
        result == (ExecResult::Store { address, data: final(state)@.r8(Register::Z) }),
{
    dec_r(state, Register::Z, 0);
    ExecResult::Store { address, data: state.z() }
}

/// Effect of `scf`: the carry flag is set.
pub open spec fn scf_state(s: StateView) -> StateView {
    s.set_flags((((s.flags() & 0xc4) | 0x01u8) | (s.r8(Register::A) & 0x28)) as u8)
}

/// Set the carry flag
pub fn scf(state: &mut State, cycles: u32) -> (result: ExecResult)
    ensures
        final(state)@ == scf_state(old(state)@),
        result == ExecResult::Done(cycles),
{
    // Keep S, Z and P
    let flags = state.get_flags().select(Flags::from_raw(0xc4)) | Flags::C() | Flags::xy(
        state.a(),
    );
    state.update_flags(flags);
    ExecResult::Done(cycles)
}

/// Effect of `ccf`: the carry flag is complemented, its old value goes to the half carry.
pub open spec fn ccf_state(s: StateView) -> StateView {
    let f = s.flags();
    s.set_flags(
        ((((f & 0xc4) | (if f & 0x01 != 0 {
            0x10u8
        } else {
            0u8
        })) | (if f & 0x01 == 0 {
            0x01u8
        } else {
            0u8
        })) | (s.r8(Register::A) & 0x28)) as u8,
    )
}

/// Complement the carry flag
pub fn ccf(state: &mut State, cycles: u32) -> (result: ExecResult)
    ensures
        final(state)@ == ccf_state(old(state)@),
        result == ExecResult::Done(cycles),
{
    let old_flags = state.get_flags();
    let flags = old_flags.select(Flags::from_raw(0xc4)) | Flags::H().set_if(
        old_flags.is_set(Flags::C()),
    ) | Flags::C().set_if(!old_flags.is_set(Flags::C())) | Flags::xy(state.a());
    state.update_flags(flags);
    ExecResult::Done(cycles)
}

/// Effect of adding a register and a carry to the accumulator.
pub open spec fn add_a_state(s: StateView, reg: Register, carry: bool) -> StateView {
    let a = s.r8(Register::A);
    let n = s.r8(reg);
    s.set8(Register::A, add8(a, n, carry)).set_flags(add8_flags(a, n, carry))
}

/// Effect of subtracting a register and a borrow from the accumulator.
pub open spec fn sub_a_state(s: StateView, reg: Register, borrow: bool) -> StateView {
    let a = s.r8(Register::A);
    let n = s.r8(reg);
    s.set8(Register::A, sub8(a, n, borrow)).set_flags(sub8_flags(a, n, borrow))
}

/// Is the carry flag set?
pub open spec fn carry_flag(s: StateView) -> bool {
    s.flags() & 0x01 != 0
}

/// Add the value of a register to A
pub fn add_a_r(state: &mut State, reg: Register, cycles: u32) -> (result: ExecResult)
    ensures
        final(state)@ == add_a_state(old(state)@, reg, false),
        result == ExecResult::Done(cycles),
{
    add_a_r_common(state, reg, false, cycles)
}

/// Add the value of a register and the existing carry to A
pub fn adc_a_r(state: &mut State, reg: Register, cycles: u32) -> (result: ExecResult)
    ensures
        final(state)@ == add_a_state(old(state)@, reg, carry_flag(old(state)@)),
        result == ExecResult::Done(cycles),
{
    let carry = state.get_flags().is_set(Flags::C());
    add_a_r_common(state, reg, carry, cycles)
}

/// Common part between add_a_r and adc_a_r
fn add_a_r_common(state: &mut State, reg: Register, carry_in: bool, cycles: u32) -> (result:
    ExecResult)
    ensures
        final(state)@ == add_a_state(old(state)@, reg, carry_in),
        result == ExecResult::Done(cycles),
{
    let a = state.a();
    let n = state.get_register_8(reg);
    let (a, flags) = add_flags(a, n, carry_in);
    *state.a_mut() = a;
    state.update_flags(flags);
    ExecResult::Done(cycles)
}

/// Common part between sub_r and sbc_r
fn sub_r_common(state: &mut State, reg: Register, carry_in: bool, cycles: u32) -> (result:
    ExecResult)
    ensures
        final(state)@ == sub_a_state(old(state)@, reg, carry_in),
        result == ExecResult::Done(cycles),
{
    let a = state.a();
    let n = state.get_register_8(reg);
    let (a, flags) = sub_flags(a, n, carry_in);
    *state.a_mut() = a;
    state.update_flags(flags);
    ExecResult::Done(cycles)
}

/// Subtract the value of a register from A
pub fn sub_r(state: &mut State, reg: Register, cycles: u32) -> (result: ExecResult)
    ensures
        final(state)@ == sub_a_state(old(state)@, reg, false),
        result == ExecResult::Done(cycles),
{
    sub_r_common(state, reg, false, cycles)
}

/// Subtract the value of a register and the existing carry from A
pub fn sbc_r(state: &mut State, reg: Register, cycles: u32) -> (result: ExecResult)
    ensures
        final(state)@ == sub_a_state(old(state)@, reg, carry_flag(old(state)@)),
        result == ExecResult::Done(cycles),
{
    let carry = state.get_flags().is_set(Flags::C());
    sub_r_common(state, reg, carry, cycles)
}

/// Effect of a logic operation whose result is `value`, with the half carry given.
pub open spec fn logic_state(s: StateView, value: u8, half_carry: bool) -> StateView {
    s.set8(Register::A, value).set_flags(
        (((if half_carry {
            0x10u8
        } else {
            0u8
        }) | value_bits(value)) | parity_bits(value)) as u8,
    )
}

/// Perform an `AND` operation between the register and the accumulator
pub fn and_r(state: &mut State, reg: Register, cycles: u32) -> (result: ExecResult)
    ensures
        final(state)@ == logic_state(
            old(state)@,
            old(state)@.r8(Register::A) & old(state)@.r8(reg),
            true,
        ),
        result == ExecResult::Done(cycles),
{
    let a = state.a() & state.get_register_8(reg);
    let flags = Flags::H() | Flags::from_value(a) | Flags::parity(a);
    *state.a_mut() = a;
    state.update_flags(flags);
    ExecResult::Done(cycles)
}

/// Perform a `XOR` operation between the register and the accumulator
pub fn xor_r(state: &mut State, reg: Register, cycles: u32) -> (result: ExecResult)
    ensures
        final(state)@ == logic_state(
            old(state)@,
            old(state)@.r8(Register::A) ^ old(state)@.r8(reg),
            false,
        ),
        result == ExecResult::Done(cycles),
{
    let a = state.a() ^ state.get_register_8(reg);
    let flags = Flags::new() | Flags::from_value(a) | Flags::parity(a);
    *state.a_mut() = a;
    state.update_flags(flags);
    ExecResult::Done(cycles)
}

/// Perform an `OR` operation between the register and the accumulator
pub fn or_r(state: &mut State, reg: Register, cycles: u32) -> (result: ExecResult)
    ensures
        final(state)@ == logic_state(
            old(state)@,
            old(state)@.r8(Register::A) | old(state)@.r8(reg),
            false,
        ),
        result == ExecResult::Done(cycles),
{
    let a = state.a() | state.get_register_8(reg);
    let flags = Flags::new() | Flags::from_value(a) | Flags::parity(a);
    *state.a_mut() = a;
    state.update_flags(flags);
    ExecResult::Done(cycles)
}

/// Effect of `cp r`: the flags of `a - r`, with X and Y taken from the operand.
pub open spec fn cp_state(s: StateView, reg: Register) -> StateView {
    let n = s.r8(reg);
    s.set_flags(((sub8_flags(s.r8(Register::A), n, false) & 0xd7) | (n & 0x28)) as u8)
}

/// Compare the accumulator and the register
pub fn cp_r(state: &mut State, reg: Register, cycles: u32) -> (result: ExecResult)
    ensures
        final(state)@ == cp_state(old(state)@, reg),
        result == ExecResult::Done(cycles),
{
    let value = state.get_register_8(reg);
    let (_, flags) = sub_flags(state.a(), value, false);
    proof {
        let f = flags@;
        lemma_flag_bits(f);
    }
    let flags = flags - Flags::X() - Flags::Y();
    state.update_flags(flags | Flags::xy(value));
    ExecResult::Done(cycles)
}

/// Effect of `sbc hl, rr`.
pub open spec fn sbc_hl_state(s: StateView, reg: Register16) -> StateView {
    let hl = s.r16(Register16::HL);
    let v = s.r16(reg);
    let c = carry_flag(s);
    s.set_memptr(add16(hl, 1)).set16(Register16::HL, sub16c(hl, v, c)).set_flags(
        sub16_flags(hl, v, c),
    )
}

/// Effect of `adc hl, rr`.
pub open spec fn adc_hl_state(s: StateView, reg: Register16) -> StateView {
    let hl = s.r16(Register16::HL);
    let v = s.r16(reg);
    let c = carry_flag(s);
    s.set_memptr(add16(hl, 1)).set16(Register16::HL, add16c(hl, v, c)).set_flags(
        add16_flags(hl, v, c),
    )
}

/// 16-bit subtraction with carry
pub fn sbc_hl_rr(state: &mut State, reg: Register16, cycles: u32) -> (result: ExecResult)
    ensures
        final(state)@ == sbc_hl_state(old(state)@, reg),
        result == ExecResult::Done(cycles),
{
    state.memptr = state.hl().wrapping_add(1);
    let (hl, flags) = sub_16_flags(
        state.hl(),
        state.get_register_16(reg),
        state.get_flags().is_set(Flags::C()),
    );
    state.set_register_16(Register16::HL, hl);
    state.update_flags(flags);
    ExecResult::Done(cycles)
}

/// 16-bit addition with carry
pub fn adc_hl_rr(state: &mut State, reg: Register16, cycles: u32) -> (result: ExecResult)
    ensures
        final(state)@ == adc_hl_state(old(state)@, reg),
        result == ExecResult::Done(cycles),
{
    state.memptr = state.hl().wrapping_add(1);
    let (hl, flags) = add_16_flags(
        state.hl(),
        state.get_register_16(reg),
        state.get_flags().is_set(Flags::C()),
    );
    state.set_register_16(Register16::HL, hl);
    state.update_flags(flags);
    ExecResult::Done(cycles)
}

/// Effect of `neg`: the accumulator is subtracted from zero.
pub open spec fn neg_state(s: StateView) -> StateView {
    let a = s.r8(Register::A);
    s.set8(Register::A, sub8(0, a, false)).set_flags(sub8_flags(0, a, false))
}

/// Negation instruction
///
/// `A <- 0 - A`
pub fn neg(state: &mut State, cycles: u32) -> (result: ExecResult)
    ensures
        final(state)@ == neg_state(old(state)@),
        result == ExecResult::Done(cycles),
{
    let (a, flags) = sub_flags(0, state.a(), false);
    *state.a_mut() = a;
    state.update_flags(flags);
    ExecResult::Done(cycles)
}

/// Effect of `rrd`: the nybbles of `Z` and the low nybble of `A` rotate right.
pub open spec fn rrd_state(s: StateView) -> StateView {
    let z = s.r8(Register::Z);
    let a = s.r8(Register::A);
    let new_a = ((a & 0xf0) | (z & 0x0f)) as u8;
    let s1 = s.set_memptr(add16(s.r16(Register16::HL), 1)).set8(
        Register::Z,
        ((z >> 4u8) | (a << 4u8)) as u8,
    ).set8(Register::A, new_a);
    s1.set_flags((((s1.flags() & 0x01) | value_bits(new_a)) | parity_bits(new_a)) as u8)
}

/// Effect of `rld`: the nybbles of `Z` and the low nybble of `A` rotate left.
pub open spec fn rld_state(s: StateView) -> StateView {
    let z = s.r8(Register::Z);
    let a = s.r8(Register::A);
    let new_a = ((a & 0xf0) | (z >> 4u8)) as u8;
    let s1 = s.set_memptr(add16(s.r16(Register16::HL), 1)).set8(
        Register::Z,
        ((z << 4u8) | (a & 0x0f)) as u8,
    ).set8(Register::A, new_a);
    s1.set_flags((((s1.flags() & 0x01) | value_bits(new_a)) | parity_bits(new_a)) as u8)
}

/// Perform a nybble rotate right between `Z` and the least significant nybble of `A`
pub fn rrd(state: &mut State)
    ensures
        final(state)@ == rrd_state(old(state)@),
{
    state.memptr = state.hl().wrapping_add(1);
    let z = state.z();
    let a = state.a();
    *state.z_mut() = (z >> 4u8) | (a << 4u8);
    let a = (a & 0xf0) | (z & 0x0f);
    *state.a_mut() = a;
    let flags = (state.get_flags() & Flags::C()) | Flags::from_value(a) | Flags::parity(a);
    state.update_flags(flags);
}

/// Perform a nybble rotate left between `Z` and the least significant nybble of `A`
pub fn rld(state: &mut State)
    ensures
        final(state)@ == rld_state(old(state)@),
{
    state.memptr = state.hl().wrapping_add(1);
    let z = state.z();
    let a = state.a();
    *state.z_mut() = (z << 4u8) | (a & 0x0f);
    let a = (a & 0xf0) | (z >> 4u8);
    *state.a_mut() = a;
    let flags = (state.get_flags() & Flags::C()) | Flags::from_value(a) | Flags::parity(a);
    state.update_flags(flags);
}

} // verus!
