//! What the Z80's arithmetic, rotation, comparison and conditional opcodes compute, stated with
//! numbers: the documented meaning of each opcode, independent of how the tables and the
//! microinstructions are written.
//!
//! The flags register `F` holds the carry in bit 0, the add/subtract flag N in bit 1, parity or
//! overflow in bit 2, the zero flag in bit 6 and the sign flag in bit 7.

use crate::cpus::z80::{lemma_opcode_fields, z80_table, BIT_TABLE, MAIN_TABLE};
use crate::cpus::z80::bit_instructions::{bit_micros, spec_operand_register, spec_rotate_op};
use crate::cpus::z80::misc::{misc_column, spec_block_op};
use crate::cpus::z80::{
    high_column, load_micros, low_column, math_micros, prefix_table, spec_condition, spec_math_op, spec_pair,
    spec_accumulator_op, spec_stack_pair, MISC_TABLE,
};
use crate::instructions::micro::bit::{
    bit_mask, carry_bit, rla_state, rlca_state, rra_state, rrca_state, rol8, ror8, shift_flags, shift_state, Shift,
};
use crate::instructions::micro::math::{
    add16_flags, add16c, sub16_flags, sub16c, add8, add8_flags, carry_value, ccf_state, cpl_state, scf_state, hvc_bits, signed, signed16, sub8, sub8_flags,
};
use crate::instructions::micro::step::{
    accumulator_ops_step, add_rr_rr_step, bit_ops_step, block_micro_step, block_step, BlockOp, djnz_step, inc_dec_step, jp_cc_step, jump_to_step,
    jr_cc_step, jr_mm_step, load_sp_or_break_step, math_state, math_step, rotate_state, rotate_step, step, Address,
    MathOp, Microinstruction, neg_step, pop_step, push_pc_or_break_step, push_step,
    register_moves_step, ret_step, word_carry_arithmetic_step,
};
use crate::instructions::{EntryView, ExecResult, ExtraBytes};
use crate::instructions::micro::jump::pushed_sp;
use crate::instructions::micro::transfer::{
    cpx_flags, cpx_state, cpxr_repeats, cpxr_state, ldx_flags, ldx_state, ldxr_result, ldxr_state,
};
use crate::laws::{register16_read_after_write, register_read_after_write};
use crate::state::{
    add16, high_byte, lemma_flag_bits, parity_bits, value_bits, Register, Register16, StateView,
};
use vstd::prelude::*;

verus! {

/// Is the carry flag set in this flags byte?
pub open spec fn carry_set(f: u8) -> bool {
    f % 2 == 1
}

/// Is the add/subtract flag set in this flags byte?
pub open spec fn subtract_set(f: u8) -> bool {
    (f / 2) % 2 == 1
}

/// Is the parity/overflow flag set in this flags byte?
pub open spec fn parity_set(f: u8) -> bool {
    (f / 4) % 2 == 1
}

/// Is the zero flag set in this flags byte?
pub open spec fn zero_set(f: u8) -> bool {
    (f / 64) % 2 == 1
}

/// Is the sign flag set in this flags byte?
pub open spec fn sign_set(f: u8) -> bool {
    f >= 128
}

/// The register that bits 2-0 of an opcode name: B, C, D, E, H, L, and A for 7 (6 stands for
/// `(hl)`).
pub open spec fn operand(code: u8) -> Register {
    if code == 0 {
        Register::B
    } else if code == 1 {
        Register::C
    } else if code == 2 {
        Register::D
    } else if code == 3 {
        Register::E
    } else if code == 4 {
        Register::H
    } else if code == 5 {
        Register::L
    } else {
        Register::A
    }
}

/// The numeric value of a carry.
pub open spec fn carry_in(f: u8) -> int {
    if carry_set(f) {
        1
    } else {
        0
    }
}

/// The documented meaning of the operation on the accumulator that bits 5-3 of an opcode select,
/// in the order add, adc, sub, sbc, and, xor, or, cp: with `a` in A, the operand `n` and the flags
/// `f` before, it leaves `a1` in A and `f1` in F.
pub open spec fn accumulator_op_meaning(group: int, a: u8, n: u8, f: u8, a1: u8, f1: u8) -> bool {
    let c = carry_in(f);
    let result: int = if group == 0 {
        (a + n) % 256
    } else if group == 1 {
        (a + n + c) % 256
    } else if group == 2 {
        (a - n) % 256
    } else if group == 3 {
        (a - n - c) % 256
    } else if group == 4 {
        (a & n) as int
    } else if group == 5 {
        (a ^ n) as int
    } else if group == 6 {
        (a | n) as int
    } else {
        a as int
    };
    let carry = if group == 0 {
        a + n > 255
    } else if group == 1 {
        a + n + c > 255
    } else if group == 2 || group == 7 {
        a < n
    } else if group == 3 {
        a < n + c
    } else {
        false
    };
    // `cp` sets S and Z as `sub` would, and keeps A
    let shown: int = if group == 7 {
        (a - n) % 256
    } else {
        result
    };
    &&& a1 == result
    &&& carry_set(f1) == carry
    &&& zero_set(f1) == (shown == 0)
    &&& sign_set(f1) == (shown >= 128)
    &&& subtract_set(f1) == (group == 2 || group == 3 || group == 7)
    &&& group == 7 ==> (zero_set(f1) == (a == n))
}

/// How the flags bytes of the arithmetic and logic operations read.
proof fn lemma_flag_shapes(r: u8, n: u8, f: u8, h: bool, o: bool, c: bool, hb: u8, p: u8, cb: u8)
    by (bit_vector)
    requires
        hb == 0 || hb == 0x10,
        p == 0 || p == 4,
        cb == 0 || cb == 1,
    ensures
        ((value_bits(r) | hvc_bits(h, o, c)) as u8 & 0x01 != 0) == c,
        (value_bits(r) | hvc_bits(h, o, c)) as u8 & 0x02 == 0,
        ((value_bits(r) | hvc_bits(h, o, c)) as u8 & 0x40 != 0) == (r == 0),
        ((value_bits(r) | hvc_bits(h, o, c)) as u8 & 0x80 != 0) == (r > 127),
        (((value_bits(r) | 0x02u8) | hvc_bits(h, o, c)) as u8 & 0x01 != 0) == c,
        ((value_bits(r) | 0x02u8) | hvc_bits(h, o, c)) as u8 & 0x02 != 0,
        (((value_bits(r) | 0x02u8) | hvc_bits(h, o, c)) as u8 & 0x40 != 0) == (r == 0),
        (((value_bits(r) | 0x02u8) | hvc_bits(h, o, c)) as u8 & 0x80 != 0) == (r > 127),
        ((hb | value_bits(r)) | p) as u8 & 0x01 == 0,
        ((hb | value_bits(r)) | p) as u8 & 0x02 == 0,
        (((hb | value_bits(r)) | p) as u8 & 0x40 != 0) == (r == 0),
        (((hb | value_bits(r)) | p) as u8 & 0x80 != 0) == (r > 127),
        (((value_bits(r) | p) | cb) as u8 & 0x01 != 0) == (cb == 1),
        ((value_bits(r) | p) | cb) as u8 & 0x02 == 0,
        (((value_bits(r) | p) | cb) as u8 & 0x40 != 0) == (r == 0),
        (((value_bits(r) | p) | cb) as u8 & 0x80 != 0) == (r > 127),
        ((f & 0xd7) | (n & 0x28)) as u8 & 0x01 == f & 0x01,
        ((f & 0xd7) | (n & 0x28)) as u8 & 0x02 == f & 0x02,
        ((f & 0xd7) | (n & 0x28)) as u8 & 0x40 == f & 0x40,
        ((f & 0xd7) | (n & 0x28)) as u8 & 0x80 == f & 0x80,
{
}

/// The flags of `a + n + carry`.
proof fn lemma_sum_flags(a: u8, n: u8, cv: bool)
    ensures
        ({
            let r = add8(a, n, cv);
            let f1 = add8_flags(a, n, cv);
            &&& carry_set(f1) == (a + n + carry_value(cv) > 255)
            &&& zero_set(f1) == (r == 0)
            &&& sign_set(f1) == (r >= 128)
            &&& !subtract_set(f1)
        }),
{
    let sum = signed(a) + signed(n) + carry_value(cv);
    lemma_flag_shapes(
        add8(a, n, cv),
        n,
        0,
        a % 16 + n % 16 + carry_value(cv) >= 16,
        sum < -128 || sum > 127,
        a + n + carry_value(cv) > 255,
        0,
        0,
        0,
    );
    lemma_flag_bits(add8_flags(a, n, cv));
}

/// The flags of `a - n - borrow`.
proof fn lemma_difference_flags(a: u8, n: u8, bv: bool)
    ensures
        ({
            let r = sub8(a, n, bv);
            let f1 = sub8_flags(a, n, bv);
            &&& carry_set(f1) == (a < n + carry_value(bv))
            &&& zero_set(f1) == (r == 0)
            &&& sign_set(f1) == (r >= 128)
            &&& subtract_set(f1)
        }),
{
    let diff = signed(a) - signed(n) - carry_value(bv);
    lemma_flag_shapes(
        sub8(a, n, bv),
        n,
        0,
        a % 16 < n % 16 + carry_value(bv),
        diff < -128 || diff > 127,
        a < n + carry_value(bv),
        0,
        0,
        0,
    );
    lemma_flag_bits(sub8_flags(a, n, bv));
}

/// The flags of a logic operation whose result is `value`.
proof fn lemma_logic_flags(value: u8, half_carry: bool)
    ensures
        ({
            let f1 = (((if half_carry {
                0x10u8
            } else {
                0u8
            }) | value_bits(value)) | parity_bits(value)) as u8;
            &&& !carry_set(f1)
            &&& zero_set(f1) == (value == 0)
            &&& sign_set(f1) == (value >= 128)
            &&& !subtract_set(f1)
        }),
{
    let hb: u8 = if half_carry {
        0x10
    } else {
        0
    };
    lemma_flag_shapes(value, 0, 0, false, false, false, hb, parity_bits(value), 0);
    lemma_flag_bits((((if half_carry {
        0x10u8
    } else {
        0u8
    }) | value_bits(value)) | parity_bits(value)) as u8);
}

/// The flags of `cp n`: those of `a - n`, with X and Y from `n`.
proof fn lemma_compare_flags(a: u8, n: u8)
    ensures
        ({
            let f1 = ((sub8_flags(a, n, false) & 0xd7) | (n & 0x28)) as u8;
            &&& carry_set(f1) == (a < n)
            &&& zero_set(f1) == (a == n)
            &&& sign_set(f1) == (sub8(a, n, false) >= 128)
            &&& subtract_set(f1)
        }),
{
    let fs = sub8_flags(a, n, false);
    lemma_difference_flags(a, n, false);
    lemma_flag_shapes(0, n, fs, false, false, false, 0, 0, 0);
    lemma_flag_bits(fs);
    lemma_flag_bits(((fs & 0xd7) | (n & 0x28)) as u8);
}

/// The operation on the accumulator that bits 5-3 select has its documented meaning.
#[verifier::spinoff_prover]
#[verifier::rlimit(60)]
proof fn lemma_accumulator_op(s: StateView, group: u8, reg: Register)
    requires
        s.wf(),
        group < 8,
        reg != Register::Flags,
    ensures
        ({
            let s1 = math_state(s, spec_math_op(group), reg);
            &&& accumulator_op_meaning(
                group as int,
                s.r8(Register::A),
                s.r8(reg),
                s.flags(),
                s1.r8(Register::A),
                s1.flags(),
            )
            &&& s1 == s.set8(Register::A, s1.r8(Register::A)).set_flags(s1.flags())
        }),
{
    let a = s.r8(Register::A);
    let n = s.r8(reg);
    let f = s.flags();
    lemma_flag_bits(f);
    let carry = f & 0x01 != 0;
    if group == 0 {
        lemma_sum_flags(a, n, false);
    } else if group == 1 {
        lemma_sum_flags(a, n, carry);
    } else if group == 2 {
        lemma_difference_flags(a, n, false);
    } else if group == 3 {
        lemma_difference_flags(a, n, carry);
    } else if group == 4 {
        lemma_logic_flags(a & n, true);
    } else if group == 5 {
        lemma_logic_flags(a ^ n, false);
    } else if group == 6 {
        lemma_logic_flags(a | n, false);
    } else {
        lemma_compare_flags(a, n);
        assert(s.set8(Register::A, a).regs =~= s.regs);
    }
}

/// The entries of the main table from 80h to BFh.
proof fn lemma_main_accumulator_entry(opcode: u8)
    requires
        0x80 <= opcode < 0xc0,
    ensures
        z80_table(MAIN_TABLE as int, opcode) == EntryView::Instruction(
            ExtraBytes::Zero,
            math_micros(opcode),
        ),
{
}

/// The entries of the main table with an immediate operand for the accumulator.
proof fn lemma_main_immediate_entry(opcode: u8)
    requires
        0xc0 <= opcode,
        opcode % 8 == 6,
    ensures
        z80_table(MAIN_TABLE as int, opcode) == EntryView::Instruction(
            ExtraBytes::One,
            seq![Microinstruction::Math(spec_math_op((opcode >> 3u8) & 7), Register::Z, 0)],
        ),
{
    lemma_opcode_fields(opcode);
    assert(prefix_table(opcode) is None);
}

/// Opcodes 80h to BFh with a register operand (bits 2-0 other than 6): one microinstruction that
/// applies to A and the register named by bits 2-0 the operation that bits 5-3 select (add, adc,
/// sub, sbc, and, xor, or, cp), changing nothing but A and F.
#[verifier::spinoff_prover]
pub proof fn accumulator_opcodes_on_registers(s: StateView, opcode: u8)
    requires
        s.wf(),
        0x80 <= opcode < 0xc0,
        opcode % 8 != 6,
    ensures
        z80_table(MAIN_TABLE as int, opcode) matches EntryView::Instruction(ExtraBytes::Zero, micros)
            && micros.len() == 1 && ({
            let (s1, result) = step(s, micros[0]);
            &&& accumulator_op_meaning(
                (opcode - 0x80) / 8,
                s.r8(Register::A),
                s.r8(operand(opcode % 8)),
                s.flags(),
                s1.r8(Register::A),
                s1.flags(),
            )
            &&& s1 == s.set8(Register::A, s1.r8(Register::A)).set_flags(s1.flags())
            &&& result is Done
        }),
{
    lemma_opcode_fields(opcode);
    lemma_main_accumulator_entry(opcode);
    let group = (opcode >> 3u8) & 7;
    let code = opcode & 7;
    let reg = spec_operand_register(code);
    assert(reg == operand(opcode % 8));
    assert(math_micros(opcode) == seq![Microinstruction::Math(spec_math_op(group), reg, 0)]);
    assert(group as int == (opcode - 0x80) / 8);
    math_step(s, spec_math_op(group), reg, 0);
    lemma_accumulator_op(s, group, reg);
}

/// Opcodes 80h to BFh on `(hl)` (bits 2-0 equal to 6): the byte at `HL` is loaded into `Z`, then
/// the operation that bits 5-3 select applies to A and that byte, changing nothing but A and F.
#[verifier::spinoff_prover]
pub proof fn accumulator_opcodes_on_memory(s: StateView, opcode: u8)
    requires
        s.wf(),
        0x80 <= opcode < 0xc0,
        opcode % 8 == 6,
    ensures
        z80_table(MAIN_TABLE as int, opcode) matches EntryView::Instruction(ExtraBytes::Zero, micros)
            && micros.len() == 2 && step(s, micros[0]) == (s, ExecResult::Load {
            address: s.r16(Register16::HL),
        }) && ({
            let (s1, result) = step(s, micros[1]);
            &&& accumulator_op_meaning(
                (opcode - 0x80) / 8,
                s.r8(Register::A),
                s.r8(Register::Z),
                s.flags(),
                s1.r8(Register::A),
                s1.flags(),
            )
            &&& s1 == s.set8(Register::A, s1.r8(Register::A)).set_flags(s1.flags())
            &&& result is Done
        }),
{
    lemma_opcode_fields(opcode);
    lemma_main_accumulator_entry(opcode);
    let group = (opcode >> 3u8) & 7;
    let micros = math_micros(opcode);
    assert(micros[0] == Microinstruction::Load(Address::Register(Register16::HL)));
    assert(micros[1] == Microinstruction::Math(spec_math_op(group), Register::Z, 0));
    assert(group as int == (opcode - 0x80) / 8);
    assert(step(s, Microinstruction::Load(Address::Register(Register16::HL))) == (
        s,
        ExecResult::Load { address: s.r16(Register16::HL) },
    ));
    math_step(s, spec_math_op(group), Register::Z, 0);
    lemma_accumulator_op(s, group, Register::Z);
}

/// Opcodes C6h, CEh, D6h, DEh, E6h, EEh, F6h and FEh: the operation that bits 5-3 select (add,
/// adc, sub, sbc, and, xor, or, cp) applies to A and the byte that follows the opcode, which the
/// decoder leaves in `Z`, changing nothing but A and F.
#[verifier::spinoff_prover]
pub proof fn accumulator_opcodes_on_immediates(s: StateView, opcode: u8)
    requires
        s.wf(),
        0xc0 <= opcode,
        opcode % 8 == 6,
    ensures
        z80_table(MAIN_TABLE as int, opcode) matches EntryView::Instruction(ExtraBytes::One, micros)
            && micros.len() == 1 && ({
            let (s1, result) = step(s, micros[0]);
            &&& accumulator_op_meaning(
                (opcode - 0xc0) / 8,
                s.r8(Register::A),
                s.r8(Register::Z),
                s.flags(),
                s1.r8(Register::A),
                s1.flags(),
            )
            &&& s1 == s.set8(Register::A, s1.r8(Register::A)).set_flags(s1.flags())
            &&& result is Done
        }),
{
    lemma_opcode_fields(opcode);
    lemma_main_immediate_entry(opcode);
    let group = (opcode >> 3u8) & 7;
    assert(group as int == (opcode - 0xc0) / 8);
    math_step(s, spec_math_op(group), Register::Z, 0);
    lemma_accumulator_op(s, group, Register::Z);
}

/// A byte read as a two's complement number.
pub open spec fn signed_value(v: u8) -> int {
    if v < 128 {
        v as int
    } else {
        v - 256
    }
}

/// The documented meaning of the rotation or shift that bits 5-3 of a `CB` opcode select, in the
/// order rlc, rrc, rl, rr, sla, sra, sll, srl: with `v` in the register and the flags `f` before,
/// it leaves `v1` in the register and `f1` in F. The rotations through the carry take the carry
/// in; `rlc`, `rrc`, `rl`, `sla` and `sll` put the original bit 7 in the carry, the others bit 0.
pub open spec fn rotation_meaning(kind: int, v: u8, f: u8, v1: u8, f1: u8) -> bool {
    let c = carry_in(f);
    let carry = if kind == 3 || kind == 5 || kind == 7 {
        v % 2 == 1
    } else {
        v >= 128
    };
    &&& kind == 0 ==> v1 == (2 * v) % 256 + v / 128
    &&& kind == 1 ==> v1 == v / 2 + 128 * (v % 2)
    &&& kind == 2 ==> v1 == (2 * v + c) % 256
    &&& kind == 3 ==> v1 == v / 2 + 128 * c
    &&& kind == 4 ==> v1 == (2 * v) % 256
    &&& kind == 5 ==> signed_value(v1) == signed_value(v) / 2
    &&& kind == 6 ==> v1 == (2 * v + 1) % 256
    &&& kind == 7 ==> v1 == v / 2
    &&& carry_set(f1) == carry
    &&& zero_set(f1) == (v1 == 0)
    &&& sign_set(f1) == (v1 >= 128)
    &&& !subtract_set(f1)
}

/// A byte rotated left, as a number.
proof fn lemma_rotated_left(v: u8)
    by (bit_vector)
    ensures
        rol8(v) == ((((v as u16) * 2) as u16 % 256) as u16 + (v / 128) as u16) as u8,
{
}

/// The other rotations and shifts of a byte as numbers.
proof fn lemma_rotation_values(v: u8, c: u8)
    by (bit_vector)
    requires
        c < 2,
    ensures
        ror8(v) == ((v / 2) as u16 + ((v % 2) as u16 * 128) as u16) as u8,
        ((v << 1u8) | c) as u8 == ((((v as u16) * 2) as u16 + c as u16) as u16 % 256) as u8,
        ((v >> 1u8) | (c << 7u8)) as u8 == ((v / 2) as u16 + ((c as u16) * 128) as u16) as u8,
        (v << 1u8) as u8 == ((((v as u16) * 2) as u16) % 256) as u8,
        ((v << 1u8) | 1) as u8 == ((((v as u16) * 2) as u16 + 1) as u16 % 256) as u8,
        (v >> 1u8) as u8 == (v / 2) as u8,
        ((v >> 1u8) | (v & 0x80)) as u8 == ((v / 2) as u16 + (v & 0x80) as u16) as u8,
        (v & 0x80) == (if v >= 128 {
            0x80u8
        } else {
            0u8
        }),
        (v & 0x80 != 0) == (v >= 128),
        (v & 0x01 != 0) == (v % 2 == 1),
{
}

/// The flags of a rotation or shift that leaves `v1` and sets the carry to `carry`.
proof fn lemma_shift_flags(v1: u8, carry: bool)
    ensures
        ({
            let f1 = shift_flags(v1, carry);
            &&& carry_set(f1) == carry
            &&& zero_set(f1) == (v1 == 0)
            &&& sign_set(f1) == (v1 >= 128)
            &&& !subtract_set(f1)
        }),
{
    let cb: u8 = if carry {
        1
    } else {
        0
    };
    lemma_flag_shapes(v1, 0, 0, false, false, false, 0, parity_bits(v1), cb);
    lemma_flag_bits(shift_flags(v1, carry));
}

/// The rotation or shift that bits 5-3 select has its documented meaning.
#[verifier::spinoff_prover]
#[verifier::rlimit(60)]
proof fn lemma_rotation(s: StateView, kind: u8, reg: Register)
    requires
        s.wf(),
        kind < 8,
        reg != Register::Flags,
    ensures
        ({
            let s1 = rotate_state(s, spec_rotate_op(kind), reg);
            &&& rotation_meaning(kind as int, s.r8(reg), s.flags(), s1.r8(reg), s1.flags())
            &&& s1 == s.set8(reg, s1.r8(reg)).set_flags(s1.flags())
        }),
{
    let v = s.r8(reg);
    let f = s.flags();
    let c = carry_bit(f);
    lemma_flag_bits(f);
    lemma_rotated_left(v);
    lemma_rotation_values(v, c);
    let high = v & 0x80 != 0;
    let low = v & 0x01 != 0;
    let (v1, carry): (u8, bool) = if kind == 0 {
        (rol8(v), high)
    } else if kind == 1 {
        (ror8(v), high)
    } else if kind == 2 {
        (((v << 1u8) | c) as u8, high)
    } else if kind == 3 {
        (((v >> 1u8) | (c << 7u8)) as u8, low)
    } else if kind == 4 {
        (Shift::Sla.apply(v), high)
    } else if kind == 5 {
        (Shift::Sra.apply(v), low)
    } else if kind == 6 {
        (Shift::Sll.apply(v), high)
    } else {
        (Shift::Srl.apply(v), low)
    };
    assert(rotate_state(s, spec_rotate_op(kind), reg) == shift_state(s, reg, v1, carry));
    lemma_shift_flags(v1, carry);
}

/// `CB` opcodes 00h to 3Fh with a register operand (bits 2-0 other than 6): one microinstruction
/// that applies to the register named by bits 2-0 the rotation or shift that bits 5-3 select
/// (rlc, rrc, rl, rr, sla, sra, sll, srl), changing nothing but that register and F.
#[verifier::spinoff_prover]
pub proof fn rotation_opcodes_on_registers(s: StateView, opcode: u8)
    requires
        s.wf(),
        opcode < 0x40,
        opcode % 8 != 6,
    ensures
        z80_table(BIT_TABLE as int, opcode) matches EntryView::Instruction(ExtraBytes::Zero, micros)
            && micros.len() == 1 && ({
            let reg = operand(opcode % 8);
            let (s1, result) = step(s, micros[0]);
            &&& rotation_meaning((opcode / 8) as int, s.r8(reg), s.flags(), s1.r8(reg), s1.flags())
            &&& s1 == s.set8(reg, s1.r8(reg)).set_flags(s1.flags())
            &&& result is Done
        }),
{
    lemma_opcode_fields(opcode);
    let kind = (opcode >> 3u8) & 7;
    let reg = spec_operand_register(opcode & 7);
    assert(reg == operand(opcode % 8));
    assert(bit_micros(opcode) == seq![Microinstruction::Rotate(spec_rotate_op(kind), reg, 0)]);
    rotate_step(s, spec_rotate_op(kind), reg, 0);
    lemma_rotation(s, kind, reg);
}

/// How the flags byte of `cpi`, `cpd`, `cpir` and `cpdr` reads: C from the flags before, N and Z
/// from the comparison, P/V from whether `BC` is still nonzero.
proof fn lemma_block_compare_shape(f: u8, g: u8, pb: u8, xb: u8, yb: u8)
    by (bit_vector)
    requires
        pb == 0 || pb == 4,
        xb == 0 || xb == 8,
        yb == 0 || yb == 0x20,
    ensures
        (((((f & 0xd2) | (g & 0x01)) | pb) | xb) | yb) as u8 & 0x01 == g & 0x01,
        (((((f & 0xd2) | (g & 0x01)) | pb) | xb) | yb) as u8 & 0x02 == f & 0x02,
        ((((((f & 0xd2) | (g & 0x01)) | pb) | xb) | yb) as u8 & 0x04 != 0) == (pb == 4),
        (((((f & 0xd2) | (g & 0x01)) | pb) | xb) | yb) as u8 & 0x40 == f & 0x40,
        (((((f & 0xd2) | (g & 0x01)) | pb) | xb) | yb) as u8 & 0x80 == f & 0x80,
{
}

/// The flags after comparing `a` with `byte` in a block comparison, `bc` being the decremented
/// counter and `g` the flags before.
proof fn lemma_block_compare_flags(g: u8, a: u8, byte: u8, bc: u16)
    ensures
        ({
            let f1 = cpx_flags(g, a, byte, bc);
            &&& carry_set(f1) == carry_set(g)
            &&& zero_set(f1) == (a == byte)
            &&& sign_set(f1) == ((a - byte) % 256 >= 128)
            &&& parity_set(f1) == (bc != 0)
            &&& subtract_set(f1)
        }),
{
    let f = sub8_flags(a, byte, false);
    let diff = sub8(a, byte, false);
    let xy_diff = ((diff - (if f & 0x10 != 0 {
        1int
    } else {
        0int
    })) % 256) as u8;
    lemma_block_compare_shape(
        f,
        g,
        if bc != 0 {
            0x04u8
        } else {
            0u8
        },
        if xy_diff & 0x08 != 0 {
            0x08u8
        } else {
            0u8
        },
        if xy_diff & 0x02 != 0 {
            0x20u8
        } else {
            0u8
        },
    );
    lemma_difference_flags(a, byte, false);
    lemma_flag_bits(f);
    lemma_flag_bits(g);
    lemma_flag_bits(cpx_flags(g, a, byte, bc));
}

/// The entries of the block comparisons.
proof fn lemma_block_compare_entry(opcode: u8)
    requires
        opcode == 0xa1 || opcode == 0xa9 || opcode == 0xb1 || opcode == 0xb9,
    ensures
        ({
            let y = (opcode >> 3u8) & 7;
            z80_table(MISC_TABLE as int, opcode) == EntryView::Instruction(
                ExtraBytes::Zero,
                seq![
                    Microinstruction::Load(Address::Register(Register16::HL)),
                    Microinstruction::Block(
                        spec_block_op(y, opcode & 7),
                        if y >= 6 {
                            21
                        } else {
                            16
                        },
                        16,
                    ),
                ],
            )
        }),
{
    lemma_opcode_fields(opcode);
}

/// The registers after the comparison step of `cpi` (offset 1) or `cpd` (offset -1).
proof fn lemma_cpx_state(s: StateView, offset: int)
    requires
        s.wf(),
    ensures
        ({
            let t = cpx_state(s, offset);
            let bc = add16(s.r16(Register16::BC), -1);
            &&& t.wf()
            &&& t.r16(Register16::HL) == add16(s.r16(Register16::HL), offset)
            &&& t.r16(Register16::BC) == bc
            &&& t.r8(Register::A) == s.r8(Register::A)
            &&& t.pc() == s.pc()
            &&& t.flags() == cpx_flags(s.flags(), s.r8(Register::A), s.r8(Register::Z), bc)
        }),
{
    let bc = add16(s.r16(Register16::BC), -1);
    let hl = add16(s.r16(Register16::HL), offset);
    let s0 = s.set_memptr(add16(s.memptr, offset));
    let s1 = s0.set16(Register16::BC, bc);
    let s2 = s1.set16(Register16::HL, hl);
    register16_read_after_write(s0, Register16::BC, Register16::BC, bc);
    register16_read_after_write(s0, Register16::BC, Register16::PC, bc);
    register16_read_after_write(s1, Register16::HL, Register16::HL, hl);
    register16_read_after_write(s1, Register16::HL, Register16::BC, hl);
    register16_read_after_write(s1, Register16::HL, Register16::PC, hl);
    let f2 = cpx_flags(s2.flags(), s2.r8(Register::A), s2.r8(Register::Z), bc);
    register_read_after_write(s2, Register::Flags, Register::A, f2);
}

/// The documented meaning of a block comparison step: the byte `byte` at `HL` is compared with
/// A, which is kept; HL moves up when `forward`, else down, and BC counts down. Z tells whether the
/// byte equals A, S is the sign of A minus the byte, C is kept, N is set and P/V tells whether BC is
/// still nonzero. PC moves back over the two bytes of the instruction when `again`.
pub open spec fn block_compare_meaning(s: StateView, byte: u8, forward: bool, again: bool, s1: StateView) -> bool {
    let a = s.r8(Register::A);
    let hl = s.r16(Register16::HL) as int;
    let bc1 = (s.r16(Register16::BC) - 1) % 65536;
    &&& s1.r16(Register16::HL) == (if forward {
        (hl + 1) % 65536
    } else {
        (hl - 1) % 65536
    })
    &&& s1.r16(Register16::BC) == bc1
    &&& s1.r8(Register::A) == a
    &&& zero_set(s1.flags()) == (a == byte)
    &&& sign_set(s1.flags()) == ((a - byte) % 256 >= 128)
    &&& carry_set(s1.flags()) == carry_set(s.flags())
    &&& parity_set(s1.flags()) == (bc1 != 0)
    &&& subtract_set(s1.flags())
    &&& s1.pc() == (if again {
        (s.pc() - 2) % 65536
    } else {
        s.pc() as int
    })
}

/// `cpi` and `cpd` compare once.
proof fn lemma_compare_once(s: StateView, offset: int)
    requires
        s.wf(),
        offset == 1 || offset == -1,
    ensures
        block_compare_meaning(s, s.r8(Register::Z), offset == 1, false, cpx_state(s, offset)),
{
    let bc = add16(s.r16(Register16::BC), -1);
    lemma_cpx_state(s, offset);
    lemma_block_compare_flags(s.flags(), s.r8(Register::A), s.r8(Register::Z), bc);
}

/// `cpir` and `cpdr` compare, and go again while BC is nonzero and the byte differs from A.
proof fn lemma_compare_repeat(s: StateView, offset: int)
    requires
        s.wf(),
        offset == 1 || offset == -1,
    ensures
        ({
            let again = add16(s.r16(Register16::BC), -1) != 0 && s.r8(Register::A) != s.r8(
                Register::Z,
            );
            &&& cpxr_repeats(cpx_state(s, offset)) == again
            &&& block_compare_meaning(s, s.r8(Register::Z), offset == 1, again, cpxr_state(s, offset))
        }),
{
    let t = cpx_state(s, offset);
    lemma_compare_once(s, offset);
    lemma_cpx_state(s, offset);
    lemma_flag_bits(t.flags());
    if cpxr_repeats(t) {
        let back = add16(t.pc(), -2);
        let t1 = t.set_memptr(t.pc());
        register16_read_after_write(t1, Register16::PC, Register16::PC, back);
        register16_read_after_write(t1, Register16::PC, Register16::HL, back);
        register16_read_after_write(t1, Register16::PC, Register16::BC, back);
    }
}

/// `ED A1` (`cpi`), `ED A9` (`cpd`), `ED B1` (`cpir`) and `ED B9` (`cpdr`): the byte at `HL` is
/// loaded into `Z` and compared with A as [block_compare_meaning] says: HL moves up for `cpi` and
/// `cpir`, down for the others. `cpir` and `cpdr` run again (PC moves back to the instruction)
/// exactly when BC is still nonzero and the byte differs from A: a match ends them with HL just
/// past it.
#[verifier::spinoff_prover]
pub proof fn block_compare_opcodes(s: StateView, opcode: u8)
    requires
        s.wf(),
        opcode == 0xa1 || opcode == 0xa9 || opcode == 0xb1 || opcode == 0xb9,
    ensures
        z80_table(MISC_TABLE as int, opcode) matches EntryView::Instruction(ExtraBytes::Zero, micros)
            && micros.len() == 2 && step(s, micros[0]) == (s, ExecResult::Load {
            address: s.r16(Register16::HL),
        }) && ({
            let (s1, result) = step(s, micros[1]);
            let repeating = opcode == 0xb1 || opcode == 0xb9;
            let again = repeating && (s.r16(Register16::BC) - 1) % 65536 != 0 && s.r8(Register::A)
                != s.r8(Register::Z);
            &&& block_compare_meaning(
                s,
                s.r8(Register::Z),
                opcode == 0xa1 || opcode == 0xb1,
                again,
                s1,
            )
            &&& result == ExecResult::Done(
                if again {
                    21
                } else {
                    16
                },
            )
        }),
{
    lemma_block_compare_entry(opcode);
    lemma_opcode_fields(opcode);
    let y = (opcode >> 3u8) & 7;
    let z = opcode & 7;
    let op = spec_block_op(y, z);
    let cycles: u32 = if y >= 6 {
        21
    } else {
        16
    };
    assert(step(s, Microinstruction::Load(Address::Register(Register16::HL))) == (
        s,
        ExecResult::Load { address: s.r16(Register16::HL) },
    ));
    let micros = seq![
        Microinstruction::Load(Address::Register(Register16::HL)),
        Microinstruction::Block(op, cycles, 16),
    ];
    assert(micros[1] == Microinstruction::Block(op, cycles, 16));
    block_micro_step(s, op, cycles, 16);
    if opcode == 0xa1 {
        assert(op == BlockOp::Cpi && cycles == 16);
        lemma_compare_once(s, 1);
    } else if opcode == 0xa9 {
        assert(op == BlockOp::Cpd && cycles == 16);
        lemma_compare_once(s, -1);
    } else if opcode == 0xb1 {
        assert(op == BlockOp::Cpir && cycles == 21);
        lemma_compare_repeat(s, 1);
    } else {
        assert(op == BlockOp::Cpdr && cycles == 21);
        lemma_compare_repeat(s, -1);
    }
}

/// The documented meaning of the condition that bits 5-3 of a conditional opcode select, in the
/// order nz, z, nc, c, po, pe, p, m, on the flags `f`.
pub open spec fn condition_meaning(code: int, f: u8) -> bool {
    if code == 0 {
        !zero_set(f)
    } else if code == 1 {
        zero_set(f)
    } else if code == 2 {
        !carry_set(f)
    } else if code == 3 {
        carry_set(f)
    } else if code == 4 {
        !parity_set(f)
    } else if code == 5 {
        parity_set(f)
    } else if code == 6 {
        !sign_set(f)
    } else {
        sign_set(f)
    }
}

/// The conditions read the flags as documented.
proof fn lemma_condition(code: u8, f: u8)
    requires
        code < 8,
    ensures
        spec_condition(code).holds(f) == condition_meaning(code as int, f),
{
    lemma_flag_bits(f);
}

/// The entries of the main table from C0h on that follow the columns of bits 2-0.
proof fn lemma_high_entry(opcode: u8)
    requires
        0xc0 <= opcode,
        opcode % 8 != 3 && opcode % 8 != 5,
        high_column(opcode) is Some,
    ensures
        high_column(opcode) matches Some((extra, micros)) && z80_table(MAIN_TABLE as int, opcode)
            == EntryView::Instruction(extra, micros),
{
    assert(prefix_table(opcode) is None);
}

/// The entries of `call cc, nn`.
proof fn lemma_call_entry(opcode: u8)
    requires
        0xc0 <= opcode,
        opcode % 8 == 4,
    ensures
        z80_table(MAIN_TABLE as int, opcode) == EntryView::Instruction(
            ExtraBytes::Two,
            seq![
                Microinstruction::PushPcOrBreak(spec_condition((opcode >> 3u8) & 7), 0),
                Microinstruction::JrMm(1),
            ],
        ),
{
    lemma_opcode_fields(opcode);
    lemma_high_entry(opcode);
}

/// The entries of `ret cc`.
proof fn lemma_return_entry(opcode: u8)
    requires
        0xc0 <= opcode,
        opcode % 8 == 0,
    ensures
        z80_table(MAIN_TABLE as int, opcode) == EntryView::Instruction(
            ExtraBytes::Zero,
            seq![
                Microinstruction::LoadSpOrBreak(spec_condition((opcode >> 3u8) & 7), 1),
                Microinstruction::Ret(1),
            ],
        ),
{
    lemma_opcode_fields(opcode);
    lemma_high_entry(opcode);
}

/// `jp cc, nn` (opcodes C2h to FAh with bits 2-0 equal to 2): the address that follows the opcode,
/// which the decoder leaves in `WZ`, goes to PC exactly when the condition of bits 5-3 holds.
#[verifier::spinoff_prover]
pub proof fn conditional_jumps(s: StateView, opcode: u8)
    requires
        s.wf(),
        0xc0 <= opcode,
        opcode % 8 == 2,
    ensures
        z80_table(MAIN_TABLE as int, opcode) matches EntryView::Instruction(ExtraBytes::Two, micros)
            && micros.len() == 1 && ({
            let (s1, result) = step(s, micros[0]);
            &&& s1.pc() == (if condition_meaning((opcode - 0xc0) / 8, s.flags()) {
                s.r16(Register16::WZ)
            } else {
                s.pc()
            })
            &&& result is Done
        }),
{
    lemma_opcode_fields(opcode);
    let y = (opcode >> 3u8) & 7;
    assert(prefix_table(opcode) is None);
    assert(y as int == (opcode - 0xc0) / 8);
    lemma_condition(y, s.flags());
    jp_cc_step(s, spec_condition(y), 0);
}

/// `jr cc, d` (opcodes 20h, 28h, 30h and 38h): PC moves by the signed offset that follows the
/// opcode, which the decoder leaves in `Z`, exactly when the condition nz, z, nc or c holds.
#[verifier::spinoff_prover]
pub proof fn conditional_relative_jumps(s: StateView, opcode: u8)
    requires
        s.wf(),
        opcode == 0x20 || opcode == 0x28 || opcode == 0x30 || opcode == 0x38,
    ensures
        z80_table(MAIN_TABLE as int, opcode) matches EntryView::Instruction(ExtraBytes::One, micros)
            && micros.len() == 1 && ({
            let (s1, result) = step(s, micros[0]);
            &&& s1.pc() == (if condition_meaning((opcode - 0x20) / 8, s.flags()) {
                (s.pc() + signed_value(s.r8(Register::Z))) % 65536
            } else {
                s.pc() as int
            })
            &&& result is Done
        }),
{
    lemma_opcode_fields(opcode);
    let y = (opcode >> 3u8) & 7;
    assert(low_column(opcode) is None);
    lemma_condition((y - 4) as u8, s.flags());
    jr_cc_step(s, spec_condition((y - 4) as u8), 5, 0);
}

/// `call cc, nn` (opcodes C4h to FCh with bits 2-0 equal to 4): when the condition of bits 5-3
/// holds, the return address is pushed and the address that follows the opcode, in `WZ`, goes to
/// PC; otherwise the instruction ends there, with PC and the stack unchanged.
#[verifier::spinoff_prover]
pub proof fn conditional_calls(s: StateView, t: StateView, opcode: u8)
    requires
        s.wf(),
        t.wf(),
        0xc0 <= opcode,
        opcode % 8 == 4,
    ensures
        z80_table(MAIN_TABLE as int, opcode) matches EntryView::Instruction(ExtraBytes::Two, micros)
            && micros.len() == 2 && ({
            let (s1, result) = step(s, micros[0]);
            let sp = (s.r16(Register16::SP) - 2) % 65536;
            if condition_meaning((opcode - 0xc0) / 8, s.flags()) {
                &&& result == ExecResult::Store16 {
                    address: sp as u16,
                    data: s.bytes(Register16::PC),
                }
                &&& s1.r16(Register16::SP) == sp
                &&& step(t, micros[1]).0.pc() == t.r16(Register16::WZ)
            } else {
                &&& result is Done
                &&& s1.mpc == usize::MAX
                &&& s1.pc() == s.pc()
                &&& s1.r16(Register16::SP) == s.r16(Register16::SP)
            }
        }),
{
    lemma_opcode_fields(opcode);
    let y = (opcode >> 3u8) & 7;
    assert(y as int == (opcode - 0xc0) / 8);
    lemma_condition(y, s.flags());
    let micros = seq![
        Microinstruction::PushPcOrBreak(spec_condition(y), 0),
        Microinstruction::JrMm(1),
    ];
    lemma_call_entry(opcode);
    assert(micros[0] == Microinstruction::PushPcOrBreak(spec_condition(y), 0));
    assert(micros[1] == Microinstruction::JrMm(1));
    push_pc_or_break_step(s, spec_condition(y), 0);
    jr_mm_step(t, 1);
    let wz = s.r16(Register16::WZ);
    register16_read_after_write(s.set_memptr(wz), Register16::SP, Register16::SP, pushed_sp(s));
    register16_read_after_write(t.set_memptr(t.r16(Register16::WZ)), Register16::PC, Register16::PC, t.r16(Register16::WZ));
}

/// `ret cc` (opcodes C0h to F8h with bits 2-0 equal to 0): when the condition of bits 5-3 holds,
/// the word at `SP` is loaded and then popped into PC; otherwise the instruction ends there,
/// with the state unchanged.
#[verifier::spinoff_prover]
pub proof fn conditional_returns(s: StateView, t: StateView, opcode: u8)
    requires
        s.wf(),
        t.wf(),
        0xc0 <= opcode,
        opcode % 8 == 0,
    ensures
        z80_table(MAIN_TABLE as int, opcode) matches EntryView::Instruction(ExtraBytes::Zero, micros)
            && micros.len() == 2 && ({
            let (s1, result) = step(s, micros[0]);
            let (t1, _) = step(t, micros[1]);
            if condition_meaning((opcode - 0xc0) / 8, s.flags()) {
                &&& s1 == s
                &&& result == ExecResult::Load16 { address: s.r16(Register16::SP) }
                &&& t1.pc() == t.r16(Register16::WZ)
                &&& t1.r16(Register16::SP) == (t.r16(Register16::SP) + 2) % 65536
            } else {
                &&& result is Done
                &&& s1 == s.set_mpc(usize::MAX)
            }
        }),
{
    lemma_opcode_fields(opcode);
    let y = (opcode >> 3u8) & 7;
    assert(y as int == (opcode - 0xc0) / 8);
    lemma_condition(y, s.flags());
    let micros = seq![
        Microinstruction::LoadSpOrBreak(spec_condition(y), 1),
        Microinstruction::Ret(1),
    ];
    lemma_return_entry(opcode);
    assert(micros[0] == Microinstruction::LoadSpOrBreak(spec_condition(y), 1));
    assert(micros[1] == Microinstruction::Ret(1));
    load_sp_or_break_step(s, spec_condition(y), 1);
    ret_step(t, 1);
    let wz = t.r16(Register16::WZ);
    let t0 = t.set_memptr(wz).set16(Register16::PC, wz);
    register16_read_after_write(t.set_memptr(wz), Register16::PC, Register16::PC, wz);
    register16_read_after_write(t0, Register16::SP, Register16::PC, add16(t.r16(Register16::SP), 2));
    register16_read_after_write(t0, Register16::SP, Register16::SP, add16(t.r16(Register16::SP), 2));
}

/// How the flags bytes of the increments, decrements, 16-bit additions and block transfers read.
proof fn lemma_merged_flag_shapes(
    g: u8,
    h: u8,
    sz: u8,
    hi: u8,
    h1: bool,
    o1: bool,
    c1: bool,
    pb: u8,
    xb: u8,
    yb: u8,
)
    by (bit_vector)
    requires
        sz == 0 || sz == 0x40 || sz == 0x80,
        pb == 0 || pb == 4,
        xb == 0 || xb == 8,
        yb == 0 || yb == 0x20,
    ensures
        ((g & 0x01) | (h & 0xfe)) as u8 & 0x01 == g & 0x01,
        ((g & 0x01) | (h & 0xfe)) as u8 & 0x02 == h & 0x02,
        ((g & 0x01) | (h & 0xfe)) as u8 & 0x40 == h & 0x40,
        ((g & 0x01) | (h & 0xfe)) as u8 & 0x80 == h & 0x80,
        ((h & 0x39) | (g & 0xc4)) as u8 & 0x01 == h & 0x01,
        ((h & 0x39) | (g & 0xc4)) as u8 & 0x02 == 0,
        ((h & 0x39) | (g & 0xc4)) as u8 & 0x04 == g & 0x04,
        ((h & 0x39) | (g & 0xc4)) as u8 & 0x40 == g & 0x40,
        ((h & 0x39) | (g & 0xc4)) as u8 & 0x80 == g & 0x80,
        (((sz | (hi & 0x28)) | hvc_bits(h1, o1, c1)) as u8 & 0x01 != 0) == c1,
        (((g & 0xc1) | pb) | (xb | yb)) as u8 & 0x01 == g & 0x01,
        (((g & 0xc1) | pb) | (xb | yb)) as u8 & 0x02 == 0,
        ((((g & 0xc1) | pb) | (xb | yb)) as u8 & 0x04 != 0) == (pb == 4),
        (((g & 0xc1) | pb) | (xb | yb)) as u8 & 0x40 == g & 0x40,
        (((g & 0xc1) | pb) | (xb | yb)) as u8 & 0x80 == g & 0x80,
{
}

/// `inc r` and `dec r` (opcodes 04h to 3Dh with bits 2-0 equal to 4 or 5, but for `(hl)`): the
/// register named by bits 5-3 goes up or down by one, modulo 256; the carry is kept, Z and S
/// follow the result, N tells a decrement. Nothing but that register and F changes.
#[verifier::spinoff_prover]
#[verifier::rlimit(60)]
pub proof fn increment_opcodes(s: StateView, opcode: u8)
    requires
        s.wf(),
        opcode < 0x40,
        opcode % 8 == 4 || opcode % 8 == 5,
        (opcode / 8) % 8 != 6,
    ensures
        z80_table(MAIN_TABLE as int, opcode) matches EntryView::Instruction(ExtraBytes::Zero, micros)
            && micros.len() == 1 && ({
            let reg = operand((opcode / 8) % 8);
            let v = s.r8(reg);
            let (s1, result) = step(s, micros[0]);
            let v1 = s1.r8(reg);
            let down = opcode % 8 == 5;
            &&& v1 == (if down {
                (v - 1) % 256
            } else {
                (v + 1) % 256
            })
            &&& carry_set(s1.flags()) == carry_set(s.flags())
            &&& zero_set(s1.flags()) == (v1 == 0)
            &&& sign_set(s1.flags()) == (v1 >= 128)
            &&& subtract_set(s1.flags()) == down
            &&& s1 == s.set8(reg, v1).set_flags(s1.flags())
            &&& result is Done
        }),
{
    lemma_opcode_fields(opcode);
    let y = (opcode >> 3u8) & 7;
    let reg = spec_operand_register(y);
    assert(reg == operand((opcode / 8) % 8));
    assert(prefix_table(opcode) is None);
    let down = opcode % 8 == 5;
    let micro = if down {
        Microinstruction::DecR(reg, 0)
    } else {
        Microinstruction::IncR(reg, 0)
    };
    assert(low_column(opcode) == Some((ExtraBytes::Zero, seq![micro])));
    inc_dec_step(s, reg, 0);
    let v = s.r8(reg);
    let g = s.flags();
    let h = if down {
        sub8_flags(v, 1, false)
    } else {
        add8_flags(v, 1, false)
    };
    if down {
        lemma_difference_flags(v, 1, false);
    } else {
        lemma_sum_flags(v, 1, false);
    }
    lemma_merged_flag_shapes(g, h, 0, 0, false, false, false, 0, 0, 0);
    lemma_flag_bits(g);
    lemma_flag_bits(h);
    lemma_flag_bits(((g & 0x01) | (h & 0xfe)) as u8);
}

/// `djnz d` (opcode 10h): B goes down by one, modulo 256, and PC moves by the signed offset that
/// follows the opcode, which the decoder leaves in `Z`, exactly when B did not reach zero.
#[verifier::spinoff_prover]
pub proof fn decrement_and_jump(s: StateView)
    requires
        s.wf(),
    ensures
        z80_table(MAIN_TABLE as int, 0x10) matches EntryView::Instruction(ExtraBytes::One, micros)
            && micros.len() == 1 && ({
            let (s1, result) = step(s, micros[0]);
            let b1 = (s.r8(Register::B) - 1) % 256;
            &&& s1.r8(Register::B) == b1
            &&& s1.pc() == (if b1 != 0 {
                (s.pc() + signed_value(s.r8(Register::Z))) % 65536
            } else {
                s.pc() as int
            })
            &&& result is Done
        }),
{
    lemma_opcode_fields(0x10);
    assert(low_column(0x10) is None);
    djnz_step(s, 6, 1);
}

/// `neg` (`ED 44`): A becomes 0 minus A, modulo 256, with the flags of that subtraction: the
/// carry tells that A was not zero.
#[verifier::spinoff_prover]
pub proof fn negation(s: StateView)
    requires
        s.wf(),
    ensures
        z80_table(MISC_TABLE as int, 0x44) matches EntryView::Instruction(ExtraBytes::Zero, micros)
            && micros.len() == 1 && ({
            let a = s.r8(Register::A);
            let (s1, result) = step(s, micros[0]);
            let a1 = s1.r8(Register::A);
            &&& a1 == (256 - a) % 256
            &&& carry_set(s1.flags()) == (a != 0)
            &&& zero_set(s1.flags()) == (a == 0)
            &&& sign_set(s1.flags()) == (a1 >= 128)
            &&& subtract_set(s1.flags())
            &&& s1 == s.set8(Register::A, a1).set_flags(s1.flags())
            &&& result is Done
        }),
{
    lemma_opcode_fields(0x44);
    assert(misc_column(0x44) is None);
    neg_step(s, 8);
    lemma_difference_flags(0, s.r8(Register::A), false);
}

/// The register pair that bits 5-4 of an opcode name: BC, DE, HL, then SP.
pub open spec fn pair_operand(code: u8) -> Register16 {
    if code == 0 {
        Register16::BC
    } else if code == 1 {
        Register16::DE
    } else if code == 2 {
        Register16::HL
    } else {
        Register16::SP
    }
}

/// `add hl, rr` (opcodes 09h, 19h, 29h and 39h): HL becomes HL plus the pair named by bits 5-4,
/// modulo 65536; the carry tells that the sum did not fit, N is cleared, and S, Z and P/V are
/// kept.
#[verifier::spinoff_prover]
#[verifier::rlimit(60)]
pub proof fn word_additions(s: StateView, opcode: u8)
    requires
        s.wf(),
        opcode < 0x40,
        opcode % 16 == 9,
    ensures
        z80_table(MAIN_TABLE as int, opcode) matches EntryView::Instruction(ExtraBytes::Zero, micros)
            && micros.len() == 1 && ({
            let hl = s.r16(Register16::HL);
            let rr = s.r16(pair_operand(opcode / 16));
            let f = s.flags();
            let (s1, result) = step(s, micros[0]);
            &&& s1.r16(Register16::HL) == (hl + rr) % 65536
            &&& carry_set(s1.flags()) == (hl + rr > 65535)
            &&& !subtract_set(s1.flags())
            &&& zero_set(s1.flags()) == zero_set(f)
            &&& sign_set(s1.flags()) == sign_set(f)
            &&& parity_set(s1.flags()) == parity_set(f)
            &&& result is Done
        }),
{
    lemma_opcode_fields(opcode);
    let p = ((opcode >> 3u8) & 7) >> 1u8;
    let rr = spec_pair(p);
    assert(rr == pair_operand(opcode / 16));
    assert(prefix_table(opcode) is None);
    assert(low_column(opcode) == Some(
        (ExtraBytes::Zero, seq![Microinstruction::AddRrRr(Register16::HL, rr, 7)]),
    ));
    add_rr_rr_step(s, Register16::HL, rr, 7);
    let va = s.r16(Register16::HL);
    let vb = s.r16(rr);
    let g = s.flags();
    let h = add16_flags(va, vb, false);
    let r = add16c(va, vb, false);
    let sum = signed16(va) + signed16(vb) + carry_value(false);
    lemma_merged_flag_shapes(
        g,
        h,
        if r == 0 {
            0x40u8
        } else if r >= 0x8000 {
            0x80u8
        } else {
            0u8
        },
        high_byte(r),
        va % 0x1000 + vb % 0x1000 + carry_value(false) >= 0x1000,
        sum < -0x8000 || sum > 0x7fff,
        va + vb + carry_value(false) > 0xffff,
        0,
        0,
        0,
    );
    let f1 = ((h & 0x39) | (g & 0xc4)) as u8;
    lemma_flag_bits(g);
    lemma_flag_bits(h);
    lemma_flag_bits(f1);
    let s0 = s.set_memptr(add16(va, 1)).set_flags(f1);
    register16_read_after_write(s0, Register16::HL, Register16::HL, r);
}

/// `rst p` (opcodes C7h to FFh with bits 2-0 equal to 7): the return address is pushed and PC
/// goes to the opcode minus C7h, that is bits 5-3 times eight.
#[verifier::spinoff_prover]
pub proof fn restarts(s: StateView, t: StateView, opcode: u8)
    requires
        s.wf(),
        t.wf(),
        0xc0 <= opcode,
        opcode % 8 == 7,
    ensures
        z80_table(MAIN_TABLE as int, opcode) matches EntryView::Instruction(ExtraBytes::Zero, micros)
            && micros.len() == 2 && ({
            let (s1, pushed) = step(s, micros[0]);
            let sp = (s.r16(Register16::SP) - 2) % 65536;
            &&& pushed == ExecResult::Store16 { address: sp as u16, data: s.bytes(Register16::PC) }
            &&& s1.r16(Register16::SP) == sp
            &&& step(t, micros[1]).0.pc() == opcode - 0xc7
        }),
{
    lemma_opcode_fields(opcode);
    let y = (opcode >> 3u8) & 7;
    assert(prefix_table(opcode) is None);
    assert(high_column(opcode) == Some(
        (
            ExtraBytes::Zero,
            seq![Microinstruction::Push(Register16::PC), Microinstruction::JumpTo((y * 8) as u16, 1)],
        ),
    ));
    push_step(s, Register16::PC);
    register16_read_after_write(s, Register16::SP, Register16::SP, pushed_sp(s));
    register16_read_after_write(s, Register16::SP, Register16::PC, pushed_sp(s));
    jump_to_step(t, (y * 8) as u16, 1);
    register16_read_after_write(
        t.set_memptr((y * 8) as u16),
        Register16::PC,
        Register16::PC,
        (y * 8) as u16,
    );
}

/// The documented meaning of a block transfer step: the byte at `HL` has gone to `DE`; HL and
/// DE move up when `forward`, else down, and BC counts down. C, Z and S are kept, N is cleared and
/// P/V tells whether BC is still nonzero. PC moves back over the two bytes of the instruction when
/// `again`.
pub open spec fn block_transfer_meaning(s: StateView, forward: bool, again: bool, s1: StateView) -> bool {
    let hl = s.r16(Register16::HL) as int;
    let de = s.r16(Register16::DE) as int;
    let bc1 = (s.r16(Register16::BC) - 1) % 65536;
    let f = s.flags();
    &&& s1.r16(Register16::HL) == (if forward {
        (hl + 1) % 65536
    } else {
        (hl - 1) % 65536
    })
    &&& s1.r16(Register16::DE) == (if forward {
        (de + 1) % 65536
    } else {
        (de - 1) % 65536
    })
    &&& s1.r16(Register16::BC) == bc1
    &&& s1.r8(Register::A) == s.r8(Register::A)
    &&& carry_set(s1.flags()) == carry_set(f)
    &&& zero_set(s1.flags()) == zero_set(f)
    &&& sign_set(s1.flags()) == sign_set(f)
    &&& !subtract_set(s1.flags())
    &&& parity_set(s1.flags()) == (bc1 != 0)
    &&& s1.pc() == (if again {
        (s.pc() - 2) % 65536
    } else {
        s.pc() as int
    })
}

/// The flags after a block transfer step, `bc` being the decremented counter and `g` the flags
/// before.
proof fn lemma_block_transfer_flags(g: u8, a: u8, byte: u8, bc: u16)
    ensures
        ({
            let f1 = ldx_flags(g, a, byte, bc);
            &&& carry_set(f1) == carry_set(g)
            &&& zero_set(f1) == zero_set(g)
            &&& sign_set(f1) == sign_set(g)
            &&& !subtract_set(f1)
            &&& parity_set(f1) == (bc != 0)
        }),
{
    let za = ((byte + a) % 256) as u8;
    lemma_merged_flag_shapes(
        g,
        0,
        0,
        0,
        false,
        false,
        false,
        if bc != 0 {
            0x04u8
        } else {
            0u8
        },
        if za & 0x08 != 0 {
            0x08u8
        } else {
            0u8
        },
        if za & 0x02 != 0 {
            0x20u8
        } else {
            0u8
        },
    );
    lemma_flag_bits(g);
    lemma_flag_bits(ldx_flags(g, a, byte, bc));
}

/// The registers after the transfer step of `ldi` (offset 1) or `ldd` (offset -1).
proof fn lemma_ldx_state(s: StateView, offset: int)
    requires
        s.wf(),
        offset == 1 || offset == -1,
    ensures
        block_transfer_meaning(s, offset == 1, false, ldx_state(s, offset)),
        ldx_state(s, offset).wf(),
{
    let bc = add16(s.r16(Register16::BC), -1);
    let de = add16(s.r16(Register16::DE), offset);
    let hl = add16(s.r16(Register16::HL), offset);
    let s1 = s.set16(Register16::DE, de);
    let s2 = s1.set16(Register16::HL, hl);
    let s3 = s2.set16(Register16::BC, bc);
    register16_read_after_write(s, Register16::DE, Register16::DE, de);
    register16_read_after_write(s, Register16::DE, Register16::HL, de);
    register16_read_after_write(s, Register16::DE, Register16::BC, de);
    register16_read_after_write(s, Register16::DE, Register16::PC, de);
    register16_read_after_write(s1, Register16::HL, Register16::HL, hl);
    register16_read_after_write(s1, Register16::HL, Register16::DE, hl);
    register16_read_after_write(s1, Register16::HL, Register16::BC, hl);
    register16_read_after_write(s1, Register16::HL, Register16::PC, hl);
    register16_read_after_write(s2, Register16::BC, Register16::BC, bc);
    register16_read_after_write(s2, Register16::BC, Register16::DE, bc);
    register16_read_after_write(s2, Register16::BC, Register16::HL, bc);
    register16_read_after_write(s2, Register16::BC, Register16::PC, bc);
    lemma_block_transfer_flags(s.flags(), s.r8(Register::A), s.r8(Register::Z), bc);
}

/// `ldir` and `lddr` transfer, and go again while BC is nonzero.
proof fn lemma_ldxr_state(s: StateView, offset: int)
    requires
        s.wf(),
        offset == 1 || offset == -1,
    ensures
        block_transfer_meaning(
            s,
            offset == 1,
            add16(s.r16(Register16::BC), -1) != 0,
            ldxr_state(s, offset),
        ),
{
    let t = ldx_state(s, offset);
    lemma_ldx_state(s, offset);
    if t.r16(Register16::BC) != 0 {
        let back = add16(t.pc(), -2);
        let t1 = t.set_memptr(add16(t.pc(), -1));
        register16_read_after_write(t1, Register16::PC, Register16::PC, back);
        register16_read_after_write(t1, Register16::PC, Register16::HL, back);
        register16_read_after_write(t1, Register16::PC, Register16::DE, back);
        register16_read_after_write(t1, Register16::PC, Register16::BC, back);
    }
}

/// The entries of the block transfers.
proof fn lemma_block_transfer_entry(opcode: u8)
    requires
        opcode == 0xa0 || opcode == 0xa8 || opcode == 0xb0 || opcode == 0xb8,
    ensures
        ({
            let y = (opcode >> 3u8) & 7;
            z80_table(MISC_TABLE as int, opcode) == EntryView::Instruction(
                ExtraBytes::Zero,
                seq![
                    Microinstruction::Load(Address::Register(Register16::HL)),
                    Microinstruction::Store(Address::Register(Register16::DE), Register::Z),
                    Microinstruction::Block(
                        spec_block_op(y, opcode & 7),
                        if y >= 6 {
                            21
                        } else {
                            16
                        },
                        16,
                    ),
                ],
            )
        }),
{
    lemma_opcode_fields(opcode);
}

/// The last step of the block transfers.
#[verifier::spinoff_prover]
proof fn lemma_transfer_step(s: StateView, op: BlockOp, cycles: u32)
    requires
        s.wf(),
        op == BlockOp::Ldi || op == BlockOp::Ldd || op == BlockOp::Ldir || op == BlockOp::Lddr,
        cycles == (if op == BlockOp::Ldir || op == BlockOp::Lddr {
            21u32
        } else {
            16u32
        }),
    ensures
        ({
            let (s1, result) = block_step(s, op, cycles, 16);
            let repeating = op == BlockOp::Ldir || op == BlockOp::Lddr;
            let again = repeating && (s.r16(Register16::BC) - 1) % 65536 != 0;
            &&& block_transfer_meaning(s, op == BlockOp::Ldi || op == BlockOp::Ldir, again, s1)
            &&& result == ExecResult::Done(
                if again {
                    21
                } else {
                    16
                },
            )
        }),
{
    let bc = s.r16(Register16::BC);
    assert((bc != 1) == ((bc - 1) % 65536 != 0));
    assert(add16(bc, -1) == (bc - 1) % 65536);
    if op == BlockOp::Ldi {
        assert(block_step(s, op, cycles, 16) == (ldx_state(s, 1), ExecResult::Done(16)));
        lemma_ldx_state(s, 1);
    } else if op == BlockOp::Ldd {
        assert(block_step(s, op, cycles, 16) == (ldx_state(s, -1), ExecResult::Done(16)));
        lemma_ldx_state(s, -1);
    } else if op == BlockOp::Ldir {
        assert(block_step(s, op, cycles, 16) == (ldxr_state(s, 1), ldxr_result(s, 21, 16)));
        lemma_ldxr_state(s, 1);
    } else {
        assert(block_step(s, op, cycles, 16) == (ldxr_state(s, -1), ldxr_result(s, 21, 16)));
        lemma_ldxr_state(s, -1);
    }
}

/// `ED A0` (`ldi`), `ED A8` (`ldd`), `ED B0` (`ldir`) and `ED B8` (`lddr`): the byte at `HL` is
/// loaded into `Z` and stored at `DE`, then the registers move as [block_transfer_meaning] says:
/// up for `ldi` and `ldir`, down for the others. `ldir` and `lddr` run again (PC moves back to the
/// instruction) exactly when BC is still nonzero.
#[verifier::spinoff_prover]
#[verifier::rlimit(90)]
pub proof fn block_transfer_opcodes(s: StateView, opcode: u8)
    requires
        s.wf(),
        opcode == 0xa0 || opcode == 0xa8 || opcode == 0xb0 || opcode == 0xb8,
    ensures
        z80_table(MISC_TABLE as int, opcode) matches EntryView::Instruction(ExtraBytes::Zero, micros)
            && micros.len() == 3 && step(s, micros[0]) == (s, ExecResult::Load {
            address: s.r16(Register16::HL),
        }) && step(s, micros[1]) == (s, ExecResult::Store {
            address: s.r16(Register16::DE),
            data: s.r8(Register::Z),
        }) && ({
            let (s1, result) = step(s, micros[2]);
            let repeating = opcode == 0xb0 || opcode == 0xb8;
            let again = repeating && (s.r16(Register16::BC) - 1) % 65536 != 0;
            &&& block_transfer_meaning(s, opcode == 0xa0 || opcode == 0xb0, again, s1)
            &&& result == ExecResult::Done(
                if again {
                    21
                } else {
                    16
                },
            )
        }),
{
    lemma_block_transfer_entry(opcode);
    lemma_opcode_fields(opcode);
    let y = (opcode >> 3u8) & 7;
    let z = opcode & 7;
    let op = spec_block_op(y, z);
    let cycles: u32 = if y >= 6 {
        21
    } else {
        16
    };
    let micros = seq![
        Microinstruction::Load(Address::Register(Register16::HL)),
        Microinstruction::Store(Address::Register(Register16::DE), Register::Z),
        Microinstruction::Block(op, cycles, 16),
    ];
    assert(micros[1] == Microinstruction::Store(Address::Register(Register16::DE), Register::Z));
    assert(micros[2] == Microinstruction::Block(op, cycles, 16));
    assert(step(s, Microinstruction::Load(Address::Register(Register16::HL))) == (
        s,
        ExecResult::Load { address: s.r16(Register16::HL) },
    ));
    assert(step(s, Microinstruction::Store(Address::Register(Register16::DE), Register::Z)) == (
        s,
        ExecResult::Store { address: s.r16(Register16::DE), data: s.r8(Register::Z) },
    ));
    block_micro_step(s, op, cycles, 16);
    lemma_transfer_step(s, op, cycles);
}

/// The weight of bit `b` of a byte: two to the power `b`.
pub open spec fn bit_weight(b: int) -> int {
    if b == 0 {
        1
    } else if b == 1 {
        2
    } else if b == 2 {
        4
    } else if b == 3 {
        8
    } else if b == 4 {
        16
    } else if b == 5 {
        32
    } else if b == 6 {
        64
    } else {
        128
    }
}

/// Is bit `b` of `v` set?
pub open spec fn bit_is_set(v: u8, b: int) -> bool {
    (v as int / bit_weight(b)) % 2 == 1
}

/// The mask of a bit number, as a number.
proof fn lemma_bit_mask(n: u32)
    by (bit_vector)
    requires
        n < 8,
    ensures
        bit_mask(n) == (if n == 0 {
            1u8
        } else if n == 1 {
            2u8
        } else if n == 2 {
            4u8
        } else if n == 3 {
            8u8
        } else if n == 4 {
            16u8
        } else if n == 5 {
            32u8
        } else if n == 6 {
            64u8
        } else {
            128u8
        }),
{
}

/// Testing, clearing and setting the bit of weight `m` in `v`.
proof fn lemma_single_bit(v: u8, m: u8, g: u8, p: u8)
    by (bit_vector)
    requires
        m == 1 || m == 2 || m == 4 || m == 8 || m == 16 || m == 32 || m == 64 || m == 128,
        p == 0 || p == 4,
    ensures
        ((v & m) != 0) == ((v / m) % 2 == 1),
        (v & !m) == (if v & m != 0 {
            (v - m) as u8
        } else {
            v
        }),
        (v | m) == (if v & m != 0 {
            v
        } else {
            (v + m) as u8
        }),
        (((((g & 0x01) | value_bits((v & m) as u8)) | (v & 0x28)) | p) | 0x10u8) as u8 & 0x01 == g
            & 0x01,
        (((((g & 0x01) | value_bits((v & m) as u8)) | (v & 0x28)) | p) | 0x10u8) as u8 & 0x02 == 0,
        ((((((g & 0x01) | value_bits((v & m) as u8)) | (v & 0x28)) | p) | 0x10u8) as u8 & 0x40 != 0)
            == (v & m == 0),
{
}

/// `CB` opcodes 40h to FFh with a register operand (bits 2-0 other than 6): `bit b, r` (40h to
/// 7Fh) sets Z exactly when bit `b` (bits 5-3) of the register named by bits 2-0 is clear, keeps
/// the carry and clears N, changing nothing but F; `res b, r` (80h to BFh) clears that bit and
/// `set b, r` (C0h to FFh) sets it, changing nothing but the register.
#[verifier::spinoff_prover]
#[verifier::rlimit(60)]
pub proof fn bit_opcodes_on_registers(s: StateView, opcode: u8)
    requires
        s.wf(),
        0x40 <= opcode,
        opcode % 8 != 6,
    ensures
        z80_table(BIT_TABLE as int, opcode) matches EntryView::Instruction(ExtraBytes::Zero, micros)
            && micros.len() == 1 && ({
            let reg = operand(opcode % 8);
            let b = ((opcode / 8) % 8) as int;
            let v = s.r8(reg);
            let (s1, result) = step(s, micros[0]);
            let v1 = s1.r8(reg);
            &&& opcode < 0x80 ==> {
                &&& zero_set(s1.flags()) == !bit_is_set(v, b)
                &&& carry_set(s1.flags()) == carry_set(s.flags())
                &&& !subtract_set(s1.flags())
                &&& s1 == s.set_flags(s1.flags())
            }
            &&& 0x80 <= opcode < 0xc0 ==> {
                &&& v1 == (if bit_is_set(v, b) {
                    v - bit_weight(b)
                } else {
                    v as int
                })
                &&& s1 == s.set8(reg, v1)
            }
            &&& 0xc0 <= opcode ==> {
                &&& v1 == (if bit_is_set(v, b) {
                    v as int
                } else {
                    v + bit_weight(b)
                })
                &&& s1 == s.set8(reg, v1)
            }
            &&& result is Done
        }),
{
    lemma_opcode_fields(opcode);
    let y = (opcode >> 3u8) & 7;
    let n = y as u32;
    let reg = spec_operand_register(opcode & 7);
    assert(reg == operand(opcode % 8));
    bit_ops_step(s, reg, n, 0);
    lemma_bit_mask(n);
    let m = bit_mask(n);
    assert(m as int == bit_weight(y as int));
    let v = s.r8(reg);
    let g = s.flags();
    let bit = (v & m) as u8;
    lemma_single_bit(v, m, g, parity_bits(bit));
    lemma_flag_bits(g);
    let f1 = (((((g & 0x01) | value_bits(bit)) | (v & 0x28)) | parity_bits(bit)) | 0x10u8) as u8;
    lemma_flag_bits(f1);
    assert(s.set8(reg, v).regs =~= s.regs);
    assert(s.set_flags(f1).r8(reg) == v);
}

/// `ld r, r'` (opcodes 40h to 7Fh, but for `halt` and `(hl)`): the register named by bits 5-3
/// takes the value of the register named by bits 2-0, and nothing else changes.
#[verifier::spinoff_prover]
pub proof fn register_loads(s: StateView, opcode: u8)
    requires
        s.wf(),
        0x40 <= opcode < 0x80,
        opcode % 8 != 6,
        (opcode / 8) % 8 != 6,
    ensures
        z80_table(MAIN_TABLE as int, opcode) matches EntryView::Instruction(ExtraBytes::Zero, micros)
            && micros.len() == 1 && step(s, micros[0]).0 == s.set8(
            operand((opcode / 8) % 8),
            s.r8(operand(opcode % 8)),
        ),
{
    lemma_opcode_fields(opcode);
    let dst = spec_operand_register((opcode >> 3u8) & 7);
    let src = spec_operand_register(opcode & 7);
    assert(dst == operand((opcode / 8) % 8));
    assert(src == operand(opcode % 8));
    assert(load_micros(opcode) == seq![Microinstruction::LdRR(dst, src, 0)]);
    register_moves_step(s, dst, src, Register16::BC, Register16::BC, 0);
}

/// `ld r, (hl)` and `ld (hl), r` (opcodes 40h to 7Fh with bits 2-0, or bits 5-3, equal to 6, but
/// for `halt`): the byte at `HL` is loaded into `Z` and then copied into the register named by
/// bits 5-3; or the register named by bits 2-0 is stored at `HL`.
#[verifier::spinoff_prover]
pub proof fn memory_loads_and_stores(s: StateView, opcode: u8)
    requires
        s.wf(),
        0x40 <= opcode < 0x80,
        opcode != 0x76,
        opcode % 8 == 6 || (opcode / 8) % 8 == 6,
    ensures
        z80_table(MAIN_TABLE as int, opcode) matches EntryView::Instruction(ExtraBytes::Zero, micros)
            && micros.len() == 2 && (if opcode % 8 == 6 {
            &&& step(s, micros[0]) == (s, ExecResult::Load { address: s.r16(Register16::HL) })
            &&& step(s, micros[1]).0 == s.set8(
                operand((opcode / 8) % 8),
                s.r8(Register::Z),
            )
        } else {
            step(s, micros[0]) == (s, ExecResult::Store {
                address: s.r16(Register16::HL),
                data: s.r8(operand(opcode % 8)),
            })
        }),
{
    lemma_opcode_fields(opcode);
    let dst = spec_operand_register((opcode >> 3u8) & 7);
    let src = spec_operand_register(opcode & 7);
    let hl = Address::Register(Register16::HL);
    if opcode % 8 == 6 {
        assert(dst == operand((opcode / 8) % 8));
        let micros = seq![Microinstruction::Load(hl), Microinstruction::LdRR(dst, Register::Z, 0)];
        assert(load_micros(opcode) == micros);
        assert(micros[1] == Microinstruction::LdRR(dst, Register::Z, 0));
        register_moves_step(s, dst, Register::Z, Register16::BC, Register16::BC, 0);
    } else {
        assert(src == operand(opcode % 8));
        assert(load_micros(opcode) == seq![Microinstruction::Store(hl, src), Microinstruction::Done(0)]);
    }
}

/// `ld r, n` (opcodes 06h to 3Eh with bits 2-0 equal to 6, but for `(hl)`): the register named by
/// bits 5-3 takes the byte that follows the opcode, which the decoder leaves in `Z`.
#[verifier::spinoff_prover]
pub proof fn immediate_loads(s: StateView, opcode: u8)
    requires
        s.wf(),
        opcode < 0x40,
        opcode % 8 == 6,
        opcode / 8 != 6,
    ensures
        z80_table(MAIN_TABLE as int, opcode) matches EntryView::Instruction(ExtraBytes::One, micros)
            && micros.len() == 1 && step(s, micros[0]).0 == s.set8(
            operand(opcode / 8),
            s.r8(Register::Z),
        ),
{
    lemma_opcode_fields(opcode);
    let reg = spec_operand_register((opcode >> 3u8) & 7);
    assert(reg == operand(opcode / 8));
    assert(prefix_table(opcode) is None);
    assert(low_column(opcode) == Some((ExtraBytes::One, seq![Microinstruction::LdRN(reg, 0)])));
    register_moves_step(s, reg, reg, Register16::BC, Register16::BC, 0);
}

/// The entries of the main table up to 3Fh that follow the columns of bits 2-0.
proof fn lemma_low_entry(opcode: u8)
    requires
        opcode < 0x40,
        low_column(opcode) is Some,
    ensures
        low_column(opcode) matches Some((extra, micros)) && z80_table(MAIN_TABLE as int, opcode)
            == EntryView::Instruction(extra, micros),
{
    assert(prefix_table(opcode) is None);
}

/// `ld rr, nn` (opcodes 01h, 11h, 21h and 31h): the pair named by bits 5-4 (BC, DE, HL, SP)
/// takes the word that follows the opcode, which the decoder leaves in `WZ`.
#[verifier::spinoff_prover]
pub proof fn word_loads(s: StateView, opcode: u8)
    requires
        s.wf(),
        opcode < 0x40,
        opcode % 16 == 1,
    ensures
        z80_table(MAIN_TABLE as int, opcode) matches EntryView::Instruction(ExtraBytes::Two, micros)
            && micros.len() == 1 && step(s, micros[0]).0 == s.set16(
            pair_operand(opcode / 16),
            s.r16(Register16::WZ),
        ),
{
    lemma_opcode_fields(opcode);
    let pair = spec_pair(((opcode >> 3u8) & 7) >> 1u8);
    assert(pair == pair_operand(opcode / 16));
    assert(low_column(opcode) == Some((ExtraBytes::Two, seq![Microinstruction::LdRrNn(pair, 0)])));
    lemma_low_entry(opcode);
    register_moves_step(s, Register::A, Register::A, pair, pair, 0);
}

/// `inc rr` and `dec rr` (opcodes 03h and 0Bh plus 16 times the pair): the pair named by bits 5-4
/// (BC, DE, HL, SP) goes up or down by one, modulo 65536, and nothing else changes.
#[verifier::spinoff_prover]
pub proof fn word_increments(s: StateView, opcode: u8)
    requires
        s.wf(),
        opcode < 0x40,
        opcode % 16 == 3 || opcode % 16 == 11,
    ensures
        z80_table(MAIN_TABLE as int, opcode) matches EntryView::Instruction(ExtraBytes::Zero, micros)
            && micros.len() == 1 && ({
            let pair = pair_operand(opcode / 16);
            let v = s.r16(pair) as int;
            step(s, micros[0]).0 == s.set16(
                pair,
                (if opcode % 16 == 3 {
                    (v + 1) % 65536
                } else {
                    (v - 1) % 65536
                }) as u16,
            )
        }),
{
    lemma_opcode_fields(opcode);
    let pair = spec_pair(((opcode >> 3u8) & 7) >> 1u8);
    assert(pair == pair_operand(opcode / 16));
    register_moves_step(s, Register::A, Register::A, pair, pair, 2);
    if opcode % 16 == 3 {
        assert(low_column(opcode) == Some((ExtraBytes::Zero, seq![Microinstruction::IncRr(pair, 2)])));
    } else {
        assert(low_column(opcode) == Some((ExtraBytes::Zero, seq![Microinstruction::DecRr(pair, 2)])));
    }
    lemma_low_entry(opcode);
}

/// The register pair that bits 5-4 of a `push` or `pop` opcode name: BC, DE, HL, then AF.
pub open spec fn stack_operand(code: int) -> Register16 {
    if code == 0 {
        Register16::BC
    } else if code == 1 {
        Register16::DE
    } else if code == 2 {
        Register16::HL
    } else {
        Register16::AF
    }
}

/// `push qq` and `pop qq` (opcodes C5h and C1h plus 16 times the pair, BC, DE, HL or AF): `push`
/// moves SP down by two and stores the pair there; `pop` loads the word at SP, moves SP up by two,
/// and then puts the loaded word, left in `WZ`, in the pair.
#[verifier::spinoff_prover]
pub proof fn stack_opcodes(s: StateView, t: StateView, opcode: u8)
    requires
        s.wf(),
        t.wf(),
        0xc0 <= opcode,
        opcode % 16 == 1 || opcode % 16 == 5,
    ensures
        z80_table(MAIN_TABLE as int, opcode) matches EntryView::Instruction(ExtraBytes::Zero, micros)
            && micros.len() == 2 && ({
            let pair = stack_operand((opcode - 0xc0) / 16);
            let sp = s.r16(Register16::SP) as int;
            if opcode % 16 == 5 {
                step(s, micros[0]) == (
                    s.set16(Register16::SP, ((sp - 2) % 65536) as u16),
                    ExecResult::Store16 { address: ((sp - 2) % 65536) as u16, data: s.bytes(pair) },
                )
            } else {
                &&& step(s, micros[0]) == (
                    s.set16(Register16::SP, ((sp + 2) % 65536) as u16),
                    ExecResult::Load16 { address: sp as u16 },
                )
                &&& step(t, micros[1]).0 == t.set16(pair, t.r16(Register16::WZ))
            }
        }),
{
    lemma_opcode_fields(opcode);
    let pair = spec_stack_pair(((opcode >> 3u8) & 7) >> 1u8);
    assert(pair == stack_operand((opcode - 0xc0) / 16));
    assert(prefix_table(opcode) is None);
    if opcode % 16 == 5 {
        let micros = seq![Microinstruction::Push(pair), Microinstruction::Done(1)];
        assert(high_column(opcode) == Some((ExtraBytes::Zero, micros)));
        push_step(s, pair);
        assert(s.set16(Register16::SP, pushed_sp(s)).bytes(pair) == s.bytes(pair));
    } else {
        let micros = seq![Microinstruction::Pop, Microinstruction::LdRrRr(pair, Register16::WZ, 0)];
        assert(high_column(opcode) == Some((ExtraBytes::Zero, micros)));
        assert(micros[1] == Microinstruction::LdRrRr(pair, Register16::WZ, 0));
        pop_step(s);
        register_moves_step(t, Register::A, Register::A, pair, Register16::WZ, 0);
    }
}

/// How the flags bytes of the operations of the main table's column 7 read.
proof fn lemma_accumulator_flag_shapes(f: u8, v: u8, cb: u8, hb: u8)
    by (bit_vector)
    requires
        cb == 0 || cb == 1,
        hb == 0 || hb == 0x10,
    ensures
        (((f & 0xc4) | (v & 0x28)) | cb) as u8 & 0x01 == cb,
        (((f & 0xc4) | (v & 0x28)) | cb) as u8 & 0x02 == 0,
        (((f & 0xc4) | (v & 0x28)) | cb) as u8 & 0xc4 == f & 0xc4,
        ((((f & 0xc5) | 0x02u8) | 0x10u8) | (v & 0x28)) as u8 & 0x01 == f & 0x01,
        ((((f & 0xc5) | 0x02u8) | 0x10u8) | (v & 0x28)) as u8 & 0x02 != 0,
        ((((f & 0xc5) | 0x02u8) | 0x10u8) | (v & 0x28)) as u8 & 0xc4 == f & 0xc4,
        (((f & 0xc4) | 0x01u8) | (v & 0x28)) as u8 & 0x01 != 0,
        (((f & 0xc4) | 0x01u8) | (v & 0x28)) as u8 & 0x02 == 0,
        (((f & 0xc4) | 0x01u8) | (v & 0x28)) as u8 & 0xc4 == f & 0xc4,
        ((((f & 0xc4) | hb) | cb) | (v & 0x28)) as u8 & 0x01 == cb,
        ((((f & 0xc4) | hb) | cb) | (v & 0x28)) as u8 & 0x02 == 0,
        ((((f & 0xc4) | hb) | cb) | (v & 0x28)) as u8 & 0xc4 == f & 0xc4,
        !v == (255u8 - v) as u8,
        (f & 0xc4 == v & 0xc4) ==> ((f & 0x04 == v & 0x04) && (f & 0x40 == v & 0x40) && (f & 0x80
            == v & 0x80)),
{
}

/// The documented meaning of the opcodes of the main table's column 7 but `daa`: `rlca` (07h),
/// `rrca` (0Fh), `rla` (17h), `rra` (1Fh), `cpl` (2Fh), `scf` (37h) and `ccf` (3Fh), with `a` in A
/// and the flags `f` before, leaving `a1` in A and `f1` in F. All of them keep S, Z and P/V.
/// `rlca` and `rla` move bit 7 of A into the carry, `rrca` and `rra` bit 0, with the old carry
/// going into A for `rla` and `rra`; `cpl` complements A and sets N; `scf` sets the carry and
/// `ccf` inverts it.
pub open spec fn column_meaning(opcode: int, a: u8, f: u8, a1: u8, f1: u8) -> bool {
    let c = carry_in(f);
    &&& zero_set(f1) == zero_set(f)
    &&& sign_set(f1) == sign_set(f)
    &&& parity_set(f1) == parity_set(f)
    &&& opcode == 0x07 ==> a1 == (2 * a) % 256 + a / 128 && carry_set(f1) == (a >= 128)
        && !subtract_set(f1)
    &&& opcode == 0x0f ==> a1 == a / 2 + 128 * (a % 2) && carry_set(f1) == (a % 2 == 1)
        && !subtract_set(f1)
    &&& opcode == 0x17 ==> a1 == (2 * a + c) % 256 && carry_set(f1) == (a >= 128)
        && !subtract_set(f1)
    &&& opcode == 0x1f ==> a1 == a / 2 + 128 * c && carry_set(f1) == (a % 2 == 1)
        && !subtract_set(f1)
    &&& opcode == 0x2f ==> a1 == 255 - a && carry_set(f1) == carry_set(f) && subtract_set(f1)
    &&& opcode == 0x37 ==> a1 == a && carry_set(f1) && !subtract_set(f1)
    &&& opcode == 0x3f ==> a1 == a && carry_set(f1) == !carry_set(f) && !subtract_set(f1)
}

/// The flags `f1` keep S, Z and P/V of `f`.
proof fn lemma_keeps_szp(f: u8, f1: u8)
    requires
        f1 & 0xc4 == f & 0xc4,
    ensures
        zero_set(f1) == zero_set(f),
        sign_set(f1) == sign_set(f),
        parity_set(f1) == parity_set(f),
{
    lemma_accumulator_flag_shapes(f, f1, 0, 0);
    lemma_flag_bits(f);
    lemma_flag_bits(f1);
}

/// The rotations of the accumulator.
#[verifier::spinoff_prover]
proof fn lemma_accumulator_rotation(s: StateView, opcode: u8)
    requires
        s.wf(),
        opcode == 0x07 || opcode == 0x0f || opcode == 0x17 || opcode == 0x1f,
    ensures
        ({
            let s1 = if opcode == 0x07 {
                rlca_state(s)
            } else if opcode == 0x0f {
                rrca_state(s)
            } else if opcode == 0x17 {
                rla_state(s)
            } else {
                rra_state(s)
            };
            &&& column_meaning(opcode as int, s.r8(Register::A), s.flags(), s1.r8(Register::A), s1.flags())
            &&& s1 == s.set8(Register::A, s1.r8(Register::A)).set_flags(s1.flags())
        }),
{
    let a = s.r8(Register::A);
    let f = s.flags();
    let cb = carry_bit(f);
    lemma_flag_bits(f);
    lemma_rotated_left(a);
    lemma_rotation_values(a, cb);
    let high: u8 = if a & 0x80 != 0 {
        1
    } else {
        0
    };
    let low: u8 = if a & 0x01 != 0 {
        1
    } else {
        0
    };
    let v = if opcode == 0x07 {
        rol8(a)
    } else if opcode == 0x0f {
        ror8(a)
    } else if opcode == 0x17 {
        ((a << 1u8) | cb) as u8
    } else {
        ((a >> 1u8) | (cb << 7u8)) as u8
    };
    let k = if opcode == 0x07 || opcode == 0x17 {
        high
    } else {
        low
    };
    lemma_accumulator_flag_shapes(f, v, k, 0);
    let f1 = (((f & 0xc4) | (v & 0x28)) | k) as u8;
    lemma_flag_bits(f1);
    lemma_keeps_szp(f, f1);
}

/// `cpl`, `scf` and `ccf`.
#[verifier::spinoff_prover]
proof fn lemma_accumulator_flags_ops(s: StateView, opcode: u8)
    requires
        s.wf(),
        opcode == 0x2f || opcode == 0x37 || opcode == 0x3f,
    ensures
        ({
            let s1 = if opcode == 0x2f {
                cpl_state(s)
            } else if opcode == 0x37 {
                scf_state(s)
            } else {
                ccf_state(s)
            };
            &&& column_meaning(opcode as int, s.r8(Register::A), s.flags(), s1.r8(Register::A), s1.flags())
            &&& s1 == s.set8(Register::A, s1.r8(Register::A)).set_flags(s1.flags())
        }),
{
    let a = s.r8(Register::A);
    let f = s.flags();
    lemma_flag_bits(f);
    assert(s.set8(Register::A, a).regs =~= s.regs);
    if opcode == 0x2f {
        lemma_accumulator_flag_shapes(f, !a, 0, 0);
        let f1 = ((((f & 0xc5) | 0x02u8) | 0x10u8) | (!a & 0x28)) as u8;
        lemma_flag_bits(f1);
        lemma_accumulator_flag_shapes(f, a, 0, 0);
        assert(((255u8 - a) as u8) as int == 255 - a);
        lemma_keeps_szp(f, f1);
    } else if opcode == 0x37 {
        lemma_accumulator_flag_shapes(f, a, 0, 0);
        let f1 = (((f & 0xc4) | 0x01u8) | (a & 0x28)) as u8;
        lemma_flag_bits(f1);
        lemma_keeps_szp(f, f1);
    } else {
        let flip: u8 = if f & 0x01 == 0 {
            1
        } else {
            0
        };
        let half: u8 = if f & 0x01 != 0 {
            0x10
        } else {
            0
        };
        lemma_accumulator_flag_shapes(f, a, flip, half);
        let f1 = ((((f & 0xc4) | half) | flip) | (a & 0x28)) as u8;
        lemma_flag_bits(f1);
        lemma_keeps_szp(f, f1);
    }
}

/// The opcodes of the main table's column 7 but `daa`: one microinstruction with the meaning
/// that [column_meaning] states, changing nothing but A and F.
#[verifier::spinoff_prover]
pub proof fn accumulator_column(s: StateView, opcode: u8)
    requires
        s.wf(),
        opcode == 0x07 || opcode == 0x0f || opcode == 0x17 || opcode == 0x1f || opcode == 0x2f
            || opcode == 0x37 || opcode == 0x3f,
    ensures
        z80_table(MAIN_TABLE as int, opcode) matches EntryView::Instruction(ExtraBytes::Zero, micros)
            && micros.len() == 1 && ({
            let (s1, result) = step(s, micros[0]);
            &&& column_meaning(opcode as int, s.r8(Register::A), s.flags(), s1.r8(Register::A), s1.flags())
            &&& s1 == s.set8(Register::A, s1.r8(Register::A)).set_flags(s1.flags())
            &&& result is Done
        }),
{
    lemma_opcode_fields(opcode);
    let y = (opcode >> 3u8) & 7;
    assert(low_column(opcode) == Some((ExtraBytes::Zero, seq![spec_accumulator_op(y)])));
    lemma_low_entry(opcode);
    accumulator_ops_step(s, 0);
    if opcode == 0x07 || opcode == 0x0f || opcode == 0x17 || opcode == 0x1f {
        lemma_accumulator_rotation(s, opcode);
    } else {
        lemma_accumulator_flags_ops(s, opcode);
    }
}

/// How the flags bytes of the 16-bit additions and subtractions with carry read.
proof fn lemma_word_flag_shapes(sz: u8, hi: u8, h: bool, o: bool, c: bool)
    by (bit_vector)
    requires
        sz == 0 || sz == 0x40 || sz == 0x80,
    ensures
        (((sz | (hi & 0x28)) | hvc_bits(h, o, c)) as u8 & 0x01 != 0) == c,
        ((sz | (hi & 0x28)) | hvc_bits(h, o, c)) as u8 & 0x02 == 0,
        (((sz | (hi & 0x28)) | hvc_bits(h, o, c)) as u8 & 0x40 != 0) == (sz == 0x40),
        (((sz | (hi & 0x28)) | hvc_bits(h, o, c)) as u8 & 0x80 != 0) == (sz == 0x80),
        ((((sz | (hi & 0x28)) | 0x02u8) | hvc_bits(h, o, c)) as u8 & 0x01 != 0) == c,
        (((sz | (hi & 0x28)) | 0x02u8) | hvc_bits(h, o, c)) as u8 & 0x02 != 0,
        ((((sz | (hi & 0x28)) | 0x02u8) | hvc_bits(h, o, c)) as u8 & 0x40 != 0) == (sz == 0x40),
        ((((sz | (hi & 0x28)) | 0x02u8) | hvc_bits(h, o, c)) as u8 & 0x80 != 0) == (sz == 0x80),
{
}

/// The flags of `a + b + carry` and `a - b - carry` on words.
proof fn lemma_word_carry_flags(a: u16, b: u16, c: bool)
    ensures
        ({
            let r = add16c(a, b, c);
            let f1 = add16_flags(a, b, c);
            &&& carry_set(f1) == (a + b + carry_value(c) > 0xffff)
            &&& zero_set(f1) == (r == 0)
            &&& sign_set(f1) == (r >= 0x8000)
            &&& !subtract_set(f1)
        }),
        ({
            let r = sub16c(a, b, c);
            let f1 = sub16_flags(a, b, c);
            &&& carry_set(f1) == (a < b + carry_value(c))
            &&& zero_set(f1) == (r == 0)
            &&& sign_set(f1) == (r >= 0x8000)
            &&& subtract_set(f1)
        }),
{
    let r = add16c(a, b, c);
    let sum = signed16(a) + signed16(b) + carry_value(c);
    lemma_word_flag_shapes(
        if r == 0 {
            0x40u8
        } else if r >= 0x8000 {
            0x80u8
        } else {
            0u8
        },
        high_byte(r),
        a % 0x1000 + b % 0x1000 + carry_value(c) >= 0x1000,
        sum < -0x8000 || sum > 0x7fff,
        a + b + carry_value(c) > 0xffff,
    );
    lemma_flag_bits(add16_flags(a, b, c));
    let d = sub16c(a, b, c);
    let diff = signed16(a) - signed16(b) - carry_value(c);
    lemma_word_flag_shapes(
        if d == 0 {
            0x40u8
        } else if d >= 0x8000 {
            0x80u8
        } else {
            0u8
        },
        high_byte(d),
        a % 0x1000 < b % 0x1000 + carry_value(c),
        diff < -0x8000 || diff > 0x7fff,
        a < b + carry_value(c),
    );
    lemma_flag_bits(sub16_flags(a, b, c));
}

/// `sbc hl, rr` and `adc hl, rr` (`ED 42` and `ED 4A` plus 16 times the pair, BC, DE, HL or SP):
/// HL becomes HL minus, or plus, the pair and the carry, modulo 65536; the carry tells the borrow
/// or the overflow of the whole word, Z and S follow the 16-bit result and N tells a subtraction.
#[verifier::spinoff_prover]
#[verifier::rlimit(60)]
pub proof fn word_arithmetic_with_carry(s: StateView, opcode: u8)
    requires
        s.wf(),
        0x40 <= opcode < 0x80,
        opcode % 16 == 2 || opcode % 16 == 10,
    ensures
        z80_table(MISC_TABLE as int, opcode) matches EntryView::Instruction(ExtraBytes::Zero, micros)
            && micros.len() == 1 && ({
            let hl = s.r16(Register16::HL) as int;
            let rr = s.r16(pair_operand(((opcode - 0x40) / 16) as u8)) as int;
            let c = carry_in(s.flags());
            let (s1, result) = step(s, micros[0]);
            let r = s1.r16(Register16::HL) as int;
            let f1 = s1.flags();
            let adding = opcode % 16 == 10;
            &&& r == (if adding {
                (hl + rr + c) % 65536
            } else {
                (hl - rr - c) % 65536
            })
            &&& carry_set(f1) == (if adding {
                hl + rr + c > 65535
            } else {
                hl < rr + c
            })
            &&& zero_set(f1) == (r == 0)
            &&& sign_set(f1) == (r >= 32768)
            &&& subtract_set(f1) == !adding
            &&& result is Done
        }),
{
    lemma_opcode_fields(opcode);
    let p = ((opcode >> 3u8) & 7) >> 1u8;
    let pair = spec_pair(p);
    assert(pair == pair_operand(((opcode - 0x40) / 16) as u8));
    let adding = opcode % 16 == 10;
    let micro = if adding {
        Microinstruction::AdcHl(pair, 15)
    } else {
        Microinstruction::SbcHl(pair, 15)
    };
    assert(misc_column(opcode) == Some((ExtraBytes::Zero, seq![micro])));
    word_carry_arithmetic_step(s, pair, 15);
    let hl = s.r16(Register16::HL);
    let v = s.r16(pair);
    let f = s.flags();
    lemma_flag_bits(f);
    let c = f & 0x01 != 0;
    lemma_word_carry_flags(hl, v, c);
    let r = if adding {
        add16c(hl, v, c)
    } else {
        sub16c(hl, v, c)
    };
    register16_read_after_write(s.set_memptr(add16(hl, 1)), Register16::HL, Register16::HL, r);
}

} // verus!
