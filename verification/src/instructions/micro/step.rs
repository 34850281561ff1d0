//! Microinstructions as data.
//!
//! Each table entry of an instruction set lists the microinstructions that implement the
//! instruction. A [`Microinstruction`] names one of the operations of the sibling modules with its
//! parameters, and [`execute`] runs it on the [`State`].

use crate::instructions::ExecResult;
use crate::instructions::micro::{bit, io, jump, ld, math, transfer};
use crate::instructions::micro::{fetch, fetch_byte, fetch_state, fetch_word, store_16};
use crate::instructions::micro::bit::{
    bit_mask, bit_state, carry_bit, rla_state, rlca_state, rol8, ror8, rotate_a_state, rra_state,
    rrca_state, shift_state,
    Shift,
};
use crate::instructions::micro::math::{
    add_a_state, add_rr_rr_state, adc_hl_state, carry_flag, ccf_state, cp_state, cpl_state,
    daa_state, dec_r_state, inc_r_state, logic_state, neg_state, rld_state, rrd_state,
    sbc_hl_state, scf_state, signed, sub_a_state,
};
use crate::instructions::micro::jump::{djnz_state, jp_cc_state, jr_state, pushed_sp, ret_state};
use crate::instructions::micro::transfer::{
    cpx_state, cpxr_repeats, cpxr_state, ex_af_state, exx_state, inx_state, inxr_state,
    io_block_result, ldx_state, ldxr_result, ldxr_state, otxr_state, outx_state,
};
use crate::instructions::micro::io::in_r_state;
use crate::state::{
    add16, value_bits, word, Flags, InterruptMode, Register, Register16, State, StateView,
};
use vstd::prelude::*;

verus! {

/// Where a memory access goes.
#[derive(Debug, Copy, Clone, Eq, PartialEq, Structural)]
pub enum Address {
    /// The value of a 16-bit register
    Register(Register16),
    /// A 16-bit register plus the signed offset in `Z`
    IndexZ(Register16),
    /// A 16-bit register plus the signed offset in `W`
    IndexW(Register16),
}

impl Address {
    /// The address in a given state.
    pub open spec fn of(self, s: StateView) -> u16 {
        match self {
            Address::Register(r) => s.r16(r),
            Address::IndexZ(r) => add16(s.r16(r), signed(s.r8(Register::Z))),
            Address::IndexW(r) => add16(s.r16(r), signed(s.r8(Register::W))),
        }
    }

    /// The address in the current state.
    pub fn resolve(self, state: &State) -> (address: u16)
        ensures
            address == self.of(state@),
    {
        match self {
            Address::Register(r) => state.get_register_16(r),
            Address::IndexZ(r) => offset_address(state.get_register_16(r), state.z()),
            Address::IndexW(r) => offset_address(state.get_register_16(r), state.w()),
        }
    }
}

/// A base address plus a signed byte offset.
fn offset_address(base: u16, d: u8) -> (address: u16)
    ensures
        address == add16(base, signed(d)),
{
    let offset: u16 = if d < 128 {
        d as u16
    } else {
        d as u16 + 0xff00
    };
    base.wrapping_add(offset)
}

/// A condition on the flags.
#[derive(Debug, Copy, Clone, Eq, PartialEq, Structural)]
pub enum Condition {
    /// Always true
    Always,
    /// Zero flag reset
    NonZero,
    /// Zero flag set
    Zero,
    /// Carry flag reset
    NoCarry,
    /// Carry flag set
    Carry,
    /// Parity flag reset
    ParityOdd,
    /// Parity flag set
    ParityEven,
    /// Sign flag reset
    Positive,
    /// Sign flag set
    Negative,
}

impl Condition {
    /// Does the condition hold for these flags?
    pub open spec fn holds(self, flags: u8) -> bool {
        match self {
            Condition::Always => true,
            Condition::NonZero => flags & 0x40 == 0,
            Condition::Zero => flags & 0x40 != 0,
            Condition::NoCarry => flags & 0x01 == 0,
            Condition::Carry => flags & 0x01 != 0,
            Condition::ParityOdd => flags & 0x04 == 0,
            Condition::ParityEven => flags & 0x04 != 0,
            Condition::Positive => flags & 0x80 == 0,
            Condition::Negative => flags & 0x80 != 0,
        }
    }

    /// Does the condition hold in the current state?
    pub fn check(self, state: &State) -> (holds: bool)
        ensures
            holds == self.holds(state@.flags()),
    {
        let flags = state.get_flags();
        match self {
            Condition::Always => true,
            Condition::NonZero => !flags.is_set(Flags::Z()),
            Condition::Zero => flags.is_set(Flags::Z()),
            Condition::NoCarry => !flags.is_set(Flags::C()),
            Condition::Carry => flags.is_set(Flags::C()),
            Condition::ParityOdd => !flags.is_set(Flags::P()),
            Condition::ParityEven => flags.is_set(Flags::P()),
            Condition::Positive => !flags.is_set(Flags::S()),
            Condition::Negative => flags.is_set(Flags::S()),
        }
    }
}

/// The 8-bit arithmetic and logic operations on the accumulator.
#[derive(Debug, Copy, Clone, Eq, PartialEq, Structural)]
pub enum MathOp {
    /// `add a, r`
    Add,
    /// `adc a, r`
    Adc,
    /// `sub r`
    Sub,
    /// `sbc a, r`
    Sbc,
    /// `and r`
    And,
    /// `xor r`
    Xor,
    /// `or r`
    Or,
    /// `cp r`
    Cp,
}

/// The rotations and shifts of the `CB` table.
#[derive(Debug, Copy, Clone, Eq, PartialEq, Structural)]
pub enum RotateOp {
    /// `rlc r`
    Rlc,
    /// `rrc r`
    Rrc,
    /// `rl r`
    Rl,
    /// `rr r`
    Rr,
    /// `sla r`
    Sla,
    /// `sra r`
    Sra,
    /// `sll r`
    Sll,
    /// `srl r`
    Srl,
}

/// The register updates of the block instructions.
#[derive(Debug, Copy, Clone, Eq, PartialEq, Structural)]
pub enum BlockOp {
    /// `ldi`
    Ldi,
    /// `ldir`
    Ldir,
    /// `ldd`
    Ldd,
    /// `lddr`
    Lddr,
    /// `cpi`
    Cpi,
    /// `cpir`
    Cpir,
    /// `cpd`
    Cpd,
    /// `cpdr`
    Cpdr,
    /// `ini`
    Ini,
    /// `inir`
    Inir,
    /// `ind`
    Ind,
    /// `indr`
    Indr,
    /// `outi`
    Outi,
    /// `otir`
    Otir,
    /// `outd`
    Outd,
    /// `otdr`
    Otdr,
}

/// A microinstruction: one step of an instruction.
#[derive(Debug, Copy, Clone, Eq, PartialEq, Structural)]
pub enum Microinstruction {
    /// Fetch an opcode at `PC`
    Fetch,
    /// Load a one byte instruction argument into `Z`
    FetchByte,
    /// Load a two byte instruction argument into `WZ`
    FetchWord,
    /// Finish the instruction
    Done(u32),
    /// Halt the processor
    Halt,
    /// Load a byte into `Z`
    Load(Address),
    /// Load a byte into `Z`, with `MEMPTR` set to the next address
    LoadMemptr(Address),
    /// Load two bytes into `WZ`
    Load16(Address),
    /// Load two bytes into `WZ`, with `MEMPTR` set to the next address
    Load16Memptr(Address),
    /// Keep the offset in `Z` in `W`, then load the byte at the index register plus the offset
    SaveOffsetLoad(Register16),
    /// Read a byte from the port in a 16-bit register into `Z`
    Input(Register16),
    /// Read a byte from the port formed by `A` and `Z` (`in a, (n)`)
    InPortA,
    /// Store an 8-bit register in memory
    Store(Address, Register),
    /// Store a 16-bit register in memory
    StoreWord(Address, Register16),
    /// Store `A` at the address in a register, with `MEMPTR` formed by `A` and the next address
    StoreAMemptr(Register16),
    /// Write an 8-bit register to the port in a 16-bit register
    Out(Register16, Register),
    /// Write `A` to the port formed by `A` and `Z` (`out (n), a`)
    OutNA,
    /// `ld r, r`
    LdRR(Register, Register, u32),
    /// `ld r, n` with `n` in `Z`
    LdRN(Register, u32),
    /// `ld rr, nn` with `nn` in `WZ`
    LdRrNn(Register16, u32),
    /// `ld rr, rr`
    LdRrRr(Register16, Register16, u32),
    /// `ld (nn), rr` with `nn` in `WZ`
    LdMmRr(Register16),
    /// `ld a, i` or `ld a, r`
    LdAIR(Register),
    /// Finish `ex (sp), rr`: the word loaded from the stack goes to the register
    ExSpFinish(Register16),
    /// `inc r`
    IncR(Register, u32),
    /// `dec r`
    DecR(Register, u32),
    /// `inc rr`
    IncRr(Register16, u32),
    /// `dec rr`
    DecRr(Register16, u32),
    /// `add rr, rr`
    AddRrRr(Register16, Register16, u32),
    /// Arithmetic or logic between the accumulator and a register
    Math(MathOp, Register, u32),
    /// Increment `Z` and store it in memory
    IncMem(Address),
    /// Decrement `Z` and store it in memory
    DecMem(Address),
    /// `daa`
    Daa(u32),
    /// `cpl`
    Cpl(u32),
    /// `scf`
    Scf(u32),
    /// `ccf`
    Ccf(u32),
    /// `neg`
    Neg(u32),
    /// `rlca`
    Rlca(u32),
    /// `rrca`
    Rrca(u32),
    /// `rla`
    Rla(u32),
    /// `rra`
    Rra(u32),
    /// Rotation or shift of a register
    Rotate(RotateOp, Register, u32),
    /// Rotate or shift `Z`, copy it to a register and store it in memory
    RotateStore(RotateOp, Address, Register),
    /// `bit n, r`
    TestBit(Register, u32, u32),
    /// `res n, r`
    ResetBit(Register, u32, u32),
    /// `set n, r`
    SetBit(Register, u32, u32),
    /// Test a bit of `Z` and store `Z` back in memory
    TestBitStore(Address, u32),
    /// Reset a bit of `Z`, copy it to a register and store it in memory
    ResetBitStore(Address, u32, Register),
    /// Set a bit of `Z`, copy it to a register and store it in memory
    SetBitStore(Address, u32, Register),
    /// `rrd` on `Z`, storing it back at `(HL)`
    RrdStore,
    /// `rld` on `Z`, storing it back at `(HL)`
    RldStore,
    /// `sbc hl, rr`
    SbcHl(Register16, u32),
    /// `adc hl, rr`
    AdcHl(Register16, u32),
    /// `ex af, af'`
    ExAfAf(u32),
    /// `exx`
    Exx(u32),
    /// `ex de, hl`
    ExDeHl,
    /// `di`
    Di,
    /// `ei`
    Ei,
    /// `im n`
    Im(InterruptMode, u32),
    /// Processing part of `in r, (c)`
    InR(Register, u32),
    /// `jr cc, d` with `d` in `Z`
    JrCc(Condition, u32, u32),
    /// `djnz d` with `d` in `Z`
    Djnz(u32, u32),
    /// `jp cc, nn` with `nn` in `WZ`
    JpCc(Condition, u32),
    /// Load the return address of a conditional `ret`, or finish
    LoadSpOrBreak(Condition, u32),
    /// Finish a `ret`
    Ret(u32),
    /// Finish a `retn`: the interrupt flip-flop is restored
    Retn(u32),
    /// Finish a `reti`
    Reti(u32),
    /// Pop the stack into `WZ`
    Pop,
    /// Push a register into the stack
    Push(Register16),
    /// Push `PC` for a conditional `call`, or finish
    PushPcOrBreak(Condition, u32),
    /// Jump to `WZ`
    JrMm(u32),
    /// Jump to the address in a register
    Jp(Register16, u32),
    /// Jump to a fixed address, which also goes to `MEMPTR`
    JumpTo(u16, u32),
    /// Register updates of a block instruction, with the cycles if it repeats and if it doesn't
    Block(BlockOp, u32, u32),
}

impl Microinstruction {
    /// Bit numbers stay within a byte.
    pub open spec fn wf(self) -> bool {
        match self {
            Microinstruction::TestBit(_, n, _) | Microinstruction::ResetBit(_, n, _)
            | Microinstruction::SetBit(_, n, _) | Microinstruction::TestBitStore(_, n)
            | Microinstruction::ResetBitStore(_, n, _) | Microinstruction::SetBitStore(_, n, _) => n
                < 8,
            _ => true,
        }
    }
}

/// Effect of a math operation.
pub open spec fn math_state(s: StateView, op: MathOp, reg: Register) -> StateView {
    let a = s.r8(Register::A);
    let n = s.r8(reg);
    match op {
        MathOp::Add => add_a_state(s, reg, false),
        MathOp::Adc => add_a_state(s, reg, carry_flag(s)),
        MathOp::Sub => sub_a_state(s, reg, false),
        MathOp::Sbc => sub_a_state(s, reg, carry_flag(s)),
        MathOp::And => logic_state(s, a & n, true),
        MathOp::Xor => logic_state(s, a ^ n, false),
        MathOp::Or => logic_state(s, a | n, false),
        MathOp::Cp => cp_state(s, reg),
    }
}

/// Effect of a rotation or shift of a register.
pub open spec fn rotate_state(s: StateView, op: RotateOp, reg: Register) -> StateView {
    let v = s.r8(reg);
    match op {
        RotateOp::Rlc => shift_state(s, reg, rol8(v), v & 0x80 != 0),
        RotateOp::Rrc => shift_state(s, reg, ror8(v), v & 0x80 != 0),
        RotateOp::Rl => shift_state(s, reg, ((v << 1u8) | carry_bit(s.flags())) as u8, v & 0x80 != 0),
        RotateOp::Rr => shift_state(
            s,
            reg,
            ((v >> 1u8) | (carry_bit(s.flags()) << 7u8)) as u8,
            v & 0x01 != 0,
        ),
        RotateOp::Sla => shift_state(s, reg, Shift::Sla.apply(v), v & 0x80 != 0),
        RotateOp::Sra => shift_state(s, reg, Shift::Sra.apply(v), v & 0x01 != 0),
        RotateOp::Sll => shift_state(s, reg, Shift::Sll.apply(v), v & 0x80 != 0),
        RotateOp::Srl => shift_state(s, reg, Shift::Srl.apply(v), v & 0x01 != 0),
    }
}

/// Effect and result of the register updates of a block instruction.
pub open spec fn block_step(s: StateView, op: BlockOp, cycles_loop: u32, cycles_no_loop: u32) -> (
    StateView,
    ExecResult,
) {
    match op {
        BlockOp::Ldi => (ldx_state(s, 1), ExecResult::Done(cycles_loop)),
        BlockOp::Ldir => (ldxr_state(s, 1), ldxr_result(s, cycles_loop, cycles_no_loop)),
        BlockOp::Ldd => (ldx_state(s, -1), ExecResult::Done(cycles_loop)),
        BlockOp::Lddr => (ldxr_state(s, -1), ldxr_result(s, cycles_loop, cycles_no_loop)),
        BlockOp::Cpi => (cpx_state(s, 1), ExecResult::Done(cycles_loop)),
        BlockOp::Cpir => (
            cpxr_state(s, 1),
            ExecResult::Done(
                if cpxr_repeats(cpx_state(s, 1)) {
                    cycles_loop
                } else {
                    cycles_no_loop
                },
            ),
        ),
        BlockOp::Cpd => (cpx_state(s, -1), ExecResult::Done(cycles_loop)),
        BlockOp::Cpdr => (
            cpxr_state(s, -1),
            ExecResult::Done(
                if cpxr_repeats(cpx_state(s, -1)) {
                    cycles_loop
                } else {
                    cycles_no_loop
                },
            ),
        ),
        BlockOp::Ini => (inx_state(s, 1), ExecResult::Done(cycles_loop)),
        BlockOp::Inir => (inxr_state(s, 1), io_block_result(s, cycles_loop, cycles_no_loop)),
        BlockOp::Ind => (inx_state(s, -1), ExecResult::Done(cycles_loop)),
        BlockOp::Indr => (inxr_state(s, -1), io_block_result(s, cycles_loop, cycles_no_loop)),
        BlockOp::Outi => (outx_state(s, 1), ExecResult::Done(cycles_loop)),
        BlockOp::Otir => (otxr_state(s, 1), io_block_result(s, cycles_loop, cycles_no_loop)),
        BlockOp::Outd => (outx_state(s, -1), ExecResult::Done(cycles_loop)),
        BlockOp::Otdr => (otxr_state(s, -1), io_block_result(s, cycles_loop, cycles_no_loop)),
    }
}

/// Effect of `ld a, i` and `ld a, r`: the register goes to `A`, P/V copies `IFF2`.
pub open spec fn ld_a_ir_state(s: StateView, src: Register) -> StateView {
    let value = s.r8(src);
    s.set_flags(
        ((value_bits(value) | (if s.iff2 {
            0x04u8
        } else {
            0u8
        })) | (s.flags() & 0x01)) as u8,
    ).set8(Register::A, value)
}

/// Effect of `ex de, hl`.
pub open spec fn ex_de_hl_state(s: StateView) -> StateView {
    let de = s.bytes(Register16::DE);
    let hl = s.bytes(Register16::HL);
    s.set_pair(Register16::DE, hl[0], hl[1]).set_pair(Register16::HL, de[0], de[1])
}

/// Effect and result of a microinstruction that handles data and memory.
pub open spec fn data_step(s: StateView, micro: Microinstruction) -> (StateView, ExecResult) {
    match micro {
        Microinstruction::Fetch => (fetch_state(s), ExecResult::Fetch { address: s.pc() }),
        Microinstruction::FetchByte => (
            s.set16(Register16::PC, add16(s.pc(), 1)),
            ExecResult::Load { address: s.pc() },
        ),
        Microinstruction::FetchWord => (
            s.set16(Register16::PC, add16(s.pc(), 2)),
            ExecResult::Load16 { address: s.pc() },
        ),
        Microinstruction::Done(cycles) => (s, ExecResult::Done(cycles)),
        Microinstruction::Halt => (s, ExecResult::Halt),
        Microinstruction::Load(a) => (s, ExecResult::Load { address: a.of(s) }),
        Microinstruction::LoadMemptr(a) => (
            s.set_memptr(add16(a.of(s), 1)),
            ExecResult::Load { address: a.of(s) },
        ),
        Microinstruction::Load16(a) => (s, ExecResult::Load16 { address: a.of(s) }),
        Microinstruction::Load16Memptr(a) => (
            s.set_memptr(add16(a.of(s), 1)),
            ExecResult::Load16 { address: a.of(s) },
        ),
        Microinstruction::SaveOffsetLoad(index) => {
            let s1 = s.set8(Register::W, s.r8(Register::Z));
            (s1, ExecResult::Load { address: Address::IndexW(index).of(s1) })
        },
        Microinstruction::Input(port) => (s, ExecResult::In { port: s.r16(port) }),
        Microinstruction::InPortA => {
            let port = word(s.r8(Register::Z), s.r8(Register::A));
            (s.set_memptr(add16(port, 1)), ExecResult::In { port })
        },
        Microinstruction::Store(a, r) => (s, ExecResult::Store { address: a.of(s), data: s.r8(r) }),
        Microinstruction::StoreWord(a, r) => (
            s,
            ExecResult::Store16 { address: a.of(s), data: s.bytes(r) },
        ),
        Microinstruction::StoreAMemptr(p) => (
            s.set_memptr(word((add16(s.r16(p), 1) % 256) as u8, s.r8(Register::A))),
            ExecResult::Store { address: s.r16(p), data: s.r8(Register::A) },
        ),
        Microinstruction::Out(port, r) => (s, ExecResult::Out { port: s.r16(port), data: s.r8(r) }),
        Microinstruction::OutNA => (
            s,
            ExecResult::Out {
                port: (s.r8(Register::A) * 256 + s.r8(Register::Z)) as u16,
                data: s.r8(Register::A),
            },
        ),
        _ => register_step(s, micro),
    }
}

/// Effect and result of a microinstruction that moves data between registers.
#[verifier::opaque]
pub open spec fn register_step(s: StateView, micro: Microinstruction) -> (StateView, ExecResult) {
    match micro {
        Microinstruction::LdRR(dst, src, c) => (s.set8(dst, s.r8(src)), ExecResult::Done(c)),
        Microinstruction::LdRN(r, c) => (s.set8(r, s.r8(Register::Z)), ExecResult::Done(c)),
        Microinstruction::LdRrNn(r, c) => (
            s.set16(r, s.r16(Register16::WZ)),
            ExecResult::Done(c),
        ),
        Microinstruction::LdRrRr(dst, src, c) => (s.set16(dst, s.r16(src)), ExecResult::Done(c)),
        Microinstruction::LdMmRr(r) => (
            s,
            ExecResult::Store16 { address: s.r16(Register16::WZ), data: s.bytes(r) },
        ),
        Microinstruction::LdAIR(r) => (ld_a_ir_state(s, r), ExecResult::Done(9)),
        Microinstruction::ExSpFinish(r) => (
            s.set_memptr(s.r16(Register16::WZ)).set16(r, s.r16(Register16::WZ)),
            ExecResult::Done(3),
        ),
        Microinstruction::ExAfAf(c) => (ex_af_state(s), ExecResult::Done(c)),
        Microinstruction::Exx(c) => (exx_state(s), ExecResult::Done(c)),
        Microinstruction::ExDeHl => (ex_de_hl_state(s), ExecResult::Done(0)),
        Microinstruction::Di => (s.set_iff(false, false), ExecResult::Done(0)),
        Microinstruction::Ei => (s.set_iff(true, true), ExecResult::Ei(0)),
        Microinstruction::Im(mode, c) => (s.set_interrupt_mode(mode), ExecResult::Done(c)),
        Microinstruction::InR(r, c) => (in_r_state(s, r), ExecResult::Done(c)),
        _ => alu_step(s, micro),
    }
}

/// Effect and result of a microinstruction that computes on registers.
#[verifier::opaque]
pub open spec fn alu_step(s: StateView, micro: Microinstruction) -> (StateView, ExecResult) {
    match micro {
        Microinstruction::IncR(r, c) => (inc_r_state(s, r), ExecResult::Done(c)),
        Microinstruction::DecR(r, c) => (dec_r_state(s, r), ExecResult::Done(c)),
        Microinstruction::IncRr(r, c) => (s.set16(r, add16(s.r16(r), 1)), ExecResult::Done(c)),
        Microinstruction::DecRr(r, c) => (s.set16(r, add16(s.r16(r), -1)), ExecResult::Done(c)),
        Microinstruction::AddRrRr(a, b, c) => (add_rr_rr_state(s, a, b), ExecResult::Done(c)),
        Microinstruction::Math(op, r, c) => (math_state(s, op, r), ExecResult::Done(c)),
        Microinstruction::IncMem(a) => {
            let s1 = inc_r_state(s, Register::Z);
            (s1, ExecResult::Store { address: a.of(s), data: s1.r8(Register::Z) })
        },
        Microinstruction::DecMem(a) => {
            let s1 = dec_r_state(s, Register::Z);
            (s1, ExecResult::Store { address: a.of(s), data: s1.r8(Register::Z) })
        },
        Microinstruction::Daa(c) => (daa_state(s), ExecResult::Done(c)),
        Microinstruction::Cpl(c) => (cpl_state(s), ExecResult::Done(c)),
        Microinstruction::Scf(c) => (scf_state(s), ExecResult::Done(c)),
        Microinstruction::Ccf(c) => (ccf_state(s), ExecResult::Done(c)),
        Microinstruction::Neg(c) => (neg_state(s), ExecResult::Done(c)),
        Microinstruction::Rlca(c) => (rlca_state(s), ExecResult::Done(c)),
        Microinstruction::Rrca(c) => (rrca_state(s), ExecResult::Done(c)),
        Microinstruction::Rla(c) => (rla_state(s), ExecResult::Done(c)),
        Microinstruction::Rra(c) => (rra_state(s), ExecResult::Done(c)),
        Microinstruction::Rotate(op, r, c) => (rotate_state(s, op, r), ExecResult::Done(c)),
        Microinstruction::RotateStore(op, a, copy) => {
            let s1 = rotate_state(s, op, Register::Z);
            let s2 = s1.set8(copy, s1.r8(Register::Z));
            (s2, ExecResult::Store { address: a.of(s2), data: s2.r8(Register::Z) })
        },
        Microinstruction::TestBit(r, n, c) => (bit_state(s, r, n), ExecResult::Done(c)),
        Microinstruction::ResetBit(r, n, c) => (
            s.set8(r, s.r8(r) & !bit_mask(n)),
            ExecResult::Done(c),
        ),
        Microinstruction::SetBit(r, n, c) => (
            s.set8(r, s.r8(r) | bit_mask(n)),
            ExecResult::Done(c),
        ),
        Microinstruction::TestBitStore(a, n) => {
            let s1 = bit_state(s, Register::Z, n);
            (s1, ExecResult::Store { address: a.of(s1), data: s1.r8(Register::Z) })
        },
        Microinstruction::ResetBitStore(a, n, copy) => {
            let s1 = s.set8(Register::Z, s.r8(Register::Z) & !bit_mask(n));
            let s2 = s1.set8(copy, s1.r8(Register::Z));
            (s2, ExecResult::Store { address: a.of(s2), data: s2.r8(Register::Z) })
        },
        Microinstruction::SetBitStore(a, n, copy) => {
            let s1 = s.set8(Register::Z, s.r8(Register::Z) | bit_mask(n));
            let s2 = s1.set8(copy, s1.r8(Register::Z));
            (s2, ExecResult::Store { address: a.of(s2), data: s2.r8(Register::Z) })
        },
        Microinstruction::RrdStore => {
            let s1 = rrd_state(s);
            (
                s1,
                ExecResult::Store {
                    address: s1.r16(Register16::HL),
                    data: s1.r8(Register::Z),
                },
            )
        },
        Microinstruction::RldStore => {
            let s1 = rld_state(s);
            (
                s1,
                ExecResult::Store {
                    address: s1.r16(Register16::HL),
                    data: s1.r8(Register::Z),
                },
            )
        },
        Microinstruction::SbcHl(r, c) => (sbc_hl_state(s, r), ExecResult::Done(c)),
        Microinstruction::AdcHl(r, c) => (adc_hl_state(s, r), ExecResult::Done(c)),
        _ => flow_step(s, micro),
    }
}

/// Effect and result of a microinstruction that changes the flow of the program.
#[verifier::opaque]
pub open spec fn flow_step(s: StateView, micro: Microinstruction) -> (StateView, ExecResult) {
    match micro {
        Microinstruction::JrCc(cond, cj, cn) => {
            let holds = cond.holds(s.flags());
            (jr_state(s, holds), ExecResult::Done(if holds { cj } else { cn }))
        },
        Microinstruction::Djnz(cj, cn) => (
            djnz_state(s),
            ExecResult::Done(
                if s.r8(Register::B) != 1 {
                    cj
                } else {
                    cn
                },
            ),
        ),
        Microinstruction::JpCc(cond, c) => (
            jp_cc_state(s, cond.holds(s.flags())),
            ExecResult::Done(c),
        ),
        Microinstruction::LoadSpOrBreak(cond, c) => if cond.holds(s.flags()) {
            (s, ExecResult::Load16 { address: s.r16(Register16::SP) })
        } else {
            (s.set_mpc(usize::MAX), ExecResult::Done(c))
        },
        Microinstruction::Ret(c) => (ret_state(s), ExecResult::Done(c)),
        Microinstruction::Retn(c) => (ret_state(s.set_iff(s.iff2, s.iff2)), ExecResult::Done(c)),
        Microinstruction::Reti(c) => (ret_state(s), ExecResult::Reti(c)),
        Microinstruction::Pop => (
            s.set16(Register16::SP, add16(s.r16(Register16::SP), 2)),
            ExecResult::Load16 { address: s.r16(Register16::SP) },
        ),
        Microinstruction::Push(r) => {
            let s1 = s.set16(Register16::SP, pushed_sp(s));
            (s1, ExecResult::Store16 { address: pushed_sp(s), data: s1.bytes(r) })
        },
        Microinstruction::PushPcOrBreak(cond, c) => {
            let s1 = s.set_memptr(s.r16(Register16::WZ));
            if cond.holds(s.flags()) {
                (
                    s1.set16(Register16::SP, pushed_sp(s)),
                    ExecResult::Store16 { address: pushed_sp(s), data: s.bytes(Register16::PC) },
                )
            } else {
                (s1.set_mpc(usize::MAX), ExecResult::Done(c))
            }
        },
        Microinstruction::JrMm(c) => (jp_cc_state(s, true), ExecResult::Done(c)),
        Microinstruction::Jp(r, c) => (s.set16(Register16::PC, s.r16(r)), ExecResult::Done(c)),
        Microinstruction::JumpTo(address, c) => (
            s.set_memptr(address).set16(Register16::PC, address),
            ExecResult::Done(c),
        ),
        Microinstruction::Block(op, cl, cn) => block_step(s, op, cl, cn),
        _ => (s, ExecResult::Halt),
    }
}

/// Effect and result of running a microinstruction.
pub open spec fn step(s: StateView, micro: Microinstruction) -> (StateView, ExecResult) {
    data_step(s, micro)
}

/// Only the `halt` microinstruction gives the `Halt` result.
#[verifier::rlimit(50)]
pub proof fn only_halt_halts(s: StateView, micro: Microinstruction)
    ensures
        step(s, micro).1 is Halt ==> micro is Halt,
{
    reveal(register_step);
    reveal(alu_step);
    reveal(flow_step);
}

/// A push moves the stack pointer down and stores the register, read after that, at its new
/// place.
pub proof fn push_step(s: StateView, r: Register16)
    ensures
        ({
            let s1 = s.set16(Register16::SP, pushed_sp(s));
            step(s, Microinstruction::Push(r)) == (
                s1,
                ExecResult::Store16 { address: pushed_sp(s), data: s1.bytes(r) },
            )
        }),
{
    reveal(register_step);
    reveal(alu_step);
    reveal(flow_step);
}

/// A pop loads the word at the stack pointer and moves the stack pointer up.
pub proof fn pop_step(s: StateView)
    ensures
        step(s, Microinstruction::Pop) == (
            s.set16(Register16::SP, add16(s.r16(Register16::SP), 2)),
            ExecResult::Load16 { address: s.r16(Register16::SP) },
        ),
{
    reveal(register_step);
    reveal(alu_step);
    reveal(flow_step);
}

/// An operation on the accumulator has the effect that [math_state] gives.
pub proof fn math_step(s: StateView, op: MathOp, reg: Register, cycles: u32)
    ensures
        step(s, Microinstruction::Math(op, reg, cycles)) == (math_state(s, op, reg), ExecResult::Done(cycles)),
{
    reveal(register_step);
    reveal(alu_step);
    reveal(flow_step);
}

/// A rotation or shift of a register has the effect that [rotate_state] gives.
pub proof fn rotate_step(s: StateView, op: RotateOp, reg: Register, cycles: u32)
    ensures
        step(s, Microinstruction::Rotate(op, reg, cycles)) == (rotate_state(s, op, reg), ExecResult::Done(cycles)),
{
    reveal(register_step);
    reveal(alu_step);
    reveal(flow_step);
}

/// The last step of a block instruction has the effect and result that [block_step] gives.
pub proof fn block_micro_step(s: StateView, op: BlockOp, cycles_loop: u32, cycles_no_loop: u32)
    ensures
        step(s, Microinstruction::Block(op, cycles_loop, cycles_no_loop)) == block_step(
            s,
            op,
            cycles_loop,
            cycles_no_loop,
        ),
{
    reveal(register_step);
    reveal(alu_step);
    reveal(flow_step);
}

/// `jp cc, nn` jumps to `WZ` when the condition holds.
pub proof fn jp_cc_step(s: StateView, cond: Condition, cycles: u32)
    ensures
        step(s, Microinstruction::JpCc(cond, cycles)) == (
            jp_cc_state(s, cond.holds(s.flags())),
            ExecResult::Done(cycles),
        ),
{
    reveal(register_step);
    reveal(alu_step);
    reveal(flow_step);
}

/// `jr cc, d` jumps by the offset in `Z` when the condition holds.
pub proof fn jr_cc_step(s: StateView, cond: Condition, cycles_jump: u32, cycles_no_jump: u32)
    ensures
        step(s, Microinstruction::JrCc(cond, cycles_jump, cycles_no_jump)) == (
            jr_state(s, cond.holds(s.flags())),
            ExecResult::Done(
                if cond.holds(s.flags()) {
                    cycles_jump
                } else {
                    cycles_no_jump
                },
            ),
        ),
{
    reveal(register_step);
    reveal(alu_step);
    reveal(flow_step);
}

/// The first step of `call cc, nn`: when the condition holds the return address is pushed, else
/// the instruction ends.
pub proof fn push_pc_or_break_step(s: StateView, cond: Condition, cycles: u32)
    ensures
        step(s, Microinstruction::PushPcOrBreak(cond, cycles)) == (if cond.holds(s.flags()) {
            (
                s.set_memptr(s.r16(Register16::WZ)).set16(Register16::SP, pushed_sp(s)),
                ExecResult::Store16 { address: pushed_sp(s), data: s.bytes(Register16::PC) },
            )
        } else {
            (s.set_memptr(s.r16(Register16::WZ)).set_mpc(usize::MAX), ExecResult::Done(cycles))
        }),
{
    reveal(register_step);
    reveal(alu_step);
    reveal(flow_step);
}

/// The first step of `ret cc`: when the condition holds the word at `SP` is loaded, else the
/// instruction ends.
pub proof fn load_sp_or_break_step(s: StateView, cond: Condition, cycles: u32)
    ensures
        step(s, Microinstruction::LoadSpOrBreak(cond, cycles)) == (if cond.holds(s.flags()) {
            (s, ExecResult::Load16 { address: s.r16(Register16::SP) })
        } else {
            (s.set_mpc(usize::MAX), ExecResult::Done(cycles))
        }),
{
    reveal(register_step);
    reveal(alu_step);
    reveal(flow_step);
}

/// `Ret` jumps to the word loaded into `WZ` and pops it.
pub proof fn ret_step(s: StateView, cycles: u32)
    ensures
        step(s, Microinstruction::Ret(cycles)) == (ret_state(s), ExecResult::Done(cycles)),
{
    reveal(register_step);
    reveal(alu_step);
    reveal(flow_step);
}

/// `inc r` and `dec r` have the effects that [inc_r_state] and [dec_r_state] give.
pub proof fn inc_dec_step(s: StateView, r: Register, cycles: u32)
    ensures
        step(s, Microinstruction::IncR(r, cycles)) == (inc_r_state(s, r), ExecResult::Done(cycles)),
        step(s, Microinstruction::DecR(r, cycles)) == (dec_r_state(s, r), ExecResult::Done(cycles)),
{
    reveal(register_step);
    reveal(alu_step);
    reveal(flow_step);
}

/// `add rr, rr` has the effect that [add_rr_rr_state] gives.
pub proof fn add_rr_rr_step(s: StateView, a: Register16, b: Register16, cycles: u32)
    ensures
        step(s, Microinstruction::AddRrRr(a, b, cycles)) == (
            add_rr_rr_state(s, a, b),
            ExecResult::Done(cycles),
        ),
{
    reveal(register_step);
    reveal(alu_step);
    reveal(flow_step);
}

/// `neg` has the effect that [neg_state] gives.
pub proof fn neg_step(s: StateView, cycles: u32)
    ensures
        step(s, Microinstruction::Neg(cycles)) == (neg_state(s), ExecResult::Done(cycles)),
{
    reveal(register_step);
    reveal(alu_step);
    reveal(flow_step);
}

/// `djnz` decrements B and jumps by the offset in `Z` unless B reached zero.
pub proof fn djnz_step(s: StateView, cycles_jump: u32, cycles_no_jump: u32)
    ensures
        step(s, Microinstruction::Djnz(cycles_jump, cycles_no_jump)) == (
            djnz_state(s),
            ExecResult::Done(
                if s.r8(Register::B) != 1 {
                    cycles_jump
                } else {
                    cycles_no_jump
                },
            ),
        ),
{
    reveal(register_step);
    reveal(alu_step);
    reveal(flow_step);
}

/// `JumpTo` jumps to its fixed address, which also goes to `MEMPTR`.
pub proof fn jump_to_step(s: StateView, address: u16, cycles: u32)
    ensures
        step(s, Microinstruction::JumpTo(address, cycles)) == (
            s.set_memptr(address).set16(Register16::PC, address),
            ExecResult::Done(cycles),
        ),
{
    reveal(register_step);
    reveal(alu_step);
    reveal(flow_step);
}

/// `bit n, r`, `res n, r` and `set n, r` on a register.
pub proof fn bit_ops_step(s: StateView, r: Register, n: u32, cycles: u32)
    ensures
        step(s, Microinstruction::TestBit(r, n, cycles)) == (bit_state(s, r, n), ExecResult::Done(cycles)),
        step(s, Microinstruction::ResetBit(r, n, cycles)) == (
            s.set8(r, s.r8(r) & !bit_mask(n)),
            ExecResult::Done(cycles),
        ),
        step(s, Microinstruction::SetBit(r, n, cycles)) == (
            s.set8(r, s.r8(r) | bit_mask(n)),
            ExecResult::Done(cycles),
        ),
{
    reveal(register_step);
    reveal(alu_step);
    reveal(flow_step);
}

/// The moves between registers and the 16-bit increments.
pub proof fn register_moves_step(s: StateView, dst: Register, src: Register, p: Register16, q: Register16, cycles: u32)
    ensures
        step(s, Microinstruction::LdRR(dst, src, cycles)) == (s.set8(dst, s.r8(src)), ExecResult::Done(cycles)),
        step(s, Microinstruction::LdRN(dst, cycles)) == (
            s.set8(dst, s.r8(Register::Z)),
            ExecResult::Done(cycles),
        ),
        step(s, Microinstruction::LdRrNn(p, cycles)) == (
            s.set16(p, s.r16(Register16::WZ)),
            ExecResult::Done(cycles),
        ),
        step(s, Microinstruction::LdRrRr(p, q, cycles)) == (s.set16(p, s.r16(q)), ExecResult::Done(cycles)),
        step(s, Microinstruction::IncRr(p, cycles)) == (
            s.set16(p, add16(s.r16(p), 1)),
            ExecResult::Done(cycles),
        ),
        step(s, Microinstruction::DecRr(p, cycles)) == (
            s.set16(p, add16(s.r16(p), -1)),
            ExecResult::Done(cycles),
        ),
{
    reveal(register_step);
    reveal(alu_step);
    reveal(flow_step);
}

/// The operations on the accumulator and the carry flag of the main table's column 7.
pub proof fn accumulator_ops_step(s: StateView, cycles: u32)
    ensures
        step(s, Microinstruction::Rlca(cycles)) == (rlca_state(s), ExecResult::Done(cycles)),
        step(s, Microinstruction::Rrca(cycles)) == (rrca_state(s), ExecResult::Done(cycles)),
        step(s, Microinstruction::Rla(cycles)) == (rla_state(s), ExecResult::Done(cycles)),
        step(s, Microinstruction::Rra(cycles)) == (rra_state(s), ExecResult::Done(cycles)),
        step(s, Microinstruction::Cpl(cycles)) == (cpl_state(s), ExecResult::Done(cycles)),
        step(s, Microinstruction::Scf(cycles)) == (scf_state(s), ExecResult::Done(cycles)),
        step(s, Microinstruction::Ccf(cycles)) == (ccf_state(s), ExecResult::Done(cycles)),
{
    reveal(register_step);
    reveal(alu_step);
    reveal(flow_step);
}

/// `adc hl, rr` and `sbc hl, rr` have the effects that [adc_hl_state] and [sbc_hl_state] give.
pub proof fn word_carry_arithmetic_step(s: StateView, r: Register16, cycles: u32)
    ensures
        step(s, Microinstruction::AdcHl(r, cycles)) == (adc_hl_state(s, r), ExecResult::Done(cycles)),
        step(s, Microinstruction::SbcHl(r, cycles)) == (sbc_hl_state(s, r), ExecResult::Done(cycles)),
{
    reveal(register_step);
    reveal(alu_step);
    reveal(flow_step);
}

/// `JrMm` jumps to the address held in `WZ`, which also goes to `MEMPTR`.
pub proof fn jr_mm_step(s: StateView, cycles: u32)
    ensures
        step(s, Microinstruction::JrMm(cycles)) == (jp_cc_state(s, true), ExecResult::Done(cycles)),
{
    reveal(register_step);
    reveal(alu_step);
    reveal(flow_step);
}

/// `ld (pp), a`: `MEMPTR` takes the low byte of the next address and `A` as the high byte.
fn store_a_memptr(state: &mut State, pointer: Register16) -> (result: ExecResult)
    ensures
        final(state)@ == old(state)@.set_memptr(
            word((add16(old(state)@.r16(pointer), 1) % 256) as u8, old(state)@.r8(Register::A)),
        ),
        result == (ExecResult::Store {
            address: old(state)@.r16(pointer),
            data: old(state)@.r8(Register::A),
        }),
{
    let next = state.get_register_16(pointer).wrapping_add(1);
    state.memptr = next % 256 + 256 * state.a() as u16;
    ld::ld_pp_r(state, pointer, Register::A)
}

/// Run a microinstruction.
#[verifier::spinoff_prover]
#[verifier::rlimit(100)]
pub fn execute(state: &mut State, micro: Microinstruction) -> (result: ExecResult)
    requires
        micro.wf(),
    ensures
        (final(state)@, result) == step(old(state)@, micro),
{
    match micro {
        Microinstruction::Fetch => fetch(state),
        Microinstruction::FetchByte => fetch_byte(state),
        Microinstruction::FetchWord => fetch_word(state),
        Microinstruction::Done(cycles) => ExecResult::Done(cycles),
        Microinstruction::Halt => ExecResult::Halt,
        Microinstruction::Load(a) => ExecResult::load(a.resolve(state)),
        Microinstruction::LoadMemptr(a) => {
            let address = a.resolve(state);
            state.memptr = address.wrapping_add(1);
            ExecResult::load(address)
        },
        Microinstruction::Load16(a) => ExecResult::load16(a.resolve(state)),
        Microinstruction::Load16Memptr(a) => {
            let address = a.resolve(state);
            state.memptr = address.wrapping_add(1);
            ExecResult::load16(address)
        },
        Microinstruction::SaveOffsetLoad(index) => {
            // Save d
            *state.w_mut() = state.z();
            ExecResult::load(Address::IndexW(index).resolve(state))
        },
        Microinstruction::Input(port) => ExecResult::input(state.get_register_16(port)),
        Microinstruction::InPortA => {
            let port = state.a() as u16 * 256 + state.z() as u16;
            state.memptr = port.wrapping_add(1);
            ExecResult::input(port)
        },
        Microinstruction::Store(a, r) => ExecResult::Store {
            address: a.resolve(state),
            data: state.get_register_8(r),
        },
        Microinstruction::StoreWord(a, r) => ExecResult::Store16 {
            address: a.resolve(state),
            data: state.get_register_16_bytes(r),
        },
        Microinstruction::StoreAMemptr(p) => store_a_memptr(state, p),
        Microinstruction::Out(port, r) => ExecResult::Out {
            port: state.get_register_16(port),
            data: state.get_register_8(r),
        },
        Microinstruction::OutNA => io::out_n_a(state),
        _ => execute_register(state, micro),
    }
}

/// Run a microinstruction that moves data between registers.
#[verifier::spinoff_prover]
#[verifier::rlimit(100)]
fn execute_register(state: &mut State, micro: Microinstruction) -> (result: ExecResult)
    requires
        micro.wf(),
    ensures
        (final(state)@, result) == register_step(old(state)@, micro),
{
    reveal(register_step);
    match micro {
        Microinstruction::LdRR(dst, src, c) => ld::ld_r_r(state, dst, src, c),
        Microinstruction::LdRN(r, c) => ld::ld_r_n(state, r, c),
        Microinstruction::LdRrNn(r, c) => ld::ld_rr_nn(state, r, c),
        Microinstruction::LdRrRr(dst, src, c) => ld::ld_rr_rr(state, dst, src, c),
        Microinstruction::LdMmRr(r) => ld::ld_mm_rr(state, r),
        Microinstruction::LdAIR(src) => {
            let value = state.get_register_8(src);
            let flags = Flags::from_value(value) | Flags::V().set_if(state.iff2) | (
            state.get_flags() & Flags::C());
            state.update_flags(flags);
            *state.a_mut() = value;
            ExecResult::Done(9)
        },
        Microinstruction::ExSpFinish(r) => {
            state.memptr = state.wz();
            ld::ld_rr_rr(state, r, Register16::WZ, 3)
        },
        Microinstruction::ExAfAf(c) => transfer::ex_af_af(state, c),
        Microinstruction::Exx(c) => transfer::exx(state, c),
        Microinstruction::ExDeHl => {
            let de = state.de_bytes();
            let hl = state.hl_bytes();
            state.set_register_16_bytes(Register16::DE, hl);
            state.set_register_16_bytes(Register16::HL, de);
            ExecResult::Done(0)
        },
        Microinstruction::Di => {
            state.iff1 = false;
            state.iff2 = false;
            ExecResult::Done(0)
        },
        Microinstruction::Ei => {
            state.iff1 = true;
            state.iff2 = true;
            ExecResult::Ei(0)
        },
        Microinstruction::Im(mode, c) => io::im_n(state, mode, c),
        Microinstruction::InR(r, c) => io::in_r_bc(state, r, c),
        _ => execute_alu(state, micro),
    }
}

/// Run a microinstruction that computes on registers.
#[verifier::spinoff_prover]
#[verifier::rlimit(100)]
fn execute_alu(state: &mut State, micro: Microinstruction) -> (result: ExecResult)
    requires
        micro.wf(),
    ensures
        (final(state)@, result) == alu_step(old(state)@, micro),
{
    reveal(alu_step);
    match micro {
        Microinstruction::IncR(r, c) => math::inc_r(state, r, c),
        Microinstruction::DecR(r, c) => math::dec_r(state, r, c),
        Microinstruction::IncRr(r, c) => math::inc_rr(state, r, c),
        Microinstruction::DecRr(r, c) => math::dec_rr(state, r, c),
        Microinstruction::AddRrRr(a, b, c) => math::add_rr_rr(state, a, b, c),
        Microinstruction::Math(op, r, c) => match op {
            MathOp::Add => math::add_a_r(state, r, c),
            MathOp::Adc => math::adc_a_r(state, r, c),
            MathOp::Sub => math::sub_r(state, r, c),
            MathOp::Sbc => math::sbc_r(state, r, c),
            MathOp::And => math::and_r(state, r, c),
            MathOp::Xor => math::xor_r(state, r, c),
            MathOp::Or => math::or_r(state, r, c),
            MathOp::Cp => math::cp_r(state, r, c),
        },
        Microinstruction::IncMem(a) => {
            let address = a.resolve(state);
            math::inc_z_mem(state, address)
        },
        Microinstruction::DecMem(a) => {
            let address = a.resolve(state);
            math::dec_z_mem(state, address)
        },
        Microinstruction::Daa(c) => math::daa(state, c),
        Microinstruction::Cpl(c) => math::cpl(state, c),
        Microinstruction::Scf(c) => math::scf(state, c),
        Microinstruction::Ccf(c) => math::ccf(state, c),
        Microinstruction::Neg(c) => math::neg(state, c),
        Microinstruction::Rlca(c) => bit::rlca(state, c),
        Microinstruction::Rrca(c) => bit::rrca(state, c),
        Microinstruction::Rla(c) => bit::rla(state, c),
        Microinstruction::Rra(c) => bit::rra(state, c),
        Microinstruction::Rotate(op, r, c) => rotate(state, op, r, c),
        Microinstruction::RotateStore(op, a, copy) => {
            rotate(state, op, Register::Z, 0);
            state.set_register_8(copy, state.z());
            ExecResult::Store { address: a.resolve(state), data: state.z() }
        },
        Microinstruction::TestBit(r, n, c) => bit::bit_r(state, r, n, c),
        Microinstruction::ResetBit(r, n, c) => bit::res_r(state, r, n, c),
        Microinstruction::SetBit(r, n, c) => bit::set_r(state, r, n, c),
        Microinstruction::TestBitStore(a, n) => {
            bit::bit_r(state, Register::Z, n, 0);
            ExecResult::Store { address: a.resolve(state), data: state.z() }
        },
        Microinstruction::ResetBitStore(a, n, copy) => {
            bit::res_r(state, Register::Z, n, 0);
            state.set_register_8(copy, state.z());
            ExecResult::Store { address: a.resolve(state), data: state.z() }
        },
        Microinstruction::SetBitStore(a, n, copy) => {
            bit::set_r(state, Register::Z, n, 0);
            state.set_register_8(copy, state.z());
            ExecResult::Store { address: a.resolve(state), data: state.z() }
        },
        Microinstruction::RrdStore => {
            math::rrd(state);
            ExecResult::Store { address: state.hl(), data: state.z() }
        },
        Microinstruction::RldStore => {
            math::rld(state);
            ExecResult::Store { address: state.hl(), data: state.z() }
        },
        Microinstruction::SbcHl(r, c) => math::sbc_hl_rr(state, r, c),
        Microinstruction::AdcHl(r, c) => math::adc_hl_rr(state, r, c),
        _ => execute_flow(state, micro),
    }
}

/// Run a rotation or shift of a register.
fn rotate(state: &mut State, op: RotateOp, reg: Register, cycles: u32) -> (result: ExecResult)
    ensures
        final(state)@ == rotate_state(old(state)@, op, reg),
        result == ExecResult::Done(cycles),
{
    match op {
        RotateOp::Rlc => bit::rlc_r(state, reg, cycles),
        RotateOp::Rrc => bit::rrc_r(state, reg, cycles),
        RotateOp::Rl => bit::rl_r(state, reg, cycles),
        RotateOp::Rr => bit::rr_r(state, reg, cycles),
        RotateOp::Sla => bit::sla_r(state, reg, cycles),
        RotateOp::Sra => bit::sra_r(state, reg, cycles),
        RotateOp::Sll => bit::sll_r(state, reg, cycles),
        RotateOp::Srl => bit::srl_r(state, reg, cycles),
    }
}

/// Run a microinstruction that changes the flow of the program.
#[verifier::spinoff_prover]
#[verifier::rlimit(100)]
fn execute_flow(state: &mut State, micro: Microinstruction) -> (result: ExecResult)
    ensures
        (final(state)@, result) == flow_step(old(state)@, micro),
{
    reveal(flow_step);
    match micro {
        Microinstruction::JrCc(cond, cj, cn) => {
            let holds = cond.check(state);
            jump::jr_cc_d(state, holds, cj, cn)
        },
        Microinstruction::Djnz(cj, cn) => jump::djnz_d(state, cj, cn),
        Microinstruction::JpCc(cond, c) => {
            let holds = cond.check(state);
            jump::jp_cc_nn(state, holds, c)
        },
        Microinstruction::LoadSpOrBreak(cond, c) => {
            let holds = cond.check(state);
            jump::load_sp_or_break(state, holds, c)
        },
        Microinstruction::Ret(c) => jump::ret(state, c),
        Microinstruction::Retn(c) => {
            state.iff1 = state.iff2;
            jump::ret(state, c)
        },
        Microinstruction::Reti(c) => {
            jump::ret(state, 0);
            ExecResult::Reti(c)
        },
        Microinstruction::Pop => jump::pop(state),
        Microinstruction::Push(r) => jump::push(state, r),
        Microinstruction::PushPcOrBreak(cond, c) => {
            let holds = cond.check(state);
            jump::push_pc_or_break(state, holds, c)
        },
        Microinstruction::JrMm(c) => jump::jr_mm(state, c),
        Microinstruction::Jp(r, c) => {
            let address = state.get_register_16(r);
            jump::jp(state, address, c)
        },
        Microinstruction::JumpTo(address, c) => jump::jump_to(state, address, c),
        Microinstruction::Block(op, cl, cn) => match op {
            BlockOp::Ldi => transfer::ldi_registers(state, cl),
            BlockOp::Ldir => transfer::ldir_registers(state, cl, cn),
            BlockOp::Ldd => transfer::ldd_registers(state, cl),
            BlockOp::Lddr => transfer::lddr_registers(state, cl, cn),
            BlockOp::Cpi => transfer::cpi_registers(state, cl),
            BlockOp::Cpir => transfer::cpir_registers(state, cl, cn),
            BlockOp::Cpd => transfer::cpd_registers(state, cl),
            BlockOp::Cpdr => transfer::cpdr_registers(state, cl, cn),
            BlockOp::Ini => transfer::ini_registers(state, cl),
            BlockOp::Inir => transfer::inir_registers(state, cl, cn),
            BlockOp::Ind => transfer::ind_registers(state, cl),
            BlockOp::Indr => transfer::indr_registers(state, cl, cn),
            BlockOp::Outi => transfer::outi_registers(state, cl),
            BlockOp::Otir => transfer::otir_registers(state, cl, cn),
            BlockOp::Outd => transfer::outd_registers(state, cl),
            BlockOp::Otdr => transfer::otdr_registers(state, cl, cn),
        },
        _ => ExecResult::Halt,
    }
}

} // verus!
