//! State of a Z80 CPU.
//!
//! The state is formed by the normal registers, the alternate register sets and the interruption
//! flip-flops. The registers are kept as an array of little endian byte pairs, so that 8-bit and
//! 16-bit registers share the same storage.

use vstd::prelude::*;
use vstd::std_specs::ops::{BitAndSpecImpl, BitOrSpecImpl, NotSpecImpl, SubSpecImpl};

verus! {

/// Number of 16-bit register pairs kept in the state.
pub const REGISTER16_COUNT: usize = 14;

/// The list of 8-bit registers in a Z80 CPU.
///
/// Registers are ordered as little endian pairs: the low byte of a 16-bit register comes first.
#[derive(Debug, Copy, Clone, Ord, PartialOrd, Eq, PartialEq, Structural, Default)]
pub enum Register {
    /// The flags
    Flags,
    /// The accumulator
    #[default]
    A,
    /// General purpose C register
    C,
    /// General purpose B register
    B,
    /// General purpose E register
    E,
    /// General purpose D register
    D,
    /// L register
    L,
    /// H register
    H,
    /// Interrupt page address register
    I,
    /// Memory refresh register
    R,
    /// Low byte of the IX register
    IXL,
    /// High byte of the IX register
    IXH,
    /// Low byte of the IY register
    IYL,
    /// High byte of the IY register
    IYH,
    /// Low byte of the stack pointer
    SPL,
    /// High byte of the stack pointer
    SPH,
    /// Low byte of the program counter
    PCL,
    /// High byte of the program counter.
    PCH,
    /// Low byte of the instruction buffer.
    Z,
    /// High byte of the instruction buffer.
    W,
    /// Alternate F register
    FAlt,
    /// Alternate A register
    AAlt,
    /// Alternate C register
    CAlt,
    /// Alternate B register
    BAlt,
    /// Alternate E register
    EAlt,
    /// Alternate D register
    DAlt,
    /// Alternate L register
    LAlt,
    /// Alternate H register
    HAlt,
}

impl Register {
    /// Position of the register's byte in the register file.
    pub open spec fn idx(self) -> int {
        match self {
            Register::Flags => 0,
            Register::A => 1,
            Register::C => 2,
            Register::B => 3,
            Register::E => 4,
            Register::D => 5,
            Register::L => 6,
            Register::H => 7,
            Register::I => 8,
            Register::R => 9,
            Register::IXL => 10,
            Register::IXH => 11,
            Register::IYL => 12,
            Register::IYH => 13,
            Register::SPL => 14,
            Register::SPH => 15,
            Register::PCL => 16,
            Register::PCH => 17,
            Register::Z => 18,
            Register::W => 19,
            Register::FAlt => 20,
            Register::AAlt => 21,
            Register::CAlt => 22,
            Register::BAlt => 23,
            Register::EAlt => 24,
            Register::DAlt => 25,
            Register::LAlt => 26,
            Register::HAlt => 27,
        }
    }

    /// Position of the register's byte in the register file.
    pub fn index(self) -> (i: usize)
        ensures
            i == self.idx(),
            i < 2 * REGISTER16_COUNT,
    {
        match self {
            Register::Flags => 0,
            Register::A => 1,
            Register::C => 2,
            Register::B => 3,
            Register::E => 4,
            Register::D => 5,
            Register::L => 6,
            Register::H => 7,
            Register::I => 8,
            Register::R => 9,
            Register::IXL => 10,
            Register::IXH => 11,
            Register::IYL => 12,
            Register::IYH => 13,
            Register::SPL => 14,
            Register::SPH => 15,
            Register::PCL => 16,
            Register::PCH => 17,
            Register::Z => 18,
            Register::W => 19,
            Register::FAlt => 20,
            Register::AAlt => 21,
            Register::CAlt => 22,
            Register::BAlt => 23,
            Register::EAlt => 24,
            Register::DAlt => 25,
            Register::LAlt => 26,
            Register::HAlt => 27,
        }
    }
}

/// The list of 16 bit registers.
#[derive(Debug, Copy, Clone, Ord, PartialOrd, Eq, PartialEq, Structural, Default)]
pub enum Register16 {
    /// Accumulator and flags
    #[default]
    AF,
    /// B and C
    BC,
    /// D and E
    DE,
    /// H and L
    HL,
    /// R and I.
    ///
    /// This isn't a real Z80 register, but it is used internally by the emulator
    RI,
    /// Index register IX
    IX,
    /// Index register IY
    IY,
    /// Stack pointer
    SP,
    /// Program counter
    PC,
    /// Instruction buffer
    WZ,
    /// Alternate AF register
    AfAlt,
    /// Alternate BC register
    BcAlt,
    /// Alternate DE register
    DeAlt,
    /// Alternate HL register
    HlAlt,
}

impl Register16 {
    /// Position of the register pair in the register file.
    pub open spec fn idx(self) -> int {
        match self {
            Register16::AF => 0,
            Register16::BC => 1,
            Register16::DE => 2,
            Register16::HL => 3,
            Register16::RI => 4,
            Register16::IX => 5,
            Register16::IY => 6,
            Register16::SP => 7,
            Register16::PC => 8,
            Register16::WZ => 9,
            Register16::AfAlt => 10,
            Register16::BcAlt => 11,
            Register16::DeAlt => 12,
            Register16::HlAlt => 13,
        }
    }

    /// Position of the register pair in the register file.
    pub fn index(self) -> (i: usize)
        ensures
            i == self.idx(),
            i < REGISTER16_COUNT,
    {
        match self {
            Register16::AF => 0,
            Register16::BC => 1,
            Register16::DE => 2,
            Register16::HL => 3,
            Register16::RI => 4,
            Register16::IX => 5,
            Register16::IY => 6,
            Register16::SP => 7,
            Register16::PC => 8,
            Register16::WZ => 9,
            Register16::AfAlt => 10,
            Register16::BcAlt => 11,
            Register16::DeAlt => 12,
            Register16::HlAlt => 13,
        }
    }
}

/// How the processor handles interruptions
#[derive(Debug, Copy, Clone, Ord, PartialOrd, Eq, PartialEq, Structural, Default)]
pub enum InterruptMode {
    /// The data received from the interrupting device is executed as an instruction.
    ///
    /// This is the original mode from the Intel 8080 and is the default.
    #[default]
    Instruction,
    /// This mode handles interruptions by jumping to the address `0038h`
    Rst0038,
    /// This mode handles interrupts using the interrupt vector in the `I` register.
    ///
    /// The processor calls the address whose high byte is `I` and whose low byte is the data
    /// sent by the device.
    Vectored,
}

/// Mathematical model of the processor state.
#[verifier::ext_equal]
pub struct StateView {
    /// The 28 bytes of the register file, in the order of [`Register`].
    pub regs: Seq<u8>,
    /// Interrupt flip-flop
    pub iff1: bool,
    /// Temporary storage for `iff1`
    pub iff2: bool,
    /// Which microinstruction is being executed
    pub mpc: usize,
    /// Interruption mode of the processor
    pub interrupt_mode: InterruptMode,
    /// The `MEMPTR` internal register
    pub memptr: u16,
}

/// Value of a little endian byte pair.
pub open spec fn word(low: u8, high: u8) -> u16 {
    (low + 256 * high) as u16
}

/// Low byte of a 16-bit value.
pub open spec fn low_byte(value: u16) -> u8 {
    (value % 256) as u8
}

/// High byte of a 16-bit value.
pub open spec fn high_byte(value: u16) -> u8 {
    (value / 256) as u8
}

impl StateView {
    /// A register file of 28 bytes, as every processor state has.
    pub open spec fn wf(self) -> bool {
        self.regs.len() == 28
    }

    /// The value of an 8-bit register.
    pub open spec fn r8(self, r: Register) -> u8 {
        self.regs[r.idx()]
    }

    /// The value of a 16-bit register.
    pub open spec fn r16(self, r: Register16) -> u16 {
        word(self.regs[2 * r.idx()], self.regs[2 * r.idx() + 1])
    }

    /// The two bytes of a 16-bit register, in little endian order.
    pub open spec fn bytes(self, r: Register16) -> [u8; 2] {
        [self.regs[2 * r.idx()], self.regs[2 * r.idx() + 1]]
    }

    /// The state with an 8-bit register changed.
    pub open spec fn set8(self, r: Register, value: u8) -> StateView {
        StateView { regs: self.regs.update(r.idx(), value), ..self }
    }

    /// The state with the two bytes of a 16-bit register changed.
    pub open spec fn set_pair(self, r: Register16, low: u8, high: u8) -> StateView {
        StateView { regs: self.regs.update(2 * r.idx(), low).update(2 * r.idx() + 1, high), ..self }
    }

    /// The state with a 16-bit register changed.
    pub open spec fn set16(self, r: Register16, value: u16) -> StateView {
        self.set_pair(r, low_byte(value), high_byte(value))
    }

    /// The state with the interrupt flip-flops changed.
    pub open spec fn set_iff(self, iff1: bool, iff2: bool) -> StateView {
        StateView { iff1, iff2, ..self }
    }

    /// The state with the microinstruction counter changed.
    pub open spec fn set_mpc(self, mpc: usize) -> StateView {
        StateView { mpc, ..self }
    }

    /// The state with the interrupt mode changed.
    pub open spec fn set_interrupt_mode(self, mode: InterruptMode) -> StateView {
        StateView { interrupt_mode: mode, ..self }
    }

    /// The program counter.
    pub open spec fn pc(self) -> u16 {
        self.r16(Register16::PC)
    }

    /// The state of a processor that was just turned on.
    pub open spec fn initial() -> StateView {
        StateView {
            regs: Seq::new(
                28,
                |i: int|
                    if i == 0 || i == 1 || i == 14 || i == 15 {
                        0xffu8
                    } else {
                        0u8
                    },
            ),
            iff1: false,
            iff2: false,
            mpc: 0,
            interrupt_mode: InterruptMode::Instruction,
            memptr: 0,
        }
    }

    /// The state with `MEMPTR` changed.
    pub open spec fn set_memptr(self, value: u16) -> StateView {
        StateView { memptr: value, ..self }
    }

    /// The flags register.
    pub open spec fn flags(self) -> u8 {
        self.r8(Register::Flags)
    }

    /// The state with the flags register changed.
    pub open spec fn set_flags(self, value: u8) -> StateView {
        self.set8(Register::Flags, value)
    }
}

/// Bit count of a byte.
pub open spec fn ones(v: u8) -> u8 {
    ((v & 1) + ((v >> 1u8) & 1) + ((v >> 2u8) & 1) + ((v >> 3u8) & 1) + ((v >> 4u8) & 1) + ((v
        >> 5u8) & 1) + ((v >> 6u8) & 1) + ((v >> 7u8) & 1)) as u8
}

/// Does the byte have an even number of set bits?
pub open spec fn even_parity(v: u8) -> bool {
    ones(v) % 2 == 0
}

/// The sign and zero flags for a value.
pub open spec fn sz_bits(v: u8) -> u8 {
    if v == 0 {
        0x40
    } else if v > 0x7f {
        0x80
    } else {
        0
    }
}

/// The sign, zero and undocumented X and Y flags for a value.
pub open spec fn value_bits(v: u8) -> u8 {
    (sz_bits(v) | (v & 0x28)) as u8
}

/// The parity flag for a value: set when the value has an even number of set bits.
pub open spec fn parity_bits(v: u8) -> u8 {
    if even_parity(v) {
        4
    } else {
        0
    }
}

/// A structure representing Z80 flags.
///
/// The bits are, from the least significant: carry (C), add/subtract (N), parity/overflow (P/V),
/// X, half carry (H), Y, zero (Z) and sign (S).
#[derive(Debug, Copy, Clone, Ord, PartialOrd, Eq, PartialEq, Structural)]
pub struct Flags(pub u8);

impl View for Flags {
    type V = u8;

    open spec fn view(&self) -> u8 {
        self.0
    }
}

#[allow(non_snake_case)]
impl Flags {
    /// Carry flag
    pub fn C() -> (flags: Flags)
        ensures
            flags@ == 0x01,
    {
        Flags(1)
    }

    /// Add/Subtract flag
    pub fn N() -> (flags: Flags)
        ensures
            flags@ == 0x02,
    {
        Flags(2)
    }

    /// Parity flag
    ///
    /// Parity and overflow are two names for the same flag
    pub fn P() -> (flags: Flags)
        ensures
            flags@ == 0x04,
    {
        Flags(4)
    }

    /// Overflow flag
    ///
    /// Parity and overflow are two names for the same flag
    pub fn V() -> (flags: Flags)
        ensures
            flags@ == 0x04,
    {
        Flags(4)
    }

    /// Undocumented flag X
    pub fn X() -> (flags: Flags)
        ensures
            flags@ == 0x08,
    {
        Flags(8)
    }

    /// Half carry flag
    pub fn H() -> (flags: Flags)
        ensures
            flags@ == 0x10,
    {
        Flags(0x10)
    }

    /// Undocumented flag Y
    pub fn Y() -> (flags: Flags)
        ensures
            flags@ == 0x20,
    {
        Flags(0x20)
    }

    /// Zero flag
    pub fn Z() -> (flags: Flags)
        ensures
            flags@ == 0x40,
    {
        Flags(0x40)
    }

    /// Sign flag
    pub fn S() -> (flags: Flags)
        ensures
            flags@ == 0x80,
    {
        Flags(0x80)
    }
}

impl Flags {
    /// New empty flags with nothing set
    pub fn new() -> (flags: Self)
        ensures
            flags@ == 0,
    {
        Flags(0)
    }

    /// Get the sign and zero flags from a number
    pub fn sz(number: u8) -> (flags: Self)
        ensures
            flags@ == sz_bits(number),
    {
        if number == 0 {
            Flags(0x40)
        } else if number > 0b01111111 {
            Flags(0x80)
        } else {
            Flags(0)
        }
    }

    /// Get the S, Z, X and Y flags from a value
    pub fn from_value(number: u8) -> (flags: Self)
        ensures
            flags@ == value_bits(number),
    {
        let xy = Flags::xy(number);
        let sz = Flags::sz(number);
        proof {
            let s = sz_bits(number);
            assert(s == 0 || s == 0x40 || s == 0x80);
            assert((s == 0 || s == 0x40 || s == 0x80) ==> (number & 0x28) | s == s | (number & 0x28)) by (bit_vector);
        }
        xy | sz
    }

    /// Get the numeric value from a flag
    pub fn as_u8(self) -> (value: u8)
        ensures
            value == self@,
    {
        self.0
    }

    /// Turn a raw value into flags
    pub fn from_raw(value: u8) -> (flags: Self)
        ensures
            flags@ == value,
    {
        Flags(value)
    }

    /// Check if any of the bits of the mask is set on the flags
    pub fn is_set(self, mask: Flags) -> (set: bool)
        ensures
            set == (self@ & mask@ != 0),
    {
        self.0 & mask.0 != 0
    }

    /// Get the flags if the condition is true, otherwise they're reset
    pub fn set_if(self, condition: bool) -> (flags: Flags)
        ensures
            flags@ == if condition { self@ } else { 0 },
    {
        if condition {
            self
        } else {
            Flags(0)
        }
    }

    /// Get the parity flag for a value: it is set when the value has an even number of set bits
    pub fn parity(value: u8) -> (flags: Self)
        ensures
            flags@ == parity_bits(value),
    {
        let folded = value ^ (value >> 4u8);
        let folded = folded ^ (folded >> 2u8);
        let folded = folded ^ (folded >> 1u8);
        assert((((value ^ (value >> 4u8)) ^ ((value ^ (value >> 4u8)) >> 2u8)) ^ (((value ^ (value
            >> 4u8)) ^ ((value ^ (value >> 4u8)) >> 2u8)) >> 1u8)) & 1 == 0 <==> ones(value) % 2
            == 0) by (bit_vector);
        Flags(4).set_if(folded & 1 == 0)
    }

    /// Get the X and Y flags for a value
    pub fn xy(value: u8) -> (flags: Self)
        ensures
            flags@ == value & 0x28,
    {
        Flags(value & 0x28)
    }

    /// Flips the value of the tags selected in the mask
    pub fn flip(self, mask: Self) -> (flags: Self)
        ensures
            flags@ == self@ ^ mask@,
    {
        Flags(self.0 ^ mask.0)
    }

    /// Make a copy of these flags setting all bits selected by the mask
    pub fn set(self, mask: Self) -> (flags: Self)
        ensures
            flags@ == self@ | mask@,
    {
        self | mask
    }

    /// Make a copy of these flags resetting all bits selected by the mask
    pub fn reset(self, mask: Self) -> (flags: Self)
        ensures
            flags@ == self@ & !mask@,
    {
        Flags(self.0 & !mask.0)
    }

    /// Get the flags specified in the mask
    pub fn select(self, mask: Self) -> (flags: Self)
        ensures
            flags@ == self@ & mask@,
    {
        Flags(self.0 & mask.0)
    }
}

impl core::ops::BitOr for Flags {
    type Output = Flags;

    /// Get all flags that are set in either `self` or `rhs`.
    fn bitor(self, rhs: Self) -> (flags: Self::Output) {
        Flags(self.0 | rhs.0)
    }
}

impl BitOrSpecImpl for Flags {
    open spec fn obeys_bitor_spec() -> bool {
        true
    }

    open spec fn bitor_req(self, rhs: Flags) -> bool {
        true
    }

    open spec fn bitor_spec(self, rhs: Flags) -> Flags {
        Flags(self.0 | rhs.0)
    }
}

impl core::ops::BitOrAssign for Flags {
    /// Copy all set flags in `rhs` to `self`
    fn bitor_assign(&mut self, rhs: Self)
        ensures
            final(self)@ == old(self)@ | rhs@,
    {
        *self = *self | rhs
    }
}

impl core::ops::BitAnd for Flags {
    type Output = Flags;

    /// Return all flags that are set in both `self` and `rhs`.
    fn bitand(self, rhs: Self) -> (flags: Self::Output) {
        Flags(self.0 & rhs.0)
    }
}

impl BitAndSpecImpl for Flags {
    open spec fn obeys_bitand_spec() -> bool {
        true
    }

    open spec fn bitand_req(self, rhs: Flags) -> bool {
        true
    }

    open spec fn bitand_spec(self, rhs: Flags) -> Flags {
        Flags(self.0 & rhs.0)
    }
}

impl core::ops::BitAndAssign for Flags {
    /// Update `self` to contain only flags that are set in both `self` and `rhs`.
    fn bitand_assign(&mut self, rhs: Self)
        ensures
            final(self)@ == old(self)@ & rhs@,
    {
        *self = *self & rhs
    }
}

impl core::ops::Not for Flags {
    type Output = Self;

    /// Flip the flags that are set
    fn not(self) -> (flags: Self::Output) {
        Flags(!self.0)
    }
}

impl NotSpecImpl for Flags {
    open spec fn obeys_not_spec() -> bool {
        true
    }

    open spec fn not_req(self) -> bool {
        true
    }

    open spec fn not_spec(self) -> Flags {
        Flags(!self.0)
    }
}

impl core::ops::Sub for Flags {
    type Output = Self;

    /// Return `self` with all the flags set in `rhs` removed.
    fn sub(self, rhs: Self) -> (flags: Self::Output) {
        Flags(self.0 & !rhs.0)
    }
}

impl SubSpecImpl for Flags {
    open spec fn obeys_sub_spec() -> bool {
        true
    }

    open spec fn sub_req(self, rhs: Flags) -> bool {
        true
    }

    open spec fn sub_spec(self, rhs: Flags) -> Flags {
        Flags(self.0 & !rhs.0)
    }
}

impl core::ops::SubAssign for Flags {
    /// Clear all flags that are set in `rhs`.
    fn sub_assign(&mut self, rhs: Self)
        ensures
            final(self)@ == old(self)@ & !rhs@,
    {
        *self = *self - rhs
    }
}



/// The state of a Z80 CPU.
#[derive(Debug, Clone, Copy)]
pub struct State {
    /// The set of registers
    pub registers: [[u8; 2]; REGISTER16_COUNT],
    /// Interrupt flip-flop
    pub iff1: bool,
    /// Temporary storage for `iff1`
    pub iff2: bool,
    /// Which microinstruction is being executed
    pub mpc: usize,
    /// Interruption mode of the processor
    pub interrupt_mode: InterruptMode,
    /// The `MEMPTR` internal register
    pub memptr: u16,
}

impl View for State {
    type V = StateView;

    open spec fn view(&self) -> StateView {
        StateView {
            regs: Seq::new(28, |i: int| self.registers[i / 2][i % 2]),
            iff1: self.iff1,
            iff2: self.iff2,
            mpc: self.mpc,
            interrupt_mode: self.interrupt_mode,
            memptr: self.memptr,
        }
    }
}

/// The bits of a flags byte as numbers: the carry is bit 0, N bit 1, P/V bit 2, Z bit 6 and S
/// bit 7.
pub proof fn lemma_flag_bits(f: u8)
    by (bit_vector)
    ensures
        f & 1 == f % 2,
        (f & 0x01 != 0) == (f % 2 == 1),
        (f & 0x02 != 0) == ((f / 2) % 2 == 1),
        (f & 0x04 != 0) == ((f / 4) % 2 == 1),
        (f & 0x40 != 0) == ((f / 64) % 2 == 1),
        (f & 0x80 != 0) == (f >= 128),
        f & !0x01u8 == f & 0xfe,
        f & !0x40u8 == f & 0xbf,
        f & !0x3eu8 == f & 0xc1,
        (f & !0x08u8) & !0x20u8 == f & 0xd7,
{
}

/// Sum of `a` and `b` modulo 2^16, as computed by `u16::wrapping_add`.
pub open spec fn add16(a: u16, b: int) -> u16 {
    ((a + b) % 65536) as u16
}

/// Next value of the memory refresh register: the low 7 bits count up, bit 7 is kept.
pub open spec fn next_r(r: u8) -> u8 {
    ((r & 0x80) | (((r + 1) % 128) as u8)) as u8
}

/// Previous value of the memory refresh register: the low 7 bits count down, bit 7 is kept.
pub open spec fn prev_r(r: u8) -> u8 {
    ((r & 0x80) | (((r + 127) % 128) as u8)) as u8
}

impl Default for State {
    fn default() -> (state: Self)
        ensures
            state@ == StateView::initial(),
    {
        let mut state = State {
            registers: [[0;2];REGISTER16_COUNT],
            iff1: false,
            iff2: false,
            mpc: 0,
            interrupt_mode: InterruptMode::Instruction,
            memptr: 0,
        };
        state.set_register_16(Register16::AF, 0xffff);
        state.set_register_16(Register16::SP, 0xffff);
        assert(state@.regs =~= StateView::initial().regs);
        state
    }
}

impl State {
    /// Create a new Z80 processor
    pub fn new() -> (state: Self)
        ensures
            state@ == StateView::initial(),
    {
        State::default()
    }

    /// Get the value of an 8-bit register
    pub fn get_register_8(&self, register: Register) -> (value: u8)
        ensures
            value == self@.r8(register),
    {
        let index = register.index();
        self.registers[index / 2][index % 2]
    }

    /// Get the value of a 16-bit register.
    pub fn get_register_16(&self, register: Register16) -> (value: u16)
        ensures
            value == self@.r16(register),
    {
        let bytes = self.registers[register.index()];
        bytes[0] as u16 + 256 * bytes[1] as u16
    }

    /// Get the value of a 16-bit register as two bytes in little endian order.
    pub fn get_register_16_bytes(&self, register: Register16) -> (bytes: [u8; 2])
        ensures
            bytes == self@.bytes(register),
    {
        self.registers[register.index()]
    }

    /// Get a mutable reference to an 8-bit register
    pub fn get_register_mut_8(&mut self, register: Register) -> (value: &mut u8)
        ensures
            *value == old(self)@.r8(register),
            final(self)@ == old(self)@.set8(register, *final(value)),
    {
        let index = register.index();
        &mut self.registers[index / 2][index % 2]
    }

    /// Get a mutable reference to a 16-bit register
    pub fn get_register_mut_16(&mut self, register: Register16) -> (value: &mut [u8; 2])
        ensures
            value[0] == old(self)@.regs[2 * register.idx()],
            value[1] == old(self)@.regs[2 * register.idx() + 1],
            final(self)@ == old(self)@.set_pair(register, final(value)[0], final(value)[1]),
    {
        &mut self.registers[register.index()]
    }

    /// Set the value of an 8-bit register
    pub fn set_register_8(&mut self, register: Register, value: u8)
        ensures
            final(self)@ == old(self)@.set8(register, value),
    {
        let index = register.index();
        self.registers[index / 2][index % 2] = value;
        assert(self@.regs =~= old(self)@.regs.update(register.idx(), value));
    }

    /// Set the value of a 16-bit register
    pub fn set_register_16(&mut self, register: Register16, value: u16)
        ensures
            final(self)@ == old(self)@.set16(register, value),
    {
        let index = register.index();
        self.registers[index] = [(value % 256) as u8, (value / 256) as u8];
        assert(self@.regs =~= old(self)@.set16(register, value).regs);
    }

    /// Set the value of a 16-bit register to a 2-byte array
    pub fn set_register_16_bytes(&mut self, register: Register16, value: [u8; 2])
        ensures
            final(self)@ == old(self)@.set_pair(register, value[0], value[1]),
    {
        let index = register.index();
        self.registers[index] = value;
        assert(self@.regs =~= old(self)@.set_pair(register, value[0], value[1]).regs);
    }
}

impl State {
    /// Get the value of the register A
    pub fn a(&self) -> (value: u8)
        ensures
            value == self@.r8(Register::A),
    {
        self.get_register_8(Register::A)
    }

    /// Get a mutable reference to the register A
    pub fn a_mut(&mut self) -> (value: &mut u8)
        ensures
            *value == old(self)@.r8(Register::A),
            final(self)@ == old(self)@.set8(Register::A, *final(value)),
    {
        self.get_register_mut_8(Register::A)
    }

    /// Get the value of the register B
    pub fn b(&self) -> (value: u8)
        ensures
            value == self@.r8(Register::B),
    {
        self.get_register_8(Register::B)
    }

    /// Get a mutable reference to the register B
    pub fn b_mut(&mut self) -> (value: &mut u8)
        ensures
            *value == old(self)@.r8(Register::B),
            final(self)@ == old(self)@.set8(Register::B, *final(value)),
    {
        self.get_register_mut_8(Register::B)
    }

    /// Get the value of the register C
    pub fn c(&self) -> (value: u8)
        ensures
            value == self@.r8(Register::C),
    {
        self.get_register_8(Register::C)
    }

    /// Get a mutable reference to the register C
    pub fn c_mut(&mut self) -> (value: &mut u8)
        ensures
            *value == old(self)@.r8(Register::C),
            final(self)@ == old(self)@.set8(Register::C, *final(value)),
    {
        self.get_register_mut_8(Register::C)
    }

    /// Get the value of the register D
    pub fn d(&self) -> (value: u8)
        ensures
            value == self@.r8(Register::D),
    {
        self.get_register_8(Register::D)
    }

    /// Get a mutable reference to the register D
    pub fn d_mut(&mut self) -> (value: &mut u8)
        ensures
            *value == old(self)@.r8(Register::D),
            final(self)@ == old(self)@.set8(Register::D, *final(value)),
    {
        self.get_register_mut_8(Register::D)
    }

    /// Get the value of the register E
    pub fn e(&self) -> (value: u8)
        ensures
            value == self@.r8(Register::E),
    {
        self.get_register_8(Register::E)
    }

    /// Get a mutable reference to the register E
    pub fn e_mut(&mut self) -> (value: &mut u8)
        ensures
            *value == old(self)@.r8(Register::E),
            final(self)@ == old(self)@.set8(Register::E, *final(value)),
    {
        self.get_register_mut_8(Register::E)
    }

    /// Get the value of the register H
    pub fn h(&self) -> (value: u8)
        ensures
            value == self@.r8(Register::H),
    {
        self.get_register_8(Register::H)
    }

    /// Get a mutable reference to the register H
    pub fn h_mut(&mut self) -> (value: &mut u8)
        ensures
            *value == old(self)@.r8(Register::H),
            final(self)@ == old(self)@.set8(Register::H, *final(value)),
    {
        self.get_register_mut_8(Register::H)
    }

    /// Get the value of the register L
    pub fn l(&self) -> (value: u8)
        ensures
            value == self@.r8(Register::L),
    {
        self.get_register_8(Register::L)
    }

    /// Get a mutable reference to the register L
    pub fn l_mut(&mut self) -> (value: &mut u8)
        ensures
            *value == old(self)@.r8(Register::L),
            final(self)@ == old(self)@.set8(Register::L, *final(value)),
    {
        self.get_register_mut_8(Register::L)
    }

    /// Get the value of the register I
    pub fn i(&self) -> (value: u8)
        ensures
            value == self@.r8(Register::I),
    {
        self.get_register_8(Register::I)
    }

    /// Get a mutable reference to the register I
    pub fn i_mut(&mut self) -> (value: &mut u8)
        ensures
            *value == old(self)@.r8(Register::I),
            final(self)@ == old(self)@.set8(Register::I, *final(value)),
    {
        self.get_register_mut_8(Register::I)
    }

    /// Get the value of the register R
    pub fn r(&self) -> (value: u8)
        ensures
            value == self@.r8(Register::R),
    {
        self.get_register_8(Register::R)
    }

    /// Get a mutable reference to the register R
    pub fn r_mut(&mut self) -> (value: &mut u8)
        ensures
            *value == old(self)@.r8(Register::R),
            final(self)@ == old(self)@.set8(Register::R, *final(value)),
    {
        self.get_register_mut_8(Register::R)
    }

    /// Get the value of the register Z
    pub fn z(&self) -> (value: u8)
        ensures
            value == self@.r8(Register::Z),
    {
        self.get_register_8(Register::Z)
    }

    /// Get a mutable reference to the register Z
    pub fn z_mut(&mut self) -> (value: &mut u8)
        ensures
            *value == old(self)@.r8(Register::Z),
            final(self)@ == old(self)@.set8(Register::Z, *final(value)),
    {
        self.get_register_mut_8(Register::Z)
    }

    /// Get the value of the register W
    pub fn w(&self) -> (value: u8)
        ensures
            value == self@.r8(Register::W),
    {
        self.get_register_8(Register::W)
    }

    /// Get a mutable reference to the register W
    pub fn w_mut(&mut self) -> (value: &mut u8)
        ensures
            *value == old(self)@.r8(Register::W),
            final(self)@ == old(self)@.set8(Register::W, *final(value)),
    {
        self.get_register_mut_8(Register::W)
    }

    /// Get the value of the register AF
    pub fn af(&self) -> (value: u16)
        ensures
            value == self@.r16(Register16::AF),
    {
        self.get_register_16(Register16::AF)
    }

    /// Get the value of the register AF as a little endian array of bytes
    pub fn af_bytes(&self) -> (bytes: [u8; 2])
        ensures
            bytes == self@.bytes(Register16::AF),
    {
        self.get_register_16_bytes(Register16::AF)
    }

    /// Get a mutable reference to the register AF
    pub fn af_mut(&mut self) -> (value: &mut [u8; 2])
        ensures
            value[0] == old(self)@.regs[2 * Register16::AF.idx()],
            value[1] == old(self)@.regs[2 * Register16::AF.idx() + 1],
            final(self)@ == old(self)@.set_pair(Register16::AF, final(value)[0], final(value)[1]),
    {
        self.get_register_mut_16(Register16::AF)
    }

    /// Get the value of the register BC
    pub fn bc(&self) -> (value: u16)
        ensures
            value == self@.r16(Register16::BC),
    {
        self.get_register_16(Register16::BC)
    }

    /// Get the value of the register BC as a little endian array of bytes
    pub fn bc_bytes(&self) -> (bytes: [u8; 2])
        ensures
            bytes == self@.bytes(Register16::BC),
    {
        self.get_register_16_bytes(Register16::BC)
    }

    /// Get a mutable reference to the register BC
    pub fn bc_mut(&mut self) -> (value: &mut [u8; 2])
        ensures
            value[0] == old(self)@.regs[2 * Register16::BC.idx()],
            value[1] == old(self)@.regs[2 * Register16::BC.idx() + 1],
            final(self)@ == old(self)@.set_pair(Register16::BC, final(value)[0], final(value)[1]),
    {
        self.get_register_mut_16(Register16::BC)
    }

    /// Get the value of the register DE
    pub fn de(&self) -> (value: u16)
        ensures
            value == self@.r16(Register16::DE),
    {
        self.get_register_16(Register16::DE)
    }

    /// Get the value of the register DE as a little endian array of bytes
    pub fn de_bytes(&self) -> (bytes: [u8; 2])
        ensures
            bytes == self@.bytes(Register16::DE),
    {
        self.get_register_16_bytes(Register16::DE)
    }

    /// Get a mutable reference to the register DE
    pub fn de_mut(&mut self) -> (value: &mut [u8; 2])
        ensures
            value[0] == old(self)@.regs[2 * Register16::DE.idx()],
            value[1] == old(self)@.regs[2 * Register16::DE.idx() + 1],
            final(self)@ == old(self)@.set_pair(Register16::DE, final(value)[0], final(value)[1]),
    {
        self.get_register_mut_16(Register16::DE)
    }

    /// Get the value of the register HL
    pub fn hl(&self) -> (value: u16)
        ensures
            value == self@.r16(Register16::HL),
    {
        self.get_register_16(Register16::HL)
    }

    /// Get the value of the register HL as a little endian array of bytes
    pub fn hl_bytes(&self) -> (bytes: [u8; 2])
        ensures
            bytes == self@.bytes(Register16::HL),
    {
        self.get_register_16_bytes(Register16::HL)
    }

    /// Get a mutable reference to the register HL
    pub fn hl_mut(&mut self) -> (value: &mut [u8; 2])
        ensures
            value[0] == old(self)@.regs[2 * Register16::HL.idx()],
            value[1] == old(self)@.regs[2 * Register16::HL.idx() + 1],
            final(self)@ == old(self)@.set_pair(Register16::HL, final(value)[0], final(value)[1]),
    {
        self.get_register_mut_16(Register16::HL)
    }

    /// Get the value of the register SP
    pub fn sp(&self) -> (value: u16)
        ensures
            value == self@.r16(Register16::SP),
    {
        self.get_register_16(Register16::SP)
    }

    /// Get the value of the register SP as a little endian array of bytes
    pub fn sp_bytes(&self) -> (bytes: [u8; 2])
        ensures
            bytes == self@.bytes(Register16::SP),
    {
        self.get_register_16_bytes(Register16::SP)
    }

    /// Get a mutable reference to the register SP
    pub fn sp_mut(&mut self) -> (value: &mut [u8; 2])
        ensures
            value[0] == old(self)@.regs[2 * Register16::SP.idx()],
            value[1] == old(self)@.regs[2 * Register16::SP.idx() + 1],
            final(self)@ == old(self)@.set_pair(Register16::SP, final(value)[0], final(value)[1]),
    {
        self.get_register_mut_16(Register16::SP)
    }

    /// Get the value of the register PC
    pub fn pc(&self) -> (value: u16)
        ensures
            value == self@.r16(Register16::PC),
    {
        self.get_register_16(Register16::PC)
    }

    /// Get the value of the register PC as a little endian array of bytes
    pub fn pc_bytes(&self) -> (bytes: [u8; 2])
        ensures
            bytes == self@.bytes(Register16::PC),
    {
        self.get_register_16_bytes(Register16::PC)
    }

    /// Get a mutable reference to the register PC
    pub fn pc_mut(&mut self) -> (value: &mut [u8; 2])
        ensures
            value[0] == old(self)@.regs[2 * Register16::PC.idx()],
            value[1] == old(self)@.regs[2 * Register16::PC.idx() + 1],
            final(self)@ == old(self)@.set_pair(Register16::PC, final(value)[0], final(value)[1]),
    {
        self.get_register_mut_16(Register16::PC)
    }

    /// Get the value of the register IX
    pub fn ix(&self) -> (value: u16)
        ensures
            value == self@.r16(Register16::IX),
    {
        self.get_register_16(Register16::IX)
    }

    /// Get the value of the register IX as a little endian array of bytes
    pub fn ix_bytes(&self) -> (bytes: [u8; 2])
        ensures
            bytes == self@.bytes(Register16::IX),
    {
        self.get_register_16_bytes(Register16::IX)
    }

    /// Get a mutable reference to the register IX
    pub fn ix_mut(&mut self) -> (value: &mut [u8; 2])
        ensures
            value[0] == old(self)@.regs[2 * Register16::IX.idx()],
            value[1] == old(self)@.regs[2 * Register16::IX.idx() + 1],
            final(self)@ == old(self)@.set_pair(Register16::IX, final(value)[0], final(value)[1]),
    {
        self.get_register_mut_16(Register16::IX)
    }

    /// Get the value of the register IY
    pub fn iy(&self) -> (value: u16)
        ensures
            value == self@.r16(Register16::IY),
    {
        self.get_register_16(Register16::IY)
    }

    /// Get the value of the register IY as a little endian array of bytes
    pub fn iy_bytes(&self) -> (bytes: [u8; 2])
        ensures
            bytes == self@.bytes(Register16::IY),
    {
        self.get_register_16_bytes(Register16::IY)
    }

    /// Get a mutable reference to the register IY
    pub fn iy_mut(&mut self) -> (value: &mut [u8; 2])
        ensures
            value[0] == old(self)@.regs[2 * Register16::IY.idx()],
            value[1] == old(self)@.regs[2 * Register16::IY.idx() + 1],
            final(self)@ == old(self)@.set_pair(Register16::IY, final(value)[0], final(value)[1]),
    {
        self.get_register_mut_16(Register16::IY)
    }

    /// Get the value of the register WZ
    pub fn wz(&self) -> (value: u16)
        ensures
            value == self@.r16(Register16::WZ),
    {
        self.get_register_16(Register16::WZ)
    }

    /// Get the value of the register WZ as a little endian array of bytes
    pub fn wz_bytes(&self) -> (bytes: [u8; 2])
        ensures
            bytes == self@.bytes(Register16::WZ),
    {
        self.get_register_16_bytes(Register16::WZ)
    }

    /// Get a mutable reference to the register WZ
    pub fn wz_mut(&mut self) -> (value: &mut [u8; 2])
        ensures
            value[0] == old(self)@.regs[2 * Register16::WZ.idx()],
            value[1] == old(self)@.regs[2 * Register16::WZ.idx() + 1],
            final(self)@ == old(self)@.set_pair(Register16::WZ, final(value)[0], final(value)[1]),
    {
        self.get_register_mut_16(Register16::WZ)
    }

}

impl State {
    /// Advances the PC by an amount of bytes.
    pub fn advance_pc(&mut self, amount: u16)
        ensures
            final(self)@ == old(self)@.set16(Register16::PC, add16(old(self)@.pc(), amount as int)),
    {
        let pc_addr = self.get_register_16(Register16::PC);
        self.set_register_16(Register16::PC, pc_addr.wrapping_add(amount))
    }

    /// Get the value of the flags.
    pub fn get_flags(&self) -> (flags: Flags)
        ensures
            flags@ == self@.flags(),
    {
        Flags::from_raw(self.get_register_8(Register::Flags))
    }

    /// Change the flags register to the new value.
    pub fn update_flags(&mut self, flags: Flags)
        ensures
            final(self)@ == old(self)@.set_flags(flags@),
    {
        self.set_register_8(Register::Flags, flags.as_u8());
    }

    /// Set or reset flags to the value of a boolean
    pub fn flags_from_bool(&mut self, flags: u8, value: bool)
        ensures
            final(self)@ == old(self)@.set_flags(
                if value {
                    (old(self)@.flags() | flags) as u8
                } else {
                    (old(self)@.flags() & !flags) as u8
                },
            ),
    {
        let register = self.get_register_mut_8(Register::Flags);
        if value {
            *register = *register | flags;
        } else {
            *register = *register & !flags;
        }
    }

    /// Skip the execution of the current instruction and proceed to the next
    pub fn skip_instruction(&mut self)
        ensures
            final(self)@ == old(self)@.set_mpc(usize::MAX),
    {
        self.mpc = usize::MAX;
    }

    /// Receive a byte from memory or I/O ports
    ///
    /// The value is stored in the `Z` register
    pub fn load_data_8(&mut self, data: u8)
        ensures
            final(self)@ == old(self)@.set8(Register::Z, data),
    {
        self.set_register_8(Register::Z, data);
    }

    /// Receive a word from memory or I/O ports
    ///
    /// The value is stored in the `WZ` register
    pub fn load_data_16(&mut self, data: [u8; 2])
        ensures
            final(self)@ == old(self)@.set_pair(Register16::WZ, data[0], data[1]),
    {
        self.set_register_16_bytes(Register16::WZ, data);
    }

    /// Advance the R register to the next value
    pub fn advance_r(&mut self)
        ensures
            final(self)@ == old(self)@.set8(Register::R, next_r(old(self)@.r8(Register::R))),
    {
        let r = self.r();
        let next = (r.wrapping_add(1) & !(1u8 << 7u8)) | r & 1u8 << 7u8;
        assert((r.wrapping_add(1) & !(1u8 << 7u8)) | r & 1u8 << 7u8 == ((r & 0x80) | (((r + 1)
            % 128) as u8))) by (bit_vector);
        *self.r_mut() = next;
    }

    /// Move R backwards
    pub fn revert_r(&mut self)
        ensures
            final(self)@ == old(self)@.set8(Register::R, prev_r(old(self)@.r8(Register::R))),
    {
        let r = self.r();
        let prev = (r.wrapping_sub(1) & !(1u8 << 7u8)) | r & 1u8 << 7u8;
        assert((r.wrapping_sub(1) & !(1u8 << 7u8)) | r & 1u8 << 7u8 == ((r & 0x80) | (((r + 127)
            % 128) as u8))) by (bit_vector);
        *self.r_mut() = prev;
    }
}

} // verus!
