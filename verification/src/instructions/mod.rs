//! # Instructions
//!
//! The emulator decodes instructions using tables of opcodes. The tables have 256 entries that map
//! opcodes to instruction descriptions or, in case of prefixes, to other tables.
//!
//! Each decoded instruction is a sequence of microinstructions. Each microinstruction operates on
//! the machine [`State`](crate::state::State) and returns an [`ExecResult`]. After an instruction
//! is decoded, its microinstructions are executed one by one until the end. Then the emulator reads
//! and decodes the next instruction.

use crate::instructions::micro::step::Microinstruction;
use vstd::prelude::*;

pub mod decoder;
pub mod micro;

verus! {

/// Value returned after a microinstruction.
#[derive(Debug, Copy, Clone, Eq, PartialEq)]
pub enum ExecResult {
    /// Finished executing one instruction.
    ///
    /// The number is the amount of clock cycles the last step took.
    Done(u32),
    /// The emulator requests an opcode byte from memory.
    Fetch {
        /// The memory address to be read.
        address: u16,
    },
    /// The emulator requests 1 byte of data from memory.
    Load {
        /// The memory address to be read.
        address: u16,
    },
    /// The emulator requests 2 bytes of data from memory.
    Load16 {
        /// The memory address to be read.
        address: u16,
    },
    /// The emulator wants to store a byte in the given memory `address`.
    Store {
        /// The memory address that will be changed.
        address: u16,
        /// The new value to be stored in the address
        data: u8,
    },
    /// The emulator wants to store two bytes sequentially starting in the given memory `address`.
    Store16 {
        /// The memory address that will be changed.
        address: u16,
        /// The values to be stored in the address
        data: [u8; 2],
    },
    /// The emulator wants to read data from an I/O port.
    In {
        /// The port address
        port: u16,
    },
    /// The emulator wants to write a byte to an I/O port.
    Out {
        /// The port that will receive data.
        port: u16,
        /// The data to be written to the port.
        data: u8,
    },
    /// Executed a `HALT` instruction.
    ///
    /// The processor stopped running until it receives an interruption
    Halt,
    /// Returned from an interrupt handler with `RETI`.
    Reti(u32),
    /// Enabled interrupts with `EI`.
    Ei(u32),
    /// Started handling an interrupt.
    Int(u32),
}

impl ExecResult {
    /// Request to fetch an opcode from `address`.
    pub fn fetch(address: u16) -> (result: ExecResult)
        ensures
            result == (ExecResult::Fetch { address }),
    {
        ExecResult::Fetch { address }
    }

    /// Request to load a byte from `address`.
    pub fn load(address: u16) -> (result: ExecResult)
        ensures
            result == (ExecResult::Load { address }),
    {
        ExecResult::Load { address }
    }

    /// Request to load two bytes starting at `address`.
    pub fn load16(address: u16) -> (result: ExecResult)
        ensures
            result == (ExecResult::Load16 { address }),
    {
        ExecResult::Load16 { address }
    }

    /// Request to read a byte from the I/O `port`.
    pub fn input(port: u16) -> (result: ExecResult)
        ensures
            result == (ExecResult::In { port }),
    {
        ExecResult::In { port }
    }

    /// Number of clock cycles the step took.
    pub open spec fn spec_t_states(self) -> u32 {
        match self {
            ExecResult::Done(cycles) => cycles,
            ExecResult::Fetch { .. } => 4,
            ExecResult::Load { .. } => 3,
            ExecResult::Load16 { .. } => 6,
            ExecResult::Store { .. } => 3,
            ExecResult::Store16 { .. } => 6,
            ExecResult::In { .. } => 4,
            ExecResult::Out { .. } => 4,
            ExecResult::Halt => 4,
            ExecResult::Reti(cycles) => cycles,
            ExecResult::Ei(cycles) => cycles,
            ExecResult::Int(cycles) => cycles,
        }
    }

    /// Number of clock cycles the step took.
    ///
    /// Memory and I/O requests take the time of the bus cycle they need: 4 for an opcode fetch or a
    /// port access, 3 for a byte of memory. The other results carry their own count.
    #[verifier::when_used_as_spec(spec_t_states)]
    pub fn t_states(self) -> (cycles: u32)
        ensures
            cycles == self.spec_t_states(),
    {
        match self {
            ExecResult::Done(cycles) => cycles,
            ExecResult::Fetch { .. } => 4,
            ExecResult::Load { .. } => 3,
            ExecResult::Load16 { .. } => 6,
            ExecResult::Store { .. } => 3,
            ExecResult::Store16 { .. } => 6,
            ExecResult::In { .. } => 4,
            ExecResult::Out { .. } => 4,
            ExecResult::Halt => 4,
            ExecResult::Reti(cycles) => cycles,
            ExecResult::Ei(cycles) => cycles,
            ExecResult::Int(cycles) => cycles,
        }
    }

    /// Is this a request to read or write memory?
    pub open spec fn spec_is_memory(self) -> bool {
        match self {
            ExecResult::Fetch { .. } | ExecResult::Load { .. } | ExecResult::Load16 { .. }
            | ExecResult::Store { .. } | ExecResult::Store16 { .. } => true,
            _ => false,
        }
    }

    /// Is this a request to read or write memory?
    #[verifier::when_used_as_spec(spec_is_memory)]
    pub fn is_memory(self) -> (memory: bool)
        ensures
            memory == self.spec_is_memory(),
    {
        match self {
            ExecResult::Fetch { .. } | ExecResult::Load { .. } | ExecResult::Load16 { .. }
            | ExecResult::Store { .. } | ExecResult::Store16 { .. } => true,
            _ => false,
        }
    }

    /// The memory address of a memory request.
    pub open spec fn spec_get_address(self) -> Option<u16> {
        match self {
            ExecResult::Fetch { address } => Some(address),
            ExecResult::Load { address } => Some(address),
            ExecResult::Load16 { address } => Some(address),
            ExecResult::Store { address, .. } => Some(address),
            ExecResult::Store16 { address, .. } => Some(address),
            _ => None,
        }
    }

    /// The memory address of a memory request, or `None` for the other results.
    #[verifier::when_used_as_spec(spec_get_address)]
    pub fn get_address(self) -> (address: Option<u16>)
        ensures
            address == self.spec_get_address(),
    {
        match self {
            ExecResult::Fetch { address } => Some(address),
            ExecResult::Load { address } => Some(address),
            ExecResult::Load16 { address } => Some(address),
            ExecResult::Store { address, .. } => Some(address),
            ExecResult::Store16 { address, .. } => Some(address),
            _ => None,
        }
    }

    /// Does this result end an instruction?
    pub open spec fn spec_is_finished(self) -> bool {
        match self {
            ExecResult::Done(_) | ExecResult::Halt | ExecResult::Reti(_) | ExecResult::Ei(_) => true,
            _ => false,
        }
    }

    /// Does this result end an instruction?
    ///
    /// Interrupts are only serviced between instructions.
    #[verifier::when_used_as_spec(spec_is_finished)]
    pub fn is_finished(self) -> (finished: bool)
        ensures
            finished == self.spec_is_finished(),
    {
        match self {
            ExecResult::Done(_) | ExecResult::Halt | ExecResult::Reti(_) | ExecResult::Ei(_) => true,
            _ => false,
        }
    }

    /// Can a regular interrupt be serviced right after this result?
    pub open spec fn spec_can_interrupt(self) -> bool {
        self.spec_is_finished() && !(self is Ei)
    }

    /// Can a regular interrupt be serviced right after this result?
    ///
    /// Instructions must be finished, and the instruction right after `EI` is never interrupted.
    #[verifier::when_used_as_spec(spec_can_interrupt)]
    pub fn can_interrupt(self) -> (can: bool)
        ensures
            can == self.spec_can_interrupt(),
    {
        match self {
            ExecResult::Ei(_) => false,
            _ => self.is_finished(),
        }
    }
}

/// How many extra bytes an instruction has after its opcode
#[derive(Debug, Clone, Copy, Eq, PartialEq, Structural)]
pub enum ExtraBytes {
    /// The instruction is only its opcode
    Zero,
    /// One byte follows the opcode; it is loaded into `Z`
    One,
    /// Two bytes follow the opcode; they are loaded into `WZ`
    Two,
}

/// Representation of an entry of an instruction table and how to run it
#[derive(Debug, Clone)]
pub enum Instruction {
    /// Prefix for another instruction table, given by its index in the instruction set
    Prefix(usize),
    /// Prefix for a table whose opcode comes after a one byte offset.
    ///
    /// The offset and the opcode are loaded together; the offset ends in `W`.
    TwoPrefix(usize),
    /// The prefix before this opcode is ignored: the opcode is looked up in the main table
    NoPrefix,
    /// Actual instruction
    ///
    /// An instruction is just a sequence of microinstructions
    Instruction {
        /// How many extra bytes should be loaded
        extra_bytes: ExtraBytes,
        /// The list of micro instructions implementing the instruction
        micros: Vec<Microinstruction>,
    },
}

/// An entry of an instruction table as a mathematical value.
#[verifier::ext_equal]
pub enum EntryView {
    /// Prefix for another table
    Prefix(usize),
    /// Prefix for a table whose opcode comes after a one byte offset
    TwoPrefix(usize),
    /// The prefix is ignored
    NoPrefix,
    /// An instruction: its extra bytes and its microinstructions
    Instruction(ExtraBytes, Seq<Microinstruction>),
}

impl View for Instruction {
    type V = EntryView;

    open spec fn view(&self) -> EntryView {
        match self {
            Instruction::Prefix(t) => EntryView::Prefix(*t),
            Instruction::TwoPrefix(t) => EntryView::TwoPrefix(*t),
            Instruction::NoPrefix => EntryView::NoPrefix,
            Instruction::Instruction { extra_bytes, micros } => EntryView::Instruction(
                *extra_bytes,
                micros@,
            ),
        }
    }
}

/// A sequence of microinstructions that can run: it isn't empty, its bit numbers are valid, and
/// `halt` can only end it.
pub open spec fn micros_wf(micros: Seq<Microinstruction>) -> bool {
    &&& micros.len() >= 1
    &&& forall|i: int| 0 <= i < micros.len() ==> (#[trigger] micros[i]).wf()
    &&& forall|i: int| 0 <= i < micros.len() - 1 ==> !(#[trigger] micros[i] is Halt)
}

impl Instruction {
    /// Is this an instruction with these extra bytes, made of these microinstructions?
    pub open spec fn has(self, extra: ExtraBytes, micros: Seq<Microinstruction>) -> bool {
        &&& self matches Instruction::Instruction { extra_bytes, micros: m }
        &&& extra_bytes == extra
        &&& m@ == micros
    }

    /// Is this the entry described by `entry`: an instruction with these extra bytes and
    /// microinstructions, or, for `None`, an entry that ignores the prefix?
    pub open spec fn is_described_by(self, entry: Option<(ExtraBytes, Seq<Microinstruction>)>) -> bool {
        match entry {
            Some((extra, micros)) => self.has(extra, micros),
            None => self is NoPrefix,
        }
    }

    /// Is this an instruction without extra bytes, made of these microinstructions?
    pub open spec fn is_plain(self, micros: Seq<Microinstruction>) -> bool {
        self.has(ExtraBytes::Zero, micros)
    }

    /// Is this entry usable in a set of `n_tables` tables?
    pub open spec fn wf(self, n_tables: int) -> bool {
        match self {
            Instruction::Prefix(t) => t < n_tables,
            Instruction::TwoPrefix(t) => t < n_tables,
            Instruction::NoPrefix => true,
            Instruction::Instruction { micros, .. } => micros_wf(micros@),
        }
    }
}

/// The processor's instruction set.
///
/// This is a list of tables of 256 entries that map opcode bytes to instructions. The first table
/// is the main one: decoding starts there.
#[derive(Debug, Clone)]
pub struct InstructionSet {
    /// The tables of the instruction set
    pub tables: Vec<Vec<Instruction>>,
}

impl InstructionSet {
    /// An entry of a table.
    pub open spec fn entry(self, table: int, opcode: int) -> Instruction {
        self.tables@[table]@[opcode]
    }

    /// A table index that exists.
    pub open spec fn has_table(self, table: int) -> bool {
        0 <= table < self.tables@.len()
    }

    /// The instruction set can be decoded: every table has 256 entries, prefixes lead to tables
    /// that exist, instructions have microinstructions, the main table ignores no prefix, and the
    /// tables reached after an offset only hold instructions.
    pub open spec fn wf(self) -> bool {
        &&& self.tables@.len() >= 1
        &&& forall|t: int| #![trigger self.tables@[t]] self.has_table(t) ==> self.tables@[t]@.len() == 256
        &&& forall|t: int, o: int|
            #![trigger self.entry(t, o)]
            self.has_table(t) && 0 <= o < 256 ==> self.entry(t, o).wf(self.tables@.len() as int)
        &&& forall|o: int| 0 <= o < 256 ==> !(#[trigger] self.entry(0, o) is NoPrefix)
        &&& forall|t: int, o: int, p: int|
            #![trigger self.entry(t, o), self.entry(self.entry(t, o)->TwoPrefix_0 as int, p)]
            self.has_table(t) && 0 <= o < 256 && self.entry(t, o) is TwoPrefix && 0 <= p < 256
                ==> self.entry(self.entry(t, o)->TwoPrefix_0 as int, p) is Instruction
    }
}

} // verus!
