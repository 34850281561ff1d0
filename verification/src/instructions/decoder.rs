//! Instruction decoder

use crate::instructions::micro::step::Microinstruction;
use crate::instructions::{micros_wf, ExtraBytes, Instruction, InstructionSet};
use crate::state::{Register, State, StateView};
use vstd::prelude::*;

verus! {

/// Decode state machine states
#[derive(Debug, Copy, Clone, Eq, PartialEq, Structural)]
pub enum DecoderState {
    /// Fetch the opcode from memory
    FetchOpcode,
    /// Do a table lookup on the fetched opcode
    Table,
    /// Do a table lookup on the opcode that came after an offset byte
    TwoPrefix,
    /// The instruction is fully decoded and ready to be executed
    Decoded,
}

/// The instruction decoder.
///
/// The decoder loads data from memory and walks over the tables until it has decoded an
/// instruction. Then it returns to its initial state to fetch the next.
#[derive(Debug, Clone)]
pub struct Decoder {
    /// The instruction tables
    pub instruction_set: InstructionSet,
    /// Index of the current instruction table
    pub current: usize,
    /// State of the decoder state machine
    pub state: DecoderState,
    /// The microinstructions of the last instruction that needed extra bytes
    pub last_instruction: Vec<Microinstruction>,
    /// An opcode to decode in place of the next fetch, sent by an interrupting device
    pub injected: Option<u8>,
    /// Is tracing enabled?
    pub is_tracing: bool,
    /// Is the state shown before each instruction?
    pub is_dumping_state: bool,
}

/// A list with one microinstruction that loads an opcode or instruction arguments.
pub open spec fn is_fetch_list(micros: Seq<Microinstruction>) -> bool {
    &&& micros.len() == 1
    &&& (micros[0] is Fetch || micros[0] is FetchByte || micros[0] is FetchWord)
}

/// The decoder as a mathematical value.
#[verifier::ext_equal]
pub struct DecoderView {
    /// The instruction tables
    pub instruction_set: InstructionSet,
    /// Index of the current instruction table
    pub current: usize,
    /// State of the decoder state machine
    pub state: DecoderState,
    /// The microinstructions of the last instruction that needed extra bytes
    pub last_instruction: Seq<Microinstruction>,
    /// An opcode to decode in place of the next fetch
    pub injected: Option<u8>,
    /// Is tracing enabled?
    pub is_tracing: bool,
    /// Is the state shown before each instruction?
    pub is_dumping_state: bool,
}

impl View for Decoder {
    type V = DecoderView;

    open spec fn view(&self) -> DecoderView {
        DecoderView {
            instruction_set: self.instruction_set,
            current: self.current,
            state: self.state,
            last_instruction: self.last_instruction@,
            injected: self.injected,
            is_tracing: self.is_tracing,
            is_dumping_state: self.is_dumping_state,
        }
    }
}

impl DecoderView {
    /// Is the decoder waiting for the start of an instruction?
    pub open spec fn is_idle(self) -> bool {
        self.state == DecoderState::FetchOpcode
    }

    /// The decoder can go on decoding.
    pub open spec fn wf(self) -> bool {
        &&& self.instruction_set.wf()
        &&& self.instruction_set.has_table(self.current as int)
        &&& self.state == DecoderState::FetchOpcode ==> self.current == 0
        &&& self.state == DecoderState::Decoded ==> micros_wf(self.last_instruction)
        &&& self.state == DecoderState::TwoPrefix ==> forall|p: int|
            0 <= p < 256 ==> (#[trigger] self.instruction_set.entry(self.current as int, p)) is Instruction
        &&& self.injected is Some ==> self.state == DecoderState::FetchOpcode
    }

    /// The decoder back in its initial state.
    pub open spec fn reset(self) -> DecoderView {
        DecoderView { current: 0, state: DecoderState::FetchOpcode, ..self }
    }

    /// Next decoder and microinstructions after looking up `opcode` in the current table.
    ///
    /// An entry that ignores the prefix is looked up in the main table.
    pub open spec fn lookup(self, opcode: u8) -> (DecoderView, Seq<Microinstruction>) {
        let found = self.instruction_set.entry(self.current as int, opcode as int);
        let entry = if found is NoPrefix {
            self.instruction_set.entry(0, opcode as int)
        } else {
            found
        };
        match entry {
            Instruction::Prefix(t) => (
                DecoderView { current: t, state: DecoderState::Table, ..self },
                seq![Microinstruction::Fetch],
            ),
            Instruction::TwoPrefix(t) => (
                DecoderView { current: t, state: DecoderState::TwoPrefix, ..self },
                seq![Microinstruction::FetchWord],
            ),
            Instruction::NoPrefix => (self.reset(), seq![Microinstruction::Done(0)]),
            Instruction::Instruction { extra_bytes, micros } => match extra_bytes {
                ExtraBytes::Zero => (self.reset(), micros@),
                ExtraBytes::One => (
                    DecoderView { last_instruction: micros@, state: DecoderState::Decoded, ..self },
                    seq![Microinstruction::FetchByte],
                ),
                ExtraBytes::Two => (
                    DecoderView { last_instruction: micros@, state: DecoderState::Decoded, ..self },
                    seq![Microinstruction::FetchWord],
                ),
            },
        }
    }

    /// The microinstructions of a decoding step can run.
    pub proof fn lemma_decoded_micros(self, s: StateView)
        requires
            self.wf(),
        ensures
            micros_wf(self.decode(s).2),
    {
        let set = self.instruction_set;
        let n = set.tables@.len() as int;
        if self.state == DecoderState::TwoPrefix {
            let o = s.r8(Register::W) as int;
            assert(set.entry(self.current as int, o).wf(n));
        } else if self.state == DecoderState::Table || self.injected is Some {
            let o = if self.state == DecoderState::Table {
                s.r8(Register::Z) as int
            } else {
                self.injected->0 as int
            };
            assert(set.entry(self.current as int, o).wf(n));
            assert(set.entry(0, o).wf(n));
        }
    }

    /// One step of decoding: the next decoder, the state and the microinstructions to run.
    pub open spec fn decode(self, s: StateView) -> (DecoderView, StateView, Seq<Microinstruction>) {
        match self.state {
            DecoderState::FetchOpcode => match self.injected {
                Some(opcode) => {
                    let (d, micros) = DecoderView { injected: None, ..self }.lookup(opcode);
                    (d, s, micros)
                },
                None => (
                    DecoderView { state: DecoderState::Table, ..self },
                    s,
                    seq![Microinstruction::Fetch],
                ),
            },
            DecoderState::Table => {
                let (d, micros) = self.lookup(s.r8(Register::Z));
                (d, s, micros)
            },
            DecoderState::TwoPrefix => {
                let entry = self.instruction_set.entry(
                    self.current as int,
                    s.r8(Register::W) as int,
                );
                (
                    self.reset(),
                    s.set8(Register::W, s.r8(Register::Z)),
                    match entry {
                        Instruction::Instruction { micros, .. } => micros@,
                        _ => seq![Microinstruction::Done(0)],
                    },
                )
            },
            DecoderState::Decoded => (self.reset(), s, self.last_instruction),
        }
    }
}

impl Decoder {
    /// Create a decoder to get instructions from the given instruction set
    pub fn new(instruction_set: InstructionSet) -> (decoder: Self)
        requires
            instruction_set.wf(),
        ensures
            decoder@.wf(),
            decoder@.is_idle(),
            decoder.instruction_set == instruction_set,
            decoder.current == 0,
            decoder.last_instruction@ == Seq::<Microinstruction>::empty(),
            decoder.injected is None,
            !decoder.is_tracing,
            !decoder.is_dumping_state,
    {
        Decoder {
            instruction_set,
            current: 0,
            state: DecoderState::FetchOpcode,
            last_instruction: Vec::new(),
            injected: None,
            is_tracing: false,
            is_dumping_state: false,
        }
    }

    /// Go back to the initial state
    pub fn reset(&mut self)
        requires
            old(self)@.wf(),
        ensures
            final(self)@ == old(self)@.reset(),
            final(self)@.wf(),
    {
        self.current = 0;
        self.state = DecoderState::FetchOpcode;
    }

    /// Fetch the next byte to be decoded
    pub fn fetch_next(&mut self, _state: &mut State) -> (micros: Vec<Microinstruction>)
        ensures
            micros@ == seq![Microinstruction::Fetch],
            final(self)@ == old(self)@,
            final(_state)@ == old(_state)@,
    {
        vec![Microinstruction::Fetch]
    }

    /// Look up an opcode in the current table.
    fn lookup_opcode(&mut self, opcode: u8) -> (micros: Vec<Microinstruction>)
        requires
            old(self)@.wf(),
            old(self).state != DecoderState::TwoPrefix,
            old(self).injected is None,
        ensures
            (final(self)@, micros@) == old(self)@.lookup(opcode),
            final(self)@.wf(),
            micros_wf(micros@),
            !final(self)@.is_idle() ==> is_fetch_list(micros@),
    {
        let ghost set = self.instruction_set;
        assert(set.entry(self.current as int, opcode as int).wf(set.tables@.len() as int));
        assert(set.entry(0, opcode as int).wf(set.tables@.len() as int));
        assert(!(set.entry(0, opcode as int) is NoPrefix));
        let table: usize = match &self.instruction_set.tables[self.current][opcode as usize] {
            Instruction::NoPrefix => 0,
            _ => self.current,
        };
        match &self.instruction_set.tables[table][opcode as usize] {
            Instruction::Prefix(next) => {
                // It's a prefix, so we need to move to the inner table and fetch another opcode
                self.current = *next;
                self.state = DecoderState::Table;
                vec![Microinstruction::Fetch]
            },
            Instruction::TwoPrefix(next) => {
                // The offset and the opcode come together
                let next = *next;
                proof {
                    assert forall|p: int| 0 <= p < 256 implies (#[trigger] set.entry(
                        next as int,
                        p,
                    )) is Instruction by {
                        if set.entry(self.current as int, opcode as int) is TwoPrefix {
                            assert(set.entry(
                                set.entry(self.current as int, opcode as int)->TwoPrefix_0 as int,
                                p,
                            ) is Instruction);
                        } else {
                            assert(set.entry(set.entry(0, opcode as int)->TwoPrefix_0 as int, p) is Instruction);
                        }
                    }
                }
                self.current = next;
                self.state = DecoderState::TwoPrefix;
                vec![Microinstruction::FetchWord]
            },
            Instruction::NoPrefix => {
                self.reset();
                vec![Microinstruction::Done(0)]
            },
            Instruction::Instruction { extra_bytes, micros } => {
                let micros = copy_micros(micros);
                match extra_bytes {
                    ExtraBytes::Zero => {
                        // Fully decoded the instruction.
                        self.reset();
                        micros
                    },
                    ExtraBytes::One => {
                        self.last_instruction = micros;
                        self.state = DecoderState::Decoded;
                        vec![Microinstruction::FetchByte]
                    },
                    ExtraBytes::Two => {
                        self.last_instruction = micros;
                        self.state = DecoderState::Decoded;
                        vec![Microinstruction::FetchWord]
                    },
                }
            },
        }
    }

    /// Advance on decoding the next instruction.
    pub fn decode(&mut self, state: &mut State) -> (micros: Vec<Microinstruction>)
        requires
            old(self)@.wf(),
        ensures
            (final(self)@, final(state)@, micros@) == old(self)@.decode(old(state)@),
            final(self)@.wf(),
            micros_wf(micros@),
            !final(self)@.is_idle() ==> is_fetch_list(micros@),
    {
        match self.state {
            DecoderState::FetchOpcode => {
                match self.injected {
                    Some(opcode) => {
                        // An interrupting device sent the opcode
                        self.injected = None;
                        self.lookup_opcode(opcode)
                    },
                    None => {
                        // Next state is to check the table
                        self.state = DecoderState::Table;
                        // Fetch the opcode
                        self.fetch_next(state)
                    },
                }
            },
            DecoderState::Table => {
                let opcode = state.z();
                self.lookup_opcode(opcode)
            },
            DecoderState::TwoPrefix => {
                // `Z` holds the offset and `W` the opcode: keep the offset in `W`
                let opcode = state.w();
                let offset = state.z();
                state.set_register_8(Register::W, offset);
                let ghost set = self.instruction_set;
                assert(set.entry(self.current as int, opcode as int).wf(set.tables@.len() as int));
                let micros = match &self.instruction_set.tables[self.current][opcode as usize] {
                    Instruction::Instruction { micros, .. } => copy_micros(micros),
                    _ => vec![Microinstruction::Done(0)],
                };
                self.reset();
                micros
            },
            DecoderState::Decoded => {
                // Decoded the instruction: Reset the decoder and return the micro instructions
                self.reset();
                copy_micros(&self.last_instruction)
            },
        }
    }

    /// Decode `opcode` in place of the next fetched one.
    ///
    /// This only happens between instructions, when no other opcode is waiting.
    pub fn inject_opcode(&mut self, opcode: u8) -> (injected: bool)
        requires
            old(self)@.wf(),
        ensures
            injected == (old(self)@.is_idle() && old(self).injected is None),
            injected ==> final(self)@ == (DecoderView { injected: Some(opcode), ..old(self)@ }),
            !injected ==> final(self)@ == old(self)@,
            final(self)@.wf(),
    {
        if self.state == DecoderState::FetchOpcode && self.injected.is_none() {
            self.injected = Some(opcode);
            true
        } else {
            false
        }
    }

    /// Show the instructions as they are decoded
    pub fn enable_tracing(&mut self)
        ensures
            final(self)@ == (DecoderView { is_tracing: true, ..old(self)@ }),
    {
        self.is_tracing = true;
    }

    /// Don't show the instructions
    pub fn disable_tracing(&mut self)
        ensures
            final(self)@ == (DecoderView { is_tracing: false, ..old(self)@ }),
    {
        self.is_tracing = false;
    }

    /// Show the state before each instruction
    pub fn enable_state_dump(&mut self)
        ensures
            final(self)@ == (DecoderView { is_dumping_state: true, ..old(self)@ }),
    {
        self.is_dumping_state = true;
    }

    /// Don't show the state before each instruction
    pub fn disable_state_dump(&mut self)
        ensures
            final(self)@ == (DecoderView { is_dumping_state: false, ..old(self)@ }),
    {
        self.is_dumping_state = false;
    }
}

/// A copy of a list of microinstructions.
pub fn copy_micros(micros: &Vec<Microinstruction>) -> (copy: Vec<Microinstruction>)
    ensures
        copy@ == micros@,
{
    let mut copy: Vec<Microinstruction> = Vec::new();
    let mut i: usize = 0;
    while i < micros.len()
        invariant
            i <= micros@.len(),
            copy@ == micros@.subrange(0, i as int),
        decreases micros@.len() - i,
    {
        copy.push(micros[i]);
        i += 1;
    }
    assert(copy@ =~= micros@);
    copy
}

} // verus!
