//! The core of the emulator

use crate::cpus::z80::{entry_ok, z80};
use crate::instructions::decoder::{is_fetch_list, Decoder, DecoderView};
use crate::instructions::micro::step::{execute, step, Microinstruction};
use crate::instructions::{ExecResult, InstructionSet};
use crate::memory::Memory;
use crate::state::{add16, next_r, InterruptMode, Register, Register16, State, StateView};
use vstd::prelude::*;

verus! {

/// The Z80 emulator
#[derive(Debug, Clone)]
pub struct Emulator {
    /// Internal state of the processor
    pub state: State,
    /// The instruction decoder
    decoder: Decoder,
    /// The microinstructions being executed
    micros: Vec<Microinstruction>,
    /// Is a Nonmaskable Interrupt waiting to be handled?
    nmi_pending: bool,
    /// Is a regular interrupt waiting to be handled?
    int_pending: bool,
    /// Data for the interrupt
    interrupt_data: u8,
    /// The result of the last time `run` was executed
    last_result: ExecResult,
}

/// The emulator as a mathematical value.
#[verifier::ext_equal]
pub struct EmulatorView {
    /// Internal state of the processor
    pub state: StateView,
    /// The instruction decoder
    pub decoder: DecoderView,
    /// The microinstructions being executed
    pub micros: Seq<Microinstruction>,
    /// Is a Nonmaskable Interrupt waiting to be handled?
    pub nmi_pending: bool,
    /// Is a regular interrupt waiting to be handled?
    pub int_pending: bool,
    /// Data for the interrupt
    pub interrupt_data: u8,
    /// The result of the last run
    pub last_result: ExecResult,
}

impl View for Emulator {
    type V = EmulatorView;

    closed spec fn view(&self) -> EmulatorView {
        EmulatorView {
            state: self.state@,
            decoder: self.decoder@,
            micros: self.micros@,
            nmi_pending: self.nmi_pending,
            int_pending: self.int_pending,
            interrupt_data: self.interrupt_data,
            last_result: self.last_result,
        }
    }
}

/// The microinstructions that call the nonmaskable interrupt handler at `0066h`.
pub open spec fn nmi_micros() -> Seq<Microinstruction> {
    seq![Microinstruction::Push(Register16::PC), Microinstruction::JumpTo(0x66, 0)]
}

/// The microinstructions that call the interrupt handler at the address held in `WZ`.
pub open spec fn vectored_micros() -> Seq<Microinstruction> {
    seq![Microinstruction::Push(Register16::PC), Microinstruction::JrMm(0)]
}

/// The answers of a trap that never catches a result, for `n` rounds.
pub open spec fn no_traps(n: nat) -> Seq<bool> {
    Seq::new(n, |i: int| false)
}

/// The clock cycles the results took, saturating at `u64::MAX`.
pub open spec fn elapsed(results: Seq<ExecResult>) -> u64
    decreases results.len(),
{
    if results.len() == 0 {
        0
    } else {
        elapsed(results.drop_last()).saturating_add(results.last().spec_t_states() as u64)
    }
}

/// One more result adds its cycles, and keeps the cycles of the earlier ones.
proof fn lemma_elapsed_push(results: Seq<ExecResult>, result: ExecResult)
    ensures
        elapsed(results.push(result)) == elapsed(results).saturating_add(
            result.spec_t_states() as u64,
        ),
        forall|i: int| 0 < i <= results.len() ==> #[trigger] results.push(result).take(i)
            == results.take(i),
{
    assert(results.push(result).drop_last() =~= results);
    assert forall|i: int| 0 < i <= results.len() implies #[trigger] results.push(result).take(i)
        == results.take(i) by {
        assert(results.push(result).take(i) =~= results.take(i));
    }
}

/// Can a memory request be carried out in a memory of this size?
///
/// Two byte requests need both of their addresses, the second one wrapping around.
pub open spec fn accessible(request: ExecResult, memory: Seq<u8>) -> bool {
    match request {
        ExecResult::Fetch { address } => address < memory.len(),
        ExecResult::Load { address } => address < memory.len(),
        ExecResult::Store { address, .. } => address < memory.len(),
        ExecResult::Load16 { address } => address < memory.len() && add16(address, 1)
            < memory.len(),
        ExecResult::Store16 { address, .. } => address < memory.len() && add16(address, 1)
            < memory.len(),
        _ => false,
    }
}

impl EmulatorView {
    /// The emulator can keep running.
    ///
    /// The register file has its 28 bytes. Microinstructions have valid bit numbers, `halt` ends
    /// its instruction, the decoder can go on, and while an instruction
    /// is being decoded (or an interrupting device's opcode waits to be) the last result doesn't
    /// end an instruction, so no interrupt is serviced in between. An opcode from a device waits
    /// with no microinstruction left to run.
    pub open spec fn wf(self) -> bool {
        &&& self.state.wf()
        &&& self.micros.len() <= usize::MAX
        &&& self.decoder.wf()
        &&& forall|i: int| 0 <= i < self.micros.len() ==> (#[trigger] self.micros[i]).wf()
        &&& forall|i: int| 0 <= i < self.micros.len() - 1 ==> !(#[trigger] self.micros[i] is Halt)
        &&& !self.decoder.is_idle() ==> is_fetch_list(self.micros)
            && !self.last_result.spec_is_finished()
        &&& self.decoder.injected is Some ==> self.micros.len() == 0
            && !self.last_result.spec_is_finished()
    }

    /// The emulator of a processor that was just turned on, with the given instructions.
    pub open spec fn initial(instruction_set: InstructionSet) -> EmulatorView {
        EmulatorView {
            state: StateView::initial(),
            decoder: DecoderView {
                instruction_set,
                current: 0,
                state: crate::instructions::decoder::DecoderState::FetchOpcode,
                last_instruction: Seq::empty(),
                injected: None,
                is_tracing: false,
                is_dumping_state: false,
            },
            micros: Seq::empty(),
            nmi_pending: false,
            int_pending: false,
            interrupt_data: 0,
            last_result: ExecResult::Done(0),
        }
    }

    /// The emulator that starts servicing an interrupt: the handler's microinstructions, about to
    /// run, and the result that reports it.
    pub open spec fn start_interrupt(self, micros: Seq<Microinstruction>, result: ExecResult) -> (
        EmulatorView,
        Option<(Seq<Microinstruction>, ExecResult)>,
    ) {
        (
            EmulatorView { micros, state: self.state.set_mpc(0), last_result: result, ..self },
            Some((micros, result)),
        )
    }

    /// Servicing a pending interrupt.
    ///
    /// Nothing is serviced in the middle of an instruction. A nonmaskable interrupt comes first:
    /// it disables interrupts and calls `0066h`. A regular interrupt waits while interrupts are
    /// disabled and for the instruction right after `ei`; then the interrupt mode decides: the
    /// device's byte is decoded as an instruction, `rst 38h` is decoded, or the handler at the
    /// address made of `I` and the device's byte is called.
    pub open spec fn service(self) -> (EmulatorView, Option<(Seq<Microinstruction>, ExecResult)>) {
        if !self.last_result.spec_is_finished() {
            (self, None)
        } else if self.nmi_pending {
            let state = self.state.set_iff(false, self.state.iff2).set8(
                Register::R,
                next_r(self.state.r8(Register::R)),
            );
            EmulatorView { nmi_pending: false, state, ..self }.start_interrupt(
                nmi_micros(),
                ExecResult::Int(5),
            )
        } else if !self.last_result.spec_can_interrupt() {
            (self, None)
        } else if self.int_pending && self.state.iff1 {
            let e = EmulatorView { int_pending: false, ..self };
            match self.state.interrupt_mode {
                InterruptMode::Instruction => EmulatorView {
                    decoder: DecoderView { injected: Some(self.interrupt_data), ..self.decoder },
                    ..e
                }.start_interrupt(Seq::empty(), ExecResult::Int(6)),
                InterruptMode::Rst0038 => EmulatorView {
                    decoder: DecoderView { injected: Some(0xff), ..self.decoder },
                    ..e
                }.start_interrupt(Seq::empty(), ExecResult::Int(6)),
                InterruptMode::Vectored => EmulatorView {
                    state: self.state.set_pair(
                        Register16::WZ,
                        self.interrupt_data,
                        self.state.r8(Register::I),
                    ),
                    ..e
                }.start_interrupt(vectored_micros(), ExecResult::Int(7)),
            }
        } else {
            (self, None)
        }
    }

    /// One run of the emulator: the next emulator and the result.
    ///
    /// The next microinstruction of the current instruction runs if there is one. Otherwise a
    /// pending interrupt is serviced if it can be; else a halted processor stays halted, and a
    /// running one goes on decoding.
    #[verifier::opaque]
    pub open spec fn run(self) -> (EmulatorView, ExecResult) {
        if self.state.mpc < self.micros.len() {
            let (state, result) = step(
                self.state.set_mpc((self.state.mpc + 1) as usize),
                self.micros[self.state.mpc as int],
            );
            (EmulatorView { state, last_result: result, ..self }, result)
        } else {
            let (e, serviced) = self.service();
            match serviced {
                Some((_, result)) => (e, result),
                None => if self.last_result is Halt {
                    (self, ExecResult::Halt)
                } else {
                    let (decoder, s, micros) = self.decoder.decode(self.state);
                    let (state, result) = step(s.set_mpc(1), micros[0]);
                    (EmulatorView { decoder, micros, state, last_result: result, ..self }, result)
                },
            }
        }
    }

    /// One round of the memory loop, given whether the trap caught the result: run, then stop if
    /// the trap caught the result; go on after `Done` or after a memory request that was carried
    /// out, and stop otherwise. The emulator and memory after the round, its result, and whether
    /// the loop stops.
    pub open spec fn round(self, memory: Seq<u8>, trapped: bool) -> (
        EmulatorView,
        Seq<u8>,
        ExecResult,
        bool,
    ) {
        let (e, result) = self.run();
        if trapped {
            (e, memory, result, true)
        } else if result is Done {
            (e, memory, result, false)
        } else {
            let (e2, m2, done) = e.access(result, memory);
            (e2, m2, result, !done)
        }
    }

    /// Rounds of the memory loop, given the trap's answers in order: the emulator and memory after
    /// them, and for each round its result and whether it stopped the loop.
    pub open spec fn rounds(self, memory: Seq<u8>, answers: Seq<bool>) -> (
        EmulatorView,
        Seq<u8>,
        Seq<ExecResult>,
        Seq<bool>,
    )
        decreases answers.len(),
    {
        if answers.len() == 0 {
            (self, memory, Seq::empty(), Seq::empty())
        } else {
            let (e, m, results, stops) = self.rounds(memory, answers.drop_last());
            let (e2, m2, result, stop) = e.round(m, answers.last());
            (e2, m2, results.push(result), stops.push(stop))
        }
    }

    /// The memory loop, with the trap's answers in order, ends in emulator `e`, memory `m` and
    /// `result`: only its last round stops it, unless `fuel` rounds ran first.
    pub open spec fn loop_ends(
        self,
        memory: Seq<u8>,
        answers: Seq<bool>,
        e: EmulatorView,
        m: Seq<u8>,
        result: ExecResult,
        fuel: nat,
    ) -> bool {
        let (e1, m1, results, stops) = self.rounds(memory, answers);
        &&& 1 <= answers.len() <= fuel
        &&& e1 == e
        &&& m1 == m
        &&& result == results.last()
        &&& forall|i: int| 0 <= i < answers.len() - 1 ==> !(#[trigger] stops[i])
        &&& stops.last() || answers.len() == fuel
    }

    /// One more round extends the rounds with its outcome.
    proof fn lemma_rounds_push(self, memory: Seq<u8>, answers: Seq<bool>, trapped: bool)
        ensures
            ({
                let (e, m, results, stops) = self.rounds(memory, answers);
                let (e2, m2, result, stop) = e.round(m, trapped);
                self.rounds(memory, answers.push(trapped)) == (
                    e2,
                    m2,
                    results.push(result),
                    stops.push(stop),
                )
            }),
    {
        assert(answers.push(trapped).drop_last() =~= answers);
    }

    /// The memory loop with a limit in clock cycles, with the trap's answers in order, ends in
    /// emulator `e`, memory `m`, `result` and `t_states` cycles: a round stops it, or the cycles
    /// reach the limit, and neither happened before its last round, unless `fuel` rounds ran first.
    pub open spec fn limited_loop_ends(
        self,
        memory: Seq<u8>,
        answers: Seq<bool>,
        limit: u64,
        e: EmulatorView,
        m: Seq<u8>,
        result: ExecResult,
        t_states: u64,
        fuel: nat,
    ) -> bool {
        let (e1, m1, results, stops) = self.rounds(memory, answers);
        &&& 1 <= answers.len() <= fuel
        &&& e1 == e
        &&& m1 == m
        &&& result == results.last()
        &&& t_states == elapsed(results)
        &&& forall|i: int| 0 <= i < answers.len() - 1 ==> !(#[trigger] stops[i])
        &&& forall|i: int| 0 < i < answers.len() ==> elapsed(#[trigger] results.take(i)) < limit
        &&& stops.last() || t_states >= limit || answers.len() == fuel
    }

    /// Carrying out a memory request: the emulator with the loaded data, the memory after a
    /// store, and whether the request was carried out.
    pub open spec fn access(self, request: ExecResult, memory: Seq<u8>) -> (
        EmulatorView,
        Seq<u8>,
        bool,
    ) {
        if !accessible(request, memory) {
            (self, memory, false)
        } else {
            match request {
                ExecResult::Fetch { address } => (
                    EmulatorView { state: self.state.set8(Register::Z, memory[address as int]), ..self },
                    memory,
                    true,
                ),
                ExecResult::Load { address } => (
                    EmulatorView { state: self.state.set8(Register::Z, memory[address as int]), ..self },
                    memory,
                    true,
                ),
                ExecResult::Load16 { address } => (
                    EmulatorView {
                        state: self.state.set_pair(
                            Register16::WZ,
                            memory[address as int],
                            memory[add16(address, 1) as int],
                        ),
                        ..self
                    },
                    memory,
                    true,
                ),
                ExecResult::Store { address, data } => (
                    self,
                    memory.update(address as int, data),
                    true,
                ),
                ExecResult::Store16 { address, data } => (
                    self,
                    memory.update(address as int, data[0]).update(add16(address, 1) as int, data[1]),
                    true,
                ),
                _ => (self, memory, false),
            }
        }
    }
}

impl Emulator {
    /// Create an emulator to run programs for the instruction set
    pub fn new_with_instruction_set(instruction_set: InstructionSet) -> (emulator: Emulator)
        requires
            instruction_set.wf(),
        ensures
            emulator@ == EmulatorView::initial(instruction_set),
            emulator@.wf(),
    {
        Emulator {
            state: State::default(),
            decoder: Decoder::new(instruction_set),
            micros: Vec::new(),
            nmi_pending: false,
            int_pending: false,
            interrupt_data: 0,
            last_result: ExecResult::Done(0),
        }
    }

    /// Create a Z80 emulator
    pub fn new_z80() -> (emulator: Self)
        ensures
            emulator@ == EmulatorView::initial(emulator@.decoder.instruction_set),
            emulator@.decoder.instruction_set.tables@.len() == crate::cpus::z80::N_TABLES,
            forall|t: int, o: int|
                0 <= t < crate::cpus::z80::N_TABLES && 0 <= o < 256 ==> entry_ok(
                    t,
                    o as u8,
                    #[trigger] emulator@.decoder.instruction_set.entry(t, o),
                ),
            emulator@.wf(),
    {
        Self::new_with_instruction_set(z80())
    }

    /// Check if the processor is halted
    pub fn is_halted(&self) -> (halted: bool)
        ensures
            halted == (self@.last_result is Halt),
    {
        matches!(self.last_result, ExecResult::Halt)
    }

    /// Try to service a pending interrupt
    ///
    /// If an interrupt can be serviced, the emulator starts servicing it, and the microinstructions
    /// that run the interrupt handler are returned with an `ExecResult` marking the time it took.
    /// Otherwise, return `None` if there is no interrupt to service, if they are disabled or if the
    /// processor is busy processing.
    pub fn service_interrupt(&mut self) -> (serviced: Option<(Vec<Microinstruction>, ExecResult)>)
        requires
            old(self)@.wf(),
        ensures
            final(self)@ == old(self)@.service().0,
            old(self)@.service().1 == match serviced {
                Some((micros, result)) => Some((micros@, result)),
                None => None,
            },
            final(self)@.wf(),
    {
        // Check if the processor is in the middle of an instruction
        if !self.last_result.is_finished() {
            None
        } else if self.nmi_pending {
            // Service a nonmaskable interrupt
            self.nmi_pending = false;
            self.state.iff1 = false;
            self.state.advance_r();
            let micros = vec![
                Microinstruction::Push(Register16::PC),
                Microinstruction::JumpTo(0x66, 0),
            ];
            Some(self.start_interrupt(micros, ExecResult::Int(5)))
        } else if !self.last_result.can_interrupt() {
            None
        } else if self.int_pending && self.state.iff1 {
            self.int_pending = false;
            match self.state.interrupt_mode {
                InterruptMode::Instruction => {
                    // Dispatch the instruction
                    let injected = self.decoder.inject_opcode(self.interrupt_data);
                    assert(injected);
                    Some(self.start_interrupt(Vec::new(), ExecResult::Int(6)))
                },
                InterruptMode::Rst0038 => {
                    let injected = self.decoder.inject_opcode(0xff);
                    assert(injected);
                    Some(self.start_interrupt(Vec::new(), ExecResult::Int(6)))
                },
                InterruptMode::Vectored => {
                    // Put the address in WZ
                    let i = self.state.i();
                    self.state.set_register_16_bytes(Register16::WZ, [self.interrupt_data, i]);
                    let micros = vec![
                        // Save the PC
                        Microinstruction::Push(Register16::PC),
                        // Jump to the address formed by `I` and the device's byte
                        Microinstruction::JrMm(0),
                    ];
                    Some(self.start_interrupt(micros, ExecResult::Int(7)))
                },
            }
        } else {
            None
        }
    }

    /// Make the handler's microinstructions the current ones.
    fn start_interrupt(&mut self, micros: Vec<Microinstruction>, result: ExecResult) -> (started: (
        Vec<Microinstruction>,
        ExecResult,
    ))
        ensures
            (final(self)@, Some((started.0@, started.1))) == old(self)@.start_interrupt(
                micros@,
                result,
            ),
    {
        let copy = crate::instructions::decoder::copy_micros(&micros);
        self.micros = micros;
        self.state.mpc = 0;
        self.last_result = result;
        (copy, result)
    }

    /// Run the next microinstruction of the current instruction.
    fn run_micro(&mut self) -> (result: ExecResult)
        requires
            old(self)@.wf(),
            old(self)@.state.mpc < old(self)@.micros.len(),
        ensures
            (final(self)@, result) == old(self)@.run(),
            final(self)@.wf(),
    {
        proof {
            reveal(EmulatorView::run);
        }
        let mpc = self.state.mpc;
        let len = self.micros.len();
        assert(mpc < len);
        let micro = self.micros[mpc];
        self.state.mpc = mpc + 1;
        let result = execute(&mut self.state, micro);
        proof {
            if !self.decoder@.is_idle() {
                assert(micro is Fetch || micro is FetchByte || micro is FetchWord);
            }
        }
        self.last_result = result;
        result
    }

    /// Decode the next step of an instruction and run its first microinstruction.
    fn decode_and_run(&mut self) -> (result: ExecResult)
        requires
            old(self)@.wf(),
        ensures
            ({
                let (decoder, s, micros) = old(self)@.decoder.decode(old(self)@.state);
                let (state, r) = step(s.set_mpc(1), micros[0]);
                &&& final(self)@ == (EmulatorView {
                    decoder,
                    micros,
                    state,
                    last_result: r,
                    ..old(self)@
                })
                &&& result == r
            }),
            final(self)@.wf(),
    {
        self.micros = self.decoder.decode(&mut self.state);
        self.state.mpc = 1;  // We'll run the [0] now.
        let result = execute(&mut self.state, self.micros[0]);
        self.last_result = result;
        proof {
            assert(self.micros@.len() == self.micros.len());
        }
        result
    }

    /// Run the emulator
    #[verifier::spinoff_prover]
    pub fn run(&mut self) -> (result: ExecResult)
        requires
            old(self)@.wf(),
        ensures
            (final(self)@, result) == old(self)@.run(),
            final(self)@.wf(),
    {
        proof {
            reveal(EmulatorView::run);
        }
        // If we're running microinstructions
        if self.state.mpc < self.micros.len() {
            self.run_micro()
        } else if let Some((_, result)) = self.service_interrupt() {
            result
        } else if matches!(self.last_result, ExecResult::Halt) {
            // A halted processor waits for an interrupt
            ExecResult::Halt
        } else {
            // Need to decode the next instruction
            self.decode_and_run()
        }
    }

    /// If the [ExecResult] is related to loading or storing data in the memory, try to perform it.
    ///
    /// If the request is a memory access and its address is within the memory's bounds, the
    /// requested action will be performed and the function will return `true`.
    /// Otherwise, nothing will be done and `false` will be returned instead.
    pub fn access_memory(&mut self, request: ExecResult, memory: &mut [u8]) -> (done: bool)
        requires
            old(self)@.wf(),
        ensures
            (final(self)@, final(memory)@, done) == old(self)@.access(request, old(memory)@),
            final(self)@.wf(),
    {
        match request {
            ExecResult::Fetch { address } | ExecResult::Load { address } => {
                if Memory::contains(&*memory, address) {
                    self.send_byte(Memory::load(&*memory, address));
                    true
                } else {
                    false
                }
            },
            ExecResult::Load16 { address } => {
                let next = address.wrapping_add(1);
                if Memory::contains(&*memory, address) && Memory::contains(&*memory, next) {
                    let word = [Memory::load(&*memory, address), Memory::load(&*memory, next)];
                    self.send_word(word);
                    true
                } else {
                    false
                }
            },
            ExecResult::Store { address, data } => {
                if Memory::contains(&*memory, address) {
                    Memory::store(memory, address, data);
                    true
                } else {
                    false
                }
            },
            ExecResult::Store16 { address, data } => {
                let next = address.wrapping_add(1);
                if Memory::contains(&*memory, address) && Memory::contains(&*memory, next) {
                    Memory::store(memory, address, data[0]);
                    Memory::store(memory, next, data[1]);
                    true
                } else {
                    false
                }
            },
            _ => false,
        }
    }

    /// Run the emulator with a given memory, optionally disabling automatic handling of any
    /// operation.
    ///
    /// If the requested address is within the memory slice and `trap` returns `false`, the memory
    /// request will be processed automatically.
    /// Otherwise, the load or store request will be returned as in [Emulator::run].
    ///
    /// The loop gives up after `u64::MAX` runs, returning the last result.
    pub fn run_with_memory_trap<F: Fn(ExecResult) -> bool>(
        &mut self,
        memory: &mut [u8],
        trap: F,
    ) -> (result: ExecResult)
        requires
            old(self)@.wf(),
            forall|r: ExecResult| call_requires(trap, (r,)),
        ensures
            final(self)@.wf(),
            exists|answers: Seq<bool>|
                {
                    &&& old(self)@.loop_ends(
                        old(memory)@,
                        answers,
                        final(self)@,
                        final(memory)@,
                        result,
                        u64::MAX as nat,
                    )
                    &&& forall|i: int|
                        0 <= i < answers.len() ==> call_ensures(
                            trap,
                            (old(self)@.rounds(old(memory)@, answers).2[i],),
                            #[trigger] answers[i],
                        )
                },
    {
        let ghost e0 = self@;
        let ghost m0 = memory@;
        let ghost mut answers: Seq<bool> = Seq::empty();
        let mut count: u64 = 0;
        loop
            invariant
                self@.wf(),
                e0 == old(self)@,
                m0 == old(memory)@,
                forall|r: ExecResult| call_requires(trap, (r,)),
                count == answers.len(),
                count < u64::MAX,
                e0.rounds(m0, answers).2.len() == answers.len(),
                e0.rounds(m0, answers).3.len() == answers.len(),
                e0.rounds(m0, answers).0 == self@,
                e0.rounds(m0, answers).1 == memory@,
                forall|i: int| 0 <= i < answers.len() ==> !(#[trigger] e0.rounds(m0, answers).3[i]),
                forall|i: int|
                    0 <= i < answers.len() ==> call_ensures(
                        trap,
                        (e0.rounds(m0, answers).2[i],),
                        #[trigger] answers[i],
                    ),
            decreases u64::MAX - count,
        {
            let ghost before = self@;
            let ghost mem_before = memory@;
            let ghost previous = answers;
            let result = self.run();
            let trapped = trap(result);
            let stop = if trapped {
                true
            } else if matches!(result, ExecResult::Done(_)) {
                false
            } else {
                !self.access_memory(result, memory)
            };
            proof {
                answers = answers.push(trapped);
                assert(before.round(mem_before, trapped) == (self@, memory@, result, stop));
                e0.lemma_rounds_push(m0, previous, trapped);
                assert forall|i: int| 0 <= i < answers.len() implies call_ensures(
                    trap,
                    (e0.rounds(m0, answers).2[i],),
                    #[trigger] answers[i],
                ) by {
                    if i < previous.len() {
                        assert(answers[i] == previous[i]);
                    }
                }
            }
            count = count + 1;
            if stop || count == u64::MAX {
                proof {
                    let stops = e0.rounds(m0, answers).3;
                    assert forall|i: int| 0 <= i < answers.len() - 1 implies !(#[trigger] stops[i]) by {
                        assert(stops[i] == e0.rounds(m0, previous).3[i]);
                    }
                    assert(e0.loop_ends(m0, answers, self@, memory@, result, u64::MAX as nat));
                }
                return result;
            }
        }
    }

    /// Run the emulator with memory.
    ///
    /// Handle memory access for the emulator. If the requested address is out of bounds, the
    /// load or store request will be returned as in [Emulator::run].
    pub fn run_with_memory(&mut self, memory: &mut [u8]) -> (result: ExecResult)
        requires
            old(self)@.wf(),
        ensures
            final(self)@.wf(),
            exists|n: nat|
                #[trigger] old(self)@.loop_ends(
                    old(memory)@,
                    no_traps(n),
                    final(self)@,
                    final(memory)@,
                    result,
                    u64::MAX as nat,
                ),
    {
        let never = |r: ExecResult| -> (caught: bool)
            ensures
                !caught,
            { false };
        let result = self.run_with_memory_trap(memory, never);
        proof {
            let answers = choose|answers: Seq<bool>|
                {
                    &&& old(self)@.loop_ends(
                        old(memory)@,
                        answers,
                        self@,
                        memory@,
                        result,
                        u64::MAX as nat,
                    )
                    &&& forall|i: int|
                        0 <= i < answers.len() ==> call_ensures(
                            never,
                            (old(self)@.rounds(old(memory)@, answers).2[i],),
                            #[trigger] answers[i],
                        )
                };
            assert(answers =~= no_traps(answers.len()));
        }
        result
    }

    /// Run the emulator with a given memory for a limited time, optionally disabling automatic
    /// handling of any operation.
    ///
    /// This works as [Emulator::run_with_memory_trap], and also stops once the results took at
    /// least `limit` clock cycles. The result is returned with the number of cycles.
    pub fn run_with_memory_trap_limit<F: Fn(ExecResult) -> bool>(
        &mut self,
        memory: &mut [u8],
        trap: F,
        limit: u64,
    ) -> (outcome: (ExecResult, u64))
        requires
            old(self)@.wf(),
            forall|r: ExecResult| call_requires(trap, (r,)),
        ensures
            final(self)@.wf(),
            exists|answers: Seq<bool>|
                {
                    &&& old(self)@.limited_loop_ends(
                        old(memory)@,
                        answers,
                        limit,
                        final(self)@,
                        final(memory)@,
                        outcome.0,
                        outcome.1,
                        u64::MAX as nat,
                    )
                    &&& forall|i: int|
                        0 <= i < answers.len() ==> call_ensures(
                            trap,
                            (old(self)@.rounds(old(memory)@, answers).2[i],),
                            #[trigger] answers[i],
                        )
                },
    {
        let ghost e0 = self@;
        let ghost m0 = memory@;
        let ghost mut answers: Seq<bool> = Seq::empty();
        let mut count: u64 = 0;
        let mut t_states: u64 = 0;
        loop
            invariant
                self@.wf(),
                e0 == old(self)@,
                m0 == old(memory)@,
                forall|r: ExecResult| call_requires(trap, (r,)),
                count == answers.len(),
                count < u64::MAX,
                e0.rounds(m0, answers).2.len() == answers.len(),
                e0.rounds(m0, answers).3.len() == answers.len(),
                e0.rounds(m0, answers).0 == self@,
                e0.rounds(m0, answers).1 == memory@,
                t_states == elapsed(e0.rounds(m0, answers).2),
                forall|i: int| 0 <= i < answers.len() ==> !(#[trigger] e0.rounds(m0, answers).3[i]),
                forall|i: int|
                    0 < i <= answers.len() ==> elapsed(#[trigger] e0.rounds(m0, answers).2.take(i))
                        < limit,
                forall|i: int|
                    0 <= i < answers.len() ==> call_ensures(
                        trap,
                        (e0.rounds(m0, answers).2[i],),
                        #[trigger] answers[i],
                    ),
            decreases u64::MAX - count,
        {
            let ghost before = self@;
            let ghost mem_before = memory@;
            let ghost previous = answers;
            let ghost previous_results = e0.rounds(m0, answers).2;
            let result = self.run();
            let trapped = trap(result);
            let stop = if trapped {
                true
            } else if matches!(result, ExecResult::Done(_)) {
                false
            } else {
                !self.access_memory(result, memory)
            };
            t_states = t_states.saturating_add(result.t_states() as u64);
            proof {
                answers = answers.push(trapped);
                assert(before.round(mem_before, trapped) == (self@, memory@, result, stop));
                e0.lemma_rounds_push(m0, previous, trapped);
                lemma_elapsed_push(previous_results, result);
                assert forall|i: int| 0 <= i < answers.len() implies call_ensures(
                    trap,
                    (e0.rounds(m0, answers).2[i],),
                    #[trigger] answers[i],
                ) by {
                    if i < previous.len() {
                        assert(answers[i] == previous[i]);
                    }
                }
            }
            count = count + 1;
            if stop || t_states >= limit || count == u64::MAX {
                proof {
                    let rounds = e0.rounds(m0, answers);
                    assert forall|i: int| 0 <= i < answers.len() - 1 implies !(
                    #[trigger] rounds.3[i]) by {
                        assert(rounds.3[i] == e0.rounds(m0, previous).3[i]);
                    }
                    let outcome = (result, t_states);
                    assert(old(self)@.limited_loop_ends(
                        old(memory)@,
                        answers,
                        limit,
                        self@,
                        memory@,
                        outcome.0,
                        outcome.1,
                        u64::MAX as nat,
                    ));
                    assert(forall|i: int|
                        0 <= i < answers.len() ==> call_ensures(
                            trap,
                            (old(self)@.rounds(old(memory)@, answers).2[i],),
                            #[trigger] answers[i],
                        ));
                }
                return (result, t_states);
            }
            proof {
                let results = e0.rounds(m0, answers).2;
                assert(results.take(answers.len() as int) =~= results);
            }
        }
    }

    /// Run the emulator with memory for a limited time.
    ///
    /// This works as [Emulator::run_with_memory], and also stops once the results took at least
    /// `limit` clock cycles. The result is returned with the number of cycles.
    pub fn run_with_memory_limit(&mut self, memory: &mut [u8], limit: u64) -> (outcome: (
        ExecResult,
        u64,
    ))
        requires
            old(self)@.wf(),
        ensures
            final(self)@.wf(),
            exists|n: nat|
                #[trigger] old(self)@.limited_loop_ends(
                    old(memory)@,
                    no_traps(n),
                    limit,
                    final(self)@,
                    final(memory)@,
                    outcome.0,
                    outcome.1,
                    u64::MAX as nat,
                ),
    {
        let never = |r: ExecResult| -> (caught: bool)
            ensures
                !caught,
            { false };
        let outcome = self.run_with_memory_trap_limit(memory, never, limit);
        proof {
            let answers = choose|answers: Seq<bool>|
                {
                    &&& old(self)@.limited_loop_ends(
                        old(memory)@,
                        answers,
                        limit,
                        self@,
                        memory@,
                        outcome.0,
                        outcome.1,
                        u64::MAX as nat,
                    )
                    &&& forall|i: int|
                        0 <= i < answers.len() ==> call_ensures(
                            never,
                            (old(self)@.rounds(old(memory)@, answers).2[i],),
                            #[trigger] answers[i],
                        )
                };
            assert(answers =~= no_traps(answers.len()));
        }
        outcome
    }

    /// Interrupt request
    pub fn interrupt(&mut self, data: u8)
        requires
            old(self)@.wf(),
        ensures
            final(self)@ == (EmulatorView { int_pending: true, interrupt_data: data, ..old(self)@ }),
            final(self)@.wf(),
    {
        self.int_pending = true;
        self.interrupt_data = data;
    }

    /// Non-masking Interrupt request
    pub fn non_masking_interrupt(&mut self)
        requires
            old(self)@.wf(),
        ensures
            final(self)@ == (EmulatorView { nmi_pending: true, ..old(self)@ }),
            final(self)@.wf(),
    {
        self.nmi_pending = true;
    }

    /// The state of the processor
    pub fn state(&self) -> (state: &State)
        ensures
            state@ == self@.state,
    {
        &self.state
    }

    /// Set an 8-bit register of the processor
    pub fn set_register_8(&mut self, register: Register, value: u8)
        requires
            old(self)@.wf(),
        ensures
            final(self)@ == (EmulatorView {
                state: old(self)@.state.set8(register, value),
                ..old(self)@
            }),
            final(self)@.wf(),
    {
        self.state.set_register_8(register, value);
    }

    /// Set a 16-bit register of the processor, such as `PC` or `SP`
    pub fn set_register_16(&mut self, register: Register16, value: u16)
        requires
            old(self)@.wf(),
        ensures
            final(self)@ == (EmulatorView {
                state: old(self)@.state.set16(register, value),
                ..old(self)@
            }),
            final(self)@.wf(),
    {
        self.state.set_register_16(register, value);
    }

    /// Pass a byte to the emulator to complete a memory or input instruction
    pub fn send_byte(&mut self, byte: u8)
        requires
            old(self)@.wf(),
        ensures
            final(self)@ == (EmulatorView {
                state: old(self)@.state.set8(Register::Z, byte),
                ..old(self)@
            }),
            final(self)@.wf(),
    {
        self.state.load_data_8(byte)
    }

    /// Pass a word to the emulator to complete a memory load
    pub fn send_word(&mut self, word: [u8; 2])
        requires
            old(self)@.wf(),
        ensures
            final(self)@ == (EmulatorView {
                state: old(self)@.state.set_pair(Register16::WZ, word[0], word[1]),
                ..old(self)@
            }),
            final(self)@.wf(),
    {
        self.state.load_data_16(word)
    }

    /// Are the instructions shown as they are executed?
    pub fn is_tracing(&self) -> (tracing: bool)
        ensures
            tracing == self@.decoder.is_tracing,
    {
        self.decoder.is_tracing
    }

    /// Is the state shown before each instruction?
    pub fn is_dumping_state(&self) -> (dumping: bool)
        ensures
            dumping == self@.decoder.is_dumping_state,
    {
        self.decoder.is_dumping_state
    }

    /// Show the instructions as they are executed
    pub fn enable_tracing(&mut self)
        requires
            old(self)@.wf(),
        ensures
            final(self)@ == (EmulatorView {
                decoder: DecoderView { is_tracing: true, ..old(self)@.decoder },
                ..old(self)@
            }),
            final(self)@.wf(),
    {
        self.decoder.enable_tracing();
    }

    /// Stop showing the instructions
    pub fn disable_tracing(&mut self)
        requires
            old(self)@.wf(),
        ensures
            final(self)@ == (EmulatorView {
                decoder: DecoderView { is_tracing: false, ..old(self)@.decoder },
                ..old(self)@
            }),
            final(self)@.wf(),
    {
        self.decoder.disable_tracing();
    }

    /// Show the state before each instruction
    pub fn enable_state_dump(&mut self)
        requires
            old(self)@.wf(),
        ensures
            final(self)@ == (EmulatorView {
                decoder: DecoderView { is_dumping_state: true, ..old(self)@.decoder },
                ..old(self)@
            }),
            final(self)@.wf(),
    {
        self.decoder.enable_state_dump();
    }

    /// Don't show the state before each instruction
    pub fn disable_state_dump(&mut self)
        requires
            old(self)@.wf(),
        ensures
            final(self)@ == (EmulatorView {
                decoder: DecoderView { is_dumping_state: false, ..old(self)@.decoder },
                ..old(self)@
            }),
            final(self)@.wf(),
    {
        self.decoder.disable_state_dump();
    }
}

} // verus!
