//! Properties of the processor that relate several of its operations.

use crate::cpus::z80::bit_instructions::bit_micros;
use crate::cpus::z80::two_prefix::index_bit_micros;
use crate::cpus::z80::{entry_ok, lemma_opcode_fields, BIT_TABLE, IX_BIT_TABLE, IX_TABLE, MAIN_TABLE, N_TABLES};
use crate::emulator::{accessible, nmi_micros, no_traps, vectored_micros, EmulatorView};
use crate::instructions::decoder::DecoderView;
use crate::instructions::micro::bit::{
    carry_bit, rla_state, rlca_state, rol8, ror8, rotate_a_flags, rra_state, rrca_state,
};
use crate::instructions::micro::jump::pushed_sp;
use crate::instructions::micro::math::{cpl_state, neg_state};
use crate::instructions::micro::step::{
    ex_de_hl_state, jr_mm_step, only_halt_halts, pop_step, push_step, step, Microinstruction,
};
use crate::instructions::micro::transfer::{ex_af_state, exx_state};
use crate::instructions::{ExecResult, InstructionSet};
use crate::state::{add16, next_r, prev_r, word, InterruptMode, Register, Register16, StateView};
use vstd::prelude::*;

verus! {

/// Reading an 8-bit register gives what was last written to it, and writing it leaves the other
/// registers alone.
pub proof fn register_read_after_write(s: StateView, r: Register, other: Register, value: u8)
    requires
        s.wf(),
    ensures
        s.set8(r, value).r8(r) == value,
        other != r ==> s.set8(r, value).r8(other) == s.r8(other),
{
}

/// Reading a 16-bit register gives what was last written to it, and writing it leaves the other
/// 16-bit registers alone.
pub proof fn register16_read_after_write(s: StateView, r: Register16, other: Register16, value: u16)
    requires
        s.wf(),
    ensures
        s.set16(r, value).r16(r) == value,
        other != r ==> s.set16(r, value).r16(other) == s.r16(other),
{
}

/// Moving the memory refresh register forwards and backwards are inverse operations.
pub proof fn refresh_register_round_trip(r: u8)
    ensures
        prev_r(next_r(r)) == r,
        next_r(prev_r(r)) == r,
        next_r(r) & 0x80 == r & 0x80,
{
    assert(((((r & 0x80) | (((r + 1) % 128) as u8)) as u8 & 0x80) | ((((((r & 0x80) | (((r + 1)
        % 128) as u8)) as u8) + 127) % 128) as u8)) as u8 == r && ((((r & 0x80) | (((r + 127)
        % 128) as u8)) as u8 & 0x80) | ((((((r & 0x80) | (((r + 127) % 128) as u8)) as u8) + 1)
        % 128) as u8)) as u8 == r && (((r & 0x80) | (((r + 1) % 128) as u8)) as u8) & 0x80 == r
        & 0x80) by (bit_vector);
}

/// `ex af, af'` twice gives back the state it started from.
pub proof fn ex_af_af_is_an_involution(s: StateView)
    requires
        s.wf(),
    ensures
        ex_af_state(ex_af_state(s)) == s,
{
    assert(ex_af_state(ex_af_state(s)).regs =~= s.regs);
}

/// `exx` twice gives back the state it started from.
pub proof fn exx_is_an_involution(s: StateView)
    requires
        s.wf(),
    ensures
        exx_state(exx_state(s)) == s,
{
    assert(exx_state(exx_state(s)).regs =~= s.regs);
}

/// `ex de, hl` twice gives back the state it started from.
pub proof fn ex_de_hl_is_an_involution(s: StateView)
    requires
        s.wf(),
    ensures
        ex_de_hl_state(ex_de_hl_state(s)) == s,
{
    assert(ex_de_hl_state(ex_de_hl_state(s)).regs =~= s.regs);
}

/// The carry flag of a flags byte.
pub open spec fn carry(flags: u8) -> bool {
    flags & 0x01 != 0
}

/// `rlca` and `rrca` undo each other on the accumulator.
pub proof fn rlca_and_rrca_undo_each_other(s: StateView)
    requires
        s.wf(),
    ensures
        rrca_state(rlca_state(s)).r8(Register::A) == s.r8(Register::A),
        rlca_state(rrca_state(s)).r8(Register::A) == s.r8(Register::A),
{
    let a = s.r8(Register::A);
    assert(ror8(rol8(a)) == a && rol8(ror8(a)) == a) by (bit_vector);
}

/// `rla` and `rra` rotate nine bits, the accumulator and the carry flag: each undoes the other.
pub proof fn rla_and_rra_undo_each_other(s: StateView)
    requires
        s.wf(),
    ensures
        rra_state(rla_state(s)).r8(Register::A) == s.r8(Register::A),
        carry(rra_state(rla_state(s)).flags()) == carry(s.flags()),
        rla_state(rra_state(s)).r8(Register::A) == s.r8(Register::A),
        carry(rla_state(rra_state(s)).flags()) == carry(s.flags()),
{
    let a = s.r8(Register::A);
    let f = s.flags();
    // Left, then right
    let left = ((a << 1u8) | carry_bit(f)) as u8;
    let msb = a & 0x80 != 0;
    let f1 = rotate_a_flags(f, left, msb);
    assert(rla_state(s).r8(Register::A) == left);
    assert(rla_state(s).flags() == f1);
    assert(carry_bit(f1) == (if msb { 1u8 } else { 0u8 }) && ((left >> 1u8) | ((if msb {
        1u8
    } else {
        0u8
    }) << 7u8)) as u8 == a && carry(rotate_a_flags(f1, a, left & 0x01 != 0)) == carry(f))
        by (bit_vector)
        requires
            f1 == rotate_a_flags(f, left, msb),
            left == ((a << 1u8) | carry_bit(f)) as u8,
            msb == (a & 0x80 != 0),
    ;
    // Right, then left
    let right = ((a >> 1u8) | (carry_bit(f) << 7u8)) as u8;
    let lsb = a & 0x01 != 0;
    let f2 = rotate_a_flags(f, right, lsb);
    assert(rra_state(s).r8(Register::A) == right);
    assert(rra_state(s).flags() == f2);
    assert(carry_bit(f2) == (if lsb { 1u8 } else { 0u8 }) && ((right << 1u8) | (if lsb {
        1u8
    } else {
        0u8
    })) as u8 == a && carry(rotate_a_flags(f2, a, right & 0x80 != 0)) == carry(f))
        by (bit_vector)
        requires
            f2 == rotate_a_flags(f, right, lsb),
            right == ((a >> 1u8) | (carry_bit(f) << 7u8)) as u8,
            lsb == (a & 0x01 != 0),
    ;
}

/// `cpl` twice gives back the accumulator.
pub proof fn cpl_is_an_involution(s: StateView)
    requires
        s.wf(),
    ensures
        cpl_state(cpl_state(s)).r8(Register::A) == s.r8(Register::A),
{
    let a = s.r8(Register::A);
    assert(!(!a) == a) by (bit_vector);
}

/// `neg` twice gives back the accumulator.
pub proof fn neg_is_an_involution(s: StateView)
    requires
        s.wf(),
    ensures
        neg_state(neg_state(s)).r8(Register::A) == s.r8(Register::A),
{
}

/// A load from memory gives the byte that was last stored at its address, and a store leaves the
/// other addresses alone.
pub proof fn load_after_store(
    e: EmulatorView,
    memory: Seq<u8>,
    address: u16,
    data: u8,
    other: u16,
)
    requires
        e.state.wf(),
        address < memory.len(),
    ensures
        ({
            let (e1, m1, stored) = e.access(ExecResult::Store { address, data }, memory);
            &&& stored
            &&& e1 == e
            &&& m1.len() == memory.len()
            &&& other < memory.len() && other != address ==> m1[other as int] == memory[other as int]
            &&& e.access(ExecResult::Load { address }, m1).0.state.r8(Register::Z) == data
        }),
{
}

/// Moving a 16-bit address down by two and back up gives it back, and an address differs from the
/// next one.
proof fn stack_addresses(sp: u16)
    ensures
        add16(add16(sp, -2), 2) == sp,
        add16(sp, -2) != add16(add16(sp, -2), 1),
{
}

/// What a push stores on the stack, a pop loads back into `WZ`, and the stack pointer is back
/// where it was.
pub proof fn pop_loads_what_push_stored(e: EmulatorView, memory: Seq<u8>, r: Register16)
    requires
        e.state.wf(),
        r != Register16::SP,
        pushed_sp(e.state) < memory.len(),
        add16(pushed_sp(e.state), 1) < memory.len(),
    ensures
        ({
            let (s1, pushed) = step(e.state, Microinstruction::Push(r));
            let (e2, m2, stored) = EmulatorView { state: s1, ..e }.access(pushed, memory);
            let (s3, popped) = step(e2.state, Microinstruction::Pop);
            let (e4, m4, loaded) = EmulatorView { state: s3, ..e2 }.access(popped, m2);
            &&& stored
            &&& loaded
            &&& e4.state.r16(Register16::WZ) == e.state.r16(r)
            &&& e4.state.r16(Register16::SP) == e.state.r16(Register16::SP)
        }),
{
    let s = e.state;
    let sp = pushed_sp(s);
    let next = add16(sp, 1);
    stack_addresses(s.r16(Register16::SP));
    let bytes = s.bytes(r);
    let s1 = s.set16(Register16::SP, sp);
    push_step(s, r);
    assert(s1.bytes(r) == bytes);
    let pushed = ExecResult::Store16 { address: sp, data: bytes };
    let e1 = EmulatorView { state: s1, ..e };
    let m2 = memory.update(sp as int, bytes[0]).update(next as int, bytes[1]);
    assert(e1.access(pushed, memory) == (e1, m2, true));
    pop_step(s1);
    assert(s1.r16(Register16::SP) == sp);
    let s3 = s1.set16(Register16::SP, add16(sp, 2));
    let popped = ExecResult::Load16 { address: sp };
    assert(m2[sp as int] == bytes[0]);
    assert(m2[next as int] == bytes[1]);
    let e3 = EmulatorView { state: s3, ..e1 };
    let s4 = s3.set_pair(Register16::WZ, bytes[0], bytes[1]);
    assert(e3.access(popped, m2) == (EmulatorView { state: s4, ..e3 }, m2, true));
    assert(s4.r16(Register16::SP) == s3.r16(Register16::SP));
}

/// Nothing is serviced in the middle of an instruction.
pub proof fn no_interrupt_inside_an_instruction(e: EmulatorView)
    requires
        !e.last_result.spec_is_finished(),
    ensures
        e.service() == (e, None::<(Seq<Microinstruction>, ExecResult)>),
{
}

/// Between instructions a pending nonmaskable interrupt is serviced first, even with interrupts
/// disabled or right after `ei`; a pending regular interrupt stays pending.
pub proof fn nonmaskable_interrupts_come_first(e: EmulatorView)
    requires
        e.last_result.spec_is_finished(),
        e.nmi_pending,
    ensures
        e.service().1 == Some((nmi_micros(), ExecResult::Int(5))),
        !e.service().0.nmi_pending,
        e.service().0.int_pending == e.int_pending,
        !e.service().0.state.iff1,
{
}

/// A regular interrupt is not serviced while interrupts are disabled, nor right after `ei`: it
/// stays pending.
pub proof fn regular_interrupts_wait(e: EmulatorView)
    requires
        !e.nmi_pending,
        !e.state.iff1 || e.last_result is Ei,
    ensures
        e.service() == (e, None::<(Seq<Microinstruction>, ExecResult)>),
{
}

/// A run keeps the interrupt requests pending, unless it starts servicing one.
pub proof fn requests_stay_pending(e: EmulatorView)
    requires
        e.wf(),
        e.state.mpc < e.micros.len() || e.service().1 is None,
    ensures
        e.run().0.nmi_pending == e.nmi_pending,
        e.run().0.int_pending == e.int_pending,
        e.run().0.interrupt_data == e.interrupt_data,
{
    reveal(EmulatorView::run);
}

/// A halted processor stays halted until an interrupt is serviced.
pub proof fn halted_until_interrupted(e: EmulatorView)
    requires
        e.last_result is Halt,
        e.state.mpc >= e.micros.len(),
        e.service().1 is None,
    ensures
        e.run() == (e, ExecResult::Halt),
{
    reveal(EmulatorView::run);
}

/// A run that gives `Halt` leaves no microinstruction to run: the processor stays halted, giving
/// `Halt` again without touching anything, until an interrupt is serviced.
pub proof fn halt_stays_halted(e: EmulatorView)
    requires
        e.wf(),
        e.run().1 is Halt,
    ensures
        e.run().0.state.mpc >= e.run().0.micros.len(),
        e.run().0.service().1 is None ==> e.run().0.run() == (e.run().0, ExecResult::Halt),
{
    let e1 = e.run().0;
    assert(e1.state.mpc >= e1.micros.len() && e1.last_result is Halt) by {
        reveal(EmulatorView::run);
        if e.state.mpc < e.micros.len() {
            let s = e.state.set_mpc((e.state.mpc + 1) as usize);
            let m = e.micros[e.state.mpc as int];
            only_halt_halts(s, m);
            assert(step(s, m) == (s, ExecResult::Halt));
        } else if e.service().1 is None && !(e.last_result is Halt) {
            let (decoder, s, micros) = e.decoder.decode(e.state);
            e.decoder.lemma_decoded_micros(e.state);
            only_halt_halts(s.set_mpc(1), micros[0]);
            assert(step(s.set_mpc(1), micros[0]) == (s.set_mpc(1), ExecResult::Halt));
        }
    }
    if e1.service().1 is None {
        halted_until_interrupted(e1);
    }
}

/// The memory loop with no trap only stops on a result it can't deal with: not `Done`, and not a
/// memory request within the memory's bounds.
pub proof fn run_with_memory_stops_at_a_roadblock(
    e: EmulatorView,
    memory: Seq<u8>,
    n: nat,
    e1: EmulatorView,
    m1: Seq<u8>,
    result: ExecResult,
)
    requires
        e.loop_ends(memory, no_traps(n), e1, m1, result, u64::MAX as nat),
        n < u64::MAX,
    ensures
        !(result is Done),
        !accessible(result, m1),
{
    let answers = no_traps(n);
    let previous = answers.drop_last();
    let (e0, m0, results, stops) = e.rounds(memory, previous);
    assert(answers.last() == false);
    assert(e.rounds(memory, answers) == {
        let (e2, m2, r, stop) = e0.round(m0, false);
        (e2, m2, results.push(r), stops.push(stop))
    });
}

/// A request that the memory can't serve is refused, and changes neither the emulator nor the
/// memory.
pub proof fn refused_requests_change_nothing(e: EmulatorView, request: ExecResult, memory: Seq<u8>)
    requires
        !accessible(request, memory),
    ensures
        e.access(request, memory) == (e, memory, false),
{
}

/// A result that the trap catches ends the memory loop unprocessed: the memory is left as it was.
pub proof fn trapped_results_are_returned_unprocessed(e: EmulatorView, memory: Seq<u8>)
    ensures
        e.round(memory, true) == (e.run().0, memory, e.run().1, true),
{
}

/// The memory loop with a limit and no trap stops once the results took at least the limit in
/// clock cycles, or on a result it can't deal with.
pub proof fn limited_run_stops_at_the_limit_or_a_roadblock(
    e: EmulatorView,
    memory: Seq<u8>,
    n: nat,
    limit: u64,
    e1: EmulatorView,
    m1: Seq<u8>,
    result: ExecResult,
    t_states: u64,
)
    requires
        e.limited_loop_ends(memory, no_traps(n), limit, e1, m1, result, t_states, u64::MAX as nat),
        n < u64::MAX,
    ensures
        t_states >= limit || (!(result is Done) && !accessible(result, m1)),
{
    let answers = no_traps(n);
    let previous = answers.drop_last();
    let (e0, m0, results, stops) = e.rounds(memory, previous);
    assert(answers.last() == false);
    assert(e.rounds(memory, answers) == {
        let (e2, m2, r, stop) = e0.round(m0, false);
        (e2, m2, results.push(r), stops.push(stop))
    });
}

/// A request is for memory exactly when it has an address.
pub proof fn memory_requests_have_addresses(r: ExecResult)
    ensures
        r.spec_is_memory() <==> r.spec_get_address() is Some,
        r.spec_is_memory() ==> r.spec_t_states() >= 3,
{
}

/// The Z80 instruction set, as [z80](crate::cpus::z80::z80) builds it.
pub open spec fn is_z80(set: InstructionSet) -> bool {
    &&& set.wf()
    &&& set.tables@.len() == N_TABLES
    &&& forall|t: int, o: int|
        0 <= t < N_TABLES && 0 <= o < 256 ==> entry_ok(t, o as u8, #[trigger] set.entry(t, o))
}

/// After the `CB` prefix, the decoder gives the bit instruction made from the fields of the next
/// opcode, and is then ready for the next instruction.
///
/// `s0`, `s1` and `s2` are the states as each decoding step starts: the prefix is in `Z` for the
/// second, and the opcode for the third.
pub proof fn cb_prefix_leads_to_bit_instructions(
    d: DecoderView,
    s0: StateView,
    s1: StateView,
    s2: StateView,
    opcode: u8,
)
    requires
        d.wf(),
        is_z80(d.instruction_set),
        d.is_idle(),
        d.injected is None,
        s1.r8(Register::Z) == 0xcb,
        s2.r8(Register::Z) == opcode,
    ensures
        ({
            let (d1, _, m1) = d.decode(s0);
            let (d2, _, m2) = d1.decode(s1);
            let (d3, _, m3) = d2.decode(s2);
            &&& m1 == seq![Microinstruction::Fetch]
            &&& m2 == seq![Microinstruction::Fetch]
            &&& m3 == bit_micros(opcode)
            &&& d3.is_idle()
        }),
{
    let set = d.instruction_set;
    assert(entry_ok(MAIN_TABLE as int, 0xcb, set.entry(0, 0xcb)));
    assert(entry_ok(BIT_TABLE as int, opcode, set.entry(1, opcode as int)));
}

/// After the `DD CB` prefixes, the offset and the opcode, the decoder gives the bit instruction on
/// `(ix+d)` made from the fields of the opcode, with the offset in `W`, and is then ready for the
/// next instruction.
///
/// `s0` to `s3` are the states as each decoding step starts: `DD` is in `Z` for the second, `CB`
/// for the third, and the offset and the opcode in `Z` and `W` for the fourth.
pub proof fn dd_cb_prefixes_lead_to_indexed_bit_instructions(
    d: DecoderView,
    s0: StateView,
    s1: StateView,
    s2: StateView,
    s3: StateView,
    opcode: u8,
)
    requires
        d.wf(),
        is_z80(d.instruction_set),
        d.is_idle(),
        d.injected is None,
        s1.r8(Register::Z) == 0xdd,
        s2.r8(Register::Z) == 0xcb,
        s3.wf(),
        s3.r8(Register::W) == opcode,
    ensures
        ({
            let (d1, _, m1) = d.decode(s0);
            let (d2, _, m2) = d1.decode(s1);
            let (d3, _, m3) = d2.decode(s2);
            let (d4, s4, m4) = d3.decode(s3);
            &&& m1 == seq![Microinstruction::Fetch]
            &&& m2 == seq![Microinstruction::Fetch]
            &&& m3 == seq![Microinstruction::FetchWord]
            &&& m4 == index_bit_micros(Register16::IX, opcode)
            &&& s4.r8(Register::W) == s3.r8(Register::Z)
            &&& d4.is_idle()
        }),
{
    let set = d.instruction_set;
    assert(entry_ok(MAIN_TABLE as int, 0xdd, set.entry(0, 0xdd)));
    assert(entry_ok(IX_TABLE as int, 0xcb, set.entry(IX_TABLE as int, 0xcb)));
    assert(entry_ok(IX_BIT_TABLE as int, opcode, set.entry(IX_BIT_TABLE as int, opcode as int)));
}

/// In interrupt mode 1, servicing an interrupt makes the decoder run `rst 38h` in place of the next
/// instruction: the return address is pushed and the handler at `0038h` is called.
pub proof fn interrupt_mode_1_calls_0038h(e: EmulatorView)
    requires
        e.wf(),
        is_z80(e.decoder.instruction_set),
        e.last_result.spec_can_interrupt(),
        !e.nmi_pending,
        e.int_pending,
        e.state.iff1,
        e.state.interrupt_mode == InterruptMode::Rst0038,
    ensures
        ({
            let (e1, serviced) = e.service();
            &&& serviced == Some((Seq::<Microinstruction>::empty(), ExecResult::Int(6)))
            &&& !e1.int_pending
            &&& e1.decoder.decode(e1.state).2 == seq![
                Microinstruction::Push(Register16::PC),
                Microinstruction::JumpTo(0x38, 1),
            ]
        }),
{
    let set = e.decoder.instruction_set;
    assert(entry_ok(MAIN_TABLE as int, 0xff, set.entry(0, 0xff)));
    lemma_opcode_fields(0xff);
}

/// In interrupt mode 2, servicing an interrupt pushes the return address and calls the handler
/// at the address whose high byte is `I` and whose low byte is the device's byte.
pub proof fn interrupt_mode_2_calls_the_address_made_of_i_and_the_data(e: EmulatorView)
    requires
        e.wf(),
        e.last_result.spec_can_interrupt(),
        !e.nmi_pending,
        e.int_pending,
        e.state.iff1,
        e.state.interrupt_mode == InterruptMode::Vectored,
    ensures
        ({
            let (e1, serviced) = e.service();
            let (s2, pushed) = step(e1.state, Microinstruction::Push(Register16::PC));
            let (s3, jumped) = step(s2, Microinstruction::JrMm(0));
            &&& serviced == Some((vectored_micros(), ExecResult::Int(7)))
            &&& !e1.int_pending
            &&& pushed == ExecResult::Store16 {
                address: pushed_sp(e.state),
                data: e.state.bytes(Register16::PC),
            }
            &&& s3.r16(Register16::SP) == pushed_sp(e.state)
            &&& s3.r16(Register16::PC) == word(e.interrupt_data, e.state.r8(Register::I))
        }),
{
    let (e1, serviced) = e.service();
    push_step(e1.state, Register16::PC);
    let (s2, pushed) = step(e1.state, Microinstruction::Push(Register16::PC));
    jr_mm_step(s2, 0);
}

} // verus!
