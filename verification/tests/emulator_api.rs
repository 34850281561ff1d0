//! The emulator's interface: memory requests, halting, time limits and interrupt modes.

use maz80emu::emulator::Emulator;
use maz80emu::instructions::ExecResult;
use maz80emu::state::Register16;

#[test]
fn a_new_emulator_fetches_from_address_zero() {
    let mut emulator = Emulator::new_z80();
    assert!(!emulator.is_halted());
    assert_eq!(emulator.run(), ExecResult::Fetch { address: 0 });
    assert_eq!(emulator.state.pc(), 1);
    assert_eq!(emulator.state.r(), 1);
}

#[test]
fn requests_can_be_served_by_hand() {
    // ld a, (0x0005); out (0), a with the memory handled here
    let memory = [0x3a, 0x05, 0x00, 0xd3, 0x00, 0x99];
    let mut emulator = Emulator::new_z80();
    let mut out = None;
    for _ in 0..20 {
        match emulator.run() {
            ExecResult::Fetch { address } | ExecResult::Load { address } => {
                emulator.send_byte(memory[address as usize])
            }
            ExecResult::Load16 { address } => {
                let address = address as usize;
                emulator.send_word([memory[address], memory[address + 1]]);
            }
            ExecResult::Out { data, .. } => {
                out = Some(data);
                break;
            }
            _ => {}
        }
    }
    assert_eq!(out, Some(0x99));
}

#[test]
fn access_memory_only_serves_addresses_within_bounds() {
    let mut emulator = Emulator::new_z80();
    let mut memory = [1u8, 2, 3, 4];
    assert!(emulator.access_memory(ExecResult::Load { address: 2 }, &mut memory));
    assert_eq!(emulator.state.z(), 3);
    assert!(!emulator.access_memory(ExecResult::Load { address: 4 }, &mut memory));
    assert_eq!(emulator.state.z(), 3);
    assert!(emulator.access_memory(ExecResult::Load16 { address: 1 }, &mut memory));
    assert_eq!(emulator.state.wz(), 0x0302);
    // The second byte of a word is past the end
    assert!(!emulator.access_memory(ExecResult::Load16 { address: 3 }, &mut memory));
    assert!(!emulator.access_memory(ExecResult::Store16 { address: 3, data: [9, 9] }, &mut memory));
    assert_eq!(memory, [1, 2, 3, 4]);
    assert!(emulator.access_memory(ExecResult::Store { address: 0, data: 7 }, &mut memory));
    assert!(emulator.access_memory(ExecResult::Store16 { address: 2, data: [5, 6] }, &mut memory));
    assert_eq!(memory, [7, 2, 5, 6]);
    // Other results aren't memory requests
    assert!(!emulator.access_memory(ExecResult::Done(4), &mut memory));
    assert!(!emulator.access_memory(ExecResult::In { port: 0 }, &mut memory));
    assert!(!emulator.access_memory(ExecResult::Out { port: 0, data: 1 }, &mut memory));
}

#[test]
fn words_wrap_around_the_address_space() {
    let mut emulator = Emulator::new_z80();
    let mut memory = vec![0u8; 0x10000];
    assert!(emulator.access_memory(ExecResult::Store16 { address: 0xffff, data: [0xaa, 0xbb] }, &mut memory));
    assert_eq!((memory[0xffff], memory[0]), (0xaa, 0xbb));
    assert!(emulator.access_memory(ExecResult::Load16 { address: 0xffff }, &mut memory));
    assert_eq!(emulator.state.wz(), 0xbbaa);
}

#[test]
fn requests_outside_memory_are_returned() {
    // jp 1000h, out of a 16 byte memory
    let mut memory = [0u8; 16];
    memory[..3].copy_from_slice(&[0xc3, 0x00, 0x10]);
    let mut emulator = Emulator::new_z80();
    assert_eq!(emulator.run_with_memory(&mut memory), ExecResult::Fetch { address: 0x1000 });
}

#[test]
fn a_halted_processor_waits_for_an_interrupt() {
    // halt at 0, and the NMI handler at 66h outputs a mark
    let mut memory = [0u8; 256];
    memory[0] = 0x76;
    memory[0x66..0x68].copy_from_slice(&[0xd3, 0x42]);
    let mut emulator = Emulator::new_z80();
    emulator.state.set_register_16(Register16::SP, 0x100);
    assert_eq!(emulator.run_with_memory(&mut memory), ExecResult::Halt);
    assert!(emulator.is_halted());
    let pc = emulator.state.pc();
    for _ in 0..3 {
        assert_eq!(emulator.run_with_memory(&mut memory), ExecResult::Halt);
        assert_eq!(emulator.state.pc(), pc);
    }
    emulator.non_masking_interrupt();
    assert!(matches!(emulator.run_with_memory(&mut memory), ExecResult::Int(5)));
    assert!(!emulator.is_halted());
    assert!(matches!(emulator.run_with_memory(&mut memory), ExecResult::Out { port, .. } if port & 0xff == 0x42));
    // The return address is the instruction after `halt`
    assert_eq!((memory[0xfe], memory[0xff]), (0x01, 0x00));
}

#[test]
fn the_time_limit_stops_an_endless_loop() {
    // jr -2
    let mut infinite_loop: [u8; 2] = [0x18, 0xfe];
    let mut emulator = Emulator::new_z80();
    let (result, t_states) = emulator.run_with_memory_limit(&mut infinite_loop, 1000);
    assert!(t_states >= 1000);
    assert!(t_states < 1100);
    assert!(!matches!(result, ExecResult::Halt));
}

#[test]
fn the_time_limit_counts_clock_cycles() {
    // nop; nop; halt: each nop is a 4 cycle fetch
    let mut memory = [0x00, 0x00, 0x76];
    let mut emulator = Emulator::new_z80();
    assert_eq!(emulator.run_with_memory_limit(&mut memory, 8), (ExecResult::Fetch { address: 1 }, 8));
    assert_eq!(emulator.run_with_memory_limit(&mut memory, 1000), (ExecResult::Halt, 8));
}

#[test]
fn a_trap_catches_results_before_they_are_handled() {
    let mut memory = [0x00, 0x00, 0x76];
    let mut emulator = Emulator::new_z80();
    let result = emulator.run_with_memory_trap(&mut memory, |r| r.is_memory());
    assert_eq!(result, ExecResult::Fetch { address: 0 });
    // The caught request wasn't served: the trap can serve it
    assert!(emulator.access_memory(result, &mut memory));
    let (result, t_states) =
        emulator.run_with_memory_trap_limit(&mut memory, |r| matches!(r, ExecResult::Fetch { .. }), 100);
    assert_eq!((result, t_states), (ExecResult::Fetch { address: 1 }, 4));
}

/// The low byte of the port of the first `out`, running at most 20 times.
fn first_mark(emulator: &mut Emulator, memory: &mut [u8]) -> Option<u16> {
    for _ in 0..20 {
        if let ExecResult::Out { port, .. } = emulator.run_with_memory(memory) {
            return Some(port & 0xff);
        }
    }
    None
}

#[test]
fn rst_38h_in_interrupt_mode_1() {
    // im 1; ei; loop: jr loop; ...; 38h: out (38h), a
    let mut memory = [0u8; 256];
    memory[..5].copy_from_slice(&[0xed, 0x56, 0xfb, 0x18, 0xfe]);
    memory[0x38..0x3a].copy_from_slice(&[0xd3, 0x38]);
    let mut emulator = Emulator::new_z80();
    emulator.state.set_register_16(Register16::SP, 0x100);
    // Requested while interrupts are still disabled
    emulator.interrupt(0x00);
    assert!(matches!(emulator.run_with_memory(&mut memory), ExecResult::Ei(_)));
    assert!(matches!(emulator.run_with_memory(&mut memory), ExecResult::Int(6)));
    assert_eq!(first_mark(&mut emulator, &mut memory), Some(0x38));
}

#[test]
fn vectored_interrupts_in_mode_2() {
    // ld a, 0; ld i, a; im 2; ei; loop: jr loop; the handler at I:80h is out (80h), a
    let mut memory = [0u8; 256];
    memory[..9].copy_from_slice(&[0x3e, 0x00, 0xed, 0x47, 0xed, 0x5e, 0xfb, 0x18, 0xfe]);
    memory[0x10..0x12].copy_from_slice(&[0xd3, 0x10]);
    memory[0x80..0x82].copy_from_slice(&[0xd3, 0x80]);
    let mut emulator = Emulator::new_z80();
    emulator.state.set_register_16(Register16::SP, 0x100);
    emulator.interrupt(0x80);
    assert!(matches!(emulator.run_with_memory(&mut memory), ExecResult::Ei(_)));
    assert!(matches!(emulator.run_with_memory(&mut memory), ExecResult::Int(7)));
    assert_eq!(first_mark(&mut emulator, &mut memory), Some(0x80));
}

#[test]
fn disabled_interrupts_stay_pending() {
    // di; nop...; halt at 10h, and the handler for rst 28h outputs a mark
    let mut memory = [0u8; 256];
    memory[0] = 0xf3;
    memory[0x10] = 0x76;
    memory[0x28..0x2a].copy_from_slice(&[0xd3, 0x28]);
    let mut emulator = Emulator::new_z80();
    emulator.state.set_register_16(Register16::SP, 0x100);
    emulator.interrupt(0xef);
    // Runs the nops up to the halt without taking the interrupt
    let mut result = emulator.run_with_memory(&mut memory);
    while result != ExecResult::Halt {
        assert!(!matches!(result, ExecResult::Int(_) | ExecResult::Out { .. }));
        result = emulator.run_with_memory(&mut memory);
    }
}

#[test]
fn interrupt_mode_0_runs_the_byte_sent() {
    // ei; loop: jr loop; rst 10h handler outputs a mark
    let mut memory = [0u8; 256];
    memory[..3].copy_from_slice(&[0xfb, 0x18, 0xfe]);
    memory[0x10..0x12].copy_from_slice(&[0xd3, 0x10]);
    let mut emulator = Emulator::new_z80();
    emulator.state.set_register_16(Register16::SP, 0x100);
    // rst 10h
    emulator.interrupt(0xd7);
    assert!(matches!(emulator.run_with_memory(&mut memory), ExecResult::Ei(_)));
    assert!(matches!(emulator.run_with_memory(&mut memory), ExecResult::Int(6)));
    assert_eq!(first_mark(&mut emulator, &mut memory), Some(0x10));
}

#[test]
fn service_interrupt_starts_the_handler() {
    let mut emulator = Emulator::new_z80();
    emulator.non_masking_interrupt();
    let serviced = emulator.service_interrupt();
    let (micros, result) = serviced.expect("a nonmaskable interrupt is serviced between instructions");
    assert_eq!(result, ExecResult::Int(5));
    assert_eq!(micros.len(), 2);
    // Nothing else is pending
    assert_eq!(emulator.service_interrupt(), None);
}

#[test]
fn tracing_flags() {
    let mut emulator = Emulator::new_z80();
    assert!(!emulator.is_tracing());
    assert!(!emulator.is_dumping_state());
    emulator.enable_tracing();
    emulator.enable_state_dump();
    assert!(emulator.is_tracing());
    assert!(emulator.is_dumping_state());
    emulator.disable_tracing();
    emulator.disable_state_dump();
    assert!(!emulator.is_tracing());
    assert!(!emulator.is_dumping_state());
}

#[test]
fn registers_set_through_the_emulator() {
    let mut emulator = Emulator::new_z80();
    emulator.set_register_16(Register16::PC, 0x1234);
    emulator.set_register_8(maz80emu::state::Register::A, 0x56);
    assert_eq!(emulator.state().pc(), 0x1234);
    assert_eq!(emulator.state().a(), 0x56);
    assert_eq!(emulator.run(), ExecResult::Fetch { address: 0x1234 });
}
