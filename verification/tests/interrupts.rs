//! Interrupts of the emulator, checked on a small program whose `out` instructions mark the
//! places it reaches.

use maz80emu::emulator::Emulator;
use maz80emu::instructions::ExecResult;
use maz80emu::state::Register16;

/// Write `code` into `memory` starting at `start`.
fn place(memory: &mut [u8; 256], start: usize, code: &[u8]) {
    memory[start..start + code.len()].copy_from_slice(code);
}

/// A 256 byte memory image: a main program, three interrupt handlers and an NMI handler.
///
/// Every other byte is a `nop`.
fn make_program() -> [u8; 256] {
    let mut memory = [0u8; 256];
    // Main program: marks 1 to 6 around `ei`/`di`, with the stack at the top of memory
    place(
        &mut memory,
        0x00,
        &[
            0xd3, 0x01, 0x31, 0xff, 0x00, 0xfb, 0xd3, 0x02, 0xd3, 0x03, 0xf3, 0xd3, 0x04, 0xfb,
            0xd3, 0x05, 0xd3, 0x06, 0x76,
        ],
    );
    // Handler at 18h: mark 7 with interrupts disabled, then `ei` and `reti`
    place(&mut memory, 0x18, &[0xf3, 0xd3, 0x07, 0xfb, 0xed, 0x4d, 0xd3, 0x06]);
    // Handler at 20h: marks 20h and 21h
    place(&mut memory, 0x20, &[0xf3, 0xd3, 0x20, 0xd3, 0x21, 0xfb, 0xed, 0x4d]);
    // Handler at 28h: mark 28h between two `nop`s
    place(&mut memory, 0x28, &[0xf3, 0x00, 0xd3, 0x28, 0x00, 0xfb, 0xed, 0x4d]);
    // NMI handler at 66h: mark 66h and `retn`; what follows must never run
    place(&mut memory, 0x66, &[0xd3, 0x66, 0xed, 0x45, 0xd3, 0xbb, 0x76]);
    memory
}

/// The low byte of the port of an `out`, or `None` for any other result.
fn mark(result: ExecResult) -> Option<u16> {
    match result {
        ExecResult::Out { port, .. } => Some(port & 0xff),
        _ => None,
    }
}

/// Run until an `out`, and give its mark.
fn next_mark(emulator: &mut Emulator, memory: &mut [u8; 256]) -> u16 {
    loop {
        if let Some(port) = mark(emulator.run_with_memory(memory)) {
            return port;
        }
    }
}

#[test]
fn check_if_interrupts_trigger_when_they_should() {
    let mut emulator = Emulator::new_z80();
    let mut memory = make_program();
    let first = emulator.run();
    assert!(matches!(first, ExecResult::Fetch { address: 0 }));
    // An instruction has started: nothing can be serviced
    assert_eq!(emulator.service_interrupt(), None);
    // The device asks for `rst 18h`, still in the middle of the instruction
    emulator.interrupt(0xdf);
    assert_eq!(emulator.service_interrupt(), None);
    emulator.access_memory(first, &mut memory);
    // The instruction that was running finishes first
    assert_eq!(
        mark(emulator.run_with_memory(&mut memory)),
        Some(1),
        "Interruption handled during instruction execution"
    );
    assert!(matches!(emulator.run_with_memory(&mut memory), ExecResult::Ei(_)));
    // The instruction after `ei` is never interrupted
    assert_eq!(
        mark(emulator.run_with_memory(&mut memory)),
        Some(2),
        "ei didn't block interruptions for the next instruction"
    );
    assert!(matches!(emulator.run_with_memory(&mut memory), ExecResult::Int(_)));
    assert_eq!(
        mark(emulator.run_with_memory(&mut memory)),
        Some(7),
        "Didn't start handling interruption"
    );
    assert!(matches!(emulator.run_with_memory(&mut memory), ExecResult::Ei(_)));
    assert!(matches!(emulator.run_with_memory(&mut memory), ExecResult::Reti(_)));
    // Back in the main program, right where it was
    assert_eq!(
        mark(emulator.run_with_memory(&mut memory)),
        Some(3),
        "interruption didn't return properly"
    );
}

#[test]
fn check_if_interrupts_trigger_in_the_middle_of_instructions_and_break_stuff() {
    let mut emulator = Emulator::new_z80();
    let mut memory = make_program();
    // The stack is set here since the program's `ld sp` is never reached
    emulator.state.set_register_16(Register16::SP, 0xff);
    let first = emulator.run();
    assert!(matches!(first, ExecResult::Fetch { address: 0 }));
    emulator.access_memory(first, &mut memory);
    // An NMI arrives in the middle of `out (1), a`
    emulator.non_masking_interrupt();
    assert_eq!(
        mark(emulator.run_with_memory(&mut memory)),
        Some(1),
        "Interruption handled during instruction execution"
    );
    let end = emulator.run_with_memory_trap(&mut memory, |e| matches!(e, ExecResult::Done(_)));
    assert!(matches!(end, ExecResult::Done(_)), "The instruction didn't finish as it should");
    // Only now is the NMI serviced
    assert!(matches!(emulator.run_with_memory(&mut memory), ExecResult::Int(_)));
    assert_eq!(mark(emulator.run_with_memory(&mut memory)), Some(0x66), "NMI didn't trigger");
    // `retn` goes back to the `ei` of the main program
    assert!(matches!(emulator.run_with_memory(&mut memory), ExecResult::Ei(_)));
}

#[test]
fn check_if_nmis_have_precedence_over_regular_interrupts() {
    let mut emulator = Emulator::new_z80();
    let mut memory = make_program();
    // Up to the mark after the first `ei`
    while next_mark(&mut emulator, &mut memory) != 0x02 {}
    // Both kinds of interrupt at once: the NMI goes first
    emulator.non_masking_interrupt();
    emulator.interrupt(0xe7);
    assert_eq!(next_mark(&mut emulator, &mut memory), 0x66, "Didn't go to the NMI handler");
    // Then `rst 20h`, up to its first mark
    while next_mark(&mut emulator, &mut memory) != 0x20 {}
    // An NMI is serviced even with interrupts disabled, in the middle of a handler
    emulator.non_masking_interrupt();
    assert_eq!(next_mark(&mut emulator, &mut memory), 0x66, "Didn't go to the NMI handler");
    // and the handler goes on afterwards
    assert_eq!(
        next_mark(&mut emulator, &mut memory),
        0x21,
        "Didn't return to the interruption handler at 20h"
    );
}
