//! Small programs run to their end, checking what they write to the output ports.

use maz80emu::emulator::Emulator;
use maz80emu::instructions::ExecResult;
use maz80emu::state::Register16;

/// Load `program` at address 0 of a 256 byte memory, with the stack at its top, and run it until
/// it halts. The bytes written to ports are returned in order, with the low byte of their port.
fn run_program(program: &[u8]) -> (Vec<(u16, u8)>, Emulator, [u8; 256]) {
    let mut memory = [0u8; 256];
    memory[..program.len()].copy_from_slice(program);
    let mut emulator = Emulator::new_z80();
    emulator.state.set_register_16(Register16::SP, 0x100);
    let mut outputs = Vec::new();
    for _ in 0..10_000 {
        match emulator.run_with_memory(&mut memory) {
            ExecResult::Out { port, data } => outputs.push((port & 0xff, data)),
            ExecResult::Halt => return (outputs, emulator, memory),
            ExecResult::In { .. } => emulator.send_byte(0x5a),
            _ => {}
        }
    }
    panic!("the program didn't halt");
}

/// The bytes a program writes to its ports.
fn outputs(program: &[u8]) -> Vec<u8> {
    run_program(program).0.into_iter().map(|(_, data)| data).collect()
}

#[test]
fn arithmetic_on_the_accumulator() {
    // ld a, 5; add a, 3; out (0), a; sub 10; out (1), a; halt
    assert_eq!(outputs(&[0x3e, 0x05, 0xc6, 0x03, 0xd3, 0x00, 0xd6, 0x0a, 0xd3, 0x01, 0x76]), vec![
        8, 0xfe,
    ]);
}

#[test]
fn ports_carry_the_accumulator_in_their_high_byte() {
    // ld a, 0x12; out (0x34), a; halt
    let mut memory = [0u8; 256];
    memory[..5].copy_from_slice(&[0x3e, 0x12, 0xd3, 0x34, 0x76]);
    let mut emulator = Emulator::new_z80();
    assert_eq!(emulator.run_with_memory(&mut memory), ExecResult::Out { port: 0x1234, data: 0x12 });
}

#[test]
fn decimal_adjust_after_an_addition() {
    // ld a, 15h; add a, 27h; daa; out (0), a; halt
    assert_eq!(outputs(&[0x3e, 0x15, 0xc6, 0x27, 0x27, 0xd3, 0x00, 0x76]), vec![0x42]);
}

#[test]
fn pop_gives_back_what_push_saved() {
    // ld bc, 1234h; push bc; pop de; ld a, d; out (0), a; ld a, e; out (1), a; halt
    let program = [0x01, 0x34, 0x12, 0xc5, 0xd1, 0x7a, 0xd3, 0x00, 0x7b, 0xd3, 0x01, 0x76];
    let (outputs, emulator, memory) = run_program(&program);
    assert_eq!(outputs, vec![(0, 0x12), (1, 0x34)]);
    // The stack pointer is back, and the word stayed below it in little endian order
    assert_eq!(emulator.state.sp(), 0x100);
    assert_eq!((memory[0xfe], memory[0xff]), (0x34, 0x12));
}

#[test]
fn call_and_return() {
    // call 10h; out (1), a; halt; ...; 10h: ld a, 77h; ret
    let mut program = [0u8; 0x13];
    program[..6].copy_from_slice(&[0xcd, 0x10, 0x00, 0xd3, 0x01, 0x76]);
    program[0x10..].copy_from_slice(&[0x3e, 0x77, 0xc9]);
    assert_eq!(run_program(&program).0, vec![(1, 0x77)]);
}

#[test]
fn djnz_loops_b_times() {
    // ld b, 3; xor a; loop: add a, 2; djnz loop; out (0), a; halt
    assert_eq!(outputs(&[0x06, 0x03, 0xaf, 0xc6, 0x02, 0x10, 0xfc, 0xd3, 0x00, 0x76]), vec![6]);
}

#[test]
fn conditional_jumps_follow_the_flags() {
    // xor a; jr z, +2; out (1), a; ld a, 9; out (2), a; halt
    assert_eq!(run_program(&[0xaf, 0x28, 0x02, 0xd3, 0x01, 0x3e, 0x09, 0xd3, 0x02, 0x76]).0, vec![
        (2, 9),
    ]);
}

#[test]
fn cb_rotations_and_bits() {
    // ld b, 81h; rlc b; ld a, b; out (0), a; set 4, a; out (1), a; res 0, a; out (2), a; halt
    assert_eq!(
        outputs(&[
            0x06, 0x81, 0xcb, 0x00, 0x78, 0xd3, 0x00, 0xcb, 0xe7, 0xd3, 0x01, 0xcb, 0x87, 0xd3, 0x02,
            0x76,
        ]),
        vec![0x03, 0x13, 0x12],
    );
}

#[test]
fn bit_tests_set_the_zero_flag() {
    // ld a, 1; bit 1, a; jr nz, +2; out (1), a; halt; out (2), a; halt
    assert_eq!(run_program(&[0x3e, 0x01, 0xcb, 0x4f, 0x20, 0x03, 0xd3, 0x01, 0x76, 0xd3, 0x02, 0x76]).0,
        vec![(1, 1)]);
}

#[test]
fn indexed_memory_and_bit_instructions() {
    // ld ix, 40h; ld (ix+2), 80h; rlc (ix+2); ld a, (ix+2); out (0), a; halt
    let program = [
        0xdd, 0x21, 0x40, 0x00, 0xdd, 0x36, 0x02, 0x80, 0xdd, 0xcb, 0x02, 0x06, 0xdd, 0x7e, 0x02,
        0xd3, 0x00, 0x76,
    ];
    let (outputs, _, memory) = run_program(&program);
    assert_eq!(outputs, vec![(0, 0x01)]);
    assert_eq!(memory[0x42], 0x01);
}

#[test]
fn negative_offsets_of_iy() {
    // ld iy, 50h; ld a, 3Ch; ld (iy-3), a; ld a, 0; ld a, (iy-3); out (0), a; halt
    let program = [
        0xfd, 0x21, 0x50, 0x00, 0x3e, 0x3c, 0xfd, 0x77, 0xfd, 0x3e, 0x00, 0xfd, 0x7e, 0xfd, 0xd3,
        0x00, 0x76,
    ];
    let (outputs, _, memory) = run_program(&program);
    assert_eq!(outputs, vec![(0, 0x3c)]);
    assert_eq!(memory[0x4d], 0x3c);
}

#[test]
fn ed_instructions() {
    // ld a, 1; neg; out (0), a; ld hl, 5; ld de, 7; and a; sbc hl, de; ld a, l; out (1), a; halt
    assert_eq!(
        outputs(&[
            0x3e, 0x01, 0xed, 0x44, 0xd3, 0x00, 0x21, 0x05, 0x00, 0x11, 0x07, 0x00, 0xa7, 0xed,
            0x52, 0x7d, 0xd3, 0x01, 0x76,
        ]),
        vec![0xff, 0xfe],
    );
}

#[test]
fn block_copy_with_ldir() {
    // ld hl, 80h; ld de, 90h; ld bc, 3; ldir; halt
    let mut program = [0u8; 0x83];
    program[..12].copy_from_slice(&[
        0x21, 0x80, 0x00, 0x11, 0x90, 0x00, 0x01, 0x03, 0x00, 0xed, 0xb0, 0x76,
    ]);
    program[0x80..].copy_from_slice(&[7, 8, 9]);
    let (_, emulator, memory) = run_program(&program);
    assert_eq!(&memory[0x90..0x93], &[7, 8, 9]);
    assert_eq!(emulator.state.bc(), 0);
    assert_eq!(emulator.state.hl(), 0x83);
    assert_eq!(emulator.state.de(), 0x93);
}

#[test]
fn exchanges_twice_change_nothing() {
    // ld bc, 1122h; exx; ld bc, 3344h; exx; ld a, b; out (0), a; exx; ld a, b; out (1), a; halt
    assert_eq!(
        outputs(&[
            0x01, 0x22, 0x11, 0xd9, 0x01, 0x44, 0x33, 0xd9, 0x78, 0xd3, 0x00, 0xd9, 0x78, 0xd3, 0x01,
            0x76,
        ]),
        vec![0x11, 0x33],
    );
    // ld a, 5; ex af, af'; ld a, 6; ex af, af'; out (0), a; ex af, af'; out (1), a; halt
    assert_eq!(
        outputs(&[0x3e, 0x05, 0x08, 0x3e, 0x06, 0x08, 0xd3, 0x00, 0x08, 0xd3, 0x01, 0x76]),
        vec![5, 6],
    );
}

#[test]
fn rotations_of_the_accumulator_undo_each_other() {
    // ld a, 96h; rlca; rrca; out (0), a; scf; rla; rra; out (1), a; halt
    assert_eq!(
        outputs(&[0x3e, 0x96, 0x07, 0x0f, 0xd3, 0x00, 0x37, 0x17, 0x1f, 0xd3, 0x01, 0x76]),
        vec![0x96, 0x96],
    );
    // ld a, 5Ah; cpl; out (0), a; cpl; out (1), a; halt
    assert_eq!(outputs(&[0x3e, 0x5a, 0x2f, 0xd3, 0x00, 0x2f, 0xd3, 0x01, 0x76]), vec![0xa5, 0x5a]);
}

#[test]
fn input_reads_the_byte_sent() {
    // in a, (7); out (0), a; halt
    assert_eq!(outputs(&[0xdb, 0x07, 0xd3, 0x00, 0x76]), vec![0x5a]);
}

#[test]
fn unknown_ed_opcodes_do_nothing() {
    // ld a, 4; ED 00; out (0), a; halt
    assert_eq!(outputs(&[0x3e, 0x04, 0xed, 0x00, 0xd3, 0x00, 0x76]), vec![4]);
}

#[test]
fn dd_before_an_unindexed_opcode_runs_it_as_usual() {
    // ld b, 7; DD ld a, b; out (0), a; halt
    assert_eq!(outputs(&[0x06, 0x07, 0xdd, 0x78, 0xd3, 0x00, 0x76]), vec![7]);
}

#[test]
fn neg_twice_gives_the_accumulator_back() {
    // ld a, 3Ch; neg; out (0), a; neg; out (1), a; halt
    assert_eq!(
        outputs(&[0x3e, 0x3c, 0xed, 0x44, 0xd3, 0x00, 0xed, 0x44, 0xd3, 0x01, 0x76]),
        vec![0xc4, 0x3c],
    );
}

#[test]
fn rrc_copies_bit_7_into_the_carry() {
    // ld b, 1; rrc b; ld a, b; out (0), a; jr c, +3; out (1), a; halt; out (2), a; halt
    assert_eq!(
        run_program(&[
            0x06, 0x01, 0xcb, 0x08, 0x78, 0xd3, 0x00, 0x38, 0x03, 0xd3, 0x01, 0x76, 0xd3, 0x02,
            0x76,
        ])
        .0,
        vec![(0, 0x80), (1, 0x80)],
    );
    // ld b, 80h; rrc b; ld a, b; out (0), a; jr c, +3; out (1), a; halt; out (2), a; halt
    assert_eq!(
        run_program(&[
            0x06, 0x80, 0xcb, 0x08, 0x78, 0xd3, 0x00, 0x38, 0x03, 0xd3, 0x01, 0x76, 0xd3, 0x02,
            0x76,
        ])
        .0,
        vec![(0, 0x40), (2, 0x40)],
    );
}
