//! The decoder and the microinstructions driven by hand, on a small made-up processor.

use maz80emu::instructions::decoder::Decoder;
use maz80emu::instructions::micro::step::{execute, MathOp, Microinstruction};
use maz80emu::instructions::{ExecResult, ExtraBytes, Instruction, InstructionSet};
use maz80emu::state::{Register, Register16, State};

fn entry(extra_bytes: ExtraBytes, micros: Vec<Microinstruction>) -> Instruction {
    Instruction::Instruction { extra_bytes, micros }
}

/// A processor with a handful of instructions:
///
/// * 0 to 7 put their own opcode, left in `Z` by the fetch, in A
/// * 8 and 9 load the byte after them in B and C
/// * 10 loads the word after it in DE
/// * 11 adds B to A
/// * 12 puts BC + DE in HL
/// * 13 stores HL at the address after it
/// * 14 is a prefix: every opcode after it loads the byte that follows into the flags
/// * anything else halts
fn small_processor() -> InstructionSet {
    let mut main: Vec<Instruction> = (0..256)
        .map(|_| entry(ExtraBytes::Zero, vec![Microinstruction::Halt]))
        .collect();
    for opcode in 0..8 {
        main[opcode] = entry(ExtraBytes::Zero, vec![Microinstruction::LdRN(Register::A, 4)]);
    }
    main[8] = entry(ExtraBytes::One, vec![Microinstruction::LdRN(Register::B, 4)]);
    main[9] = entry(ExtraBytes::One, vec![Microinstruction::LdRN(Register::C, 4)]);
    main[10] = entry(ExtraBytes::Two, vec![Microinstruction::LdRrNn(Register16::DE, 4)]);
    main[11] = entry(ExtraBytes::Zero, vec![Microinstruction::Math(MathOp::Add, Register::B, 4)]);
    main[12] = entry(
        ExtraBytes::Zero,
        vec![
            Microinstruction::LdRrRr(Register16::HL, Register16::BC, 0),
            Microinstruction::AddRrRr(Register16::HL, Register16::DE, 4),
        ],
    );
    main[13] = entry(ExtraBytes::Two, vec![Microinstruction::LdMmRr(Register16::HL)]);
    main[14] = Instruction::Prefix(1);
    let prefixed: Vec<Instruction> = (0..256)
        .map(|_| entry(ExtraBytes::One, vec![Microinstruction::LdRN(Register::Flags, 4)]))
        .collect();
    InstructionSet { tables: vec![main, prefixed] }
}

/// Decode and run one instruction, serving its memory requests from `ram`.
///
/// The decoder hands out lists of microinstructions; the instruction is over after a list with a
/// result that is not a memory request.
fn run_instruction(state: &mut State, decoder: &mut Decoder, ram: &mut [u8]) {
    loop {
        let mut finished = false;
        for micro in decoder.decode(state) {
            match execute(state, micro) {
                ExecResult::Fetch { address } | ExecResult::Load { address } => {
                    state.load_data_8(ram[address as usize]);
                }
                ExecResult::Load16 { address } => {
                    let address = address as usize;
                    state.load_data_16([ram[address], ram[address + 1]]);
                }
                ExecResult::Store { address, data } => ram[address as usize] = data,
                ExecResult::Store16 { address, data } => {
                    ram[address as usize] = data[0];
                    ram[address as usize + 1] = data[1];
                }
                _ => finished = true,
            }
        }
        if finished {
            return;
        }
    }
}

#[test]
fn test_dummy_cpu() {
    let mut memory: [u8; 25] = [
        7, // A = 7
        0, // A = 0
        1, // A = 1
        2, // A = 2
        3, // A = 3
        4, // A = 4
        5, // A = 5
        6, // A = 6
        7, // A = 7
        14, 0, 18, // Flags = 18
        8, 0xc3, // B = C3h
        11, // A = A + B
        9, 0x73, // C = 73h
        10, 0xaa, 0xbb, // DE = BBAAh
        12, // HL = BC + DE
        13, 4, 0, // (4) = HL
        255, // halt
    ];
    let mut state = State::new();
    let mut decoder = Decoder::new(small_processor());

    for value in [7, 0, 1, 2, 3, 4, 5, 6, 7] {
        run_instruction(&mut state, &mut decoder, &mut memory);
        assert_eq!(state.get_register_8(Register::A), value);
    }
    run_instruction(&mut state, &mut decoder, &mut memory);
    assert_eq!(state.get_register_8(Register::Flags), 18);
    run_instruction(&mut state, &mut decoder, &mut memory);
    assert_eq!(state.get_register_8(Register::B), 0xc3);
    run_instruction(&mut state, &mut decoder, &mut memory);
    assert_eq!(state.get_register_8(Register::A), 0xc3 + 7);
    run_instruction(&mut state, &mut decoder, &mut memory);
    assert_eq!(state.get_register_8(Register::C), 0x73);
    run_instruction(&mut state, &mut decoder, &mut memory);
    assert_eq!(state.get_register_16(Register16::DE), 0xbbaa);
    run_instruction(&mut state, &mut decoder, &mut memory);
    let sum = 0xc373u16.wrapping_add(0xbbaa);
    assert_eq!(state.get_register_16(Register16::HL), sum);
    run_instruction(&mut state, &mut decoder, &mut memory);
    let bytes = sum.to_le_bytes();
    assert_eq!(memory[4], bytes[0]);
    assert_eq!(memory[5], bytes[1]);
}
