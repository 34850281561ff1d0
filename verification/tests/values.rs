//! Results, flags, registers and memories on concrete values.

use maz80emu::instructions::ExecResult;
use maz80emu::memory::Memory;
use maz80emu::state::{Flags, Register, Register16, State};

#[test]
fn clock_cycles_of_each_result() {
    assert_eq!(ExecResult::Done(7).t_states(), 7);
    assert_eq!(ExecResult::Fetch { address: 1 }.t_states(), 4);
    assert_eq!(ExecResult::Load { address: 1 }.t_states(), 3);
    assert_eq!(ExecResult::Load16 { address: 1 }.t_states(), 6);
    assert_eq!(ExecResult::Store { address: 1, data: 2 }.t_states(), 3);
    assert_eq!(ExecResult::Store16 { address: 1, data: [2, 3] }.t_states(), 6);
    assert_eq!(ExecResult::In { port: 1 }.t_states(), 4);
    assert_eq!(ExecResult::Out { port: 1, data: 2 }.t_states(), 4);
    assert_eq!(ExecResult::Halt.t_states(), 4);
    assert_eq!(ExecResult::Reti(14).t_states(), 14);
    assert_eq!(ExecResult::Ei(0).t_states(), 0);
    assert_eq!(ExecResult::Int(7).t_states(), 7);
}

#[test]
fn memory_requests_and_their_addresses() {
    let requests = [
        ExecResult::Fetch { address: 0x10 },
        ExecResult::Load { address: 0x11 },
        ExecResult::Load16 { address: 0x12 },
        ExecResult::Store { address: 0x13, data: 0 },
        ExecResult::Store16 { address: 0x14, data: [0, 0] },
    ];
    for (i, request) in requests.iter().enumerate() {
        assert!(request.is_memory());
        assert_eq!(request.get_address(), Some(0x10 + i as u16));
    }
    for other in [ExecResult::Done(0), ExecResult::In { port: 3 }, ExecResult::Halt, ExecResult::Int(5)] {
        assert!(!other.is_memory());
        assert_eq!(other.get_address(), None);
    }
}

#[test]
fn constructors_of_requests() {
    assert_eq!(ExecResult::fetch(5), ExecResult::Fetch { address: 5 });
    assert_eq!(ExecResult::load(6), ExecResult::Load { address: 6 });
    assert_eq!(ExecResult::load16(7), ExecResult::Load16 { address: 7 });
    assert_eq!(ExecResult::input(8), ExecResult::In { port: 8 });
}

#[test]
fn which_results_end_an_instruction() {
    assert!(ExecResult::Done(0).is_finished());
    assert!(ExecResult::Halt.is_finished());
    assert!(ExecResult::Reti(14).is_finished());
    assert!(ExecResult::Ei(0).is_finished());
    assert!(!ExecResult::Int(5).is_finished());
    assert!(!ExecResult::Fetch { address: 0 }.is_finished());
    // Right after `ei` no regular interrupt is taken
    assert!(!ExecResult::Ei(0).can_interrupt());
    assert!(ExecResult::Done(0).can_interrupt());
    assert!(!ExecResult::Out { port: 0, data: 0 }.can_interrupt());
}

#[test]
fn flag_masks() {
    assert_eq!(Flags::C().as_u8(), 0x01);
    assert_eq!(Flags::N().as_u8(), 0x02);
    assert_eq!(Flags::P().as_u8(), 0x04);
    assert_eq!(Flags::V().as_u8(), 0x04);
    assert_eq!(Flags::X().as_u8(), 0x08);
    assert_eq!(Flags::H().as_u8(), 0x10);
    assert_eq!(Flags::Y().as_u8(), 0x20);
    assert_eq!(Flags::Z().as_u8(), 0x40);
    assert_eq!(Flags::S().as_u8(), 0x80);
    assert_eq!(Flags::new().as_u8(), 0);
    assert_eq!(Flags::from_raw(0x5a).as_u8(), 0x5a);
}

#[test]
fn flags_of_values() {
    // Sign and zero
    assert_eq!(Flags::sz(0).as_u8(), 0x40);
    assert_eq!(Flags::sz(0x80).as_u8(), 0x80);
    assert_eq!(Flags::sz(0x01).as_u8(), 0x00);
    // Sign, zero and the undocumented bits 3 and 5
    assert_eq!(Flags::from_value(0xa8).as_u8(), 0xa8);
    assert_eq!(Flags::from_value(0).as_u8(), 0x40);
    assert_eq!(Flags::xy(0xff).as_u8(), 0x28);
    // Even parity
    assert_eq!(Flags::parity(0x03).as_u8(), 0x04);
    assert_eq!(Flags::parity(0x07).as_u8(), 0x00);
}

#[test]
fn flag_operations() {
    let f = Flags::from_raw(0b1100_0011);
    assert!(f.is_set(Flags::C()));
    assert!(!f.is_set(Flags::H()));
    assert_eq!(f.set(Flags::H()).as_u8(), 0b1101_0011);
    assert_eq!(f.reset(Flags::C()).as_u8(), 0b1100_0010);
    assert_eq!(f.flip(Flags::Z()).as_u8(), 0b1000_0011);
    assert_eq!(f.select(Flags::from_raw(0x0f)).as_u8(), 0b0000_0011);
    assert_eq!(Flags::C().set_if(true).as_u8(), 0x01);
    assert_eq!(Flags::C().set_if(false).as_u8(), 0x00);
    assert_eq!((Flags::C() | Flags::Z()).as_u8(), 0x41);
    assert_eq!((f & Flags::S()).as_u8(), 0x80);
    assert_eq!((!Flags::C()).as_u8(), 0xfe);
    assert_eq!((f - Flags::C()).as_u8(), 0b1100_0010);
    let mut g = Flags::new();
    g |= Flags::N();
    g |= Flags::S();
    g &= Flags::S();
    assert_eq!(g.as_u8(), 0x80);
    g -= Flags::S();
    assert_eq!(g.as_u8(), 0);
}

#[test]
fn a_new_state() {
    let state = State::new();
    assert_eq!(state.af(), 0xffff);
    assert_eq!(state.sp(), 0xffff);
    assert_eq!(state.pc(), 0);
    assert_eq!(state.bc(), 0);
    assert!(!state.iff1);
    assert!(!state.iff2);
}

#[test]
fn registers_read_back_what_was_written() {
    let mut state = State::new();
    state.set_register_16(Register16::BC, 0x1234);
    assert_eq!(state.b(), 0x12);
    assert_eq!(state.c(), 0x34);
    assert_eq!(state.get_register_16_bytes(Register16::BC), [0x34, 0x12]);
    state.set_register_8(Register::H, 0xab);
    state.set_register_8(Register::L, 0xcd);
    assert_eq!(state.hl(), 0xabcd);
    assert_eq!(state.get_register_8(Register::B), 0x12);
    state.set_register_16_bytes(Register16::DE, [0x01, 0x02]);
    assert_eq!(state.de(), 0x0201);
    *state.get_register_mut_8(Register::A) = 0x77;
    assert_eq!(state.a(), 0x77);
    *state.get_register_mut_16(Register16::IX) = [0x11, 0x22];
    assert_eq!(state.ix(), 0x2211);
    *state.iy_mut() = [0x33, 0x44];
    assert_eq!(state.iy_bytes(), [0x33, 0x44]);
}

#[test]
fn the_refresh_register_counts_in_seven_bits() {
    let mut state = State::new();
    *state.r_mut() = 0x7f;
    state.advance_r();
    assert_eq!(state.r(), 0x00);
    state.revert_r();
    assert_eq!(state.r(), 0x7f);
    *state.r_mut() = 0xff;
    state.advance_r();
    assert_eq!(state.r(), 0x80);
    state.revert_r();
    assert_eq!(state.r(), 0xff);
}

#[test]
fn program_counter_and_data_from_memory() {
    let mut state = State::new();
    state.advance_pc(0xffff);
    assert_eq!(state.pc(), 0xffff);
    state.advance_pc(2);
    assert_eq!(state.pc(), 1);
    state.load_data_8(0x42);
    assert_eq!(state.z(), 0x42);
    state.load_data_16([0x34, 0x12]);
    assert_eq!(state.wz(), 0x1234);
    state.update_flags(Flags::from_raw(0x81));
    assert_eq!(state.get_flags().as_u8(), 0x81);
    state.flags_from_bool(0x40, true);
    assert_eq!(state.get_flags().as_u8(), 0xc1);
    state.flags_from_bool(0x01, false);
    assert_eq!(state.get_flags().as_u8(), 0xc0);
}

#[test]
fn register_indices() {
    assert_eq!(Register::Flags.index(), 0);
    assert_eq!(Register::A.index(), 1);
    assert_eq!(Register::HAlt.index(), 27);
    assert_eq!(Register16::AF.index(), 0);
    assert_eq!(Register16::WZ.index(), 9);
    assert_eq!(Register16::HlAlt.index(), 13);
}

#[test]
fn memories() {
    let mut ram = [1u8, 2, 3];
    assert!(Memory::contains(&ram, 2));
    assert!(!Memory::contains(&ram, 3));
    assert_eq!(Memory::load(&ram, 1), 2);
    Memory::store(&mut ram, 1, 9);
    assert_eq!(ram, [1, 9, 3]);
    let mut slice: Vec<u8> = vec![4, 5];
    let slice: &mut [u8] = &mut slice;
    assert!(Memory::contains(slice, 1));
    assert!(!Memory::contains(slice, 2));
    Memory::store(slice, 0, 6);
    assert_eq!(Memory::load(slice, 0), 6);
    // Read only memory ignores stores
    let data = [7u8, 8];
    let mut rom: &[u8] = &data;
    assert!(Memory::contains(&rom, 1));
    assert!(!Memory::contains(&rom, 2));
    Memory::store(&mut rom, 0, 1);
    assert_eq!(Memory::load(&rom, 0), 7);
}
