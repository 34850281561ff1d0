//! Layout of the register file.

use maz80emu::state::{Register, Register16};

#[test]
fn register_enums_test() {
    // All registers grouped in trios of 16-bit register, high and low
    let grouped = [
        (Register16::AF, Register::A, Register::Flags),
        (Register16::BC, Register::B, Register::C),
        (Register16::DE, Register::D, Register::E),
        (Register16::HL, Register::H, Register::L),
        (Register16::IX, Register::IXH, Register::IXL),
        (Register16::IY, Register::IYH, Register::IYL),
        (Register16::PC, Register::PCH, Register::PCL),
        (Register16::RI, Register::R, Register::I),
        (Register16::SP, Register::SPH, Register::SPL),
        (Register16::AfAlt, Register::AAlt, Register::FAlt),
        (Register16::BcAlt, Register::BAlt, Register::CAlt),
        (Register16::DeAlt, Register::DAlt, Register::EAlt),
    ];
    for (r16, high, low) in grouped {
        assert_eq!(r16 as usize, high as usize / 2);
        assert_eq!(r16 as usize, low as usize / 2);
        assert_eq!(low as usize + 1, high as usize);
    }
}
