use maz80emu::cpm::{bdos_text, cpm_memory, MAX_PROGRAM_LEN, MEMORY_SIZE};

#[test]
fn programs_load_at_0100h_among_halts() {
    let memory = cpm_memory(&[0x3e, 0x41, 0xc3, 0x00, 0x00]).unwrap();
    assert_eq!(memory.len(), MEMORY_SIZE);
    assert_eq!(&memory[..8], &[0xd3, 0x00, 0x76, 0x76, 0x76, 0xdb, 0x00, 0xc9]);
    assert_eq!(&memory[0x100..0x105], &[0x3e, 0x41, 0xc3, 0x00, 0x00]);
    assert_eq!(memory[0xff], 0x76);
    assert_eq!(memory[0x105], 0x76);
    assert_eq!(memory[0xffff], 0x76);
}

#[test]
fn programs_up_to_the_end_of_memory_fit() {
    let program = vec![0x00; MAX_PROGRAM_LEN];
    let memory = cpm_memory(&program).unwrap();
    assert_eq!(memory[0xffff], 0x00);
    assert_eq!(memory[0xff], 0x76);
    assert!(cpm_memory(&vec![0x00; MAX_PROGRAM_LEN + 1]).is_none());
}

#[test]
fn bdos_prints_a_character() {
    assert_eq!(bdos_text(2, b'x', 0, &[]), Some(vec![b'x']));
}

#[test]
fn bdos_prints_a_string_up_to_the_dollar() {
    let memory = b"..hello$world$";
    assert_eq!(bdos_text(9, 0, 2, memory), Some(b"hello".to_vec()));
    assert_eq!(bdos_text(9, 0, 7, memory), Some(Vec::new()));
    assert_eq!(bdos_text(9, 0, 8, memory), Some(b"world".to_vec()));
}

#[test]
fn bdos_refuses_what_it_cannot_print() {
    assert_eq!(bdos_text(9, 0, 0, b"no end"), None);
    assert_eq!(bdos_text(9, 0, 10, b"$"), None);
    assert_eq!(bdos_text(1, 0, 0, b"$"), None);
}
