//! Just enough of CP/M to run programs that print text.
//!
//! A program is loaded at `0100h` in a full 64 KiB memory. The end of the program, a jump to
//! `0000h`, meets an `out (0), a`; the BDOS entry at `0005h` is an `in a, (0)`, which the runner
//! answers, and a `ret`. Every other byte is a `halt`, so a wild jump stops the program.

use vstd::prelude::*;

verus! {

/// Size of the memory of a CP/M machine.
pub const MEMORY_SIZE: usize = 0x10000;

/// Where CP/M loads a program.
pub const LOAD_ADDRESS: usize = 0x100;

/// The longest program that fits between the load address and the end of memory.
pub const MAX_PROGRAM_LEN: usize = 0xff00;

/// The BDOS function that prints the character in `E`.
pub const PRINT_CHAR: u8 = 2;

/// The BDOS function that prints the string at `DE`, up to a `$`.
pub const PRINT_STRING: u8 = 9;

/// The byte that ends a string printed by the BDOS.
pub const STRING_END: u8 = 0x24;

/// The byte at each address of the memory in which a program starts.
pub open spec fn cpm_image(program: Seq<u8>) -> Seq<u8> {
    Seq::new(
        MEMORY_SIZE as nat,
        |i: int|
            if i == 0 {
                0xd3u8
            } else if i == 1 {
                0x00u8
            } else if i == 5 {
                0xdbu8
            } else if i == 6 {
                0x00u8
            } else if i == 7 {
                0xc9u8
            } else if LOAD_ADDRESS <= i < LOAD_ADDRESS + program.len() {
                program[i - LOAD_ADDRESS]
            } else {
                0x76u8
            },
    )
}

/// The memory in which a program starts, or `None` if the program does not fit in it.
pub fn cpm_memory(program: &[u8]) -> (memory: Option<Vec<u8>>)
    ensures
        memory is None <==> program@.len() > MAX_PROGRAM_LEN,
        memory matches Some(m) ==> m@ == cpm_image(program@),
{
    if program.len() > MAX_PROGRAM_LEN {
        return None;
    }
    let mut memory: Vec<u8> = Vec::new();
    let mut i: usize = 0;
    while i < MEMORY_SIZE
        invariant
            program@.len() <= MAX_PROGRAM_LEN,
            i <= MEMORY_SIZE,
            memory@.len() == i,
            forall|j: int| 0 <= j < i ==> memory@[j] == cpm_image(program@)[j],
        decreases MEMORY_SIZE - i,
    {
        let byte: u8 = if i == 0 {
            0xd3
        } else if i == 1 {
            0x00
        } else if i == 5 {
            0xdb
        } else if i == 6 {
            0x00
        } else if i == 7 {
            0xc9
        } else if LOAD_ADDRESS <= i && i < LOAD_ADDRESS + program.len() {
            program[i - LOAD_ADDRESS]
        } else {
            0x76
        };
        memory.push(byte);
        i += 1;
    }
    assert(memory@ =~= cpm_image(program@));
    Some(memory)
}

/// The bytes of `memory` from `start` up to the first `$` after it, if a `$` comes before the
/// end of memory.
pub open spec fn string_at(memory: Seq<u8>, start: int) -> Option<Seq<u8>> {
    if exists|k: int| start <= k < memory.len() && memory[k] == STRING_END {
        let end = choose|k: int|
            start <= k < memory.len() && memory[k] == STRING_END && forall|j: int|
                start <= j < k ==> memory[j] != STRING_END;
        Some(memory.subrange(start, end))
    } else {
        None
    }
}

/// The text that a BDOS call prints: the character in `E` for function 2, the string at `DE`
/// for function 9. `None` for any other function, and for a string with no `$` before the end
/// of memory.
pub open spec fn bdos_text_spec(function: u8, e: u8, de: u16, memory: Seq<u8>) -> Option<Seq<u8>> {
    if function == PRINT_CHAR {
        Some(seq![e])
    } else if function == PRINT_STRING {
        string_at(memory, de as int)
    } else {
        None
    }
}

/// The first `$` at or after `start` is the one that ends the string.
proof fn lemma_first_end(memory: Seq<u8>, start: int, end: int)
    requires
        start <= end < memory.len(),
        memory[end] == STRING_END,
        forall|j: int| start <= j < end ==> memory[j] != STRING_END,
    ensures
        string_at(memory, start) == Some(memory.subrange(start, end)),
{
    assert(start <= end < memory.len() && memory[end] == STRING_END);
    let other = choose|k: int|
        start <= k < memory.len() && memory[k] == STRING_END && forall|j: int|
            start <= j < k ==> memory[j] != STRING_END;
    assert(start <= end && end < memory.len() && memory[end] == STRING_END && forall|j: int|
        start <= j < end ==> memory[j] != STRING_END);
    if other < end {
        assert(memory[other] != STRING_END);
    }
    if end < other {
        assert(memory[end] != STRING_END);
    }
}

/// What a BDOS call prints, `None` where the runner cannot serve it.
pub fn bdos_text(function: u8, e: u8, de: u16, memory: &[u8]) -> (text: Option<Vec<u8>>)
    ensures
        text matches Some(t) ==> bdos_text_spec(function, e, de, memory@) == Some(t@),
        text is None ==> bdos_text_spec(function, e, de, memory@) is None,
{
    if function == PRINT_CHAR {
        let text = vec![e];
        assert(text@ =~= seq![e]);
        Some(text)
    } else if function == PRINT_STRING {
        let start: usize = de as usize;
        let mut address: usize = start;
        if start >= memory.len() {
            return None;
        }
        let mut text: Vec<u8> = Vec::new();
        assert(text@ =~= memory@.subrange(start as int, address as int));
        while address < memory.len()
            invariant
                start == de as int,
                function == PRINT_STRING,
                start <= address <= memory@.len(),
                text@ == memory@.subrange(start as int, address as int),
                forall|j: int| start <= j < address ==> memory@[j] != STRING_END,
            decreases memory.len() - address,
        {
            if memory[address] == STRING_END {
                proof {
                    lemma_first_end(memory@, start as int, address as int);
                }
                return Some(text);
            }
            text.push(memory[address]);
            proof {
                assert(text@ =~= memory@.subrange(start as int, address + 1));
            }
            address += 1;
        }
        proof {
            assert forall|k: int| start <= k < memory@.len() implies memory@[k] != STRING_END by {
                assert(k < address || address >= memory@.len());
            }
        }
        None
    } else {
        None
    }
}

} // verus!
