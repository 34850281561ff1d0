//! Instruction sets of the supported processors.

pub mod z80;
