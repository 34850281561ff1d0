//! An emulator for the Z80 processor.
//!
//! The emulator only deals with the processor itself: memory and I/O requests are handed to the
//! user as [`instructions::ExecResult`] values, with helpers for memory held in a byte slice.

pub mod state;
pub mod cpus;
pub mod instructions;
pub mod memory;
pub mod emulator;
pub mod laws;
pub mod cpm;
pub mod instruction_laws;
