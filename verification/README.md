# maz80emu

An emulator for the Z80 processor, written in Verus. It only emulates the processor: every memory
access and I/O operation is handed to the caller as an `ExecResult`, and helpers serve memory
requests from a byte slice.

## Layout

- `src/state.rs`: registers, flags and the processor state, with `StateView` as its model.
- `src/instructions/`: the results of a step (`ExecResult`), the instruction tables, the decoder,
  and the microinstructions that instructions are made of. `micro::step::step` states what each
  microinstruction does; `micro::step::execute` is proved to do it.
- `src/cpus/z80/`: the Z80 instruction set. The regular parts of the tables are built from the
  fields of their opcodes and specified that way.
- `src/emulator.rs`: the emulator, modelled by `EmulatorView`: running, interrupts, halting,
  memory access, and the loops that serve memory automatically.
- `src/memory.rs`: the `Memory` trait, for arrays, slices and read-only slices.
- `src/laws.rs`: properties that relate several operations, such as what a pop gives back of a
  push, or when interrupts are serviced.
- `src/cpm.rs`: the memory image in which a CP/M program starts, and what a BDOS call prints.
- `app/`: a small CP/M program runner around the library: files, the output and the run loop.
- `tests/`: tests of the library, including programs run to their end.
