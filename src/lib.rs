//! Core of a Nintendo Entertainment System emulator: the 6502-family CPU,
//! its memory bus, and the timing/interrupt slice of the graphics unit.
//!
//! Each executable operation is proved against a functional description on plain
//! values: `cpu::semantics` for the processor, `bus` for address decoding, and
//! `ppu` for the graphics unit's ports and scan timing.

pub mod bus;
pub mod cpu;
pub mod ppu;
pub mod rom;
