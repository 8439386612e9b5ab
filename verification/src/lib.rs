//! An emulator core for an 8-bit console: a 6502-family interpreter, the
//! memory bus it executes against, and the register interface of the
//! picture processing unit.
//!
//! The executable types are [`console::Console`], [`cpu::Cpu`], [`bus::Bus`]
//! and [`ppu::Ppu`]. Each has a view, a mathematical value that says what
//! it holds, and every operation is specified as a function on views:
//! [`model`] defines what an instruction does, [`bus`] and [`ppu`] what a
//! read or a write does. [`laws`] proves what follows for every program.

pub mod bus;
pub mod console;
pub mod cpu;
pub mod file;
pub mod laws;
pub mod model;
pub mod opcode;
pub mod ppu;
pub mod status;
