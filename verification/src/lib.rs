//! A small instruction-set simulator: a register machine that fetches encoded
//! instruction words from an addressable store, decodes their fields, and
//! executes them one at a time until a halt condition is reached.
//!
//! Two machine variants share one decoder and one set of control types:
//! - [`cpu::CPU`]: a byte-oriented machine with 16 eight-bit registers and a
//!   unified 256-byte memory; instructions are byte pairs fetched from the
//!   same memory they may overwrite.
//! - [`vm::VM`]: a word-oriented machine with 16 sixteen-bit registers and a
//!   separate, immutable instruction store of packed 16-bit words.
//!
//! Every state transition is specified by a pure function over a ghost view
//! of the machine, and the executable step and run loops are proved to
//! implement those functions exactly.

pub mod cpu;
pub mod instr;
pub mod loader;
pub mod mem;
pub mod reg;
pub mod status;
pub mod trace;
pub mod vm;
