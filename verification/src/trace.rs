//! Trace records: the driver's optional per-step output.
//!
//! One record is emitted per executed instruction when tracing is enabled.
//! Records are purely observational — the executors never read them back.
//! Both machine variants use the same record shape; the byte-oriented
//! machine widens its eight-bit register values to sixteen bits.

use vstd::prelude::*;
use crate::instr::Instr;

verus! {

/// One observed step: the step's index, the program counter before the
/// fetch and after the execute, the decoded instruction, and the touched
/// register's value before and after.
#[derive(Clone, Copy, PartialEq, Eq, Structural, Debug)]
pub struct TraceRecord {
    /// One-based index of the executed instruction.
    pub step: u64,
    /// Program counter the instruction was fetched from.
    pub pc_before: usize,
    /// The decoded instruction.
    pub ins: Instr,
    /// Value of the instruction's register before the execute.
    pub reg_before: u16,
    /// Value of the instruction's register after the execute.
    pub reg_after: u16,
    /// Program counter after the execute.
    pub pc_after: usize,
}

} // verus!
