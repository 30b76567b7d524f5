//! The byte-oriented machine's register file: a fixed count of eight-bit
//! registers, indexable by a register id.
//!
//! Register ids that reach the executor come from four-bit instruction
//! fields and are therefore always below the register count. The public
//! accessors instead take an arbitrary id and reject an out-of-range one
//! with `InvalidRegisterId` rather than masking it; the executor masks a
//! full-width operand down to four bits itself where an opcode reads a
//! second register.

use vstd::prelude::*;
use crate::status::MachineError;

verus! {

/// How many registers each machine variant has.
pub const REG_COUNT: usize = 16;

/// A fixed-size file of [`REG_COUNT`] eight-bit registers, all zero at
/// construction.
pub struct RegisterFile {
    regs: Vec<u8>,
}

impl View for RegisterFile {
    type V = Seq<u8>;

    closed spec fn view(&self) -> Seq<u8> {
        self.regs@
    }
}

impl RegisterFile {
    /// Always [`REG_COUNT`] registers.
    pub open spec fn wf(self) -> bool {
        self@.len() == REG_COUNT
    }

    /// A register file with every register zero.
    pub fn new() -> (rf: RegisterFile)
        ensures
            rf.wf(),
            forall|i: int| 0 <= i < REG_COUNT ==> rf@[i] == 0u8,
    {
        let mut regs: Vec<u8> = Vec::new();
        while regs.len() < REG_COUNT
            invariant
                regs@.len() <= REG_COUNT,
                forall|i: int| 0 <= i < regs@.len() ==> regs@[i] == 0u8,
            decreases REG_COUNT - regs@.len(),
        {
            regs.push(0);
        }
        RegisterFile { regs }
    }

    /// Checked read: the register's value for an id below [`REG_COUNT`],
    /// and `InvalidRegisterId` for any other id.
    pub fn get(&self, id: u8) -> (r: Result<u8, MachineError>)
        requires
            self.wf(),
        ensures
            (id as usize) < REG_COUNT ==> r == Ok::<u8, MachineError>(self@[id as int]),
            (id as usize) >= REG_COUNT ==> r == Err::<u8, MachineError>(
                MachineError::InvalidRegisterId,
            ),
    {
        if (id as usize) < REG_COUNT {
            Ok(self.regs[id as usize])
        } else {
            Err(MachineError::InvalidRegisterId)
        }
    }

    /// Checked write, with the same id policy as [`RegisterFile::get`].
    pub fn set(&mut self, id: u8, value: u8) -> (r: Result<(), MachineError>)
        requires
            old(self).wf(),
        ensures
            final(self).wf(),
            (id as usize) < REG_COUNT ==> r == Ok::<(), MachineError>(()) && final(self)@ == old(
                self,
            )@.update(id as int, value),
            (id as usize) >= REG_COUNT ==> r == Err::<(), MachineError>(
                MachineError::InvalidRegisterId,
            ) && final(self)@ == old(self)@,
    {
        if (id as usize) < REG_COUNT {
            self.regs[id as usize] = value;
            Ok(())
        } else {
            Err(MachineError::InvalidRegisterId)
        }
    }

    /// Unchecked read for ids already known to be in range, such as a
    /// decoded four-bit field.
    pub(crate) fn get_at(&self, id: u8) -> (v: u8)
        requires
            self.wf(),
            (id as usize) < REG_COUNT,
        ensures
            v == self@[id as int],
    {
        self.regs[id as usize]
    }

    /// Unchecked write for ids already known to be in range.
    pub(crate) fn set_at(&mut self, id: u8, value: u8)
        requires
            old(self).wf(),
            (id as usize) < REG_COUNT,
        ensures
            final(self).wf(),
            final(self)@ == old(self)@.update(id as int, value),
    {
        self.regs[id as usize] = value;
    }
}

} // verus!
