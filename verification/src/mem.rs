//! A flat, fixed-capacity, byte-addressable store with bounds-checked
//! access. The byte-oriented machine uses one such store both for its
//! instruction stream and for its data, so a store to memory is visible to
//! every later fetch.

use vstd::prelude::*;
use crate::status::MachineError;

verus! {

/// A fixed-capacity byte store. The capacity is chosen at construction and
/// never changes; no access outside `[0, capacity)` is observable.
pub struct Memory {
    cells: Vec<u8>,
}

impl View for Memory {
    type V = Seq<u8>;

    closed spec fn view(&self) -> Seq<u8> {
        self.cells@
    }
}

impl Memory {
    /// A zero-filled store of the given capacity.
    pub fn new(capacity: usize) -> (m: Memory)
        ensures
            m@.len() == capacity,
            forall|i: int| 0 <= i < capacity ==> m@[i] == 0u8,
    {
        let mut cells: Vec<u8> = Vec::new();
        while cells.len() < capacity
            invariant
                cells@.len() <= capacity,
                forall|i: int| 0 <= i < cells@.len() ==> cells@[i] == 0u8,
            decreases capacity - cells@.len(),
        {
            cells.push(0);
        }
        Memory { cells }
    }

    /// The number of addressable cells.
    pub fn capacity(&self) -> (n: usize)
        ensures
            n == self@.len(),
    {
        self.cells.len()
    }

    /// Bounds-checked read: the cell's value for an address below the
    /// capacity, and `OutOfRangeAddress` — never a silent value — for any
    /// address at or beyond it.
    pub fn read(&self, addr: usize) -> (r: Result<u8, MachineError>)
        ensures
            addr < self@.len() ==> r == Ok::<u8, MachineError>(self@[addr as int]),
            addr >= self@.len() ==> r == Err::<u8, MachineError>(MachineError::OutOfRangeAddress),
    {
        if addr < self.cells.len() {
            Ok(self.cells[addr])
        } else {
            Err(MachineError::OutOfRangeAddress)
        }
    }

    /// Bounds-checked write: updates exactly one cell for an address below
    /// the capacity, and fails with `OutOfRangeAddress`, leaving the store
    /// unchanged, for any address at or beyond it.
    pub fn write(&mut self, addr: usize, value: u8) -> (r: Result<(), MachineError>)
        ensures
            addr < old(self)@.len() ==> r == Ok::<(), MachineError>(()) && final(self)@ == old(
                self,
            )@.update(addr as int, value),
            addr >= old(self)@.len() ==> r == Err::<(), MachineError>(
                MachineError::OutOfRangeAddress,
            ) && final(self)@ == old(self)@,
    {
        if addr < self.cells.len() {
            self.cells[addr] = value;
            Ok(())
        } else {
            Err(MachineError::OutOfRangeAddress)
        }
    }

    /// Unchecked read for callers that have already established the bound.
    pub(crate) fn read_at(&self, addr: usize) -> (v: u8)
        requires
            addr < self@.len(),
        ensures
            v == self@[addr as int],
    {
        self.cells[addr]
    }

    /// Unchecked write for callers that have already established the bound.
    pub(crate) fn write_at(&mut self, addr: usize, value: u8)
        requires
            addr < old(self)@.len(),
        ensures
            final(self)@ == old(self)@.update(addr as int, value),
    {
        self.cells[addr] = value;
    }
}

} // verus!
