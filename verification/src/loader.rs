//! The loader: copies a program into a store at a base offset, rejecting
//! one that does not fit.
//!
//! The byte-oriented machine loads through [`crate::cpu::CPU::load_program`],
//! which writes into its unified memory; the word-oriented machine's
//! instruction store is a plain vector of words that the caller owns, and
//! [`load_words`] fills it. Both say the same thing over [`load_spec`].

use vstd::prelude::*;
use crate::status::MachineError;

verus! {

/// A store with a program copied in at a base offset, all other cells
/// unchanged.
pub open spec fn load_spec<T>(store: Seq<T>, prog: Seq<T>, base: nat) -> Seq<T> {
    Seq::new(
        store.len(),
        |i: int|
            if base <= i < base + prog.len() {
                prog[i - base]
            } else {
                store[i]
            },
    )
}

/// Copy a program of instruction words into a word store starting at
/// `base`, leaving every other cell unchanged. Fails with
/// `ProgramTooLarge`, changing nothing, when the program does not fit
/// between `base` and the end of the store. The store's length never
/// changes. Call it only before a driver first steps against the store;
/// while a driver runs, the store is borrowed and cannot be loaded into.
pub fn load_words(store: &mut Vec<u16>, program: &Vec<u16>, base: usize) -> (r: Result<
    (),
    MachineError,
>)
    ensures
        base + program@.len() <= old(store)@.len() ==> r == Ok::<(), MachineError>(())
            && final(store)@ == load_spec(old(store)@, program@, base as nat),
        base + program@.len() > old(store)@.len() ==> r == Err::<(), MachineError>(
            MachineError::ProgramTooLarge,
        ) && final(store)@ == old(store)@,
{
    if base > store.len() || program.len() > store.len() - base {
        return Err(MachineError::ProgramTooLarge);
    }
    let ghost s0 = store@;
    let mut i: usize = 0;
    while i < program.len()
        invariant
            store@.len() == s0.len(),
            base + program@.len() <= s0.len(),
            base + program@.len() <= usize::MAX,
            i <= program@.len(),
            forall|j: int|
                0 <= j < s0.len() ==> store@[j] == (if base <= j < base + i {
                    program@[j - base]
                } else {
                    s0[j]
                }),
        decreases program@.len() - i,
    {
        store[base + i] = program[i];
        i = i + 1;
    }
    proof {
        assert(store@ =~= load_spec(s0, program@, base as nat));
    }
    Ok(())
}

} // verus!
