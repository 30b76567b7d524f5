//! Control types shared by both machine variants: the run-state machine,
//! halt reasons, the unknown-opcode policy, and the error kinds reported to
//! callers.

use vstd::prelude::*;

verus! {

/// What an executor does when it meets an opcode outside its instruction
/// set. The choice is declared at machine construction time.
#[derive(Clone, Copy, PartialEq, Eq, Structural, Debug)]
pub enum OnUnknownOpcode {
    /// Enter the terminal `Faulted` state, recording the offending opcode
    /// and program counter.
    Fault,
    /// Fold the unknown opcode silently into a normal halt.
    TreatAsHalt,
}

/// Why a machine entered the `Halted` state.
#[derive(Clone, Copy, PartialEq, Eq, Structural, Debug)]
pub enum HaltReason {
    /// A halt instruction was executed (or an unknown opcode was folded
    /// into a halt under [`OnUnknownOpcode::TreatAsHalt`]).
    ExplicitHalt,
    /// The program counter left the instruction store; the machine stops in
    /// a controlled way instead of crashing.
    FetchOutOfBounds,
    /// The configured safety step bound was exceeded; a guard against
    /// runaway execution, not a property of the simulated hardware.
    RunawayExecution,
}

/// The driver's state machine. `Ready` on construction, `Running` while
/// stepping; `Halted` and `Faulted` are terminal — once reached, no further
/// fetch, decode or execute occurs, and a caller must construct a fresh
/// machine to run again.
#[derive(Clone, Copy, PartialEq, Eq, Structural, Debug)]
pub enum RunState {
    /// Constructed and loadable; no instruction has been executed yet.
    Ready,
    /// At least one instruction has been executed and none has stopped the
    /// machine.
    Running,
    /// Terminal controlled stop, with the reason recorded.
    Halted(HaltReason),
    /// Terminal stop on an unknown opcode under [`OnUnknownOpcode::Fault`].
    /// Records the offending opcode and the program counter at the time the
    /// fault was raised (already advanced past the instruction).
    Faulted { opcode: u8, pc: usize },
}

impl RunState {
    /// A machine in this state may still fetch and execute.
    pub open spec fn is_active(self) -> bool {
        self is Ready || self is Running
    }

    /// Terminal: no further stepping is permitted.
    pub open spec fn is_terminal(self) -> bool {
        !self.is_active()
    }

    /// Runtime test of [`RunState::is_active`].
    pub fn active(&self) -> (b: bool)
        ensures
            b == self.is_active(),
    {
        match self {
            RunState::Ready => true,
            RunState::Running => true,
            RunState::Halted(_) => false,
            RunState::Faulted { .. } => false,
        }
    }
}

/// Errors reported to the caller by the bounds-checked components.
#[derive(Clone, Copy, PartialEq, Eq, Structural, Debug)]
pub enum MachineError {
    /// A memory access named an address at or beyond the store's capacity.
    OutOfRangeAddress,
    /// A register access named an id at or beyond the register count.
    InvalidRegisterId,
    /// A program does not fit between its base offset and the end of the
    /// store it is being loaded into.
    ProgramTooLarge,
}

} // verus!
