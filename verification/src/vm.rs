//! The word-oriented machine: 16 sixteen-bit registers and a separate,
//! immutable instruction store of packed 16-bit words.
//!
//! The program counter is an index into the instruction store, not a byte
//! address; the driver advances it by one *before* executing, so a jump
//! target overwrites the advance. The driver can emit one [`TraceRecord`]
//! per executed instruction.
//!
//! Every transition is specified by the pure functions [`vm_step_spec`],
//! [`vm_run_spec`] and [`vm_trace_spec`] over the ghost [`VmView`]; the
//! executable functions are proved to implement them exactly.

use vstd::prelude::*;
use vstd::wrapping::u16_specs;
use crate::instr::{decode, spec_decode, Instr, OP_HALT};
use crate::reg::REG_COUNT;
use crate::trace::TraceRecord;
use crate::status::{HaltReason, MachineError, OnUnknownOpcode, RunState};

verus! {

/// Safety bound on executed instructions for a machine made by
/// [`VM::new`]; a guard against runaway programs, not a hardware limit.
pub const DEFAULT_MAX_STEPS: u64 = 1000;

/// Load an immediate: `regs[reg] = operand`.
pub const OP_LDI: u8 = 0x1;

/// Wrapping add-immediate: `regs[reg] += operand`.
pub const OP_ADDI: u8 = 0x2;

/// Wrapping subtract-immediate: `regs[reg] -= operand`.
pub const OP_SUBI: u8 = 0x3;

/// Jump to instruction index `operand` if `regs[reg]` is zero.
pub const OP_JZ: u8 = 0x4;

/// Unconditional jump to instruction index `operand`.
pub const OP_JMP: u8 = 0x5;

/// The word-oriented machine. The instruction store is not owned: the
/// driver functions take it as a parameter and never change it. Fields are
/// public so that, after a run, the caller can query any register — the
/// externally observable result of a run.
pub struct VM {
    /// The 16 general-purpose sixteen-bit registers.
    pub regs: Vec<u16>,
    /// Index of the next instruction word to fetch.
    pub pc: usize,
    /// The driver's run state.
    pub state: RunState,
    /// Instructions executed so far.
    pub steps: u64,
    /// What to do on an unrecognized opcode.
    pub policy: OnUnknownOpcode,
    /// Safety bound: the run loop stops once this many instructions have
    /// been executed.
    pub max_steps: u64,
}

/// Mathematical view of a [`VM`]: the same state over sequences and
/// unbounded integers.
#[verifier::ext_equal]
pub ghost struct VmView {
    pub regs: Seq<u16>,
    pub pc: nat,
    pub state: RunState,
    pub steps: nat,
    pub policy: OnUnknownOpcode,
    pub max_steps: nat,
}

impl View for VM {
    type V = VmView;

    open spec fn view(&self) -> VmView {
        VmView {
            regs: self.regs@,
            pc: self.pc as nat,
            state: self.state,
            steps: self.steps as nat,
            policy: self.policy,
            max_steps: self.max_steps as nat,
        }
    }
}

/// Well-formedness: full register file and the step counter within the
/// safety bound.
pub open spec fn vm_wf_view(v: VmView) -> bool {
    &&& v.regs.len() == REG_COUNT
    &&& v.steps <= v.max_steps
}

/// The opcodes this machine's executor recognizes.
pub open spec fn vm_known_opcode(op: u8) -> bool {
    ||| op == OP_LDI
    ||| op == OP_ADDI
    ||| op == OP_SUBI
    ||| op == OP_JZ
    ||| op == OP_JMP
    ||| op == OP_HALT
}

/// Effect of one decoded instruction on a machine whose program counter
/// has already been advanced past it. Arithmetic wraps modulo 2^16 and
/// never faults; the conditional jump tests the register itself, this
/// machine has no zero flag. An unknown opcode follows the machine's
/// [`OnUnknownOpcode`] policy.
pub open spec fn vm_execute_spec(v: VmView, ins: Instr) -> VmView {
    if ins.opcode == OP_LDI {
        VmView { regs: v.regs.update(ins.reg as int, ins.operand as u16), ..v }
    } else if ins.opcode == OP_ADDI {
        VmView {
            regs: v.regs.update(
                ins.reg as int,
                u16_specs::wrapping_add(v.regs[ins.reg as int], ins.operand as u16),
            ),
            ..v
        }
    } else if ins.opcode == OP_SUBI {
        VmView {
            regs: v.regs.update(
                ins.reg as int,
                u16_specs::wrapping_sub(v.regs[ins.reg as int], ins.operand as u16),
            ),
            ..v
        }
    } else if ins.opcode == OP_JZ {
        if v.regs[ins.reg as int] == 0u16 {
            VmView { pc: ins.operand as nat, ..v }
        } else {
            v
        }
    } else if ins.opcode == OP_JMP {
        VmView { pc: ins.operand as nat, ..v }
    } else if ins.opcode == OP_HALT {
        VmView { state: RunState::Halted(HaltReason::ExplicitHalt), ..v }
    } else {
        match v.policy {
            OnUnknownOpcode::Fault => VmView {
                state: RunState::Faulted { opcode: ins.opcode, pc: v.pc as usize },
                ..v
            },
            OnUnknownOpcode::TreatAsHalt => VmView {
                state: RunState::Halted(HaltReason::ExplicitHalt),
                ..v
            },
        }
    }
}

/// One fetch-decode-execute cycle against an instruction store. A fetch
/// beyond the store is a controlled stop — `Halted(FetchOutOfBounds)` —
/// executing nothing; otherwise the word is decoded, the program counter
/// advanced by one and the step counter by one, and the instruction
/// executed.
pub open spec fn vm_step_spec(v: VmView, prog: Seq<u16>) -> VmView {
    if v.pc >= prog.len() {
        VmView { state: RunState::Halted(HaltReason::FetchOutOfBounds), ..v }
    } else {
        let ins = spec_decode(prog[v.pc as int]);
        let advanced = VmView {
            pc: (v.pc + 1) as nat,
            steps: (v.steps + 1) as nat,
            state: RunState::Running,
            ..v
        };
        vm_execute_spec(advanced, ins)
    }
}

/// The driver loop: step while the machine is active, stopping with
/// `Halted(RunawayExecution)` once the safety bound is reached.
pub open spec fn vm_run_spec(v: VmView, prog: Seq<u16>) -> VmView
    decreases v.max_steps - v.steps, (if v.state.is_active() { 1int } else { 0int }),
{
    if !v.state.is_active() {
        v
    } else if v.steps >= v.max_steps {
        VmView { state: RunState::Halted(HaltReason::RunawayExecution), ..v }
    } else {
        vm_run_spec(vm_step_spec(v, prog), prog)
    }
}

/// The trace record that one executed step emits.
pub open spec fn vm_trace_record_spec(v: VmView, prog: Seq<u16>) -> TraceRecord {
    let ins = spec_decode(prog[v.pc as int]);
    let w = vm_step_spec(v, prog);
    TraceRecord {
        step: (v.steps + 1) as u64,
        pc_before: v.pc as usize,
        ins,
        reg_before: v.regs[ins.reg as int],
        reg_after: w.regs[ins.reg as int],
        pc_after: w.pc as usize,
    }
}

/// The full trace a run emits: one record per executed instruction, in
/// execution order. A stop on an out-of-range fetch or on the safety
/// bound executes nothing and emits nothing.
pub open spec fn vm_trace_spec(v: VmView, prog: Seq<u16>) -> Seq<TraceRecord>
    decreases v.max_steps - v.steps, (if v.state.is_active() { 1int } else { 0int }),
{
    if !v.state.is_active() {
        Seq::empty()
    } else if v.steps >= v.max_steps {
        Seq::empty()
    } else if v.pc >= prog.len() {
        Seq::empty()
    } else {
        seq![vm_trace_record_spec(v, prog)] + vm_trace_spec(vm_step_spec(v, prog), prog)
    }
}

/// Fetch: read the instruction word at the program counter and advance the
/// counter by one; `None`, changing nothing, when the counter is outside
/// the store.
pub fn fetch(vm: &mut VM, prog: &[u16]) -> (word: Option<u16>)
    ensures
        old(vm)@.pc < prog@.len() ==> word == Some(prog@[old(vm)@.pc as int]) && final(vm)@ == (
        VmView { pc: old(vm)@.pc + 1, ..old(vm)@ }),
        old(vm)@.pc >= prog@.len() ==> word == None::<u16> && final(vm)@ == old(vm)@,
{
    if vm.pc >= prog.len() {
        return None;
    }
    let word = prog[vm.pc];
    vm.pc = vm.pc + 1;
    Some(word)
}

/// Execute: apply one decoded instruction to the machine state, as
/// [`vm_execute_spec`] describes.
pub fn execute(vm: &mut VM, ins: Instr)
    requires
        old(vm).wf(),
        (ins.reg as usize) < REG_COUNT,
    ensures
        final(vm).wf(),
        final(vm)@ == vm_execute_spec(old(vm)@, ins),
{
    let r = ins.reg as usize;
    if ins.opcode == OP_LDI {
        vm.regs[r] = ins.operand as u16;
    } else if ins.opcode == OP_ADDI {
        let cur = vm.regs[r];
        vm.regs[r] = cur.wrapping_add(ins.operand as u16);
    } else if ins.opcode == OP_SUBI {
        let cur = vm.regs[r];
        vm.regs[r] = cur.wrapping_sub(ins.operand as u16);
    } else if ins.opcode == OP_JZ {
        if vm.regs[r] == 0 {
            vm.pc = ins.operand as usize;
        }
    } else if ins.opcode == OP_JMP {
        vm.pc = ins.operand as usize;
    } else if ins.opcode == OP_HALT {
        vm.state = RunState::Halted(HaltReason::ExplicitHalt);
    } else {
        match vm.policy {
            OnUnknownOpcode::Fault => {
                vm.state = RunState::Faulted { opcode: ins.opcode, pc: vm.pc };
            },
            OnUnknownOpcode::TreatAsHalt => {
                vm.state = RunState::Halted(HaltReason::ExplicitHalt);
            },
        }
    }
    proof {
        assert(vm@ =~= vm_execute_spec(old(vm)@, ins));
    }
}

impl VM {
    /// The machine's state is well formed.
    pub open spec fn wf(self) -> bool {
        vm_wf_view(self@)
    }

    /// A fresh machine: zeroed registers, program counter zero, ready to
    /// run. The default unknown-opcode policy is
    /// [`OnUnknownOpcode::TreatAsHalt`] and the default safety bound
    /// [`DEFAULT_MAX_STEPS`].
    pub fn new() -> (vm: VM)
        ensures
            vm.wf(),
            vm@ == (VmView {
                regs: vm@.regs,
                pc: 0,
                state: RunState::Ready,
                steps: 0,
                policy: OnUnknownOpcode::TreatAsHalt,
                max_steps: DEFAULT_MAX_STEPS as nat,
            }),
            forall|i: int| 0 <= i < REG_COUNT ==> vm@.regs[i] == 0u16,
    {
        VM::with_policy(OnUnknownOpcode::TreatAsHalt, DEFAULT_MAX_STEPS)
    }

    /// A fresh machine with the unknown-opcode policy and safety bound
    /// chosen by the caller.
    pub fn with_policy(policy: OnUnknownOpcode, max_steps: u64) -> (vm: VM)
        ensures
            vm.wf(),
            vm@ == (VmView {
                regs: vm@.regs,
                pc: 0,
                state: RunState::Ready,
                steps: 0,
                policy: policy,
                max_steps: max_steps as nat,
            }),
            forall|i: int| 0 <= i < REG_COUNT ==> vm@.regs[i] == 0u16,
    {
        let mut regs: Vec<u16> = Vec::new();
        while regs.len() < REG_COUNT
            invariant
                regs@.len() <= REG_COUNT,
                forall|i: int| 0 <= i < regs@.len() ==> regs@[i] == 0u16,
            decreases REG_COUNT - regs@.len(),
        {
            regs.push(0);
        }
        VM { regs, pc: 0, state: RunState::Ready, steps: 0, policy, max_steps }
    }

    /// Checked register query: the register's value for an id below
    /// [`REG_COUNT`], and `InvalidRegisterId` for any other id.
    pub fn reg(&self, id: u8) -> (r: Result<u16, MachineError>)
        requires
            self.wf(),
        ensures
            (id as usize) < REG_COUNT ==> r == Ok::<u16, MachineError>(self@.regs[id as int]),
            (id as usize) >= REG_COUNT ==> r == Err::<u16, MachineError>(
                MachineError::InvalidRegisterId,
            ),
    {
        if (id as usize) < REG_COUNT {
            Ok(self.regs[id as usize])
        } else {
            Err(MachineError::InvalidRegisterId)
        }
    }

    /// Execute exactly one fetch-decode-execute cycle against the given
    /// instruction store, as [`vm_step_spec`] describes.
    pub fn step(&mut self, prog: &[u16])
        requires
            old(self).wf(),
            old(self).state.is_active(),
            old(self).steps < old(self).max_steps,
        ensures
            final(self).wf(),
            final(self)@ == vm_step_spec(old(self)@, prog@),
    {
        let ghost v0 = self@;
        match fetch(self, prog) {
            None => {
                self.state = RunState::Halted(HaltReason::FetchOutOfBounds);
                proof {
                    assert(self@ =~= vm_step_spec(v0, prog@));
                }
            },
            Some(word) => {
                self.steps = self.steps + 1;
                self.state = RunState::Running;
                let ins = decode(word);
                proof {
                    assert(self@ =~= (VmView {
                        pc: (v0.pc + 1) as nat,
                        steps: (v0.steps + 1) as nat,
                        state: RunState::Running,
                        ..v0
                    }));
                }
                execute(self, ins);
                proof {
                    assert(self@ =~= vm_step_spec(v0, prog@));
                }
            },
        }
    }

    /// The driver: run the fetch-decode-execute loop until the machine is
    /// terminal, stopping with `Halted(RunawayExecution)` once `max_steps`
    /// instructions have been executed, as [`vm_run_spec`] describes.
    pub fn run(&mut self, prog: &[u16])
        requires
            old(self).wf(),
        ensures
            final(self).wf(),
            final(self)@ == vm_run_spec(old(self)@, prog@),
            final(self).state.is_terminal(),
    {
        let ghost v0 = self@;
        while self.state.active()
            invariant
                self.wf(),
                vm_run_spec(self@, prog@) == vm_run_spec(v0, prog@),
            decreases self.max_steps - self.steps, (if self.state.is_active() { 1int } else { 0int }),
        {
            if self.steps >= self.max_steps {
                self.state = RunState::Halted(HaltReason::RunawayExecution);
            } else {
                self.step(prog);
            }
        }
    }

    /// The driver with tracing enabled: like [`VM::run`], and additionally
    /// returns one [`TraceRecord`] per executed instruction, in execution
    /// order, as [`vm_trace_spec`] describes.
    pub fn run_traced(&mut self, prog: &[u16]) -> (trace: Vec<TraceRecord>)
        requires
            old(self).wf(),
        ensures
            final(self).wf(),
            final(self)@ == vm_run_spec(old(self)@, prog@),
            final(self).state.is_terminal(),
            trace@ == vm_trace_spec(old(self)@, prog@),
    {
        let ghost v0 = self@;
        let mut trace: Vec<TraceRecord> = Vec::new();
        while self.state.active()
            invariant
                self.wf(),
                vm_run_spec(self@, prog@) == vm_run_spec(v0, prog@),
                trace@ + vm_trace_spec(self@, prog@) == vm_trace_spec(v0, prog@),
            decreases self.max_steps - self.steps, (if self.state.is_active() { 1int } else { 0int }),
        {
            if self.steps >= self.max_steps {
                self.state = RunState::Halted(HaltReason::RunawayExecution);
                proof {
                    assert(trace@ + vm_trace_spec(self@, prog@) =~= vm_trace_spec(v0, prog@));
                }
            } else if self.pc >= prog.len() {
                let ghost vb = self@;
                self.state = RunState::Halted(HaltReason::FetchOutOfBounds);
                proof {
                    assert(self@ =~= vm_step_spec(vb, prog@));
                    assert(trace@ + vm_trace_spec(self@, prog@) =~= vm_trace_spec(v0, prog@));
                }
            } else {
                let ghost vb = self@;
                let pc_before = self.pc;
                let word = prog[self.pc];
                self.pc = self.pc + 1;
                self.steps = self.steps + 1;
                self.state = RunState::Running;
                let ins = decode(word);
                let reg_before = self.regs[ins.reg as usize];
                proof {
                    assert(self@ =~= (VmView {
                        pc: (vb.pc + 1) as nat,
                        steps: (vb.steps + 1) as nat,
                        state: RunState::Running,
                        ..vb
                    }));
                }
                execute(self, ins);
                let reg_after = self.regs[ins.reg as usize];
                let record = TraceRecord {
                    step: self.steps,
                    pc_before,
                    ins,
                    reg_before,
                    reg_after,
                    pc_after: self.pc,
                };
                proof {
                    assert(self@ =~= vm_step_spec(vb, prog@));
                    assert(record == vm_trace_record_spec(vb, prog@));
                    assert(vm_trace_spec(vb, prog@) == seq![record] + vm_trace_spec(
                        self@,
                        prog@,
                    ));
                }
                let ghost trace_before = trace@;
                trace.push(record);
                proof {
                    assert(trace@ =~= trace_before + seq![record]);
                    assert(trace@ + vm_trace_spec(self@, prog@) =~= trace_before + vm_trace_spec(
                        vb,
                        prog@,
                    ));
                }
            }
        }
        proof {
            assert(vm_trace_spec(self@, prog@) =~= Seq::<TraceRecord>::empty());
            assert(trace@ + vm_trace_spec(self@, prog@) =~= trace@);
        }
        trace
    }
}

/// The machine state after `n` fetch-decode-execute cycles against a
/// store.
pub open spec fn vm_iter_spec(v: VmView, prog: Seq<u16>, n: nat) -> VmView
    decreases n,
{
    if n == 0 {
        v
    } else {
        vm_step_spec(vm_iter_spec(v, prog, (n - 1) as nat), prog)
    }
}

/// Law: determinism — the transition and trace functions are functions of
/// the state and the instruction store alone, so two machines in equal
/// states running the same program step and run to equal states and emit
/// identical traces. Together with the exact contracts of [`VM::step`],
/// [`VM::run`] and [`VM::run_traced`], running the same program twice from
/// the same initial state yields identical final registers and an
/// identical trace.
pub proof fn lemma_vm_determinism(a: VmView, b: VmView, prog: Seq<u16>)
    requires
        a == b,
    ensures
        vm_step_spec(a, prog) == vm_step_spec(b, prog),
        vm_run_spec(a, prog) == vm_run_spec(b, prog),
        vm_trace_spec(a, prog) == vm_trace_spec(b, prog),
{
}

/// Law: terminal states are absorbing — a run always ends `Halted` or
/// `Faulted`, and running a machine that has already stopped changes
/// nothing.
pub proof fn lemma_vm_run_terminal(v: VmView, prog: Seq<u16>)
    ensures
        !vm_run_spec(v, prog).state.is_active(),
        vm_run_spec(vm_run_spec(v, prog), prog) == vm_run_spec(v, prog),
    decreases v.max_steps - v.steps, (if v.state.is_active() { 1int } else { 0int }),
{
    if !v.state.is_active() {
    } else if v.steps >= v.max_steps {
    } else {
        lemma_vm_run_terminal(vm_step_spec(v, prog), prog);
    }
}

/// Iterating `n + 1` cycles from a state is iterating `n` cycles from the
/// state one step later.
pub proof fn lemma_vm_iter_shift(v: VmView, prog: Seq<u16>, n: nat)
    ensures
        vm_iter_spec(v, prog, n + 1) == vm_iter_spec(vm_step_spec(v, prog), prog, n),
    decreases n,
{
    assert(vm_iter_spec(v, prog, n + 1) == vm_step_spec(vm_iter_spec(v, prog, n), prog));
    if n == 0 {
        assert(vm_iter_spec(v, prog, 0) == v);
        assert(vm_iter_spec(vm_step_spec(v, prog), prog, 0) == vm_step_spec(v, prog));
    } else {
        lemma_vm_iter_shift(v, prog, (n - 1) as nat);
        assert(vm_iter_spec(vm_step_spec(v, prog), prog, n) == vm_step_spec(
            vm_iter_spec(vm_step_spec(v, prog), prog, (n - 1) as nat),
            prog,
        ));
    }
}

/// An executed step — any step that does not stop on an out-of-range
/// fetch — increments the step counter by exactly one; an out-of-range
/// fetch leaves it unchanged. Either way the safety bound is untouched.
pub proof fn lemma_vm_step_count(v: VmView, prog: Seq<u16>)
    ensures
        vm_step_spec(v, prog).max_steps == v.max_steps,
        vm_step_spec(v, prog).state == RunState::Halted(HaltReason::FetchOutOfBounds)
            || vm_step_spec(v, prog).steps == v.steps + 1,
        vm_step_spec(v, prog).state != RunState::Halted(HaltReason::FetchOutOfBounds)
            || vm_step_spec(v, prog).steps == v.steps,
{
}

/// Law: halting guarantee — if the instruction stream reaches a stopping
/// instruction after `n` cycles, all earlier states being active, and `n`
/// is within the remaining safety budget, then the run performs exactly
/// those `n` cycles; and unless the stop was an out-of-range fetch, the
/// final step counter shows exactly `n` more executed instructions.
pub proof fn lemma_vm_halting_guarantee(v: VmView, prog: Seq<u16>, n: nat)
    requires
        forall|i: nat| i < n ==> (#[trigger] vm_iter_spec(v, prog, i)).state.is_active(),
        !vm_iter_spec(v, prog, n).state.is_active(),
        v.steps + n <= v.max_steps,
    ensures
        vm_run_spec(v, prog) == vm_iter_spec(v, prog, n),
        vm_iter_spec(v, prog, n).state != RunState::Halted(HaltReason::FetchOutOfBounds)
            ==> vm_iter_spec(v, prog, n).steps == v.steps + n,
    decreases n,
{
    if n == 0 {
    } else {
        let w = vm_step_spec(v, prog);
        assert(vm_iter_spec(v, prog, 0) == v);
        assert(v.state.is_active());
        assert forall|i: nat| i < (n - 1) as nat implies (#[trigger] vm_iter_spec(
            w,
            prog,
            i,
        )).state.is_active() by {
            lemma_vm_iter_shift(v, prog, i);
            assert(vm_iter_spec(v, prog, i + 1).state.is_active());
        }
        lemma_vm_iter_shift(v, prog, (n - 1) as nat);
        assert(vm_iter_spec(w, prog, (n - 1) as nat) == vm_iter_spec(v, prog, n));
        lemma_vm_step_count(v, prog);
        lemma_vm_halting_guarantee(w, prog, (n - 1) as nat);
        if n == 1 {
            assert(vm_iter_spec(v, prog, 1) == w);
        } else {
            assert(vm_iter_spec(w, prog, 0) == w && 0 < (n - 1) as nat);
            assert(w.state.is_active());
        }
        if vm_iter_spec(v, prog, n).state != RunState::Halted(HaltReason::FetchOutOfBounds) {
            assert(w.state != RunState::Halted(HaltReason::FetchOutOfBounds));
            assert(w.steps == v.steps + 1);
        }
    }
}

/// Law: unknown-opcode policy — a step that fetches an instruction whose
/// opcode the executor does not recognize ends the machine: terminally
/// `Faulted`, recording the opcode and the advanced program counter, under
/// [`OnUnknownOpcode::Fault`]; terminally `Halted` under
/// [`OnUnknownOpcode::TreatAsHalt`]. No register changes either way.
pub proof fn lemma_vm_unknown_opcode_policy(v: VmView, prog: Seq<u16>)
    requires
        v.pc < prog.len(),
        !vm_known_opcode(spec_decode(prog[v.pc as int]).opcode),
    ensures
        v.policy == OnUnknownOpcode::Fault ==> vm_step_spec(v, prog).state == (RunState::Faulted {
            opcode: spec_decode(prog[v.pc as int]).opcode,
            pc: (v.pc + 1) as usize,
        }),
        v.policy == OnUnknownOpcode::TreatAsHalt ==> vm_step_spec(v, prog).state
            == RunState::Halted(HaltReason::ExplicitHalt),
        vm_step_spec(v, prog).state.is_terminal(),
        vm_step_spec(v, prog).regs == v.regs,
{
}

/// Law: wrapping arithmetic — a step that fetches an ADDI or SUBI never
/// faults: the machine stays active, and the target register afterwards
/// holds the sum or difference modulo 2^16.
pub proof fn lemma_vm_wrapping_arith(v: VmView, prog: Seq<u16>)
    requires
        vm_wf_view(v),
        v.pc < prog.len(),
        ({
            let op = spec_decode(prog[v.pc as int]).opcode;
            op == OP_ADDI || op == OP_SUBI
        }),
    ensures
        vm_step_spec(v, prog).state == RunState::Running,
        ({
            let ins = spec_decode(prog[v.pc as int]);
            let a = v.regs[ins.reg as int];
            let b = ins.operand as u16;
            vm_step_spec(v, prog).regs[ins.reg as int] == (if ins.opcode == OP_ADDI {
                ((a + b) % 0x10000) as u16
            } else {
                ((a - b + 0x10000) % 0x10000) as u16
            })
        }),
{
    let ins = spec_decode(prog[v.pc as int]);
    crate::instr::lemma_decode_fields_in_range(prog[v.pc as int]);
    let a = v.regs[ins.reg as int];
    let b = ins.operand as u16;
    if ins.opcode == OP_ADDI {
        assert(u16_specs::wrapping_add(a, b) == ((a + b) % 0x10000) as u16);
    } else {
        assert(u16_specs::wrapping_sub(a, b) == ((a - b + 0x10000) % 0x10000) as u16);
    }
}

} // verus!
