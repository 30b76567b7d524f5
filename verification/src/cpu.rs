//! The byte-oriented machine: 16 eight-bit registers and a unified 256-byte
//! memory holding both instructions and data.
//!
//! Each instruction is a byte pair: the first byte carries the opcode in
//! its high nibble and a register id in its low nibble, the second byte is
//! the operand. The fetch-decode-execute driver advances the program
//! counter by two *before* executing, so a jump target overwrites the
//! advance rather than adding to it. Because instructions and data share
//! one store, a store instruction may overwrite not-yet-executed
//! instruction bytes, and the change is visible to the next fetch.
//!
//! Every transition is specified by the pure functions [`cpu_step_spec`]
//! and [`cpu_run_spec`] over the ghost [`CpuView`]; the executable methods
//! are proved to implement them exactly.

use vstd::prelude::*;
use vstd::wrapping::u8_specs;
use crate::instr::{decode, spec_decode, spec_word_of_bytes, word_of_bytes, Instr, OP_HALT};
use crate::loader::load_spec;
use crate::mem::Memory;
use crate::reg::{RegisterFile, REG_COUNT};
use crate::status::{HaltReason, MachineError, OnUnknownOpcode, RunState};
use crate::trace::TraceRecord;

verus! {

/// Capacity of the unified memory, in bytes.
pub const MEM_SIZE: usize = 256;

/// Safety bound on executed instructions for a machine made by
/// [`CPU::new`]; a guard against runaway programs, not a hardware limit.
pub const DEFAULT_MAX_STEPS: u64 = 10000;

/// Load a register from memory: `regs[reg] = mem[operand]`.
pub const OP_LOAD: u8 = 0x1;

/// Load an immediate: `regs[reg] = operand`.
pub const OP_LOADIMM: u8 = 0x2;

/// Store a register to memory: `mem[operand] = regs[reg]`.
pub const OP_STORE: u8 = 0x3;

/// Wrapping register-register add; updates the zero flag.
pub const OP_ADD: u8 = 0x4;

/// Wrapping register-register subtract; updates the zero flag.
pub const OP_SUB: u8 = 0x5;

/// Unconditional jump: `pc = operand`.
pub const OP_JMP: u8 = 0x6;

/// Jump if the zero flag is set.
pub const OP_JZ: u8 = 0x7;

/// The byte-oriented machine. Fields are public so that, after a run, the
/// caller can query any memory cell or register — the only externally
/// observable result of a run.
pub struct CPU {
    /// The 16 general-purpose eight-bit registers.
    pub regs: RegisterFile,
    /// The unified 256-byte instruction and data store.
    pub mem: Memory,
    /// Index of the next instruction byte to fetch.
    pub pc: usize,
    /// Condition flag: whether the last arithmetic result was zero.
    pub zero: bool,
    /// The driver's run state.
    pub state: RunState,
    /// Instructions executed so far.
    pub steps: u64,
    /// What to do on an unrecognized opcode.
    pub policy: OnUnknownOpcode,
    /// Safety bound: the run loop stops once this many instructions have
    /// been executed.
    pub max_steps: u64,
}

/// Mathematical view of a [`CPU`]: the same state over sequences and
/// unbounded integers.
#[verifier::ext_equal]
pub ghost struct CpuView {
    pub regs: Seq<u8>,
    pub mem: Seq<u8>,
    pub pc: nat,
    pub zero: bool,
    pub state: RunState,
    pub steps: nat,
    pub policy: OnUnknownOpcode,
    pub max_steps: nat,
}

impl View for CPU {
    type V = CpuView;

    open spec fn view(&self) -> CpuView {
        CpuView {
            regs: self.regs@,
            mem: self.mem@,
            pc: self.pc as nat,
            zero: self.zero,
            state: self.state,
            steps: self.steps as nat,
            policy: self.policy,
            max_steps: self.max_steps as nat,
        }
    }
}

/// Well-formedness: full register file and memory, program counter within
/// `[0, capacity]`, and the step counter within the safety bound.
pub open spec fn cpu_wf_view(v: CpuView) -> bool {
    &&& v.regs.len() == REG_COUNT
    &&& v.mem.len() == MEM_SIZE
    &&& v.pc <= MEM_SIZE
    &&& v.steps <= v.max_steps
}

/// The opcodes this machine's executor recognizes.
pub open spec fn cpu_known_opcode(op: u8) -> bool {
    ||| op == OP_LOAD
    ||| op == OP_LOADIMM
    ||| op == OP_STORE
    ||| op == OP_ADD
    ||| op == OP_SUB
    ||| op == OP_JMP
    ||| op == OP_JZ
    ||| op == OP_HALT
}

/// Effect of one decoded instruction on a machine whose program counter
/// has already been advanced past it. Arithmetic wraps modulo 256 and
/// never faults; the source register of an arithmetic opcode is the
/// operand masked to four bits. An unknown opcode follows the machine's
/// [`OnUnknownOpcode`] policy.
pub open spec fn cpu_execute_spec(v: CpuView, ins: Instr) -> CpuView {
    if ins.opcode == OP_LOAD {
        CpuView { regs: v.regs.update(ins.reg as int, v.mem[ins.operand as int]), ..v }
    } else if ins.opcode == OP_LOADIMM {
        CpuView { regs: v.regs.update(ins.reg as int, ins.operand), ..v }
    } else if ins.opcode == OP_STORE {
        CpuView { mem: v.mem.update(ins.operand as int, v.regs[ins.reg as int]), ..v }
    } else if ins.opcode == OP_ADD {
        let sum = u8_specs::wrapping_add(
            v.regs[ins.reg as int],
            v.regs[(ins.operand & 0xF) as int],
        );
        CpuView { regs: v.regs.update(ins.reg as int, sum), zero: sum == 0u8, ..v }
    } else if ins.opcode == OP_SUB {
        let diff = u8_specs::wrapping_sub(
            v.regs[ins.reg as int],
            v.regs[(ins.operand & 0xF) as int],
        );
        CpuView { regs: v.regs.update(ins.reg as int, diff), zero: diff == 0u8, ..v }
    } else if ins.opcode == OP_JMP {
        CpuView { pc: ins.operand as nat, ..v }
    } else if ins.opcode == OP_JZ {
        if v.zero {
            CpuView { pc: ins.operand as nat, ..v }
        } else {
            v
        }
    } else if ins.opcode == OP_HALT {
        CpuView { state: RunState::Halted(HaltReason::ExplicitHalt), ..v }
    } else {
        match v.policy {
            OnUnknownOpcode::Fault => CpuView {
                state: RunState::Faulted { opcode: ins.opcode, pc: v.pc as usize },
                ..v
            },
            OnUnknownOpcode::TreatAsHalt => CpuView {
                state: RunState::Halted(HaltReason::ExplicitHalt),
                ..v
            },
        }
    }
}

/// One fetch-decode-execute cycle. A fetch that would leave the store is a
/// controlled stop — `Halted(FetchOutOfBounds)` — executing nothing;
/// otherwise the instruction's byte pair is decoded, the program counter
/// advanced by two and the step counter by one, and the instruction
/// executed.
pub open spec fn cpu_step_spec(v: CpuView) -> CpuView {
    if v.pc + 1 >= v.mem.len() {
        CpuView { state: RunState::Halted(HaltReason::FetchOutOfBounds), ..v }
    } else {
        let ins = spec_decode(spec_word_of_bytes(v.mem[v.pc as int], v.mem[v.pc as int + 1]));
        let advanced = CpuView {
            pc: (v.pc + 2) as nat,
            steps: (v.steps + 1) as nat,
            state: RunState::Running,
            ..v
        };
        cpu_execute_spec(advanced, ins)
    }
}

/// The driver loop: step while the machine is active, stopping with
/// `Halted(RunawayExecution)` once the safety bound is reached.
pub open spec fn cpu_run_spec(v: CpuView) -> CpuView
    decreases v.max_steps - v.steps, (if v.state.is_active() { 1int } else { 0int }),
{
    if !v.state.is_active() {
        v
    } else if v.steps >= v.max_steps {
        CpuView { state: RunState::Halted(HaltReason::RunawayExecution), ..v }
    } else {
        cpu_run_spec(cpu_step_spec(v))
    }
}

/// The trace record that one executed step emits. The eight-bit register
/// values are widened to the record's sixteen-bit fields.
pub open spec fn cpu_trace_record_spec(v: CpuView) -> TraceRecord {
    let ins = spec_decode(spec_word_of_bytes(v.mem[v.pc as int], v.mem[v.pc as int + 1]));
    let w = cpu_step_spec(v);
    TraceRecord {
        step: (v.steps + 1) as u64,
        pc_before: v.pc as usize,
        ins,
        reg_before: v.regs[ins.reg as int] as u16,
        reg_after: w.regs[ins.reg as int] as u16,
        pc_after: w.pc as usize,
    }
}

/// The full trace a run emits: one record per executed instruction, in
/// execution order. A stop on an out-of-range fetch or on the safety
/// bound executes nothing and emits nothing.
pub open spec fn cpu_trace_spec(v: CpuView) -> Seq<TraceRecord>
    decreases v.max_steps - v.steps, (if v.state.is_active() { 1int } else { 0int }),
{
    if !v.state.is_active() {
        Seq::empty()
    } else if v.steps >= v.max_steps {
        Seq::empty()
    } else if v.pc + 1 >= v.mem.len() {
        Seq::empty()
    } else {
        seq![cpu_trace_record_spec(v)] + cpu_trace_spec(cpu_step_spec(v))
    }
}

impl CPU {
    /// The machine's state is well formed.
    pub open spec fn wf(self) -> bool {
        cpu_wf_view(self@)
    }

    /// A fresh machine: zeroed registers and memory, program counter zero,
    /// ready to load. The default unknown-opcode policy is
    /// [`OnUnknownOpcode::Fault`] and the default safety bound
    /// [`DEFAULT_MAX_STEPS`].
    pub fn new() -> (cpu: CPU)
        ensures
            cpu.wf(),
            cpu@ == (CpuView {
                regs: cpu@.regs,
                mem: cpu@.mem,
                pc: 0,
                zero: false,
                state: RunState::Ready,
                steps: 0,
                policy: OnUnknownOpcode::Fault,
                max_steps: DEFAULT_MAX_STEPS as nat,
            }),
            forall|i: int| 0 <= i < REG_COUNT ==> cpu@.regs[i] == 0u8,
            forall|i: int| 0 <= i < MEM_SIZE ==> cpu@.mem[i] == 0u8,
    {
        CPU::with_policy(OnUnknownOpcode::Fault, DEFAULT_MAX_STEPS)
    }

    /// A fresh machine with the unknown-opcode policy and safety bound
    /// chosen by the caller.
    pub fn with_policy(policy: OnUnknownOpcode, max_steps: u64) -> (cpu: CPU)
        ensures
            cpu.wf(),
            cpu@ == (CpuView {
                regs: cpu@.regs,
                mem: cpu@.mem,
                pc: 0,
                zero: false,
                state: RunState::Ready,
                steps: 0,
                policy: policy,
                max_steps: max_steps as nat,
            }),
            forall|i: int| 0 <= i < REG_COUNT ==> cpu@.regs[i] == 0u8,
            forall|i: int| 0 <= i < MEM_SIZE ==> cpu@.mem[i] == 0u8,
    {
        CPU {
            regs: RegisterFile::new(),
            mem: Memory::new(MEM_SIZE),
            pc: 0,
            zero: false,
            state: RunState::Ready,
            steps: 0,
            policy,
            max_steps,
        }
    }

    /// Loader: copy a program into memory starting at `base`, leaving every
    /// other cell unchanged. Fails with `ProgramTooLarge`, changing
    /// nothing, when the program does not fit between `base` and the end of
    /// memory. Callable only before the driver's first step.
    pub fn load_program(&mut self, program: &Vec<u8>, base: usize) -> (r: Result<
        (),
        MachineError,
    >)
        requires
            old(self).wf(),
            old(self).state is Ready,
        ensures
            final(self).wf(),
            base + program@.len() <= MEM_SIZE ==> r == Ok::<(), MachineError>(()) && final(self)@
                == (CpuView { mem: load_spec(old(self)@.mem, program@, base as nat), ..old(self)@ }),
            base + program@.len() > MEM_SIZE ==> r == Err::<(), MachineError>(
                MachineError::ProgramTooLarge,
            ) && final(self)@ == old(self)@,
    {
        if base > MEM_SIZE || program.len() > MEM_SIZE - base {
            return Err(MachineError::ProgramTooLarge);
        }
        let ghost v0 = self@;
        let mut i: usize = 0;
        while i < program.len()
            invariant
                self@ == (CpuView { mem: self@.mem, ..v0 }),
                self@.mem.len() == MEM_SIZE,
                base + program@.len() <= MEM_SIZE,
                i <= program@.len(),
                forall|j: int|
                    0 <= j < MEM_SIZE ==> self@.mem[j] == (if base <= j < base + i {
                        program@[j - base]
                    } else {
                        v0.mem[j]
                    }),
            decreases program@.len() - i,
        {
            self.mem.write_at(base + i, program[i]);
            i = i + 1;
        }
        proof {
            assert(self@.mem =~= load_spec(v0.mem, program@, base as nat));
            assert(self@ =~= (CpuView { mem: load_spec(v0.mem, program@, base as nat), ..v0 }));
        }
        Ok(())
    }

    /// Execute exactly one fetch-decode-execute cycle, as
    /// [`cpu_step_spec`] describes.
    pub fn step(&mut self)
        requires
            old(self).wf(),
            old(self).state.is_active(),
            old(self).steps < old(self).max_steps,
        ensures
            final(self).wf(),
            final(self)@ == cpu_step_spec(old(self)@),
    {
        let ghost v0 = self@;
        if self.pc + 1 >= MEM_SIZE {
            self.state = RunState::Halted(HaltReason::FetchOutOfBounds);
            proof {
                assert(self@ =~= cpu_step_spec(v0));
            }
            return;
        }
        let b0 = self.mem.read_at(self.pc);
        let b1 = self.mem.read_at(self.pc + 1);
        let ins = decode(word_of_bytes(b0, b1));
        self.pc = self.pc + 2;
        self.steps = self.steps + 1;
        self.state = RunState::Running;
        let ghost adv = self@;
        if ins.opcode == OP_LOAD {
            let value = self.mem.read_at(ins.operand as usize);
            self.regs.set_at(ins.reg, value);
        } else if ins.opcode == OP_LOADIMM {
            self.regs.set_at(ins.reg, ins.operand);
        } else if ins.opcode == OP_STORE {
            let value = self.regs.get_at(ins.reg);
            self.mem.write_at(ins.operand as usize, value);
        } else if ins.opcode == OP_ADD {
            let src = ins.operand & 0xF;
            proof {
                let b = ins.operand;
                assert((b & 0xF) < 16) by (bit_vector);
            }
            let sum = self.regs.get_at(ins.reg).wrapping_add(self.regs.get_at(src));
            self.regs.set_at(ins.reg, sum);
            self.zero = sum == 0;
        } else if ins.opcode == OP_SUB {
            let src = ins.operand & 0xF;
            proof {
                let b = ins.operand;
                assert((b & 0xF) < 16) by (bit_vector);
            }
            let diff = self.regs.get_at(ins.reg).wrapping_sub(self.regs.get_at(src));
            self.regs.set_at(ins.reg, diff);
            self.zero = diff == 0;
        } else if ins.opcode == OP_JMP {
            self.pc = ins.operand as usize;
        } else if ins.opcode == OP_JZ {
            if self.zero {
                self.pc = ins.operand as usize;
            }
        } else if ins.opcode == OP_HALT {
            self.state = RunState::Halted(HaltReason::ExplicitHalt);
        } else {
            match self.policy {
                OnUnknownOpcode::Fault => {
                    self.state = RunState::Faulted { opcode: ins.opcode, pc: self.pc };
                },
                OnUnknownOpcode::TreatAsHalt => {
                    self.state = RunState::Halted(HaltReason::ExplicitHalt);
                },
            }
        }
        proof {
            assert(self@ =~= cpu_execute_spec(adv, ins));
            assert(adv =~= (CpuView {
                pc: (v0.pc + 2) as nat,
                steps: (v0.steps + 1) as nat,
                state: RunState::Running,
                ..v0
            }));
            assert(self@ =~= cpu_step_spec(v0));
        }
    }

    /// The driver: run the fetch-decode-execute loop until the machine is
    /// terminal, stopping with `Halted(RunawayExecution)` once `max_steps`
    /// instructions have been executed, as [`cpu_run_spec`] describes.
    pub fn run(&mut self)
        requires
            old(self).wf(),
        ensures
            final(self).wf(),
            final(self)@ == cpu_run_spec(old(self)@),
            final(self).state.is_terminal(),
    {
        let ghost v0 = self@;
        while self.state.active()
            invariant
                self.wf(),
                cpu_run_spec(self@) == cpu_run_spec(v0),
            decreases self.max_steps - self.steps, (if self.state.is_active() { 1int } else { 0int }),
        {
            if self.steps >= self.max_steps {
                self.state = RunState::Halted(HaltReason::RunawayExecution);
            } else {
                self.step();
            }
        }
    }

    /// The driver with tracing enabled: like [`CPU::run`], and additionally
    /// returns one [`TraceRecord`] per executed instruction, in execution
    /// order, as [`cpu_trace_spec`] describes.
    pub fn run_traced(&mut self) -> (trace: Vec<TraceRecord>)
        requires
            old(self).wf(),
        ensures
            final(self).wf(),
            final(self)@ == cpu_run_spec(old(self)@),
            final(self).state.is_terminal(),
            trace@ == cpu_trace_spec(old(self)@),
    {
        let ghost v0 = self@;
        let mut trace: Vec<TraceRecord> = Vec::new();
        while self.state.active()
            invariant
                self.wf(),
                cpu_run_spec(self@) == cpu_run_spec(v0),
                trace@ + cpu_trace_spec(self@) == cpu_trace_spec(v0),
            decreases self.max_steps - self.steps, (if self.state.is_active() { 1int } else { 0int }),
        {
            if self.steps >= self.max_steps {
                self.state = RunState::Halted(HaltReason::RunawayExecution);
                proof {
                    assert(trace@ + cpu_trace_spec(self@) =~= cpu_trace_spec(v0));
                }
            } else if self.pc + 1 >= MEM_SIZE {
                let ghost vb = self@;
                self.state = RunState::Halted(HaltReason::FetchOutOfBounds);
                proof {
                    assert(self@ =~= cpu_step_spec(vb));
                    assert(trace@ + cpu_trace_spec(self@) =~= cpu_trace_spec(v0));
                }
            } else {
                let ghost vb = self@;
                let pc_before = self.pc;
                let ins = decode(word_of_bytes(self.mem.read_at(self.pc), self.mem.read_at(
                    self.pc + 1,
                )));
                let reg_before = self.regs.get_at(ins.reg);
                self.step();
                let reg_after = self.regs.get_at(ins.reg);
                let record = TraceRecord {
                    step: self.steps,
                    pc_before,
                    ins,
                    reg_before: reg_before as u16,
                    reg_after: reg_after as u16,
                    pc_after: self.pc,
                };
                proof {
                    assert(record == cpu_trace_record_spec(vb));
                    assert(cpu_trace_spec(vb) == seq![record] + cpu_trace_spec(self@));
                }
                let ghost trace_before = trace@;
                trace.push(record);
                proof {
                    assert(trace@ =~= trace_before + seq![record]);
                    assert(trace@ + cpu_trace_spec(self@) =~= trace_before + cpu_trace_spec(vb));
                }
            }
        }
        proof {
            assert(cpu_trace_spec(self@) =~= Seq::<TraceRecord>::empty());
            assert(trace@ + cpu_trace_spec(self@) =~= trace@);
        }
        trace
    }
}

/// The machine state after `n` fetch-decode-execute cycles.
pub open spec fn cpu_iter_spec(v: CpuView, n: nat) -> CpuView
    decreases n,
{
    if n == 0 {
        v
    } else {
        cpu_step_spec(cpu_iter_spec(v, (n - 1) as nat))
    }
}

/// Law: determinism — the transition and trace functions are functions of
/// the state alone, so two machines in equal states step and run to equal
/// states and emit identical traces. Together with the exact contracts of
/// [`CPU::step`], [`CPU::run`] and [`CPU::run_traced`], running the same
/// program twice from the same initial state yields identical final
/// memory and registers and an identical trace.
pub proof fn lemma_cpu_determinism(a: CpuView, b: CpuView)
    requires
        a == b,
    ensures
        cpu_step_spec(a) == cpu_step_spec(b),
        cpu_run_spec(a) == cpu_run_spec(b),
        cpu_trace_spec(a) == cpu_trace_spec(b),
{
}

/// Law: terminal states are absorbing — a run always ends `Halted` or
/// `Faulted`, and running a machine that has already stopped changes
/// nothing.
pub proof fn lemma_cpu_run_terminal(v: CpuView)
    ensures
        !cpu_run_spec(v).state.is_active(),
        cpu_run_spec(cpu_run_spec(v)) == cpu_run_spec(v),
    decreases v.max_steps - v.steps, (if v.state.is_active() { 1int } else { 0int }),
{
    if !v.state.is_active() {
    } else if v.steps >= v.max_steps {
    } else {
        lemma_cpu_run_terminal(cpu_step_spec(v));
    }
}

/// Iterating `n + 1` cycles from a state is iterating `n` cycles from the
/// state one step later.
pub proof fn lemma_cpu_iter_shift(v: CpuView, n: nat)
    ensures
        cpu_iter_spec(v, n + 1) == cpu_iter_spec(cpu_step_spec(v), n),
    decreases n,
{
    assert(cpu_iter_spec(v, n + 1) == cpu_step_spec(cpu_iter_spec(v, n)));
    if n == 0 {
        assert(cpu_iter_spec(v, 0) == v);
        assert(cpu_iter_spec(cpu_step_spec(v), 0) == cpu_step_spec(v));
    } else {
        lemma_cpu_iter_shift(v, (n - 1) as nat);
        assert(cpu_iter_spec(cpu_step_spec(v), n) == cpu_step_spec(
            cpu_iter_spec(cpu_step_spec(v), (n - 1) as nat),
        ));
    }
}

/// An executed step — any step that does not stop on an out-of-range
/// fetch — increments the step counter by exactly one; an out-of-range
/// fetch leaves it unchanged. Either way the safety bound is untouched.
pub proof fn lemma_cpu_step_count(v: CpuView)
    ensures
        cpu_step_spec(v).max_steps == v.max_steps,
        cpu_step_spec(v).state == RunState::Halted(HaltReason::FetchOutOfBounds) || cpu_step_spec(
            v,
        ).steps == v.steps + 1,
        cpu_step_spec(v).state != RunState::Halted(HaltReason::FetchOutOfBounds) || cpu_step_spec(
            v,
        ).steps == v.steps,
{
}

/// Law: halting guarantee — if the instruction stream reaches a stopping
/// instruction after `n` cycles, all earlier states being active, and `n`
/// is within the remaining safety budget, then the run performs exactly
/// those `n` cycles; and unless the stop was an out-of-range fetch, the
/// final step counter shows exactly `n` more executed instructions.
pub proof fn lemma_cpu_halting_guarantee(v: CpuView, n: nat)
    requires
        forall|i: nat| i < n ==> (#[trigger] cpu_iter_spec(v, i)).state.is_active(),
        !cpu_iter_spec(v, n).state.is_active(),
        v.steps + n <= v.max_steps,
    ensures
        cpu_run_spec(v) == cpu_iter_spec(v, n),
        cpu_iter_spec(v, n).state != RunState::Halted(HaltReason::FetchOutOfBounds)
            ==> cpu_iter_spec(v, n).steps == v.steps + n,
    decreases n,
{
    if n == 0 {
    } else {
        let w = cpu_step_spec(v);
        assert(cpu_iter_spec(v, 0) == v);
        assert(v.state.is_active());
        assert forall|i: nat| i < (n - 1) as nat implies (#[trigger] cpu_iter_spec(
            w,
            i,
        )).state.is_active() by {
            lemma_cpu_iter_shift(v, i);
            assert(cpu_iter_spec(v, i + 1).state.is_active());
        }
        lemma_cpu_iter_shift(v, (n - 1) as nat);
        assert(cpu_iter_spec(w, (n - 1) as nat) == cpu_iter_spec(v, n));
        lemma_cpu_step_count(v);
        lemma_cpu_halting_guarantee(w, (n - 1) as nat);
        if n == 1 {
            assert(cpu_iter_spec(v, 1) == w);
        } else {
            assert(cpu_iter_spec(w, 0) == w && 0 < (n - 1) as nat);
            assert(w.state.is_active());
        }
        if cpu_iter_spec(v, n).state != RunState::Halted(HaltReason::FetchOutOfBounds) {
            assert(w.state != RunState::Halted(HaltReason::FetchOutOfBounds));
            assert(w.steps == v.steps + 1);
        }
    }
}

/// Law: unknown-opcode policy — a step that fetches an instruction whose
/// opcode the executor does not recognize ends the machine: terminally
/// `Faulted`, recording the opcode and the advanced program counter, under
/// [`OnUnknownOpcode::Fault`]; terminally `Halted` under
/// [`OnUnknownOpcode::TreatAsHalt`]. No register, memory cell or flag
/// changes either way.
pub proof fn lemma_cpu_unknown_opcode_policy(v: CpuView)
    requires
        v.pc + 1 < v.mem.len(),
        !cpu_known_opcode(
            spec_decode(spec_word_of_bytes(v.mem[v.pc as int], v.mem[v.pc as int + 1])).opcode,
        ),
    ensures
        v.policy == OnUnknownOpcode::Fault ==> cpu_step_spec(v).state == (RunState::Faulted {
            opcode: spec_decode(
                spec_word_of_bytes(v.mem[v.pc as int], v.mem[v.pc as int + 1]),
            ).opcode,
            pc: (v.pc + 2) as usize,
        }),
        v.policy == OnUnknownOpcode::TreatAsHalt ==> cpu_step_spec(v).state == RunState::Halted(
            HaltReason::ExplicitHalt,
        ),
        cpu_step_spec(v).state.is_terminal(),
        cpu_step_spec(v).regs == v.regs,
        cpu_step_spec(v).mem == v.mem,
        cpu_step_spec(v).zero == v.zero,
{
}

/// Law: wrapping arithmetic — a step that fetches an ADD or SUB never
/// faults: the machine stays active, and the target register afterwards
/// holds the registers' sum or difference modulo 256.
pub proof fn lemma_cpu_wrapping_arith(v: CpuView)
    requires
        cpu_wf_view(v),
        v.pc + 1 < v.mem.len(),
        ({
            let op = spec_decode(
                spec_word_of_bytes(v.mem[v.pc as int], v.mem[v.pc as int + 1]),
            ).opcode;
            op == OP_ADD || op == OP_SUB
        }),
    ensures
        cpu_step_spec(v).state == RunState::Running,
        ({
            let ins = spec_decode(spec_word_of_bytes(v.mem[v.pc as int], v.mem[v.pc as int + 1]));
            let a = v.regs[ins.reg as int];
            let b = v.regs[(ins.operand & 0xF) as int];
            cpu_step_spec(v).regs[ins.reg as int] == (if ins.opcode == OP_ADD {
                ((a + b) % 256) as u8
            } else {
                ((a - b + 256) % 256) as u8
            })
        }),
{
    let ins = spec_decode(spec_word_of_bytes(v.mem[v.pc as int], v.mem[v.pc as int + 1]));
    lemma_cpu_ins_reg_in_range(v.mem[v.pc as int], v.mem[v.pc as int + 1]);
    let a = v.regs[ins.reg as int];
    let b = v.regs[(ins.operand & 0xF) as int];
    if ins.opcode == OP_ADD {
        assert(u8_specs::wrapping_add(a, b) == ((a + b) % 256) as u8);
    } else {
        assert(u8_specs::wrapping_sub(a, b) == ((a - b + 256) % 256) as u8);
    }
}

/// The register field decoded from a byte pair is always below the
/// register count.
pub proof fn lemma_cpu_ins_reg_in_range(hi: u8, lo: u8)
    ensures
        spec_decode(spec_word_of_bytes(hi, lo)).reg < REG_COUNT,
        (spec_decode(spec_word_of_bytes(hi, lo)).operand & 0xF) < REG_COUNT,
{
    crate::instr::lemma_decode_byte_pair(hi, lo);
    assert((hi & 0xF) < 16) by (bit_vector);
    assert((lo & 0xF) < 16) by (bit_vector);
}

} // verus!
