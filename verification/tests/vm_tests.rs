use machine_sim::instr::{assemble, decode};
use machine_sim::loader::load_words;
use machine_sim::status::{HaltReason, MachineError, OnUnknownOpcode, RunState};
use machine_sim::vm::{execute, fetch, DEFAULT_MAX_STEPS, VM};

fn countdown_program() -> Vec<u16> {
    // 0: LDI  R1, 5
    // 1: SUBI R1, 1
    // 2: JZ   R1, 4
    // 3: JMP  1
    // 4: HALT
    vec![
        assemble(0x1, 1, 5),
        assemble(0x3, 1, 1),
        assemble(0x4, 1, 4),
        assemble(0x5, 0, 1),
        assemble(0xF, 0, 0),
    ]
}

#[test]
fn vm_new_machine_is_zeroed_and_ready() {
    let vm = VM::new();
    assert_eq!(vm.state, RunState::Ready);
    assert_eq!(vm.pc, 0);
    assert_eq!(vm.steps, 0);
    assert_eq!(vm.policy, OnUnknownOpcode::TreatAsHalt);
    assert_eq!(vm.max_steps, DEFAULT_MAX_STEPS);
    for id in 0..16 {
        assert_eq!(vm.reg(id), Ok(0));
    }
}

#[test]
fn countdown_halts_with_zero() {
    let prog = countdown_program();
    let mut vm = VM::new();
    vm.run(&prog);
    assert_eq!(vm.state, RunState::Halted(HaltReason::ExplicitHalt));
    assert_eq!(vm.reg(1), Ok(0));
    // LDI, then five decrement iterations (the first four loop back), HALT:
    // 1 + 4*3 + 2 + 1 = 16 executed instructions
    assert_eq!(vm.steps, 16);
}

#[test]
fn countdown_trace_records_each_step() {
    let prog = countdown_program();
    let mut vm = VM::new();
    let trace = vm.run_traced(&prog);
    assert_eq!(trace.len(), 16);
    let first = trace[0];
    assert_eq!(first.step, 1);
    assert_eq!(first.pc_before, 0);
    assert_eq!(first.ins.opcode, 0x1);
    assert_eq!(first.ins.reg, 1);
    assert_eq!(first.reg_before, 0);
    assert_eq!(first.reg_after, 5);
    assert_eq!(first.pc_after, 1);
    let second = trace[1];
    assert_eq!(second.ins.opcode, 0x3);
    assert_eq!(second.reg_before, 5);
    assert_eq!(second.reg_after, 4);
    let last = trace[15];
    assert_eq!(last.step, 16);
    assert_eq!(last.pc_before, 4);
    assert_eq!(last.ins.opcode, 0xF);
    assert_eq!(last.pc_after, 5);
}

#[test]
fn vm_runs_are_deterministic() {
    let prog = countdown_program();
    let mut first = VM::new();
    let mut second = VM::new();
    let trace_a = first.run_traced(&prog);
    let trace_b = second.run_traced(&prog);
    assert_eq!(trace_a, trace_b);
    assert_eq!(first.state, second.state);
    assert_eq!(first.pc, second.pc);
    assert_eq!(first.steps, second.steps);
    for id in 0..16 {
        assert_eq!(first.reg(id), second.reg(id));
    }
}

#[test]
fn subi_wraps_modulo_65536() {
    // LDI R1, 0; SUBI R1, 1; HALT
    let prog: Vec<u16> = vec![assemble(0x1, 1, 0), assemble(0x3, 1, 1), assemble(0xF, 0, 0)];
    let mut vm = VM::new();
    vm.run(&prog);
    assert_eq!(vm.reg(1), Ok(65535));
    assert_eq!(vm.state, RunState::Halted(HaltReason::ExplicitHalt));
}

#[test]
fn addi_accumulates() {
    // LDI R2, 250; ADDI R2, 10; HALT
    let prog: Vec<u16> = vec![
        assemble(0x1, 2, 250),
        assemble(0x2, 2, 10),
        assemble(0xF, 0, 0),
    ];
    let mut vm = VM::new();
    vm.run(&prog);
    assert_eq!(vm.reg(2), Ok(260));
}

#[test]
fn vm_unknown_opcode_halts_under_treat_as_halt() {
    let prog: Vec<u16> = vec![0x0000];
    let mut vm = VM::new();
    vm.run(&prog);
    assert_eq!(vm.state, RunState::Halted(HaltReason::ExplicitHalt));
    assert_eq!(vm.steps, 1);
}

#[test]
fn vm_unknown_opcode_faults_under_fault_policy() {
    let prog: Vec<u16> = vec![0x0000];
    let mut vm = VM::with_policy(OnUnknownOpcode::Fault, 100);
    vm.run(&prog);
    assert_eq!(vm.state, RunState::Faulted { opcode: 0, pc: 1 });
    assert_eq!(vm.steps, 1);
}

#[test]
fn vm_runaway_execution_hits_safety_bound() {
    // JMP 0: loops forever without the bound
    let prog: Vec<u16> = vec![assemble(0x5, 0, 0)];
    let mut vm = VM::with_policy(OnUnknownOpcode::TreatAsHalt, 25);
    vm.run(&prog);
    assert_eq!(vm.state, RunState::Halted(HaltReason::RunawayExecution));
    assert_eq!(vm.steps, 25);
}

#[test]
fn vm_fetch_out_of_bounds_halts_controlled() {
    // a program with no HALT runs off its end
    let prog: Vec<u16> = vec![assemble(0x1, 1, 5)];
    let mut vm = VM::new();
    vm.run(&prog);
    assert_eq!(vm.state, RunState::Halted(HaltReason::FetchOutOfBounds));
    assert_eq!(vm.steps, 1);
    assert_eq!(vm.reg(1), Ok(5));
}

#[test]
fn fetch_advances_pc_and_stops_at_end() {
    let prog: Vec<u16> = vec![0x1234, 0x5678];
    let mut vm = VM::new();
    assert_eq!(fetch(&mut vm, &prog), Some(0x1234));
    assert_eq!(vm.pc, 1);
    assert_eq!(fetch(&mut vm, &prog), Some(0x5678));
    assert_eq!(vm.pc, 2);
    assert_eq!(fetch(&mut vm, &prog), None);
    assert_eq!(vm.pc, 2);
}

#[test]
fn execute_applies_one_instruction() {
    let mut vm = VM::new();
    execute(&mut vm, decode(assemble(0x1, 3, 42)));
    assert_eq!(vm.reg(3), Ok(42));
    execute(&mut vm, decode(assemble(0x2, 3, 8)));
    assert_eq!(vm.reg(3), Ok(50));
    execute(&mut vm, decode(assemble(0xF, 0, 0)));
    assert_eq!(vm.state, RunState::Halted(HaltReason::ExplicitHalt));
}

#[test]
fn reg_query_rejects_bad_id() {
    let vm = VM::new();
    assert_eq!(vm.reg(16), Err(MachineError::InvalidRegisterId));
    assert_eq!(vm.reg(255), Err(MachineError::InvalidRegisterId));
}

#[test]
fn jz_only_jumps_on_zero() {
    // LDI R1, 1; JZ R1, 3 (not taken); HALT; HALT
    let prog: Vec<u16> = vec![
        assemble(0x1, 1, 1),
        assemble(0x4, 1, 3),
        assemble(0xF, 0, 0),
        assemble(0xF, 0, 0),
    ];
    let mut vm = VM::new();
    vm.run(&prog);
    assert_eq!(vm.pc, 3);
    assert_eq!(vm.steps, 3);
}

#[test]
fn loaded_store_runs_like_a_directly_built_one() {
    let prog = countdown_program();
    let mut store: Vec<u16> = vec![0; 5];
    assert_eq!(load_words(&mut store, &prog, 0), Ok(()));
    let mut vm = VM::new();
    vm.run(&store);
    assert_eq!(vm.state, RunState::Halted(HaltReason::ExplicitHalt));
    assert_eq!(vm.reg(1), Ok(0));
    assert_eq!(vm.steps, 16);
}
