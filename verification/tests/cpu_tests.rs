use machine_sim::cpu::{CPU, DEFAULT_MAX_STEPS, MEM_SIZE};
use machine_sim::status::{HaltReason, MachineError, OnUnknownOpcode, RunState};

#[test]
fn cpu_new_machine_is_zeroed_and_ready() {
    let cpu = CPU::new();
    assert_eq!(cpu.state, RunState::Ready);
    assert_eq!(cpu.pc, 0);
    assert_eq!(cpu.zero, false);
    assert_eq!(cpu.steps, 0);
    assert_eq!(cpu.policy, OnUnknownOpcode::Fault);
    assert_eq!(cpu.max_steps, DEFAULT_MAX_STEPS);
    assert_eq!(cpu.mem.capacity(), MEM_SIZE);
    for id in 0..16 {
        assert_eq!(cpu.regs.get(id), Ok(0));
    }
    for addr in 0..MEM_SIZE {
        assert_eq!(cpu.mem.read(addr), Ok(0));
    }
}

#[test]
fn byte_program_stores_sum() {
    // LOADIMM R1 <- 5; LOADIMM R2 <- 3; ADD R1 += R2; STORE R1 -> 0xC8; HALT
    let program: Vec<u8> = vec![0x21, 0x05, 0x22, 0x03, 0x41, 0x02, 0x31, 0xC8, 0xF0, 0x00];
    let mut cpu = CPU::new();
    assert_eq!(cpu.load_program(&program, 0), Ok(()));
    cpu.run();
    assert_eq!(cpu.mem.read(200), Ok(8));
    assert_eq!(cpu.regs.get(1), Ok(8));
    assert_eq!(cpu.state, RunState::Halted(HaltReason::ExplicitHalt));
    assert_eq!(cpu.steps, 5);
}

#[test]
fn load_reads_memory_cell() {
    // LOAD R1 <- mem[4]; HALT; data byte 0x2A at address 4
    let program: Vec<u8> = vec![0x11, 0x04, 0xF0, 0x00, 0x2A];
    let mut cpu = CPU::new();
    assert_eq!(cpu.load_program(&program, 0), Ok(()));
    cpu.run();
    assert_eq!(cpu.regs.get(1), Ok(0x2A));
    assert_eq!(cpu.state, RunState::Halted(HaltReason::ExplicitHalt));
    assert_eq!(cpu.steps, 2);
}

#[test]
fn add_wraps_modulo_256() {
    // LOADIMM R1 <- 255; LOADIMM R2 <- 2; ADD R1 += R2; HALT
    let program: Vec<u8> = vec![0x21, 0xFF, 0x22, 0x02, 0x41, 0x02, 0xF0, 0x00];
    let mut cpu = CPU::new();
    assert_eq!(cpu.load_program(&program, 0), Ok(()));
    cpu.run();
    assert_eq!(cpu.regs.get(1), Ok(1));
    assert_eq!(cpu.zero, false);
    assert_eq!(cpu.state, RunState::Halted(HaltReason::ExplicitHalt));
}

#[test]
fn sub_wraps_modulo_256() {
    // LOADIMM R1 <- 0; LOADIMM R2 <- 1; SUB R1 -= R2; HALT
    let program: Vec<u8> = vec![0x21, 0x00, 0x22, 0x01, 0x51, 0x02, 0xF0, 0x00];
    let mut cpu = CPU::new();
    assert_eq!(cpu.load_program(&program, 0), Ok(()));
    cpu.run();
    assert_eq!(cpu.regs.get(1), Ok(255));
    assert_eq!(cpu.zero, false);
}

#[test]
fn sub_to_zero_sets_flag_and_jz_takes_branch() {
    // LOADIMM R1 <- 5; SUB R1 -= R1 (zero flag set); JZ -> 8; LOADIMM R2 <- 9 (skipped); HALT
    let program: Vec<u8> = vec![0x21, 0x05, 0x51, 0x01, 0x71, 0x08, 0x22, 0x09, 0xF0, 0x00];
    let mut cpu = CPU::new();
    assert_eq!(cpu.load_program(&program, 0), Ok(()));
    cpu.run();
    assert_eq!(cpu.zero, true);
    assert_eq!(cpu.regs.get(1), Ok(0));
    assert_eq!(cpu.regs.get(2), Ok(0));
    assert_eq!(cpu.state, RunState::Halted(HaltReason::ExplicitHalt));
    assert_eq!(cpu.steps, 4);
}

#[test]
fn jz_falls_through_when_flag_clear() {
    // LOADIMM R1 <- 5; JZ -> 8 (not taken); LOADIMM R2 <- 9; HALT
    let program: Vec<u8> = vec![0x21, 0x05, 0x71, 0x08, 0x22, 0x09, 0xF0, 0x00];
    let mut cpu = CPU::new();
    assert_eq!(cpu.load_program(&program, 0), Ok(()));
    cpu.run();
    assert_eq!(cpu.regs.get(2), Ok(9));
    assert_eq!(cpu.steps, 4);
}

#[test]
fn cpu_unknown_opcode_faults_under_fault_policy() {
    let program: Vec<u8> = vec![0x00, 0x00];
    let mut cpu = CPU::with_policy(OnUnknownOpcode::Fault, 100);
    assert_eq!(cpu.load_program(&program, 0), Ok(()));
    cpu.run();
    assert_eq!(cpu.state, RunState::Faulted { opcode: 0, pc: 2 });
    assert_eq!(cpu.steps, 1);
}

#[test]
fn cpu_unknown_opcode_halts_under_treat_as_halt() {
    let program: Vec<u8> = vec![0x00, 0x00];
    let mut cpu = CPU::with_policy(OnUnknownOpcode::TreatAsHalt, 100);
    assert_eq!(cpu.load_program(&program, 0), Ok(()));
    cpu.run();
    assert_eq!(cpu.state, RunState::Halted(HaltReason::ExplicitHalt));
    assert_eq!(cpu.steps, 1);
}

#[test]
fn cpu_runaway_execution_hits_safety_bound() {
    // JMP 0: loops forever without the bound
    let program: Vec<u8> = vec![0x60, 0x00];
    let mut cpu = CPU::with_policy(OnUnknownOpcode::Fault, 50);
    assert_eq!(cpu.load_program(&program, 0), Ok(()));
    cpu.run();
    assert_eq!(cpu.state, RunState::Halted(HaltReason::RunawayExecution));
    assert_eq!(cpu.steps, 50);
}

#[test]
fn cpu_fetch_out_of_bounds_halts_controlled() {
    // JMP 0xFF: the next fetch would need bytes 255 and 256
    let program: Vec<u8> = vec![0x60, 0xFF];
    let mut cpu = CPU::new();
    assert_eq!(cpu.load_program(&program, 0), Ok(()));
    cpu.run();
    assert_eq!(cpu.state, RunState::Halted(HaltReason::FetchOutOfBounds));
    assert_eq!(cpu.steps, 1);
    assert_eq!(cpu.pc, 255);
}

#[test]
fn store_rewrites_upcoming_instruction() {
    // LOADIMM R1 <- 0xF0; STORE R1 -> 4: overwrites the JMP at byte 4 with
    // a HALT opcode before it is fetched.
    let program: Vec<u8> = vec![0x21, 0xF0, 0x31, 0x04, 0x61, 0x00];
    let mut cpu = CPU::new();
    assert_eq!(cpu.load_program(&program, 0), Ok(()));
    cpu.run();
    assert_eq!(cpu.state, RunState::Halted(HaltReason::ExplicitHalt));
    assert_eq!(cpu.steps, 3);
    assert_eq!(cpu.mem.read(4), Ok(0xF0));
}

#[test]
fn loader_copies_at_base() {
    let program: Vec<u8> = vec![1, 2, 3];
    let mut cpu = CPU::new();
    assert_eq!(cpu.load_program(&program, 10), Ok(()));
    assert_eq!(cpu.mem.read(9), Ok(0));
    assert_eq!(cpu.mem.read(10), Ok(1));
    assert_eq!(cpu.mem.read(11), Ok(2));
    assert_eq!(cpu.mem.read(12), Ok(3));
    assert_eq!(cpu.mem.read(13), Ok(0));
}

#[test]
fn loader_rejects_program_too_large() {
    let mut cpu = CPU::new();
    let big: Vec<u8> = vec![0xAA; 300];
    assert_eq!(cpu.load_program(&big, 0), Err(MachineError::ProgramTooLarge));
    let seven: Vec<u8> = vec![0xAA; 7];
    assert_eq!(
        cpu.load_program(&seven, 250),
        Err(MachineError::ProgramTooLarge)
    );
    let empty: Vec<u8> = vec![];
    assert_eq!(
        cpu.load_program(&empty, 257),
        Err(MachineError::ProgramTooLarge)
    );
    // nothing was written by the failed loads
    for addr in 0..MEM_SIZE {
        assert_eq!(cpu.mem.read(addr), Ok(0));
    }
    // a program that exactly fits is accepted
    let six: Vec<u8> = vec![0xBB; 6];
    assert_eq!(cpu.load_program(&six, 250), Ok(()));
    assert_eq!(cpu.mem.read(255), Ok(0xBB));
    assert_eq!(cpu.mem.read(249), Ok(0));
}

#[test]
fn cpu_runs_are_deterministic() {
    let program: Vec<u8> = vec![0x21, 0x05, 0x22, 0x03, 0x41, 0x02, 0x31, 0xC8, 0xF0, 0x00];
    let mut first = CPU::new();
    let mut second = CPU::new();
    assert_eq!(first.load_program(&program, 0), Ok(()));
    assert_eq!(second.load_program(&program, 0), Ok(()));
    first.run();
    second.run();
    assert_eq!(first.state, second.state);
    assert_eq!(first.pc, second.pc);
    assert_eq!(first.steps, second.steps);
    assert_eq!(first.zero, second.zero);
    for id in 0..16 {
        assert_eq!(first.regs.get(id), second.regs.get(id));
    }
    for addr in 0..MEM_SIZE {
        assert_eq!(first.mem.read(addr), second.mem.read(addr));
    }
}

#[test]
fn step_executes_one_instruction() {
    let program: Vec<u8> = vec![0x21, 0x07, 0xF0, 0x00];
    let mut cpu = CPU::new();
    assert_eq!(cpu.load_program(&program, 0), Ok(()));
    cpu.step();
    assert_eq!(cpu.state, RunState::Running);
    assert_eq!(cpu.pc, 2);
    assert_eq!(cpu.steps, 1);
    assert_eq!(cpu.regs.get(1), Ok(7));
    cpu.step();
    assert_eq!(cpu.state, RunState::Halted(HaltReason::ExplicitHalt));
    assert_eq!(cpu.steps, 2);
}

#[test]
fn cpu_trace_records_each_step() {
    let program: Vec<u8> = vec![0x21, 0x05, 0x22, 0x03, 0x41, 0x02, 0x31, 0xC8, 0xF0, 0x00];
    let mut cpu = CPU::new();
    assert_eq!(cpu.load_program(&program, 0), Ok(()));
    let trace = cpu.run_traced();
    assert_eq!(trace.len(), 5);
    let first = trace[0];
    assert_eq!(first.step, 1);
    assert_eq!(first.pc_before, 0);
    assert_eq!(first.ins.opcode, 0x2);
    assert_eq!(first.ins.reg, 1);
    assert_eq!(first.reg_before, 0);
    assert_eq!(first.reg_after, 5);
    assert_eq!(first.pc_after, 2);
    let add = trace[2];
    assert_eq!(add.ins.opcode, 0x4);
    assert_eq!(add.reg_before, 5);
    assert_eq!(add.reg_after, 8);
    let last = trace[4];
    assert_eq!(last.step, 5);
    assert_eq!(last.ins.opcode, 0xF);
    assert_eq!(last.pc_after, 10);
    assert_eq!(cpu.state, RunState::Halted(HaltReason::ExplicitHalt));
}

#[test]
fn cpu_traces_are_deterministic() {
    let program: Vec<u8> = vec![0x21, 0x05, 0x22, 0x03, 0x41, 0x02, 0x31, 0xC8, 0xF0, 0x00];
    let mut first = CPU::new();
    let mut second = CPU::new();
    assert_eq!(first.load_program(&program, 0), Ok(()));
    assert_eq!(second.load_program(&program, 0), Ok(()));
    assert_eq!(first.run_traced(), second.run_traced());
}

#[test]
fn arithmetic_operand_is_masked_to_register_id() {
    // ADD's source operand is taken modulo 16: operand 0x12 names R2.
    // LOADIMM R1 <- 5; LOADIMM R2 <- 3; ADD R1 += regs[0x12 & 0xF]; HALT
    let program: Vec<u8> = vec![0x21, 0x05, 0x22, 0x03, 0x41, 0x12, 0xF0, 0x00];
    let mut cpu = CPU::new();
    assert_eq!(cpu.load_program(&program, 0), Ok(()));
    cpu.run();
    assert_eq!(cpu.regs.get(1), Ok(8));
    assert_eq!(cpu.state, RunState::Halted(HaltReason::ExplicitHalt));
}
