use mipsemu::control::{CPUFlags, EmulatorContext, RunOutcome, StepOutcome};
use mipsemu::event::CpuError;
use mipsemu::memory::{Endianness, Memory};
use mipsemu::syscalls::{HostCall, HostOk};
use mipsemu::watchdog::InstructionRecord;

fn itype(op: u32, rs: u32, rt: u32, imm: u32) -> u32 {
    (op << 26) | (rs << 21) | (rt << 16) | (imm & 0xFFFF)
}

fn load_program(m: &mut Memory, base: u32, words: &[u32]) {
    let mut a = base;
    for &w in words {
        m.write_word(a, w);
        a += 4;
    }
}

const SYSCALL: u32 = 0x0C;
const EXIT_GROUP: u32 = 4246;
const EXIT: u32 = 4001;

#[test]
fn test_store_load_exit_scenario() {
    // build 0x12345678 from halves, store it, load it back, and exit
    // with it as the code
    let mut m = Memory::new(Endianness::BigEndian);
    load_program(&mut m, 0x1000, &[
        itype(0x0F, 0, 3, 0x1234),        // lui r3, 0x1234
        itype(0x0D, 3, 3, 0x5678),        // ori r3, r3, 0x5678
        itype(0x2B, 29, 3, 0),            // sw r3, 0(r29)
        itype(0x23, 29, 4, 0),            // lw r4, 0(r29)
        itype(0x09, 0, 2, EXIT_GROUP),    // addiu r2, r0, exit_group
        SYSCALL,
    ]);
    let mut ctx = EmulatorContext::start(m, 0x7FFF_FFF0, CPUFlags::default(), None);
    ctx.run_program(0x1000);
    let out = ctx.run(100).unwrap();
    assert!(matches!(out, RunOutcome::Exited));
    // the exit code is observable in a0
    assert_eq!(ctx.registers().read_register(4), 0x1234_5678);
    assert_eq!(ctx.memory().read_word(0x7FFF_FFF0), 0x1234_5678);
}

#[test]
fn test_taken_branch_runs_delay_slot() {
    // a taken beq must execute its delay slot before the target
    let mut m = Memory::new(Endianness::BigEndian);
    load_program(&mut m, 0x1000, &[
        itype(0x04, 0, 0, 2),             // beq r0, r0, +2 words
        itype(0x09, 0, 8, 99),            // delay slot: addiu r8, r0, 99
        itype(0x09, 0, 9, 1),             // skipped: addiu r9, r0, 1
        itype(0x09, 0, 2, EXIT),          // target: addiu r2, r0, exit
        SYSCALL,
    ]);
    let mut ctx = EmulatorContext::start(m, 0x7FFF_FFF0, CPUFlags::default(), None);
    ctx.run_program(0x1000);
    assert!(matches!(ctx.run(100).unwrap(), RunOutcome::Exited));
    assert_eq!(ctx.registers().read_register(8), 99);
    assert_eq!(ctx.registers().read_register(9), 0);
}

#[test]
fn test_untaken_branch_falls_through() {
    let mut m = Memory::new(Endianness::BigEndian);
    load_program(&mut m, 0x1000, &[
        itype(0x05, 0, 0, 2),             // bne r0, r0: never taken
        itype(0x09, 0, 8, 99),            // delay slot still runs
        itype(0x09, 0, 9, 1),             // fall-through runs too
        itype(0x09, 0, 2, EXIT),
        SYSCALL,
    ]);
    let mut ctx = EmulatorContext::start(m, 0x7FFF_FFF0, CPUFlags::default(), None);
    ctx.run_program(0x1000);
    assert!(matches!(ctx.run(100).unwrap(), RunOutcome::Exited));
    assert_eq!(ctx.registers().read_register(8), 99);
    assert_eq!(ctx.registers().read_register(9), 1);
}

#[test]
fn test_null_pc_is_fatal() {
    let mut m = Memory::new(Endianness::BigEndian);
    // jr r8 with r8 zero jumps to address zero
    load_program(&mut m, 0x1000, &[
        (8 << 21) | 0x08,                 // jr r8
        0x0000_0025,                      // delay slot: or r0,r0,r0... encoded as funct 0x25
    ]);
    let mut ctx = EmulatorContext::start(m, 0x7FFF_FFF0, CPUFlags::default(), None);
    ctx.run_program(0x1000);
    assert!(matches!(ctx.run(100), Err(CpuError::JumpToZero)));
}

#[test]
fn test_run_of_nops_is_fatal() {
    let m = Memory::new(Endianness::BigEndian);
    // fresh memory is all zeroes, which fetch as NOPs
    let mut ctx = EmulatorContext::start(m, 0x7FFF_FFF0, CPUFlags::default(), None);
    ctx.run_program(0x1000);
    assert!(matches!(ctx.run(100), Err(CpuError::TooManyNops)));
}

#[test]
fn test_trace_alignment_and_divergence() {
    // a trace that matches the executed addresses passes
    let mut m = Memory::new(Endianness::BigEndian);
    load_program(&mut m, 0x1000, &[
        itype(0x09, 0, 8, 1),
        itype(0x09, 0, 2, EXIT),
        SYSCALL,
    ]);
    let trace = vec![
        InstructionRecord { address: 0x1000, registers: vec![] },
        InstructionRecord { address: 0x1004, registers: vec![] },
        InstructionRecord { address: 0x1008, registers: vec![] },
    ];
    let mut ctx = EmulatorContext::start(m, 0x7FFF_FFF0, CPUFlags::default(), Some(trace));
    ctx.run_program(0x1000);
    assert!(matches!(ctx.run(100).unwrap(), RunOutcome::Exited));

    // a trace that expects another address is a fatal divergence
    let mut m = Memory::new(Endianness::BigEndian);
    load_program(&mut m, 0x1000, &[
        itype(0x09, 0, 8, 1),
        itype(0x09, 0, 2, EXIT),
        SYSCALL,
    ]);
    let trace = vec![
        InstructionRecord { address: 0x1000, registers: vec![] },
        InstructionRecord { address: 0x2000, registers: vec![] },
    ];
    let mut ctx = EmulatorContext::start(m, 0x7FFF_FFF0, CPUFlags::default(), Some(trace));
    ctx.run_program(0x1000);
    assert!(matches!(
        ctx.run(100),
        Err(CpuError::TraceDiverged { expected: 0x2000, found: 0x1004 })
    ));
}

#[test]
fn test_trace_gap_after_atomic_block() {
    // an ll opens a trace gap, so the next address may disagree with
    // the trace until they meet again
    let mut m = Memory::new(Endianness::BigEndian);
    m.write_word(0x2000, 5);
    load_program(&mut m, 0x1000, &[
        itype(0x0F, 0, 8, 0),             // lui r8, 0 (r8 = 0)
        itype(0x30, 0, 9, 0x2000),        // ll r9, 0x2000(r0)
        itype(0x09, 0, 8, 7),             // addiu r8, r0, 7
        itype(0x09, 0, 2, EXIT),
        SYSCALL,
    ]);
    let trace = vec![
        InstructionRecord { address: 0x1000, registers: vec![] },
        InstructionRecord { address: 0x1004, registers: vec![] },
        // the record after the atomic block names a different address;
        // inside the gap that is tolerated, and execution realigns here
        InstructionRecord { address: 0x100C, registers: vec![] },
        InstructionRecord { address: 0x1010, registers: vec![] },
    ];
    let mut ctx = EmulatorContext::start(m, 0x7FFF_FFF0, CPUFlags::default(), Some(trace));
    ctx.run_program(0x1000);
    assert!(matches!(ctx.run(100).unwrap(), RunOutcome::Exited));
    assert_eq!(ctx.registers().read_register(9), 5);
}

#[test]
fn test_run_function_reaches_sentinel() {
    // a guest function that doubles its first argument: addu r2,r4,r4;
    // jr r31 with a nop in the delay slot
    let mut m = Memory::new(Endianness::BigEndian);
    load_program(&mut m, 0x4000, &[
        (4 << 21) | (4 << 16) | (2 << 11) | 0x21,   // addu r2, r4, r4
        (31 << 21) | 0x08,                          // jr r31
        itype(0x09, 0, 8, 1),                       // delay slot
    ]);
    let mut ctx = EmulatorContext::start(m, 0x7FFF_FF00, CPUFlags::default(), None);
    let out = ctx.run_function(0x4000, &vec![21, 2, 3, 4, 5], 100).unwrap();
    assert!(matches!(out, RunOutcome::Exited));
    assert_eq!(ctx.registers().read_register(2), 42);
    // the fifth argument was spilled to the stack
    let sp = ctx.registers().read_register(29);
    assert_eq!(ctx.memory().read_word(sp + 16), 5);
}

#[test]
fn test_step_reports_host_write() {
    // the guest writes five bytes to stdout; the embedder sees exactly
    // those bytes, and the reply lands in r2 with r7 clear
    let mut m = Memory::new(Endianness::BigEndian);
    m.write_block(0x1000_0000, b"hello");
    load_program(&mut m, 0x1000, &[
        itype(0x09, 0, 4, 1),             // addiu r4, r0, 1 (stdout)
        itype(0x0F, 0, 5, 0x1000),        // lui r5, 0x1000
        itype(0x0D, 5, 5, 0x0000),        // ori r5, r5, 0
        itype(0x09, 0, 6, 5),             // addiu r6, r0, 5
        itype(0x09, 0, 2, 4004),          // addiu r2, r0, write
        SYSCALL,
        itype(0x09, 0, 2, EXIT_GROUP),
        SYSCALL,
    ]);
    let mut ctx = EmulatorContext::start(m, 0x7FFF_FFF0, CPUFlags::default(), None);
    ctx.run_program(0x1000);
    let call = match ctx.run(100).unwrap() {
        RunOutcome::NeedsHost(c) => c,
        other => panic!("expected a host call, got {:?}", std::mem::discriminant(&other)),
    };
    match &call {
        HostCall::Write { fd, bytes } => {
            assert_eq!(*fd, 1);
            assert_eq!(bytes.as_slice(), b"hello");
        },
        _ => panic!("expected a write request"),
    }
    let step = ctx.finish_host(&call, Ok(HostOk::Val(5))).unwrap();
    assert!(matches!(step, StepOutcome::Continue));
    assert_eq!(ctx.registers().read_register(2), 5);
    assert_eq!(ctx.registers().read_register(7), 0);
    assert!(matches!(ctx.run(100).unwrap(), RunOutcome::Exited));
}

#[test]
fn test_add_overflow_terminates_the_run() {
    // add on 0x7FFFFFFF and 1 must end the emulation with a diagnostic,
    // while addu on the same operands continues
    let mut m = Memory::new(Endianness::BigEndian);
    load_program(&mut m, 0x1000, &[
        itype(0x0F, 0, 8, 0x7FFF),                  // lui r8, 0x7FFF
        itype(0x0D, 8, 8, 0xFFFF),                  // ori r8, r8, 0xFFFF
        itype(0x09, 0, 9, 1),                       // addiu r9, r0, 1
        (8 << 21) | (9 << 16) | (10 << 11) | 0x21,  // addu r10, r8, r9
        (8 << 21) | (9 << 16) | (11 << 11) | 0x20,  // add r11, r8, r9
    ]);
    let mut ctx = EmulatorContext::start(m, 0x7FFF_FFF0, CPUFlags::default(), None);
    ctx.run_program(0x1000);
    assert!(matches!(ctx.run(100), Err(CpuError::ArithmeticOverflow)));
    assert_eq!(ctx.registers().read_register(10), 0x8000_0000);
    assert_eq!(ctx.registers().read_register(11), 0);
}
