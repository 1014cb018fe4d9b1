//! CPU control: configuration flags, the pending-PC queue that realises
//! branch-delay slots, and the per-instruction step of the emulator.
//!
//! The embedder drives the machine through `step`: most instructions
//! complete inside the library, and a system call that needs the host
//! comes back as a `HostCall` whose result the embedder feeds to
//! `finish_host`.

use vstd::prelude::*;

use crate::bitutils::{imm_of, opcode_of, rs_of, rt_of, wadd};
use crate::event::{CPUEvent, CpuError};
use crate::instructions::{
    branch_target, eval_instruction, instr_step, rr, s32, InstrOutcome,
};
use crate::memory::{word_at, Memory};
use crate::registers::RegisterFile;
use crate::syscalls::{
    finish_step, finish_syscall, syscall_step, HostCall, HostOk, SyscallOutcome, System,
};
use crate::watchdog::{wd_step, InstructionRecord, Watchdog};
use std::collections::VecDeque;

verus! {

/// Configuration of a whole emulator run.
pub struct CPUFlags {
    /// Path of the gzip-compressed reference trace, if one is used. The
    /// file itself is read by the embedder, which hands the records to
    /// the watchdog.
    pub tracefile: Option<String>,
    pub syscalls_conf: CPUFlagsSyscalls,
    pub watchdog_conf: CPUFlagsWatchdog,
}

pub struct CPUFlagsWatchdog {
    pub trace_checked_register_reads: bool,
    pub trace_checked_register_writes: bool,
    pub trace_full_register_values_check: bool,
    pub trace_panic_on_invalid_read: bool,
    pub trace_panic_on_invalid_write: bool,
}

pub struct CPUFlagsSyscalls {
    pub sys_fake_root: bool,
    pub sys_fake_root_directory: bool,
    pub sys_block_ioctl_on_stdio: bool,
    pub sys_ioctl_fail_always: bool,
}

impl CPUFlags {
    pub fn default() -> (r: CPUFlags)
        ensures
            r.tracefile is None,
            !r.syscalls_conf.sys_fake_root,
            !r.syscalls_conf.sys_fake_root_directory,
            !r.syscalls_conf.sys_block_ioctl_on_stdio,
            !r.syscalls_conf.sys_ioctl_fail_always,
            r.watchdog_conf.trace_checked_register_reads,
            !r.watchdog_conf.trace_checked_register_writes,
            !r.watchdog_conf.trace_full_register_values_check,
            !r.watchdog_conf.trace_panic_on_invalid_read,
            !r.watchdog_conf.trace_panic_on_invalid_write,
    {
        CPUFlags {
            tracefile: None,
            syscalls_conf: CPUFlagsSyscalls {
                sys_fake_root: false,
                sys_fake_root_directory: false,
                sys_block_ioctl_on_stdio: false,
                sys_ioctl_fail_always: false,
            },
            watchdog_conf: CPUFlagsWatchdog {
                trace_checked_register_reads: true,
                trace_checked_register_writes: false,
                trace_full_register_values_check: false,
                trace_panic_on_invalid_read: false,
                trace_panic_on_invalid_write: false,
            },
        }
    }
}

/// How one step of the control loop ends.
pub enum StepOutcome {
    /// The instruction retired; the loop goes on.
    Continue,
    /// The guest exited, or the pending-PC queue ran dry.
    Exited,
    /// A system call needs the named host action; feed the result to
    /// `finish_host`.
    Host(HostCall),
}

/// How a bounded run ends.
pub enum RunOutcome {
    Exited,
    NeedsHost(HostCall),
    OutOfFuel,
}

/// The pending-PC queue after the event `ev` of the instruction at `pc`
/// is interpreted: a delayed transfer enqueues the delay slot and then
/// the target, an immediate transfer enqueues the target alone, anything
/// else falls through to `pc + 4`; a transfer that finds the queue
/// occupied is a flow conflict.
pub open spec fn schedule_rel(
    q0: Seq<u32>,
    q1: Seq<u32>,
    pc: u32,
    ev: CPUEvent,
    r: Result<bool, CpuError>,
) -> bool {
    match ev {
        CPUEvent::Exit => q1 == q0 && r == Ok::<bool, CpuError>(true),
        CPUEvent::FlowChangeImmediate(t) => {
            if q0.len() == 0 {
                q1 == seq![t] && r == Ok::<bool, CpuError>(false)
            } else {
                q1 == q0 && r == Err::<bool, CpuError>(CpuError::FlowConflict)
            }
        },
        CPUEvent::FlowChangeDelayed(t) => {
            if q0.len() == 0 {
                q1 == seq![wadd(pc, 4), t] && r == Ok::<bool, CpuError>(false)
            } else {
                q1 == q0 && r == Err::<bool, CpuError>(CpuError::FlowConflict)
            }
        },
        _ => {
            if q0.len() == 0 {
                q1 == seq![wadd(pc, 4)] && r == Ok::<bool, CpuError>(false)
            } else {
                q1 == q0 && r == Ok::<bool, CpuError>(false)
            }
        },
    }
}

/// Interprets a control-flow event against the pending-PC queue,
/// following `schedule_rel`; the flag reports a guest exit.
fn schedule_event(queue: &mut VecDeque<u32>, pc: u32, ev: &CPUEvent) -> (r: Result<bool, CpuError>)
    ensures
        schedule_rel(old(queue)@, final(queue)@, pc, *ev, r),
{
    match ev {
        CPUEvent::Exit => Ok(true),
        CPUEvent::FlowChangeImmediate(t) => {
            if queue.len() == 0 {
                queue.push_back(*t);
                proof {
                    assert(queue@ =~= seq![*t]);
                }
                Ok(false)
            } else {
                Err(CpuError::FlowConflict)
            }
        },
        CPUEvent::FlowChangeDelayed(t) => {
            if queue.len() == 0 {
                queue.push_back(pc.wrapping_add(4));
                queue.push_back(*t);
                proof {
                    assert(queue@ =~= seq![wadd(pc, 4), *t]);
                }
                Ok(false)
            } else {
                Err(CpuError::FlowConflict)
            }
        },
        _ => {
            if queue.len() == 0 {
                queue.push_back(pc.wrapping_add(4));
                proof {
                    assert(queue@ =~= seq![wadd(pc, 4)]);
                }
            }
            Ok(false)
        },
    }
}

/// A conditional branch of the supported subset.
pub open spec fn is_conditional_branch(w: u32) -> bool {
    ||| opcode_of(w) == 0x04
    ||| opcode_of(w) == 0x05
    ||| (opcode_of(w) == 0x06 && rt_of(w) == 0)
    ||| (opcode_of(w) == 0x07 && rt_of(w) == 0)
    ||| (opcode_of(w) == 0x01 && (rt_of(w) == 0x00 || rt_of(w) == 0x01))
}

/// Whether the branch `w` is taken in the register state `r`.
pub open spec fn branch_condition(w: u32, r: RegisterFile) -> bool {
    let a = rr(r, rs_of(w));
    let b = rr(r, rt_of(w));
    if opcode_of(w) == 0x04 {
        a == b
    } else if opcode_of(w) == 0x05 {
        a != b
    } else if opcode_of(w) == 0x06 {
        s32(a) <= 0
    } else if opcode_of(w) == 0x07 {
        s32(a) > 0
    } else if rt_of(w) == 0x00 {
        s32(a) < 0
    } else {
        s32(a) >= 0
    }
}

/// The branch-delay-slot law: for any conditional branch evaluated with
/// an empty pending queue, a taken branch schedules the delay slot at
/// `pc + 4` and then the branch target, so the sequence actually
/// executed is branch, delay slot, target; a branch not taken schedules
/// the delay slot alone, so the fall-through continues behind it.
pub proof fn lemma_branch_delay_slot(
    w: u32,
    r0: RegisterFile,
    m0: Memory,
    r1: RegisterFile,
    m1: Memory,
    out: Result<InstrOutcome, CpuError>,
    ev: CPUEvent,
    q0: Seq<u32>,
    q1: Seq<u32>,
    sr: Result<bool, CpuError>,
)
    requires
        is_conditional_branch(w),
        instr_step(w, r0, m0, r1, m1, out),
        out == Ok::<InstrOutcome, CpuError>(InstrOutcome::Event(ev)),
        schedule_rel(q0, q1, r0.spec_pc(), ev, sr),
        q0.len() == 0,
    ensures
        branch_condition(w, r0) ==> q1 == seq![
            wadd(r0.spec_pc(), 4),
            branch_target(r0.spec_pc(), imm_of(w)),
        ] && sr == Ok::<bool, CpuError>(false),
        !branch_condition(w, r0) ==> q1 == seq![wadd(r0.spec_pc(), 4)] && sr == Ok::<
            bool,
            CpuError,
        >(false),
{
}

/// The whole machine: each component owned by the control loop, plus
/// the short pending-PC queue that realises delay slots and the optional
/// sentinel address at which a nested run stops.
pub struct EmulatorContext {
    memory: Memory,
    system: System,
    watchdog: Watchdog,
    registers: RegisterFile,
    program_counter: VecDeque<u32>,
    stop_pc: Option<u32>,
}

impl EmulatorContext {
    pub closed spec fn spec_memory(&self) -> Memory {
        self.memory
    }

    pub closed spec fn spec_system(&self) -> System {
        self.system
    }

    pub closed spec fn spec_watchdog(&self) -> Watchdog {
        self.watchdog
    }

    pub closed spec fn spec_registers(&self) -> RegisterFile {
        self.registers
    }

    pub closed spec fn spec_queue(&self) -> Seq<u32> {
        self.program_counter@
    }

    pub closed spec fn spec_stop_pc(&self) -> Option<u32> {
        self.stop_pc
    }

    pub open spec fn wf(&self) -> bool {
        self.spec_registers().wf() && self.spec_memory().wf()
    }

    /// Assembles the machine: the loaded memory, a fresh register file
    /// whose stack pointer is set, the watchdog over an optional
    /// reference trace, and the system-call layer.
    pub fn start(
        memory: Memory,
        stack_pointer: u32,
        flags: CPUFlags,
        trace: Option<Vec<InstructionRecord>>,
    ) -> (c: EmulatorContext)
        requires
            memory.wf(),
        ensures
            c.wf(),
            c.spec_memory() == memory,
            c.spec_registers().spec_reg(crate::registers::STACK_POINTER as int) == stack_pointer,
            c.spec_registers().spec_pc() == 0,
            c.spec_queue().len() == 0,
            c.spec_stop_pc() is None,
            c.spec_watchdog().spec_instruction_number() == 0,
            !c.spec_watchdog().spec_trace_gap(),
            c.spec_watchdog().spec_flags() == flags.watchdog_conf,
            c.spec_system().spec_config() == flags.syscalls_conf,
    {
        let watchdog = Watchdog::new(trace, flags.watchdog_conf);
        let registers = RegisterFile::new(stack_pointer);
        let system = System::new(flags.syscalls_conf);
        EmulatorContext {
            memory,
            system,
            watchdog,
            registers,
            program_counter: VecDeque::new(),
            stop_pc: None,
        }
    }

    pub fn get_system(&self) -> (s: &System)
        ensures
            s == self.spec_system(),
    {
        &self.system
    }

    pub fn registers(&self) -> (r: &RegisterFile)
        ensures
            r == self.spec_registers(),
    {
        &self.registers
    }

    pub fn memory(&self) -> (m: &Memory)
        ensures
            m == self.spec_memory(),
    {
        &self.memory
    }

    /// Queues the entry point, from where `step` or `run` take over.
    pub fn run_program(&mut self, entry_point: u32)
        ensures
            final(self).wf() == old(self).wf(),
            final(self).spec_queue() == seq![entry_point],
            final(self).spec_stop_pc() is None,
            final(self).spec_memory() == old(self).spec_memory(),
            final(self).spec_registers() == old(self).spec_registers(),
            final(self).spec_watchdog() == old(self).spec_watchdog(),
            final(self).spec_system() == old(self).spec_system(),
    {
        self.program_counter.clear();
        self.program_counter.push_back(entry_point);
        self.stop_pc = None;
        proof {
            assert(self.program_counter@ =~= seq![entry_point]);
        }
    }

    /// Performs one iteration of the control loop: pop the next PC, run
    /// the watchdog, fetch and evaluate the instruction, interpret its
    /// event against the queue — or hand a host action back to the
    /// embedder. The exact behaviour is pinned by `step_rel`.
    pub fn step(&mut self) -> (r: Result<StepOutcome, CpuError>)
        requires
            old(self).wf(),
        ensures
            final(self).wf(),
            step_rel(*old(self), *final(self), r),
    {
        let ghost c0 = *old(self);
        if self.program_counter.len() == 0 {
            return Ok(StepOutcome::Exited);
        }
        let pc = match self.program_counter.pop_front() {
            Some(p) => p,
            None => {
                return Ok(StepOutcome::Exited);
            },
        };
        proof {
            assert(self.program_counter@ =~= c0.spec_queue().skip(1));
        }
        if let Some(s) = self.stop_pc {
            if s == pc {
                return Ok(StepOutcome::Exited);
            }
        }
        self.registers.set_pc(pc);
        let ghost rp = self.registers;
        match self.watchdog.run_cpu_watchdogs(&mut self.registers, &self.memory) {
            Err(e) => {
                proof {
                    assert(pc_set(c0.spec_registers(), rp, pc) && wd_step(
                        c0.spec_watchdog(),
                        rp,
                        c0.spec_memory(),
                        self.spec_watchdog(),
                        self.spec_registers(),
                        Err(e),
                    ));
                }
                return Err(e);
            },
            Ok(()) => {},
        }
        let ghost w1 = self.spec_watchdog();
        let ghost rw = self.spec_registers();
        proof {
            assert(pc_set(c0.spec_registers(), rp, pc) && wd_step(
                c0.spec_watchdog(),
                rp,
                c0.spec_memory(),
                w1,
                rw,
                Ok(()),
            ));
        }
        let word = self.memory.fetch_instruction(pc);
        let r = match eval_instruction(word, &mut self.registers, &mut self.memory) {
            Err(e) => {
                proof {
                    assert(instr_step(
                        word,
                        rw,
                        c0.spec_memory(),
                        self.spec_registers(),
                        self.spec_memory(),
                        Err(e),
                    ));
                }
                Err(e)
            },
            Ok(InstrOutcome::Event(ev)) => {
                let ghost r2 = self.spec_registers();
                let ghost m2 = self.spec_memory();
                proof {
                    assert(instr_step(word, rw, c0.spec_memory(), r2, m2, Ok(
                        InstrOutcome::Event(ev),
                    )));
                }
                if matches!(ev, CPUEvent::AtomicLoadModifyWriteBegan) {
                    self.watchdog.atomic_read_modify_write_began();
                    proof {
                        assert(gap_opened(w1, self.spec_watchdog()));
                    }
                }
                let ghost q_mid = self.program_counter@;
                match schedule_event(&mut self.program_counter, pc, &ev) {
                    Err(e) => {
                        proof {
                            assert(schedule_rel(q_mid, self.program_counter@, pc, ev, Err(e)));
                        }
                        Err(e)
                    },
                    Ok(true) => {
                        proof {
                            assert(schedule_rel(
                                q_mid,
                                self.program_counter@,
                                pc,
                                ev,
                                Ok(true),
                            ));
                        }
                        Ok(StepOutcome::Exited)
                    },
                    Ok(false) => {
                        proof {
                            assert(schedule_rel(
                                q_mid,
                                self.program_counter@,
                                pc,
                                ev,
                                Ok(false),
                            ));
                        }
                        Ok(StepOutcome::Continue)
                    },
                }
            },
            Ok(InstrOutcome::Syscall) => {
                let ghost r2 = self.spec_registers();
                let ghost m2 = self.spec_memory();
                proof {
                    assert(instr_step(word, rw, c0.spec_memory(), r2, m2, Ok(
                        InstrOutcome::Syscall,
                    )));
                }
                match self.system.eval_syscall(&mut self.registers, &mut self.memory) {
                    Err(e) => {
                        proof {
                            assert(syscall_step(
                                c0.spec_system(),
                                r2,
                                m2,
                                self.spec_system(),
                                self.spec_registers(),
                                self.spec_memory(),
                                Err(e),
                            ));
                        }
                        Err(e)
                    },
                    Ok(SyscallOutcome::Done(ev)) => {
                        let ghost s1 = self.spec_system();
                        let ghost r3 = self.spec_registers();
                        let ghost m3 = self.spec_memory();
                        proof {
                            assert(syscall_step(c0.spec_system(), r2, m2, s1, r3, m3, Ok(
                                SyscallOutcome::Done(ev),
                            )));
                        }
                        let ghost q_mid = self.program_counter@;
                        match schedule_event(&mut self.program_counter, pc, &ev) {
                            Err(e) => {
                                proof {
                                    assert(schedule_rel(
                                        q_mid,
                                        self.program_counter@,
                                        pc,
                                        ev,
                                        Err(e),
                                    ));
                                }
                                Err(e)
                            },
                            Ok(true) => {
                                proof {
                                    assert(schedule_rel(
                                        q_mid,
                                        self.program_counter@,
                                        pc,
                                        ev,
                                        Ok(true),
                                    ));
                                }
                                Ok(StepOutcome::Exited)
                            },
                            Ok(false) => {
                                proof {
                                    assert(schedule_rel(
                                        q_mid,
                                        self.program_counter@,
                                        pc,
                                        ev,
                                        Ok(false),
                                    ));
                                }
                                Ok(StepOutcome::Continue)
                            },
                        }
                    },
                    Ok(SyscallOutcome::Host(call)) => {
                        proof {
                            assert(syscall_step(
                                c0.spec_system(),
                                r2,
                                m2,
                                self.spec_system(),
                                self.spec_registers(),
                                self.spec_memory(),
                                Ok(SyscallOutcome::Host(call)),
                            ));
                        }
                        Ok(StepOutcome::Host(call))
                    },
                }
            },
        };
        r
    }

    /// Completes a pending host call with the embedder's reply and
    /// interprets the resulting event, per `finish_rel`.
    pub fn finish_host(&mut self, call: &HostCall, reply: Result<HostOk, u32>) -> (r: Result<
        StepOutcome,
        CpuError,
    >)
        requires
            old(self).wf(),
        ensures
            final(self).wf(),
            finish_rel(*old(self), *call, reply, *final(self), r),
    {
        let pc = self.registers.get_pc();
        match finish_syscall(call, reply, &mut self.registers, &mut self.memory) {
            Err(e) => Err(e),
            Ok(ev) => {
                match schedule_event(&mut self.program_counter, pc, &ev) {
                    Err(e) => Err(e),
                    Ok(true) => Ok(StepOutcome::Exited),
                    Ok(false) => Ok(StepOutcome::Continue),
                }
            },
        }
    }

    /// Steps the machine up to `fuel` times, stopping at a guest exit, a
    /// required host action, or a fault.
    pub fn run(&mut self, fuel: u64) -> (r: Result<RunOutcome, CpuError>)
        requires
            old(self).wf(),
        ensures
            final(self).wf(),
            run_ensures(*old(self), *final(self), fuel, r),
    {
        let mut i: u64 = 0;
        while i < fuel
            invariant
                self.wf(),
                0 <= i <= fuel,
                steps(*old(self), *self, i as nat),
            decreases fuel - i,
        {
            let ghost prev = *self;
            let ghost steps_so_far = i as nat;
            match self.step() {
                Err(e) => {
                    return Err(e);
                },
                Ok(StepOutcome::Exited) => {
                    return Ok(RunOutcome::Exited);
                },
                Ok(StepOutcome::Host(call)) => {
                    return Ok(RunOutcome::NeedsHost(call));
                },
                Ok(StepOutcome::Continue) => {},
            }
            proof {
                assert(steps(*old(self), prev, steps_so_far) && step_rel(
                    prev,
                    *self,
                    Ok(StepOutcome::Continue),
                ));
                assert(steps(*old(self), *self, steps_so_far + 1));
            }
            i = i + 1;
        }
        Ok(RunOutcome::OutOfFuel)
    }

    /// Prepares a nested guest-function invocation: a fresh register
    /// file below the current stack, the first four arguments in a0..a3
    /// and all of them spilled to the stack, the sentinel return address
    /// in r31, and the function's address queued — then runs it until
    /// the sentinel is reached or the fuel runs out.
    pub fn run_function(&mut self, func: u32, arguments: &Vec<u32>, fuel: u64) -> (r: Result<
        RunOutcome,
        CpuError,
    >)
        requires
            old(self).wf(),
            arguments@.len() < 0x1000_0000,
        ensures
            final(self).wf(),
            ({
                let sp = function_entry_sp(*old(self), arguments@.len() as int);
                if sp as int + 4 * arguments@.len() > 0x1_0000_0000 {
                    *final(self) == *old(self) && r == Err::<RunOutcome, CpuError>(
                        CpuError::AddressOverflow(sp),
                    )
                } else {
                    exists|cs: EmulatorContext|
                        {
                            &&& #[trigger] run_function_setup(*old(self), cs, func, arguments@)
                            &&& run_ensures(cs, *final(self), fuel, r)
                        }
                }
            }),
    {
        let sp_old = self.registers.read_register(crate::registers::STACK_POINTER);
        let new_sp = sp_old.wrapping_sub(16).wrapping_sub(arguments.len() as u32);
        if new_sp as u64 + 4 * (arguments.len() as u64) > 0x1_0000_0000u64 {
            return Err(CpuError::AddressOverflow(new_sp));
        }
        crate::memory::write_words(&mut self.memory, new_sp, arguments);
        let mut registers = RegisterFile::new(new_sp);
        let count = if arguments.len() < 4 {
            arguments.len()
        } else {
            4
        };
        let mut i: usize = 0;
        while i < count
            invariant
                registers.wf(),
                0 <= i <= count,
                count == if arguments@.len() < 4 {
                    arguments@.len() as int
                } else {
                    4
                },
                arg_regs_from(
                    Seq::new(31, |j: int| 0u32).update(
                        crate::registers::STACK_POINTER as int - 1,
                        new_sp,
                    ),
                    arguments@,
                    0,
                    count as int,
                ) == arg_regs_from(registers.spec_gpr(), arguments@, i as int, count as int),
                registers.spec_pc() == 0,
                registers.spec_hi() == 0,
                registers.spec_lo() == 0,
                forall|j: int| 0 <= j < 32 ==> registers.spec_fpr()[j] == 0u32,
            decreases count - i,
        {
            registers.write_register(crate::registers::A0 + (i as u32), arguments[i]);
            i = i + 1;
        }
        registers.write_register(crate::registers::RETURN_ADDRESS, FUNCTION_RETURN_SENTINEL);
        self.registers = registers;
        self.program_counter.clear();
        self.program_counter.push_back(func);
        self.stop_pc = Some(FUNCTION_RETURN_SENTINEL);
        proof {
            assert(self.program_counter@ =~= seq![func]);
            assert(run_function_setup(*old(self), *self, func, arguments@));
        }
        let ghost cs = *self;
        let res = self.run(fuel);
        proof {
            assert(run_ensures(cs, *self, fuel, res));
        }
        res
    }
}

/// The sentinel return address a nested guest-function invocation runs
/// until.
pub const FUNCTION_RETURN_SENTINEL: u32 = 0x4;

/// `r1` is `r0` with only the program counter moved to `pc`.
pub open spec fn pc_set(r0: RegisterFile, r1: RegisterFile, pc: u32) -> bool {
    &&& r1.spec_gpr() == r0.spec_gpr()
    &&& r1.spec_fpr() == r0.spec_fpr()
    &&& r1.spec_pc() == pc
    &&& r1.spec_hi() == r0.spec_hi()
    &&& r1.spec_lo() == r0.spec_lo()
}

/// `c1` is assembled from the given parts, with everything else carried
/// over from `c0`.
pub open spec fn ctx_parts(
    c0: EmulatorContext,
    c1: EmulatorContext,
    mem: Memory,
    sys: System,
    wd: Watchdog,
    regs: RegisterFile,
    queue: Seq<u32>,
) -> bool {
    &&& c1.spec_memory() == mem
    &&& c1.spec_system() == sys
    &&& c1.spec_watchdog() == wd
    &&& c1.spec_registers() == regs
    &&& c1.spec_queue() == queue
    &&& c1.spec_stop_pc() == c0.spec_stop_pc()
}

/// The watchdog after a trace gap is opened.
pub open spec fn gap_opened(w0: Watchdog, w1: Watchdog) -> bool {
    &&& w1.spec_instruction_number() == w0.spec_instruction_number()
    &&& w1.spec_nop_count() == w0.spec_nop_count()
    &&& w1.spec_trace() == w0.spec_trace()
    &&& w1.spec_flags() == w0.spec_flags()
    &&& w1.spec_trace_gap() == (w0.spec_trace() is Some || w0.spec_trace_gap())
}

/// The exact behaviour of one control-loop step: how the popped PC runs
/// through the watchdog, the instruction executor and (for a syscall)
/// the system-call layer, and how the resulting event moves the queue.
/// The intermediate machine states are existentially bound and pinned by
/// the phase relations they satisfy.
pub open spec fn step_rel(
    c0: EmulatorContext,
    c1: EmulatorContext,
    r: Result<StepOutcome, CpuError>,
) -> bool {
    let q = c0.spec_queue();
    if q.len() == 0 {
        c1 == c0 && r == Ok::<StepOutcome, CpuError>(StepOutcome::Exited)
    } else {
        let pc = q[0];
        if c0.spec_stop_pc() == Some(pc) {
            &&& ctx_parts(
                c0,
                c1,
                c0.spec_memory(),
                c0.spec_system(),
                c0.spec_watchdog(),
                c0.spec_registers(),
                q.skip(1),
            )
            &&& r == Ok::<StepOutcome, CpuError>(StepOutcome::Exited)
        } else {
            exists|rp: RegisterFile, w1: Watchdog, rw: RegisterFile, wres: Result<(), CpuError>|
                {
                    &&& pc_set(c0.spec_registers(), rp, pc)
                    &&& #[trigger] wd_step(c0.spec_watchdog(), rp, c0.spec_memory(), w1, rw, wres)
                    &&& match wres {
                        Err(e) => {
                            &&& ctx_parts(
                                c0,
                                c1,
                                c0.spec_memory(),
                                c0.spec_system(),
                                w1,
                                rw,
                                q.skip(1),
                            )
                            &&& r == Err::<StepOutcome, CpuError>(e)
                        },
                        Ok(()) => step_after_watchdog(c0, c1, r, pc, w1, rw, q.skip(1)),
                    }
                }
        }
    }
}

/// The part of a step after the watchdog pass: instruction evaluation
/// and event interpretation.
pub open spec fn step_after_watchdog(
    c0: EmulatorContext,
    c1: EmulatorContext,
    r: Result<StepOutcome, CpuError>,
    pc: u32,
    w1: Watchdog,
    rw: RegisterFile,
    q: Seq<u32>,
) -> bool {
    let word = word_at(c0.spec_memory()@, c0.spec_memory().spec_endianness(), pc as int);
    exists|r2: RegisterFile, m2: Memory, iout: Result<InstrOutcome, CpuError>|
        {
            &&& #[trigger] instr_step(word, rw, c0.spec_memory(), r2, m2, iout)
            &&& match iout {
                Err(e) => {
                    &&& ctx_parts(c0, c1, m2, c0.spec_system(), w1, r2, q)
                    &&& r == Err::<StepOutcome, CpuError>(e)
                },
                Ok(InstrOutcome::Event(ev)) => {
                    if ev is AtomicLoadModifyWriteBegan {
                        exists|w2: Watchdog|
                            #[trigger] gap_opened(w1, w2) && step_scheduled(
                                c0,
                                c1,
                                r,
                                pc,
                                w2,
                                r2,
                                m2,
                                c0.spec_system(),
                                q,
                                ev,
                            )
                    } else {
                        step_scheduled(c0, c1, r, pc, w1, r2, m2, c0.spec_system(), q, ev)
                    }
                },
                Ok(InstrOutcome::Syscall) => exists|
                    s1: System,
                    r3: RegisterFile,
                    m3: Memory,
                    sout: Result<SyscallOutcome, CpuError>,
                |
                    {
                        &&& #[trigger] syscall_step(c0.spec_system(), r2, m2, s1, r3, m3, sout)
                        &&& match sout {
                            Err(e) => {
                                &&& ctx_parts(c0, c1, m3, s1, w1, r3, q)
                                &&& r == Err::<StepOutcome, CpuError>(e)
                            },
                            Ok(SyscallOutcome::Done(ev)) => step_scheduled(
                                c0,
                                c1,
                                r,
                                pc,
                                w1,
                                r3,
                                m3,
                                s1,
                                q,
                                ev,
                            ),
                            Ok(SyscallOutcome::Host(call)) => {
                                &&& ctx_parts(c0, c1, m3, s1, w1, r3, q)
                                &&& r == Ok::<StepOutcome, CpuError>(StepOutcome::Host(call))
                            },
                        }
                    },
            }
        }
}

/// The final phase of a step: the event is interpreted against the
/// queue.
pub open spec fn step_scheduled(
    c0: EmulatorContext,
    c1: EmulatorContext,
    r: Result<StepOutcome, CpuError>,
    pc: u32,
    wd: Watchdog,
    regs: RegisterFile,
    mem: Memory,
    sys: System,
    q: Seq<u32>,
    ev: CPUEvent,
) -> bool {
    exists|q1: Seq<u32>, sres: Result<bool, CpuError>|
        {
            &&& #[trigger] schedule_rel(q, q1, pc, ev, sres)
            &&& ctx_parts(c0, c1, mem, sys, wd, regs, q1)
            &&& match sres {
                Err(e) => r == Err::<StepOutcome, CpuError>(e),
                Ok(true) => r == Ok::<StepOutcome, CpuError>(StepOutcome::Exited),
                Ok(false) => r == Ok::<StepOutcome, CpuError>(StepOutcome::Continue),
            }
        }
}

/// The exact behaviour of completing a pending host call: the reply is
/// marshalled back by `finish_step` and the resulting event moves the
/// queue.
pub open spec fn finish_rel(
    c0: EmulatorContext,
    call: HostCall,
    reply: Result<HostOk, u32>,
    c1: EmulatorContext,
    r: Result<StepOutcome, CpuError>,
) -> bool {
    exists|r1: RegisterFile, m1: Memory, fout: Result<CPUEvent, CpuError>|
        {
            &&& #[trigger] finish_step(
                call,
                reply,
                c0.spec_registers(),
                c0.spec_memory(),
                r1,
                m1,
                fout,
            )
            &&& match fout {
                Err(e) => {
                    &&& ctx_parts(
                        c0,
                        c1,
                        m1,
                        c0.spec_system(),
                        c0.spec_watchdog(),
                        r1,
                        c0.spec_queue(),
                    )
                    &&& r == Err::<StepOutcome, CpuError>(e)
                },
                Ok(ev) => step_scheduled(
                    c0,
                    c1,
                    r,
                    c0.spec_registers().spec_pc(),
                    c0.spec_watchdog(),
                    r1,
                    m1,
                    c0.spec_system(),
                    c0.spec_queue(),
                    ev,
                ),
            }
        }
}

/// `c1` is reached from `c0` by `n` steps that all continue.
pub open spec fn steps(c0: EmulatorContext, c1: EmulatorContext, n: nat) -> bool
    decreases n,
{
    if n == 0 {
        c1 == c0
    } else {
        exists|cm: EmulatorContext|
            steps(c0, cm, (n - 1) as nat) && #[trigger] step_rel(
                cm,
                c1,
                Ok(StepOutcome::Continue),
            )
    }
}

/// What a bounded run promises: the final state is reached by plain
/// steps, with the reported outcome produced by the last one.
pub open spec fn run_ensures(
    c0: EmulatorContext,
    c1: EmulatorContext,
    fuel: u64,
    r: Result<RunOutcome, CpuError>,
) -> bool {
    match r {
        Ok(RunOutcome::OutOfFuel) => steps(c0, c1, fuel as nat),
        Ok(RunOutcome::Exited) => exists|n: nat, cm: EmulatorContext|
            n < fuel && #[trigger] steps(c0, cm, n) && step_rel(
                cm,
                c1,
                Ok(StepOutcome::Exited),
            ),
        Ok(RunOutcome::NeedsHost(call)) => exists|n: nat, cm: EmulatorContext|
            n < fuel && #[trigger] steps(c0, cm, n) && step_rel(
                cm,
                c1,
                Ok(StepOutcome::Host(call)),
            ),
        Err(e) => exists|n: nat, cm: EmulatorContext|
            n < fuel && #[trigger] steps(c0, cm, n) && step_rel(cm, c1, Err(e)),
    }
}

/// The stack pointer a nested function invocation starts from.
pub open spec fn function_entry_sp(c0: EmulatorContext, nargs: int) -> u32 {
    wadd(
        wadd(rr(c0.spec_registers(), crate::registers::STACK_POINTER), crate::instructions::neg32(16)),
        crate::instructions::neg32(nargs as u32),
    )
}

/// The register bank of a nested invocation after the first `count`
/// arguments from index `i` on are placed in the a-registers.
pub open spec fn arg_regs_from(g: Seq<u32>, args: Seq<u32>, i: int, count: int) -> Seq<u32>
    decreases count - i,
    when 0 <= i <= count <= 4 && count <= args.len()
{
    if i >= count {
        g
    } else {
        arg_regs_from(
            crate::registers::reg_written(g, crate::registers::A0 as int + i, args[i]),
            args,
            i + 1,
            count,
        )
    }
}

/// The machine `cs` is `c0` prepared for a nested guest-function
/// invocation: the arguments spilled below the old stack, a fresh
/// register file with the first four arguments in a0..a3 and the
/// sentinel in r31, and the function's address queued.
pub open spec fn run_function_setup(
    c0: EmulatorContext,
    cs: EmulatorContext,
    func: u32,
    args: Seq<u32>,
) -> bool {
    let sp = function_entry_sp(c0, args.len() as int);
    let count = if args.len() < 4 {
        args.len() as int
    } else {
        4
    };
    let base = Seq::new(31, |j: int| 0u32).update(
        crate::registers::STACK_POINTER as int - 1,
        sp,
    );
    {
        &&& cs.spec_memory()@ == crate::memory::words_written(
            c0.spec_memory()@,
            c0.spec_memory().spec_endianness(),
            sp as int,
            args,
        )
        &&& cs.spec_memory().spec_endianness() == c0.spec_memory().spec_endianness()
        &&& cs.spec_memory().spec_break() == c0.spec_memory().spec_break()
        &&& cs.spec_registers().spec_gpr() == crate::registers::reg_written(
            arg_regs_from(base, args, 0, count),
            crate::registers::RETURN_ADDRESS as int,
            FUNCTION_RETURN_SENTINEL,
        )
        &&& cs.spec_registers().spec_pc() == 0
        &&& cs.spec_registers().spec_hi() == 0
        &&& cs.spec_registers().spec_lo() == 0
        &&& cs.spec_queue() == seq![func]
        &&& cs.spec_stop_pc() == Some(FUNCTION_RETURN_SENTINEL)
        &&& cs.spec_watchdog() == c0.spec_watchdog()
        &&& cs.spec_system() == c0.spec_system()
    }
}

} // verus!
