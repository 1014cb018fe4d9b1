//! The execution watchdog: a null-PC guard, a run-of-NOPs guard, and the
//! comparison of live execution against a reference instruction trace,
//! with a trace-gap window around host actions the trace cannot follow.

use vstd::prelude::*;

use crate::control::CPUFlagsWatchdog;
use crate::event::CpuError;
use crate::memory::{word_at, Memory};
use crate::registers::{reg_written, RegisterFile};

verus! {

/// One reference trace entry: the address of a retired instruction and
/// the register values the trace expects, as index and value pairs.
pub struct InstructionRecord {
    pub address: u32,
    pub registers: Vec<(u32, u32)>,
}

/// The first value paired with `k` in `s`, scanning from index `i`.
pub open spec fn lookup_from(s: Seq<(u32, u32)>, k: u32, i: int) -> Option<u32>
    decreases s.len() - i,
    when 0 <= i <= s.len()
{
    if i >= s.len() {
        None
    } else if s[i].0 == k {
        Some(s[i].1)
    } else {
        lookup_from(s, k, i + 1)
    }
}

/// The expected value of register `k` in the pair list `s`.
pub open spec fn lookup_reg(s: Seq<(u32, u32)>, k: u32) -> Option<u32> {
    lookup_from(s, k, 0)
}

/// Finds the expected value of register `reg` in a record's pair list.
pub fn lookup_register(pairs: &Vec<(u32, u32)>, reg: u32) -> (r: Option<u32>)
    ensures
        r == lookup_reg(pairs@, reg),
{
    let n = pairs.len();
    let mut i: usize = 0;
    while i < n
        invariant
            n == pairs@.len(),
            0 <= i <= n,
            lookup_reg(pairs@, reg) == lookup_from(pairs@, reg, i as int),
        decreases n - i,
    {
        let (k, v) = pairs[i];
        if k == reg {
            return Some(v);
        }
        i = i + 1;
    }
    None
}

/// The registers the watchdog never holds to the trace, because library
/// code scratches them freely.
pub open spec fn volatile_reg(r: u32) -> bool {
    r == 1 || (8 <= r && r <= 15) || (24 <= r && r <= 27)
}

pub fn is_volatile_reg(r: u32) -> (b: bool)
    ensures
        b == volatile_reg(r),
{
    r == 1 || (8 <= r && r <= 15) || (24 <= r && r <= 27)
}

/// The register bank after the bootstrap overwrite: every non-volatile
/// in-range register named by the record is forced to the trace's value,
/// in record order, from entry `i` on.
pub open spec fn bootstrap_from(g: Seq<u32>, entries: Seq<(u32, u32)>, i: int) -> Seq<u32>
    decreases entries.len() - i,
    when 0 <= i <= entries.len()
{
    if i >= entries.len() {
        g
    } else {
        let (reg, val) = entries[i];
        if volatile_reg(reg) || reg >= 32 {
            bootstrap_from(g, entries, i + 1)
        } else {
            bootstrap_from(reg_written(g, reg as int, val), entries, i + 1)
        }
    }
}

/// The first non-volatile in-range register from entry `i` on whose live
/// value disagrees with the record: the register, the expected value and
/// the live value.
pub open spec fn first_mismatch_from(g: Seq<u32>, entries: Seq<(u32, u32)>, i: int) -> Option<
    (u32, u32, u32),
>
    decreases entries.len() - i,
    when 0 <= i <= entries.len()
{
    if i >= entries.len() {
        None
    } else {
        let (reg, val) = entries[i];
        if volatile_reg(reg) || reg >= 32 {
            first_mismatch_from(g, entries, i + 1)
        } else if crate::registers::reg_read(g, reg as int) != val {
            Some((reg, val, crate::registers::reg_read(g, reg as int)))
        } else {
            first_mismatch_from(g, entries, i + 1)
        }
    }
}

pub struct Watchdog {
    instruction_number: usize,
    real_trace: Option<Vec<InstructionRecord>>,
    nop_count: usize,
    trace_gap: bool,
    flags: CPUFlagsWatchdog,
}

/// What `check_read` decides: nothing is checked without the read flag,
/// inside a trace gap, without a trace, or before the first instruction;
/// otherwise the value read must match the previous record where that
/// record names the register, and a mismatch is fatal only when the
/// escalation flag asks for it.
pub open spec fn check_read_spec(w: Watchdog, reg: u32, val: u32) -> Result<(), CpuError> {
    if !w.spec_flags().trace_checked_register_reads || w.spec_trace_gap() {
        Ok(())
    } else {
        match w.spec_trace() {
            None => Ok(()),
            Some(t) => {
                if w.spec_instruction_number() == 0 || w.spec_instruction_number() > t.len() {
                    Err(CpuError::TraceTooShort)
                } else {
                    match lookup_reg(t[w.spec_instruction_number() - 1].registers@, reg) {
                        None => Ok(()),
                        Some(expected) => {
                            if expected != val && w.spec_flags().trace_panic_on_invalid_read {
                                Err(
                                    CpuError::RegisterReadMismatch {
                                        register: reg,
                                        expected,
                                        found: val,
                                    },
                                )
                            } else {
                                Ok(())
                            }
                        },
                    }
                }
            },
        }
    }
}

/// What `check_write` decides, against the upcoming record.
pub open spec fn check_write_spec(w: Watchdog, reg: u32, val: u32) -> Result<(), CpuError> {
    if !w.spec_flags().trace_checked_register_writes || w.spec_trace_gap() {
        Ok(())
    } else {
        match w.spec_trace() {
            None => Ok(()),
            Some(t) => {
                if w.spec_instruction_number() >= t.len() {
                    Ok(())
                } else {
                    match lookup_reg(t[w.spec_instruction_number() as int].registers@, reg) {
                        None => Ok(()),
                        Some(expected) => {
                            if expected != val && w.spec_flags().trace_panic_on_invalid_write {
                                Err(
                                    CpuError::RegisterWriteMismatch {
                                        register: reg,
                                        expected,
                                        found: val,
                                    },
                                )
                            } else {
                                Ok(())
                            }
                        },
                    }
                }
            },
        }
    }
}

impl Watchdog {
    pub closed spec fn spec_instruction_number(&self) -> int {
        self.instruction_number as int
    }

    pub closed spec fn spec_trace(&self) -> Option<Seq<InstructionRecord>> {
        match self.real_trace {
            Some(ref t) => Some(t@),
            None => None,
        }
    }

    pub closed spec fn spec_nop_count(&self) -> int {
        self.nop_count as int
    }

    pub closed spec fn spec_trace_gap(&self) -> bool {
        self.trace_gap
    }

    pub closed spec fn spec_flags(&self) -> CPUFlagsWatchdog {
        self.flags
    }

    /// A fresh watchdog over an optional reference trace.
    pub fn new(real_trace: Option<Vec<InstructionRecord>>, flags: CPUFlagsWatchdog) -> (w: Watchdog)
        ensures
            w.spec_instruction_number() == 0,
            w.spec_nop_count() == 0,
            !w.spec_trace_gap(),
            w.spec_flags() == flags,
            match real_trace {
                Some(t) => w.spec_trace() == Some(t@),
                None => w.spec_trace() is None,
            },
    {
        Watchdog { instruction_number: 0, real_trace, nop_count: 0, trace_gap: false, flags }
    }

    /// Checks a value read from a register against the previous trace
    /// record, per `check_read_spec`.
    pub fn check_read(&self, reg: u32, val: u32) -> (r: Result<(), CpuError>)
        ensures
            r == check_read_spec(*self, reg, val),
    {
        if !self.flags.trace_checked_register_reads || self.trace_gap {
            return Ok(());
        }
        match &self.real_trace {
            None => Ok(()),
            Some(t) => {
                if self.instruction_number == 0 || self.instruction_number > t.len() {
                    Err(CpuError::TraceTooShort)
                } else {
                    let rec = &t[self.instruction_number - 1];
                    match lookup_register(&rec.registers, reg) {
                        None => Ok(()),
                        Some(expected) => {
                            if expected != val && self.flags.trace_panic_on_invalid_read {
                                Err(
                                    CpuError::RegisterReadMismatch {
                                        register: reg,
                                        expected,
                                        found: val,
                                    },
                                )
                            } else {
                                Ok(())
                            }
                        },
                    }
                }
            },
        }
    }

    /// Checks a value about to be stored into a register against the
    /// upcoming trace record, per `check_write_spec`.
    pub fn check_write(&self, reg: u32, val: u32) -> (r: Result<(), CpuError>)
        ensures
            r == check_write_spec(*self, reg, val),
    {
        if !self.flags.trace_checked_register_writes || self.trace_gap {
            return Ok(());
        }
        match &self.real_trace {
            None => Ok(()),
            Some(t) => {
                if self.instruction_number >= t.len() {
                    Ok(())
                } else {
                    let rec = &t[self.instruction_number];
                    match lookup_register(&rec.registers, reg) {
                        None => Ok(()),
                        Some(expected) => {
                            if expected != val && self.flags.trace_panic_on_invalid_write {
                                Err(
                                    CpuError::RegisterWriteMismatch {
                                        register: reg,
                                        expected,
                                        found: val,
                                    },
                                )
                            } else {
                                Ok(())
                            }
                        },
                    }
                }
            },
        }
    }

    /// Opens a trace gap: an atomic read-modify-write block is under way
    /// and the reference trace is known not to follow it.
    pub fn atomic_read_modify_write_began(&mut self)
        ensures
            final(self).spec_instruction_number() == old(self).spec_instruction_number(),
            final(self).spec_nop_count() == old(self).spec_nop_count(),
            final(self).spec_trace() == old(self).spec_trace(),
            final(self).spec_flags() == old(self).spec_flags(),
            final(self).spec_trace_gap() == (old(self).spec_trace() is Some
                || old(self).spec_trace_gap()),
    {
        if self.real_trace.is_some() {
            self.trace_gap = true;
        }
    }

    /// Runs the per-instruction guards at the program counter `pc`,
    /// following `wd_step`: the null-PC guard, the run-of-NOPs guard,
    /// the trace-address comparison, and (when configured) the
    /// full-register comparison with its bootstrap overwrite.
    #[verifier::loop_isolation(false)]
    pub fn run_cpu_watchdogs(&mut self, registers: &mut RegisterFile, memory: &Memory) -> (r:
        Result<(), CpuError>)
        requires
            old(registers).wf(),
            memory.wf(),
        ensures
            final(registers).wf(),
            wd_step(
                *old(self),
                *old(registers),
                *memory,
                *final(self),
                *final(registers),
                r,
            ),
    {
        let pc = registers.get_pc();
        if pc == 0 {
            return Err(CpuError::JumpToZero);
        }
        if pc > 0xFFFF_FFFC {
            return Err(CpuError::AddressOverflow(pc));
        }
        let word = memory.fetch_instruction(pc);
        if word == 0 {
            if self.nop_count < 4 {
                self.nop_count = self.nop_count + 1;
            }
        } else {
            self.nop_count = 0;
        }
        if self.nop_count > 3 {
            return Err(CpuError::TooManyNops);
        }
        let has_trace = self.real_trace.is_some();
        if !has_trace {
            return Ok(());
        }
        let trace_len = match &self.real_trace {
            Some(t) => t.len(),
            None => 0,
        };
        if self.instruction_number >= trace_len {
            return Err(CpuError::TraceTooShort);
        }
        let rec_address = match &self.real_trace {
            Some(t) => t[self.instruction_number].address,
            None => 0,
        };
        let matched = pc == rec_address;
        let ghost n0 = self.instruction_number as int;
        if matched {
            if self.trace_gap {
                self.trace_gap = false;
            }
            self.instruction_number = self.instruction_number + 1;
        } else {
            if !self.trace_gap {
                return Err(CpuError::TraceDiverged { expected: rec_address, found: pc });
            }
        }
        if self.flags.trace_full_register_values_check && !self.trace_gap && matched {
            let bootstrap = self.instruction_number <= 3;
            let n = match &self.real_trace {
                Some(t) => t[self.instruction_number - 1].registers.len(),
                None => 0,
            };
            let mut i: usize = 0;
            let ghost w_settled = *self;
            let ghost entries = match self.spec_trace() {
                Some(t) => t[n0].registers@,
                None => Seq::empty(),
            };
            if bootstrap {
                while i < n
                    invariant
                        registers.wf(),
                        0 <= i <= n,
                        *self == w_settled,
                        self.spec_instruction_number() == n0 + 1,
                        self.spec_trace() matches Some(t) && 0 <= n0 < t.len() && entries == t[n0].registers@ && n
                            == entries.len(),
                        bootstrap_from(old(registers).spec_gpr(), entries, 0) == bootstrap_from(
                            registers.spec_gpr(),
                            entries,
                            i as int,
                        ),
                        registers.spec_fpr() == old(registers).spec_fpr(),
                        registers.spec_pc() == old(registers).spec_pc(),
                        registers.spec_hi() == old(registers).spec_hi(),
                        registers.spec_lo() == old(registers).spec_lo(),
                    decreases n - i,
                {
                    let (reg, val) = match &self.real_trace {
                        Some(t) => t[self.instruction_number - 1].registers[i],
                        None => (0, 0),
                    };
                    proof {
                        assert(entries[i as int] == (reg, val));
                    }
                    if !(is_volatile_reg(reg) || reg >= 32) {
                        registers.write_register(reg, val);
                    }
                    i = i + 1;
                }
                proof {
                    assert(bootstrap_from(registers.spec_gpr(), entries, n as int)
                        == registers.spec_gpr());
                }
                Ok(())
            } else {
                while i < n
                    invariant
                        registers.wf(),
                        0 <= i <= n,
                        *self == w_settled,
                        self.spec_instruction_number() == n0 + 1,
                        self.spec_trace() matches Some(t) && 0 <= n0 < t.len() && entries == t[n0].registers@ && n
                            == entries.len(),
                        first_mismatch_from(registers.spec_gpr(), entries, 0)
                            == first_mismatch_from(registers.spec_gpr(), entries, i as int),
                    decreases n - i,
                {
                    let (reg, val) = match &self.real_trace {
                        Some(t) => t[self.instruction_number - 1].registers[i],
                        None => (0, 0),
                    };
                    proof {
                        assert(entries[i as int] == (reg, val));
                    }
                    if !(is_volatile_reg(reg) || reg >= 32) {
                        let live = registers.read_register(reg);
                        if live != val {
                            proof {
                                assert(first_mismatch_from(registers.spec_gpr(), entries, i as int)
                                    == Some((reg, val, live)));
                            }
                            return Err(
                                CpuError::RegisterValueMismatch {
                                    register: reg,
                                    expected: val,
                                    found: live,
                                },
                            );
                        }
                    }
                    i = i + 1;
                }
                proof {
                    assert(first_mismatch_from(registers.spec_gpr(), entries, n as int) is None);
                }
                Ok(())
            }
        } else {
            Ok(())
        }
    }
}

/// The exact effect of the per-instruction watchdog pass at the current
/// program counter: which guard fires, how the trace position, gap flag
/// and NOP counter move, and the bootstrap overwrite of the registers
/// during the first few traced instructions.
pub open spec fn wd_step(
    w0: Watchdog,
    r0: RegisterFile,
    m: Memory,
    w1: Watchdog,
    r1: RegisterFile,
    out: Result<(), CpuError>,
) -> bool {
    let pc = r0.spec_pc();
    if pc == 0 {
        wd_fatal(w0, r0, w1, r1, out, CpuError::JumpToZero)
    } else if pc > 0xFFFF_FFFC {
        wd_fatal(w0, r0, w1, r1, out, CpuError::AddressOverflow(pc))
    } else {
        let word = word_at(m@, m.spec_endianness(), pc as int);
        let nops = if word == 0 {
            if w0.spec_nop_count() < 4 {
                w0.spec_nop_count() + 1
            } else {
                w0.spec_nop_count()
            }
        } else {
            0
        };
        if nops > 3 {
            &&& wd_keep_trace(w0, w1)
            &&& w1.spec_nop_count() == nops
            &&& w1.spec_trace_gap() == w0.spec_trace_gap()
            &&& w1.spec_instruction_number() == w0.spec_instruction_number()
            &&& crate::instructions::regs_same(r0, r1)
            &&& out == Err::<(), CpuError>(CpuError::TooManyNops)
        } else {
            match w0.spec_trace() {
                None => {
                    &&& wd_keep_trace(w0, w1)
                    &&& w1.spec_nop_count() == nops
                    &&& w1.spec_trace_gap() == w0.spec_trace_gap()
                    &&& w1.spec_instruction_number() == w0.spec_instruction_number()
                    &&& crate::instructions::regs_same(r0, r1)
                    &&& out == Ok::<(), CpuError>(())
                },
                Some(t) => {
                    if w0.spec_instruction_number() >= t.len() {
                        &&& wd_keep_trace(w0, w1)
                        &&& w1.spec_nop_count() == nops
                        &&& w1.spec_trace_gap() == w0.spec_trace_gap()
                        &&& w1.spec_instruction_number() == w0.spec_instruction_number()
                        &&& crate::instructions::regs_same(r0, r1)
                        &&& out == Err::<(), CpuError>(CpuError::TraceTooShort)
                    } else {
                        let rec = t[w0.spec_instruction_number()];
                        if pc == rec.address {
                            let n1 = w0.spec_instruction_number() + 1;
                            &&& wd_keep_trace(w0, w1)
                            &&& w1.spec_nop_count() == nops
                            &&& !w1.spec_trace_gap()
                            &&& w1.spec_instruction_number() == n1
                            &&& if w0.spec_flags().trace_full_register_values_check {
                                if n1 <= 3 {
                                    &&& r1.spec_gpr() == bootstrap_from(
                                        r0.spec_gpr(),
                                        rec.registers@,
                                        0,
                                    )
                                    &&& r1.spec_fpr() == r0.spec_fpr()
                                    &&& r1.spec_pc() == r0.spec_pc()
                                    &&& r1.spec_hi() == r0.spec_hi()
                                    &&& r1.spec_lo() == r0.spec_lo()
                                    &&& out == Ok::<(), CpuError>(())
                                } else {
                                    &&& crate::instructions::regs_same(r0, r1)
                                    &&& match first_mismatch_from(r0.spec_gpr(), rec.registers@, 0) {
                                        Some((reg, expected, found)) => out == Err::<(), CpuError>(
                                            CpuError::RegisterValueMismatch {
                                                register: reg,
                                                expected,
                                                found,
                                            },
                                        ),
                                        None => out == Ok::<(), CpuError>(()),
                                    }
                                }
                            } else {
                                &&& crate::instructions::regs_same(r0, r1)
                                &&& out == Ok::<(), CpuError>(())
                            }
                        } else if w0.spec_trace_gap() {
                            &&& wd_keep_trace(w0, w1)
                            &&& w1.spec_nop_count() == nops
                            &&& w1.spec_trace_gap()
                            &&& w1.spec_instruction_number() == w0.spec_instruction_number()
                            &&& crate::instructions::regs_same(r0, r1)
                            &&& out == Ok::<(), CpuError>(())
                        } else {
                            &&& wd_keep_trace(w0, w1)
                            &&& w1.spec_nop_count() == nops
                            &&& !w1.spec_trace_gap()
                            &&& w1.spec_instruction_number() == w0.spec_instruction_number()
                            &&& crate::instructions::regs_same(r0, r1)
                            &&& out == Err::<(), CpuError>(
                                CpuError::TraceDiverged { expected: rec.address, found: pc },
                            )
                        }
                    }
                },
            }
        }
    }
}

/// The watchdog keeps its trace and flags across a step.
pub open spec fn wd_keep_trace(w0: Watchdog, w1: Watchdog) -> bool {
    &&& w1.spec_trace() == w0.spec_trace()
    &&& w1.spec_flags() == w0.spec_flags()
}

/// A guard fired before any state moved.
pub open spec fn wd_fatal(
    w0: Watchdog,
    r0: RegisterFile,
    w1: Watchdog,
    r1: RegisterFile,
    out: Result<(), CpuError>,
    e: CpuError,
) -> bool {
    &&& wd_keep_trace(w0, w1)
    &&& w1.spec_nop_count() == w0.spec_nop_count()
    &&& w1.spec_trace_gap() == w0.spec_trace_gap()
    &&& w1.spec_instruction_number() == w0.spec_instruction_number()
    &&& crate::instructions::regs_same(r0, r1)
    &&& out == Err::<(), CpuError>(e)
}

/// Trace equivalence: whenever a watchdog pass succeeds with a trace
/// loaded, the fetched instruction's address equals the next trace
/// record's address, unless a declared trace gap is open; and a gap
/// closes exactly when the addresses meet again.
pub proof fn lemma_trace_alignment(
    w0: Watchdog,
    r0: RegisterFile,
    m: Memory,
    w1: Watchdog,
    r1: RegisterFile,
    t: Seq<InstructionRecord>,
)
    requires
        wd_step(w0, r0, m, w1, r1, Ok(())),
        w0.spec_trace() == Some(t),
    ensures
        0 <= w0.spec_instruction_number() < t.len(),
        r0.spec_pc() == t[w0.spec_instruction_number()].address || w0.spec_trace_gap(),
        r0.spec_pc() == t[w0.spec_instruction_number()].address ==> {
            &&& w1.spec_instruction_number() == w0.spec_instruction_number() + 1
            &&& !w1.spec_trace_gap()
        },
{
}

} // verus!
