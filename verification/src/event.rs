//! The outcome of evaluating a single instruction, and the fatal faults
//! that stop the emulator. Events are internal to the emulator and not
//! related to exceptions of the modelled processor.

use vstd::prelude::*;

verus! {

#[derive(Clone, Copy, PartialEq, Eq, Structural, Debug)]
pub enum CPUEvent {
    Nothing,
    Exit,
    AtomicLoadModifyWriteBegan,
    Fork(u32),
    /// A control transfer without a delay slot (reserved for compact
    /// branches).
    FlowChangeImmediate(u32),
    /// A control transfer that architecturally executes the instruction
    /// in the delay slot first.
    FlowChangeDelayed(u32),
}

/// A structural failure. The emulator does not model the processor's
/// trap architecture, so each of these ends the run with a diagnostic.
#[derive(Clone, Copy, PartialEq, Eq, Structural, Debug)]
pub enum CpuError {
    /// Unknown opcode, function code or sub-code; carries the word.
    DecodeError(u32),
    /// A recognised instruction outside the supported subset.
    UnimplementedInstruction(u32),
    /// Signed overflow on a trapping arithmetic instruction.
    ArithmeticOverflow,
    DivisionByZero,
    /// A conditional trap instruction whose condition held.
    TrapTriggered,
    Breakpoint,
    /// An indirect jump to a target that is not word-aligned.
    MisalignedJump(u32),
    /// A multi-byte access that would run past the end of the 32-bit
    /// address space.
    AddressOverflow(u32),
    /// The program counter reached zero.
    JumpToZero,
    /// More consecutive no-operation fetches than the watchdog allows.
    TooManyNops,
    /// Live execution ran past the end of the reference trace.
    TraceTooShort,
    /// The program counter left the reference trace.
    TraceDiverged { expected: u32, found: u32 },
    /// A register read returned a value the trace contradicts.
    RegisterReadMismatch { register: u32, expected: u32, found: u32 },
    /// A register write stored a value the trace contradicts.
    RegisterWriteMismatch { register: u32, expected: u32, found: u32 },
    /// A register held a value the trace contradicts after an
    /// instruction retired.
    RegisterValueMismatch { register: u32, expected: u32, found: u32 },
    /// A control transfer was requested while another was pending.
    FlowConflict,
    /// The embedder answered a host request with a payload of the wrong
    /// shape.
    HostReplyMismatch,
    /// A system-call number outside the O32 table.
    UnknownSyscall(u32),
    /// A recognised system call with no implementation.
    UnimplementedSyscall(u32),
}

} // verus!
