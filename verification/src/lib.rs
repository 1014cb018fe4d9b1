//! A user-space emulator core for a 32-bit MIPS processor: flat guest
//! memory with endian-aware access, a register file, an instruction
//! decoder and executor with branch-delay-slot flow control, a system-call
//! translation layer, and an execution watchdog that compares live
//! execution against a reference instruction trace.

pub mod args;
pub mod bitutils;
pub mod control;
pub mod event;
pub mod instructions;
pub mod memory;
pub mod registers;
pub mod syscall_numbers;
pub mod syscalls;
pub mod watchdog;

use vstd::prelude::*;

verus! {

} // verus!
