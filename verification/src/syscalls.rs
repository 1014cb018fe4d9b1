//! The system-call translation layer. It reads the O32 call number and
//! arguments from the registers, translates the call, marshals guest
//! structures, and either finishes the call itself or describes the one
//! host action that remains. Host actions that can be taken from plain
//! values (identity, clocks, path metadata) are taken here through
//! trusted wrappers; actions that need host file descriptor or process
//! plumbing are handed to the embedder as a `HostCall` and their results
//! come back through `finish_syscall`.

use vstd::prelude::*;

use crate::bitutils::wadd;
use crate::control::CPUFlagsSyscalls;
use crate::event::{CPUEvent, CpuError};
use crate::memory::{word_at, word_seq, words_written, write_words, read_words, Endianness, Memory};
use crate::registers::{reg_written, RegisterFile};
use crate::syscall_numbers::{spec_translate_syscall_number, translate_syscall_number, SyscallO32};
use std::collections::HashMap;

verus! {

/// The errno handed to the guest when one of its buffers leaves the
/// address space.
pub const GUEST_EFAULT: u32 = 14;

/// The errno for an invalid argument.
pub const GUEST_EINVAL: u32 = 22;

/// The constant program-parent identifier the layer reports, matching
/// what the reference traces expect.
pub const FIXED_PPID: u32 = 0x47;

/// The guest flag on `open` that asks for a large-file descriptor; it is
/// meaningless for a 64-bit host and must be stripped.
pub const GUEST_O_LARGEFILE: u32 = 0x2000;

/// The image of the host's `stat` result as plain values.
#[derive(Clone, Copy, PartialEq, Eq, Structural, Debug)]
pub struct HostStat {
    pub dev: u64,
    pub ino: u64,
    pub mode: u32,
    pub nlink: u64,
    pub uid: u32,
    pub gid: u32,
    pub rdev: u64,
    pub size: i64,
    pub atime: i64,
    pub atime_nsec: i64,
    pub mtime: i64,
    pub mtime_nsec: i64,
    pub ctime: i64,
    pub ctime_nsec: i64,
    pub blksize: i64,
    pub blocks: i64,
}

/// The guest's sigaction record, in its on-the-wire word order.
#[derive(Clone, Copy, PartialEq, Eq, Structural, Debug)]
pub struct MipsSigaction {
    pub handler: u32,
    pub mask0: u32,
    pub mask1: u32,
    pub mask2: u32,
    pub mask3: u32,
    pub flags: u32,
    pub restorer: u32,
}

impl MipsSigaction {
    pub open spec fn spec_zeroed() -> MipsSigaction {
        MipsSigaction {
            handler: 0,
            mask0: 0,
            mask1: 0,
            mask2: 0,
            mask3: 0,
            flags: 0,
            restorer: 0,
        }
    }

    pub fn zeroed() -> (r: MipsSigaction)
        ensures
            r == MipsSigaction::spec_zeroed(),
    {
        MipsSigaction { handler: 0, mask0: 0, mask1: 0, mask2: 0, mask3: 0, flags: 0, restorer: 0 }
    }

    /// The record as its seven on-the-wire words.
    pub open spec fn spec_words(self) -> Seq<u32> {
        seq![
            self.handler,
            self.mask0,
            self.mask1,
            self.mask2,
            self.mask3,
            self.flags,
            self.restorer,
        ]
    }

    pub fn from_words(ws: &Vec<u32>) -> (r: MipsSigaction)
        requires
            ws@.len() == 7,
        ensures
            r.spec_words() == ws@,
    {
        let r = MipsSigaction {
            handler: ws[0],
            mask0: ws[1],
            mask1: ws[2],
            mask2: ws[3],
            mask3: ws[4],
            flags: ws[5],
            restorer: ws[6],
        };
        proof {
            assert(r.spec_words() =~= ws@);
        }
        r
    }

    pub fn to_words(&self) -> (r: Vec<u32>)
        ensures
            r@ == self.spec_words(),
    {
        let r = vec![
            self.handler,
            self.mask0,
            self.mask1,
            self.mask2,
            self.mask3,
            self.flags,
            self.restorer,
        ];
        proof {
            assert(r@ =~= self.spec_words());
        }
        r
    }
}

/// One host action that the embedder performs on the library's behalf,
/// carrying everything needed to complete the call afterwards.
pub enum HostCall {
    Uname { addr: u32 },
    Wait4 { pid: u32, options: u32, wstatus_addr: u32, rusage_addr: u32 },
    Fstat { fd: u32, struct_addr: u32 },
    Fork,
    Execve { path: Vec<u8>, argv: Vec<Vec<u8>>, envp: Vec<Vec<u8>> },
    /// Forwarded without its argument structure: translating the
    /// request-specific payloads between the ABIs is not modelled.
    Ioctl { fd: u32, request: u32 },
    /// Carries the current guest word at `uaddr` so the embedder can
    /// operate on a host-side copy; a single-threaded guest never
    /// contends with itself.
    Futex {
        uaddr: u32,
        op: u32,
        val: u32,
        timeout_sec: u32,
        timeout_nsec: u32,
        timeout_null: bool,
        uaddr2: u32,
        val3: u32,
        current: u32,
    },
    Dup2 { oldfd: u32, newfd: u32 },
    Open { path: Vec<u8>, flags: u32, mode: u32 },
    Write { fd: u32, bytes: Vec<u8> },
    Read { fd: u32, len: u32, dest: Vec<(u32, u32)> },
    Close { fd: u32 },
    Seek { fd: u32, offset_high: u32, offset_low: u32, whence: u32, result_addr: u32 },
    Getcwd { buf_addr: u32, size: u32 },
    SigProcMask { how: u32, set: Option<Vec<u32>>, oldset_addr: u32 },
    SigAction {
        signum: u32,
        mask: Vec<u32>,
        flags: u32,
        oldact_addr: u32,
        old_stored: Option<MipsSigaction>,
    },
}

/// What the embedder hands back for a `HostCall`: the success payload,
/// or the positive host errno.
pub enum HostOk {
    Val(u32),
    Val64(u64),
    Bytes(u32, Vec<u8>),
    Mask(Vec<u32>),
    Stat(HostStat),
    Wait(u32, u32, Vec<u32>),
}

/// How one evaluation of the system-call layer ends: the call is done
/// and yields an event, or one host action is still owed.
pub enum SyscallOutcome {
    Done(CPUEvent),
    Host(HostCall),
}

// ---------------------------------------------------------------------
// Trusted wrappers around host calls that work on plain values.
// ---------------------------------------------------------------------

/// Relies on nix's `getuid`. Nothing is promised of the value, which
/// depends on the host environment.
#[verifier::external_body]
fn host_getuid() -> u32 {
    nix::unistd::getuid().as_raw()
}

/// Relies on nix's `geteuid`.
#[verifier::external_body]
fn host_geteuid() -> u32 {
    nix::unistd::geteuid().as_raw()
}

/// Relies on nix's `getgid`.
#[verifier::external_body]
fn host_getgid() -> u32 {
    nix::unistd::getgid().as_raw()
}

/// Relies on nix's `getegid`.
#[verifier::external_body]
fn host_getegid() -> u32 {
    nix::unistd::getegid().as_raw()
}

/// Relies on nix's `getpid`.
#[verifier::external_body]
fn host_getpid() -> u32 {
    nix::unistd::getpid().as_raw() as u32
}

/// Relies on nix's `gettid`.
#[verifier::external_body]
fn host_gettid() -> u32 {
    nix::unistd::gettid().as_raw() as u32
}

/// Relies on nix's `setuid`: on success the host process runs under the
/// given user from here on; on failure the host errno comes back.
#[verifier::external_body]
fn host_setuid(uid: u32) -> Result<(), u32> {
    match nix::unistd::setuid(nix::unistd::Uid::from_raw(uid)) {
        Ok(()) => Ok(()),
        Err(e) => Err(e as u32),
    }
}

/// Relies on nix's `setgid`.
#[verifier::external_body]
fn host_setgid(gid: u32) -> Result<(), u32> {
    match nix::unistd::setgid(nix::unistd::Gid::from_raw(gid)) {
        Ok(()) => Ok(()),
        Err(e) => Err(e as u32),
    }
}

/// Relies on nix's `chdir` over a byte path.
#[verifier::external_body]
fn host_chdir(path: &Vec<u8>) -> Result<(), u32> {
    match nix::unistd::chdir(path.as_slice()) {
        Ok(()) => Ok(()),
        Err(e) => Err(e as u32),
    }
}

/// Relies on nix's `clock_gettime`: on success the host clock's seconds
/// and nanoseconds come back. Nothing is promised of the values, which
/// depend on the host clock.
#[verifier::external_body]
fn host_clock_gettime(clock_id: u32) -> Result<(i64, i64), u32> {
    match nix::time::clock_gettime(nix::time::ClockId::from_raw(clock_id as i32)) {
        Ok(ts) => Ok((ts.tv_sec(), ts.tv_nsec())),
        Err(e) => Err(e as u32),
    }
}

/// Relies on nix's `stat` over a byte path: the host inode metadata is
/// copied field for field. Nothing is promised of the values, which
/// depend on what is on disk.
#[verifier::external_body]
fn host_stat(path: &Vec<u8>) -> Result<HostStat, u32> {
    match nix::sys::stat::stat(path.as_slice()) {
        Ok(s) => Ok(HostStat {
            dev: s.st_dev, ino: s.st_ino, mode: s.st_mode, nlink: s.st_nlink,
            uid: s.st_uid, gid: s.st_gid, rdev: s.st_rdev, size: s.st_size,
            atime: s.st_atime, atime_nsec: s.st_atime_nsec,
            mtime: s.st_mtime, mtime_nsec: s.st_mtime_nsec,
            ctime: s.st_ctime, ctime_nsec: s.st_ctime_nsec,
            blksize: s.st_blksize, blocks: s.st_blocks,
        }),
        Err(e) => Err(e as u32),
    }
}

/// Relies on nix's `lstat` over a byte path, as `host_stat` but without
/// following a final symbolic link.
#[verifier::external_body]
fn host_lstat(path: &Vec<u8>) -> Result<HostStat, u32> {
    match nix::sys::stat::lstat(path.as_slice()) {
        Ok(s) => Ok(HostStat {
            dev: s.st_dev, ino: s.st_ino, mode: s.st_mode, nlink: s.st_nlink,
            uid: s.st_uid, gid: s.st_gid, rdev: s.st_rdev, size: s.st_size,
            atime: s.st_atime, atime_nsec: s.st_atime_nsec,
            mtime: s.st_mtime, mtime_nsec: s.st_mtime_nsec,
            ctime: s.st_ctime, ctime_nsec: s.st_ctime_nsec,
            blksize: s.st_blksize, blocks: s.st_blocks,
        }),
        Err(e) => Err(e as u32),
    }
}

// ---------------------------------------------------------------------
// Verified marshalling helpers.
// ---------------------------------------------------------------------

/// The guest image of a host stat result: the 40 words of the guest's
/// 160-byte stat structure, 64-bit fields split low word first.
pub open spec fn spec_translate_stat(st: HostStat) -> Seq<u32> {
    seq![
        st.dev as u32,
        (st.dev >> 32) as u32,
        0u32,
        0u32,
        st.ino as u32,
        (st.ino >> 32) as u32,
        st.mode,
        st.nlink as u32,
        st.uid,
        st.gid,
        st.rdev as u32,
        (st.rdev >> 32) as u32,
        0u32,
        0u32,
        st.size as u32,
        ((st.size as u64) >> 32) as u32,
        st.atime as u32,
        st.atime_nsec as u32,
        st.mtime as u32,
        st.mtime_nsec as u32,
        st.ctime as u32,
        st.ctime_nsec as u32,
        st.blksize as u32,
        0u32,
        st.blocks as u32,
        ((st.blocks as u64) >> 32) as u32,
        0u32, 0u32, 0u32, 0u32, 0u32, 0u32, 0u32, 0u32, 0u32, 0u32, 0u32, 0u32, 0u32, 0u32,
    ]
}

/// Re-lays a host stat result into the guest's fixed word layout.
pub fn translate_stat(st: &HostStat) -> (r: Vec<u32>)
    ensures
        r@ == spec_translate_stat(*st),
{
    let r = vec![
        #[verifier::truncate] (st.dev as u32),
        #[verifier::truncate] ((st.dev >> 32) as u32),
        0u32,
        0u32,
        #[verifier::truncate] (st.ino as u32),
        #[verifier::truncate] ((st.ino >> 32) as u32),
        st.mode,
        #[verifier::truncate] (st.nlink as u32),
        st.uid,
        st.gid,
        #[verifier::truncate] (st.rdev as u32),
        #[verifier::truncate] ((st.rdev >> 32) as u32),
        0u32,
        0u32,
        #[verifier::truncate] (st.size as u32),
        #[verifier::truncate] (((#[verifier::truncate] (st.size as u64)) >> 32) as u32),
        #[verifier::truncate] (st.atime as u32),
        #[verifier::truncate] (st.atime_nsec as u32),
        #[verifier::truncate] (st.mtime as u32),
        #[verifier::truncate] (st.mtime_nsec as u32),
        #[verifier::truncate] (st.ctime as u32),
        #[verifier::truncate] (st.ctime_nsec as u32),
        #[verifier::truncate] (st.blksize as u32),
        0u32,
        #[verifier::truncate] (st.blocks as u32),
        #[verifier::truncate] (((#[verifier::truncate] (st.blocks as u64)) >> 32) as u32),
        0u32, 0u32, 0u32, 0u32, 0u32, 0u32, 0u32, 0u32, 0u32, 0u32, 0u32, 0u32, 0u32, 0u32,
    ];
    proof {
        assert(r@ =~= spec_translate_stat(*st));
    }
    r
}

/// The guest-to-host mapping of sigaction flag bits. The bit positions
/// differ between the guest ABI and the host ABI, so each recognised
/// guest bit is translated by name; unrecognised bits are dropped.
pub open spec fn spec_translate_signal_flags(mask: u32) -> u32 {
    let a = if mask & 0x0800_0000 != 0 {
        0x0800_0000u32  // ONSTACK
    } else {
        0u32
    };
    let b = if mask & 0x8000_0000u32 != 0 {
        0x8000_0000u32  // RESETHAND
    } else {
        0u32
    };
    let c = if mask & 0x1000_0000 != 0 {
        0x1000_0000u32  // RESTART
    } else {
        0u32
    };
    let d = if mask & 0x0000_0008 != 0 {
        0x0000_0004u32  // SIGINFO
    } else {
        0u32
    };
    let e = if mask & 0x4000_0000 != 0 {
        0x4000_0000u32  // NODEFER
    } else {
        0u32
    };
    let f = if mask & 0x0001_0000 != 0 {
        0x0000_0002u32  // NOCLDWAIT
    } else {
        0u32
    };
    let g = if mask & 0x0000_0001 != 0 {
        0x0000_0001u32  // NOCLDSTOP
    } else {
        0u32
    };
    a | b | c | d | e | f | g
}

/// Translates guest sigaction flag bits to the host's bit positions,
/// covering ONSTACK, RESETHAND, RESTART, SIGINFO, NODEFER, NOCLDWAIT and
/// NOCLDSTOP.
pub fn translate_signal_flags(mask: u32) -> (r: u32)
    ensures
        r == spec_translate_signal_flags(mask),
{
    let a: u32 = if mask & 0x0800_0000 != 0 {
        0x0800_0000
    } else {
        0
    };
    let b: u32 = if mask & 0x8000_0000u32 != 0 {
        0x8000_0000
    } else {
        0
    };
    let c: u32 = if mask & 0x1000_0000 != 0 {
        0x1000_0000
    } else {
        0
    };
    let d: u32 = if mask & 0x0000_0008 != 0 {
        0x0000_0004
    } else {
        0
    };
    let e: u32 = if mask & 0x4000_0000 != 0 {
        0x4000_0000
    } else {
        0
    };
    let f: u32 = if mask & 0x0001_0000 != 0 {
        0x0000_0002
    } else {
        0
    };
    let g: u32 = if mask & 0x0000_0001 != 0 {
        0x0000_0001
    } else {
        0
    };
    a | b | c | d | e | f | g
}

/// The zero-terminated byte string in `m` starting at `a` (without the
/// terminator); empty when `a` lies at or past the end of memory.
pub open spec fn cstr_at(m: Seq<u8>, a: int) -> Seq<u8>
    decreases 0x1_0000_0000 - a,
    when 0 <= a <= 0x1_0000_0000
{
    if a >= 0x1_0000_0000 {
        Seq::empty()
    } else if m[a] == 0 {
        Seq::empty()
    } else {
        seq![m[a]] + cstr_at(m, a + 1)
    }
}

/// There is a zero byte at or after `a`, so the C string there is
/// properly terminated inside memory.
pub open spec fn cstr_terminated(m: Seq<u8>, a: int) -> bool {
    exists|z: int| a <= z < 0x1_0000_0000 && m[z] == 0
}

proof fn lemma_cstr_prefix(m: Seq<u8>, a: int, i: int)
    requires
        m.len() == 0x1_0000_0000,
        0 <= a <= i < 0x1_0000_0000,
        forall|j: int| a <= j < i ==> m[j] != 0,
        m[i] == 0,
    ensures
        cstr_at(m, a) == m.subrange(a, i),
    decreases i - a,
{
    if a == i {
        assert(cstr_at(m, a) =~= m.subrange(a, i));
    } else {
        lemma_cstr_prefix(m, a + 1, i);
        assert(cstr_at(m, a) =~= m.subrange(a, i));
    }
}

/// Reads the zero-terminated guest string at `addr`; fails when no
/// terminator exists before the end of the address space.
pub fn read_cstring(memory: &Memory, addr: u32) -> (r: Result<Vec<u8>, ()>)
    requires
        memory.wf(),
    ensures
        match r {
            Ok(v) => cstr_terminated(memory@, addr as int) && v@ == cstr_at(memory@, addr as int),
            Err(()) => !cstr_terminated(memory@, addr as int),
        },
{
    let mut v: Vec<u8> = Vec::new();
    let mut i: u64 = addr as u64;
    loop
        invariant
            memory.wf(),
            addr as u64 <= i <= 0x1_0000_0000,
            v@.len() == i - addr,
            forall|j: int| addr as int <= j < i as int ==> memory@[j] != 0,
            forall|j: int| 0 <= j < v@.len() ==> v@[j] == memory@[addr as int + j],
        decreases 0x1_0000_0000u64 - i,
    {
        if i == 0x1_0000_0000u64 {
            proof {
                assert forall|z: int| addr as int <= z < 0x1_0000_0000 implies memory@[z] != 0 by {}
            }
            return Err(());
        }
        let b = memory.read_byte(i as u32);
        if b == 0 {
            proof {
                lemma_cstr_prefix(memory@, addr as int, i as int);
                assert(v@ =~= memory@.subrange(addr as int, i as int));
            }
            return Ok(v);
        }
        v.push(b as u8);
        i = i + 1;
    }
}

/// The guest iovec array at `addr`: `count` pairs of base pointer and
/// length, eight bytes per entry.
pub open spec fn spec_iovec(m: Seq<u8>, e: Endianness, addr: u32, count: u32) -> Seq<(u32, u32)> {
    Seq::new(count as nat, |i: int| (word_at(m, e, addr + 8 * i), word_at(m, e, addr + 8 * i + 4)))
}

/// Translates the guest iovec array into base and length pairs; the
/// whole array must lie inside the address space.
pub fn translate_iovec(iovec_addr: u32, iovcnt: u32, memory: &Memory) -> (r: Result<
    Vec<(u32, u32)>,
    (),
>)
    requires
        memory.wf(),
    ensures
        match r {
            Ok(v) => iovec_addr as int + 8 * iovcnt as int <= 0x1_0000_0000 && v@ == spec_iovec(
                memory@,
                memory.spec_endianness(),
                iovec_addr,
                iovcnt,
            ),
            Err(()) => iovec_addr as int + 8 * iovcnt as int > 0x1_0000_0000,
        },
{
    if iovec_addr as u64 + 8 * (iovcnt as u64) > 0x1_0000_0000u64 {
        return Err(());
    }
    let mut v: Vec<(u32, u32)> = Vec::new();
    let mut i: u32 = 0;
    while i < iovcnt
        invariant
            memory.wf(),
            0 <= i <= iovcnt,
            iovec_addr as int + 8 * iovcnt as int <= 0x1_0000_0000,
            v@.len() == i,
            forall|j: int|
                0 <= j < i ==> v@[j] == (
                    word_at(memory@, memory.spec_endianness(), iovec_addr + 8 * j),
                    word_at(memory@, memory.spec_endianness(), iovec_addr + 8 * j + 4),
                ),
        decreases iovcnt - i,
    {
        let base = memory.read_word(iovec_addr + 8 * i);
        let len = memory.read_word(iovec_addr + 8 * i + 4);
        v.push((base, len));
        i = i + 1;
    }
    proof {
        assert(v@ =~= spec_iovec(memory@, memory.spec_endianness(), iovec_addr, iovcnt));
    }
    Ok(v)
}

/// Reads system-call argument number `argn` (counting from 1) from the
/// guest stack, where the O32 convention spills arguments past the
/// fourth.
pub fn read_argument_from_memory(argn: u32, registers: &RegisterFile, memory: &Memory) -> (r:
    Result<u32, ()>)
    requires
        argn > 4,
        argn < 16,
        registers.wf(),
        memory.wf(),
    ensures
        ({
            let sp = registers.spec_reg(crate::registers::STACK_POINTER as int);
            let a = wadd(sp, (4 * (argn - 1)) as u32);
            match r {
                Ok(v) => a as int + 4 <= 0x1_0000_0000 && v == word_at(
                    memory@,
                    memory.spec_endianness(),
                    a as int,
                ),
                Err(()) => a as int + 4 > 0x1_0000_0000,
            }
        }),
{
    let sp = registers.read_register(crate::registers::STACK_POINTER);
    let a = sp.wrapping_add(4 * (argn - 1));
    if a >= 0xFFFF_FFFD {
        Err(())
    } else {
        Ok(memory.read_word(a))
    }
}

/// The system-call layer: its configuration and the guest-supplied
/// sigaction records, indexed by signal number.
pub struct System {
    config: CPUFlagsSyscalls,
    sigactions: HashMap<u32, MipsSigaction>,
}

// ---------------------------------------------------------------------
// The relation pinned by `eval_syscall`.
// ---------------------------------------------------------------------

pub open spec fn sys_same(s0: System, s1: System) -> bool {
    &&& s1.spec_config() == s0.spec_config()
    &&& s1.spec_sigactions() == s0.spec_sigactions()
}

/// The registers after a system call returns `v` with the error flag
/// `err`: r2 (v0) takes the value, r7 (a3) the flag, everything else is
/// kept.
pub open spec fn sc_ret(r0: RegisterFile, r1: RegisterFile, v: u32, err: bool) -> bool {
    &&& r1.spec_gpr() == reg_written(
        reg_written(r0.spec_gpr(), 2, v),
        7,
        if err {
            1u32
        } else {
            0u32
        },
    )
    &&& r1.spec_fpr() == r0.spec_fpr()
    &&& r1.spec_pc() == r0.spec_pc()
    &&& r1.spec_hi() == r0.spec_hi()
    &&& r1.spec_lo() == r0.spec_lo()
}

/// A call finished inside the layer with a known value.
pub open spec fn sc_done(
    s0: System,
    r0: RegisterFile,
    m0: Memory,
    s1: System,
    r1: RegisterFile,
    m1: Memory,
    out: Result<SyscallOutcome, CpuError>,
    v: u32,
    err: bool,
    ev: CPUEvent,
) -> bool {
    &&& sys_same(s0, s1)
    &&& crate::instructions::mem_same(m0, m1)
    &&& sc_ret(r0, r1, v, err)
    &&& out == Ok::<SyscallOutcome, CpuError>(SyscallOutcome::Done(ev))
}

/// A call finished inside the layer whose success value depends on the
/// host environment and is not pinned.
pub open spec fn sc_done_hostval(
    s0: System,
    r0: RegisterFile,
    m0: Memory,
    s1: System,
    r1: RegisterFile,
    m1: Memory,
    out: Result<SyscallOutcome, CpuError>,
) -> bool {
    &&& sys_same(s0, s1)
    &&& crate::instructions::mem_same(m0, m1)
    &&& exists|v: u32| sc_ret(r0, r1, v, false)
    &&& out == Ok::<SyscallOutcome, CpuError>(SyscallOutcome::Done(CPUEvent::Nothing))
}

/// A call finished inside the layer that either succeeded with value 0
/// or failed with a host errno.
pub open spec fn sc_done_hostflag(
    s0: System,
    r0: RegisterFile,
    m0: Memory,
    s1: System,
    r1: RegisterFile,
    m1: Memory,
    out: Result<SyscallOutcome, CpuError>,
) -> bool {
    &&& sys_same(s0, s1)
    &&& crate::instructions::mem_same(m0, m1)
    &&& (sc_ret(r0, r1, 0, false) || exists|e: u32| sc_ret(r0, r1, e, true))
    &&& out == Ok::<SyscallOutcome, CpuError>(SyscallOutcome::Done(CPUEvent::Nothing))
}

/// The layer asks the embedder to perform one host action; nothing else
/// changes yet.
pub open spec fn sc_host(
    s0: System,
    r0: RegisterFile,
    m0: Memory,
    s1: System,
    r1: RegisterFile,
    m1: Memory,
    out: Result<SyscallOutcome, CpuError>,
    call: HostCall,
) -> bool {
    &&& sys_same(s0, s1)
    &&& crate::instructions::regs_same(r0, r1)
    &&& crate::instructions::mem_same(m0, m1)
    &&& out == Ok::<SyscallOutcome, CpuError>(SyscallOutcome::Host(call))
}

/// A structural failure: nothing changes and the error is reported.
pub open spec fn sc_fatal(
    s0: System,
    r0: RegisterFile,
    m0: Memory,
    s1: System,
    r1: RegisterFile,
    m1: Memory,
    out: Result<SyscallOutcome, CpuError>,
    e: CpuError,
) -> bool {
    &&& sys_same(s0, s1)
    &&& crate::instructions::regs_same(r0, r1)
    &&& crate::instructions::mem_same(m0, m1)
    &&& out == Err::<SyscallOutcome, CpuError>(e)
}

/// The exact effect of one pass through the system-call layer, by
/// translated call number. Calls whose results depend on the host are
/// stated over every outcome the host could hand back.
pub open spec fn syscall_step(
    s0: System,
    r0: RegisterFile,
    m0: Memory,
    s1: System,
    r1: RegisterFile,
    m1: Memory,
    out: Result<SyscallOutcome, CpuError>,
) -> bool {
    let raw = crate::instructions::rr(r0, 2);
    let n = spec_translate_syscall_number(raw);
    let a1 = crate::instructions::rr(r0, 4);
    let a2 = crate::instructions::rr(r0, 5);
    let a3 = crate::instructions::rr(r0, 6);
    let a4 = crate::instructions::rr(r0, 7);
    let e = m0.spec_endianness();
    let fake_root = s0.spec_config().sys_fake_root;
    if n == SyscallO32::NRBrk {
        // brk(0) reads the break, brk(new) sets it; it cannot fail
        if a1 == 0 {
            sc_done(s0, r0, m0, s1, r1, m1, out, m0.spec_break(), false, CPUEvent::Nothing)
        } else {
            &&& sys_same(s0, s1)
            &&& m1@ == m0@
            &&& m1.spec_endianness() == e
            &&& m1.spec_break() == a1
            &&& sc_ret(r0, r1, a1, false)
            &&& out == Ok::<SyscallOutcome, CpuError>(SyscallOutcome::Done(CPUEvent::Nothing))
        }
    } else if n == SyscallO32::NRSetThreadArea || n == SyscallO32::NRSetTidAddress {
        sc_done(s0, r0, m0, s1, r1, m1, out, 0, false, CPUEvent::Nothing)
    } else if n == SyscallO32::NRGetppid {
        sc_done(s0, r0, m0, s1, r1, m1, out, FIXED_PPID, false, CPUEvent::Nothing)
    } else if n == SyscallO32::NRGetuid || n == SyscallO32::NRGeteuid || n == SyscallO32::NRGetgid
        || n == SyscallO32::NRGetegid {
        if fake_root {
            sc_done(s0, r0, m0, s1, r1, m1, out, 0, false, CPUEvent::Nothing)
        } else {
            sc_done_hostval(s0, r0, m0, s1, r1, m1, out)
        }
    } else if n == SyscallO32::NRGetpid || n == SyscallO32::NRGettid {
        sc_done_hostval(s0, r0, m0, s1, r1, m1, out)
    } else if n == SyscallO32::NRSetuid || n == SyscallO32::NRSetgid {
        sc_done_hostflag(s0, r0, m0, s1, r1, m1, out)
    } else if n == SyscallO32::NRChdir {
        if !cstr_terminated(m0@, a1 as int) {
            sc_done(s0, r0, m0, s1, r1, m1, out, GUEST_EFAULT, true, CPUEvent::Nothing)
        } else {
            sc_done_hostflag(s0, r0, m0, s1, r1, m1, out)
        }
    } else if n == SyscallO32::NRExit || n == SyscallO32::NRExitGroup {
        sc_done(s0, r0, m0, s1, r1, m1, out, 0, false, CPUEvent::Exit)
    } else if n == SyscallO32::NRMmap2 {
        if a2 == 0 {
            sc_done(s0, r0, m0, s1, r1, m1, out, GUEST_EINVAL, true, CPUEvent::Nothing)
        } else {
            sc_fatal(s0, r0, m0, s1, r1, m1, out, CpuError::UnimplementedSyscall(raw))
        }
    } else if n == SyscallO32::NRClockGettime {
        // the timestamp is written back as two 32-bit words
        if a2 as int + 8 > 0x1_0000_0000 {
            sc_done(s0, r0, m0, s1, r1, m1, out, GUEST_EFAULT, true, CPUEvent::Nothing)
        } else {
            ||| {
                &&& sys_same(s0, s1)
                &&& exists|sec: u32, nsec: u32|
                    m1@ == words_written(m0@, e, a2 as int, seq![sec, nsec])
                &&& m1.spec_endianness() == e
                &&& m1.spec_break() == m0.spec_break()
                &&& sc_ret(r0, r1, 0, false)
                &&& out == Ok::<SyscallOutcome, CpuError>(SyscallOutcome::Done(CPUEvent::Nothing))
            }
            ||| {
                &&& sys_same(s0, s1)
                &&& crate::instructions::mem_same(m0, m1)
                &&& exists|err: u32| sc_ret(r0, r1, err, true)
                &&& out == Ok::<SyscallOutcome, CpuError>(SyscallOutcome::Done(CPUEvent::Nothing))
            }
        }
    } else if n == SyscallO32::NRTime {
        // the seconds value is returned and optionally stored
        ||| {
            &&& sys_same(s0, s1)
            &&& exists|sec: u32|
                {
                    &&& if a1 != 0 && a1 as int + 4 <= 0x1_0000_0000 {
                        m1@ == word_seq(m0@, e, a1 as int, sec)
                    } else {
                        m1@ == m0@
                    }
                    &&& sc_ret(r0, r1, sec, false)
                }
            &&& m1.spec_endianness() == e
            &&& m1.spec_break() == m0.spec_break()
            &&& out == Ok::<SyscallOutcome, CpuError>(SyscallOutcome::Done(CPUEvent::Nothing))
        }
        ||| {
            &&& sys_same(s0, s1)
            &&& crate::instructions::mem_same(m0, m1)
            &&& exists|err: u32| sc_ret(r0, r1, err, true)
            &&& out == Ok::<SyscallOutcome, CpuError>(SyscallOutcome::Done(CPUEvent::Nothing))
        }
    } else if n == SyscallO32::NRStat64 || n == SyscallO32::NRLstat64 {
        // the host metadata is re-laid into the guest's 40-word image
        if !cstr_terminated(m0@, a1 as int) || a2 as int + 160 > 0x1_0000_0000 {
            sc_done(s0, r0, m0, s1, r1, m1, out, GUEST_EFAULT, true, CPUEvent::Nothing)
        } else {
            ||| {
                &&& sys_same(s0, s1)
                &&& exists|st: HostStat|
                    m1@ == words_written(m0@, e, a2 as int, spec_translate_stat(st))
                &&& m1.spec_endianness() == e
                &&& m1.spec_break() == m0.spec_break()
                &&& sc_ret(r0, r1, 0, false)
                &&& out == Ok::<SyscallOutcome, CpuError>(SyscallOutcome::Done(CPUEvent::Nothing))
            }
            ||| {
                &&& sys_same(s0, s1)
                &&& crate::instructions::mem_same(m0, m1)
                &&& exists|err: u32| sc_ret(r0, r1, err, true)
                &&& out == Ok::<SyscallOutcome, CpuError>(SyscallOutcome::Done(CPUEvent::Nothing))
            }
        }
    } else if n == SyscallO32::NRFstat64 || n == SyscallO32::NRFstat {
        if a2 as int + 160 > 0x1_0000_0000 {
            sc_done(s0, r0, m0, s1, r1, m1, out, GUEST_EFAULT, true, CPUEvent::Nothing)
        } else {
            sc_host(
                s0,
                r0,
                m0,
                s1,
                r1,
                m1,
                out,
                HostCall::Fstat { fd: a1, struct_addr: a2 },
            )
        }
    } else if n == SyscallO32::NRUname {
        sc_host(s0, r0, m0, s1, r1, m1, out, HostCall::Uname { addr: a1 })
    } else if n == SyscallO32::NRWait4 {
        sc_host(
            s0,
            r0,
            m0,
            s1,
            r1,
            m1,
            out,
            HostCall::Wait4 { pid: a1, options: a3, wstatus_addr: a2, rusage_addr: a4 },
        )
    } else if n == SyscallO32::NRFork {
        sc_host(s0, r0, m0, s1, r1, m1, out, HostCall::Fork)
    } else if n == SyscallO32::NRIoctl {
        if s0.spec_config().sys_block_ioctl_on_stdio && a1 < 3 {
            sc_done(s0, r0, m0, s1, r1, m1, out, 0, false, CPUEvent::Nothing)
        } else if s0.spec_config().sys_ioctl_fail_always {
            sc_done(s0, r0, m0, s1, r1, m1, out, GUEST_EINVAL, true, CPUEvent::Nothing)
        } else {
            sc_host(s0, r0, m0, s1, r1, m1, out, HostCall::Ioctl { fd: a1, request: a2 })
        }
    } else if n == SyscallO32::NRDup2 {
        sc_host(s0, r0, m0, s1, r1, m1, out, HostCall::Dup2 { oldfd: a1, newfd: a2 })
    } else if n == SyscallO32::NRClose {
        sc_host(s0, r0, m0, s1, r1, m1, out, HostCall::Close { fd: a1 })
    } else if n == SyscallO32::NROpen {
        if !cstr_terminated(m0@, a1 as int) {
            sc_done(s0, r0, m0, s1, r1, m1, out, GUEST_EFAULT, true, CPUEvent::Nothing)
        } else {
            &&& sys_same(s0, s1)
            &&& crate::instructions::regs_same(r0, r1)
            &&& crate::instructions::mem_same(m0, m1)
            &&& (match out {
                Ok(SyscallOutcome::Host(HostCall::Open { path, flags, mode })) => {
                    &&& path@ == cstr_at(m0@, a1 as int)
                    &&& flags == a2 & !GUEST_O_LARGEFILE
                    &&& mode == a3
                },
                _ => false,
            })
        }
    } else if n == SyscallO32::NRWrite {
        if a2 as int + a3 as int > 0x1_0000_0000 {
            sc_done(s0, r0, m0, s1, r1, m1, out, GUEST_EFAULT, true, CPUEvent::Nothing)
        } else {
            &&& sys_same(s0, s1)
            &&& crate::instructions::regs_same(r0, r1)
            &&& crate::instructions::mem_same(m0, m1)
            &&& (match out {
                Ok(SyscallOutcome::Host(HostCall::Write { fd, bytes })) => fd == a1 && bytes@
                    == m0@.subrange(a2 as int, a2 as int + a3 as int),
                _ => false,
            })
        }
    } else if n == SyscallO32::NRWritev {
        // the guest iovec array is gathered into one byte string
        if a2 as int + 8 * a3 as int > 0x1_0000_0000 {
            sc_done(s0, r0, m0, s1, r1, m1, out, GUEST_EFAULT, true, CPUEvent::Nothing)
        } else if !iovec_in_range(spec_iovec(m0@, e, a2, a3)) {
            sc_done(s0, r0, m0, s1, r1, m1, out, GUEST_EFAULT, true, CPUEvent::Nothing)
        } else {
            &&& sys_same(s0, s1)
            &&& crate::instructions::regs_same(r0, r1)
            &&& crate::instructions::mem_same(m0, m1)
            &&& (match out {
                Ok(SyscallOutcome::Host(HostCall::Write { fd, bytes })) => fd == a1 && bytes@
                    == gathered(m0@, spec_iovec(m0@, e, a2, a3)),
                _ => false,
            })
        }
    } else if n == SyscallO32::NRRead {
        if a2 as int + a3 as int > 0x1_0000_0000 {
            sc_done(s0, r0, m0, s1, r1, m1, out, GUEST_EFAULT, true, CPUEvent::Nothing)
        } else {
            &&& sys_same(s0, s1)
            &&& crate::instructions::regs_same(r0, r1)
            &&& crate::instructions::mem_same(m0, m1)
            &&& (match out {
                Ok(SyscallOutcome::Host(HostCall::Read { fd, len, dest })) => fd == a1 && len == a3
                    && dest@ == seq![(a2, a3)],
                _ => false,
            })
        }
    } else if n == SyscallO32::NRReadv {
        if a2 as int + 8 * a3 as int > 0x1_0000_0000 {
            sc_done(s0, r0, m0, s1, r1, m1, out, GUEST_EFAULT, true, CPUEvent::Nothing)
        } else if !iovec_in_range(spec_iovec(m0@, e, a2, a3)) {
            sc_done(s0, r0, m0, s1, r1, m1, out, GUEST_EFAULT, true, CPUEvent::Nothing)
        } else if iovec_total(spec_iovec(m0@, e, a2, a3)) > 0xFFFF_FFFF {
            sc_done(s0, r0, m0, s1, r1, m1, out, GUEST_EINVAL, true, CPUEvent::Nothing)
        } else {
            &&& sys_same(s0, s1)
            &&& crate::instructions::regs_same(r0, r1)
            &&& crate::instructions::mem_same(m0, m1)
            &&& (match out {
                Ok(SyscallOutcome::Host(HostCall::Read { fd, len, dest })) => fd == a1 && len
                    == iovec_total(spec_iovec(m0@, e, a2, a3)) as u32 && dest@ == spec_iovec(
                    m0@,
                    e,
                    a2,
                    a3,
                ),
                _ => false,
            })
        }
    } else if n == SyscallO32::NRLlseek {
        ({
            let sp = r0.spec_reg(crate::registers::STACK_POINTER as int);
            let warg = wadd(sp, 16);
            if warg as int + 4 > 0x1_0000_0000 || a4 as int + 8 > 0x1_0000_0000 {
                sc_done(s0, r0, m0, s1, r1, m1, out, GUEST_EFAULT, true, CPUEvent::Nothing)
            } else {
                sc_host(
                    s0,
                    r0,
                    m0,
                    s1,
                    r1,
                    m1,
                    out,
                    HostCall::Seek {
                        fd: a1,
                        offset_high: a2,
                        offset_low: a3,
                        whence: word_at(m0@, e, warg as int),
                        result_addr: a4,
                    },
                )
            }
        })
    } else if n == SyscallO32::NRGetcwd {
        if s0.spec_config().sys_fake_root_directory && a2 >= 6 {
            if a1 as int + 6 > 0x1_0000_0000 {
                sc_done(s0, r0, m0, s1, r1, m1, out, GUEST_EFAULT, true, CPUEvent::Nothing)
            } else {
                &&& sys_same(s0, s1)
                &&& m1@ == fake_cwd_written(m0@, a1 as int)
                &&& m1.spec_endianness() == e
                &&& m1.spec_break() == m0.spec_break()
                &&& sc_ret(r0, r1, a1, false)
                &&& out == Ok::<SyscallOutcome, CpuError>(SyscallOutcome::Done(CPUEvent::Nothing))
            }
        } else {
            sc_host(s0, r0, m0, s1, r1, m1, out, HostCall::Getcwd { buf_addr: a1, size: a2 })
        }
    } else if n == SyscallO32::NRFutex {
        ({
            let sp = r0.spec_reg(crate::registers::STACK_POINTER as int);
            let arg5a = wadd(sp, 16);
            let arg6a = wadd(sp, 20);
            if arg5a as int + 4 > 0x1_0000_0000 || arg6a as int + 4 > 0x1_0000_0000 || a1 as int + 4
                > 0x1_0000_0000 || (a4 != 0 && a4 as int + 8 > 0x1_0000_0000) {
                sc_done(s0, r0, m0, s1, r1, m1, out, GUEST_EFAULT, true, CPUEvent::Nothing)
            } else {
                sc_host(
                    s0,
                    r0,
                    m0,
                    s1,
                    r1,
                    m1,
                    out,
                    HostCall::Futex {
                        uaddr: a1,
                        op: a2,
                        val: a3,
                        timeout_sec: if a4 != 0 {
                            word_at(m0@, e, a4 as int)
                        } else {
                            0
                        },
                        timeout_nsec: if a4 != 0 {
                            word_at(m0@, e, a4 as int + 4)
                        } else {
                            0
                        },
                        timeout_null: a4 == 0,
                        uaddr2: word_at(m0@, e, arg5a as int),
                        val3: word_at(m0@, e, arg6a as int),
                        current: word_at(m0@, e, a1 as int),
                    },
                )
            }
        })
    } else if n == SyscallO32::NRRtSigprocmask {
        if (a2 != 0 && a2 as int + 16 > 0x1_0000_0000) || (a3 != 0 && a3 as int + 16
            > 0x1_0000_0000) {
            sc_done(s0, r0, m0, s1, r1, m1, out, GUEST_EFAULT, true, CPUEvent::Nothing)
        } else {
            &&& sys_same(s0, s1)
            &&& crate::instructions::regs_same(r0, r1)
            &&& crate::instructions::mem_same(m0, m1)
            &&& (match out {
                Ok(SyscallOutcome::Host(HostCall::SigProcMask { how, set, oldset_addr })) => {
                    &&& how == a1
                    &&& oldset_addr == a3
                    &&& (match set {
                        Some(v) => a2 != 0 && v@.len() == 4 && forall|i: int|
                            0 <= i < 4 ==> v@[i] == word_at(m0@, e, a2 as int + 4 * i),
                        None => a2 == 0,
                    })
                },
                _ => false,
            })
        }
    } else if n == SyscallO32::NRRtSigaction {
        if (a2 != 0 && a2 as int + 28 > 0x1_0000_0000) || (a3 != 0 && a3 as int + 28
            > 0x1_0000_0000) {
            sc_done(s0, r0, m0, s1, r1, m1, out, GUEST_EFAULT, true, CPUEvent::Nothing)
        } else {
            ({
                let act = if a2 != 0 {
                    sigaction_at(m0@, e, a2 as int)
                } else {
                    MipsSigaction::spec_zeroed()
                };
                let old_stored = if s0.spec_sigactions().contains_key(a1) {
                    Some(s0.spec_sigactions()[a1])
                } else {
                    None::<MipsSigaction>
                };
                &&& s1.spec_config() == s0.spec_config()
                &&& s1.spec_sigactions() == s0.spec_sigactions().insert(a1, act)
                &&& crate::instructions::regs_same(r0, r1)
                &&& crate::instructions::mem_same(m0, m1)
                &&& (match out {
                    Ok(
                        SyscallOutcome::Host(
                            HostCall::SigAction { signum, mask, flags, oldact_addr, old_stored: os },
                        ),
                    ) => {
                        &&& signum == a1
                        &&& mask@ == seq![act.mask0, act.mask1, act.mask2, act.mask3]
                        &&& flags == spec_translate_signal_flags(act.flags)
                        &&& oldact_addr == a3
                        &&& os == old_stored
                    },
                    _ => false,
                })
            })
        }
    } else if n == SyscallO32::NRExecve {
        if !cstr_terminated(m0@, a1 as int) || !ptr_array_terminated(m0@, e, a2 as int)
            || !ptr_array_terminated(m0@, e, a3 as int) || !cstrs_terminated(
            m0@,
            ptr_array_at(m0@, e, a2 as int),
        ) || !cstrs_terminated(m0@, ptr_array_at(m0@, e, a3 as int)) {
            sc_done(s0, r0, m0, s1, r1, m1, out, GUEST_EFAULT, true, CPUEvent::Nothing)
        } else {
            &&& sys_same(s0, s1)
            &&& crate::instructions::regs_same(r0, r1)
            &&& crate::instructions::mem_same(m0, m1)
            &&& (match out {
                Ok(SyscallOutcome::Host(HostCall::Execve { path, argv, envp })) => {
                    &&& path@ == cstr_at(m0@, a1 as int)
                    &&& byte_strings_are(argv, cstrs_of(m0@, ptr_array_at(m0@, e, a2 as int)))
                    &&& byte_strings_are(envp, cstrs_of(m0@, ptr_array_at(m0@, e, a3 as int)))
                },
                _ => false,
            })
        }
    } else if n == SyscallO32::NRUnknown {
        sc_fatal(s0, r0, m0, s1, r1, m1, out, CpuError::UnknownSyscall(raw))
    } else {
        sc_fatal(s0, r0, m0, s1, r1, m1, out, CpuError::UnimplementedSyscall(raw))
    }
}

/// Every iovec segment lies inside the address space.
pub open spec fn iovec_in_range(entries: Seq<(u32, u32)>) -> bool {
    forall|i: int|
        0 <= i < entries.len() ==> (#[trigger] entries[i]).0 as int + entries[i].1 as int
            <= 0x1_0000_0000
}

/// The summed length of the iovec segments from index `k` on.
pub open spec fn iovec_total_from(entries: Seq<(u32, u32)>, k: int) -> int
    decreases entries.len() - k,
    when 0 <= k <= entries.len()
{
    if k >= entries.len() {
        0
    } else {
        entries[k].1 + iovec_total_from(entries, k + 1)
    }
}

/// The summed length of the iovec segments.
pub open spec fn iovec_total(entries: Seq<(u32, u32)>) -> int {
    iovec_total_from(entries, 0)
}

/// The bytes of the iovec segments from index `k` on, concatenated.
pub open spec fn gathered_from(m: Seq<u8>, entries: Seq<(u32, u32)>, k: int) -> Seq<u8>
    decreases entries.len() - k,
    when 0 <= k <= entries.len()
{
    if k >= entries.len() {
        Seq::empty()
    } else {
        m.subrange(entries[k].0 as int, entries[k].0 as int + entries[k].1 as int) + gathered_from(
            m,
            entries,
            k + 1,
        )
    }
}

/// The iovec segments' bytes, concatenated in order.
pub open spec fn gathered(m: Seq<u8>, entries: Seq<(u32, u32)>) -> Seq<u8> {
    gathered_from(m, entries, 0)
}

/// The six bytes of the literal current directory `/root` with its
/// terminator, stored at `a`.
pub open spec fn fake_cwd_written(m: Seq<u8>, a: int) -> Seq<u8> {
    m.update(a, 0x2Fu8).update(a + 1, 0x72u8).update(a + 2, 0x6Fu8).update(a + 3, 0x6Fu8).update(
        a + 4,
        0x74u8,
    ).update(a + 5, 0u8)
}

/// The guest sigaction record stored at `a`.
pub open spec fn sigaction_at(m: Seq<u8>, e: Endianness, a: int) -> MipsSigaction {
    MipsSigaction {
        handler: word_at(m, e, a),
        mask0: word_at(m, e, a + 4),
        mask1: word_at(m, e, a + 8),
        mask2: word_at(m, e, a + 12),
        mask3: word_at(m, e, a + 16),
        flags: word_at(m, e, a + 20),
        restorer: word_at(m, e, a + 24),
    }
}

/// The zero-terminated array of words (guest pointers) at `a`, stride
/// four, without the terminator.
pub open spec fn ptr_array_at(m: Seq<u8>, e: Endianness, a: int) -> Seq<u32>
    decreases 0x1_0000_0000 - a,
    when 0 <= a <= 0x1_0000_0000
{
    if a + 4 > 0x1_0000_0000 {
        Seq::empty()
    } else if word_at(m, e, a) == 0 {
        Seq::empty()
    } else {
        seq![word_at(m, e, a)] + ptr_array_at(m, e, a + 4)
    }
}

/// A zero word terminates the pointer array before the end of memory.
pub open spec fn ptr_array_terminated(m: Seq<u8>, e: Endianness, a: int) -> bool {
    exists|z: int|
        a <= z && z + 4 <= 0x1_0000_0000 && (z - a) % 4 == 0 && word_at(m, e, z) == 0 && forall|
            j: int,
        |
            a <= j < z && (j - a) % 4 == 0 ==> word_at(m, e, j) != 0
}

/// Every pointer in the array points at a terminated string.
pub open spec fn cstrs_terminated(m: Seq<u8>, ptrs: Seq<u32>) -> bool {
    forall|i: int| 0 <= i < ptrs.len() ==> cstr_terminated(m, (#[trigger] ptrs[i]) as int)
}

/// The strings the pointers point at.
pub open spec fn cstrs_of(m: Seq<u8>, ptrs: Seq<u32>) -> Seq<Seq<u8>> {
    ptrs.map_values(|p: u32| cstr_at(m, p as int))
}

/// The vector holds exactly the byte strings `ss`, in order.
pub open spec fn byte_strings_are(v: Vec<Vec<u8>>, ss: Seq<Seq<u8>>) -> bool {
    v@.len() == ss.len() && forall|j: int| 0 <= j < ss.len() ==> (#[trigger] v@[j])@ == ss[j]
}

proof fn lemma_ptr_array_prefix(m: Seq<u8>, e: Endianness, a: int, z: int)
    requires
        m.len() == 0x1_0000_0000,
        0 <= a <= z,
        z + 4 <= 0x1_0000_0000,
        (z - a) % 4 == 0,
        forall|j: int| a <= j < z && (j - a) % 4 == 0 ==> word_at(m, e, j) != 0,
        word_at(m, e, z) == 0,
    ensures
        ptr_array_at(m, e, a) == Seq::new(((z - a) / 4) as nat, |i: int| word_at(m, e, a + 4 * i)),
    decreases z - a,
{
    if a == z {
        assert(ptr_array_at(m, e, a) =~= Seq::new(0, |i: int| word_at(m, e, a + 4 * i)));
    } else {
        assert(word_at(m, e, a) != 0);
        lemma_ptr_array_prefix(m, e, a + 4, z);
        assert(ptr_array_at(m, e, a) =~= Seq::new(
            ((z - a) / 4) as nat,
            |i: int| word_at(m, e, a + 4 * i),
        ));
    }
}

/// Reads the zero-terminated guest pointer array at `addr`; fails when
/// no zero word exists before the end of the address space.
fn read_ptr_array(memory: &Memory, addr: u32) -> (r: Result<Vec<u32>, ()>)
    requires
        memory.wf(),
    ensures
        match r {
            Ok(v) => ptr_array_terminated(memory@, memory.spec_endianness(), addr as int) && v@
                == ptr_array_at(memory@, memory.spec_endianness(), addr as int),
            Err(()) => !ptr_array_terminated(memory@, memory.spec_endianness(), addr as int),
        },
{
    let ghost m = memory@;
    let ghost e = memory.spec_endianness();
    let mut v: Vec<u32> = Vec::new();
    let mut i: u64 = addr as u64;
    loop
        invariant
            memory.wf(),
            m == memory@,
            e == memory.spec_endianness(),
            addr as u64 <= i <= 0x1_0000_0004,
            (i - addr) % 4 == 0,
            v@.len() == (i - addr) / 4,
            forall|j: int|
                addr as int <= j < i as int && (j - addr as int) % 4 == 0 ==> word_at(m, e, j) != 0,
            forall|j: int| 0 <= j < v@.len() ==> v@[j] == word_at(m, e, addr as int + 4 * j),
        decreases 0x1_0000_0004u64 - i,
    {
        if i + 4 > 0x1_0000_0000u64 {
            proof {
                assert forall|z: int|
                    addr as int <= z && z + 4 <= 0x1_0000_0000 && (z - addr as int) % 4
                        == 0 implies word_at(m, e, z) != 0 by {}
            }
            return Err(());
        }
        let w = memory.read_word(i as u32);
        if w == 0 {
            proof {
                lemma_ptr_array_prefix(m, e, addr as int, i as int);
                assert(v@ =~= Seq::new(
                    ((i - addr) / 4) as nat,
                    |j: int| word_at(m, e, addr as int + 4 * j),
                ));
            }
            return Ok(v);
        }
        v.push(w);
        i = i + 4;
    }
}

/// Reads the string each pointer in the array points at.
fn read_cstrings(memory: &Memory, ptrs: &Vec<u32>) -> (r: Result<Vec<Vec<u8>>, ()>)
    requires
        memory.wf(),
    ensures
        match r {
            Ok(v) => cstrs_terminated(memory@, ptrs@) && byte_strings_are(
                v,
                cstrs_of(memory@, ptrs@),
            ),
            Err(()) => !cstrs_terminated(memory@, ptrs@),
        },
{
    let mut v: Vec<Vec<u8>> = Vec::new();
    let mut i: usize = 0;
    let n = ptrs.len();
    while i < n
        invariant
            memory.wf(),
            n == ptrs@.len(),
            0 <= i <= n,
            v@.len() == i,
            forall|j: int| 0 <= j < i ==> cstr_terminated(memory@, (#[trigger] ptrs@[j]) as int),
            forall|j: int| 0 <= j < i ==> (#[trigger] v@[j])@ == cstr_at(memory@, ptrs@[j] as int),
        decreases n - i,
    {
        match read_cstring(memory, ptrs[i]) {
            Ok(s) => {
                v.push(s);
            },
            Err(()) => {
                return Err(());
            },
        }
        i = i + 1;
    }
    Ok(v)
}

/// Whether every iovec segment lies inside the address space.
fn check_iovec_ranges(entries: &Vec<(u32, u32)>) -> (r: bool)
    ensures
        r == iovec_in_range(entries@),
{
    let n = entries.len();
    let mut i: usize = 0;
    while i < n
        invariant
            n == entries@.len(),
            0 <= i <= n,
            forall|j: int|
                0 <= j < i ==> (#[trigger] entries@[j]).0 as int + entries@[j].1 as int
                    <= 0x1_0000_0000,
        decreases n - i,
    {
        let (base, len) = entries[i];
        if base as u64 + len as u64 > 0x1_0000_0000u64 {
            return false;
        }
        i = i + 1;
    }
    true
}

proof fn lemma_iovec_total_bound(entries: Seq<(u32, u32)>, k: int)
    requires
        0 <= k <= entries.len(),
    ensures
        0 <= iovec_total_from(entries, k) <= (entries.len() - k) * 0x1_0000_0000,
    decreases entries.len() - k,
{
    if k < entries.len() {
        lemma_iovec_total_bound(entries, k + 1);
        assert((entries.len() - k) * 0x1_0000_0000 == (entries.len() - (k + 1)) * 0x1_0000_0000
            + 0x1_0000_0000) by (nonlinear_arith);
    }
}

/// The summed length of the iovec segments.
fn iovec_total_len(entries: &Vec<(u32, u32)>) -> (r: u64)
    requires
        entries@.len() <= 0x2000_0000,
    ensures
        r == iovec_total(entries@),
{
    let n = entries.len();
    let mut i: usize = 0;
    let mut acc: u64 = 0;
    proof {
        lemma_iovec_total_bound(entries@, 0);
        assert((n as int) * 0x1_0000_0000 <= 0x2000_0000_0000_0000) by (nonlinear_arith)
            requires
                n as int <= 0x2000_0000,
        ;
    }
    while i < n
        invariant
            n == entries@.len(),
            n <= 0x2000_0000,
            0 <= i <= n,
            acc == iovec_total(entries@) - iovec_total_from(entries@, i as int),
            iovec_total(entries@) <= 0x2000_0000_0000_0000,
        decreases n - i,
    {
        proof {
            lemma_iovec_total_bound(entries@, i as int);
            lemma_iovec_total_bound(entries@, i as int + 1);
        }
        acc = acc + entries[i].1 as u64;
        i = i + 1;
    }
    acc
}

/// Gathers the iovec segments' bytes into one byte string; fails when a
/// segment leaves the address space.
fn gather_bytes(memory: &Memory, entries: &Vec<(u32, u32)>) -> (r: Result<Vec<u8>, ()>)
    requires
        memory.wf(),
    ensures
        match r {
            Ok(b) => iovec_in_range(entries@) && b@ == gathered(memory@, entries@),
            Err(()) => !iovec_in_range(entries@),
        },
{
    if !check_iovec_ranges(entries) {
        return Err(());
    }
    let mut b: Vec<u8> = Vec::new();
    let mut i: usize = 0;
    let n = entries.len();
    while i < n
        invariant
            memory.wf(),
            n == entries@.len(),
            0 <= i <= n,
            iovec_in_range(entries@),
            gathered(memory@, entries@) == b@ + gathered_from(memory@, entries@, i as int),
        decreases n - i,
    {
        let (base, len) = entries[i];
        let mut part = memory.read_slice(base, len);
        b.append(&mut part);
        i = i + 1;
    }
    proof {
        assert(gathered(memory@, entries@) =~= b@);
    }
    Ok(b)
}

/// Writes a system call's result into the registers: r2 takes the value
/// and r7 the error flag.
fn set_result(registers: &mut RegisterFile, v: u32, err: bool)
    requires
        old(registers).wf(),
    ensures
        final(registers).wf(),
        sc_ret(*old(registers), *final(registers), v, err),
{
    registers.write_register(2, v);
    registers.write_register(7, if err { 1 } else { 0 });
}

impl System {
    pub closed spec fn spec_config(&self) -> CPUFlagsSyscalls {
        self.config
    }

    pub closed spec fn spec_sigactions(&self) -> Map<u32, MipsSigaction> {
        self.sigactions@
    }

    pub fn new(config: CPUFlagsSyscalls) -> (r: System)
        ensures
            r.spec_config() == config,
            r.spec_sigactions() == Map::<u32, MipsSigaction>::empty(),
    {
        System { config, sigactions: HashMap::new() }
    }

    /// Runs the system-call layer once: reads the call number from r2 and
    /// the arguments from r4..r7 (and the stack), translates the number,
    /// and either completes the call or describes the host action that
    /// remains. The exact effect is pinned by `syscall_step`.
    pub fn eval_syscall(&mut self, registers: &mut RegisterFile, memory: &mut Memory) -> (r: Result<
        SyscallOutcome,
        CpuError,
    >)
        requires
            old(registers).wf(),
            old(memory).wf(),
        ensures
            final(registers).wf(),
            final(memory).wf(),
            syscall_step(
                *old(self),
                *old(registers),
                *old(memory),
                *final(self),
                *final(registers),
                *final(memory),
                r,
            ),
    {
        let raw = registers.read_register(2);
        let a1 = registers.read_register(4);
        let a2 = registers.read_register(5);
        let a3 = registers.read_register(6);
        let a4 = registers.read_register(7);
        let n = translate_syscall_number(raw);
        match n {
            SyscallO32::NRBrk => {
                if a1 == 0 {
                    let v = memory.get_program_break();
                    set_result(registers, v, false);
                    Ok(SyscallOutcome::Done(CPUEvent::Nothing))
                } else {
                    memory.update_program_break(a1);
                    set_result(registers, a1, false);
                    Ok(SyscallOutcome::Done(CPUEvent::Nothing))
                }
            },
            SyscallO32::NRSetThreadArea | SyscallO32::NRSetTidAddress => {
                set_result(registers, 0, false);
                Ok(SyscallOutcome::Done(CPUEvent::Nothing))
            },
            SyscallO32::NRGetppid => {
                set_result(registers, FIXED_PPID, false);
                Ok(SyscallOutcome::Done(CPUEvent::Nothing))
            },
            SyscallO32::NRGetuid => {
                if self.config.sys_fake_root {
                    set_result(registers, 0, false);
                } else {
                    let v = host_getuid();
                    set_result(registers, v, false);
                }
                Ok(SyscallOutcome::Done(CPUEvent::Nothing))
            },
            SyscallO32::NRGeteuid => {
                if self.config.sys_fake_root {
                    set_result(registers, 0, false);
                } else {
                    let v = host_geteuid();
                    set_result(registers, v, false);
                }
                Ok(SyscallOutcome::Done(CPUEvent::Nothing))
            },
            SyscallO32::NRGetgid => {
                if self.config.sys_fake_root {
                    set_result(registers, 0, false);
                } else {
                    let v = host_getgid();
                    set_result(registers, v, false);
                }
                Ok(SyscallOutcome::Done(CPUEvent::Nothing))
            },
            SyscallO32::NRGetegid => {
                if self.config.sys_fake_root {
                    set_result(registers, 0, false);
                } else {
                    let v = host_getegid();
                    set_result(registers, v, false);
                }
                Ok(SyscallOutcome::Done(CPUEvent::Nothing))
            },
            SyscallO32::NRGetpid => {
                let v = host_getpid();
                set_result(registers, v, false);
                Ok(SyscallOutcome::Done(CPUEvent::Nothing))
            },
            SyscallO32::NRGettid => {
                let v = host_gettid();
                set_result(registers, v, false);
                Ok(SyscallOutcome::Done(CPUEvent::Nothing))
            },
            SyscallO32::NRSetuid => {
                match host_setuid(a1) {
                    Ok(()) => set_result(registers, 0, false),
                    Err(e) => set_result(registers, e, true),
                }
                Ok(SyscallOutcome::Done(CPUEvent::Nothing))
            },
            SyscallO32::NRSetgid => {
                match host_setgid(a1) {
                    Ok(()) => set_result(registers, 0, false),
                    Err(e) => set_result(registers, e, true),
                }
                Ok(SyscallOutcome::Done(CPUEvent::Nothing))
            },
            SyscallO32::NRChdir => {
                match read_cstring(memory, a1) {
                    Ok(p) => {
                        match host_chdir(&p) {
                            Ok(()) => set_result(registers, 0, false),
                            Err(e) => set_result(registers, e, true),
                        }
                    },
                    Err(()) => set_result(registers, GUEST_EFAULT, true),
                }
                Ok(SyscallOutcome::Done(CPUEvent::Nothing))
            },
            SyscallO32::NRExit | SyscallO32::NRExitGroup => {
                set_result(registers, 0, false);
                Ok(SyscallOutcome::Done(CPUEvent::Exit))
            },
            SyscallO32::NRMmap2 => {
                if a2 == 0 {
                    set_result(registers, GUEST_EINVAL, true);
                    Ok(SyscallOutcome::Done(CPUEvent::Nothing))
                } else {
                    Err(CpuError::UnimplementedSyscall(raw))
                }
            },
            SyscallO32::NRClockGettime => {
                if a2 > 0xFFFF_FFF8 {
                    set_result(registers, GUEST_EFAULT, true);
                    Ok(SyscallOutcome::Done(CPUEvent::Nothing))
                } else {
                    match host_clock_gettime(a1) {
                        Ok((sec, nsec)) => {
                            let secu = #[verifier::truncate] (sec as u32);
                            let nsecu = #[verifier::truncate] (nsec as u32);
                            let ws = vec![secu, nsecu];
                            proof {
                                assert(ws@ =~= seq![secu, nsecu]);
                            }
                            write_words(memory, a2, &ws);
                            proof {
                                assert(memory@ == words_written(
                                    old(memory)@,
                                    old(memory).spec_endianness(),
                                    a2 as int,
                                    seq![secu, nsecu],
                                ));
                            }
                            set_result(registers, 0, false);
                        },
                        Err(e) => set_result(registers, e, true),
                    }
                    Ok(SyscallOutcome::Done(CPUEvent::Nothing))
                }
            },
            SyscallO32::NRTime => {
                match host_clock_gettime(0) {
                    Ok((sec, _nsec)) => {
                        let secu = #[verifier::truncate] (sec as u32);
                        if a1 != 0 && a1 <= 0xFFFF_FFFC {
                            memory.write_word(a1, secu);
                        }
                        set_result(registers, secu, false);
                    },
                    Err(e) => set_result(registers, e, true),
                }
                Ok(SyscallOutcome::Done(CPUEvent::Nothing))
            },
            SyscallO32::NRStat64 | SyscallO32::NRLstat64 => {
                if a2 > 0xFFFF_FF60 {
                    set_result(registers, GUEST_EFAULT, true);
                    Ok(SyscallOutcome::Done(CPUEvent::Nothing))
                } else {
                    match read_cstring(memory, a1) {
                        Ok(p) => {
                            let res = if matches!(n, SyscallO32::NRStat64) {
                                host_stat(&p)
                            } else {
                                host_lstat(&p)
                            };
                            match res {
                                Ok(st) => {
                                    let ws = translate_stat(&st);
                                    write_words(memory, a2, &ws);
                                    proof {
                                        assert(memory@ == words_written(
                                            old(memory)@,
                                            old(memory).spec_endianness(),
                                            a2 as int,
                                            spec_translate_stat(st),
                                        ));
                                    }
                                    set_result(registers, 0, false);
                                },
                                Err(e) => set_result(registers, e, true),
                            }
                        },
                        Err(()) => set_result(registers, GUEST_EFAULT, true),
                    }
                    Ok(SyscallOutcome::Done(CPUEvent::Nothing))
                }
            },
            SyscallO32::NRFstat64 | SyscallO32::NRFstat => {
                if a2 > 0xFFFF_FF60 {
                    set_result(registers, GUEST_EFAULT, true);
                    Ok(SyscallOutcome::Done(CPUEvent::Nothing))
                } else {
                    Ok(SyscallOutcome::Host(HostCall::Fstat { fd: a1, struct_addr: a2 }))
                }
            },
            SyscallO32::NRUname => Ok(SyscallOutcome::Host(HostCall::Uname { addr: a1 })),
            SyscallO32::NRWait4 => Ok(
                SyscallOutcome::Host(
                    HostCall::Wait4 { pid: a1, options: a3, wstatus_addr: a2, rusage_addr: a4 },
                ),
            ),
            SyscallO32::NRFork => Ok(SyscallOutcome::Host(HostCall::Fork)),
            SyscallO32::NRIoctl => {
                if self.config.sys_block_ioctl_on_stdio && a1 < 3 {
                    set_result(registers, 0, false);
                    Ok(SyscallOutcome::Done(CPUEvent::Nothing))
                } else if self.config.sys_ioctl_fail_always {
                    set_result(registers, GUEST_EINVAL, true);
                    Ok(SyscallOutcome::Done(CPUEvent::Nothing))
                } else {
                    Ok(SyscallOutcome::Host(HostCall::Ioctl { fd: a1, request: a2 }))
                }
            },
            SyscallO32::NRDup2 => Ok(SyscallOutcome::Host(HostCall::Dup2 { oldfd: a1, newfd: a2 })),
            SyscallO32::NRClose => Ok(SyscallOutcome::Host(HostCall::Close { fd: a1 })),
            SyscallO32::NROpen => {
                match read_cstring(memory, a1) {
                    Ok(p) => Ok(
                        SyscallOutcome::Host(
                            HostCall::Open { path: p, flags: a2 & !GUEST_O_LARGEFILE, mode: a3 },
                        ),
                    ),
                    Err(()) => {
                        set_result(registers, GUEST_EFAULT, true);
                        Ok(SyscallOutcome::Done(CPUEvent::Nothing))
                    },
                }
            },
            SyscallO32::NRWrite => {
                if a2 as u64 + a3 as u64 > 0x1_0000_0000u64 {
                    set_result(registers, GUEST_EFAULT, true);
                    Ok(SyscallOutcome::Done(CPUEvent::Nothing))
                } else {
                    let bytes = memory.read_slice(a2, a3);
                    Ok(SyscallOutcome::Host(HostCall::Write { fd: a1, bytes }))
                }
            },
            SyscallO32::NRWritev => {
                match translate_iovec(a2, a3, memory) {
                    Ok(entries) => {
                        match gather_bytes(memory, &entries) {
                            Ok(bytes) => Ok(
                                SyscallOutcome::Host(HostCall::Write { fd: a1, bytes }),
                            ),
                            Err(()) => {
                                set_result(registers, GUEST_EFAULT, true);
                                Ok(SyscallOutcome::Done(CPUEvent::Nothing))
                            },
                        }
                    },
                    Err(()) => {
                        set_result(registers, GUEST_EFAULT, true);
                        Ok(SyscallOutcome::Done(CPUEvent::Nothing))
                    },
                }
            },
            SyscallO32::NRRead => {
                if a2 as u64 + a3 as u64 > 0x1_0000_0000u64 {
                    set_result(registers, GUEST_EFAULT, true);
                    Ok(SyscallOutcome::Done(CPUEvent::Nothing))
                } else {
                    let dest = vec![(a2, a3)];
                    proof {
                        assert(dest@ =~= seq![(a2, a3)]);
                    }
                    Ok(SyscallOutcome::Host(HostCall::Read { fd: a1, len: a3, dest }))
                }
            },
            SyscallO32::NRReadv => {
                match translate_iovec(a2, a3, memory) {
                    Ok(entries) => {
                        if !check_iovec_ranges(&entries) {
                            set_result(registers, GUEST_EFAULT, true);
                            Ok(SyscallOutcome::Done(CPUEvent::Nothing))
                        } else {
                            let total = iovec_total_len(&entries);
                            if total > 0xFFFF_FFFFu64 {
                                set_result(registers, GUEST_EINVAL, true);
                                Ok(SyscallOutcome::Done(CPUEvent::Nothing))
                            } else {
                                Ok(
                                    SyscallOutcome::Host(
                                        HostCall::Read {
                                            fd: a1,
                                            len: total as u32,
                                            dest: entries,
                                        },
                                    ),
                                )
                            }
                        }
                    },
                    Err(()) => {
                        set_result(registers, GUEST_EFAULT, true);
                        Ok(SyscallOutcome::Done(CPUEvent::Nothing))
                    },
                }
            },
            SyscallO32::NRLlseek => {
                let sp = registers.read_register(crate::registers::STACK_POINTER);
                let warg = sp.wrapping_add(16);
                if warg > 0xFFFF_FFFC || a4 > 0xFFFF_FFF8 {
                    set_result(registers, GUEST_EFAULT, true);
                    Ok(SyscallOutcome::Done(CPUEvent::Nothing))
                } else {
                    let whence = memory.read_word(warg);
                    Ok(
                        SyscallOutcome::Host(
                            HostCall::Seek {
                                fd: a1,
                                offset_high: a2,
                                offset_low: a3,
                                whence,
                                result_addr: a4,
                            },
                        ),
                    )
                }
            },
            SyscallO32::NRGetcwd => {
                if self.config.sys_fake_root_directory && a2 >= 6 {
                    if a1 > 0xFFFF_FFFA {
                        set_result(registers, GUEST_EFAULT, true);
                        Ok(SyscallOutcome::Done(CPUEvent::Nothing))
                    } else {
                        memory.write_byte(a1, 0x2F);
                        memory.write_byte(a1 + 1, 0x72);
                        memory.write_byte(a1 + 2, 0x6F);
                        memory.write_byte(a1 + 3, 0x6F);
                        memory.write_byte(a1 + 4, 0x74);
                        memory.write_byte(a1 + 5, 0);
                        set_result(registers, a1, false);
                        Ok(SyscallOutcome::Done(CPUEvent::Nothing))
                    }
                } else {
                    Ok(SyscallOutcome::Host(HostCall::Getcwd { buf_addr: a1, size: a2 }))
                }
            },
            SyscallO32::NRFutex => {
                let sp = registers.read_register(crate::registers::STACK_POINTER);
                let arg5a = sp.wrapping_add(16);
                let arg6a = sp.wrapping_add(20);
                if arg5a > 0xFFFF_FFFC || arg6a > 0xFFFF_FFFC || a1 > 0xFFFF_FFFC || (a4 != 0 && a4
                    > 0xFFFF_FFF8) {
                    set_result(registers, GUEST_EFAULT, true);
                    Ok(SyscallOutcome::Done(CPUEvent::Nothing))
                } else {
                    let timeout_sec = if a4 != 0 {
                        memory.read_word(a4)
                    } else {
                        0
                    };
                    let timeout_nsec = if a4 != 0 {
                        memory.read_word(a4 + 4)
                    } else {
                        0
                    };
                    let uaddr2 = memory.read_word(arg5a);
                    let val3 = memory.read_word(arg6a);
                    let current = memory.read_word(a1);
                    Ok(
                        SyscallOutcome::Host(
                            HostCall::Futex {
                                uaddr: a1,
                                op: a2,
                                val: a3,
                                timeout_sec,
                                timeout_nsec,
                                timeout_null: a4 == 0,
                                uaddr2,
                                val3,
                                current,
                            },
                        ),
                    )
                }
            },
            SyscallO32::NRRtSigprocmask => {
                if (a2 != 0 && a2 > 0xFFFF_FFF0) || (a3 != 0 && a3 > 0xFFFF_FFF0) {
                    set_result(registers, GUEST_EFAULT, true);
                    Ok(SyscallOutcome::Done(CPUEvent::Nothing))
                } else {
                    let set = if a2 != 0 {
                        Some(read_words(memory, a2, 4))
                    } else {
                        None
                    };
                    proof {
                        if a2 != 0 {
                            let v = set->Some_0;
                            assert(v@.len() == 4);
                        }
                    }
                    Ok(
                        SyscallOutcome::Host(
                            HostCall::SigProcMask { how: a1, set, oldset_addr: a3 },
                        ),
                    )
                }
            },
            SyscallO32::NRRtSigaction => {
                if (a2 != 0 && a2 > 0xFFFF_FFE4) || (a3 != 0 && a3 > 0xFFFF_FFE4) {
                    set_result(registers, GUEST_EFAULT, true);
                    Ok(SyscallOutcome::Done(CPUEvent::Nothing))
                } else {
                    let act = if a2 != 0 {
                        let ws = read_words(memory, a2, 7);
                        MipsSigaction::from_words(&ws)
                    } else {
                        MipsSigaction::zeroed()
                    };
                    proof {
                        if a2 != 0 {
                            assert(act == sigaction_at(
                                old(memory)@,
                                old(memory).spec_endianness(),
                                a2 as int,
                            ));
                        }
                    }
                    let old_stored = match self.sigactions.get(&a1) {
                        Some(s) => Some(*s),
                        None => None,
                    };
                    self.sigactions.insert(a1, act);
                    let flags = translate_signal_flags(act.flags);
                    let mask = vec![act.mask0, act.mask1, act.mask2, act.mask3];
                    proof {
                        assert(mask@ =~= seq![act.mask0, act.mask1, act.mask2, act.mask3]);
                    }
                    Ok(
                        SyscallOutcome::Host(
                            HostCall::SigAction {
                                signum: a1,
                                mask,
                                flags,
                                oldact_addr: a3,
                                old_stored,
                            },
                        ),
                    )
                }
            },
            SyscallO32::NRExecve => {
                let path = match read_cstring(memory, a1) {
                    Ok(p) => p,
                    Err(()) => {
                        set_result(registers, GUEST_EFAULT, true);
                        return Ok(SyscallOutcome::Done(CPUEvent::Nothing));
                    },
                };
                let argv_ptrs = match read_ptr_array(memory, a2) {
                    Ok(p) => p,
                    Err(()) => {
                        set_result(registers, GUEST_EFAULT, true);
                        return Ok(SyscallOutcome::Done(CPUEvent::Nothing));
                    },
                };
                let envp_ptrs = match read_ptr_array(memory, a3) {
                    Ok(p) => p,
                    Err(()) => {
                        set_result(registers, GUEST_EFAULT, true);
                        return Ok(SyscallOutcome::Done(CPUEvent::Nothing));
                    },
                };
                let argv = match read_cstrings(memory, &argv_ptrs) {
                    Ok(v) => v,
                    Err(()) => {
                        set_result(registers, GUEST_EFAULT, true);
                        return Ok(SyscallOutcome::Done(CPUEvent::Nothing));
                    },
                };
                let envp = match read_cstrings(memory, &envp_ptrs) {
                    Ok(v) => v,
                    Err(()) => {
                        set_result(registers, GUEST_EFAULT, true);
                        return Ok(SyscallOutcome::Done(CPUEvent::Nothing));
                    },
                };
                Ok(SyscallOutcome::Host(HostCall::Execve { path, argv, envp }))
            },
            SyscallO32::NRUnknown => Err(CpuError::UnknownSyscall(raw)),
            _ => Err(CpuError::UnimplementedSyscall(raw)),
        }
    }
}

/// Querying the program break with `brk(0)` is idempotent: it does not
/// move the break, so two queries in a row (over the same memory) return
/// the same value, the break itself.
pub proof fn lemma_brk_query_idempotent(
    s0: System,
    r0: RegisterFile,
    m0: Memory,
    s1: System,
    r1: RegisterFile,
    m1: Memory,
    out1: Result<SyscallOutcome, CpuError>,
    s2: System,
    q0: RegisterFile,
    s3: System,
    r3: RegisterFile,
    m3: Memory,
    out2: Result<SyscallOutcome, CpuError>,
)
    requires
        r0.wf(),
        q0.wf(),
        spec_translate_syscall_number(crate::instructions::rr(r0, 2)) == SyscallO32::NRBrk,
        crate::instructions::rr(r0, 4) == 0,
        syscall_step(s0, r0, m0, s1, r1, m1, out1),
        spec_translate_syscall_number(crate::instructions::rr(q0, 2)) == SyscallO32::NRBrk,
        crate::instructions::rr(q0, 4) == 0,
        syscall_step(s2, q0, m1, s3, r3, m3, out2),
    ensures
        crate::instructions::rr(r1, 2) == m0.spec_break(),
        crate::instructions::rr(r3, 2) == crate::instructions::rr(r1, 2),
        m3.spec_break() == m0.spec_break(),
{
}

/// The bytes `data` scattered across the segments `dest` from index `k`
/// on: each segment takes the next bytes up to its length, and whatever
/// does not fit is dropped.
pub open spec fn scatter_from(m: Seq<u8>, dest: Seq<(u32, u32)>, data: Seq<u8>, k: int) -> Seq<u8>
    decreases dest.len() - k,
    when 0 <= k <= dest.len()
{
    if k >= dest.len() || data.len() == 0 {
        m
    } else {
        let b = dest[k].0 as int;
        let l = if dest[k].1 as int <= data.len() {
            dest[k].1 as int
        } else {
            data.len() as int
        };
        scatter_from(crate::memory::bytes_written(m, b, data.take(l)), dest, data.skip(l), k + 1)
    }
}

/// The bytes `data` scattered across the segments `dest` in order.
pub open spec fn scatter(m: Seq<u8>, dest: Seq<(u32, u32)>, data: Seq<u8>) -> Seq<u8> {
    scatter_from(m, dest, data, 0)
}

/// Writes the bytes `data` into memory across the segments `dest`.
fn scatter_bytes(memory: &mut Memory, dest: &Vec<(u32, u32)>, data: &Vec<u8>)
    requires
        old(memory).wf(),
        iovec_in_range(dest@),
    ensures
        final(memory).wf(),
        final(memory)@ == scatter(old(memory)@, dest@, data@),
        final(memory).spec_endianness() == old(memory).spec_endianness(),
        final(memory).spec_break() == old(memory).spec_break(),
{
    let n = dest.len();
    let total = data.len();
    let mut i: usize = 0;
    let mut off: usize = 0;
    proof {
        assert(data@.skip(0) =~= data@);
    }
    while i < n && off < total
        invariant
            memory.wf(),
            n == dest@.len(),
            total == data@.len(),
            0 <= i <= n,
            0 <= off <= total,
            iovec_in_range(dest@),
            scatter(old(memory)@, dest@, data@) == scatter_from(
                memory@,
                dest@,
                data@.skip(off as int),
                i as int,
            ),
            memory.spec_endianness() == old(memory).spec_endianness(),
            memory.spec_break() == old(memory).spec_break(),
        decreases n - i,
    {
        let (base, seg_len) = dest[i];
        let remaining = total - off;
        let l: usize = if (seg_len as usize) <= remaining {
            seg_len as usize
        } else {
            remaining
        };
        let chunk = vstd::slice::slice_subrange(data.as_slice(), off, off + l);
        let ghost m_before = memory@;
        memory.write_block(base, chunk);
        proof {
            assert(chunk@ =~= data@.skip(off as int).take(l as int));
            assert(memory@ =~= crate::memory::bytes_written(
                m_before,
                base as int,
                data@.skip(off as int).take(l as int),
            ));
            assert(data@.skip(off as int).skip(l as int) =~= data@.skip(off as int + l as int));
        }
        off = off + l;
        i = i + 1;
    }
    proof {
        if off >= total {
            assert(data@.skip(off as int).len() == 0);
            assert(scatter_from(memory@, dest@, data@.skip(off as int), i as int) == memory@);
        }
    }
}

/// The registers after the embedder's reply, for the calls that place
/// the host value in r2 on success and the errno on failure.
pub open spec fn finish_val(
    r0: RegisterFile,
    r1: RegisterFile,
    reply_ok_val: u32,
    err: Option<u32>,
) -> bool {
    match err {
        None => sc_ret(r0, r1, reply_ok_val, false),
        Some(e) => sc_ret(r0, r1, e, true),
    }
}

/// The exact effect of completing a host call with the embedder's reply:
/// what is marshalled back into guest memory, what lands in r2 and r7,
/// and which event comes out. A reply whose shape does not belong to the
/// call is refused without touching the state.
pub open spec fn finish_step(
    call: HostCall,
    reply: Result<HostOk, u32>,
    r0: RegisterFile,
    m0: Memory,
    r1: RegisterFile,
    m1: Memory,
    out: Result<CPUEvent, CpuError>,
) -> bool {
    let e = m0.spec_endianness();
    let mismatch = {
        &&& crate::instructions::regs_same(r0, r1)
        &&& crate::instructions::mem_same(m0, m1)
        &&& out == Err::<CPUEvent, CpuError>(CpuError::HostReplyMismatch)
    };
    match reply {
        Err(errno) => {
            match call {
                HostCall::SigAction { oldact_addr, old_stored, .. } => {
                    let old_act = match old_stored {
                        Some(o) => o,
                        None => MipsSigaction::spec_zeroed(),
                    };
                    if oldact_addr != 0 && oldact_addr as int + 28 <= 0x1_0000_0000 {
                        &&& m1@ == words_written(m0@, e, oldact_addr as int, old_act.spec_words())
                        &&& m1.spec_endianness() == e
                        &&& m1.spec_break() == m0.spec_break()
                        &&& sc_ret(r0, r1, errno, true)
                        &&& out == Ok::<CPUEvent, CpuError>(CPUEvent::Nothing)
                    } else if oldact_addr == 0 {
                        &&& crate::instructions::mem_same(m0, m1)
                        &&& sc_ret(r0, r1, errno, true)
                        &&& out == Ok::<CPUEvent, CpuError>(CPUEvent::Nothing)
                    } else {
                        &&& crate::instructions::regs_same(r0, r1)
                        &&& crate::instructions::mem_same(m0, m1)
                        &&& out == Err::<CPUEvent, CpuError>(
                            CpuError::AddressOverflow(oldact_addr),
                        )
                    }
                },
                _ => {
                    &&& crate::instructions::mem_same(m0, m1)
                    &&& sc_ret(r0, r1, errno, true)
                    &&& out == Ok::<CPUEvent, CpuError>(CPUEvent::Nothing)
                },
            }
        },
        Ok(ok) => match call {
            HostCall::Uname { addr } => match ok {
                HostOk::Bytes(v, data) => {
                    if addr as int + data@.len() <= 0x1_0000_0000 {
                        &&& m1@ == crate::memory::bytes_written(m0@, addr as int, data@)
                        &&& m1.spec_endianness() == e
                        &&& m1.spec_break() == m0.spec_break()
                        &&& sc_ret(r0, r1, v, false)
                        &&& out == Ok::<CPUEvent, CpuError>(CPUEvent::Nothing)
                    } else {
                        &&& crate::instructions::regs_same(r0, r1)
                        &&& crate::instructions::mem_same(m0, m1)
                        &&& out == Err::<CPUEvent, CpuError>(CpuError::AddressOverflow(addr))
                    }
                },
                _ => mismatch,
            },
            HostCall::Wait4 { wstatus_addr, rusage_addr, .. } => match ok {
                HostOk::Wait(v, wstatus, ru) => {
                    if ru@.len() != 18 {
                        mismatch
                    } else if wstatus_addr != 0 && wstatus_addr as int + 4 > 0x1_0000_0000 {
                        &&& crate::instructions::regs_same(r0, r1)
                        &&& crate::instructions::mem_same(m0, m1)
                        &&& out == Err::<CPUEvent, CpuError>(
                            CpuError::AddressOverflow(wstatus_addr),
                        )
                    } else if rusage_addr != 0 && rusage_addr as int + 72 > 0x1_0000_0000 {
                        &&& crate::instructions::regs_same(r0, r1)
                        &&& crate::instructions::mem_same(m0, m1)
                        &&& out == Err::<CPUEvent, CpuError>(
                            CpuError::AddressOverflow(rusage_addr),
                        )
                    } else {
                        let after_status = if wstatus_addr != 0 {
                            word_seq(m0@, e, wstatus_addr as int, wstatus)
                        } else {
                            m0@
                        };
                        let after_rusage = if rusage_addr != 0 {
                            words_written(after_status, e, rusage_addr as int, ru@)
                        } else {
                            after_status
                        };
                        &&& m1@ == after_rusage
                        &&& m1.spec_endianness() == e
                        &&& m1.spec_break() == m0.spec_break()
                        &&& sc_ret(r0, r1, v, false)
                        &&& out == Ok::<CPUEvent, CpuError>(CPUEvent::Nothing)
                    }
                },
                _ => mismatch,
            },
            HostCall::Fstat { struct_addr, .. } => match ok {
                HostOk::Stat(st) => {
                    if struct_addr as int + 160 <= 0x1_0000_0000 {
                        &&& m1@ == words_written(m0@, e, struct_addr as int, spec_translate_stat(st))
                        &&& m1.spec_endianness() == e
                        &&& m1.spec_break() == m0.spec_break()
                        &&& sc_ret(r0, r1, 0, false)
                        &&& out == Ok::<CPUEvent, CpuError>(CPUEvent::Nothing)
                    } else {
                        &&& crate::instructions::regs_same(r0, r1)
                        &&& crate::instructions::mem_same(m0, m1)
                        &&& out == Err::<CPUEvent, CpuError>(CpuError::AddressOverflow(struct_addr))
                    }
                },
                _ => mismatch,
            },
            HostCall::Fork => match ok {
                HostOk::Val(v) => {
                    &&& crate::instructions::mem_same(m0, m1)
                    &&& sc_ret(r0, r1, v, false)
                    &&& out == Ok::<CPUEvent, CpuError>(CPUEvent::Fork(v))
                },
                _ => mismatch,
            },
            HostCall::Execve { .. } | HostCall::Ioctl { .. } | HostCall::Dup2 { .. }
                | HostCall::Open { .. } | HostCall::Write { .. } | HostCall::Close { .. }
                | HostCall::Futex { .. } => match ok {
                HostOk::Val(v) => {
                    &&& crate::instructions::mem_same(m0, m1)
                    &&& sc_ret(r0, r1, v, false)
                    &&& out == Ok::<CPUEvent, CpuError>(CPUEvent::Nothing)
                },
                _ => mismatch,
            },
            HostCall::Read { len, dest, .. } => match ok {
                HostOk::Bytes(v, data) => {
                    if data@.len() > len as int {
                        mismatch
                    } else if !iovec_in_range(dest@) {
                        &&& crate::instructions::regs_same(r0, r1)
                        &&& crate::instructions::mem_same(m0, m1)
                        &&& out == Err::<CPUEvent, CpuError>(CpuError::HostReplyMismatch)
                    } else {
                        &&& m1@ == scatter(m0@, dest@, data@)
                        &&& m1.spec_endianness() == e
                        &&& m1.spec_break() == m0.spec_break()
                        &&& sc_ret(r0, r1, v, false)
                        &&& out == Ok::<CPUEvent, CpuError>(CPUEvent::Nothing)
                    }
                },
                _ => mismatch,
            },
            HostCall::Seek { result_addr, .. } => match ok {
                HostOk::Val64(x) => {
                    if result_addr as int + 8 <= 0x1_0000_0000 {
                        &&& m1@ == words_written(
                            m0@,
                            e,
                            result_addr as int,
                            seq![x as u32, (x >> 32) as u32],
                        )
                        &&& m1.spec_endianness() == e
                        &&& m1.spec_break() == m0.spec_break()
                        &&& sc_ret(r0, r1, 0, false)
                        &&& out == Ok::<CPUEvent, CpuError>(CPUEvent::Nothing)
                    } else {
                        &&& crate::instructions::regs_same(r0, r1)
                        &&& crate::instructions::mem_same(m0, m1)
                        &&& out == Err::<CPUEvent, CpuError>(CpuError::AddressOverflow(result_addr))
                    }
                },
                _ => mismatch,
            },
            HostCall::Getcwd { buf_addr, size } => match ok {
                HostOk::Bytes(_v, data) => {
                    if data@.len() > size as int {
                        mismatch
                    } else if buf_addr as int + data@.len() <= 0x1_0000_0000 {
                        &&& m1@ == crate::memory::bytes_written(m0@, buf_addr as int, data@)
                        &&& m1.spec_endianness() == e
                        &&& m1.spec_break() == m0.spec_break()
                        &&& sc_ret(r0, r1, buf_addr, false)
                        &&& out == Ok::<CPUEvent, CpuError>(CPUEvent::Nothing)
                    } else {
                        &&& crate::instructions::regs_same(r0, r1)
                        &&& crate::instructions::mem_same(m0, m1)
                        &&& out == Err::<CPUEvent, CpuError>(CpuError::AddressOverflow(buf_addr))
                    }
                },
                _ => mismatch,
            },
            HostCall::SigProcMask { oldset_addr, .. } => match ok {
                HostOk::Mask(ws) => {
                    if ws@.len() != 4 {
                        mismatch
                    } else if oldset_addr == 0 {
                        &&& crate::instructions::mem_same(m0, m1)
                        &&& sc_ret(r0, r1, 0, false)
                        &&& out == Ok::<CPUEvent, CpuError>(CPUEvent::Nothing)
                    } else if oldset_addr as int + 16 <= 0x1_0000_0000 {
                        &&& m1@ == words_written(m0@, e, oldset_addr as int, ws@)
                        &&& m1.spec_endianness() == e
                        &&& m1.spec_break() == m0.spec_break()
                        &&& sc_ret(r0, r1, 0, false)
                        &&& out == Ok::<CPUEvent, CpuError>(CPUEvent::Nothing)
                    } else {
                        &&& crate::instructions::regs_same(r0, r1)
                        &&& crate::instructions::mem_same(m0, m1)
                        &&& out == Err::<CPUEvent, CpuError>(CpuError::AddressOverflow(oldset_addr))
                    }
                },
                _ => mismatch,
            },
            HostCall::SigAction { oldact_addr, old_stored, .. } => match ok {
                HostOk::Mask(ws) => {
                    if ws@.len() != 4 {
                        mismatch
                    } else {
                        let old_act = match old_stored {
                            Some(o) => o,
                            None => MipsSigaction {
                                handler: 0,
                                mask0: ws@[0],
                                mask1: ws@[1],
                                mask2: ws@[2],
                                mask3: ws@[3],
                                flags: 0,
                                restorer: 0,
                            },
                        };
                        if oldact_addr == 0 {
                            &&& crate::instructions::mem_same(m0, m1)
                            &&& sc_ret(r0, r1, 0, false)
                            &&& out == Ok::<CPUEvent, CpuError>(CPUEvent::Nothing)
                        } else if oldact_addr as int + 28 <= 0x1_0000_0000 {
                            &&& m1@ == words_written(
                                m0@,
                                e,
                                oldact_addr as int,
                                old_act.spec_words(),
                            )
                            &&& m1.spec_endianness() == e
                            &&& m1.spec_break() == m0.spec_break()
                            &&& sc_ret(r0, r1, 0, false)
                            &&& out == Ok::<CPUEvent, CpuError>(CPUEvent::Nothing)
                        } else {
                            &&& crate::instructions::regs_same(r0, r1)
                            &&& crate::instructions::mem_same(m0, m1)
                            &&& out == Err::<CPUEvent, CpuError>(
                                CpuError::AddressOverflow(oldact_addr),
                            )
                        }
                    }
                },
                _ => mismatch,
            },
        },
    }
}

/// Completes a host call with the embedder's reply: marshals the results
/// back into guest registers and memory, following `finish_step`.
pub fn finish_syscall(
    call: &HostCall,
    reply: Result<HostOk, u32>,
    registers: &mut RegisterFile,
    memory: &mut Memory,
) -> (r: Result<CPUEvent, CpuError>)
    requires
        old(registers).wf(),
        old(memory).wf(),
    ensures
        final(registers).wf(),
        final(memory).wf(),
        finish_step(*call, reply, *old(registers), *old(memory), *final(registers), *final(memory), r),
{
    match reply {
        Err(errno) => {
            match call {
                HostCall::SigAction { oldact_addr, old_stored, .. } => {
                    let old_act = match old_stored {
                        Some(o) => *o,
                        None => MipsSigaction::zeroed(),
                    };
                    if *oldact_addr != 0 && *oldact_addr <= 0xFFFF_FFE4 {
                        let ws = old_act.to_words();
                        write_words(memory, *oldact_addr, &ws);
                        set_result(registers, errno, true);
                        Ok(CPUEvent::Nothing)
                    } else if *oldact_addr == 0 {
                        set_result(registers, errno, true);
                        Ok(CPUEvent::Nothing)
                    } else {
                        Err(CpuError::AddressOverflow(*oldact_addr))
                    }
                },
                _ => {
                    set_result(registers, errno, true);
                    Ok(CPUEvent::Nothing)
                },
            }
        },
        Ok(ok) => match call {
            HostCall::Uname { addr } => match ok {
                HostOk::Bytes(v, data) => {
                    if data.len() as u64 <= 0x1_0000_0000u64 && *addr as u64 + data.len() as u64
                        <= 0x1_0000_0000u64 {
                        memory.write_block(*addr, data.as_slice());
                        proof {
                            assert(memory@ =~= crate::memory::bytes_written(
                                old(memory)@,
                                *addr as int,
                                data@,
                            ));
                        }
                        set_result(registers, v, false);
                        Ok(CPUEvent::Nothing)
                    } else {
                        Err(CpuError::AddressOverflow(*addr))
                    }
                },
                _ => Err(CpuError::HostReplyMismatch),
            },
            HostCall::Wait4 { wstatus_addr, rusage_addr, .. } => match ok {
                HostOk::Wait(v, wstatus, ru) => {
                    if ru.len() != 18 {
                        Err(CpuError::HostReplyMismatch)
                    } else if *wstatus_addr != 0 && *wstatus_addr > 0xFFFF_FFFC {
                        Err(CpuError::AddressOverflow(*wstatus_addr))
                    } else if *rusage_addr != 0 && *rusage_addr > 0xFFFF_FFB8 {
                        Err(CpuError::AddressOverflow(*rusage_addr))
                    } else {
                        if *wstatus_addr != 0 {
                            memory.write_word(*wstatus_addr, wstatus);
                        }
                        if *rusage_addr != 0 {
                            write_words(memory, *rusage_addr, &ru);
                        }
                        set_result(registers, v, false);
                        Ok(CPUEvent::Nothing)
                    }
                },
                _ => Err(CpuError::HostReplyMismatch),
            },
            HostCall::Fstat { struct_addr, .. } => match ok {
                HostOk::Stat(st) => {
                    if *struct_addr <= 0xFFFF_FF60 {
                        let ws = translate_stat(&st);
                        write_words(memory, *struct_addr, &ws);
                        set_result(registers, 0, false);
                        Ok(CPUEvent::Nothing)
                    } else {
                        Err(CpuError::AddressOverflow(*struct_addr))
                    }
                },
                _ => Err(CpuError::HostReplyMismatch),
            },
            HostCall::Fork => match ok {
                HostOk::Val(v) => {
                    set_result(registers, v, false);
                    Ok(CPUEvent::Fork(v))
                },
                _ => Err(CpuError::HostReplyMismatch),
            },
            HostCall::Execve { .. } | HostCall::Ioctl { .. } | HostCall::Dup2 { .. }
                | HostCall::Open { .. } | HostCall::Write { .. } | HostCall::Close { .. }
                | HostCall::Futex { .. } => match ok {
                HostOk::Val(v) => {
                    set_result(registers, v, false);
                    Ok(CPUEvent::Nothing)
                },
                _ => Err(CpuError::HostReplyMismatch),
            },
            HostCall::Read { len, dest, .. } => match ok {
                HostOk::Bytes(v, data) => {
                    if data.len() as u64 > *len as u64 {
                        Err(CpuError::HostReplyMismatch)
                    } else if !check_iovec_ranges(dest) {
                        Err(CpuError::HostReplyMismatch)
                    } else {
                        scatter_bytes(memory, dest, &data);
                        set_result(registers, v, false);
                        Ok(CPUEvent::Nothing)
                    }
                },
                _ => Err(CpuError::HostReplyMismatch),
            },
            HostCall::Seek { result_addr, .. } => match ok {
                HostOk::Val64(x) => {
                    if *result_addr <= 0xFFFF_FFF8 {
                        let lo = #[verifier::truncate] (x as u32);
                        let hi = #[verifier::truncate] ((x >> 32) as u32);
                        let ws = vec![lo, hi];
                        proof {
                            assert(ws@ =~= seq![x as u32, (x >> 32) as u32]);
                        }
                        write_words(memory, *result_addr, &ws);
                        set_result(registers, 0, false);
                        Ok(CPUEvent::Nothing)
                    } else {
                        Err(CpuError::AddressOverflow(*result_addr))
                    }
                },
                _ => Err(CpuError::HostReplyMismatch),
            },
            HostCall::Getcwd { buf_addr, size } => match ok {
                HostOk::Bytes(_v, data) => {
                    if data.len() as u64 > *size as u64 {
                        Err(CpuError::HostReplyMismatch)
                    } else if *buf_addr as u64 + data.len() as u64 <= 0x1_0000_0000u64 {
                        // the length is bounded by `size`, so the sum fits
                        memory.write_block(*buf_addr, data.as_slice());
                        proof {
                            assert(memory@ =~= crate::memory::bytes_written(
                                old(memory)@,
                                *buf_addr as int,
                                data@,
                            ));
                        }
                        set_result(registers, *buf_addr, false);
                        Ok(CPUEvent::Nothing)
                    } else {
                        Err(CpuError::AddressOverflow(*buf_addr))
                    }
                },
                _ => Err(CpuError::HostReplyMismatch),
            },
            HostCall::SigProcMask { oldset_addr, .. } => match ok {
                HostOk::Mask(ws) => {
                    if ws.len() != 4 {
                        Err(CpuError::HostReplyMismatch)
                    } else if *oldset_addr == 0 {
                        set_result(registers, 0, false);
                        Ok(CPUEvent::Nothing)
                    } else if *oldset_addr <= 0xFFFF_FFF0 {
                        write_words(memory, *oldset_addr, &ws);
                        set_result(registers, 0, false);
                        Ok(CPUEvent::Nothing)
                    } else {
                        Err(CpuError::AddressOverflow(*oldset_addr))
                    }
                },
                _ => Err(CpuError::HostReplyMismatch),
            },
            HostCall::SigAction { oldact_addr, old_stored, .. } => match ok {
                HostOk::Mask(ws) => {
                    if ws.len() != 4 {
                        Err(CpuError::HostReplyMismatch)
                    } else {
                        let old_act = match old_stored {
                            Some(o) => *o,
                            None => MipsSigaction {
                                handler: 0,
                                mask0: ws[0],
                                mask1: ws[1],
                                mask2: ws[2],
                                mask3: ws[3],
                                flags: 0,
                                restorer: 0,
                            },
                        };
                        if *oldact_addr == 0 {
                            set_result(registers, 0, false);
                            Ok(CPUEvent::Nothing)
                        } else if *oldact_addr <= 0xFFFF_FFE4 {
                            let ows = old_act.to_words();
                            write_words(memory, *oldact_addr, &ows);
                            set_result(registers, 0, false);
                            Ok(CPUEvent::Nothing)
                        } else {
                            Err(CpuError::AddressOverflow(*oldact_addr))
                        }
                    }
                },
                _ => Err(CpuError::HostReplyMismatch),
            },
        },
    }
}

} // verus!
