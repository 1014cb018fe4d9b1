use mipsemu::control::{CPUFlags, CPUFlagsSyscalls, EmulatorContext, RunOutcome};
use mipsemu::event::{CPUEvent, CpuError};
use mipsemu::memory::{Endianness, Memory};
use mipsemu::registers::RegisterFile;
use mipsemu::syscall_numbers::{translate_syscall_number, SyscallO32};
use mipsemu::syscalls::{
    finish_syscall, translate_iovec, translate_signal_flags, translate_stat, HostCall, HostOk,
    HostStat, System, SyscallOutcome,
};

fn itype(op: u32, rs: u32, rt: u32, imm: u32) -> u32 {
    (op << 26) | (rs << 21) | (rt << 16) | (imm & 0xFFFF)
}

fn load_program(m: &mut Memory, base: u32, words: &[u32]) {
    let mut a = base;
    for &w in words {
        m.write_word(a, w);
        a += 4;
    }
}

fn fresh() -> (System, RegisterFile, Memory) {
    (
        System::new(CPUFlags::default().syscalls_conf),
        RegisterFile::new(0x7FFF_FF00),
        Memory::new(Endianness::BigEndian),
    )
}

fn syscall(regs: &mut RegisterFile, number: u32, args: &[u32]) {
    regs.write_register(2, number);
    for (i, a) in args.iter().enumerate() {
        regs.write_register(4 + i as u32, *a);
    }
}

#[test]
fn test_syscall_number_mapping() {
    assert_eq!(translate_syscall_number(4001), SyscallO32::NRExit);
    assert_eq!(translate_syscall_number(4003), SyscallO32::NRRead);
    assert_eq!(translate_syscall_number(4004), SyscallO32::NRWrite);
    assert_eq!(translate_syscall_number(4045), SyscallO32::NRBrk);
    assert_eq!(translate_syscall_number(4120), SyscallO32::NRClone);
    assert_eq!(translate_syscall_number(4146), SyscallO32::NRWritev);
    assert_eq!(translate_syscall_number(4213), SyscallO32::NRStat64);
    assert_eq!(translate_syscall_number(4246), SyscallO32::NRExitGroup);
    assert_eq!(translate_syscall_number(4283), SyscallO32::NRSetThreadArea);
    assert_eq!(translate_syscall_number(4366), SyscallO32::NRStatx);
    assert_eq!(translate_syscall_number(3999), SyscallO32::NRUnknown);
    assert_eq!(translate_syscall_number(4367), SyscallO32::NRUnknown);
    assert_eq!(translate_syscall_number(0), SyscallO32::NRUnknown);
}

#[test]
fn test_brk_query_is_idempotent() {
    let (mut sys, mut regs, mut mem) = fresh();
    mem.update_program_break(0x0050_0000);
    syscall(&mut regs, 4045, &[0]);
    sys.eval_syscall(&mut regs, &mut mem).unwrap();
    let first = regs.read_register(2);
    syscall(&mut regs, 4045, &[0]);
    sys.eval_syscall(&mut regs, &mut mem).unwrap();
    let second = regs.read_register(2);
    assert_eq!(first, 0x0050_0000);
    assert_eq!(first, second);
    // setting the break returns the new value, and a later query sees it
    syscall(&mut regs, 4045, &[0x0060_0000]);
    sys.eval_syscall(&mut regs, &mut mem).unwrap();
    assert_eq!(regs.read_register(2), 0x0060_0000);
    assert_eq!(mem.get_program_break(), 0x0060_0000);
}

#[test]
fn test_fake_root_identity() {
    let conf = CPUFlagsSyscalls {
        sys_fake_root: true,
        sys_fake_root_directory: false,
        sys_block_ioctl_on_stdio: false,
        sys_ioctl_fail_always: false,
    };
    let mut sys = System::new(conf);
    let mut regs = RegisterFile::new(0x7FFF_FF00);
    let mut mem = Memory::new(Endianness::BigEndian);
    for n in [4024u32, 4049, 4047, 4050] {
        regs.write_register(2, n);
        let out = sys.eval_syscall(&mut regs, &mut mem).unwrap();
        assert!(matches!(out, SyscallOutcome::Done(CPUEvent::Nothing)));
        assert_eq!(regs.read_register(2), 0, "number {}", n);
        assert_eq!(regs.read_register(7), 0, "number {}", n);
    }
}

#[test]
fn test_getuid_under_fake_root_scenario() {
    // the whole path through the control loop: getuid returns 0 in r2
    // with r7 clear, whatever the real host uid is
    let mut m = Memory::new(Endianness::BigEndian);
    load_program(&mut m, 0x1000, &[
        itype(0x09, 0, 2, 4024),                     // addiu r2, r0, getuid
        0x0C,                                        // syscall
        (2 << 21) | (3 << 11) | 0x21,                // addu r3, r2, r0
        itype(0x09, 0, 2, 4246),                     // addiu r2, r0, exit_group
        0x0C,
    ]);
    let mut flags = CPUFlags::default();
    flags.syscalls_conf.sys_fake_root = true;
    let mut ctx = EmulatorContext::start(m, 0x7FFF_FFF0, flags, None);
    ctx.run_program(0x1000);
    assert!(matches!(ctx.run(100).unwrap(), RunOutcome::Exited));
    assert_eq!(ctx.registers().read_register(3), 0);
    assert_eq!(ctx.registers().read_register(7), 0);
}

#[test]
fn test_getppid_is_pinned() {
    let (mut sys, mut regs, mut mem) = fresh();
    syscall(&mut regs, 4064, &[]);
    sys.eval_syscall(&mut regs, &mut mem).unwrap();
    assert_eq!(regs.read_register(2), 0x47);
    assert_eq!(regs.read_register(7), 0);
}

#[test]
fn test_set_thread_area_accepted() {
    let (mut sys, mut regs, mut mem) = fresh();
    syscall(&mut regs, 4283, &[0x1234]);
    sys.eval_syscall(&mut regs, &mut mem).unwrap();
    assert_eq!(regs.read_register(2), 0);
    assert_eq!(regs.read_register(7), 0);
    syscall(&mut regs, 4252, &[0x1234]);
    sys.eval_syscall(&mut regs, &mut mem).unwrap();
    assert_eq!(regs.read_register(2), 0);
}

#[test]
fn test_exit_calls_produce_exit_event() {
    for n in [4001u32, 4246] {
        let (mut sys, mut regs, mut mem) = fresh();
        syscall(&mut regs, n, &[3]);
        let out = sys.eval_syscall(&mut regs, &mut mem).unwrap();
        assert!(matches!(out, SyscallOutcome::Done(CPUEvent::Exit)));
    }
}

#[test]
fn test_mmap2_zero_length_and_unknown_numbers() {
    let (mut sys, mut regs, mut mem) = fresh();
    // a zero length is an invalid argument
    syscall(&mut regs, 4210, &[0, 0]);
    sys.eval_syscall(&mut regs, &mut mem).unwrap();
    assert_eq!(regs.read_register(2), 22);
    assert_eq!(regs.read_register(7), 1);
    // any other mapping request is unimplemented and fatal
    syscall(&mut regs, 4210, &[0, 4096]);
    assert!(matches!(
        sys.eval_syscall(&mut regs, &mut mem),
        Err(CpuError::UnimplementedSyscall(4210))
    ));
    // a number outside the table is fatal
    syscall(&mut regs, 5000, &[]);
    assert!(matches!(
        sys.eval_syscall(&mut regs, &mut mem),
        Err(CpuError::UnknownSyscall(5000))
    ));
    // a recognised but unimplemented call is fatal with its number
    syscall(&mut regs, 4037, &[9]);  // kill
    assert!(matches!(
        sys.eval_syscall(&mut regs, &mut mem),
        Err(CpuError::UnimplementedSyscall(4037))
    ));
}

#[test]
fn test_ioctl_policies() {
    let conf = CPUFlagsSyscalls {
        sys_fake_root: false,
        sys_fake_root_directory: false,
        sys_block_ioctl_on_stdio: true,
        sys_ioctl_fail_always: false,
    };
    let mut sys = System::new(conf);
    let mut regs = RegisterFile::new(0x7FFF_FF00);
    let mut mem = Memory::new(Endianness::BigEndian);
    syscall(&mut regs, 4054, &[1, 0x5401, 0]);
    sys.eval_syscall(&mut regs, &mut mem).unwrap();
    assert_eq!(regs.read_register(2), 0);
    assert_eq!(regs.read_register(7), 0);

    let conf = CPUFlagsSyscalls {
        sys_fake_root: false,
        sys_fake_root_directory: false,
        sys_block_ioctl_on_stdio: false,
        sys_ioctl_fail_always: true,
    };
    let mut sys = System::new(conf);
    syscall(&mut regs, 4054, &[1, 0x5401, 0]);
    sys.eval_syscall(&mut regs, &mut mem).unwrap();
    assert_eq!(regs.read_register(2), 22);
    assert_eq!(regs.read_register(7), 1);
}

#[test]
fn test_fake_cwd() {
    let conf = CPUFlagsSyscalls {
        sys_fake_root: false,
        sys_fake_root_directory: true,
        sys_block_ioctl_on_stdio: false,
        sys_ioctl_fail_always: false,
    };
    let mut sys = System::new(conf);
    let mut regs = RegisterFile::new(0x7FFF_FF00);
    let mut mem = Memory::new(Endianness::BigEndian);
    syscall(&mut regs, 4203, &[0x3000, 64]);
    sys.eval_syscall(&mut regs, &mut mem).unwrap();
    assert_eq!(regs.read_register(2), 0x3000);
    assert_eq!(regs.read_register(7), 0);
    assert_eq!(mem.read_slice(0x3000, 6).as_slice(), b"/root\0");
}

#[test]
fn test_open_strips_largefile_flag() {
    let (mut sys, mut regs, mut mem) = fresh();
    mem.write_block(0x2000, b"/dev/null\0");
    syscall(&mut regs, 4005, &[0x2000, 0x2002, 0o644]);
    let out = sys.eval_syscall(&mut regs, &mut mem).unwrap();
    match out {
        SyscallOutcome::Host(HostCall::Open { path, flags, mode }) => {
            assert_eq!(path.as_slice(), b"/dev/null");
            assert_eq!(flags, 0x0002);
            assert_eq!(mode, 0o644);
        },
        _ => panic!("expected an open request"),
    }
}

#[test]
fn test_read_scatters_into_guest_memory() {
    let (mut sys, mut regs, mut mem) = fresh();
    syscall(&mut regs, 4003, &[5, 0x4000, 8]);
    let out = sys.eval_syscall(&mut regs, &mut mem).unwrap();
    let call = match out {
        SyscallOutcome::Host(c) => c,
        _ => panic!("expected a host call"),
    };
    match &call {
        HostCall::Read { fd, len, dest } => {
            assert_eq!(*fd, 5);
            assert_eq!(*len, 8);
            assert_eq!(dest.as_slice(), &[(0x4000u32, 8u32)]);
        },
        _ => panic!("expected a read request"),
    }
    let ev = finish_syscall(&call, Ok(HostOk::Bytes(3, b"abc".to_vec())), &mut regs, &mut mem)
        .unwrap();
    assert!(matches!(ev, CPUEvent::Nothing));
    assert_eq!(regs.read_register(2), 3);
    assert_eq!(regs.read_register(7), 0);
    assert_eq!(mem.read_slice(0x4000, 3).as_slice(), b"abc");
}

#[test]
fn test_readv_gathers_iovec_and_scatters() {
    let (mut sys, mut regs, mut mem) = fresh();
    // two iovec entries: four bytes at 0x5000, two at 0x6000
    mem.write_word(0x2000, 0x5000);
    mem.write_word(0x2004, 4);
    mem.write_word(0x2008, 0x6000);
    mem.write_word(0x200C, 2);
    syscall(&mut regs, 4145, &[7, 0x2000, 2]);
    let out = sys.eval_syscall(&mut regs, &mut mem).unwrap();
    let call = match out {
        SyscallOutcome::Host(c) => c,
        _ => panic!("expected a host call"),
    };
    match &call {
        HostCall::Read { fd, len, dest } => {
            assert_eq!(*fd, 7);
            assert_eq!(*len, 6);
            assert_eq!(dest.as_slice(), &[(0x5000u32, 4u32), (0x6000u32, 2u32)]);
        },
        _ => panic!("expected a read request"),
    }
    finish_syscall(&call, Ok(HostOk::Bytes(6, b"abcdef".to_vec())), &mut regs, &mut mem).unwrap();
    assert_eq!(mem.read_slice(0x5000, 4).as_slice(), b"abcd");
    assert_eq!(mem.read_slice(0x6000, 2).as_slice(), b"ef");
}

#[test]
fn test_writev_gathers_guest_bytes() {
    let (mut sys, mut regs, mut mem) = fresh();
    mem.write_block(0x5000, b"wor");
    mem.write_block(0x6000, b"ds");
    mem.write_word(0x2000, 0x5000);
    mem.write_word(0x2004, 3);
    mem.write_word(0x2008, 0x6000);
    mem.write_word(0x200C, 2);
    syscall(&mut regs, 4146, &[1, 0x2000, 2]);
    let out = sys.eval_syscall(&mut regs, &mut mem).unwrap();
    match out {
        SyscallOutcome::Host(HostCall::Write { fd, bytes }) => {
            assert_eq!(fd, 1);
            assert_eq!(bytes.as_slice(), b"words");
        },
        _ => panic!("expected a write request"),
    }
}

#[test]
fn test_llseek_writes_back_both_halves() {
    let (mut sys, mut regs, mut mem) = fresh();
    // the whence argument is the fifth, read from the stack
    let sp = regs.read_register(29);
    mem.write_word(sp + 16, 2);
    syscall(&mut regs, 4140, &[3, 1, 0x8000_0000, 0x7000]);
    let out = sys.eval_syscall(&mut regs, &mut mem).unwrap();
    let call = match out {
        SyscallOutcome::Host(c) => c,
        _ => panic!("expected a host call"),
    };
    match &call {
        HostCall::Seek { fd, offset_high, offset_low, whence, result_addr } => {
            assert_eq!(*fd, 3);
            assert_eq!(*offset_high, 1);
            assert_eq!(*offset_low, 0x8000_0000);
            assert_eq!(*whence, 2);
            assert_eq!(*result_addr, 0x7000);
        },
        _ => panic!("expected a seek request"),
    }
    finish_syscall(&call, Ok(HostOk::Val64(0x0000_0001_8000_0040)), &mut regs, &mut mem).unwrap();
    assert_eq!(regs.read_register(2), 0);
    // the 64-bit result lands as the low word then the high word
    assert_eq!(mem.read_word(0x7000), 0x8000_0040);
    assert_eq!(mem.read_word(0x7004), 1);
}

#[test]
fn test_sigaction_stores_and_returns_previous() {
    let (mut sys, mut regs, mut mem) = fresh();
    // install a first handler for signal 2
    mem.write_word(0x2000, 0x0040_1000);  // handler
    mem.write_word(0x2004, 0xAAAA_0001);  // mask words
    mem.write_word(0x2008, 2);
    mem.write_word(0x200C, 3);
    mem.write_word(0x2010, 4);
    mem.write_word(0x2014, 0x0800_0000);  // guest ONSTACK flag
    mem.write_word(0x2018, 0);            // restorer
    syscall(&mut regs, 4194, &[2, 0x2000, 0]);
    let out = sys.eval_syscall(&mut regs, &mut mem).unwrap();
    let call = match out {
        SyscallOutcome::Host(c) => c,
        _ => panic!("expected a host call"),
    };
    match &call {
        HostCall::SigAction { signum, mask, flags, oldact_addr, old_stored } => {
            assert_eq!(*signum, 2);
            assert_eq!(mask.as_slice(), &[0xAAAA_0001, 2, 3, 4]);
            assert_eq!(*flags, 0x0800_0000);
            assert_eq!(*oldact_addr, 0);
            assert!(old_stored.is_none());
        },
        _ => panic!("expected a sigaction request"),
    }
    finish_syscall(&call, Ok(HostOk::Mask(vec![0, 0, 0, 0])), &mut regs, &mut mem).unwrap();
    assert_eq!(regs.read_register(2), 0);

    // a second installation returns the stored record in oldact
    mem.write_word(0x2000, 0x0040_2000);
    syscall(&mut regs, 4194, &[2, 0x2000, 0x3000]);
    let out = sys.eval_syscall(&mut regs, &mut mem).unwrap();
    let call = match out {
        SyscallOutcome::Host(c) => c,
        _ => panic!("expected a host call"),
    };
    match &call {
        HostCall::SigAction { old_stored, .. } => {
            let old = (*old_stored).expect("the first record should be stored");
            assert_eq!(old.handler, 0x0040_1000);
            assert_eq!(old.mask0, 0xAAAA_0001);
        },
        _ => panic!("expected a sigaction request"),
    }
    finish_syscall(&call, Ok(HostOk::Mask(vec![0, 0, 0, 0])), &mut regs, &mut mem).unwrap();
    assert_eq!(mem.read_word(0x3000), 0x0040_1000);
    assert_eq!(mem.read_word(0x3004), 0xAAAA_0001);
    assert_eq!(mem.read_word(0x3014), 0x0800_0000);
}

#[test]
fn test_sigprocmask_shape() {
    let (mut sys, mut regs, mut mem) = fresh();
    mem.write_word(0x2000, 0x0000_0004);
    mem.write_word(0x2004, 0);
    mem.write_word(0x2008, 0);
    mem.write_word(0x200C, 0);
    syscall(&mut regs, 4195, &[0, 0x2000, 0x3000]);
    let out = sys.eval_syscall(&mut regs, &mut mem).unwrap();
    let call = match out {
        SyscallOutcome::Host(c) => c,
        _ => panic!("expected a host call"),
    };
    match &call {
        HostCall::SigProcMask { how, set, oldset_addr } => {
            assert_eq!(*how, 0);
            assert_eq!(set.as_ref().unwrap().as_slice(), &[4, 0, 0, 0]);
            assert_eq!(*oldset_addr, 0x3000);
        },
        _ => panic!("expected a mask request"),
    }
    finish_syscall(&call, Ok(HostOk::Mask(vec![9, 8, 7, 6])), &mut regs, &mut mem).unwrap();
    assert_eq!(mem.read_word(0x3000), 9);
    assert_eq!(mem.read_word(0x300C), 6);
    // a failed host call hands the errno to the guest instead
    syscall(&mut regs, 4195, &[0, 0x2000, 0]);
    let out = sys.eval_syscall(&mut regs, &mut mem).unwrap();
    let call = match out {
        SyscallOutcome::Host(c) => c,
        _ => panic!("expected a host call"),
    };
    finish_syscall(&call, Err(22), &mut regs, &mut mem).unwrap();
    assert_eq!(regs.read_register(2), 22);
    assert_eq!(regs.read_register(7), 1);
}

#[test]
fn test_fork_reply_becomes_event() {
    let (mut sys, mut regs, mut mem) = fresh();
    syscall(&mut regs, 4002, &[]);
    let out = sys.eval_syscall(&mut regs, &mut mem).unwrap();
    let call = match out {
        SyscallOutcome::Host(c) => c,
        _ => panic!("expected a host call"),
    };
    assert!(matches!(call, HostCall::Fork));
    let ev = finish_syscall(&call, Ok(HostOk::Val(1234)), &mut regs, &mut mem).unwrap();
    assert!(matches!(ev, CPUEvent::Fork(1234)));
    assert_eq!(regs.read_register(2), 1234);
}

#[test]
fn test_translate_signal_flags_bit_mapping() {
    assert_eq!(translate_signal_flags(0), 0);
    assert_eq!(translate_signal_flags(0x0800_0000), 0x0800_0000);  // ONSTACK
    assert_eq!(translate_signal_flags(0x8000_0000), 0x8000_0000);  // RESETHAND
    assert_eq!(translate_signal_flags(0x1000_0000), 0x1000_0000);  // RESTART
    assert_eq!(translate_signal_flags(0x0000_0008), 0x0000_0004);  // SIGINFO
    assert_eq!(translate_signal_flags(0x4000_0000), 0x4000_0000);  // NODEFER
    assert_eq!(translate_signal_flags(0x0001_0000), 0x0000_0002);  // NOCLDWAIT
    assert_eq!(translate_signal_flags(0x0000_0001), 0x0000_0001);  // NOCLDSTOP
    assert_eq!(
        translate_signal_flags(0x0001_0009),
        0x0000_0007
    );
    // unrecognised bits are dropped
    assert_eq!(translate_signal_flags(0x0000_0F00), 0);
}

#[test]
fn test_translate_stat_layout() {
    let st = HostStat {
        dev: 0x1_0000_0002,
        ino: 0x3_0000_0004,
        mode: 0o100644,
        nlink: 5,
        uid: 1000,
        gid: 100,
        rdev: 0x6_0000_0007,
        size: 0x8_0000_0009,
        atime: 11,
        atime_nsec: 12,
        mtime: 13,
        mtime_nsec: 14,
        ctime: 15,
        ctime_nsec: 16,
        blksize: 4096,
        blocks: 17,
    };
    let w = translate_stat(&st);
    assert_eq!(w.len(), 40);
    assert_eq!(w[0], 2);            // dev, low word first
    assert_eq!(w[1], 1);
    assert_eq!(w[2], 0);            // padding
    assert_eq!(w[4], 4);            // ino
    assert_eq!(w[5], 3);
    assert_eq!(w[6], 0o100644);     // mode
    assert_eq!(w[7], 5);            // nlink
    assert_eq!(w[8], 1000);         // uid
    assert_eq!(w[9], 100);          // gid
    assert_eq!(w[10], 7);           // rdev
    assert_eq!(w[11], 6);
    assert_eq!(w[14], 9);           // size
    assert_eq!(w[15], 8);
    assert_eq!(w[16], 11);          // atime
    assert_eq!(w[17], 12);
    assert_eq!(w[22], 4096);        // blksize
    assert_eq!(w[24], 17);          // blocks
    assert_eq!(w[39], 0);           // trailing padding
}

#[test]
fn test_translate_iovec_reads_pairs() {
    let mut mem = Memory::new(Endianness::BigEndian);
    mem.write_word(0x2000, 0xAAAA);
    mem.write_word(0x2004, 10);
    mem.write_word(0x2008, 0xBBBB);
    mem.write_word(0x200C, 20);
    let v = translate_iovec(0x2000, 2, &mem).unwrap();
    assert_eq!(v.as_slice(), &[(0xAAAA, 10), (0xBBBB, 20)]);
    assert!(translate_iovec(0xFFFF_FFF0, 4, &mem).is_err());
}

#[test]
fn test_guest_buffer_faults_become_errno() {
    let (mut sys, mut regs, mut mem) = fresh();
    // a write whose buffer runs past the end of memory faults
    syscall(&mut regs, 4004, &[1, 0xFFFF_FFF0, 0x100]);
    let out = sys.eval_syscall(&mut regs, &mut mem).unwrap();
    assert!(matches!(out, SyscallOutcome::Done(CPUEvent::Nothing)));
    assert_eq!(regs.read_register(2), 14);
    assert_eq!(regs.read_register(7), 1);
    // an open whose path never terminates faults
    let filler = vec![1u8; 16];
    mem.write_block(0xFFFF_FFF0, &filler);
    syscall(&mut regs, 4005, &[0xFFFF_FFF0, 0, 0]);
    sys.eval_syscall(&mut regs, &mut mem).unwrap();
    assert_eq!(regs.read_register(2), 14);
    assert_eq!(regs.read_register(7), 1);
}

#[test]
fn test_real_identity_calls_report_success() {
    // without fake-root, the identity calls come from the host; they
    // cannot fail, so the error flag must be clear
    let (mut sys, mut regs, mut mem) = fresh();
    for n in [4024u32, 4049, 4047, 4050, 4020, 4222] {
        syscall(&mut regs, n, &[]);
        let out = sys.eval_syscall(&mut regs, &mut mem).unwrap();
        assert!(matches!(out, SyscallOutcome::Done(CPUEvent::Nothing)));
        assert_eq!(regs.read_register(7), 0, "number {}", n);
    }
    // process identifiers are never zero
    syscall(&mut regs, 4020, &[]);
    sys.eval_syscall(&mut regs, &mut mem).unwrap();
    assert_ne!(regs.read_register(2), 0);
}

#[test]
fn test_stat_on_root_directory() {
    let (mut sys, mut regs, mut mem) = fresh();
    mem.write_block(0x2000, b"/\0");
    syscall(&mut regs, 4213, &[0x2000, 0x3000]);
    let out = sys.eval_syscall(&mut regs, &mut mem).unwrap();
    assert!(matches!(out, SyscallOutcome::Done(CPUEvent::Nothing)));
    assert_eq!(regs.read_register(2), 0);
    assert_eq!(regs.read_register(7), 0);
    // the mode word sits at index six of the guest structure and must
    // carry the directory file type
    let mode = mem.read_word(0x3000 + 24);
    assert_eq!(mode & 0o170000, 0o040000);

    // a missing path comes back as an errno, not a fault
    mem.write_block(0x2000, b"/surely/not/present\0");
    syscall(&mut regs, 4214, &[0x2000, 0x3000]);
    sys.eval_syscall(&mut regs, &mut mem).unwrap();
    assert_eq!(regs.read_register(7), 1);
    assert_eq!(regs.read_register(2), 2);
}

#[test]
fn test_clock_gettime_writes_timestamp() {
    let (mut sys, mut regs, mut mem) = fresh();
    syscall(&mut regs, 4263, &[0, 0x2000]);
    sys.eval_syscall(&mut regs, &mut mem).unwrap();
    assert_eq!(regs.read_register(2), 0);
    assert_eq!(regs.read_register(7), 0);
    // the realtime clock's seconds are far from zero
    assert!(mem.read_word(0x2000) > 0);
}

#[test]
fn test_time_returns_and_stores_seconds() {
    let (mut sys, mut regs, mut mem) = fresh();
    syscall(&mut regs, 4013, &[0x2000]);
    sys.eval_syscall(&mut regs, &mut mem).unwrap();
    let seconds = regs.read_register(2);
    assert_eq!(regs.read_register(7), 0);
    assert!(seconds > 0);
    assert_eq!(mem.read_word(0x2000), seconds);
}

#[test]
fn test_chdir_missing_path_is_errno() {
    let (mut sys, mut regs, mut mem) = fresh();
    mem.write_block(0x2000, b"/surely/not/present\0");
    syscall(&mut regs, 4012, &[0x2000]);
    sys.eval_syscall(&mut regs, &mut mem).unwrap();
    assert_eq!(regs.read_register(7), 1);
    assert_eq!(regs.read_register(2), 2);
}

#[test]
fn test_uname_reply_lands_in_guest_memory() {
    let (mut sys, mut regs, mut mem) = fresh();
    syscall(&mut regs, 4122, &[0x2000]);
    let out = sys.eval_syscall(&mut regs, &mut mem).unwrap();
    let call = match out {
        SyscallOutcome::Host(c) => c,
        _ => panic!("expected a host call"),
    };
    assert!(matches!(call, HostCall::Uname { addr: 0x2000 }));
    let reply = Ok(HostOk::Bytes(0, b"Linux\0".to_vec()));
    finish_syscall(&call, reply, &mut regs, &mut mem).unwrap();
    assert_eq!(mem.read_slice(0x2000, 6).as_slice(), b"Linux\0");
    assert_eq!(regs.read_register(7), 0);
}
