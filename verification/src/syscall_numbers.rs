//! The MIPS O32 system-call numbering: the full mapping from the
//! 4000-based ABI numbers to symbolic names. Only a subset has
//! behavioural support; every recognised name can at least be reported
//! in a diagnostic.

use vstd::prelude::*;

verus! {

#[derive(Clone, Copy, PartialEq, Eq, Structural, Debug)]
pub enum SyscallO32 {
    NRSyscall,
    NRExit,
    NRFork,
    NRRead,
    NRWrite,
    NROpen,
    NRClose,
    NRWaitpid,
    NRCreat,
    NRLink,
    NRUnlink,
    NRExecve,
    NRChdir,
    NRTime,
    NRMknod,
    NRChmod,
    NRLchown,
    NRBreak,
    NRLseek,
    NRGetpid,
    NRMount,
    NRUmount,
    NRSetuid,
    NRGetuid,
    NRStime,
    NRPtrace,
    NRAlarm,
    NRPause,
    NRUtime,
    NRStty,
    NRGtty,
    NRAccess,
    NRNice,
    NRFtime,
    NRSync,
    NRKill,
    NRRename,
    NRMkdir,
    NRRmdir,
    NRDup,
    NRPipe,
    NRTimes,
    NRProf,
    NRBrk,
    NRSetgid,
    NRGetgid,
    NRSignal,
    NRGeteuid,
    NRGetegid,
    NRAcct,
    NRUmount2,
    NRLock,
    NRIoctl,
    NRFcntl,
    NRMpx,
    NRSetpgid,
    NRUlimit,
    NRUmask,
    NRChroot,
    NRUstat,
    NRDup2,
    NRGetppid,
    NRGetpgrp,
    NRSetsid,
    NRSigaction,
    NRSgetmask,
    NRSsetmask,
    NRSetreuid,
    NRSetregid,
    NRSigsuspend,
    NRSigpending,
    NRSethostname,
    NRSetrlimit,
    NRGetrlimit,
    NRGetrusage,
    NRGettimeofday,
    NRSettimeofday,
    NRGetgroups,
    NRSetgroups,
    NRSymlink,
    NRReadlink,
    NRUselib,
    NRSwapon,
    NRReboot,
    NRReaddir,
    NRMmap,
    NRMunmap,
    NRTruncate,
    NRFtruncate,
    NRFchmod,
    NRFchown,
    NRGetpriority,
    NRSetpriority,
    NRProfil,
    NRStatfs,
    NRFstatfs,
    NRIoperm,
    NRSocketcall,
    NRSyslog,
    NRSetitimer,
    NRGetitimer,
    NRStat,
    NRLstat,
    NRFstat,
    NRIopl,
    NRVhangup,
    NRIdle,
    NRVm86,
    NRWait4,
    NRSwapoff,
    NRSysinfo,
    NRIpc,
    NRFsync,
    NRSigreturn,
    NRClone,
    NRSetdomainname,
    NRUname,
    NRModifyLdt,
    NRAdjtimex,
    NRMprotect,
    NRSigprocmask,
    NRCreateModule,
    NRInitModule,
    NRDeleteModule,
    NRGetKernelSyms,
    NRQuotactl,
    NRGetpgid,
    NRFchdir,
    NRBdflush,
    NRSysfs,
    NRPersonality,
    NRAfsSyscall,
    NRSetfsuid,
    NRSetfsgid,
    NRLlseek,
    NRGetdents,
    NRNewselect,
    NRFlock,
    NRMsync,
    NRReadv,
    NRWritev,
    NRCacheflush,
    NRCachectl,
    NRSysmips,
    NRGetsid,
    NRFdatasync,
    NRSysctl,
    NRMlock,
    NRMunlock,
    NRMlockall,
    NRMunlockall,
    NRSchedSetparam,
    NRSchedGetparam,
    NRSchedSetscheduler,
    NRSchedGetscheduler,
    NRSchedYield,
    NRSchedGetPriorityMax,
    NRSchedGetPriorityMin,
    NRSchedRrGetInterval,
    NRNanosleep,
    NRMremap,
    NRAccept,
    NRBind,
    NRConnect,
    NRGetpeername,
    NRGetsockname,
    NRGetsockopt,
    NRListen,
    NRRecv,
    NRRecvfrom,
    NRRecvmsg,
    NRSend,
    NRSendmsg,
    NRSendto,
    NRSetsockopt,
    NRShutdown,
    NRSocket,
    NRSocketpair,
    NRSetresuid,
    NRGetresuid,
    NRQueryModule,
    NRPoll,
    NRNfsservctl,
    NRSetresgid,
    NRGetresgid,
    NRPrctl,
    NRRtSigreturn,
    NRRtSigaction,
    NRRtSigprocmask,
    NRRtSigpending,
    NRRtSigtimedwait,
    NRRtSigqueueinfo,
    NRRtSigsuspend,
    NRPread64,
    NRPwrite64,
    NRChown,
    NRGetcwd,
    NRCapget,
    NRCapset,
    NRSigaltstack,
    NRSendfile,
    NRGetpmsg,
    NRPutpmsg,
    NRMmap2,
    NRTruncate64,
    NRFtruncate64,
    NRStat64,
    NRLstat64,
    NRFstat64,
    NRPivotRoot,
    NRMincore,
    NRMadvise,
    NRGetdents64,
    NRFcntl64,
    NRGettid,
    NRReadahead,
    NRSetxattr,
    NRLsetxattr,
    NRFsetxattr,
    NRGetxattr,
    NRLgetxattr,
    NRFgetxattr,
    NRListxattr,
    NRLlistxattr,
    NRFlistxattr,
    NRRemovexattr,
    NRLremovexattr,
    NRFremovexattr,
    NRTkill,
    NRSendfile64,
    NRFutex,
    NRSchedSetaffinity,
    NRSchedGetaffinity,
    NRIoSetup,
    NRIoDestroy,
    NRIoGetevents,
    NRIoSubmit,
    NRIoCancel,
    NRExitGroup,
    NRLookupDcookie,
    NREpollCreate,
    NREpollCtl,
    NREpollWait,
    NRRemapFilePages,
    NRSetTidAddress,
    NRRestartSyscall,
    NRFadvise64,
    NRStatfs64,
    NRFstatfs64,
    NRTimerCreate,
    NRTimerSettime,
    NRTimerGettime,
    NRTimerGetoverrun,
    NRTimerDelete,
    NRClockSettime,
    NRClockGettime,
    NRClockGetres,
    NRClockNanosleep,
    NRTgkill,
    NRUtimes,
    NRMbind,
    NRGetMempolicy,
    NRSetMempolicy,
    NRMqOpen,
    NRMqUnlink,
    NRMqTimedsend,
    NRMqTimedreceive,
    NRMqNotify,
    NRMqGetsetattr,
    NRVserver,
    NRWaitid,
    NRAddKey,
    NRRequestKey,
    NRKeyctl,
    NRSetThreadArea,
    NRInotifyInit,
    NRInotifyAddWatch,
    NRInotifyRmWatch,
    NRMigratePages,
    NROpenat,
    NRMkdirat,
    NRMknodat,
    NRFchownat,
    NRFutimesat,
    NRFstatat64,
    NRUnlinkat,
    NRRenameat,
    NRLinkat,
    NRSymlinkat,
    NRReadlinkat,
    NRFchmodat,
    NRFaccessat,
    NRPselect6,
    NRPpoll,
    NRUnshare,
    NRSplice,
    NRSyncFileRange,
    NRTee,
    NRVmsplice,
    NRMovePages,
    NRSetRobustList,
    NRGetRobustList,
    NRKexecLoad,
    NRGetcpu,
    NREpollPwait,
    NRIoprioSet,
    NRIoprioGet,
    NRUtimensat,
    NRSignalfd,
    NRTimerfd,
    NREventfd,
    NRFallocate,
    NRTimerfdCreate,
    NRTimerfdGettime,
    NRTimerfdSettime,
    NRSignalfd4,
    NREventfd2,
    NREpollCreate1,
    NRDup3,
    NRPipe2,
    NRInotifyInit1,
    NRPreadv,
    NRPwritev,
    NRRtTgsigqueueinfo,
    NRPerfEventOpen,
    NRAccept4,
    NRRecvmmsg,
    NRFanotifyInit,
    NRFanotifyMark,
    NRPrlimit64,
    NRNameToHandleAt,
    NROpenByHandleAt,
    NRClockAdjtime,
    NRSyncfs,
    NRSendmmsg,
    NRSetns,
    NRProcessVmReadv,
    NRProcessVmWritev,
    NRKcmp,
    NRFinitModule,
    NRSchedSetattr,
    NRSchedGetattr,
    NRRenameat2,
    NRSeccomp,
    NRGetrandom,
    NRMemfdCreate,
    NRBpf,
    NRExecveat,
    NRUserfaultfd,
    NRMembarrier,
    NRMlock2,
    NRCopyFileRange,
    NRPreadv2,
    NRPwritev2,
    NRPkeyMprotect,
    NRPkeyAlloc,
    NRPkeyFree,
    NRStatx,
    /// A number outside the O32 table.
    NRUnknown,
}

/// The symbolic name of the O32 system-call number `n`.
pub open spec fn spec_translate_syscall_number(n: u32) -> SyscallO32 {
    if n == 4000 {
        SyscallO32::NRSyscall
    } else if n == 4001 {
        SyscallO32::NRExit
    } else if n == 4002 {
        SyscallO32::NRFork
    } else if n == 4003 {
        SyscallO32::NRRead
    } else if n == 4004 {
        SyscallO32::NRWrite
    } else if n == 4005 {
        SyscallO32::NROpen
    } else if n == 4006 {
        SyscallO32::NRClose
    } else if n == 4007 {
        SyscallO32::NRWaitpid
    } else if n == 4008 {
        SyscallO32::NRCreat
    } else if n == 4009 {
        SyscallO32::NRLink
    } else if n == 4010 {
        SyscallO32::NRUnlink
    } else if n == 4011 {
        SyscallO32::NRExecve
    } else if n == 4012 {
        SyscallO32::NRChdir
    } else if n == 4013 {
        SyscallO32::NRTime
    } else if n == 4014 {
        SyscallO32::NRMknod
    } else if n == 4015 {
        SyscallO32::NRChmod
    } else if n == 4016 {
        SyscallO32::NRLchown
    } else if n == 4017 {
        SyscallO32::NRBreak
    } else if n == 4019 {
        SyscallO32::NRLseek
    } else if n == 4020 {
        SyscallO32::NRGetpid
    } else if n == 4021 {
        SyscallO32::NRMount
    } else if n == 4022 {
        SyscallO32::NRUmount
    } else if n == 4023 {
        SyscallO32::NRSetuid
    } else if n == 4024 {
        SyscallO32::NRGetuid
    } else if n == 4025 {
        SyscallO32::NRStime
    } else if n == 4026 {
        SyscallO32::NRPtrace
    } else if n == 4027 {
        SyscallO32::NRAlarm
    } else if n == 4029 {
        SyscallO32::NRPause
    } else if n == 4030 {
        SyscallO32::NRUtime
    } else if n == 4031 {
        SyscallO32::NRStty
    } else if n == 4032 {
        SyscallO32::NRGtty
    } else if n == 4033 {
        SyscallO32::NRAccess
    } else if n == 4034 {
        SyscallO32::NRNice
    } else if n == 4035 {
        SyscallO32::NRFtime
    } else if n == 4036 {
        SyscallO32::NRSync
    } else if n == 4037 {
        SyscallO32::NRKill
    } else if n == 4038 {
        SyscallO32::NRRename
    } else if n == 4039 {
        SyscallO32::NRMkdir
    } else if n == 4040 {
        SyscallO32::NRRmdir
    } else if n == 4041 {
        SyscallO32::NRDup
    } else if n == 4042 {
        SyscallO32::NRPipe
    } else if n == 4043 {
        SyscallO32::NRTimes
    } else if n == 4044 {
        SyscallO32::NRProf
    } else if n == 4045 {
        SyscallO32::NRBrk
    } else if n == 4046 {
        SyscallO32::NRSetgid
    } else if n == 4047 {
        SyscallO32::NRGetgid
    } else if n == 4048 {
        SyscallO32::NRSignal
    } else if n == 4049 {
        SyscallO32::NRGeteuid
    } else if n == 4050 {
        SyscallO32::NRGetegid
    } else if n == 4051 {
        SyscallO32::NRAcct
    } else if n == 4052 {
        SyscallO32::NRUmount2
    } else if n == 4053 {
        SyscallO32::NRLock
    } else if n == 4054 {
        SyscallO32::NRIoctl
    } else if n == 4055 {
        SyscallO32::NRFcntl
    } else if n == 4056 {
        SyscallO32::NRMpx
    } else if n == 4057 {
        SyscallO32::NRSetpgid
    } else if n == 4058 {
        SyscallO32::NRUlimit
    } else if n == 4060 {
        SyscallO32::NRUmask
    } else if n == 4061 {
        SyscallO32::NRChroot
    } else if n == 4062 {
        SyscallO32::NRUstat
    } else if n == 4063 {
        SyscallO32::NRDup2
    } else if n == 4064 {
        SyscallO32::NRGetppid
    } else if n == 4065 {
        SyscallO32::NRGetpgrp
    } else if n == 4066 {
        SyscallO32::NRSetsid
    } else if n == 4067 {
        SyscallO32::NRSigaction
    } else if n == 4068 {
        SyscallO32::NRSgetmask
    } else if n == 4069 {
        SyscallO32::NRSsetmask
    } else if n == 4070 {
        SyscallO32::NRSetreuid
    } else if n == 4071 {
        SyscallO32::NRSetregid
    } else if n == 4072 {
        SyscallO32::NRSigsuspend
    } else if n == 4073 {
        SyscallO32::NRSigpending
    } else if n == 4074 {
        SyscallO32::NRSethostname
    } else if n == 4075 {
        SyscallO32::NRSetrlimit
    } else if n == 4076 {
        SyscallO32::NRGetrlimit
    } else if n == 4077 {
        SyscallO32::NRGetrusage
    } else if n == 4078 {
        SyscallO32::NRGettimeofday
    } else if n == 4079 {
        SyscallO32::NRSettimeofday
    } else if n == 4080 {
        SyscallO32::NRGetgroups
    } else if n == 4081 {
        SyscallO32::NRSetgroups
    } else if n == 4083 {
        SyscallO32::NRSymlink
    } else if n == 4085 {
        SyscallO32::NRReadlink
    } else if n == 4086 {
        SyscallO32::NRUselib
    } else if n == 4087 {
        SyscallO32::NRSwapon
    } else if n == 4088 {
        SyscallO32::NRReboot
    } else if n == 4089 {
        SyscallO32::NRReaddir
    } else if n == 4090 {
        SyscallO32::NRMmap
    } else if n == 4091 {
        SyscallO32::NRMunmap
    } else if n == 4092 {
        SyscallO32::NRTruncate
    } else if n == 4093 {
        SyscallO32::NRFtruncate
    } else if n == 4094 {
        SyscallO32::NRFchmod
    } else if n == 4095 {
        SyscallO32::NRFchown
    } else if n == 4096 {
        SyscallO32::NRGetpriority
    } else if n == 4097 {
        SyscallO32::NRSetpriority
    } else if n == 4098 {
        SyscallO32::NRProfil
    } else if n == 4099 {
        SyscallO32::NRStatfs
    } else if n == 4100 {
        SyscallO32::NRFstatfs
    } else if n == 4101 {
        SyscallO32::NRIoperm
    } else if n == 4102 {
        SyscallO32::NRSocketcall
    } else if n == 4103 {
        SyscallO32::NRSyslog
    } else if n == 4104 {
        SyscallO32::NRSetitimer
    } else if n == 4105 {
        SyscallO32::NRGetitimer
    } else if n == 4106 {
        SyscallO32::NRStat
    } else if n == 4107 {
        SyscallO32::NRLstat
    } else if n == 4108 {
        SyscallO32::NRFstat
    } else if n == 4110 {
        SyscallO32::NRIopl
    } else if n == 4111 {
        SyscallO32::NRVhangup
    } else if n == 4112 {
        SyscallO32::NRIdle
    } else if n == 4113 {
        SyscallO32::NRVm86
    } else if n == 4114 {
        SyscallO32::NRWait4
    } else if n == 4115 {
        SyscallO32::NRSwapoff
    } else if n == 4116 {
        SyscallO32::NRSysinfo
    } else if n == 4117 {
        SyscallO32::NRIpc
    } else if n == 4118 {
        SyscallO32::NRFsync
    } else if n == 4119 {
        SyscallO32::NRSigreturn
    } else if n == 4120 {
        SyscallO32::NRClone
    } else if n == 4121 {
        SyscallO32::NRSetdomainname
    } else if n == 4122 {
        SyscallO32::NRUname
    } else if n == 4123 {
        SyscallO32::NRModifyLdt
    } else if n == 4124 {
        SyscallO32::NRAdjtimex
    } else if n == 4125 {
        SyscallO32::NRMprotect
    } else if n == 4126 {
        SyscallO32::NRSigprocmask
    } else if n == 4127 {
        SyscallO32::NRCreateModule
    } else if n == 4128 {
        SyscallO32::NRInitModule
    } else if n == 4129 {
        SyscallO32::NRDeleteModule
    } else if n == 4130 {
        SyscallO32::NRGetKernelSyms
    } else if n == 4131 {
        SyscallO32::NRQuotactl
    } else if n == 4132 {
        SyscallO32::NRGetpgid
    } else if n == 4133 {
        SyscallO32::NRFchdir
    } else if n == 4134 {
        SyscallO32::NRBdflush
    } else if n == 4135 {
        SyscallO32::NRSysfs
    } else if n == 4136 {
        SyscallO32::NRPersonality
    } else if n == 4137 {
        SyscallO32::NRAfsSyscall
    } else if n == 4138 {
        SyscallO32::NRSetfsuid
    } else if n == 4139 {
        SyscallO32::NRSetfsgid
    } else if n == 4140 {
        SyscallO32::NRLlseek
    } else if n == 4141 {
        SyscallO32::NRGetdents
    } else if n == 4142 {
        SyscallO32::NRNewselect
    } else if n == 4143 {
        SyscallO32::NRFlock
    } else if n == 4144 {
        SyscallO32::NRMsync
    } else if n == 4145 {
        SyscallO32::NRReadv
    } else if n == 4146 {
        SyscallO32::NRWritev
    } else if n == 4147 {
        SyscallO32::NRCacheflush
    } else if n == 4148 {
        SyscallO32::NRCachectl
    } else if n == 4149 {
        SyscallO32::NRSysmips
    } else if n == 4151 {
        SyscallO32::NRGetsid
    } else if n == 4152 {
        SyscallO32::NRFdatasync
    } else if n == 4153 {
        SyscallO32::NRSysctl
    } else if n == 4154 {
        SyscallO32::NRMlock
    } else if n == 4155 {
        SyscallO32::NRMunlock
    } else if n == 4156 {
        SyscallO32::NRMlockall
    } else if n == 4157 {
        SyscallO32::NRMunlockall
    } else if n == 4158 {
        SyscallO32::NRSchedSetparam
    } else if n == 4159 {
        SyscallO32::NRSchedGetparam
    } else if n == 4160 {
        SyscallO32::NRSchedSetscheduler
    } else if n == 4161 {
        SyscallO32::NRSchedGetscheduler
    } else if n == 4162 {
        SyscallO32::NRSchedYield
    } else if n == 4163 {
        SyscallO32::NRSchedGetPriorityMax
    } else if n == 4164 {
        SyscallO32::NRSchedGetPriorityMin
    } else if n == 4165 {
        SyscallO32::NRSchedRrGetInterval
    } else if n == 4166 {
        SyscallO32::NRNanosleep
    } else if n == 4167 {
        SyscallO32::NRMremap
    } else if n == 4168 {
        SyscallO32::NRAccept
    } else if n == 4169 {
        SyscallO32::NRBind
    } else if n == 4170 {
        SyscallO32::NRConnect
    } else if n == 4171 {
        SyscallO32::NRGetpeername
    } else if n == 4172 {
        SyscallO32::NRGetsockname
    } else if n == 4173 {
        SyscallO32::NRGetsockopt
    } else if n == 4174 {
        SyscallO32::NRListen
    } else if n == 4175 {
        SyscallO32::NRRecv
    } else if n == 4176 {
        SyscallO32::NRRecvfrom
    } else if n == 4177 {
        SyscallO32::NRRecvmsg
    } else if n == 4178 {
        SyscallO32::NRSend
    } else if n == 4179 {
        SyscallO32::NRSendmsg
    } else if n == 4180 {
        SyscallO32::NRSendto
    } else if n == 4181 {
        SyscallO32::NRSetsockopt
    } else if n == 4182 {
        SyscallO32::NRShutdown
    } else if n == 4183 {
        SyscallO32::NRSocket
    } else if n == 4184 {
        SyscallO32::NRSocketpair
    } else if n == 4185 {
        SyscallO32::NRSetresuid
    } else if n == 4186 {
        SyscallO32::NRGetresuid
    } else if n == 4187 {
        SyscallO32::NRQueryModule
    } else if n == 4188 {
        SyscallO32::NRPoll
    } else if n == 4189 {
        SyscallO32::NRNfsservctl
    } else if n == 4190 {
        SyscallO32::NRSetresgid
    } else if n == 4191 {
        SyscallO32::NRGetresgid
    } else if n == 4192 {
        SyscallO32::NRPrctl
    } else if n == 4193 {
        SyscallO32::NRRtSigreturn
    } else if n == 4194 {
        SyscallO32::NRRtSigaction
    } else if n == 4195 {
        SyscallO32::NRRtSigprocmask
    } else if n == 4196 {
        SyscallO32::NRRtSigpending
    } else if n == 4197 {
        SyscallO32::NRRtSigtimedwait
    } else if n == 4198 {
        SyscallO32::NRRtSigqueueinfo
    } else if n == 4199 {
        SyscallO32::NRRtSigsuspend
    } else if n == 4200 {
        SyscallO32::NRPread64
    } else if n == 4201 {
        SyscallO32::NRPwrite64
    } else if n == 4202 {
        SyscallO32::NRChown
    } else if n == 4203 {
        SyscallO32::NRGetcwd
    } else if n == 4204 {
        SyscallO32::NRCapget
    } else if n == 4205 {
        SyscallO32::NRCapset
    } else if n == 4206 {
        SyscallO32::NRSigaltstack
    } else if n == 4207 {
        SyscallO32::NRSendfile
    } else if n == 4208 {
        SyscallO32::NRGetpmsg
    } else if n == 4209 {
        SyscallO32::NRPutpmsg
    } else if n == 4210 {
        SyscallO32::NRMmap2
    } else if n == 4211 {
        SyscallO32::NRTruncate64
    } else if n == 4212 {
        SyscallO32::NRFtruncate64
    } else if n == 4213 {
        SyscallO32::NRStat64
    } else if n == 4214 {
        SyscallO32::NRLstat64
    } else if n == 4215 {
        SyscallO32::NRFstat64
    } else if n == 4216 {
        SyscallO32::NRPivotRoot
    } else if n == 4217 {
        SyscallO32::NRMincore
    } else if n == 4218 {
        SyscallO32::NRMadvise
    } else if n == 4219 {
        SyscallO32::NRGetdents64
    } else if n == 4220 {
        SyscallO32::NRFcntl64
    } else if n == 4222 {
        SyscallO32::NRGettid
    } else if n == 4223 {
        SyscallO32::NRReadahead
    } else if n == 4224 {
        SyscallO32::NRSetxattr
    } else if n == 4225 {
        SyscallO32::NRLsetxattr
    } else if n == 4226 {
        SyscallO32::NRFsetxattr
    } else if n == 4227 {
        SyscallO32::NRGetxattr
    } else if n == 4228 {
        SyscallO32::NRLgetxattr
    } else if n == 4229 {
        SyscallO32::NRFgetxattr
    } else if n == 4230 {
        SyscallO32::NRListxattr
    } else if n == 4231 {
        SyscallO32::NRLlistxattr
    } else if n == 4232 {
        SyscallO32::NRFlistxattr
    } else if n == 4233 {
        SyscallO32::NRRemovexattr
    } else if n == 4234 {
        SyscallO32::NRLremovexattr
    } else if n == 4235 {
        SyscallO32::NRFremovexattr
    } else if n == 4236 {
        SyscallO32::NRTkill
    } else if n == 4237 {
        SyscallO32::NRSendfile64
    } else if n == 4238 {
        SyscallO32::NRFutex
    } else if n == 4239 {
        SyscallO32::NRSchedSetaffinity
    } else if n == 4240 {
        SyscallO32::NRSchedGetaffinity
    } else if n == 4241 {
        SyscallO32::NRIoSetup
    } else if n == 4242 {
        SyscallO32::NRIoDestroy
    } else if n == 4243 {
        SyscallO32::NRIoGetevents
    } else if n == 4244 {
        SyscallO32::NRIoSubmit
    } else if n == 4245 {
        SyscallO32::NRIoCancel
    } else if n == 4246 {
        SyscallO32::NRExitGroup
    } else if n == 4247 {
        SyscallO32::NRLookupDcookie
    } else if n == 4248 {
        SyscallO32::NREpollCreate
    } else if n == 4249 {
        SyscallO32::NREpollCtl
    } else if n == 4250 {
        SyscallO32::NREpollWait
    } else if n == 4251 {
        SyscallO32::NRRemapFilePages
    } else if n == 4252 {
        SyscallO32::NRSetTidAddress
    } else if n == 4253 {
        SyscallO32::NRRestartSyscall
    } else if n == 4254 {
        SyscallO32::NRFadvise64
    } else if n == 4255 {
        SyscallO32::NRStatfs64
    } else if n == 4256 {
        SyscallO32::NRFstatfs64
    } else if n == 4257 {
        SyscallO32::NRTimerCreate
    } else if n == 4258 {
        SyscallO32::NRTimerSettime
    } else if n == 4259 {
        SyscallO32::NRTimerGettime
    } else if n == 4260 {
        SyscallO32::NRTimerGetoverrun
    } else if n == 4261 {
        SyscallO32::NRTimerDelete
    } else if n == 4262 {
        SyscallO32::NRClockSettime
    } else if n == 4263 {
        SyscallO32::NRClockGettime
    } else if n == 4264 {
        SyscallO32::NRClockGetres
    } else if n == 4265 {
        SyscallO32::NRClockNanosleep
    } else if n == 4266 {
        SyscallO32::NRTgkill
    } else if n == 4267 {
        SyscallO32::NRUtimes
    } else if n == 4268 {
        SyscallO32::NRMbind
    } else if n == 4269 {
        SyscallO32::NRGetMempolicy
    } else if n == 4270 {
        SyscallO32::NRSetMempolicy
    } else if n == 4271 {
        SyscallO32::NRMqOpen
    } else if n == 4272 {
        SyscallO32::NRMqUnlink
    } else if n == 4273 {
        SyscallO32::NRMqTimedsend
    } else if n == 4274 {
        SyscallO32::NRMqTimedreceive
    } else if n == 4275 {
        SyscallO32::NRMqNotify
    } else if n == 4276 {
        SyscallO32::NRMqGetsetattr
    } else if n == 4277 {
        SyscallO32::NRVserver
    } else if n == 4278 {
        SyscallO32::NRWaitid
    } else if n == 4280 {
        SyscallO32::NRAddKey
    } else if n == 4281 {
        SyscallO32::NRRequestKey
    } else if n == 4282 {
        SyscallO32::NRKeyctl
    } else if n == 4283 {
        SyscallO32::NRSetThreadArea
    } else if n == 4284 {
        SyscallO32::NRInotifyInit
    } else if n == 4285 {
        SyscallO32::NRInotifyAddWatch
    } else if n == 4286 {
        SyscallO32::NRInotifyRmWatch
    } else if n == 4287 {
        SyscallO32::NRMigratePages
    } else if n == 4288 {
        SyscallO32::NROpenat
    } else if n == 4289 {
        SyscallO32::NRMkdirat
    } else if n == 4290 {
        SyscallO32::NRMknodat
    } else if n == 4291 {
        SyscallO32::NRFchownat
    } else if n == 4292 {
        SyscallO32::NRFutimesat
    } else if n == 4293 {
        SyscallO32::NRFstatat64
    } else if n == 4294 {
        SyscallO32::NRUnlinkat
    } else if n == 4295 {
        SyscallO32::NRRenameat
    } else if n == 4296 {
        SyscallO32::NRLinkat
    } else if n == 4297 {
        SyscallO32::NRSymlinkat
    } else if n == 4298 {
        SyscallO32::NRReadlinkat
    } else if n == 4299 {
        SyscallO32::NRFchmodat
    } else if n == 4300 {
        SyscallO32::NRFaccessat
    } else if n == 4301 {
        SyscallO32::NRPselect6
    } else if n == 4302 {
        SyscallO32::NRPpoll
    } else if n == 4303 {
        SyscallO32::NRUnshare
    } else if n == 4304 {
        SyscallO32::NRSplice
    } else if n == 4305 {
        SyscallO32::NRSyncFileRange
    } else if n == 4306 {
        SyscallO32::NRTee
    } else if n == 4307 {
        SyscallO32::NRVmsplice
    } else if n == 4308 {
        SyscallO32::NRMovePages
    } else if n == 4309 {
        SyscallO32::NRSetRobustList
    } else if n == 4310 {
        SyscallO32::NRGetRobustList
    } else if n == 4311 {
        SyscallO32::NRKexecLoad
    } else if n == 4312 {
        SyscallO32::NRGetcpu
    } else if n == 4313 {
        SyscallO32::NREpollPwait
    } else if n == 4314 {
        SyscallO32::NRIoprioSet
    } else if n == 4315 {
        SyscallO32::NRIoprioGet
    } else if n == 4316 {
        SyscallO32::NRUtimensat
    } else if n == 4317 {
        SyscallO32::NRSignalfd
    } else if n == 4318 {
        SyscallO32::NRTimerfd
    } else if n == 4319 {
        SyscallO32::NREventfd
    } else if n == 4320 {
        SyscallO32::NRFallocate
    } else if n == 4321 {
        SyscallO32::NRTimerfdCreate
    } else if n == 4322 {
        SyscallO32::NRTimerfdGettime
    } else if n == 4323 {
        SyscallO32::NRTimerfdSettime
    } else if n == 4324 {
        SyscallO32::NRSignalfd4
    } else if n == 4325 {
        SyscallO32::NREventfd2
    } else if n == 4326 {
        SyscallO32::NREpollCreate1
    } else if n == 4327 {
        SyscallO32::NRDup3
    } else if n == 4328 {
        SyscallO32::NRPipe2
    } else if n == 4329 {
        SyscallO32::NRInotifyInit1
    } else if n == 4330 {
        SyscallO32::NRPreadv
    } else if n == 4331 {
        SyscallO32::NRPwritev
    } else if n == 4332 {
        SyscallO32::NRRtTgsigqueueinfo
    } else if n == 4333 {
        SyscallO32::NRPerfEventOpen
    } else if n == 4334 {
        SyscallO32::NRAccept4
    } else if n == 4335 {
        SyscallO32::NRRecvmmsg
    } else if n == 4336 {
        SyscallO32::NRFanotifyInit
    } else if n == 4337 {
        SyscallO32::NRFanotifyMark
    } else if n == 4338 {
        SyscallO32::NRPrlimit64
    } else if n == 4339 {
        SyscallO32::NRNameToHandleAt
    } else if n == 4340 {
        SyscallO32::NROpenByHandleAt
    } else if n == 4341 {
        SyscallO32::NRClockAdjtime
    } else if n == 4342 {
        SyscallO32::NRSyncfs
    } else if n == 4343 {
        SyscallO32::NRSendmmsg
    } else if n == 4344 {
        SyscallO32::NRSetns
    } else if n == 4345 {
        SyscallO32::NRProcessVmReadv
    } else if n == 4346 {
        SyscallO32::NRProcessVmWritev
    } else if n == 4347 {
        SyscallO32::NRKcmp
    } else if n == 4348 {
        SyscallO32::NRFinitModule
    } else if n == 4349 {
        SyscallO32::NRSchedSetattr
    } else if n == 4350 {
        SyscallO32::NRSchedGetattr
    } else if n == 4351 {
        SyscallO32::NRRenameat2
    } else if n == 4352 {
        SyscallO32::NRSeccomp
    } else if n == 4353 {
        SyscallO32::NRGetrandom
    } else if n == 4354 {
        SyscallO32::NRMemfdCreate
    } else if n == 4355 {
        SyscallO32::NRBpf
    } else if n == 4356 {
        SyscallO32::NRExecveat
    } else if n == 4357 {
        SyscallO32::NRUserfaultfd
    } else if n == 4358 {
        SyscallO32::NRMembarrier
    } else if n == 4359 {
        SyscallO32::NRMlock2
    } else if n == 4360 {
        SyscallO32::NRCopyFileRange
    } else if n == 4361 {
        SyscallO32::NRPreadv2
    } else if n == 4362 {
        SyscallO32::NRPwritev2
    } else if n == 4363 {
        SyscallO32::NRPkeyMprotect
    } else if n == 4364 {
        SyscallO32::NRPkeyAlloc
    } else if n == 4365 {
        SyscallO32::NRPkeyFree
    } else if n == 4366 {
        SyscallO32::NRStatx
    } else {
        SyscallO32::NRUnknown
    }
}

pub fn translate_syscall_number(n: u32) -> (r: SyscallO32)
    ensures
        r == spec_translate_syscall_number(n),
{
    match n {
        4000 => SyscallO32::NRSyscall,
        4001 => SyscallO32::NRExit,
        4002 => SyscallO32::NRFork,
        4003 => SyscallO32::NRRead,
        4004 => SyscallO32::NRWrite,
        4005 => SyscallO32::NROpen,
        4006 => SyscallO32::NRClose,
        4007 => SyscallO32::NRWaitpid,
        4008 => SyscallO32::NRCreat,
        4009 => SyscallO32::NRLink,
        4010 => SyscallO32::NRUnlink,
        4011 => SyscallO32::NRExecve,
        4012 => SyscallO32::NRChdir,
        4013 => SyscallO32::NRTime,
        4014 => SyscallO32::NRMknod,
        4015 => SyscallO32::NRChmod,
        4016 => SyscallO32::NRLchown,
        4017 => SyscallO32::NRBreak,
        4019 => SyscallO32::NRLseek,
        4020 => SyscallO32::NRGetpid,
        4021 => SyscallO32::NRMount,
        4022 => SyscallO32::NRUmount,
        4023 => SyscallO32::NRSetuid,
        4024 => SyscallO32::NRGetuid,
        4025 => SyscallO32::NRStime,
        4026 => SyscallO32::NRPtrace,
        4027 => SyscallO32::NRAlarm,
        4029 => SyscallO32::NRPause,
        4030 => SyscallO32::NRUtime,
        4031 => SyscallO32::NRStty,
        4032 => SyscallO32::NRGtty,
        4033 => SyscallO32::NRAccess,
        4034 => SyscallO32::NRNice,
        4035 => SyscallO32::NRFtime,
        4036 => SyscallO32::NRSync,
        4037 => SyscallO32::NRKill,
        4038 => SyscallO32::NRRename,
        4039 => SyscallO32::NRMkdir,
        4040 => SyscallO32::NRRmdir,
        4041 => SyscallO32::NRDup,
        4042 => SyscallO32::NRPipe,
        4043 => SyscallO32::NRTimes,
        4044 => SyscallO32::NRProf,
        4045 => SyscallO32::NRBrk,
        4046 => SyscallO32::NRSetgid,
        4047 => SyscallO32::NRGetgid,
        4048 => SyscallO32::NRSignal,
        4049 => SyscallO32::NRGeteuid,
        4050 => SyscallO32::NRGetegid,
        4051 => SyscallO32::NRAcct,
        4052 => SyscallO32::NRUmount2,
        4053 => SyscallO32::NRLock,
        4054 => SyscallO32::NRIoctl,
        4055 => SyscallO32::NRFcntl,
        4056 => SyscallO32::NRMpx,
        4057 => SyscallO32::NRSetpgid,
        4058 => SyscallO32::NRUlimit,
        4060 => SyscallO32::NRUmask,
        4061 => SyscallO32::NRChroot,
        4062 => SyscallO32::NRUstat,
        4063 => SyscallO32::NRDup2,
        4064 => SyscallO32::NRGetppid,
        4065 => SyscallO32::NRGetpgrp,
        4066 => SyscallO32::NRSetsid,
        4067 => SyscallO32::NRSigaction,
        4068 => SyscallO32::NRSgetmask,
        4069 => SyscallO32::NRSsetmask,
        4070 => SyscallO32::NRSetreuid,
        4071 => SyscallO32::NRSetregid,
        4072 => SyscallO32::NRSigsuspend,
        4073 => SyscallO32::NRSigpending,
        4074 => SyscallO32::NRSethostname,
        4075 => SyscallO32::NRSetrlimit,
        4076 => SyscallO32::NRGetrlimit,
        4077 => SyscallO32::NRGetrusage,
        4078 => SyscallO32::NRGettimeofday,
        4079 => SyscallO32::NRSettimeofday,
        4080 => SyscallO32::NRGetgroups,
        4081 => SyscallO32::NRSetgroups,
        4083 => SyscallO32::NRSymlink,
        4085 => SyscallO32::NRReadlink,
        4086 => SyscallO32::NRUselib,
        4087 => SyscallO32::NRSwapon,
        4088 => SyscallO32::NRReboot,
        4089 => SyscallO32::NRReaddir,
        4090 => SyscallO32::NRMmap,
        4091 => SyscallO32::NRMunmap,
        4092 => SyscallO32::NRTruncate,
        4093 => SyscallO32::NRFtruncate,
        4094 => SyscallO32::NRFchmod,
        4095 => SyscallO32::NRFchown,
        4096 => SyscallO32::NRGetpriority,
        4097 => SyscallO32::NRSetpriority,
        4098 => SyscallO32::NRProfil,
        4099 => SyscallO32::NRStatfs,
        4100 => SyscallO32::NRFstatfs,
        4101 => SyscallO32::NRIoperm,
        4102 => SyscallO32::NRSocketcall,
        4103 => SyscallO32::NRSyslog,
        4104 => SyscallO32::NRSetitimer,
        4105 => SyscallO32::NRGetitimer,
        4106 => SyscallO32::NRStat,
        4107 => SyscallO32::NRLstat,
        4108 => SyscallO32::NRFstat,
        4110 => SyscallO32::NRIopl,
        4111 => SyscallO32::NRVhangup,
        4112 => SyscallO32::NRIdle,
        4113 => SyscallO32::NRVm86,
        4114 => SyscallO32::NRWait4,
        4115 => SyscallO32::NRSwapoff,
        4116 => SyscallO32::NRSysinfo,
        4117 => SyscallO32::NRIpc,
        4118 => SyscallO32::NRFsync,
        4119 => SyscallO32::NRSigreturn,
        4120 => SyscallO32::NRClone,
        4121 => SyscallO32::NRSetdomainname,
        4122 => SyscallO32::NRUname,
        4123 => SyscallO32::NRModifyLdt,
        4124 => SyscallO32::NRAdjtimex,
        4125 => SyscallO32::NRMprotect,
        4126 => SyscallO32::NRSigprocmask,
        4127 => SyscallO32::NRCreateModule,
        4128 => SyscallO32::NRInitModule,
        4129 => SyscallO32::NRDeleteModule,
        4130 => SyscallO32::NRGetKernelSyms,
        4131 => SyscallO32::NRQuotactl,
        4132 => SyscallO32::NRGetpgid,
        4133 => SyscallO32::NRFchdir,
        4134 => SyscallO32::NRBdflush,
        4135 => SyscallO32::NRSysfs,
        4136 => SyscallO32::NRPersonality,
        4137 => SyscallO32::NRAfsSyscall,
        4138 => SyscallO32::NRSetfsuid,
        4139 => SyscallO32::NRSetfsgid,
        4140 => SyscallO32::NRLlseek,
        4141 => SyscallO32::NRGetdents,
        4142 => SyscallO32::NRNewselect,
        4143 => SyscallO32::NRFlock,
        4144 => SyscallO32::NRMsync,
        4145 => SyscallO32::NRReadv,
        4146 => SyscallO32::NRWritev,
        4147 => SyscallO32::NRCacheflush,
        4148 => SyscallO32::NRCachectl,
        4149 => SyscallO32::NRSysmips,
        4151 => SyscallO32::NRGetsid,
        4152 => SyscallO32::NRFdatasync,
        4153 => SyscallO32::NRSysctl,
        4154 => SyscallO32::NRMlock,
        4155 => SyscallO32::NRMunlock,
        4156 => SyscallO32::NRMlockall,
        4157 => SyscallO32::NRMunlockall,
        4158 => SyscallO32::NRSchedSetparam,
        4159 => SyscallO32::NRSchedGetparam,
        4160 => SyscallO32::NRSchedSetscheduler,
        4161 => SyscallO32::NRSchedGetscheduler,
        4162 => SyscallO32::NRSchedYield,
        4163 => SyscallO32::NRSchedGetPriorityMax,
        4164 => SyscallO32::NRSchedGetPriorityMin,
        4165 => SyscallO32::NRSchedRrGetInterval,
        4166 => SyscallO32::NRNanosleep,
        4167 => SyscallO32::NRMremap,
        4168 => SyscallO32::NRAccept,
        4169 => SyscallO32::NRBind,
        4170 => SyscallO32::NRConnect,
        4171 => SyscallO32::NRGetpeername,
        4172 => SyscallO32::NRGetsockname,
        4173 => SyscallO32::NRGetsockopt,
        4174 => SyscallO32::NRListen,
        4175 => SyscallO32::NRRecv,
        4176 => SyscallO32::NRRecvfrom,
        4177 => SyscallO32::NRRecvmsg,
        4178 => SyscallO32::NRSend,
        4179 => SyscallO32::NRSendmsg,
        4180 => SyscallO32::NRSendto,
        4181 => SyscallO32::NRSetsockopt,
        4182 => SyscallO32::NRShutdown,
        4183 => SyscallO32::NRSocket,
        4184 => SyscallO32::NRSocketpair,
        4185 => SyscallO32::NRSetresuid,
        4186 => SyscallO32::NRGetresuid,
        4187 => SyscallO32::NRQueryModule,
        4188 => SyscallO32::NRPoll,
        4189 => SyscallO32::NRNfsservctl,
        4190 => SyscallO32::NRSetresgid,
        4191 => SyscallO32::NRGetresgid,
        4192 => SyscallO32::NRPrctl,
        4193 => SyscallO32::NRRtSigreturn,
        4194 => SyscallO32::NRRtSigaction,
        4195 => SyscallO32::NRRtSigprocmask,
        4196 => SyscallO32::NRRtSigpending,
        4197 => SyscallO32::NRRtSigtimedwait,
        4198 => SyscallO32::NRRtSigqueueinfo,
        4199 => SyscallO32::NRRtSigsuspend,
        4200 => SyscallO32::NRPread64,
        4201 => SyscallO32::NRPwrite64,
        4202 => SyscallO32::NRChown,
        4203 => SyscallO32::NRGetcwd,
        4204 => SyscallO32::NRCapget,
        4205 => SyscallO32::NRCapset,
        4206 => SyscallO32::NRSigaltstack,
        4207 => SyscallO32::NRSendfile,
        4208 => SyscallO32::NRGetpmsg,
        4209 => SyscallO32::NRPutpmsg,
        4210 => SyscallO32::NRMmap2,
        4211 => SyscallO32::NRTruncate64,
        4212 => SyscallO32::NRFtruncate64,
        4213 => SyscallO32::NRStat64,
        4214 => SyscallO32::NRLstat64,
        4215 => SyscallO32::NRFstat64,
        4216 => SyscallO32::NRPivotRoot,
        4217 => SyscallO32::NRMincore,
        4218 => SyscallO32::NRMadvise,
        4219 => SyscallO32::NRGetdents64,
        4220 => SyscallO32::NRFcntl64,
        4222 => SyscallO32::NRGettid,
        4223 => SyscallO32::NRReadahead,
        4224 => SyscallO32::NRSetxattr,
        4225 => SyscallO32::NRLsetxattr,
        4226 => SyscallO32::NRFsetxattr,
        4227 => SyscallO32::NRGetxattr,
        4228 => SyscallO32::NRLgetxattr,
        4229 => SyscallO32::NRFgetxattr,
        4230 => SyscallO32::NRListxattr,
        4231 => SyscallO32::NRLlistxattr,
        4232 => SyscallO32::NRFlistxattr,
        4233 => SyscallO32::NRRemovexattr,
        4234 => SyscallO32::NRLremovexattr,
        4235 => SyscallO32::NRFremovexattr,
        4236 => SyscallO32::NRTkill,
        4237 => SyscallO32::NRSendfile64,
        4238 => SyscallO32::NRFutex,
        4239 => SyscallO32::NRSchedSetaffinity,
        4240 => SyscallO32::NRSchedGetaffinity,
        4241 => SyscallO32::NRIoSetup,
        4242 => SyscallO32::NRIoDestroy,
        4243 => SyscallO32::NRIoGetevents,
        4244 => SyscallO32::NRIoSubmit,
        4245 => SyscallO32::NRIoCancel,
        4246 => SyscallO32::NRExitGroup,
        4247 => SyscallO32::NRLookupDcookie,
        4248 => SyscallO32::NREpollCreate,
        4249 => SyscallO32::NREpollCtl,
        4250 => SyscallO32::NREpollWait,
        4251 => SyscallO32::NRRemapFilePages,
        4252 => SyscallO32::NRSetTidAddress,
        4253 => SyscallO32::NRRestartSyscall,
        4254 => SyscallO32::NRFadvise64,
        4255 => SyscallO32::NRStatfs64,
        4256 => SyscallO32::NRFstatfs64,
        4257 => SyscallO32::NRTimerCreate,
        4258 => SyscallO32::NRTimerSettime,
        4259 => SyscallO32::NRTimerGettime,
        4260 => SyscallO32::NRTimerGetoverrun,
        4261 => SyscallO32::NRTimerDelete,
        4262 => SyscallO32::NRClockSettime,
        4263 => SyscallO32::NRClockGettime,
        4264 => SyscallO32::NRClockGetres,
        4265 => SyscallO32::NRClockNanosleep,
        4266 => SyscallO32::NRTgkill,
        4267 => SyscallO32::NRUtimes,
        4268 => SyscallO32::NRMbind,
        4269 => SyscallO32::NRGetMempolicy,
        4270 => SyscallO32::NRSetMempolicy,
        4271 => SyscallO32::NRMqOpen,
        4272 => SyscallO32::NRMqUnlink,
        4273 => SyscallO32::NRMqTimedsend,
        4274 => SyscallO32::NRMqTimedreceive,
        4275 => SyscallO32::NRMqNotify,
        4276 => SyscallO32::NRMqGetsetattr,
        4277 => SyscallO32::NRVserver,
        4278 => SyscallO32::NRWaitid,
        4280 => SyscallO32::NRAddKey,
        4281 => SyscallO32::NRRequestKey,
        4282 => SyscallO32::NRKeyctl,
        4283 => SyscallO32::NRSetThreadArea,
        4284 => SyscallO32::NRInotifyInit,
        4285 => SyscallO32::NRInotifyAddWatch,
        4286 => SyscallO32::NRInotifyRmWatch,
        4287 => SyscallO32::NRMigratePages,
        4288 => SyscallO32::NROpenat,
        4289 => SyscallO32::NRMkdirat,
        4290 => SyscallO32::NRMknodat,
        4291 => SyscallO32::NRFchownat,
        4292 => SyscallO32::NRFutimesat,
        4293 => SyscallO32::NRFstatat64,
        4294 => SyscallO32::NRUnlinkat,
        4295 => SyscallO32::NRRenameat,
        4296 => SyscallO32::NRLinkat,
        4297 => SyscallO32::NRSymlinkat,
        4298 => SyscallO32::NRReadlinkat,
        4299 => SyscallO32::NRFchmodat,
        4300 => SyscallO32::NRFaccessat,
        4301 => SyscallO32::NRPselect6,
        4302 => SyscallO32::NRPpoll,
        4303 => SyscallO32::NRUnshare,
        4304 => SyscallO32::NRSplice,
        4305 => SyscallO32::NRSyncFileRange,
        4306 => SyscallO32::NRTee,
        4307 => SyscallO32::NRVmsplice,
        4308 => SyscallO32::NRMovePages,
        4309 => SyscallO32::NRSetRobustList,
        4310 => SyscallO32::NRGetRobustList,
        4311 => SyscallO32::NRKexecLoad,
        4312 => SyscallO32::NRGetcpu,
        4313 => SyscallO32::NREpollPwait,
        4314 => SyscallO32::NRIoprioSet,
        4315 => SyscallO32::NRIoprioGet,
        4316 => SyscallO32::NRUtimensat,
        4317 => SyscallO32::NRSignalfd,
        4318 => SyscallO32::NRTimerfd,
        4319 => SyscallO32::NREventfd,
        4320 => SyscallO32::NRFallocate,
        4321 => SyscallO32::NRTimerfdCreate,
        4322 => SyscallO32::NRTimerfdGettime,
        4323 => SyscallO32::NRTimerfdSettime,
        4324 => SyscallO32::NRSignalfd4,
        4325 => SyscallO32::NREventfd2,
        4326 => SyscallO32::NREpollCreate1,
        4327 => SyscallO32::NRDup3,
        4328 => SyscallO32::NRPipe2,
        4329 => SyscallO32::NRInotifyInit1,
        4330 => SyscallO32::NRPreadv,
        4331 => SyscallO32::NRPwritev,
        4332 => SyscallO32::NRRtTgsigqueueinfo,
        4333 => SyscallO32::NRPerfEventOpen,
        4334 => SyscallO32::NRAccept4,
        4335 => SyscallO32::NRRecvmmsg,
        4336 => SyscallO32::NRFanotifyInit,
        4337 => SyscallO32::NRFanotifyMark,
        4338 => SyscallO32::NRPrlimit64,
        4339 => SyscallO32::NRNameToHandleAt,
        4340 => SyscallO32::NROpenByHandleAt,
        4341 => SyscallO32::NRClockAdjtime,
        4342 => SyscallO32::NRSyncfs,
        4343 => SyscallO32::NRSendmmsg,
        4344 => SyscallO32::NRSetns,
        4345 => SyscallO32::NRProcessVmReadv,
        4346 => SyscallO32::NRProcessVmWritev,
        4347 => SyscallO32::NRKcmp,
        4348 => SyscallO32::NRFinitModule,
        4349 => SyscallO32::NRSchedSetattr,
        4350 => SyscallO32::NRSchedGetattr,
        4351 => SyscallO32::NRRenameat2,
        4352 => SyscallO32::NRSeccomp,
        4353 => SyscallO32::NRGetrandom,
        4354 => SyscallO32::NRMemfdCreate,
        4355 => SyscallO32::NRBpf,
        4356 => SyscallO32::NRExecveat,
        4357 => SyscallO32::NRUserfaultfd,
        4358 => SyscallO32::NRMembarrier,
        4359 => SyscallO32::NRMlock2,
        4360 => SyscallO32::NRCopyFileRange,
        4361 => SyscallO32::NRPreadv2,
        4362 => SyscallO32::NRPwritev2,
        4363 => SyscallO32::NRPkeyMprotect,
        4364 => SyscallO32::NRPkeyAlloc,
        4365 => SyscallO32::NRPkeyFree,
        4366 => SyscallO32::NRStatx,
        _ => SyscallO32::NRUnknown,
    }
}

} // verus!
