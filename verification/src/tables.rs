//! Static syscall policy tables for the python3 interpreter profile.
//!
//! Pure data: the classification of syscalls into the baseline allow-set, the
//! network extension set, and the allow-with-error set shared across
//! profiles. The numbers are x86-64 Linux syscall numbers; they are platform
//! data, not policy.

use vstd::prelude::*;

verus! {

// File I/O
pub const SYS_READ: i32 = 0;
pub const SYS_WRITE: i32 = 1;
pub const SYS_OPENAT: i32 = 257;
pub const SYS_CLOSE: i32 = 3;
pub const SYS_NEWFSTATAT: i32 = 262;
pub const SYS_IOCTL: i32 = 16;
pub const SYS_LSEEK: i32 = 8;
pub const SYS_GETDENTS64: i32 = 217;

// Threading
pub const SYS_FUTEX: i32 = 202;

// Memory management
pub const SYS_MMAP: i32 = 9;
pub const SYS_BRK: i32 = 12;
pub const SYS_MPROTECT: i32 = 10;
pub const SYS_MUNMAP: i32 = 11;
pub const SYS_RT_SIGRETURN: i32 = 15;
pub const SYS_MREMAP: i32 = 25;

// User / group identity
pub const SYS_SETUID: i32 = 105;
pub const SYS_SETGID: i32 = 106;
pub const SYS_GETUID: i32 = 102;

// Process control
pub const SYS_GETPID: i32 = 39;
pub const SYS_GETPPID: i32 = 110;
pub const SYS_GETTID: i32 = 186;
pub const SYS_EXIT: i32 = 60;
pub const SYS_EXIT_GROUP: i32 = 231;
pub const SYS_TGKILL: i32 = 234;
pub const SYS_RT_SIGACTION: i32 = 13;
pub const SYS_SCHED_YIELD: i32 = 24;
pub const SYS_SET_ROBUST_LIST: i32 = 273;
pub const SYS_GET_ROBUST_LIST: i32 = 274;
pub const SYS_RSEQ: i32 = 334;

// Time and event polling
pub const SYS_CLOCK_GETTIME: i32 = 228;
pub const SYS_GETTIMEOFDAY: i32 = 96;
pub const SYS_NANOSLEEP: i32 = 35;
pub const SYS_EPOLL_CREATE1: i32 = 291;
pub const SYS_EPOLL_CTL: i32 = 233;
pub const SYS_CLOCK_NANOSLEEP: i32 = 230;
pub const SYS_PSELECT6: i32 = 270;
pub const SYS_RT_SIGPROCMASK: i32 = 14;
pub const SYS_SIGALTSTACK: i32 = 131;
pub const SYS_GETRANDOM: i32 = 318;

// Allowed-with-error: attempted calls fail with EPERM instead of killing
pub const SYS_CLONE: i32 = 56;
pub const SYS_MKDIRAT: i32 = 258;
pub const SYS_MKDIR: i32 = 83;

// Network extension
pub const SYS_SOCKET: i32 = 41;
pub const SYS_CONNECT: i32 = 42;
pub const SYS_BIND: i32 = 49;
pub const SYS_LISTEN: i32 = 50;
pub const SYS_ACCEPT: i32 = 43;
pub const SYS_SENDTO: i32 = 44;
pub const SYS_RECVFROM: i32 = 45;
pub const SYS_GETSOCKNAME: i32 = 51;
pub const SYS_RECVMSG: i32 = 47;
pub const SYS_GETPEERNAME: i32 = 52;
pub const SYS_SETSOCKOPT: i32 = 54;
pub const SYS_PPOLL: i32 = 271;
pub const SYS_UNAME: i32 = 63;
pub const SYS_SENDMSG: i32 = 46;
pub const SYS_SENDMMSG: i32 = 307;
pub const SYS_GETSOCKOPT: i32 = 55;
pub const SYS_FSTAT: i32 = 5;
pub const SYS_FCNTL: i32 = 72;
pub const SYS_FSTATFS: i32 = 138;
pub const SYS_POLL: i32 = 7;
pub const SYS_EPOLL_PWAIT: i32 = 281;

/// Baseline allow-set: syscalls the interpreter needs without networking,
/// in the table's defined order.
pub open spec fn baseline_allow_seq() -> Seq<i32> {
    seq![
        SYS_READ,
        SYS_WRITE,
        SYS_OPENAT,
        SYS_CLOSE,
        SYS_NEWFSTATAT,
        SYS_IOCTL,
        SYS_LSEEK,
        SYS_GETDENTS64,
        SYS_FUTEX,
        SYS_MMAP,
        SYS_BRK,
        SYS_MPROTECT,
        SYS_MUNMAP,
        SYS_RT_SIGRETURN,
        SYS_MREMAP,
        SYS_SETUID,
        SYS_SETGID,
        SYS_GETUID,
        SYS_GETPID,
        SYS_GETPPID,
        SYS_GETTID,
        SYS_EXIT,
        SYS_EXIT_GROUP,
        SYS_TGKILL,
        SYS_RT_SIGACTION,
        SYS_SCHED_YIELD,
        SYS_SET_ROBUST_LIST,
        SYS_GET_ROBUST_LIST,
        SYS_RSEQ,
        SYS_CLOCK_GETTIME,
        SYS_GETTIMEOFDAY,
        SYS_NANOSLEEP,
        SYS_EPOLL_CREATE1,
        SYS_EPOLL_CTL,
        SYS_CLOCK_NANOSLEEP,
        SYS_PSELECT6,
        SYS_RT_SIGPROCMASK,
        SYS_SIGALTSTACK,
        SYS_GETRANDOM,
    ]
}

/// Allow-with-error set: process/thread creation and directory creation are
/// permitted to be attempted but always fail with a permission error.
/// Shared across interpreter profiles.
pub open spec fn allow_error_seq() -> Seq<i32> {
    seq![SYS_CLONE, SYS_MKDIRAT, SYS_MKDIR]
}

/// Network extension set: appended to the baseline when networking is enabled.
pub open spec fn network_allow_seq() -> Seq<i32> {
    seq![
        SYS_SOCKET,
        SYS_CONNECT,
        SYS_BIND,
        SYS_LISTEN,
        SYS_ACCEPT,
        SYS_SENDTO,
        SYS_RECVFROM,
        SYS_GETSOCKNAME,
        SYS_RECVMSG,
        SYS_GETPEERNAME,
        SYS_SETSOCKOPT,
        SYS_PPOLL,
        SYS_UNAME,
        SYS_SENDMSG,
        SYS_SENDMMSG,
        SYS_GETSOCKOPT,
        SYS_FSTAT,
        SYS_FCNTL,
        SYS_FSTATFS,
        SYS_POLL,
        SYS_EPOLL_PWAIT,
    ]
}

/// The baseline allow-set as a vector.
pub fn baseline_allow_syscalls() -> (v: Vec<i32>)
    ensures
        v@ == baseline_allow_seq(),
{
    let mut v: Vec<i32> = Vec::new();
    v.push(SYS_READ);
    v.push(SYS_WRITE);
    v.push(SYS_OPENAT);
    v.push(SYS_CLOSE);
    v.push(SYS_NEWFSTATAT);
    v.push(SYS_IOCTL);
    v.push(SYS_LSEEK);
    v.push(SYS_GETDENTS64);
    v.push(SYS_FUTEX);
    v.push(SYS_MMAP);
    v.push(SYS_BRK);
    v.push(SYS_MPROTECT);
    v.push(SYS_MUNMAP);
    v.push(SYS_RT_SIGRETURN);
    v.push(SYS_MREMAP);
    v.push(SYS_SETUID);
    v.push(SYS_SETGID);
    v.push(SYS_GETUID);
    v.push(SYS_GETPID);
    v.push(SYS_GETPPID);
    v.push(SYS_GETTID);
    v.push(SYS_EXIT);
    v.push(SYS_EXIT_GROUP);
    v.push(SYS_TGKILL);
    v.push(SYS_RT_SIGACTION);
    v.push(SYS_SCHED_YIELD);
    v.push(SYS_SET_ROBUST_LIST);
    v.push(SYS_GET_ROBUST_LIST);
    v.push(SYS_RSEQ);
    v.push(SYS_CLOCK_GETTIME);
    v.push(SYS_GETTIMEOFDAY);
    v.push(SYS_NANOSLEEP);
    v.push(SYS_EPOLL_CREATE1);
    v.push(SYS_EPOLL_CTL);
    v.push(SYS_CLOCK_NANOSLEEP);
    v.push(SYS_PSELECT6);
    v.push(SYS_RT_SIGPROCMASK);
    v.push(SYS_SIGALTSTACK);
    v.push(SYS_GETRANDOM);
    proof {
        assert(v@ =~= baseline_allow_seq());
    }
    v
}

/// The allow-with-error set as a vector.
pub fn allow_error_syscalls() -> (v: Vec<i32>)
    ensures
        v@ == allow_error_seq(),
{
    let mut v: Vec<i32> = Vec::new();
    v.push(SYS_CLONE);
    v.push(SYS_MKDIRAT);
    v.push(SYS_MKDIR);
    proof {
        assert(v@ =~= allow_error_seq());
    }
    v
}

/// The network extension set as a vector.
pub fn network_allow_syscalls() -> (v: Vec<i32>)
    ensures
        v@ == network_allow_seq(),
{
    let mut v: Vec<i32> = Vec::new();
    v.push(SYS_SOCKET);
    v.push(SYS_CONNECT);
    v.push(SYS_BIND);
    v.push(SYS_LISTEN);
    v.push(SYS_ACCEPT);
    v.push(SYS_SENDTO);
    v.push(SYS_RECVFROM);
    v.push(SYS_GETSOCKNAME);
    v.push(SYS_RECVMSG);
    v.push(SYS_GETPEERNAME);
    v.push(SYS_SETSOCKOPT);
    v.push(SYS_PPOLL);
    v.push(SYS_UNAME);
    v.push(SYS_SENDMSG);
    v.push(SYS_SENDMMSG);
    v.push(SYS_GETSOCKOPT);
    v.push(SYS_FSTAT);
    v.push(SYS_FCNTL);
    v.push(SYS_FSTATFS);
    v.push(SYS_POLL);
    v.push(SYS_EPOLL_PWAIT);
    proof {
        assert(v@ =~= network_allow_seq());
    }
    v
}

} // verus!
