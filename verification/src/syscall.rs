//! The syscall shim's routing rules: which calls of the sandboxed
//! POSIX-like surface delegate to the standard implementation, and which
//! terminate the guest with a trap because sockets are exposed only through
//! accept, read and write.

use vstd::prelude::*;

verus! {

/// The calls of the sandboxed POSIX-like surface.
pub enum Syscall {
    ArgsGet,
    ArgsSizesGet,
    EnvironGet,
    EnvironSizesGet,
    ClockResGet,
    ClockTimeGet,
    FdAdvise,
    FdAllocate,
    FdClose,
    FdDatasync,
    FdFdstatGet,
    FdFdstatSetFlags,
    FdFdstatSetRights,
    FdFilestatGet,
    FdFilestatSetSize,
    FdFilestatSetTimes,
    FdRead,
    FdPread,
    FdWrite,
    FdPwrite,
    FdPrestatGet,
    FdPrestatDirName,
    FdRenumber,
    FdSeek,
    FdSync,
    FdTell,
    FdReaddir,
    PathCreateDirectory,
    PathFilestatGet,
    PathFilestatSetTimes,
    PathLink,
    PathOpen,
    PathReadlink,
    PathRemoveDirectory,
    PathRename,
    PathSymlink,
    PathUnlinkFile,
    PollOneoff,
    ProcExit,
    ProcRaise,
    SchedYield,
    RandomGet,
    SockRecv,
    SockSend,
    SockShutdown,
}

/// Where the shim sends one call.
pub enum SyscallRoute {
    /// Delegate unchanged to the standard implementation.
    Delegate,
    /// Terminate the guest with a trap carrying this message.
    Trap { message: String },
}

/// The calls the shim refuses.
pub open spec fn spec_unsupported(s: Syscall) -> bool {
    s is ProcRaise || s is SockRecv || s is SockSend || s is SockShutdown
}

/// The trap message of a refused call.
pub open spec fn spec_trap_text(s: Syscall) -> Seq<char>
    recommends
        spec_unsupported(s),
{
    if s is ProcRaise {
        "proc_raise unsupported"@
    } else if s is SockRecv {
        "sock_recv unsupported"@
    } else if s is SockSend {
        "sock_send unsupported"@
    } else {
        "sock_shutdown unsupported"@
    }
}

/// Route one call: everything delegates unchanged to the standard
/// implementation, except the signal and socket calls the shim refuses,
/// each of which traps with a message naming the call.
pub fn route_syscall(s: &Syscall) -> (r: SyscallRoute)
    ensures
        spec_unsupported(*s) ==> (r matches SyscallRoute::Trap { message } && message@
            == spec_trap_text(*s)),
        !spec_unsupported(*s) ==> r is Delegate,
{
    match s {
        Syscall::ProcRaise => SyscallRoute::Trap {
            message: String::from_str("proc_raise unsupported"),
        },
        Syscall::SockRecv => SyscallRoute::Trap {
            message: String::from_str("sock_recv unsupported"),
        },
        Syscall::SockSend => SyscallRoute::Trap {
            message: String::from_str("sock_send unsupported"),
        },
        Syscall::SockShutdown => SyscallRoute::Trap {
            message: String::from_str("sock_shutdown unsupported"),
        },
        _ => SyscallRoute::Delegate,
    }
}

} // verus!
