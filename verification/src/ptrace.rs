//! The control channel: the closed set of tracing requests, the words that
//! make up one request, and the reading of the kernel's raw answer. The
//! decisions of a launch, which are made of these requests, are found here
//! too.

use vstd::prelude::*;

pub use crate::launch::{exec, inferior_attach, inferior_exec};

verus! {

/// A process identifier as the kernel hands it out.
pub type InferiorType = i32;

/// "No such process".
pub const ESRCH: i32 = 3;

/// "Interrupted system call".
pub const EINTR: i32 = 4;

/// "Resource temporarily unavailable".
pub const EAGAIN: i32 = 11;

/// The option that makes the kernel mark system-call stops with bit 7 of the
/// stop signal, so that they cannot be mistaken for a delivered `SIGTRAP`.
pub const PTRACE_O_TRACESYSGOOD: u64 = 1;

/// The requests a tracer can send.
#[derive(Clone, Copy, Debug, PartialEq, Eq, Structural)]
pub enum PtraceRequest {
    TraceMe,
    PeekText,
    PeekData,
    PeekUser,
    PokeText,
    PokeData,
    PokeUser,
    Cont,
    Kill,
    SingleStep,
    GetRegs,
    SetRegs,
    GetFpRegs,
    SetFpRegs,
    Attach,
    Detach,
    GetFpxRegs,
    SetFpxRegs,
    Syscall,
    SetOptions,
    GetEventMsg,
    GetSigInfo,
    SetSigInfo,
    GetRegSet,
    SetRegSet,
    Seize,
    Interrupt,
    Listen,
    PeekSigInfo,
}

impl PtraceRequest {
    /// The number the kernel knows the request by.
    pub open spec fn spec_code(self) -> i32 {
        match self {
            PtraceRequest::TraceMe => 0,
            PtraceRequest::PeekText => 1,
            PtraceRequest::PeekData => 2,
            PtraceRequest::PeekUser => 3,
            PtraceRequest::PokeText => 4,
            PtraceRequest::PokeData => 5,
            PtraceRequest::PokeUser => 6,
            PtraceRequest::Cont => 7,
            PtraceRequest::Kill => 8,
            PtraceRequest::SingleStep => 9,
            PtraceRequest::GetRegs => 12,
            PtraceRequest::SetRegs => 13,
            PtraceRequest::GetFpRegs => 14,
            PtraceRequest::SetFpRegs => 15,
            PtraceRequest::Attach => 16,
            PtraceRequest::Detach => 17,
            PtraceRequest::GetFpxRegs => 18,
            PtraceRequest::SetFpxRegs => 19,
            PtraceRequest::Syscall => 24,
            PtraceRequest::SetOptions => 0x4200,
            PtraceRequest::GetEventMsg => 0x4201,
            PtraceRequest::GetSigInfo => 0x4202,
            PtraceRequest::SetSigInfo => 0x4203,
            PtraceRequest::GetRegSet => 0x4204,
            PtraceRequest::SetRegSet => 0x4205,
            PtraceRequest::Seize => 0x4206,
            PtraceRequest::Interrupt => 0x4207,
            PtraceRequest::Listen => 0x4208,
            PtraceRequest::PeekSigInfo => 0x4209,
        }
    }

    /// The requests that read a word of the tracee: their answer is the word
    /// itself, so `-1` may be data.
    pub open spec fn spec_is_peek(self) -> bool {
        self == PtraceRequest::PeekText || self == PtraceRequest::PeekData || self
            == PtraceRequest::PeekUser
    }

    #[verifier::when_used_as_spec(spec_code)]
    pub fn code(self) -> (c: i32)
        ensures
            c == self.spec_code(),
    {
        match self {
            PtraceRequest::TraceMe => 0,
            PtraceRequest::PeekText => 1,
            PtraceRequest::PeekData => 2,
            PtraceRequest::PeekUser => 3,
            PtraceRequest::PokeText => 4,
            PtraceRequest::PokeData => 5,
            PtraceRequest::PokeUser => 6,
            PtraceRequest::Cont => 7,
            PtraceRequest::Kill => 8,
            PtraceRequest::SingleStep => 9,
            PtraceRequest::GetRegs => 12,
            PtraceRequest::SetRegs => 13,
            PtraceRequest::GetFpRegs => 14,
            PtraceRequest::SetFpRegs => 15,
            PtraceRequest::Attach => 16,
            PtraceRequest::Detach => 17,
            PtraceRequest::GetFpxRegs => 18,
            PtraceRequest::SetFpxRegs => 19,
            PtraceRequest::Syscall => 24,
            PtraceRequest::SetOptions => 0x4200,
            PtraceRequest::GetEventMsg => 0x4201,
            PtraceRequest::GetSigInfo => 0x4202,
            PtraceRequest::SetSigInfo => 0x4203,
            PtraceRequest::GetRegSet => 0x4204,
            PtraceRequest::SetRegSet => 0x4205,
            PtraceRequest::Seize => 0x4206,
            PtraceRequest::Interrupt => 0x4207,
            PtraceRequest::Listen => 0x4208,
            PtraceRequest::PeekSigInfo => 0x4209,
        }
    }

    /// The request with the given number, if there is one.
    pub fn from_code(code: i32) -> (r: Option<PtraceRequest>)
        ensures
            match r {
                Some(request) => request.spec_code() == code,
                None => forall|request: PtraceRequest| request.spec_code() != code,
            },
    {
        match code {
            0 => Some(PtraceRequest::TraceMe),
            1 => Some(PtraceRequest::PeekText),
            2 => Some(PtraceRequest::PeekData),
            3 => Some(PtraceRequest::PeekUser),
            4 => Some(PtraceRequest::PokeText),
            5 => Some(PtraceRequest::PokeData),
            6 => Some(PtraceRequest::PokeUser),
            7 => Some(PtraceRequest::Cont),
            8 => Some(PtraceRequest::Kill),
            9 => Some(PtraceRequest::SingleStep),
            12 => Some(PtraceRequest::GetRegs),
            13 => Some(PtraceRequest::SetRegs),
            14 => Some(PtraceRequest::GetFpRegs),
            15 => Some(PtraceRequest::SetFpRegs),
            16 => Some(PtraceRequest::Attach),
            17 => Some(PtraceRequest::Detach),
            18 => Some(PtraceRequest::GetFpxRegs),
            19 => Some(PtraceRequest::SetFpxRegs),
            24 => Some(PtraceRequest::Syscall),
            0x4200 => Some(PtraceRequest::SetOptions),
            0x4201 => Some(PtraceRequest::GetEventMsg),
            0x4202 => Some(PtraceRequest::GetSigInfo),
            0x4203 => Some(PtraceRequest::SetSigInfo),
            0x4204 => Some(PtraceRequest::GetRegSet),
            0x4205 => Some(PtraceRequest::SetRegSet),
            0x4206 => Some(PtraceRequest::Seize),
            0x4207 => Some(PtraceRequest::Interrupt),
            0x4208 => Some(PtraceRequest::Listen),
            0x4209 => Some(PtraceRequest::PeekSigInfo),
            _ => None,
        }
    }

    #[verifier::when_used_as_spec(spec_is_peek)]
    pub fn is_peek(self) -> (b: bool)
        ensures
            b == self.spec_is_peek(),
    {
        match self {
            PtraceRequest::PeekText | PtraceRequest::PeekData | PtraceRequest::PeekUser => true,
            _ => false,
        }
    }
}

/// Two requests with the same number are the same request.
pub proof fn lemma_code_is_injective(a: PtraceRequest, b: PtraceRequest)
    requires
        a.spec_code() == b.spec_code(),
    ensures
        a == b,
{
}

/// A request the platform rejected: which request, for which process, and the
/// platform's error code.
#[derive(Clone, Copy, Debug, PartialEq, Eq, Structural)]
pub struct PtraceError {
    pub request: PtraceRequest,
    pub pid: InferiorType,
    pub errno: i32,
}

/// The four words of one tracing request.
#[derive(Clone, Copy, Debug, PartialEq, Eq, Structural)]
pub struct Command {
    pub request: PtraceRequest,
    pub pid: InferiorType,
    pub addr: u64,
    pub data: u64,
}

/// What the raw answer to a request means.
///
/// A peek answers with the word it read, so its `-1` is a failure only when
/// the error code, cleared just before the request, is set afterwards. Every
/// other request fails exactly when it answers `-1`, and succeeds with 0.
pub open spec fn ptrace_outcome(request: PtraceRequest, pid: InferiorType, ret: i64, errno: i32)
    -> Result<i64, PtraceError> {
    if request.spec_is_peek() {
        if ret == -1 && errno != 0 {
            Err(PtraceError { request, pid, errno })
        } else {
            Ok(ret)
        }
    } else {
        if ret == -1 {
            Err(PtraceError { request, pid, errno })
        } else {
            Ok(0i64)
        }
    }
}

/// Reads the answer `ret` that the kernel gave to `request` for `pid`, with
/// `errno` the platform's error code right after the call.
pub fn exec_ptrace(request: PtraceRequest, pid: InferiorType, ret: i64, errno: i32) -> (r: Result<
    i64,
    PtraceError,
>)
    ensures
        r == ptrace_outcome(request, pid, ret, errno),
{
    if request.is_peek() {
        if ret == -1 && errno != 0 {
            return Err(PtraceError { request, pid, errno });
        }
        return Ok(ret);
    }
    if ret == -1 {
        Err(PtraceError { request, pid, errno })
    } else {
        Ok(0)
    }
}

/// The process identifier can name a tracee: it is a positive one, as every
/// identifier of a created process is.
pub open spec fn is_target(pid: InferiorType) -> bool {
    pid > 0
}

/// The request by which a new process asks to be traced by its parent.
pub fn traceme() -> (c: Command)
    ensures
        c == (Command { request: PtraceRequest::TraceMe, pid: 0, addr: 0, data: 0 }),
{
    Command { request: PtraceRequest::TraceMe, pid: 0, addr: 0, data: 0 }
}

/// The request that lets a stopped tracee run on.
pub fn cont(pid: InferiorType) -> (c: Command)
    requires
        is_target(pid),
    ensures
        c == (Command { request: PtraceRequest::Cont, pid, addr: 0, data: 0 }),
{
    Command { request: PtraceRequest::Cont, pid, addr: 0, data: 0 }
}

/// The request that lets a stopped tracee run to its next system-call
/// boundary, delivering `signal` to it on the way (0 for none).
pub fn syscall(pid: InferiorType, signal: i32) -> (c: Command)
    requires
        is_target(pid),
        0 <= signal,
    ensures
        c == (Command { request: PtraceRequest::Syscall, pid, addr: 0, data: signal as u64 }),
{
    Command { request: PtraceRequest::Syscall, pid, addr: 0, data: signal as u64 }
}

/// The request that sets the tracing options of a stopped tracee.
pub fn set_options(pid: InferiorType, options: u64) -> (c: Command)
    requires
        is_target(pid),
    ensures
        c == (Command { request: PtraceRequest::SetOptions, pid, addr: 0, data: options }),
{
    Command { request: PtraceRequest::SetOptions, pid, addr: 0, data: options }
}

/// The request that reads the word at `offset` of a stopped tracee's saved
/// register area.
pub fn peek_user(pid: InferiorType, offset: u64) -> (c: Command)
    requires
        is_target(pid),
    ensures
        c == (Command { request: PtraceRequest::PeekUser, pid, addr: offset, data: 0 }),
{
    Command { request: PtraceRequest::PeekUser, pid, addr: offset, data: 0 }
}

/// The request that kills the tracee.
pub fn kill(pid: InferiorType) -> (c: Command)
    requires
        is_target(pid),
    ensures
        c == (Command { request: PtraceRequest::Kill, pid, addr: 0, data: 0 }),
{
    Command { request: PtraceRequest::Kill, pid, addr: 0, data: 0 }
}

/// The request that ends the supervision of a stopped tracee and lets it run
/// freely.
pub fn detach(pid: InferiorType) -> (c: Command)
    requires
        is_target(pid),
    ensures
        c == (Command { request: PtraceRequest::Detach, pid, addr: 0, data: 0 }),
{
    Command { request: PtraceRequest::Detach, pid, addr: 0, data: 0 }
}

} // verus!
