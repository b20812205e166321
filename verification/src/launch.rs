//! Bringing a program under supervision: what to do with the outcome of
//! creating the new process, what the new process must do before it becomes
//! the program, and how the supervisor reads the first stop.

use crate::ptrace::{
    exec_ptrace, ptrace_outcome, traceme, Command, InferiorType, PtraceError, PtraceRequest, EAGAIN,
    EINTR,
};
use crate::text::chars_of;
use crate::wait::{classify_status, stop_reason, StopReason, SIGSTOP, SIGTRAP};
use vstd::prelude::*;

verus! {

/// How a traced process ended.
#[derive(Clone, Copy, Debug, PartialEq, Eq, Structural)]
pub enum Termination {
    /// It exited on its own, with this code.
    Exited(i32),
    /// This signal killed it.
    Signaled(i32),
}

/// At what a stopped tracee stands.
#[derive(Clone, Copy, Debug, PartialEq, Eq, Structural)]
pub enum StopKind {
    /// The first stop, which shows that supervision is in place.
    Handshake,
    /// The entry of a system call.
    SyscallEntry,
    /// The exit of a system call.
    SyscallExit,
    /// A signal about to be delivered.
    SignalDelivery,
}

/// Where a tracee is in its life.
#[derive(Clone, Copy, Debug, PartialEq, Eq, Structural)]
pub enum TraceeState {
    Launching,
    Stopped(StopKind),
    Running,
    Exited(i32),
    Signaled(i32),
}

/// The traced process.
#[derive(Clone, Copy, Debug, PartialEq, Eq, Structural)]
pub struct Tracee {
    pub pid: InferiorType,
    pub state: TraceeState,
}

impl Tracee {
    /// The tracee is stopped, so its registers can be read.
    pub open spec fn spec_is_stopped(&self) -> bool {
        self.state is Stopped
    }

    /// The tracee has ended.
    pub open spec fn spec_has_ended(&self) -> bool {
        self.state is Exited || self.state is Signaled
    }

    #[verifier::when_used_as_spec(spec_is_stopped)]
    pub fn is_stopped(&self) -> (b: bool)
        ensures
            b == self.spec_is_stopped(),
    {
        match self.state {
            TraceeState::Stopped(_) => true,
            _ => false,
        }
    }

    #[verifier::when_used_as_spec(spec_has_ended)]
    pub fn has_ended(&self) -> (b: bool)
        ensures
            b == self.spec_has_ended(),
    {
        match self.state {
            TraceeState::Exited(_) => true,
            TraceeState::Signaled(_) => true,
            _ => false,
        }
    }
}

/// Why a program could not be brought under supervision.
#[derive(Clone, Copy, Debug, PartialEq, Eq, Structural)]
pub enum LaunchError {
    /// There is no program to run: the argument vector is empty.
    EmptyCommand,
    /// The path of the program holds a NUL character.
    InvalidPath,
    /// The argument at this place holds a NUL character.
    InvalidArgument { index: usize },
    /// No new process could be created.
    ProcessCreation { errno: i32 },
    /// The new process asked to be traced and was refused; it did not become
    /// the program.
    TraceMe { error: PtraceError },
    /// The new process ended before its first stop: it could not become the
    /// program.
    ImageReplacement { termination: Termination },
    /// Waiting for the first stop failed.
    HandshakeWait { errno: i32 },
    /// The first change of state, this status, is neither an end nor the
    /// stop that shows supervision.
    UnexpectedStop { status: i32 },
    /// The tracing options could not be set at the first stop.
    Options { error: PtraceError },
}

/// What creating the new process gave.
#[derive(Clone, Copy, Debug, PartialEq, Eq, Structural)]
pub enum ForkOutcome {
    /// This is the new process.
    Child,
    /// This is the supervisor; the new process has this identifier.
    Parent(InferiorType),
    /// No process was created; the platform gave this error code.
    Failed(i32),
}

/// What to do after creating the new process.
#[derive(Clone, Copy, Debug, PartialEq, Eq, Structural)]
pub enum LaunchStep {
    /// Ask to be traced, then become the program.
    RunChild,
    /// Wait for the first stop of this process.
    Attach(InferiorType),
    /// Try again to create the process.
    Retry,
    /// Give up.
    Fail(LaunchError),
}

/// How many times the creation of the process is tried at most.
pub const MAX_FORK_TRIES: u32 = 5;

/// The step that follows an outcome of creating the process, when `failed`
/// tries have failed before it. Only a temporary lack of resources is worth
/// another try, and only until the tries are used up: then it is a failure
/// like any other.
pub open spec fn launch_step(outcome: ForkOutcome, failed: u32) -> LaunchStep {
    match outcome {
        ForkOutcome::Child => LaunchStep::RunChild,
        ForkOutcome::Parent(pid) => LaunchStep::Attach(pid),
        ForkOutcome::Failed(errno) => if errno == EAGAIN && failed + 1 < MAX_FORK_TRIES {
            LaunchStep::Retry
        } else {
            LaunchStep::Fail(LaunchError::ProcessCreation { errno })
        },
    }
}

/// Decides what to do after creating the new process, when `failed` tries
/// have failed before this one.
pub fn exec(outcome: ForkOutcome, failed: u32) -> (step: LaunchStep)
    ensures
        step == launch_step(outcome, failed),
{
    match outcome {
        ForkOutcome::Child => LaunchStep::RunChild,
        ForkOutcome::Parent(pid) => LaunchStep::Attach(pid),
        ForkOutcome::Failed(errno) => if errno == EAGAIN && failed < MAX_FORK_TRIES - 1 {
            LaunchStep::Retry
        } else {
            LaunchStep::Fail(LaunchError::ProcessCreation { errno })
        },
    }
}

/// The creation of the process is tried again only after a temporary lack of
/// resources, and never once as many tries have failed as are allowed: the
/// last of them ends the launch with the error code of that lack.
pub proof fn lemma_fork_tries_are_bounded(outcome: ForkOutcome, failed: u32)
    ensures
        launch_step(outcome, failed) is Retry ==> outcome == ForkOutcome::Failed(EAGAIN) && failed
            + 1 < MAX_FORK_TRIES,
        failed + 1 >= MAX_FORK_TRIES ==> !(launch_step(outcome, failed) is Retry),
        failed + 1 >= MAX_FORK_TRIES && outcome == ForkOutcome::Failed(EAGAIN) ==> launch_step(
            outcome,
            failed,
        ) == LaunchStep::Fail(LaunchError::ProcessCreation { errno: EAGAIN }),
{
}

/// What the new process does once its request to be traced is answered with
/// `ret`, with `errno` the platform's error code: it goes on to become the
/// program, or, where the request was rejected, it gives up with the
/// rejection and does not become the program untraced.
pub open spec fn child_outcome(ret: i64, errno: i32) -> Result<(), LaunchError> {
    match ptrace_outcome(PtraceRequest::TraceMe, 0, ret, errno) {
        Ok(_) => Ok(()),
        Err(error) => Err(LaunchError::TraceMe { error }),
    }
}

/// Reads, in the new process, the answer to its request to be traced.
pub fn child_step(ret: i64, errno: i32) -> (r: Result<(), LaunchError>)
    ensures
        r == child_outcome(ret, errno),
{
    match exec_ptrace(PtraceRequest::TraceMe, 0, ret, errno) {
        Ok(_) => Ok(()),
        Err(error) => Err(LaunchError::TraceMe { error }),
    }
}

/// The text holds a NUL character, so it cannot be handed to the platform.
pub open spec fn has_nul(s: Seq<char>) -> bool {
    exists|i: int| 0 <= i < s.len() && s[i] == '\0'
}

/// Whether a text holds a NUL character.
pub fn contains_nul(s: &str) -> (b: bool)
    ensures
        b == has_nul(s@),
{
    let chars: Vec<char> = chars_of(s);
    let mut i: usize = 0;
    while i < chars.len()
        invariant
            0 <= i <= chars@.len(),
            chars@ == s@,
            forall|j: int| 0 <= j < i ==> s@[j] != '\0',
        decreases chars@.len() - i,
    {
        if chars[i] == '\0' {
            return true;
        }
        i = i + 1;
    }
    false
}

/// What the new process does first: whether `filename` and the argument
/// vector `args` can be handed to the platform, and, if so, the request to
/// issue before becoming the program.
pub open spec fn child_plan(filename: Seq<char>, args: Seq<Seq<char>>, r: Result<
    Command,
    LaunchError,
>) -> bool {
    match r {
        Ok(command) => args.len() > 0 && !has_nul(filename) && (forall|j: int|
            0 <= j < args.len() ==> !has_nul(#[trigger] args[j])) && command == (Command {
            request: crate::ptrace::PtraceRequest::TraceMe,
            pid: 0,
            addr: 0,
            data: 0,
        }),
        Err(LaunchError::EmptyCommand) => args.len() == 0,
        Err(LaunchError::InvalidPath) => args.len() > 0 && has_nul(filename),
        Err(LaunchError::InvalidArgument { index }) => args.len() > 0 && !has_nul(filename)
            && index < args.len() && has_nul(args[index as int]) && (forall|j: int|
            0 <= j < index ==> !has_nul(#[trigger] args[j])),
        Err(_) => false,
    }
}

/// Prepares the new process: checks that the path of the program and its
/// argument vector can be handed to the platform, the path first and then the
/// arguments in order, and gives the request by which the process asks to be
/// traced before it becomes the program.
pub fn inferior_exec(filename: &str, args: &Vec<String>) -> (r: Result<Command, LaunchError>)
    ensures
        child_plan(filename@, crate::text::texts(args@), r),
{
    if args.len() == 0 {
        return Err(LaunchError::EmptyCommand);
    }
    if contains_nul(filename) {
        return Err(LaunchError::InvalidPath);
    }
    let ghost views = crate::text::texts(args@);
    let mut i: usize = 0;
    while i < args.len()
        invariant
            0 <= i <= args@.len(),
            args@.len() > 0,
            !has_nul(filename@),
            views == crate::text::texts(args@),
            forall|j: int| 0 <= j < i ==> !has_nul(#[trigger] views[j]),
        decreases args@.len() - i,
    {
        if contains_nul(args[i].as_str()) {
            return Err(LaunchError::InvalidArgument { index: i });
        }
        i = i + 1;
    }
    Ok(traceme())
}

/// What the first wait for a new process showed.
#[derive(Clone, Copy, Debug, PartialEq, Eq, Structural)]
pub enum Attach {
    /// The process stands at its first stop: supervision is in place.
    Attached(Tracee),
    /// The wait was interrupted and says nothing; wait once more.
    WaitAgain,
    /// The program is not under supervision and will not be.
    Failed(LaunchError),
}

/// The signals that mark the first stop: the trap the kernel sends when a
/// traced process becomes a program, and the stop a process raises itself.
pub open spec fn is_handshake_signal(signal: i32) -> bool {
    signal == SIGTRAP || signal == SIGSTOP
}

/// What the first wait for process `pid` means, given what the wait
/// returned (`ret`, negative on failure), the status it reported and the
/// platform's error code.
pub open spec fn attach_outcome(pid: InferiorType, ret: i32, status: i32, errno: i32) -> Attach {
    if ret < 0 {
        if errno == EINTR {
            Attach::WaitAgain
        } else {
            Attach::Failed(LaunchError::HandshakeWait { errno })
        }
    } else {
        match stop_reason(status) {
            StopReason::Exited(code) => Attach::Failed(
                LaunchError::ImageReplacement { termination: Termination::Exited(code) },
            ),
            StopReason::Signaled(signal) => Attach::Failed(
                LaunchError::ImageReplacement { termination: Termination::Signaled(signal) },
            ),
            StopReason::SignalDelivery(signal) => if is_handshake_signal(signal) {
                Attach::Attached(
                    Tracee { pid, state: TraceeState::Stopped(StopKind::Handshake) },
                )
            } else {
                Attach::Failed(LaunchError::UnexpectedStop { status })
            },
            _ => Attach::Failed(LaunchError::UnexpectedStop { status }),
        }
    }
}

/// Reads the first wait for a new process.
pub fn inferior_attach(pid: InferiorType, ret: i32, status: i32, errno: i32) -> (r: Attach)
    ensures
        r == attach_outcome(pid, ret, status, errno),
{
    if ret < 0 {
        if errno == EINTR {
            return Attach::WaitAgain;
        }
        return Attach::Failed(LaunchError::HandshakeWait { errno });
    }
    match classify_status(status) {
        StopReason::Exited(code) => Attach::Failed(
            LaunchError::ImageReplacement { termination: Termination::Exited(code) },
        ),
        StopReason::Signaled(signal) => Attach::Failed(
            LaunchError::ImageReplacement { termination: Termination::Signaled(signal) },
        ),
        StopReason::SignalDelivery(signal) => if signal == SIGTRAP || signal == SIGSTOP {
            Attach::Attached(Tracee { pid, state: TraceeState::Stopped(StopKind::Handshake) })
        } else {
            Attach::Failed(LaunchError::UnexpectedStop { status })
        },
        _ => Attach::Failed(LaunchError::UnexpectedStop { status }),
    }
}

/// A new process that ends before its first stop, as one does that could not
/// become the program, is reported as a failed launch by the very wait that
/// sees it end: nothing waits for it again.
pub proof fn lemma_failed_image_is_reported(pid: InferiorType, ret: i32, status: i32, errno: i32)
    requires
        ret >= 0,
        stop_reason(status) is Exited || stop_reason(status) is Signaled,
    ensures
        attach_outcome(pid, ret, status, errno) is Failed,
        attach_outcome(pid, ret, status, errno)->Failed_0 is ImageReplacement,
{
}

/// The first wait is repeated only when it was interrupted.
pub proof fn lemma_wait_again_only_when_interrupted(
    pid: InferiorType,
    ret: i32,
    status: i32,
    errno: i32,
)
    ensures
        attach_outcome(pid, ret, status, errno) is WaitAgain <==> ret < 0 && errno == EINTR,
{
}

} // verus!
