//! The trace loop: a state machine that is told what the kernel answered and
//! says what to ask next. It drives one tracee from its first stop through
//! pairs of system-call entry and exit stops to its end, and records each
//! call on the way.
//!
//! The machine performs nothing itself. Whoever runs it performs each
//! [`Action`] and hands the kernel's answer back as a [`Reply`].

use crate::launch::{
    attach_outcome, inferior_attach, Attach, LaunchError, StopKind, Tracee, TraceeState,
};
use crate::ptrace::{
    detach, exec_ptrace, is_target, kill, ptrace_outcome, set_options, syscall, Command,
    InferiorType, PtraceError, PtraceRequest, EINTR, ESRCH, PTRACE_O_TRACESYSGOOD,
};
use crate::regs::{
    argument_offset, get_arg, get_return_value, get_syscall_num, peek_at, read_register, word_of,
    ORIG_RAX, RAX,
};
use crate::syscall::{
    describe, finalized_count, lemma_count_but_newest, lemma_open_then_close, views, Completion,
    ManagerView, Syscall, SyscallManager, SyscallView,
};
use crate::wait::{classify_status, lemma_stop_reason_ranges, stop_reason, StopReason};
use vstd::prelude::*;

verus! {

/// What the loop is waiting to see.
#[derive(Clone, Copy, Debug, PartialEq, Eq, Structural)]
pub enum Phase {
    /// The first stop of the new process.
    AwaitHandshake,
    /// The entry of the next system call.
    AwaitEntryStop,
    /// The exit of the system call that was entered.
    AwaitExitStop,
    /// Nothing more: the loop is over.
    Done,
}

/// What to do with a signal that stops the tracee on its way to it.
#[derive(Clone, Copy, Debug, PartialEq, Eq, Structural)]
pub enum SignalPolicy {
    /// Let the tracee have it.
    Forward,
    /// Drop it.
    Suppress,
}

/// What a tracing request was issued for.
#[derive(Clone, Copy, Debug, PartialEq, Eq, Structural)]
pub enum Purpose {
    /// To set the tracing options at the first stop.
    Options,
    /// To let the tracee run to its next system-call boundary.
    Resume,
    /// To read the number of the call being entered.
    Number,
    /// To read the argument at this place of the call being entered.
    Argument(u8),
    /// To read the value the call came back with.
    ReturnValue,
}

impl Purpose {
    /// The request that serves the purpose.
    pub open spec fn request(self) -> PtraceRequest {
        match self {
            Purpose::Options => PtraceRequest::SetOptions,
            Purpose::Resume => PtraceRequest::Syscall,
            _ => PtraceRequest::PeekUser,
        }
    }

    /// The purpose is to read a register at the entry of a call.
    pub open spec fn reads_entry(self) -> bool {
        self is Number || self is Argument
    }
}

/// The kind of answer the loop is owed.
#[derive(Clone, Copy, Debug, PartialEq, Eq, Structural)]
pub enum Awaiting {
    /// The tracee runs; its next change of state is awaited.
    StateChange,
    /// A tracing request was issued; its answer is awaited.
    Answer(Purpose),
    /// The loop is over.
    Nothing,
}

/// What failed.
#[derive(Clone, Copy, Debug, PartialEq, Eq, Structural)]
pub enum Operation {
    /// The wait for a change of state.
    Wait,
    /// This tracing request.
    Control(PtraceRequest),
}

/// A failure that ends the session: what failed, for which process, with
/// which error code of the platform, and in which phase.
#[derive(Clone, Copy, Debug, PartialEq, Eq, Structural)]
pub struct TraceError {
    pub pid: InferiorType,
    pub operation: Operation,
    pub errno: i32,
    pub phase: Phase,
}

/// How the loop ended.
#[derive(Clone, Copy, Debug, PartialEq, Eq, Structural)]
pub enum Outcome {
    /// The tracee exited on its own, with this code.
    Exited(i32),
    /// This signal killed the tracee.
    Signaled(i32),
    /// The program never came under supervision.
    LaunchFailed(LaunchError),
    /// The platform rejected what the loop needed.
    Failed(TraceError),
}

/// What whoever runs the loop has to do next.
#[derive(Clone, Copy, Debug, PartialEq, Eq, Structural)]
pub enum Action {
    /// Issue this tracing request, clearing the platform's error code first,
    /// and reply with its raw answer and the error code after it.
    Execute(Command),
    /// Block until the tracee changes state, and reply with what the wait
    /// returned, the status it reported and the error code after it.
    Wait,
    /// Stop: the loop is over.
    Finish,
}

/// What the kernel answered.
#[derive(Clone, Copy, Debug, PartialEq, Eq, Structural)]
pub enum Reply {
    /// The raw answer to a tracing request and the platform's error code
    /// after it.
    Answer { ret: i64, errno: i32 },
    /// What a wait returned (the process it speaks of, or a negative number
    /// on failure), the status it reported and the platform's error code
    /// after it.
    StateChange { pid: i32, status: i32, errno: i32 },
}

/// How to let go of a tracee that is still there.
#[derive(Clone, Copy, Debug, PartialEq, Eq, Structural)]
pub enum Cancellation {
    /// End the supervision and let the tracee run freely.
    Detach,
    /// End the tracee.
    Kill,
}

/// The signal to hand to the tracee when it is resumed after `signal`
/// stopped it.
pub open spec fn resume_signal(policy: SignalPolicy, signal: i32) -> i32 {
    match policy {
        SignalPolicy::Forward => signal,
        SignalPolicy::Suppress => 0,
    }
}

/// The request that lets process `pid` run to its next system-call boundary
/// and hands it `signal` on the way.
pub open spec fn resume(pid: InferiorType, signal: i32) -> Command {
    Command { request: PtraceRequest::Syscall, pid, addr: 0, data: signal as u64 }
}

/// The trace loop as a mathematical value.
pub struct LoopView {
    pub tracee: Tracee,
    pub phase: Phase,
    pub awaiting: Awaiting,
    pub policy: SignalPolicy,
    /// The catalog and the record of calls.
    pub manager: ManagerView,
    /// The call the tracee is inside: entered, and not yet in the record.
    pub open: Option<SyscallView>,
    /// The number of the call whose arguments are being read.
    pub number: u64,
    /// The argument words read so far of the call being entered.
    pub words: Seq<u64>,
    /// How the loop ended, once it has.
    pub outcome: Option<Outcome>,
    /// How many system-call entry stops were seen.
    pub entry_stops: nat,
}

impl LoopView {
    /// The loop as it begins for the new process `pid`: the first thing
    /// awaited is the process's first change of state.
    pub open spec fn start(pid: InferiorType, policy: SignalPolicy, manager: ManagerView)
        -> LoopView {
        LoopView {
            tracee: Tracee { pid, state: TraceeState::Launching },
            phase: Phase::AwaitHandshake,
            awaiting: Awaiting::StateChange,
            policy,
            manager,
            open: None,
            number: 0,
            words: Seq::<u64>::empty(),
            outcome: None,
            entry_stops: 0,
        }
    }

    /// The registers of a call being entered are being read.
    pub open spec fn reading_entry(self) -> bool {
        self.awaiting matches Awaiting::Answer(purpose) && purpose.reads_entry()
    }

    /// What holds of the loop at all times.
    pub open spec fn wf(self) -> bool {
        let events = self.manager.events;
        &&& is_target(self.tracee.pid)
        &&& self.manager.wf()
        // the record holds no pending call: every call in it was seen at both
        // ends, but for a newest one that the tracee ended inside
        &&& forall|i: int| 0 <= i < events.len() - 1 ==> (#[trigger] events[i]).finalized()
        &&& events.len() > 0 ==> events.last().finalized() || (events.last().completion
            is Partial && self.tracee.has_ended())
        // a call is open exactly while its exit is awaited; it stays open
        // when the loop fails inside it
        &&& match self.open {
            Some(call) => self.manager.fits(call) && call.completion is Pending && (self.phase
                is AwaitExitStop || self.outcome matches Some(Outcome::Failed(_))),
            None => !(self.phase is AwaitExitStop),
        }
        &&& self.phase is AwaitHandshake ==> events.len() == 0 && self.entry_stops == 0
        // every entry stop led to a record, but for the one of the open call
        // and for one whose registers are still being read or could not be
        // read
        &&& events.len() <= self.entry_stops <= events.len() + 1
        &&& self.reading_entry() || self.open is Some ==> self.entry_stops == events.len() + 1
        &&& !self.reading_entry() && self.open is None && !(self.outcome matches Some(
            Outcome::Failed(_),
        )) ==> self.entry_stops == events.len()
        // the loop is over exactly when it has an outcome
        &&& self.phase is Done <==> self.awaiting is Nothing
        &&& self.phase is Done <==> self.outcome is Some
        // what is awaited fits the phase
        &&& match self.awaiting {
            Awaiting::StateChange => if self.phase is AwaitHandshake {
                self.tracee.state is Launching
            } else {
                self.tracee.state is Running
            },
            Awaiting::Answer(purpose) => {
                &&& self.tracee.is_stopped()
                &&& match purpose {
                    Purpose::Options => self.phase is AwaitHandshake,
                    Purpose::Resume => self.phase is AwaitEntryStop || self.phase
                        is AwaitExitStop,
                    Purpose::Number => self.phase is AwaitEntryStop && self.words.len() == 0,
                    Purpose::Argument(i) => self.phase is AwaitEntryStop && i < describe(
                        self.manager.table,
                        self.number,
                    ).arity() && self.words.len() == i,
                    Purpose::ReturnValue => self.phase is AwaitExitStop,
                }
            },
            Awaiting::Nothing => true,
        }
        // an ended tracee is known as ended
        &&& match self.outcome {
            Some(Outcome::Exited(code)) => self.tracee.state == TraceeState::Exited(code),
            Some(Outcome::Signaled(signal)) => self.tracee.state == TraceeState::Signaled(
                signal,
            ),
            _ => true,
        }
    }

    /// The loop accepts `reply`: it is the kind of answer the loop is owed.
    pub open spec fn accepts(self, reply: Reply) -> bool {
        match reply {
            Reply::Answer { .. } => self.awaiting is Answer,
            Reply::StateChange { .. } => self.awaiting is StateChange,
        }
    }

    /// The record with the open call, if there is one, put behind the others
    /// in the state `completion`.
    pub open spec fn record_closed(self, completion: Completion) -> ManagerView {
        match self.open {
            Some(call) => self.manager.closed(call, completion),
            None => self.manager,
        }
    }

    /// The loop once the tracee has ended, in `state`: a call the tracee was
    /// still inside is put in the record as partial, not dropped.
    pub open spec fn ended(self, outcome: Outcome, state: TraceeState) -> LoopView {
        LoopView {
            tracee: Tracee { pid: self.tracee.pid, state },
            phase: Phase::Done,
            awaiting: Awaiting::Nothing,
            manager: self.record_closed(Completion::Partial),
            open: None,
            words: Seq::<u64>::empty(),
            outcome: Some(outcome),
            ..self
        }
    }

    /// The loop after a failure of `operation` with error code `errno`; in
    /// the first phase the failure is one of the launch, given as `launch`.
    /// The record is left as it was, and so is the open call: the tracee may
    /// still be inside it.
    pub open spec fn failed(self, operation: Operation, errno: i32, launch: LaunchError)
        -> LoopView {
        LoopView {
            phase: Phase::Done,
            awaiting: Awaiting::Nothing,
            words: Seq::<u64>::empty(),
            outcome: Some(
                if self.phase is AwaitHandshake {
                    Outcome::LaunchFailed(launch)
                } else {
                    Outcome::Failed(
                        TraceError { pid: self.tracee.pid, operation, errno, phase: self.phase },
                    )
                },
            ),
            ..self
        }
    }

    /// The loop once call `number` is entered with the argument words
    /// `words`: the call is opened, the record is left as it is, and the
    /// tracee is sent on to the exit of the call.
    pub open spec fn entered(self, number: u64, words: Seq<u64>) -> (LoopView, Action) {
        (
            LoopView {
                phase: Phase::AwaitExitStop,
                awaiting: Awaiting::Answer(Purpose::Resume),
                open: Some(self.manager.opened(number, words)),
                number,
                words: Seq::<u64>::empty(),
                ..self
            },
            Action::Execute(resume(self.tracee.pid, 0)),
        )
    }

    /// The loop and the next action after a wait returned `ret` and reported
    /// `status`, with `errno` the platform's error code.
    pub open spec fn after_wait(self, ret: i32, status: i32, errno: i32) -> (LoopView, Action) {
        let pid = self.tracee.pid;
        if self.phase is AwaitHandshake {
            match attach_outcome(pid, ret, status, errno) {
                Attach::Attached(tracee) => (
                    LoopView { tracee, awaiting: Awaiting::Answer(Purpose::Options), ..self },
                    Action::Execute(
                        Command {
                            request: PtraceRequest::SetOptions,
                            pid,
                            addr: 0,
                            data: PTRACE_O_TRACESYSGOOD,
                        },
                    ),
                ),
                Attach::WaitAgain => (self, Action::Wait),
                Attach::Failed(error) => (
                    self.ended(
                        Outcome::LaunchFailed(error),
                        if ret >= 0 {
                            match stop_reason(status) {
                                StopReason::Exited(code) => TraceeState::Exited(code),
                                StopReason::Signaled(signal) => TraceeState::Signaled(signal),
                                _ => self.tracee.state,
                            }
                        } else {
                            self.tracee.state
                        },
                    ),
                    Action::Finish,
                ),
            }
        } else if ret < 0 {
            if errno == EINTR {
                (self, Action::Wait)
            } else {
                (
                    self.failed(Operation::Wait, errno, LaunchError::HandshakeWait { errno }),
                    Action::Finish,
                )
            }
        } else {
            match stop_reason(status) {
                StopReason::Exited(code) => (
                    self.ended(Outcome::Exited(code), TraceeState::Exited(code)),
                    Action::Finish,
                ),
                StopReason::Signaled(signal) => (
                    self.ended(Outcome::Signaled(signal), TraceeState::Signaled(signal)),
                    Action::Finish,
                ),
                StopReason::SyscallBoundary => if self.phase is AwaitEntryStop {
                    (
                        LoopView {
                            tracee: Tracee {
                                pid,
                                state: TraceeState::Stopped(StopKind::SyscallEntry),
                            },
                            awaiting: Awaiting::Answer(Purpose::Number),
                            words: Seq::<u64>::empty(),
                            entry_stops: self.entry_stops + 1,
                            ..self
                        },
                        Action::Execute(peek_at(pid, ORIG_RAX)),
                    )
                } else {
                    (
                        LoopView {
                            tracee: Tracee {
                                pid,
                                state: TraceeState::Stopped(StopKind::SyscallExit),
                            },
                            awaiting: Awaiting::Answer(Purpose::ReturnValue),
                            ..self
                        },
                        Action::Execute(peek_at(pid, RAX)),
                    )
                },
                StopReason::SignalDelivery(signal) => (
                    LoopView {
                        tracee: Tracee {
                            pid,
                            state: TraceeState::Stopped(StopKind::SignalDelivery),
                        },
                        awaiting: Awaiting::Answer(Purpose::Resume),
                        ..self
                    },
                    Action::Execute(resume(pid, resume_signal(self.policy, signal))),
                ),
                StopReason::Other => (self, Action::Wait),
            }
        }
    }

    /// The loop and the next action after the request issued for `purpose`
    /// was answered with `ret`, with `errno` the platform's error code.
    pub open spec fn after_answer(self, purpose: Purpose, ret: i64, errno: i32) -> (
        LoopView,
        Action,
    ) {
        let pid = self.tracee.pid;
        match ptrace_outcome(purpose.request(), pid, ret, errno) {
            Err(error) => (
                self.failed(
                    Operation::Control(purpose.request()),
                    error.errno,
                    LaunchError::Options { error },
                ),
                Action::Finish,
            ),
            Ok(value) => match purpose {
                Purpose::Options => (
                    LoopView {
                        phase: Phase::AwaitEntryStop,
                        awaiting: Awaiting::Answer(Purpose::Resume),
                        ..self
                    },
                    Action::Execute(resume(pid, 0)),
                ),
                Purpose::Resume => (
                    LoopView {
                        tracee: Tracee { pid, state: TraceeState::Running },
                        awaiting: Awaiting::StateChange,
                        ..self
                    },
                    Action::Wait,
                ),
                Purpose::Number => {
                    let number = word_of(value);
                    if describe(self.manager.table, number).arity() == 0 {
                        self.entered(number, Seq::<u64>::empty())
                    } else {
                        (
                            LoopView {
                                awaiting: Awaiting::Answer(Purpose::Argument(0)),
                                number,
                                words: Seq::<u64>::empty(),
                                ..self
                            },
                            Action::Execute(peek_at(pid, argument_offset(0))),
                        )
                    }
                },
                Purpose::Argument(i) => {
                    let words = self.words.push(word_of(value));
                    if i + 1 < describe(self.manager.table, self.number).arity() {
                        (
                            LoopView {
                                awaiting: Awaiting::Answer(Purpose::Argument((i + 1) as u8)),
                                words,
                                ..self
                            },
                            Action::Execute(peek_at(pid, argument_offset((i + 1) as u8))),
                        )
                    } else {
                        self.entered(self.number, words)
                    }
                },
                Purpose::ReturnValue => (
                    LoopView {
                        phase: Phase::AwaitEntryStop,
                        awaiting: Awaiting::Answer(Purpose::Resume),
                        manager: self.record_closed(Completion::Returned(value)),
                        open: None,
                        ..self
                    },
                    Action::Execute(resume(pid, 0)),
                ),
            },
        }
    }

    /// The transition function: the loop and the next action after `reply`.
    pub open spec fn step(self, reply: Reply) -> (LoopView, Action) {
        match reply {
            Reply::StateChange { pid, status, errno } => self.after_wait(pid, status, errno),
            Reply::Answer { ret, errno } => match self.awaiting {
                Awaiting::Answer(purpose) => self.after_answer(purpose, ret, errno),
                _ => (self, Action::Finish),
            },
        }
    }

    /// The loop after each of `replies` in turn. A reply the loop does not
    /// accept leaves it as it is.
    pub open spec fn run(self, replies: Seq<Reply>) -> LoopView
        decreases replies.len(),
    {
        if replies.len() == 0 {
            self
        } else {
            let before = self.run(replies.drop_last());
            if before.accepts(replies.last()) {
                before.step(replies.last()).0
            } else {
                before
            }
        }
    }

    /// What a request issued outside the loop's own course, such as one that
    /// lets go of the tracee, came to: a failure, unless the request
    /// succeeded or found no such process after the tracee had ended.
    pub open spec fn late_failure(self, request: PtraceRequest, ret: i64, errno: i32) -> Option<
        TraceError,
    > {
        match ptrace_outcome(request, self.tracee.pid, ret, errno) {
            Ok(_) => None,
            Err(error) => if error.errno == ESRCH && self.tracee.has_ended() {
                None
            } else {
                Some(
                    TraceError {
                        pid: self.tracee.pid,
                        operation: Operation::Control(request),
                        errno: error.errno,
                        phase: self.phase,
                    },
                )
            },
        }
    }

    /// The request that lets go of the tracee, if the tracee is still there.
    pub open spec fn release(self, how: Cancellation) -> Option<Command> {
        if self.tracee.has_ended() {
            None
        } else {
            Some(
                Command {
                    request: match how {
                        Cancellation::Detach => PtraceRequest::Detach,
                        Cancellation::Kill => PtraceRequest::Kill,
                    },
                    pid: self.tracee.pid,
                    addr: 0,
                    data: 0,
                },
            )
        }
    }
}

/// The trace loop of one tracee.
pub struct TraceLoop {
    tracee: Tracee,
    phase: Phase,
    awaiting: Awaiting,
    policy: SignalPolicy,
    manager: SyscallManager,
    open: Option<Syscall>,
    number: u64,
    words: Vec<u64>,
    outcome: Option<Outcome>,
    entry_stops: Ghost<nat>,
}

impl View for TraceLoop {
    type V = LoopView;

    closed spec fn view(&self) -> LoopView {
        LoopView {
            tracee: self.tracee,
            phase: self.phase,
            awaiting: self.awaiting,
            policy: self.policy,
            manager: self.manager@,
            open: match self.open {
                Some(call) => Some(call@),
                None => None,
            },
            number: self.number,
            words: self.words@,
            outcome: self.outcome,
            entry_stops: self.entry_stops@,
        }
    }
}

impl TraceLoop {
    /// See [`LoopView::wf`].
    pub open spec fn wf(&self) -> bool {
        self@.wf()
    }

    /// The loop for the new process `pid`, with the catalog of `manager` and
    /// an empty record, and the first action: to wait for the process's
    /// first change of state.
    pub fn new(pid: InferiorType, policy: SignalPolicy, manager: SyscallManager) -> (r: (
        TraceLoop,
        Action,
    ))
        requires
            is_target(pid),
            manager.wf(),
            manager@.events.len() == 0,
        ensures
            r.0@ == LoopView::start(pid, policy, manager@),
            r.0.wf(),
            r.1 == Action::Wait,
    {
        let tracer = TraceLoop {
            tracee: Tracee { pid, state: TraceeState::Launching },
            phase: Phase::AwaitHandshake,
            awaiting: Awaiting::StateChange,
            policy,
            manager,
            open: None,
            number: 0,
            words: Vec::new(),
            outcome: None,
            entry_stops: Ghost(0),
        };
        (tracer, Action::Wait)
    }

    /// Whether `reply` is the kind of answer the loop is owed.
    pub fn accepts(&self, reply: &Reply) -> (b: bool)
        ensures
            b == self@.accepts(*reply),
    {
        match reply {
            Reply::Answer { .. } => match self.awaiting {
                Awaiting::Answer(_) => true,
                _ => false,
            },
            Reply::StateChange { .. } => match self.awaiting {
                Awaiting::StateChange => true,
                _ => false,
            },
        }
    }

    /// Puts the open call, if there is one, in the record.
    fn close(&mut self, completion: Completion)
        requires
            old(self)@.manager.wf(),
            old(self)@.open matches Some(call) ==> old(self)@.manager.fits(call),
        ensures
            final(self)@ == (LoopView {
                manager: old(self)@.record_closed(completion),
                open: None,
                ..old(self)@
            }),
    {
        match self.open.take() {
            Some(call) => {
                self.manager.close_syscall(call, completion);
            },
            None => {},
        }
    }

    /// Ends the loop for a tracee that has ended.
    fn end(&mut self, outcome: Outcome, state: TraceeState)
        requires
            old(self)@.manager.wf(),
            old(self)@.open matches Some(call) ==> old(self)@.manager.fits(call),
        ensures
            final(self)@ == old(self)@.ended(outcome, state),
    {
        self.close(Completion::Partial);
        self.tracee = Tracee { pid: self.tracee.pid, state };
        self.phase = Phase::Done;
        self.awaiting = Awaiting::Nothing;
        self.words = Vec::new();
        self.outcome = Some(outcome);
    }

    /// Ends the loop on a failure.
    fn fail(&mut self, operation: Operation, errno: i32, launch: LaunchError)
        ensures
            final(self)@ == old(self)@.failed(operation, errno, launch),
    {
        let outcome = match self.phase {
            Phase::AwaitHandshake => Outcome::LaunchFailed(launch),
            _ => Outcome::Failed(
                TraceError { pid: self.tracee.pid, operation, errno, phase: self.phase },
            ),
        };
        self.phase = Phase::Done;
        self.awaiting = Awaiting::Nothing;
        self.words = Vec::new();
        self.outcome = Some(outcome);
    }

    /// Ends the loop on a rejected request.
    fn reject(&mut self, error: PtraceError) -> (action: Action)
        ensures
            final(self)@ == old(self)@.failed(
                Operation::Control(error.request),
                error.errno,
                LaunchError::Options { error },
            ),
            action == Action::Finish,
    {
        self.fail(Operation::Control(error.request), error.errno, LaunchError::Options { error });
        Action::Finish
    }

    /// Opens the call that is being entered and sends the tracee on.
    fn enter(&mut self) -> (action: Action)
        requires
            is_target(old(self)@.tracee.pid),
            old(self)@.words.len() >= describe(
                old(self)@.manager.table,
                old(self)@.number,
            ).arity(),
        ensures
            (final(self)@, action) == old(self)@.entered(
                old(self)@.number,
                old(self)@.words,
            ),
    {
        let mut words: Vec<u64> = Vec::new();
        std::mem::swap(&mut words, &mut self.words);
        self.open = Some(self.manager.open_syscall(self.number, words));
        self.phase = Phase::AwaitExitStop;
        self.awaiting = Awaiting::Answer(Purpose::Resume);
        Action::Execute(syscall(self.tracee.pid, 0))
    }

    /// Takes in what a wait returned.
    fn on_wait(&mut self, ret: i32, status: i32, errno: i32) -> (action: Action)
        requires
            old(self).wf(),
            old(self)@.awaiting is StateChange,
        ensures
            (final(self)@, action) == old(self)@.after_wait(ret, status, errno),
    {
        let pid = self.tracee.pid;
        match self.phase {
            Phase::AwaitHandshake => {
                match inferior_attach(pid, ret, status, errno) {
                    Attach::Attached(tracee) => {
                        self.tracee = tracee;
                        self.awaiting = Awaiting::Answer(Purpose::Options);
                        Action::Execute(set_options(pid, PTRACE_O_TRACESYSGOOD))
                    },
                    Attach::WaitAgain => Action::Wait,
                    Attach::Failed(error) => {
                        let state = if ret >= 0 {
                            match classify_status(status) {
                                StopReason::Exited(code) => TraceeState::Exited(code),
                                StopReason::Signaled(signal) => TraceeState::Signaled(signal),
                                _ => self.tracee.state,
                            }
                        } else {
                            self.tracee.state
                        };
                        self.end(Outcome::LaunchFailed(error), state);
                        Action::Finish
                    },
                }
            },
            _ => {
                if ret < 0 {
                    if errno == EINTR {
                        return Action::Wait;
                    }
                    self.fail(Operation::Wait, errno, LaunchError::HandshakeWait { errno });
                    return Action::Finish;
                }
                match classify_status(status) {
                    StopReason::Exited(code) => {
                        self.end(Outcome::Exited(code), TraceeState::Exited(code));
                        Action::Finish
                    },
                    StopReason::Signaled(signal) => {
                        self.end(Outcome::Signaled(signal), TraceeState::Signaled(signal));
                        Action::Finish
                    },
                    StopReason::SyscallBoundary => {
                        match self.phase {
                            Phase::AwaitEntryStop => {
                                self.tracee = Tracee {
                                    pid,
                                    state: TraceeState::Stopped(StopKind::SyscallEntry),
                                };
                                self.awaiting = Awaiting::Answer(Purpose::Number);
                                self.words = Vec::new();
                                self.entry_stops = Ghost((self.entry_stops@ + 1) as nat);
                                Action::Execute(get_syscall_num(&self.tracee))
                            },
                            _ => {
                                self.tracee = Tracee {
                                    pid,
                                    state: TraceeState::Stopped(StopKind::SyscallExit),
                                };
                                self.awaiting = Awaiting::Answer(Purpose::ReturnValue);
                                Action::Execute(get_return_value(&self.tracee))
                            },
                        }
                    },
                    StopReason::SignalDelivery(signal) => {
                        proof {
                            lemma_stop_reason_ranges(status);
                        }
                        self.tracee = Tracee {
                            pid,
                            state: TraceeState::Stopped(StopKind::SignalDelivery),
                        };
                        self.awaiting = Awaiting::Answer(Purpose::Resume);
                        let handed: i32 = match self.policy {
                            SignalPolicy::Forward => signal,
                            SignalPolicy::Suppress => 0,
                        };
                        Action::Execute(syscall(pid, handed))
                    },
                    StopReason::Other => Action::Wait,
                }
            },
        }
    }

    /// Takes in the answer to the request issued for `purpose`.
    fn on_answer(&mut self, purpose: Purpose, ret: i64, errno: i32) -> (action: Action)
        requires
            old(self).wf(),
            old(self)@.awaiting == Awaiting::Answer(purpose),
        ensures
            (final(self)@, action) == old(self)@.after_answer(purpose, ret, errno),
    {
        let pid = self.tracee.pid;
        match purpose {
            Purpose::Number => match read_register(&self.tracee, ret, errno) {
                Ok(number) => {
                    self.number = number;
                    self.words = Vec::new();
                    if self.manager.lookup(number).arity() == 0 {
                        self.enter()
                    } else {
                        self.awaiting = Awaiting::Answer(Purpose::Argument(0));
                        Action::Execute(get_arg(&self.tracee, 0))
                    }
                },
                Err(error) => self.reject(error),
            },
            Purpose::Argument(i) => match read_register(&self.tracee, ret, errno) {
                Ok(word) => {
                    self.words.push(word);
                    let arity: u8 = self.manager.lookup(self.number).arity();
                    if i + 1 < arity {
                        self.awaiting = Awaiting::Answer(Purpose::Argument(i + 1));
                        Action::Execute(get_arg(&self.tracee, i + 1))
                    } else {
                        self.enter()
                    }
                },
                Err(error) => self.reject(error),
            },
            Purpose::ReturnValue => match exec_ptrace(PtraceRequest::PeekUser, pid, ret, errno) {
                Ok(value) => {
                    self.close(Completion::Returned(value));
                    self.phase = Phase::AwaitEntryStop;
                    self.awaiting = Awaiting::Answer(Purpose::Resume);
                    Action::Execute(syscall(pid, 0))
                },
                Err(error) => self.reject(error),
            },
            Purpose::Options => match exec_ptrace(PtraceRequest::SetOptions, pid, ret, errno) {
                Ok(_) => {
                    self.phase = Phase::AwaitEntryStop;
                    self.awaiting = Awaiting::Answer(Purpose::Resume);
                    Action::Execute(syscall(pid, 0))
                },
                Err(error) => self.reject(error),
            },
            Purpose::Resume => match exec_ptrace(PtraceRequest::Syscall, pid, ret, errno) {
                Ok(_) => {
                    self.tracee = Tracee { pid, state: TraceeState::Running };
                    self.awaiting = Awaiting::StateChange;
                    Action::Wait
                },
                Err(error) => self.reject(error),
            },
        }
    }

    /// The transition function: takes in what the kernel answered and says
    /// what to do next.
    pub fn step(&mut self, reply: Reply) -> (action: Action)
        requires
            old(self).wf(),
            old(self)@.accepts(reply),
        ensures
            (final(self)@, action) == old(self)@.step(reply),
            final(self).wf(),
    {
        proof {
            lemma_step_keeps_wf(self@, reply);
        }
        match reply {
            Reply::StateChange { pid, status, errno } => self.on_wait(pid, status, errno),
            Reply::Answer { ret, errno } => match self.awaiting {
                Awaiting::Answer(purpose) => self.on_answer(purpose, ret, errno),
                _ => Action::Finish,
            },
        }
    }

    /// What the loop is waiting to see.
    pub fn phase(&self) -> (p: Phase)
        ensures
            p == self@.phase,
    {
        self.phase
    }

    /// The kind of answer the loop is owed.
    pub fn awaiting(&self) -> (a: Awaiting)
        ensures
            a == self@.awaiting,
    {
        self.awaiting
    }

    /// The tracee and where it is in its life.
    pub fn tracee(&self) -> (t: Tracee)
        ensures
            t == self@.tracee,
    {
        self.tracee
    }

    /// How the loop ended, once it has.
    pub fn outcome(&self) -> (o: Option<Outcome>)
        ensures
            o == self@.outcome,
    {
        self.outcome
    }

    /// The catalog and the record.
    pub fn manager(&self) -> (m: &SyscallManager)
        ensures
            m@ == self@.manager,
    {
        &self.manager
    }

    /// The recorded calls, oldest first. The call the tracee is inside is not
    /// among them.
    pub fn snapshot(&self) -> (events: &Vec<Syscall>)
        ensures
            views(events@) == self@.manager.events,
    {
        self.manager.snapshot()
    }

    /// The call the tracee is inside, entered and not yet in the record.
    pub fn open_call(&self) -> (call: Option<&Syscall>)
        ensures
            match call {
                Some(c) => self@.open == Some(c@),
                None => self@.open is None,
            },
    {
        self.open.as_ref()
    }

    /// Gives the catalog and the record away.
    pub fn into_manager(self) -> (m: SyscallManager)
        ensures
            m@ == self@.manager,
    {
        self.manager
    }

    /// Reads the answer to a request issued outside the loop's own course,
    /// such as one that lets go of the tracee. "No such process" after the
    /// tracee has ended is no failure.
    pub fn late_answer(&self, request: PtraceRequest, ret: i64, errno: i32) -> (r: Option<
        TraceError,
    >)
        ensures
            r == self@.late_failure(request, ret, errno),
    {
        match exec_ptrace(request, self.tracee.pid, ret, errno) {
            Ok(_) => None,
            Err(error) => if error.errno == ESRCH && self.tracee.has_ended() {
                None
            } else {
                Some(
                    TraceError {
                        pid: self.tracee.pid,
                        operation: Operation::Control(request),
                        errno: error.errno,
                        phase: self.phase,
                    },
                )
            },
        }
    }

    /// The request that lets go of the tracee, so that it is never left
    /// stopped with no supervisor: none if the tracee has ended.
    pub fn cancel(&self, how: Cancellation) -> (c: Option<Command>)
        requires
            self.wf(),
        ensures
            c == self@.release(how),
    {
        if self.tracee.has_ended() {
            None
        } else {
            match how {
                Cancellation::Detach => Some(detach(self.tracee.pid)),
                Cancellation::Kill => Some(kill(self.tracee.pid)),
            }
        }
    }
}

/// Every step keeps the loop well formed.
pub proof fn lemma_step_keeps_wf(s: LoopView, reply: Reply)
    requires
        s.wf(),
        s.accepts(reply),
    ensures
        s.step(reply).0.wf(),
{
    if s.open is Some {
        lemma_open_then_close(
            s.manager,
            s.number,
            s.words,
            s.open->0,
            Completion::Partial,
        );
    }
    match reply {
        Reply::StateChange { .. } => {},
        Reply::Answer { ret, errno } => {
            let purpose = s.awaiting->Answer_0;
            match ptrace_outcome(purpose.request(), s.tracee.pid, ret, errno) {
                Err(_) => {},
                Ok(value) => {
                    let words = match purpose {
                        Purpose::Number => Seq::<u64>::empty(),
                        _ => s.words.push(word_of(value)),
                    };
                    let number = match purpose {
                        Purpose::Number => word_of(value),
                        _ => s.number,
                    };
                    lemma_open_then_close(
                        s.manager,
                        number,
                        words,
                        if s.open is Some {
                            s.open->0
                        } else {
                            s.manager.opened(number, words)
                        },
                        Completion::Returned(value),
                    );
                },
            }
        },
    }
}

/// Whatever replies the loop is given from its start, it stays well formed.
pub proof fn lemma_run_keeps_wf(
    pid: InferiorType,
    policy: SignalPolicy,
    manager: ManagerView,
    replies: Seq<Reply>,
)
    requires
        is_target(pid),
        manager.wf(),
        manager.events.len() == 0,
    ensures
        LoopView::start(pid, policy, manager).run(replies).wf(),
    decreases replies.len(),
{
    let start = LoopView::start(pid, policy, manager);
    if replies.len() > 0 {
        lemma_run_keeps_wf(pid, policy, manager, replies.drop_last());
        let before = start.run(replies.drop_last());
        if before.accepts(replies.last()) {
            lemma_step_keeps_wf(before, replies.last());
        }
    }
}

/// Once the tracee has ended, by exit or by signal, every entry stop that was
/// seen has its record: the calls seen at both ends, and behind them the one
/// partial record of a call the tracee ended inside, if there is one. Every
/// call seen at both ends has its return value.
pub proof fn lemma_ended_counts(s: LoopView)
    requires
        s.wf(),
        s.outcome matches Some(outcome) && (outcome is Exited || outcome is Signaled),
    ensures
        s.phase is Done,
        s.entry_stops == s.manager.events.len(),
        s.entry_stops == finalized_count(s.manager.events) + if s.manager.events.len() > 0
            && s.manager.events.last().completion is Partial {
            1nat
        } else {
            0nat
        },
        forall|i: int|
            0 <= i < s.manager.events.len() && (#[trigger] s.manager.events[i]).finalized()
                ==> s.manager.events[i].completion is Returned,
        forall|i: int|
            0 <= i < s.manager.events.len() - 1 ==> !((#[trigger] s.manager.events[i]).completion
                is Partial),
{
    if s.manager.events.len() > 0 {
        lemma_count_but_newest(s.manager.events);
    }
}

/// When the tracee has exited on its own and was inside no call as it did,
/// the calls seen at both ends are as many as the entry stops that were
/// seen, and each of them has its return value.
pub proof fn lemma_exit_counts(s: LoopView)
    requires
        s.wf(),
        s.outcome matches Some(Outcome::Exited(_)),
        s.manager.events.len() == 0 || !(s.manager.events.last().completion is Partial),
    ensures
        finalized_count(s.manager.events) == s.entry_stops,
        forall|i: int|
            0 <= i < s.manager.events.len() ==> (#[trigger] s.manager.events[i]).completion
                is Returned,
{
    lemma_ended_counts(s);
}

/// The same of any course of the loop from its start: whatever replies led
/// to the tracee's exit outside a call, the calls seen at both ends are as
/// many as the entry stops seen.
pub proof fn lemma_exit_counts_of_run(
    pid: InferiorType,
    policy: SignalPolicy,
    manager: ManagerView,
    replies: Seq<Reply>,
)
    requires
        is_target(pid),
        manager.wf(),
        manager.events.len() == 0,
        LoopView::start(pid, policy, manager).run(replies).outcome matches Some(
            Outcome::Exited(_),
        ),
        LoopView::start(pid, policy, manager).run(replies).manager.events.len() == 0 || !(
        LoopView::start(pid, policy, manager).run(replies).manager.events.last().completion
            is Partial),
    ensures
        finalized_count(LoopView::start(pid, policy, manager).run(replies).manager.events)
            == LoopView::start(pid, policy, manager).run(replies).entry_stops,
{
    lemma_run_keeps_wf(pid, policy, manager, replies);
    lemma_exit_counts(LoopView::start(pid, policy, manager).run(replies));
}

/// Every recorded call carries exactly as many argument words as its
/// descriptor declares, never more than six, and is described as the catalog
/// describes its number.
pub proof fn lemma_recorded_args_match_arity(s: LoopView, i: int)
    requires
        s.wf(),
        0 <= i < s.manager.events.len(),
    ensures
        s.manager.events[i].args.len() == s.manager.events[i].descriptor.arity(),
        s.manager.events[i].args.len() <= 6,
        s.manager.events[i].descriptor == describe(
            s.manager.table,
            s.manager.events[i].descriptor.number,
        ),
        s.manager.events[i].index == i,
{
    crate::syscalls::lemma_arity_at_most_six(s.manager.events[i].descriptor.call);
}

/// A tracee that ends inside a call leaves that call behind: the open call
/// is put in the record as partial, the newest of the record, and the loop
/// still reports how the tracee ended.
pub proof fn lemma_end_inside_call(s: LoopView, pid: i32, status: i32, errno: i32)
    requires
        s.wf(),
        s.phase is AwaitExitStop,
        s.awaiting is StateChange,
        pid >= 0,
        stop_reason(status) is Exited || stop_reason(status) is Signaled,
    ensures
        s.after_wait(pid, status, errno).1 == Action::Finish,
        stop_reason(status) matches StopReason::Exited(code) ==> s.after_wait(
            pid,
            status,
            errno,
        ).0.outcome == Some(Outcome::Exited(code)),
        stop_reason(status) matches StopReason::Signaled(signal) ==> s.after_wait(
            pid,
            status,
            errno,
        ).0.outcome == Some(Outcome::Signaled(signal)),
        s.open is Some,
        s.after_wait(pid, status, errno).0.open is None,
        s.after_wait(pid, status, errno).0.manager.events.len() == s.manager.events.len() + 1,
        s.after_wait(pid, status, errno).0.manager.events.last() == (SyscallView {
            completion: Completion::Partial,
            ..s.open->0
        }),
{
}

/// The first phase ends at the first change of state it is shown: with the
/// tracee stopped and its options about to be set, or with a failed launch.
/// Only an interrupted wait is waited for again.
pub proof fn lemma_handshake_is_decided(s: LoopView, pid: i32, status: i32, errno: i32)
    requires
        s.wf(),
        s.phase is AwaitHandshake,
        s.awaiting is StateChange,
    ensures
        match s.after_wait(pid, status, errno).1 {
            Action::Wait => pid < 0 && errno == EINTR && s.after_wait(pid, status, errno).0 == s,
            Action::Finish => s.after_wait(pid, status, errno).0.outcome matches Some(
                Outcome::LaunchFailed(_),
            ),
            Action::Execute(command) => command.request == PtraceRequest::SetOptions
                && s.after_wait(pid, status, errno).0.tracee.is_stopped(),
        },
        pid >= 0 && (stop_reason(status) is Exited || stop_reason(status) is Signaled)
            ==> s.after_wait(pid, status, errno).0.outcome matches Some(
            Outcome::LaunchFailed(LaunchError::ImageReplacement { .. }),
        ),
{
}

/// No step loses, reorders or rewrites what is recorded, and none touches the
/// catalog. A step adds at most one call behind the others and leaves the
/// calls already there as they are.
pub proof fn lemma_step_keeps_record(s: LoopView, reply: Reply)
    requires
        s.wf(),
        s.accepts(reply),
    ensures
        s.step(reply).0.manager.table == s.manager.table,
        s.manager.events.len() <= s.step(reply).0.manager.events.len() <= s.manager.events.len()
            + 1,
        forall|i: int|
            0 <= i < s.manager.events.len() ==> s.step(reply).0.manager.events[i]
                == #[trigger] s.manager.events[i],
{
}

/// The order of the phases: the first phase leads to the entry phase, entry
/// and exit take turns, and every phase can end the loop. Nothing follows
/// the end.
pub open spec fn phase_follows(before: Phase, after: Phase) -> bool {
    match before {
        Phase::AwaitHandshake => after is AwaitHandshake || after is AwaitEntryStop || after
            is Done,
        Phase::AwaitEntryStop => after is AwaitEntryStop || after is AwaitExitStop || after
            is Done,
        Phase::AwaitExitStop => after is AwaitExitStop || after is AwaitEntryStop || after
            is Done,
        Phase::Done => after is Done,
    }
}

/// The life of a tracee: from its launch to its first stop, then running and
/// stopped in turn, until it exits or is killed. A tracee that has not
/// stopped for the first time can already end; one that has ended stays so.
pub open spec fn state_follows(before: TraceeState, after: TraceeState) -> bool {
    match before {
        TraceeState::Launching => after is Launching || after == TraceeState::Stopped(
            StopKind::Handshake,
        ) || after is Exited || after is Signaled,
        TraceeState::Stopped(_) => after == before || after is Running,
        TraceeState::Running => after is Running || (after is Stopped && after
            != TraceeState::Stopped(StopKind::Handshake)) || after is Exited || after
            is Signaled,
        TraceeState::Exited(_) => after == before,
        TraceeState::Signaled(_) => after == before,
    }
}

/// Every step follows the order of the phases and the life of the tracee,
/// for the same tracee under the same policy. The tracee is found at the
/// entry of a call only while an entry is awaited, and at the exit of a call
/// only while the exit of the call entered is awaited: the two stops of a
/// call come in turn and no other call comes between them.
pub proof fn lemma_step_follows_order(s: LoopView, reply: Reply)
    requires
        s.wf(),
        s.accepts(reply),
    ensures
        phase_follows(s.phase, s.step(reply).0.phase),
        state_follows(s.tracee.state, s.step(reply).0.tracee.state),
        s.step(reply).0.tracee.pid == s.tracee.pid,
        s.step(reply).0.policy == s.policy,
        s.tracee.state is Running && s.step(reply).0.tracee.state == TraceeState::Stopped(
            StopKind::SyscallEntry,
        ) ==> s.phase is AwaitEntryStop && s.step(reply).0.entry_stops == s.entry_stops + 1,
        s.tracee.state is Running && s.step(reply).0.tracee.state == TraceeState::Stopped(
            StopKind::SyscallExit,
        ) ==> s.phase is AwaitExitStop && s.open is Some,
        s.step(reply).0.entry_stops != s.entry_stops ==> s.tracee.state is Running && s.step(
            reply,
        ).0.tracee.state == TraceeState::Stopped(StopKind::SyscallEntry),
{
}

/// A loop that is over accepts no reply: it has no next step.
pub proof fn lemma_done_is_final(s: LoopView, reply: Reply)
    requires
        s.wf(),
        s.phase is Done,
    ensures
        !s.accepts(reply),
{
}

/// The record holds no pending call, at any time: a call is put in the record
/// with its return value, or as partial once the tracee has ended inside it.
pub proof fn lemma_record_holds_no_pending(s: LoopView, i: int)
    requires
        s.wf(),
        0 <= i < s.manager.events.len(),
    ensures
        !(s.manager.events[i].completion is Pending),
        s.manager.events[i].completion is Partial ==> i == s.manager.events.len() - 1
            && s.tracee.has_ended(),
{
    if i < s.manager.events.len() - 1 {
        assert(s.manager.events[i].finalized());
    }
}

/// The step that ends the reading of an entry stop opens the call and leaves
/// the record as it is: the call carries the number and the words that were
/// read, is described as the catalog describes its number, has no return
/// value, and is not among the recorded calls.
pub proof fn lemma_entry_opens_call(s: LoopView, reply: Reply)
    requires
        s.wf(),
        s.accepts(reply),
        s.phase is AwaitEntryStop,
        s.step(reply).0.phase is AwaitExitStop,
    ensures
        s.step(reply).0.manager == s.manager,
        s.open is None,
        s.step(reply).0.open matches Some(call) && call.completion is Pending && call.index
            == s.manager.events.len() && call.descriptor == describe(
            s.manager.table,
            call.descriptor.number,
        ) && call.args.len() == call.descriptor.arity(),
{
    lemma_step_keeps_wf(s, reply);
}

/// The step that reads the return value at an exit stop puts the open call
/// in the record, once, with that value, and leaves no call open.
pub proof fn lemma_exit_records_call(s: LoopView, reply: Reply)
    requires
        s.wf(),
        s.accepts(reply),
        s.phase is AwaitExitStop,
        s.step(reply).0.phase is AwaitEntryStop,
    ensures
        s.open is Some,
        s.step(reply).0.open is None,
        s.step(reply).0.manager.events.len() == s.manager.events.len() + 1,
        s.step(reply).0.manager.events.last().completion is Returned,
        s.step(reply).0.manager.events.last() == (SyscallView {
            completion: s.step(reply).0.manager.events.last().completion,
            ..s.open->0
        }),
{
}

/// A step that ends the loop by a failure leaves the record as it was, and
/// the open call, if there is one, open.
pub proof fn lemma_failure_leaves_record(s: LoopView, reply: Reply)
    requires
        s.wf(),
        s.accepts(reply),
        s.step(reply).0.outcome matches Some(Outcome::Failed(_)),
    ensures
        s.step(reply).0.manager == s.manager,
        s.step(reply).0.open == s.open,
{
}

} // verus!
