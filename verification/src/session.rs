//! A session: one command, brought under supervision, traced to its end, and
//! reported on. The session holds what was asked for and owns the one tracee
//! of its lifetime.

use crate::launch::{
    child_plan, inferior_exec, launch_step, ForkOutcome, LaunchError, LaunchStep, Termination,
    MAX_FORK_TRIES,
};
use crate::output::{
    record_views, records_of, rendered_trace, report, session_result, OutputMode, Report,
    SessionError,
};
use crate::ptrace::{is_target, traceme, Command, PtraceRequest};
use crate::syscall::{views, ManagerView, Syscall, SyscallManager, SyscallView};
use crate::text::texts;
use crate::tracer::{Action, LoopView, Outcome, Reply, SignalPolicy, TraceLoop};
use vstd::prelude::*;

verus! {

/// What whoever runs the session has to do next.
#[derive(Clone, Copy, Debug, PartialEq, Eq, Structural)]
pub enum SessionAction {
    /// Create the new process, and say how that went.
    Fork,
    /// In the new process: issue this request, and become the program unless
    /// the request is rejected.
    BecomeProgram(Command),
    /// In the supervisor: perform this action of the trace loop, and hand
    /// back what the kernel answered.
    Trace(Action),
    /// Nothing more: the session is over.
    Done,
}

/// The program of a command: its first word.
pub open spec fn program(argv: Seq<Seq<char>>) -> Seq<char> {
    if argv.len() > 0 {
        argv[0]
    } else {
        Seq::<char>::empty()
    }
}

/// How far a session has come.
enum Stage {
    /// No process has been created yet.
    Ready(SyscallManager),
    /// This is the new process; it is about to become the program.
    Child,
    /// The tracee is under the trace loop.
    Tracing(TraceLoop),
    /// No process could be created.
    Failed(LaunchError, SyscallManager),
}

/// The stage of a session as a mathematical value.
pub enum StageView {
    Ready(ManagerView),
    Child,
    Tracing(LoopView),
    Failed(LaunchError, ManagerView),
}

impl View for Stage {
    type V = StageView;

    closed spec fn view(&self) -> StageView {
        match self {
            Stage::Ready(manager) => StageView::Ready(manager@),
            Stage::Child => StageView::Child,
            Stage::Tracing(tracer) => StageView::Tracing(tracer@),
            Stage::Failed(error, manager) => StageView::Failed(*error, manager@),
        }
    }
}

/// A session as a mathematical value.
pub struct SessionView {
    /// The command: the program and its arguments.
    pub argv: Seq<Seq<char>>,
    pub mode: OutputMode,
    pub policy: SignalPolicy,
    /// How many tries to create the process have failed.
    pub failed_forks: u32,
    pub stage: StageView,
}

impl SessionView {
    /// What holds of a session at all times: its command can be handed to
    /// the platform, its record is well formed and empty until the tracing
    /// has begun, and while no process is created it has tries left to
    /// create one.
    pub open spec fn wf(self) -> bool {
        &&& child_plan(
            program(self.argv),
            self.argv,
            Ok(Command { request: PtraceRequest::TraceMe, pid: 0, addr: 0, data: 0 }),
        )
        &&& match self.stage {
            StageView::Ready(manager) => manager.wf() && manager.events.len() == 0
                && self.failed_forks < MAX_FORK_TRIES,
            StageView::Child => true,
            StageView::Tracing(tracer) => tracer.wf() && tracer.policy == self.policy,
            StageView::Failed(_, manager) => manager.wf() && manager.events.len() == 0,
        }
    }

    /// The recorded calls.
    pub open spec fn events(self) -> Seq<SyscallView> {
        match self.stage {
            StageView::Ready(manager) => manager.events,
            StageView::Child => Seq::<SyscallView>::empty(),
            StageView::Tracing(tracer) => tracer.manager.events,
            StageView::Failed(_, manager) => manager.events,
        }
    }

    /// How the session ended, once it has.
    pub open spec fn outcome(self) -> Option<Outcome> {
        match self.stage {
            StageView::Tracing(tracer) => tracer.outcome,
            StageView::Failed(error, _) => Some(Outcome::LaunchFailed(error)),
            _ => None,
        }
    }

    /// The session and the next action after the creation of the new process
    /// went as `outcome` says.
    pub open spec fn after_fork(self, outcome: ForkOutcome) -> (SessionView, SessionAction) {
        match self.stage {
            StageView::Ready(manager) => match launch_step(outcome, self.failed_forks) {
                LaunchStep::RunChild => (
                    SessionView { stage: StageView::Child, ..self },
                    SessionAction::BecomeProgram(
                        Command { request: PtraceRequest::TraceMe, pid: 0, addr: 0, data: 0 },
                    ),
                ),
                LaunchStep::Attach(pid) => (
                    SessionView {
                        stage: StageView::Tracing(LoopView::start(pid, self.policy, manager)),
                        ..self
                    },
                    SessionAction::Trace(Action::Wait),
                ),
                LaunchStep::Retry => (
                    SessionView { failed_forks: (self.failed_forks + 1) as u32, ..self },
                    SessionAction::Fork,
                ),
                LaunchStep::Fail(error) => (
                    SessionView { stage: StageView::Failed(error, manager), ..self },
                    SessionAction::Done,
                ),
            },
            _ => (self, SessionAction::Done),
        }
    }

    /// The session accepts `reply`: it is tracing, and its loop is owed this
    /// kind of answer.
    pub open spec fn accepts(self, reply: Reply) -> bool {
        self.stage matches StageView::Tracing(tracer) && tracer.accepts(reply)
    }

    /// The session and the next action after the kernel answered `reply`.
    pub open spec fn after_reply(self, reply: Reply) -> (SessionView, SessionAction) {
        match self.stage {
            StageView::Tracing(tracer) => (
                SessionView { stage: StageView::Tracing(tracer.step(reply).0), ..self },
                match tracer.step(reply).1 {
                    Action::Finish => SessionAction::Done,
                    action => SessionAction::Trace(action),
                },
            ),
            _ => (self, SessionAction::Done),
        }
    }
}

/// One command and its trace.
pub struct TraceSession {
    argv: Vec<String>,
    mode: OutputMode,
    policy: SignalPolicy,
    failed_forks: u32,
    stage: Stage,
}

impl View for TraceSession {
    type V = SessionView;

    closed spec fn view(&self) -> SessionView {
        SessionView {
            argv: texts(self.argv@),
            mode: self.mode,
            policy: self.policy,
            failed_forks: self.failed_forks,
            stage: self.stage@,
        }
    }
}

impl TraceSession {
    /// See [`SessionView::wf`].
    pub open spec fn wf(&self) -> bool {
        self@.wf()
    }

    /// A session for the command `argv`, the program first and then its
    /// arguments, with the catalog of `manager` and an empty record. There is
    /// none for a command that cannot be handed to the platform: an empty
    /// one, or one with a NUL character in it. The first thing to do for a
    /// session is to create the new process.
    pub fn new(
        argv: Vec<String>,
        mode: OutputMode,
        policy: SignalPolicy,
        manager: SyscallManager,
    ) -> (r: Result<TraceSession, LaunchError>)
        requires
            manager.wf(),
            manager@.events.len() == 0,
        ensures
            match r {
                Ok(session) => {
                    &&& session@ == (SessionView {
                        argv: texts(argv@),
                        mode,
                        policy,
                        failed_forks: 0,
                        stage: StageView::Ready(manager@),
                    })
                    &&& session.wf()
                },
                Err(error) => child_plan(
                    program(texts(argv@)),
                    texts(argv@),
                    Err::<Command, LaunchError>(error),
                ),
            },
    {
        if argv.len() == 0 {
            return Err(LaunchError::EmptyCommand);
        }
        match inferior_exec(argv[0].as_str(), &argv) {
            Ok(_) => Ok(
                TraceSession { argv, mode, policy, failed_forks: 0, stage: Stage::Ready(manager) },
            ),
            Err(error) => Err(error),
        }
    }

    /// Whether no process has been created yet for the session.
    pub fn awaits_fork(&self) -> (b: bool)
        ensures
            b == (self@.stage is Ready),
    {
        match &self.stage {
            Stage::Ready(_) => true,
            _ => false,
        }
    }

    /// The command of the session.
    pub fn argv(&self) -> (argv: &Vec<String>)
        ensures
            texts(argv@) == self@.argv,
    {
        &self.argv
    }

    /// Takes in how the creation of the new process went, and says what to do
    /// next: in the new process, to ask to be traced and become the program;
    /// in the supervisor, to wait for the new process; to try again after a
    /// temporary lack of resources; to stop after any other failure.
    pub fn forked(&mut self, outcome: ForkOutcome) -> (action: SessionAction)
        requires
            old(self).wf(),
            old(self)@.stage is Ready,
            outcome matches ForkOutcome::Parent(pid) ==> is_target(pid),
        ensures
            (final(self)@, action) == old(self)@.after_fork(outcome),
            final(self).wf(),
    {
        let mut stage = Stage::Child;
        std::mem::swap(&mut stage, &mut self.stage);
        match stage {
            Stage::Ready(manager) => match crate::launch::exec(outcome, self.failed_forks) {
                LaunchStep::RunChild => SessionAction::BecomeProgram(traceme()),
                LaunchStep::Attach(pid) => {
                    let (tracer, first) = TraceLoop::new(pid, self.policy, manager);
                    self.stage = Stage::Tracing(tracer);
                    SessionAction::Trace(first)
                },
                LaunchStep::Retry => {
                    self.failed_forks = self.failed_forks + 1;
                    self.stage = Stage::Ready(manager);
                    SessionAction::Fork
                },
                LaunchStep::Fail(error) => {
                    self.stage = Stage::Failed(error, manager);
                    SessionAction::Done
                },
            },
            other => {
                self.stage = other;
                SessionAction::Done
            },
        }
    }

    /// Whether the session is tracing and owed this kind of answer.
    pub fn accepts(&self, reply: &Reply) -> (b: bool)
        ensures
            b == self@.accepts(*reply),
    {
        match &self.stage {
            Stage::Tracing(tracer) => tracer.accepts(reply),
            _ => false,
        }
    }

    /// Takes in what the kernel answered, and says what to do next.
    pub fn step(&mut self, reply: Reply) -> (action: SessionAction)
        requires
            old(self).wf(),
            old(self)@.accepts(reply),
        ensures
            (final(self)@, action) == old(self)@.after_reply(reply),
            final(self).wf(),
    {
        let mut stage = Stage::Child;
        std::mem::swap(&mut stage, &mut self.stage);
        match stage {
            Stage::Tracing(mut tracer) => {
                let action = tracer.step(reply);
                proof {
                    crate::tracer::lemma_step_follows_order(old(self)@.stage->Tracing_0, reply);
                }
                self.stage = Stage::Tracing(tracer);
                match action {
                    Action::Finish => SessionAction::Done,
                    _ => SessionAction::Trace(action),
                }
            },
            other => {
                self.stage = other;
                SessionAction::Done
            },
        }
    }

    /// How the session ended, once it has.
    pub fn outcome(&self) -> (o: Option<Outcome>)
        ensures
            o == self@.outcome(),
    {
        match &self.stage {
            Stage::Tracing(tracer) => tracer.outcome(),
            Stage::Failed(error, _) => Some(Outcome::LaunchFailed(*error)),
            _ => None,
        }
    }

    /// What the session came to, once it has ended: how its tracee ended, or
    /// why the session failed.
    pub fn result(&self) -> (r: Option<Result<Termination, SessionError>>)
        ensures
            r == match self@.outcome() {
                Some(outcome) => Some(session_result(outcome)),
                None => None,
            },
    {
        match self.outcome() {
            Some(outcome) => Some(outcome.result()),
            None => None,
        }
    }

    /// The trace loop, while there is one.
    pub fn tracer(&self) -> (t: Option<&TraceLoop>)
        ensures
            match t {
                Some(tracer) => self@.stage == StageView::Tracing(tracer@),
                None => !(self@.stage is Tracing),
            },
    {
        match &self.stage {
            Stage::Tracing(tracer) => Some(tracer),
            _ => None,
        }
    }

    /// The recorded calls in the form the session was asked for.
    pub fn report(&self) -> (r: Report)
        ensures
            match r {
                Report::Structured(list) => self@.mode == OutputMode::Structured && record_views(
                    list@,
                ) == records_of(self@.events()),
                Report::PlainText(text) => self@.mode == OutputMode::PlainText && text@
                    == rendered_trace(self@.events()),
            },
    {
        match &self.stage {
            Stage::Ready(manager) => report(self.mode, manager.snapshot()),
            Stage::Tracing(tracer) => report(self.mode, tracer.snapshot()),
            Stage::Failed(_, manager) => report(self.mode, manager.snapshot()),
            Stage::Child => {
                let none: Vec<Syscall> = Vec::new();
                report(self.mode, &none)
            },
        }
    }
}

/// A session says that it is over only once it has an outcome: its tracee
/// ended, or the launch or the loop failed.
pub proof fn lemma_done_has_outcome(s: SessionView, reply: Reply)
    requires
        s.wf(),
        s.accepts(reply),
        s.after_reply(reply).1 is Done,
    ensures
        s.after_reply(reply).0.outcome() is Some,
{
    crate::tracer::lemma_step_keeps_wf(s.stage->Tracing_0, reply);
}

/// After the creation of the process, a session is over only where no
/// process could be created, for another reason than a temporary lack of
/// resources or because the tries are used up, and its outcome says so. A
/// session that is to try again has one try less left.
pub proof fn lemma_fork_decides(s: SessionView, outcome: ForkOutcome)
    requires
        s.wf(),
        s.stage is Ready,
    ensures
        s.after_fork(outcome).1 is Done <==> (outcome matches ForkOutcome::Failed(errno) && (errno
            != crate::ptrace::EAGAIN || s.failed_forks + 1 >= MAX_FORK_TRIES)),
        s.after_fork(outcome).1 is Done ==> s.after_fork(outcome).0.outcome() == Some(
            Outcome::LaunchFailed(LaunchError::ProcessCreation { errno: outcome->Failed_0 }),
        ),
        s.after_fork(outcome).1 is Fork ==> s.after_fork(outcome).0 == (SessionView {
            failed_forks: (s.failed_forks + 1) as u32,
            ..s
        }) && s.failed_forks + 1 < MAX_FORK_TRIES,
        s.after_fork(outcome).1 is Fork <==> s.after_fork(outcome).0.stage is Ready,
{
}

/// The session after each of `outcomes` of creating the process in turn, for
/// as long as it has no process.
pub open spec fn after_forks(s: SessionView, outcomes: Seq<ForkOutcome>) -> SessionView
    decreases outcomes.len(),
{
    if outcomes.len() == 0 {
        s
    } else {
        let before = after_forks(s, outcomes.drop_last());
        if before.stage is Ready {
            before.after_fork(outcomes.last()).0
        } else {
            before
        }
    }
}

/// Each try that leaves the session without a process is counted.
pub proof fn lemma_failed_forks_are_counted(s: SessionView, outcomes: Seq<ForkOutcome>)
    requires
        s.wf(),
        s.stage is Ready,
        forall|i: int|
            0 <= i < outcomes.len() ==> ((#[trigger] outcomes[i]) matches ForkOutcome::Parent(pid)
                ==> is_target(pid)),
    ensures
        after_forks(s, outcomes).wf(),
        after_forks(s, outcomes).stage is Ready ==> after_forks(s, outcomes).failed_forks
            == s.failed_forks + outcomes.len(),
    decreases outcomes.len(),
{
    if outcomes.len() > 0 {
        let rest = outcomes.drop_last();
        assert forall|i: int| 0 <= i < rest.len() implies ((
        #[trigger] rest[i]) matches ForkOutcome::Parent(pid) ==> is_target(pid)) by {
            assert(rest[i] == outcomes[i]);
        }
        lemma_failed_forks_are_counted(s, rest);
        assert(outcomes.last() == outcomes[outcomes.len() - 1]);
    }
}

/// A launch is over after a bounded number of tries: once the creation of
/// the process has been tried as often as is allowed, whatever came of the
/// tries, the session has a process or has failed.
pub proof fn lemma_launch_is_bounded(s: SessionView, outcomes: Seq<ForkOutcome>)
    requires
        s.wf(),
        s.stage is Ready,
        s.failed_forks == 0,
        outcomes.len() >= MAX_FORK_TRIES,
        forall|i: int|
            0 <= i < outcomes.len() ==> ((#[trigger] outcomes[i]) matches ForkOutcome::Parent(pid)
                ==> is_target(pid)),
    ensures
        !(after_forks(s, outcomes).stage is Ready),
{
    lemma_failed_forks_are_counted(s, outcomes);
}

} // verus!
