//! What a finished session hands out: the calls as plain records, the calls
//! as lines of text, the status to leave with, and the words for a failure.

use crate::launch::{LaunchError, Termination};
use crate::syscall::{copy_words, views, Completion, Syscall, SyscallView};
use crate::text::{decimal, push_decimal, push_signed_decimal, signed_decimal};
use crate::tracer::{Operation, Outcome, Phase, TraceError};
use vstd::prelude::*;

verus! {

/// A recorded call in its structured form: the number, the name and the
/// argument words of the call, nothing else.
pub struct Record {
    pub number: u64,
    pub name: String,
    pub args: Vec<u64>,
}

/// A record as a mathematical value.
pub struct RecordView {
    pub number: u64,
    pub name: Seq<char>,
    pub args: Seq<u64>,
}

impl View for Record {
    type V = RecordView;

    open spec fn view(&self) -> RecordView {
        RecordView { number: self.number, name: self.name@, args: self.args@ }
    }
}

/// The structured form of a call.
pub open spec fn record_of(call: SyscallView) -> RecordView {
    RecordView { number: call.descriptor.number, name: call.descriptor.name, args: call.args }
}

/// The structured form of a list of calls: one record for each call, in the
/// order of the calls.
pub open spec fn records_of(events: Seq<SyscallView>) -> Seq<RecordView> {
    Seq::new(events.len(), |i: int| record_of(events[i]))
}

/// A list of records as mathematical values.
pub open spec fn record_views(records: Seq<Record>) -> Seq<RecordView> {
    Seq::new(records.len(), |i: int| records[i]@)
}

impl Record {
    /// The structured form of `call`.
    pub fn from_call(call: &Syscall) -> (record: Record)
        ensures
            record@ == record_of(call@),
    {
        Record {
            number: call.number(),
            name: String::from_str(call.name()),
            args: copy_words(call.args()),
        }
    }
}

/// The structured form of the recorded calls.
pub fn records(events: &Vec<Syscall>) -> (list: Vec<Record>)
    ensures
        record_views(list@) == records_of(views(events@)),
{
    let mut list: Vec<Record> = Vec::new();
    let mut i: usize = 0;
    while i < events.len()
        invariant
            0 <= i <= events@.len(),
            list@.len() == i,
            record_views(list@) == records_of(views(events@)).take(i as int),
        decreases events@.len() - i,
    {
        let record = Record::from_call(&events[i]);
        list.push(record);
        i = i + 1;
    }
    list
}

/// The structured form keeps the calls one for one and in order, and of each
/// call its number, its name and its argument words, which are as many as
/// the call declares.
pub proof fn lemma_records_keep_calls(events: Seq<SyscallView>, i: int)
    requires
        0 <= i < events.len(),
    ensures
        records_of(events).len() == events.len(),
        records_of(events)[i].number == events[i].descriptor.number,
        records_of(events)[i].name == events[i].descriptor.name,
        records_of(events)[i].args == events[i].args,
        events[i].wf() ==> records_of(events)[i].args.len() == events[i].descriptor.arity(),
{
}

/// In which form a session hands out its record.
#[derive(Clone, Copy, Debug, PartialEq, Eq, Structural)]
pub enum OutputMode {
    /// As a list of records.
    Structured,
    /// As lines of text.
    PlainText,
}

/// The record of a session in the form that was asked for.
pub enum Report {
    Structured(Vec<Record>),
    PlainText(String),
}

/// The record in the form `mode` asks for.
pub fn report(mode: OutputMode, events: &Vec<Syscall>) -> (r: Report)
    ensures
        match r {
            Report::Structured(list) => mode == OutputMode::Structured && record_views(list@)
                == records_of(views(events@)),
            Report::PlainText(text) => mode == OutputMode::PlainText && text@
                == rendered_trace(views(events@)),
        },
{
    match mode {
        OutputMode::Structured => Report::Structured(records(events)),
        OutputMode::PlainText => Report::PlainText(render_trace(events)),
    }
}

/// Argument words in decimal, with a comma and a space between each two.
pub open spec fn joined_args(args: Seq<u64>) -> Seq<char>
    decreases args.len(),
{
    if args.len() == 0 {
        Seq::<char>::empty()
    } else if args.len() == 1 {
        decimal(args[0] as nat)
    } else {
        joined_args(args.drop_last()) + ", "@ + decimal(args.last() as nat)
    }
}

/// What stands for the return value of a call: the value in decimal, or a
/// question mark where the tracee did not come back from the call.
pub open spec fn return_text(completion: Completion) -> Seq<char> {
    match completion {
        Completion::Returned(value) => signed_decimal(value as int),
        _ => "?"@,
    }
}

/// The line of a call: `name(arg0, arg1, ...) = return_value`.
pub open spec fn rendered(call: SyscallView) -> Seq<char> {
    call.descriptor.name + "("@ + joined_args(call.args) + ") = "@ + return_text(
        call.completion,
    )
}

/// The lines of a list of calls, each ended by a line feed.
pub open spec fn rendered_trace(events: Seq<SyscallView>) -> Seq<char>
    decreases events.len(),
{
    if events.len() == 0 {
        Seq::<char>::empty()
    } else {
        rendered_trace(events.drop_last()) + rendered(events.last()) + "\n"@
    }
}

/// Appends argument words in decimal, with a comma and a space between each
/// two.
fn push_args(out: &mut String, args: &Vec<u64>)
    ensures
        final(out)@ == old(out)@ + joined_args(args@),
{
    let mut i: usize = 0;
    while i < args.len()
        invariant
            0 <= i <= args@.len(),
            out@ == old(out)@ + joined_args(args@.take(i as int)),
        decreases args@.len() - i,
    {
        assert(args@.take(i + 1).drop_last() =~= args@.take(i as int));
        if i > 0 {
            out.append(", ");
        }
        push_decimal(out, args[i]);
        i = i + 1;
    }
    assert(args@.take(i as int) =~= args@);
}

/// Appends the line of a call, without a line feed.
fn push_call(out: &mut String, call: &Syscall)
    ensures
        final(out)@ == old(out)@ + rendered(call@),
{
    out.append(call.name());
    out.append("(");
    push_args(out, call.args());
    out.append(") = ");
    match call.completion() {
        Completion::Returned(value) => {
            push_signed_decimal(out, value);
        },
        _ => {
            out.append("?");
        },
    }
}

/// The line of a call: `name(arg0, arg1, ...) = return_value`, with a
/// question mark for the return value of a call the tracee did not come back
/// from.
pub fn render(call: &Syscall) -> (line: String)
    ensures
        line@ == rendered(call@),
{
    let mut line = String::new();
    push_call(&mut line, call);
    line
}

/// The lines of the recorded calls, oldest first, each ended by a line feed.
pub fn render_trace(events: &Vec<Syscall>) -> (text: String)
    ensures
        text@ == rendered_trace(views(events@)),
{
    let mut text = String::new();
    let mut i: usize = 0;
    let ghost all = views(events@);
    while i < events.len()
        invariant
            0 <= i <= events@.len(),
            all == views(events@),
            text@ == rendered_trace(all.take(i as int)),
        decreases events@.len() - i,
    {
        assert(all.take(i + 1).drop_last() =~= all.take(i as int));
        push_call(&mut text, &events[i]);
        text.append("\n");
        i = i + 1;
    }
    assert(all.take(i as int) =~= all);
    text
}

/// The status with which a session leaves when its tracee ended as
/// `termination` says: the tracee's own exit code, or, for a tracee killed
/// by a signal from 1 to 126, 128 more than the signal. A signal out of that
/// range gives 255.
pub open spec fn exit_status(termination: Termination) -> i32 {
    match termination {
        Termination::Exited(code) => code,
        Termination::Signaled(signal) => if 1 <= signal <= 126 {
            (128 + signal) as i32
        } else {
            255
        },
    }
}

/// Why a session failed.
#[derive(Clone, Copy, Debug, PartialEq, Eq, Structural)]
pub enum SessionError {
    /// The program never came under supervision.
    Launch(LaunchError),
    /// The platform rejected what the loop needed.
    Trace(TraceError),
}

/// The message for a failed session.
pub open spec fn session_failure_text(error: SessionError) -> Seq<char> {
    match error {
        SessionError::Launch(error) => launch_failure_text(error),
        SessionError::Trace(error) => failure_text(error),
    }
}

impl SessionError {
    /// The message for the failure.
    pub fn message(&self) -> (text: String)
        ensures
            text@ == session_failure_text(*self),
    {
        match self {
            SessionError::Launch(error) => error.message(),
            SessionError::Trace(error) => error.message(),
        }
    }
}

/// What a session came to: how its tracee ended, or why the session failed.
pub open spec fn session_result(outcome: Outcome) -> Result<Termination, SessionError> {
    match outcome {
        Outcome::Exited(code) => Ok(Termination::Exited(code)),
        Outcome::Signaled(signal) => Ok(Termination::Signaled(signal)),
        Outcome::LaunchFailed(error) => Err(SessionError::Launch(error)),
        Outcome::Failed(error) => Err(SessionError::Trace(error)),
    }
}

impl Termination {
    /// The status with which the session leaves.
    pub fn status(self) -> (code: i32)
        ensures
            code == exit_status(self),
    {
        match self {
            Termination::Exited(code) => code,
            Termination::Signaled(signal) => if 1 <= signal && signal <= 126 {
                128 + signal
            } else {
                255
            },
        }
    }
}

impl Outcome {
    /// What the session came to. Only a failed launch and a rejected request
    /// or wait are failures; a tracee that ended, however it did, is none.
    pub fn result(self) -> (r: Result<Termination, SessionError>)
        ensures
            r == session_result(self),
    {
        match self {
            Outcome::Exited(code) => Ok(Termination::Exited(code)),
            Outcome::Signaled(signal) => Ok(Termination::Signaled(signal)),
            Outcome::LaunchFailed(error) => Err(SessionError::Launch(error)),
            Outcome::Failed(error) => Err(SessionError::Trace(error)),
        }
    }
}

/// The words for an operation.
pub open spec fn operation_text(operation: Operation) -> Seq<char> {
    match operation {
        Operation::Wait => "wait"@,
        Operation::Control(request) => "ptrace request "@ + signed_decimal(
            request.spec_code() as int,
        ),
    }
}

/// The words for a phase.
pub open spec fn phase_text(phase: Phase) -> Seq<char> {
    match phase {
        Phase::AwaitHandshake => "awaiting the first stop"@,
        Phase::AwaitEntryStop => "awaiting a system-call entry"@,
        Phase::AwaitExitStop => "awaiting a system-call exit"@,
        Phase::Done => "after the end of the loop"@,
    }
}

/// The message for a failure of the loop. It names the operation that
/// failed, the process, the platform's error code and the phase.
pub open spec fn failure_text(error: TraceError) -> Seq<char> {
    operation_text(error.operation) + " for process "@ + signed_decimal(error.pid as int)
        + " failed with error "@ + signed_decimal(error.errno as int) + " while "@ + phase_text(
        error.phase,
    )
}

impl TraceError {
    /// The message for the failure.
    pub fn message(&self) -> (text: String)
        ensures
            text@ == failure_text(*self),
    {
        let mut text = String::new();
        match self.operation {
            Operation::Wait => {
                text.append("wait");
            },
            Operation::Control(request) => {
                text.append("ptrace request ");
                push_signed_decimal(&mut text, request.code() as i64);
            },
        }
        text.append(" for process ");
        push_signed_decimal(&mut text, self.pid as i64);
        text.append(" failed with error ");
        push_signed_decimal(&mut text, self.errno as i64);
        text.append(" while ");
        text.append(
            match self.phase {
                Phase::AwaitHandshake => "awaiting the first stop",
                Phase::AwaitEntryStop => "awaiting a system-call entry",
                Phase::AwaitExitStop => "awaiting a system-call exit",
                Phase::Done => "after the end of the loop",
            },
        );
        text
    }
}

/// The words for how a tracee ended.
pub open spec fn termination_text(termination: Termination) -> Seq<char> {
    match termination {
        Termination::Exited(code) => "exited with code "@ + signed_decimal(code as int),
        Termination::Signaled(signal) => "killed by signal "@ + signed_decimal(signal as int),
    }
}

/// The message for a failed launch.
pub open spec fn launch_failure_text(error: LaunchError) -> Seq<char> {
    match error {
        LaunchError::EmptyCommand => "no program to run"@,
        LaunchError::InvalidPath => "the path of the program holds a NUL character"@,
        LaunchError::InvalidArgument { index } => "a NUL character in argument "@ + decimal(
            index as nat,
        ),
        LaunchError::ProcessCreation { errno } => "no process could be created: error "@
            + signed_decimal(errno as int),
        LaunchError::TraceMe { error } => "the request to be traced was rejected: error "@
            + signed_decimal(error.errno as int),
        LaunchError::ImageReplacement { termination } => "the program could not be started: it "@
            + termination_text(termination),
        LaunchError::HandshakeWait { errno } => "waiting for the first stop failed with error "@
            + signed_decimal(errno as int),
        LaunchError::UnexpectedStop { status } => "unexpected first stop with status "@
            + signed_decimal(status as int),
        LaunchError::Options { error } => "the tracing options could not be set for process "@
            + signed_decimal(error.pid as int) + ": error "@ + signed_decimal(
            error.errno as int,
        ),
    }
}

impl LaunchError {
    /// The message for the failure.
    pub fn message(&self) -> (text: String)
        ensures
            text@ == launch_failure_text(*self),
    {
        let mut text = String::new();
        match *self {
            LaunchError::EmptyCommand => {
                text.append("no program to run");
            },
            LaunchError::InvalidPath => {
                text.append("the path of the program holds a NUL character");
            },
            LaunchError::InvalidArgument { index } => {
                text.append("a NUL character in argument ");
                push_decimal(&mut text, index as u64);
            },
            LaunchError::ProcessCreation { errno } => {
                text.append("no process could be created: error ");
                push_signed_decimal(&mut text, errno as i64);
            },
            LaunchError::TraceMe { error } => {
                text.append("the request to be traced was rejected: error ");
                push_signed_decimal(&mut text, error.errno as i64);
            },
            LaunchError::ImageReplacement { termination } => {
                text.append("the program could not be started: it ");
                match termination {
                    Termination::Exited(code) => {
                        text.append("exited with code ");
                        push_signed_decimal(&mut text, code as i64);
                    },
                    Termination::Signaled(signal) => {
                        text.append("killed by signal ");
                        push_signed_decimal(&mut text, signal as i64);
                    },
                }
            },
            LaunchError::HandshakeWait { errno } => {
                text.append("waiting for the first stop failed with error ");
                push_signed_decimal(&mut text, errno as i64);
            },
            LaunchError::UnexpectedStop { status } => {
                text.append("unexpected first stop with status ");
                push_signed_decimal(&mut text, status as i64);
            },
            LaunchError::Options { error } => {
                text.append("the tracing options could not be set for process ");
                push_signed_decimal(&mut text, error.pid as i64);
                text.append(": error ");
                push_signed_decimal(&mut text, error.errno as i64);
            },
        }
        text
    }
}

} // verus!
