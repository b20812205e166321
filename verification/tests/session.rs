use jtrace::launch::{LaunchError, StopKind, Termination, Tracee, TraceeState};
use jtrace::ptrace::{Command, PtraceRequest};
use jtrace::syscall::{Completion, SyscallManager};
use jtrace::tracer::{
    Action, Awaiting, Cancellation, Operation, Outcome, Phase, Purpose, Reply, SignalPolicy,
    TraceError, TraceLoop,
};

const TABLE: &str =
    "#define __NR_read 0\n#define __NR_write 1\n#define __NR_close 3\n#define __NR_exit_group 231\n";

const PID: i32 = 4321;
const TRAP_STOP: i32 = (5 << 8) | 0x7f;
const SYSCALL_STOP: i32 = (0x85 << 8) | 0x7f;

fn answer(ret: i64) -> Reply {
    Reply::Answer { ret, errno: 0 }
}

fn change(status: i32) -> Reply {
    Reply::StateChange { pid: PID, status, errno: 0 }
}

fn peek(addr: u64) -> Action {
    Action::Execute(Command { request: PtraceRequest::PeekUser, pid: PID, addr, data: 0 })
}

fn resume(signal: u64) -> Action {
    Action::Execute(Command { request: PtraceRequest::Syscall, pid: PID, addr: 0, data: signal })
}

fn give(tracer: &mut TraceLoop, reply: Reply) -> Action {
    assert!(tracer.accepts(&reply));
    tracer.step(reply)
}

/// A loop that is past the handshake, with the tracee running.
fn running(policy: SignalPolicy) -> TraceLoop {
    let manager = SyscallManager::build(TABLE).unwrap();
    let (mut tracer, first) = TraceLoop::new(PID, policy, manager);
    assert_eq!(first, Action::Wait);
    assert_eq!(tracer.phase(), Phase::AwaitHandshake);
    assert_eq!(tracer.tracee(), Tracee { pid: PID, state: TraceeState::Launching });
    assert_eq!(
        give(&mut tracer, change(TRAP_STOP)),
        Action::Execute(Command {
            request: PtraceRequest::SetOptions,
            pid: PID,
            addr: 0,
            data: 1
        })
    );
    assert_eq!(tracer.tracee().state, TraceeState::Stopped(StopKind::Handshake));
    assert_eq!(give(&mut tracer, answer(0)), resume(0));
    assert_eq!(tracer.phase(), Phase::AwaitEntryStop);
    assert_eq!(give(&mut tracer, answer(0)), Action::Wait);
    assert_eq!(tracer.tracee().state, TraceeState::Running);
    tracer
}

/// Takes the loop through the entry of a call with the given registers.
fn enter(tracer: &mut TraceLoop, number: i64, words: &[i64]) {
    assert_eq!(give(tracer, change(SYSCALL_STOP)), peek(120));
    assert_eq!(tracer.tracee().state, TraceeState::Stopped(StopKind::SyscallEntry));
    let offsets: [u64; 6] = [112, 104, 96, 56, 72, 64];
    let mut action = give(tracer, answer(number));
    let mut i = 0;
    while i < words.len() {
        assert_eq!(action, peek(offsets[i]));
        assert_eq!(tracer.awaiting(), Awaiting::Answer(Purpose::Argument(i as u8)));
        assert_eq!(tracer.phase(), Phase::AwaitEntryStop);
        action = give(tracer, answer(words[i]));
        i += 1;
    }
    assert_eq!(action, resume(0));
    assert_eq!(tracer.phase(), Phase::AwaitExitStop);
    assert_eq!(give(tracer, answer(0)), Action::Wait);
    assert!(tracer.open_call().is_some());
}

/// Takes the loop through the exit of the call that was entered.
fn leave(tracer: &mut TraceLoop, ret: i64) {
    assert_eq!(give(tracer, change(SYSCALL_STOP)), peek(80));
    assert_eq!(tracer.tracee().state, TraceeState::Stopped(StopKind::SyscallExit));
    assert_eq!(give(tracer, answer(ret)), resume(0));
    assert_eq!(tracer.phase(), Phase::AwaitEntryStop);
    assert!(tracer.open_call().is_none());
    assert_eq!(give(tracer, answer(0)), Action::Wait);
}

#[test]
fn one_write_then_exit_with_code_zero() {
    let mut tracer = running(SignalPolicy::Suppress);
    enter(&mut tracer, 1, &[1, 0x7ffd_0000_1000, 12]);
    leave(&mut tracer, 12);
    assert_eq!(give(&mut tracer, change(0)), Action::Finish);
    assert_eq!(tracer.phase(), Phase::Done);
    assert_eq!(tracer.awaiting(), Awaiting::Nothing);
    assert_eq!(tracer.outcome(), Some(Outcome::Exited(0)));
    assert_eq!(tracer.tracee().state, TraceeState::Exited(0));
    let events = tracer.snapshot();
    assert_eq!(events.len(), 1);
    assert_eq!(events[0].index(), 0);
    assert_eq!(events[0].number(), 1);
    assert_eq!(events[0].name(), "write");
    assert_eq!(events[0].args(), &vec![1, 0x7ffd_0000_1000, 12]);
    assert_eq!(events[0].args().len(), events[0].descriptor().arity() as usize);
    assert_eq!(events[0].return_value(), Some(12));
    assert!(!events[0].is_partial());
}

#[test]
fn a_process_that_calls_exit_group_leaves_it_behind_as_partial() {
    let mut tracer = running(SignalPolicy::Suppress);
    enter(&mut tracer, 1, &[1, 4096, 5]);
    leave(&mut tracer, 5);
    enter(&mut tracer, 231, &[3, 0, 0, 0, 0, 0]);
    assert_eq!(give(&mut tracer, change(3 << 8)), Action::Finish);
    assert_eq!(tracer.outcome(), Some(Outcome::Exited(3)));
    let events = tracer.snapshot();
    assert_eq!(events.len(), 2);
    assert_eq!(events[0].return_value(), Some(5));
    assert_eq!(events[1].name(), "exit_group");
    assert_eq!(events[1].completion(), Completion::Partial);
    let finalized = events.iter().filter(|e| e.return_value().is_some()).count();
    assert_eq!(finalized, 1);
}

#[test]
fn finalized_calls_are_as_many_as_entry_stops_when_the_exit_is_outside_a_call() {
    let mut tracer = running(SignalPolicy::Suppress);
    let mut entries = 0;
    let calls: [(i64, i64); 4] = [(0, 10), (1, 10), (3, 0), (0, -1)];
    for (number, ret) in calls {
        match number {
            3 => enter(&mut tracer, number, &[5]),
            _ => enter(&mut tracer, number, &[5, 6, 7]),
        }
        entries += 1;
        leave(&mut tracer, ret);
    }
    assert_eq!(give(&mut tracer, change(0)), Action::Finish);
    let events = tracer.snapshot();
    let finalized = events.iter().filter(|e| !e.is_partial()).count();
    assert_eq!(finalized, entries);
    assert_eq!(events.len(), entries);
    for event in events {
        assert!(event.return_value().is_some());
    }
    assert_eq!(events[3].return_value(), Some(-1));
}

#[test]
fn an_unknown_call_is_recorded_and_the_session_goes_on() {
    let mut tracer = running(SignalPolicy::Suppress);
    enter(&mut tracer, 99999, &[1, 2, 3, 4, 5, 6]);
    leave(&mut tracer, -38);
    enter(&mut tracer, 1, &[1, 2, 3]);
    leave(&mut tracer, 3);
    assert_eq!(give(&mut tracer, change(0)), Action::Finish);
    assert_eq!(tracer.outcome(), Some(Outcome::Exited(0)));
    let events = tracer.snapshot();
    assert_eq!(events.len(), 2);
    assert_eq!(events[0].number(), 99999);
    assert_eq!(events[0].name(), "unknown_syscall_99999");
    assert_eq!(events[0].descriptor().arity(), 6);
    assert_eq!(events[0].args(), &vec![1, 2, 3, 4, 5, 6]);
    assert_eq!(events[0].return_value(), Some(-38));
    assert_eq!(events[1].name(), "write");
}

#[test]
fn a_call_number_with_its_top_bit_set_is_recorded_as_unknown() {
    let mut tracer = running(SignalPolicy::Suppress);
    enter(&mut tracer, -1, &[0, 0, 0, 0, 0, 0]);
    let call = tracer.open_call().unwrap();
    assert_eq!(call.number(), u64::MAX);
    assert_eq!(call.name(), "unknown_syscall_18446744073709551615");
    leave(&mut tracer, 0);
    assert_eq!(tracer.snapshot()[0].number(), u64::MAX);
}

#[test]
fn a_fatal_signal_inside_a_call_leaves_a_partial_record() {
    let mut tracer = running(SignalPolicy::Suppress);
    enter(&mut tracer, 1, &[1, 4096, 5]);
    leave(&mut tracer, 5);
    enter(&mut tracer, 0, &[0, 8192, 64]);
    assert_eq!(give(&mut tracer, change(9)), Action::Finish);
    assert_eq!(tracer.phase(), Phase::Done);
    assert_eq!(tracer.outcome(), Some(Outcome::Signaled(9)));
    assert_eq!(tracer.tracee().state, TraceeState::Signaled(9));
    let events = tracer.snapshot();
    assert_eq!(events.len(), 2);
    assert_eq!(events[0].completion(), Completion::Returned(5));
    assert_eq!(events[1].name(), "read");
    assert_eq!(events[1].args(), &vec![0, 8192, 64]);
    assert!(events[1].is_partial());
    assert_eq!(events[1].return_value(), None);
}

#[test]
fn a_fatal_signal_outside_a_call_leaves_no_partial_record() {
    let mut tracer = running(SignalPolicy::Suppress);
    enter(&mut tracer, 3, &[7]);
    leave(&mut tracer, 0);
    assert_eq!(give(&mut tracer, change(11 | 0x80)), Action::Finish);
    assert_eq!(tracer.outcome(), Some(Outcome::Signaled(11)));
    let events = tracer.snapshot();
    assert_eq!(events.len(), 1);
    assert!(!events[0].is_partial());
}

#[test]
fn a_tracee_that_makes_no_call_has_an_empty_record() {
    let mut tracer = running(SignalPolicy::Suppress);
    assert_eq!(give(&mut tracer, change(42 << 8)), Action::Finish);
    assert_eq!(tracer.outcome(), Some(Outcome::Exited(42)));
    assert!(tracer.snapshot().is_empty());
}

#[test]
fn a_signal_on_the_way_is_forwarded_when_the_policy_says_so() {
    let mut tracer = running(SignalPolicy::Forward);
    assert_eq!(give(&mut tracer, change((10 << 8) | 0x7f)), resume(10));
    assert_eq!(tracer.tracee().state, TraceeState::Stopped(StopKind::SignalDelivery));
    assert_eq!(tracer.phase(), Phase::AwaitEntryStop);
    assert_eq!(give(&mut tracer, answer(0)), Action::Wait);
    assert!(tracer.snapshot().is_empty());
}

#[test]
fn a_signal_on_the_way_is_dropped_when_the_policy_says_so() {
    let mut tracer = running(SignalPolicy::Suppress);
    assert_eq!(give(&mut tracer, change((10 << 8) | 0x7f)), resume(0));
    assert_eq!(give(&mut tracer, answer(0)), Action::Wait);
    assert!(tracer.snapshot().is_empty());
}

#[test]
fn a_signal_between_entry_and_exit_does_not_break_the_pair() {
    let mut tracer = running(SignalPolicy::Forward);
    enter(&mut tracer, 0, &[0, 4096, 16]);
    assert_eq!(give(&mut tracer, change((17 << 8) | 0x7f)), resume(17));
    assert_eq!(tracer.phase(), Phase::AwaitExitStop);
    assert_eq!(give(&mut tracer, answer(0)), Action::Wait);
    leave(&mut tracer, 16);
    let events = tracer.snapshot();
    assert_eq!(events.len(), 1);
    assert_eq!(events[0].return_value(), Some(16));
}

#[test]
fn a_plain_trap_is_no_system_call_boundary() {
    let mut tracer = running(SignalPolicy::Suppress);
    assert_eq!(give(&mut tracer, change(TRAP_STOP)), resume(0));
    assert_eq!(give(&mut tracer, answer(0)), Action::Wait);
    assert!(tracer.snapshot().is_empty());
    assert_eq!(tracer.phase(), Phase::AwaitEntryStop);
}

#[test]
fn an_interrupted_wait_is_waited_again() {
    let mut tracer = running(SignalPolicy::Suppress);
    let interrupted = Reply::StateChange { pid: -1, status: 0, errno: 4 };
    assert_eq!(give(&mut tracer, interrupted), Action::Wait);
    assert_eq!(give(&mut tracer, interrupted), Action::Wait);
    assert_eq!(tracer.phase(), Phase::AwaitEntryStop);
    assert_eq!(tracer.outcome(), None);
    enter(&mut tracer, 3, &[1]);
    assert_eq!(give(&mut tracer, interrupted), Action::Wait);
    leave(&mut tracer, 0);
    assert_eq!(tracer.snapshot().len(), 1);
}

#[test]
fn a_status_that_is_no_stop_and_no_end_is_waited_again() {
    let mut tracer = running(SignalPolicy::Suppress);
    assert_eq!(give(&mut tracer, change(0xffff)), Action::Wait);
    assert_eq!(tracer.outcome(), None);
}

#[test]
fn a_failed_wait_ends_the_session() {
    let mut tracer = running(SignalPolicy::Suppress);
    enter(&mut tracer, 1, &[1, 2, 3]);
    let failed = Reply::StateChange { pid: -1, status: 0, errno: 10 };
    assert_eq!(give(&mut tracer, failed), Action::Finish);
    assert_eq!(
        tracer.outcome(),
        Some(Outcome::Failed(TraceError {
            pid: PID,
            operation: Operation::Wait,
            errno: 10,
            phase: Phase::AwaitExitStop
        }))
    );
    // the record is left as it was, and the call the tracee is inside is
    // still open
    assert!(tracer.snapshot().is_empty());
    let call = tracer.open_call().unwrap();
    assert_eq!(call.name(), "write");
    assert_eq!(call.completion(), Completion::Pending);
}

#[test]
fn a_rejected_resume_ends_the_session() {
    let mut tracer = running(SignalPolicy::Suppress);
    assert_eq!(give(&mut tracer, change(SYSCALL_STOP)), peek(120));
    assert_eq!(give(&mut tracer, answer(3)), peek(112));
    assert_eq!(give(&mut tracer, answer(9)), resume(0));
    assert_eq!(
        give(&mut tracer, Reply::Answer { ret: -1, errno: 3 }),
        Action::Finish
    );
    assert_eq!(
        tracer.outcome(),
        Some(Outcome::Failed(TraceError {
            pid: PID,
            operation: Operation::Control(PtraceRequest::Syscall),
            errno: 3,
            phase: Phase::AwaitExitStop
        }))
    );
    assert!(tracer.snapshot().is_empty());
    assert_eq!(tracer.open_call().unwrap().name(), "close");
    assert_eq!(tracer.open_call().unwrap().args(), &vec![9]);
}

#[test]
fn a_register_that_cannot_be_read_ends_the_session_without_a_record() {
    let mut tracer = running(SignalPolicy::Suppress);
    assert_eq!(give(&mut tracer, change(SYSCALL_STOP)), peek(120));
    assert_eq!(give(&mut tracer, answer(1)), peek(112));
    assert_eq!(give(&mut tracer, answer(1)), peek(104));
    assert_eq!(
        give(&mut tracer, Reply::Answer { ret: -1, errno: 5 }),
        Action::Finish
    );
    assert_eq!(
        tracer.outcome(),
        Some(Outcome::Failed(TraceError {
            pid: PID,
            operation: Operation::Control(PtraceRequest::PeekUser),
            errno: 5,
            phase: Phase::AwaitEntryStop
        }))
    );
    assert!(tracer.snapshot().is_empty());
}

#[test]
fn a_register_that_holds_minus_one_is_read_as_data() {
    let mut tracer = running(SignalPolicy::Suppress);
    enter(&mut tracer, 1, &[-1, -2, i64::MIN]);
    leave(&mut tracer, -1);
    let events = tracer.snapshot();
    assert_eq!(
        events[0].args(),
        &vec![u64::MAX, u64::MAX - 1, 0x8000_0000_0000_0000]
    );
    assert_eq!(events[0].return_value(), Some(-1));
    assert_eq!(tracer.outcome(), None);
}

#[test]
fn launching_a_program_that_does_not_exist_fails_at_the_first_wait() {
    let manager = SyscallManager::build(TABLE).unwrap();
    let (mut tracer, first) = TraceLoop::new(PID, SignalPolicy::Suppress, manager);
    assert_eq!(first, Action::Wait);
    assert_eq!(give(&mut tracer, change(127 << 8)), Action::Finish);
    assert_eq!(
        tracer.outcome(),
        Some(Outcome::LaunchFailed(LaunchError::ImageReplacement {
            termination: Termination::Exited(127)
        }))
    );
    assert_eq!(tracer.phase(), Phase::Done);
    assert_eq!(tracer.tracee().state, TraceeState::Exited(127));
    assert!(tracer.snapshot().is_empty());
    assert!(!tracer.accepts(&change(0)));
    assert!(!tracer.accepts(&answer(0)));
}

#[test]
fn a_new_process_killed_before_its_first_stop_is_a_failed_launch() {
    let manager = SyscallManager::new();
    let (mut tracer, _) = TraceLoop::new(PID, SignalPolicy::Suppress, manager);
    assert_eq!(give(&mut tracer, change(6)), Action::Finish);
    assert_eq!(
        tracer.outcome(),
        Some(Outcome::LaunchFailed(LaunchError::ImageReplacement {
            termination: Termination::Signaled(6)
        }))
    );
}

#[test]
fn the_handshake_accepts_the_stop_a_process_raises_itself() {
    let manager = SyscallManager::new();
    let (mut tracer, _) = TraceLoop::new(PID, SignalPolicy::Suppress, manager);
    assert_eq!(
        give(&mut tracer, change((19 << 8) | 0x7f)),
        Action::Execute(Command {
            request: PtraceRequest::SetOptions,
            pid: PID,
            addr: 0,
            data: 1
        })
    );
}

#[test]
fn another_first_stop_is_a_failed_launch() {
    let status = (11 << 8) | 0x7f;
    let manager = SyscallManager::new();
    let (mut tracer, _) = TraceLoop::new(PID, SignalPolicy::Suppress, manager);
    assert_eq!(give(&mut tracer, change(status)), Action::Finish);
    assert_eq!(
        tracer.outcome(),
        Some(Outcome::LaunchFailed(LaunchError::UnexpectedStop { status }))
    );
    assert_eq!(tracer.tracee().state, TraceeState::Launching);
}

#[test]
fn a_failed_first_wait_is_a_failed_launch() {
    let manager = SyscallManager::new();
    let (mut tracer, _) = TraceLoop::new(PID, SignalPolicy::Suppress, manager);
    let interrupted = Reply::StateChange { pid: -1, status: 0, errno: 4 };
    assert_eq!(give(&mut tracer, interrupted), Action::Wait);
    let failed = Reply::StateChange { pid: -1, status: 0, errno: 10 };
    assert_eq!(give(&mut tracer, failed), Action::Finish);
    assert_eq!(
        tracer.outcome(),
        Some(Outcome::LaunchFailed(LaunchError::HandshakeWait { errno: 10 }))
    );
}

#[test]
fn options_that_cannot_be_set_are_a_failed_launch() {
    let manager = SyscallManager::new();
    let (mut tracer, _) = TraceLoop::new(PID, SignalPolicy::Suppress, manager);
    give(&mut tracer, change(TRAP_STOP));
    assert_eq!(
        give(&mut tracer, Reply::Answer { ret: -1, errno: 22 }),
        Action::Finish
    );
    match tracer.outcome() {
        Some(Outcome::LaunchFailed(LaunchError::Options { error })) => {
            assert_eq!(error.request, PtraceRequest::SetOptions);
            assert_eq!(error.pid, PID);
            assert_eq!(error.errno, 22);
        }
        other => panic!("unexpected outcome {:?}", other),
    }
}

#[test]
fn the_loop_accepts_only_the_kind_of_reply_it_is_owed() {
    let manager = SyscallManager::new();
    let (mut tracer, _) = TraceLoop::new(PID, SignalPolicy::Suppress, manager);
    assert!(tracer.accepts(&change(0)));
    assert!(!tracer.accepts(&answer(0)));
    give(&mut tracer, change(TRAP_STOP));
    assert!(tracer.accepts(&answer(0)));
    assert!(!tracer.accepts(&change(0)));
}

#[test]
fn no_such_process_after_the_end_is_no_failure() {
    let mut tracer = running(SignalPolicy::Suppress);
    assert_eq!(tracer.late_answer(PtraceRequest::Detach, 0, 0), None);
    assert_eq!(
        tracer.late_answer(PtraceRequest::Detach, -1, 3),
        Some(TraceError {
            pid: PID,
            operation: Operation::Control(PtraceRequest::Detach),
            errno: 3,
            phase: Phase::AwaitEntryStop
        })
    );
    give(&mut tracer, change(0));
    assert_eq!(tracer.late_answer(PtraceRequest::Detach, -1, 3), None);
    assert_eq!(tracer.late_answer(PtraceRequest::Kill, -1, 3), None);
    assert_eq!(
        tracer.late_answer(PtraceRequest::Kill, -1, 1),
        Some(TraceError {
            pid: PID,
            operation: Operation::Control(PtraceRequest::Kill),
            errno: 1,
            phase: Phase::Done
        })
    );
}

#[test]
fn a_tracee_that_is_still_there_is_let_go() {
    let mut tracer = running(SignalPolicy::Suppress);
    assert_eq!(
        tracer.cancel(Cancellation::Detach),
        Some(Command { request: PtraceRequest::Detach, pid: PID, addr: 0, data: 0 })
    );
    assert_eq!(
        tracer.cancel(Cancellation::Kill),
        Some(Command { request: PtraceRequest::Kill, pid: PID, addr: 0, data: 0 })
    );
    give(&mut tracer, change(9));
    assert_eq!(tracer.cancel(Cancellation::Detach), None);
    assert_eq!(tracer.cancel(Cancellation::Kill), None);
}

#[test]
fn a_failed_session_still_has_a_tracee_to_let_go() {
    let mut tracer = running(SignalPolicy::Suppress);
    let failed = Reply::StateChange { pid: -1, status: 0, errno: 10 };
    give(&mut tracer, failed);
    assert_eq!(
        tracer.cancel(Cancellation::Kill),
        Some(Command { request: PtraceRequest::Kill, pid: PID, addr: 0, data: 0 })
    );
}

#[test]
fn the_record_can_be_taken_out_of_a_finished_loop() {
    let mut tracer = running(SignalPolicy::Suppress);
    enter(&mut tracer, 3, &[4]);
    leave(&mut tracer, 0);
    give(&mut tracer, change(0));
    assert_eq!(tracer.manager().len(), 1);
    let manager = tracer.into_manager();
    assert_eq!(manager.len(), 1);
    assert_eq!(manager.snapshot()[0].name(), "close");
    assert_eq!(manager.lookup(0).name, "read");
}

#[test]
fn the_record_keeps_its_length_at_an_entry_stop() {
    let mut tracer = running(SignalPolicy::Suppress);
    enter(&mut tracer, 3, &[4]);
    leave(&mut tracer, 0);
    assert_eq!(tracer.snapshot().len(), 1);
    assert_eq!(tracer.manager().len(), 1);
    // the next call is entered: it is open, and not in the record
    enter(&mut tracer, 1, &[1, 4096, 7]);
    assert_eq!(tracer.phase(), Phase::AwaitExitStop);
    assert_eq!(tracer.snapshot().len(), 1);
    assert_eq!(tracer.manager().len(), 1);
    let call = tracer.open_call().unwrap();
    assert_eq!(call.index(), 1);
    assert_eq!(call.name(), "write");
    assert_eq!(call.args(), &vec![1, 4096, 7]);
    assert_eq!(call.return_value(), None);
    assert_eq!(call.completion(), Completion::Pending);
    // at its exit it is put in the record, once, with its return value
    leave(&mut tracer, 7);
    assert_eq!(tracer.snapshot().len(), 2);
    assert_eq!(tracer.snapshot()[1].index(), 1);
    assert_eq!(tracer.snapshot()[1].name(), "write");
    assert_eq!(tracer.snapshot()[1].return_value(), Some(7));
    assert!(tracer.open_call().is_none());
}

#[test]
fn the_record_never_holds_a_pending_call() {
    let mut tracer = running(SignalPolicy::Suppress);
    let calls: [(i64, i64); 3] = [(0, 10), (1, 10), (0, -1)];
    for (number, ret) in calls {
        enter(&mut tracer, number, &[5, 6, 7]);
        for event in tracer.snapshot() {
            assert!(event.return_value().is_some());
        }
        leave(&mut tracer, ret);
        for event in tracer.snapshot() {
            assert!(event.return_value().is_some());
        }
    }
    enter(&mut tracer, 231, &[0, 0, 0, 0, 0, 0]);
    assert_eq!(tracer.snapshot().len(), 3);
    assert_eq!(give(&mut tracer, change(0)), Action::Finish);
    assert_eq!(tracer.snapshot().len(), 4);
    assert!(tracer.open_call().is_none());
    for event in tracer.snapshot() {
        assert_ne!(event.completion(), Completion::Pending);
    }
}

#[test]
fn a_register_that_cannot_be_read_inside_a_call_leaves_the_record_as_it_was() {
    let mut tracer = running(SignalPolicy::Suppress);
    enter(&mut tracer, 3, &[4]);
    leave(&mut tracer, 0);
    enter(&mut tracer, 0, &[0, 4096, 8]);
    assert_eq!(give(&mut tracer, change(SYSCALL_STOP)), peek(80));
    assert_eq!(
        give(&mut tracer, Reply::Answer { ret: -1, errno: 3 }),
        Action::Finish
    );
    assert_eq!(
        tracer.outcome(),
        Some(Outcome::Failed(TraceError {
            pid: PID,
            operation: Operation::Control(PtraceRequest::PeekUser),
            errno: 3,
            phase: Phase::AwaitExitStop
        }))
    );
    assert_eq!(tracer.snapshot().len(), 1);
    assert_eq!(tracer.snapshot()[0].name(), "close");
    assert_eq!(tracer.snapshot()[0].return_value(), Some(0));
    assert_eq!(tracer.open_call().unwrap().name(), "read");
}
