use jtrace::launch::{LaunchError, Termination};
use jtrace::logger::{JtraceLogger, Level};
use jtrace::output::{
    records, render, render_trace, report, OutputMode, Record, Report, SessionError,
};
use jtrace::ptrace::{PtraceError, PtraceRequest};
use jtrace::syscall::SyscallManager;
use jtrace::tracer::{Operation, Outcome, Phase, TraceError};
use serde_json::Value;

const TABLE: &str = "#define __NR_read 0\n#define __NR_write 1\n#define __NR_close 3\n#define __NR_getpid 39\n";

fn sample() -> SyscallManager {
    let mut manager = SyscallManager::build(TABLE).unwrap();
    manager.add_syscall(1, vec![1, 140737488351232, 12]);
    manager.finish_syscall(12);
    manager.add_syscall(3, vec![5]);
    manager.finish_syscall(-9);
    manager.add_syscall(777, vec![1, 2, 3, 4, 5, 18446744073709551615]);
    manager.finish_syscall(-38);
    manager.add_syscall(0, vec![0, 4096, 64]);
    manager.flush();
    manager
}

#[test]
fn a_line_is_the_name_the_arguments_and_the_return_value() {
    let manager = sample();
    let events = manager.snapshot();
    assert_eq!(render(&events[0]), "write(1, 140737488351232, 12) = 12");
    assert_eq!(render(&events[1]), "close(5) = -9");
    assert_eq!(
        render(&events[2]),
        "unknown_syscall_777(1, 2, 3, 4, 5, 18446744073709551615) = -38"
    );
}

#[test]
fn a_partial_call_has_a_question_mark_for_its_return_value() {
    let manager = sample();
    assert_eq!(render(&manager.snapshot()[3]), "read(0, 4096, 64) = ?");
}

#[test]
fn a_pending_call_has_a_question_mark_too() {
    let mut manager = SyscallManager::build(TABLE).unwrap();
    manager.add_syscall(3, vec![9]);
    assert_eq!(render(&manager.snapshot()[0]), "close(9) = ?");
}

#[test]
fn the_trace_is_one_line_for_each_call_in_order() {
    let manager = sample();
    assert_eq!(
        render_trace(manager.snapshot()),
        "write(1, 140737488351232, 12) = 12\nclose(5) = -9\nunknown_syscall_777(1, 2, 3, 4, 5, 18446744073709551615) = -38\nread(0, 4096, 64) = ?\n"
    );
}

#[test]
fn the_trace_of_no_call_is_empty() {
    let manager = SyscallManager::new();
    assert_eq!(render_trace(manager.snapshot()), "");
}

#[test]
fn the_structured_form_keeps_length_order_and_fields() {
    let manager = sample();
    let events = manager.snapshot();
    let list = records(events);
    assert_eq!(list.len(), events.len());
    let mut i = 0;
    while i < list.len() {
        assert_eq!(list[i].number, events[i].number());
        assert_eq!(list[i].name, events[i].name());
        assert_eq!(&list[i].args, events[i].args());
        assert_eq!(list[i].args.len(), events[i].descriptor().arity() as usize);
        i += 1;
    }
    assert_eq!(list[0].number, 1);
    assert_eq!(list[0].name, "write");
    assert_eq!(list[0].args, vec![1, 140737488351232, 12]);
    assert_eq!(list[2].name, "unknown_syscall_777");
    assert_eq!(list[2].args.len(), 6);
    assert_eq!(list[3].name, "read");
}

#[test]
fn a_record_of_one_call() {
    let manager = sample();
    let record = Record::from_call(&manager.snapshot()[1]);
    assert_eq!(record.number, 3);
    assert_eq!(record.name, "close");
    assert_eq!(record.args, vec![5]);
}

#[test]
fn the_structured_form_of_no_call_is_empty() {
    let manager = SyscallManager::new();
    assert!(records(manager.snapshot()).is_empty());
}

#[test]
fn the_report_has_the_form_that_was_asked_for() {
    let manager = sample();
    match report(OutputMode::PlainText, manager.snapshot()) {
        Report::PlainText(text) => assert_eq!(text, render_trace(manager.snapshot())),
        Report::Structured(_) => panic!("asked for text"),
    }
    match report(OutputMode::Structured, manager.snapshot()) {
        Report::Structured(list) => {
            assert_eq!(list.len(), 4);
            assert_eq!(list[1].name, "close");
            assert_eq!(list[1].args, vec![5]);
        }
        Report::PlainText(_) => panic!("asked for records"),
    }
}

#[test]
fn the_session_leaves_with_the_exit_code_of_the_tracee() {
    assert_eq!(Termination::Exited(0).status(), 0);
    assert_eq!(Termination::Exited(3).status(), 3);
    assert_eq!(Termination::Exited(255).status(), 255);
}

#[test]
fn the_session_leaves_with_a_status_of_its_own_for_a_killed_tracee() {
    assert_eq!(Termination::Signaled(9).status(), 137);
    assert_eq!(Termination::Signaled(1).status(), 129);
    assert_eq!(Termination::Signaled(15).status(), 143);
    assert_eq!(Termination::Signaled(126).status(), 254);
    assert_eq!(Termination::Signaled(127).status(), 255);
    assert_eq!(Termination::Signaled(0).status(), 255);
    assert_eq!(Termination::Signaled(-4).status(), 255);
    assert_eq!(Termination::Signaled(i32::MAX).status(), 255);
}

#[test]
fn only_launch_and_control_failures_are_failures_of_the_session() {
    assert_eq!(Outcome::Exited(2).result(), Ok(Termination::Exited(2)));
    assert_eq!(Outcome::Signaled(11).result(), Ok(Termination::Signaled(11)));
    assert_eq!(
        Outcome::LaunchFailed(LaunchError::EmptyCommand).result(),
        Err(SessionError::Launch(LaunchError::EmptyCommand))
    );
    let error = TraceError {
        pid: 8,
        operation: Operation::Wait,
        errno: 10,
        phase: Phase::AwaitEntryStop,
    };
    assert_eq!(Outcome::Failed(error).result(), Err(SessionError::Trace(error)));
}

#[test]
fn the_message_of_a_failure_names_operation_process_error_and_phase() {
    let error = TraceError {
        pid: 4321,
        operation: Operation::Control(PtraceRequest::Syscall),
        errno: 3,
        phase: Phase::AwaitExitStop,
    };
    assert_eq!(
        error.message(),
        "ptrace request 24 for process 4321 failed with error 3 while awaiting a system-call exit"
    );
    let error = TraceError {
        pid: 7,
        operation: Operation::Wait,
        errno: 10,
        phase: Phase::AwaitEntryStop,
    };
    assert_eq!(
        error.message(),
        "wait for process 7 failed with error 10 while awaiting a system-call entry"
    );
    let error = TraceError {
        pid: -1,
        operation: Operation::Control(PtraceRequest::SetOptions),
        errno: 22,
        phase: Phase::AwaitHandshake,
    };
    assert_eq!(
        error.message(),
        "ptrace request 16896 for process -1 failed with error 22 while awaiting the first stop"
    );
    let error = TraceError {
        pid: 1,
        operation: Operation::Control(PtraceRequest::Kill),
        errno: 1,
        phase: Phase::Done,
    };
    assert_eq!(
        error.message(),
        "ptrace request 8 for process 1 failed with error 1 while after the end of the loop"
    );
}

#[test]
fn the_message_of_each_failed_launch() {
    assert_eq!(LaunchError::EmptyCommand.message(), "no program to run");
    assert_eq!(
        LaunchError::InvalidPath.message(),
        "the path of the program holds a NUL character"
    );
    assert_eq!(
        LaunchError::InvalidArgument { index: 12 }.message(),
        "a NUL character in argument 12"
    );
    assert_eq!(
        LaunchError::ProcessCreation { errno: 12 }.message(),
        "no process could be created: error 12"
    );
    assert_eq!(
        LaunchError::TraceMe {
            error: PtraceError { request: PtraceRequest::TraceMe, pid: 0, errno: 1 }
        }
        .message(),
        "the request to be traced was rejected: error 1"
    );
    assert_eq!(
        LaunchError::ImageReplacement { termination: Termination::Exited(127) }.message(),
        "the program could not be started: it exited with code 127"
    );
    assert_eq!(
        LaunchError::ImageReplacement { termination: Termination::Signaled(9) }.message(),
        "the program could not be started: it killed by signal 9"
    );
    assert_eq!(
        LaunchError::HandshakeWait { errno: 10 }.message(),
        "waiting for the first stop failed with error 10"
    );
    assert_eq!(
        LaunchError::UnexpectedStop { status: 2943 }.message(),
        "unexpected first stop with status 2943"
    );
    assert_eq!(
        LaunchError::Options {
            error: PtraceError { request: PtraceRequest::SetOptions, pid: 99, errno: 22 }
        }
        .message(),
        "the tracing options could not be set for process 99: error 22"
    );
}

#[test]
fn the_logger_lets_everything_through() {
    let logger = JtraceLogger;
    assert!(logger.enabled(Level::Error));
    assert!(logger.enabled(Level::Warn));
    assert!(logger.enabled(Level::Info));
    assert!(logger.enabled(Level::Debug));
    assert!(logger.enabled(Level::Trace));
}

#[test]
fn a_log_line_begins_with_the_mark_of_its_level() {
    let logger = JtraceLogger;
    assert_eq!(logger.log(Level::Error, "boom"), Some(String::from("[ERROR] boom")));
    assert_eq!(
        logger.log(Level::Info, "Initialized logger"),
        Some(String::from("[INFO] Initialized logger"))
    );
    assert_eq!(logger.log(Level::Debug, "x = 1"), Some(String::from("[DEBUG] x = 1")));
    assert_eq!(logger.log(Level::Warn, "careful"), Some(String::from("[DEBUG] careful")));
    assert_eq!(logger.log(Level::Trace, ""), Some(String::from("[DEBUG] ")));
}

/// The records as JSON text: a list of objects with the fields `number`,
/// `name` and `args`.
fn to_json(list: &[Record]) -> String {
    let mut array = Vec::new();
    for record in list {
        let mut object = serde_json::Map::new();
        object.insert(String::from("number"), Value::from(record.number));
        object.insert(String::from("name"), Value::from(record.name.clone()));
        object.insert(String::from("args"), Value::from(record.args.clone()));
        array.push(Value::Object(object));
    }
    serde_json::to_string(&Value::Array(array)).unwrap()
}

/// The records read back from JSON text.
fn from_json(text: &str) -> Vec<Record> {
    let value: Value = serde_json::from_str(text).unwrap();
    let mut list = Vec::new();
    for object in value.as_array().unwrap() {
        let mut args = Vec::new();
        for word in object["args"].as_array().unwrap() {
            args.push(word.as_u64().unwrap());
        }
        list.push(Record {
            number: object["number"].as_u64().unwrap(),
            name: String::from(object["name"].as_str().unwrap()),
            args,
        });
    }
    list
}

#[test]
fn the_structured_form_comes_back_from_json_as_it_went() {
    let manager = sample();
    let events = manager.snapshot();
    let text = to_json(&records(events));
    assert_eq!(
        text,
        "[{\"args\":[1,140737488351232,12],\"name\":\"write\",\"number\":1},{\"args\":[5],\"name\":\"close\",\"number\":3},{\"args\":[1,2,3,4,5,18446744073709551615],\"name\":\"unknown_syscall_777\",\"number\":777},{\"args\":[0,4096,64],\"name\":\"read\",\"number\":0}]"
    );
    let back = from_json(&text);
    assert_eq!(back.len(), events.len());
    let mut i = 0;
    while i < back.len() {
        assert_eq!(back[i].number, events[i].number());
        assert_eq!(back[i].name, events[i].name());
        assert_eq!(&back[i].args, events[i].args());
        i += 1;
    }
}

#[test]
fn an_empty_record_comes_back_from_json_empty() {
    let manager = SyscallManager::new();
    let text = to_json(&records(manager.snapshot()));
    assert_eq!(text, "[]");
    assert!(from_json(&text).is_empty());
}
