//! Decoding of the status word that the kernel reports when a traced process
//! changes state.

use vstd::prelude::*;

verus! {

/// The trace trap.
pub const SIGTRAP: i32 = 5;

/// The stop signal a process can raise on itself.
pub const SIGSTOP: i32 = 19;

/// The stop signal of a system-call boundary once `PTRACE_O_TRACESYSGOOD` is
/// set: the trace trap with bit 7 added.
pub const SYSCALL_STOP_SIGNAL: i32 = 0x85;

/// The status says that the process exited on its own.
pub open spec fn status_exited(status: i32) -> bool {
    (status & 0x7f) == 0
}

/// The exit code of a status that says "exited".
pub open spec fn status_exit_code(status: i32) -> i32 {
    (status >> 8) & 0xff
}

/// The status says that a signal killed the process.
pub open spec fn status_signaled(status: i32) -> bool {
    1 <= (status & 0x7f) <= 126
}

/// The signal of a status that says "killed by a signal".
pub open spec fn status_term_signal(status: i32) -> i32 {
    status & 0x7f
}

/// The status says that the process is stopped.
pub open spec fn status_stopped(status: i32) -> bool {
    (status & 0xff) == 0x7f
}

/// The signal of a status that says "stopped".
pub open spec fn status_stop_signal(status: i32) -> i32 {
    (status >> 8) & 0xff
}

/// `libc::WIFEXITED`: true exactly when the low seven bits of the status are
/// all clear (`(status & 0x7f) == 0` in the source).
pub assume_specification[ libc::WIFEXITED ](status: libc::c_int) -> (r: bool)
    ensures
        r == status_exited(status),
;

/// `libc::WEXITSTATUS`: bits 8 to 15 of the status (`(status >> 8) & 0xff` in
/// the source).
pub assume_specification[ libc::WEXITSTATUS ](status: libc::c_int) -> (r: libc::c_int)
    ensures
        r == status_exit_code(status),
;

/// `libc::WIFSIGNALED`: true exactly when the low seven bits of the status
/// hold a value from 1 to 126. The source asks whether one more than the low
/// seven bits, taken as a signed byte, is at least 2: that fails for 0, which
/// gives 1, and for 127, which gives 128 and so -128 as a signed byte.
pub assume_specification[ libc::WIFSIGNALED ](status: libc::c_int) -> (r: bool)
    ensures
        r == status_signaled(status),
;

/// `libc::WTERMSIG`: the low seven bits of the status (`status & 0x7f` in the
/// source).
pub assume_specification[ libc::WTERMSIG ](status: libc::c_int) -> (r: libc::c_int)
    ensures
        r == status_term_signal(status),
;

/// `libc::WIFSTOPPED`: true exactly when the low byte of the status is 0x7f
/// (`(status & 0xff) == 0x7f` in the source).
pub assume_specification[ libc::WIFSTOPPED ](status: libc::c_int) -> (r: bool)
    ensures
        r == status_stopped(status),
;

/// `libc::WSTOPSIG`: bits 8 to 15 of the status (`(status >> 8) & 0xff` in
/// the source).
pub assume_specification[ libc::WSTOPSIG ](status: libc::c_int) -> (r: libc::c_int)
    ensures
        r == status_stop_signal(status),
;

/// Why a wait for the tracee returned.
#[derive(Clone, Copy, Debug, PartialEq, Eq, Structural)]
pub enum StopReason {
    /// The process exited on its own, with this code.
    Exited(i32),
    /// This signal killed the process.
    Signaled(i32),
    /// The process stands at the entry or the exit of a system call.
    SyscallBoundary,
    /// The process stopped because this signal is about to be delivered to it.
    SignalDelivery(i32),
    /// None of these; the process still runs or was continued.
    Other,
}

/// The reason a status word stands for.
pub open spec fn stop_reason(status: i32) -> StopReason {
    if status_exited(status) {
        StopReason::Exited(status_exit_code(status))
    } else if status_signaled(status) {
        StopReason::Signaled(status_term_signal(status))
    } else if status_stopped(status) {
        if status_stop_signal(status) == SYSCALL_STOP_SIGNAL {
            StopReason::SyscallBoundary
        } else {
            StopReason::SignalDelivery(status_stop_signal(status))
        }
    } else {
        StopReason::Other
    }
}

/// Decodes a status word.
pub fn classify_status(status: i32) -> (r: StopReason)
    ensures
        r == stop_reason(status),
{
    if libc::WIFEXITED(status) {
        StopReason::Exited(libc::WEXITSTATUS(status))
    } else if libc::WIFSIGNALED(status) {
        StopReason::Signaled(libc::WTERMSIG(status))
    } else if libc::WIFSTOPPED(status) {
        let signal: i32 = libc::WSTOPSIG(status);
        if signal == SYSCALL_STOP_SIGNAL {
            StopReason::SyscallBoundary
        } else {
            StopReason::SignalDelivery(signal)
        }
    } else {
        StopReason::Other
    }
}

/// The codes and signals a status can carry are small: an exit code and a
/// stop signal fit in a byte, a killing signal in seven bits.
pub proof fn lemma_stop_reason_ranges(status: i32)
    ensures
        match stop_reason(status) {
            StopReason::Exited(code) => 0 <= code <= 255,
            StopReason::Signaled(signal) => 1 <= signal <= 126,
            StopReason::SignalDelivery(signal) => 0 <= signal <= 255 && signal
                != SYSCALL_STOP_SIGNAL,
            _ => true,
        },
{
    assert(0 <= ((status >> 8) & 0xff) <= 255) by (bit_vector);
}

/// A process that exits with a code from 0 to 255 reports a status that
/// decodes to that exit.
pub proof fn lemma_exit_status_decodes(code: i32)
    requires
        0 <= code <= 255,
    ensures
        stop_reason(code << 8) == StopReason::Exited(code),
{
    assert(0 <= code <= 255 ==> ((code << 8) & 0x7f) == 0 && (((code << 8) >> 8) & 0xff) == code)
        by (bit_vector);
}

/// A process killed by a signal from 1 to 126 reports a status that decodes
/// to that signal.
pub proof fn lemma_signal_status_decodes(signal: i32)
    requires
        1 <= signal <= 126,
    ensures
        stop_reason(signal) == StopReason::Signaled(signal),
{
    assert(1 <= signal <= 126 ==> (signal & 0x7f) == signal) by (bit_vector);
}

/// A process stopped by a signal from 0 to 255 reports a status that decodes
/// to a system-call boundary for the marked trap and to the delivery of that
/// signal otherwise.
pub proof fn lemma_stop_status_decodes(signal: i32)
    requires
        0 <= signal <= 255,
    ensures
        stop_reason((signal << 8) | 0x7f) == if signal == SYSCALL_STOP_SIGNAL {
            StopReason::SyscallBoundary
        } else {
            StopReason::SignalDelivery(signal)
        },
{
    assert(0 <= signal <= 255 ==> (((signal << 8) | 0x7f) & 0x7f) == 0x7f && (((signal << 8)
        | 0x7f) & 0xff) == 0x7f && ((((signal << 8) | 0x7f) >> 8) & 0xff) == signal)
        by (bit_vector);
}

} // verus!
