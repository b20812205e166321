use jtrace::wait::{classify_status, StopReason, SIGSTOP, SIGTRAP, SYSCALL_STOP_SIGNAL};

#[test]
fn an_exit_status_decodes_to_its_code() {
    assert_eq!(classify_status(0), StopReason::Exited(0));
    assert_eq!(classify_status(1 << 8), StopReason::Exited(1));
    assert_eq!(classify_status(127 << 8), StopReason::Exited(127));
    assert_eq!(classify_status(255 << 8), StopReason::Exited(255));
}

#[test]
fn a_kill_status_decodes_to_its_signal() {
    assert_eq!(classify_status(9), StopReason::Signaled(9));
    assert_eq!(classify_status(15), StopReason::Signaled(15));
    assert_eq!(classify_status(1), StopReason::Signaled(1));
    assert_eq!(classify_status(126), StopReason::Signaled(126));
}

#[test]
fn a_core_dump_does_not_change_the_signal() {
    assert_eq!(classify_status(11 | 0x80), StopReason::Signaled(11));
}

#[test]
fn a_stop_status_decodes_to_the_signal_about_to_be_delivered() {
    assert_eq!(classify_status((SIGTRAP << 8) | 0x7f), StopReason::SignalDelivery(5));
    assert_eq!(classify_status((SIGSTOP << 8) | 0x7f), StopReason::SignalDelivery(19));
    assert_eq!(classify_status((10 << 8) | 0x7f), StopReason::SignalDelivery(10));
}

#[test]
fn the_marked_trap_is_a_system_call_boundary() {
    assert_eq!(SYSCALL_STOP_SIGNAL, 133);
    assert_eq!(classify_status((SYSCALL_STOP_SIGNAL << 8) | 0x7f), StopReason::SyscallBoundary);
    assert_eq!(classify_status(0x857f), StopReason::SyscallBoundary);
}

#[test]
fn a_trace_event_stop_is_still_the_delivery_of_its_trap() {
    // bits above the low sixteen carry the event and do not change the signal
    assert_eq!(classify_status((4 << 16) | (SIGTRAP << 8) | 0x7f), StopReason::SignalDelivery(5));
}

#[test]
fn a_continued_process_is_none_of_the_reasons() {
    assert_eq!(classify_status(0xffff), StopReason::Other);
}

#[test]
fn every_low_status_has_exactly_the_documented_reason() {
    let mut status = 0;
    while status < 0x10000 {
        let low = status & 0x7f;
        let expected = if low == 0 {
            StopReason::Exited((status >> 8) & 0xff)
        } else if low != 0x7f {
            StopReason::Signaled(low)
        } else if status & 0xff == 0x7f {
            let signal = (status >> 8) & 0xff;
            if signal == 0x85 {
                StopReason::SyscallBoundary
            } else {
                StopReason::SignalDelivery(signal)
            }
        } else {
            StopReason::Other
        };
        assert_eq!(classify_status(status), expected);
        status += 1;
    }
}

#[test]
fn a_negative_status_is_decoded_by_its_bits() {
    // all bits set: low seven are 0x7f, low byte is 0xff
    assert_eq!(classify_status(-1), StopReason::Other);
    // i32::MIN has its low bits clear, and bits 8 to 15 clear
    assert_eq!(classify_status(i32::MIN), StopReason::Exited(0));
}
