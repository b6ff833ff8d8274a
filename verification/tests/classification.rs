use nix::errno::Errno;
use nix::sys::signal::Signal;
use northstar::kernel::{classify, Disposition, WaitResponse};
use northstar::status::ExitStatus;

#[test]
fn a_normal_exit_is_terminal() {
    assert_eq!(
        classify(WaitResponse::Exited(0)),
        Disposition::Terminal(ExitStatus::Exit(0))
    );
    assert_eq!(
        classify(WaitResponse::Exited(17)),
        Disposition::Terminal(ExitStatus::Exit(17))
    );
}

#[test]
fn an_exit_code_is_kept_as_it_is() {
    for code in [i32::MIN, -1, 0, 1, 2, 127, 255, i32::MAX] {
        assert_eq!(
            classify(WaitResponse::Exited(code)),
            Disposition::Terminal(ExitStatus::Exit(code))
        );
    }
}

#[test]
fn a_kill_is_terminal_whether_or_not_core_was_dumped() {
    let expected = Disposition::Terminal(ExitStatus::Signaled(Signal::SIGKILL));
    assert_eq!(classify(WaitResponse::Signaled(Signal::SIGKILL, false)), expected);
    assert_eq!(classify(WaitResponse::Signaled(Signal::SIGKILL, true)), expected);
}

#[test]
fn the_signal_of_a_kill_is_kept_as_it_is() {
    for signal in [Signal::SIGHUP, Signal::SIGINT, Signal::SIGSEGV, Signal::SIGTERM] {
        assert_eq!(
            classify(WaitResponse::Signaled(signal, false)),
            Disposition::Terminal(ExitStatus::Signaled(signal))
        );
    }
}

#[test]
fn a_stop_is_retried() {
    assert_eq!(classify(WaitResponse::Stopped(Signal::SIGSTOP)), Disposition::Retry);
    assert_eq!(classify(WaitResponse::Stopped(Signal::SIGTSTP)), Disposition::Retry);
}

#[test]
fn a_stop_by_the_kill_signal_number_is_still_only_a_stop() {
    assert_eq!(classify(WaitResponse::Stopped(Signal::SIGKILL)), Disposition::Retry);
}

#[test]
fn trace_stops_are_retried() {
    assert_eq!(
        classify(WaitResponse::PtraceEvent(Signal::SIGTRAP, 1)),
        Disposition::Retry
    );
    assert_eq!(classify(WaitResponse::PtraceSyscall), Disposition::Retry);
}

#[test]
fn a_resumption_is_retried() {
    assert_eq!(classify(WaitResponse::Continued), Disposition::Retry);
}

#[test]
fn no_change_is_retried() {
    assert_eq!(classify(WaitResponse::StillAlive), Disposition::Retry);
}

#[test]
fn an_interrupted_call_is_retried() {
    assert_eq!(classify(WaitResponse::Interrupted), Disposition::Retry);
}

#[test]
fn any_other_failure_is_fatal_and_keeps_its_error() {
    for errno in [Errno::ECHILD, Errno::EINVAL, Errno::EPERM, Errno::UnknownErrno] {
        assert_eq!(classify(WaitResponse::Failed(errno)), Disposition::Fatal(errno));
    }
}
