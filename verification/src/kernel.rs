//! One answer of the kernel to a wait call, and what it means for the watcher.

use crate::status::{ExitCode, ExitStatus, Pid};
use nix::errno::Errno;
use nix::sys::signal::Signal;
use nix::sys::wait::{waitpid, WaitStatus};
use vstd::prelude::*;

verus! {

/// nix's `Errno`: the error numbers of the host platform. Carried through, never inspected.
#[verifier::external_type_specification]
#[verifier::external_body]
pub struct ExErrno(Errno);

/// What one wait call on one process came back with: the kernel's vocabulary as the
/// watcher reads it. An interrupted call is an answer of its own, not a failure.
#[derive(Clone, Copy, Debug, PartialEq, Eq)]
pub enum WaitResponse {
    /// The process exited normally with the given code.
    Exited(ExitCode),
    /// The process was killed by the given signal; the flag tells whether it dumped core.
    Signaled(Signal, bool),
    /// The process is alive, but was stopped by the given signal.
    Stopped(Signal),
    /// The traced process was stopped by a trace event of the given kind.
    PtraceEvent(Signal, i32),
    /// The traced process was stopped on entering or leaving a system call.
    PtraceSyscall,
    /// The process resumed after a stop.
    Continued,
    /// There is no state change to report.
    StillAlive,
    /// The wait call was interrupted by a signal to the caller.
    Interrupted,
    /// The wait call failed, and not by an interruption.
    Failed(Errno),
}

/// nix's `waitpid`, called once on the process `pid` with no flags; the number goes to
/// the kernel through nix's `Pid::from_raw`, as the signed number that the kernel knows.
/// The call blocks until the kernel has something to report. Its answer comes back in the
/// library's own terms, variant for variant; of nix's errors, `EINTR` is the interrupted
/// call. Nothing is claimed of the answer: it is the kernel's.
#[verifier::external_body]
pub(crate) fn wait_for_change(pid: Pid) -> WaitResponse {
    match waitpid(Some(nix::unistd::Pid::from_raw(pid as i32)), None) {
        Ok(WaitStatus::Exited(_, code)) => WaitResponse::Exited(code),
        Ok(WaitStatus::Signaled(_, signal, dumped)) => WaitResponse::Signaled(signal, dumped),
        Ok(WaitStatus::Stopped(_, signal)) => WaitResponse::Stopped(signal),
        Ok(WaitStatus::PtraceEvent(_, signal, event)) => WaitResponse::PtraceEvent(signal, event),
        Ok(WaitStatus::PtraceSyscall(_)) => WaitResponse::PtraceSyscall,
        Ok(WaitStatus::Continued(_)) => WaitResponse::Continued,
        Ok(WaitStatus::StillAlive) => WaitResponse::StillAlive,
        Err(Errno::EINTR) => WaitResponse::Interrupted,
        Err(errno) => WaitResponse::Failed(errno),
    }
}

/// What the watcher does about one answer of the kernel.
#[derive(Clone, Copy, Debug, PartialEq, Eq)]
pub enum Disposition {
    /// Nothing final has happened: wait again.
    Retry,
    /// The process is gone, and this is how it ended.
    Terminal(ExitStatus),
    /// The fate of the process can no longer be learnt.
    Fatal(Errno),
}

impl WaitResponse {
    /// The answers that say nothing final: stops, trace stops, resumption, no change, and
    /// an interrupted call.
    pub open spec fn is_transient(self) -> bool {
        self is Stopped || self is PtraceEvent || self is PtraceSyscall || self is Continued
            || self is StillAlive || self is Interrupted
    }

    /// How the process ended, for the two answers that say so.
    pub open spec fn outcome(self) -> Option<ExitStatus> {
        match self {
            WaitResponse::Exited(code) => Some(ExitStatus::Exit(code)),
            WaitResponse::Signaled(signal, _) => Some(ExitStatus::Signaled(signal)),
            _ => None,
        }
    }

    /// Every answer falls under exactly one disposition.
    pub open spec fn disposition(self) -> Disposition {
        match self {
            WaitResponse::Exited(code) => Disposition::Terminal(ExitStatus::Exit(code)),
            WaitResponse::Signaled(signal, _) => Disposition::Terminal(ExitStatus::Signaled(signal)),
            WaitResponse::Failed(errno) => Disposition::Fatal(errno),
            _ => Disposition::Retry,
        }
    }
}

/// Classifies one answer of the kernel.
pub fn classify(response: WaitResponse) -> (disposition: Disposition)
    ensures
        disposition == response.disposition(),
{
    match response {
        // The process exited normally, as with exit() or by returning from main.
        WaitResponse::Exited(code) => Disposition::Terminal(ExitStatus::Exit(code)),
        // The process was killed by the given signal; whether it dumped core is of no
        // interest here.
        WaitResponse::Signaled(signal, _) => Disposition::Terminal(ExitStatus::Signaled(signal)),
        // Alive but stopped: only reported to callers that asked for it.
        WaitResponse::Stopped(_) => Disposition::Retry,
        WaitResponse::PtraceEvent(_, _) => Disposition::Retry,
        WaitResponse::PtraceSyscall => Disposition::Retry,
        WaitResponse::Continued => Disposition::Retry,
        WaitResponse::StillAlive => Disposition::Retry,
        // The call itself was cut short: nothing has been learnt, ask again.
        WaitResponse::Interrupted => Disposition::Retry,
        WaitResponse::Failed(errno) => Disposition::Fatal(errno),
    }
}

/// The three kinds of answer exclude one another and leave nothing out: an answer is
/// transient exactly when it is retried, names an outcome exactly when it is terminal,
/// and is fatal exactly when it is a failure other than an interruption.
pub proof fn lemma_disposition_total(response: WaitResponse)
    ensures
        response.is_transient() <==> response.disposition() == Disposition::Retry,
        response.outcome() matches Some(status) ==> response.disposition()
            == Disposition::Terminal(status),
        response.outcome() is None ==> !(response.disposition() is Terminal),
        response is Failed <==> response.disposition() is Fatal,
        response.is_transient() || response.outcome() is Some || response is Failed,
{
}

} // verus!
