//! The watcher of one process: what it does next, and what it makes of what came back.
//!
//! A watcher is a small state machine. It asks for one thing at a time (a wait call, a
//! signal on the exit handle, a report to the event loop) and is told what came of it.
//! Reaping is a loop around it: ask, do, tell, until the watcher has nothing left to ask.

use crate::handle::{send_blocking, EventTx, ExitHandleSignal};
use crate::kernel::{classify, wait_for_change, Disposition, WaitResponse};
use crate::status::{Event, ExitStatus, Pid};
use nix::errno::Errno;
use vstd::prelude::*;

verus! {

/// Why a watcher gave up.
#[derive(Clone, Copy, Debug, PartialEq, Eq)]
pub enum Fatal {
    /// The wait call failed, and not by an interruption: the fate of the process is lost.
    Wait(Errno),
    /// The event loop did not take the report: the runtime is no longer listening.
    EventLoop,
}

/// How far a watcher has come.
#[derive(Clone, Copy, Debug, PartialEq, Eq)]
pub enum Phase {
    /// The process has not been seen to end.
    Waiting,
    /// The outcome is known; the exit handle has not been signalled.
    Notifying(ExitStatus),
    /// The exit handle has been signalled; the event loop has not been told.
    Reporting(ExitStatus),
    /// Both have been served.
    Done(ExitStatus),
    /// The watcher gave up.
    Aborted(Fatal),
}

/// What a watcher asks for.
#[derive(Debug, PartialEq, Eq)]
pub enum Action {
    /// Wait for the next state change of this process.
    Wait(Pid),
    /// Signal this outcome on the exit handle.
    Notify(ExitStatus),
    /// Send this event to the event loop.
    Report(Event),
    /// Nothing: the watcher is finished, and both handles can go.
    Halt,
}

/// What came of the action that a watcher asked for.
#[derive(Clone, Copy, Debug, PartialEq, Eq)]
pub enum Feedback {
    /// The kernel's answer to a wait call.
    Waited(WaitResponse),
    /// Whether the exit handle took the outcome; it does not where nobody waits any more.
    Notified(bool),
    /// Whether the event loop took the event.
    Reported(bool),
}

impl Feedback {
    /// Feedback answers the action that it is the result of.
    pub open spec fn answers(self, action: Action) -> bool {
        match self {
            Feedback::Waited(_) => action is Wait,
            Feedback::Notified(_) => action is Notify,
            Feedback::Reported(_) => action is Report,
        }
    }
}

/// The watcher of one process.
#[derive(Debug, PartialEq, Eq)]
pub struct Watcher {
    /// The name under which the runtime knows the process.
    pub name: String,
    /// The process, as the kernel knows it.
    pub pid: Pid,
    /// How far the watcher has come.
    pub phase: Phase,
}

impl Watcher {
    /// A watcher at its start.
    pub open spec fn is_fresh(self) -> bool {
        self.phase is Waiting
    }

    /// A watcher with nothing left to ask for.
    pub open spec fn is_finished(self) -> bool {
        self.phase is Done || self.phase is Aborted
    }

    /// What the watcher asks for in its present phase.
    pub open spec fn next_action(self) -> Action {
        match self.phase {
            Phase::Waiting => Action::Wait(self.pid),
            Phase::Notifying(status) => Action::Notify(status),
            Phase::Reporting(status) => Action::Report(Event::Exit(self.name, status)),
            Phase::Done(_) => Action::Halt,
            Phase::Aborted(_) => Action::Halt,
        }
    }

    /// The phase that follows on one piece of feedback. Feedback that does not answer
    /// what the watcher asked for changes nothing.
    pub open spec fn next_phase(self, feedback: Feedback) -> Phase {
        match (self.phase, feedback) {
            (Phase::Waiting, Feedback::Waited(response)) => match response.disposition() {
                Disposition::Retry => Phase::Waiting,
                Disposition::Terminal(status) => Phase::Notifying(status),
                Disposition::Fatal(errno) => Phase::Aborted(Fatal::Wait(errno)),
            },
            (Phase::Notifying(status), Feedback::Notified(_)) => Phase::Reporting(status),
            (Phase::Reporting(status), Feedback::Reported(taken)) => if taken {
                Phase::Done(status)
            } else {
                Phase::Aborted(Fatal::EventLoop)
            },
            _ => self.phase,
        }
    }

    /// The watcher after one piece of feedback.
    pub open spec fn after(self, feedback: Feedback) -> Watcher {
        Watcher { name: self.name, pid: self.pid, phase: self.next_phase(feedback) }
    }

    /// The watcher after a run of feedback, first to last.
    pub open spec fn after_all(self, feedback: Seq<Feedback>) -> Watcher
        decreases feedback.len(),
    {
        if feedback.len() == 0 {
            self
        } else {
            self.after_all(feedback.drop_last()).after(feedback.last())
        }
    }

    /// What the watcher asks for along a run of feedback: entry `i` is what it asked for
    /// before it was given `feedback[i]`.
    pub open spec fn script(self, feedback: Seq<Feedback>) -> Seq<Action> {
        Seq::new(feedback.len(), |i: int| self.after_all(feedback.take(i)).next_action())
    }

    /// A run is faithful where each piece of feedback answers what the watcher asked for.
    pub open spec fn faithful(self, feedback: Seq<Feedback>) -> bool {
        forall|i: int|
            0 <= i < feedback.len() ==> (#[trigger] feedback[i]).answers(
                self.after_all(feedback.take(i)).next_action(),
            )
    }

    /// What the watcher has to show for itself: nothing while it is at work, then the
    /// outcome that it delivered or the reason why it gave up.
    pub open spec fn verdict_spec(self) -> Option<Result<ExitStatus, Fatal>> {
        match self.phase {
            Phase::Done(status) => Some(Ok(status)),
            Phase::Aborted(fatal) => Some(Err(fatal)),
            _ => None,
        }
    }

    /// A watcher for the process `pid`, which the runtime knows as `name`.
    pub fn new(name: &str, pid: Pid) -> (watcher: Watcher)
        ensures
            watcher.name@ == name@,
            watcher.pid == pid,
            watcher.phase == Phase::Waiting,
    {
        Watcher { name: name.to_owned(), pid, phase: Phase::Waiting }
    }

    /// What the watcher asks for next.
    pub fn pending(&self) -> (action: Action)
        ensures
            action == self.next_action(),
    {
        match self.phase {
            Phase::Waiting => Action::Wait(self.pid),
            Phase::Notifying(status) => Action::Notify(status),
            Phase::Reporting(status) => Action::Report(Event::Exit(self.name.clone(), status)),
            Phase::Done(_) => Action::Halt,
            Phase::Aborted(_) => Action::Halt,
        }
    }

    /// Whether the watcher has nothing left to ask for.
    pub fn finished(&self) -> (finished: bool)
        ensures
            finished == self.is_finished(),
    {
        match self.phase {
            Phase::Done(_) => true,
            Phase::Aborted(_) => true,
            _ => false,
        }
    }

    /// The outcome that the watcher delivered, or the reason why it gave up; nothing
    /// while it is at work.
    pub fn verdict(&self) -> (verdict: Option<Result<ExitStatus, Fatal>>)
        ensures
            verdict == self.verdict_spec(),
    {
        match self.phase {
            Phase::Done(status) => Some(Ok(status)),
            Phase::Aborted(fatal) => Some(Err(fatal)),
            _ => None,
        }
    }

    /// Takes what came of the pending action, and tells whether it answered that action.
    /// Feedback that does not is dropped.
    pub fn handle(&mut self, feedback: Feedback) -> (taken: bool)
        ensures
            *final(self) == old(self).after(feedback),
            taken == feedback.answers(old(self).next_action()),
    {
        match (self.phase, feedback) {
            (Phase::Waiting, Feedback::Waited(response)) => {
                match classify(response) {
                    Disposition::Retry => {},
                    Disposition::Terminal(status) => {
                        self.phase = Phase::Notifying(status);
                    },
                    Disposition::Fatal(errno) => {
                        self.phase = Phase::Aborted(Fatal::Wait(errno));
                    },
                }
                true
            },
            (Phase::Notifying(status), Feedback::Notified(_)) => {
                // Whether anybody still waits on the handle is not the watcher's concern.
                self.phase = Phase::Reporting(status);
                true
            },
            (Phase::Reporting(status), Feedback::Reported(taken)) => {
                if taken {
                    self.phase = Phase::Done(status);
                } else {
                    self.phase = Phase::Aborted(Fatal::EventLoop);
                }
                true
            },
            _ => false,
        }
    }

    /// Does what the watcher asks for next, against the kernel and the two channels, and
    /// takes what comes of it: one wait call, or one signal on `exit_handle`, or one
    /// report to `event_handle`. It gives back what came of it; a finished watcher does
    /// nothing and gives back nothing. Whatever the kernel and the channels answer, the
    /// watcher ends up where that answer leads.
    ///
    /// The call blocks as long as the kernel or a full channel takes, so it belongs on a
    /// thread that may block.
    pub fn advance(&mut self, exit_handle: &ExitHandleSignal, event_handle: &EventTx) -> (got:
        Option<Feedback>)
        ensures
            got is None <==> old(self).is_finished(),
            got is None ==> *final(self) == *old(self),
            got matches Some(feedback) ==> feedback.answers(old(self).next_action())
                && *final(self) == old(self).after(feedback),
    {
        let feedback = match self.pending() {
            Action::Wait(pid) => Feedback::Waited(wait_for_change(pid)),
            Action::Notify(status) => Feedback::Notified(send_blocking(exit_handle, status)),
            Action::Report(event) => Feedback::Reported(send_blocking(event_handle, event)),
            Action::Halt => {
                return None;
            },
        };
        self.handle(feedback);
        Some(feedback)
    }

    /// Drives the watcher towards its end: step after step as `advance` takes them, until
    /// the watcher is finished or `budget` steps are taken, whichever comes first. It
    /// gives back what came of each step, in order. The steps form a faithful run, so what
    /// holds of every faithful run holds of what this call did.
    pub fn drive(
        &mut self,
        exit_handle: &ExitHandleSignal,
        event_handle: &EventTx,
        budget: usize,
    ) -> (log: Vec<Feedback>)
        ensures
            log@.len() <= budget,
            old(self).faithful(log@),
            *final(self) == old(self).after_all(log@),
            final(self).is_finished() || log@.len() == budget,
    {
        let mut log: Vec<Feedback> = Vec::new();
        while log.len() < budget
            invariant
                log@.len() <= budget,
                old(self).faithful(log@),
                *self == old(self).after_all(log@),
            decreases budget - log@.len(),
        {
            match self.advance(exit_handle, event_handle) {
                None => {
                    return log;
                },
                Some(feedback) => {
                    proof {
                        lemma_faithful_extends(*old(self), log@, feedback);
                    }
                    log.push(feedback);
                },
            }
        }
        log
    }

    /// Runs the watcher on recorded feedback, first to last, and gives back what it asked
    /// for before each piece.
    pub fn replay(&mut self, feedback: &Vec<Feedback>) -> (script: Vec<Action>)
        ensures
            *final(self) == old(self).after_all(feedback@),
            script@ == old(self).script(feedback@),
    {
        let mut script: Vec<Action> = Vec::new();
        let mut i: usize = 0;
        while i < feedback.len()
            invariant
                i <= feedback.len(),
                *self == old(self).after_all(feedback@.take(i as int)),
                script@ == old(self).script(feedback@.take(i as int)),
            decreases feedback.len() - i,
        {
            proof {
                lemma_run_extends(*old(self), feedback@, i as int);
            }
            script.push(self.pending());
            self.handle(feedback[i]);
            i += 1;
        }
        assert(feedback@.take(i as int) == feedback@);
        script
    }
}

/// A faithful run stays faithful when it grows by feedback that answers what the watcher
/// asked for at its end, and then leads one step on from there.
pub proof fn lemma_faithful_extends(watcher: Watcher, feedback: Seq<Feedback>, next: Feedback)
    requires
        watcher.faithful(feedback),
        next.answers(watcher.after_all(feedback).next_action()),
    ensures
        watcher.faithful(feedback.push(next)),
        watcher.after_all(feedback.push(next)) == watcher.after_all(feedback).after(next),
{
    let longer = feedback.push(next);
    assert(longer.drop_last() == feedback);
    assert forall|i: int| 0 <= i < longer.len() implies (#[trigger] longer[i]).answers(
        watcher.after_all(longer.take(i)).next_action(),
    ) by {
        if i < feedback.len() {
            assert(longer.take(i) == feedback.take(i));
            assert(longer[i] == feedback[i]);
        } else {
            assert(longer.take(i) == feedback);
        }
    }
}

/// A run of `i + 1` pieces of feedback is the run of the first `i`, one step on; and its
/// script is the script of the first `i`, with the action asked for then at its end.
pub proof fn lemma_run_extends(watcher: Watcher, feedback: Seq<Feedback>, i: int)
    requires
        0 <= i < feedback.len(),
    ensures
        watcher.after_all(feedback.take(i + 1)) == watcher.after_all(feedback.take(i)).after(
            feedback[i],
        ),
        watcher.script(feedback.take(i + 1)) == watcher.script(feedback.take(i)).push(
            watcher.after_all(feedback.take(i)).next_action(),
        ),
{
    let longer = feedback.take(i + 1);
    assert(longer.drop_last() == feedback.take(i));
    assert(longer.last() == feedback[i]);
    assert forall|k: int| 0 <= k <= i implies #[trigger] longer.take(k) == feedback.take(k) by {}
    assert forall|k: int| 0 <= k < i implies #[trigger] feedback.take(i).take(k) == feedback.take(
        k,
    ) by {}
    assert(watcher.script(longer) =~= watcher.script(feedback.take(i)).push(
        watcher.after_all(feedback.take(i)).next_action(),
    ));
}

} // verus!
