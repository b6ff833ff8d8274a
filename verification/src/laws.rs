//! What holds of every run of a watcher.

use crate::kernel::WaitResponse;
use crate::status::Event;
use crate::watcher::{lemma_run_extends, Action, Fatal, Feedback, Phase, Watcher};
use nix::errno::Errno;
use vstd::prelude::*;

verus! {

/// The feedback of a row of wait calls.
pub open spec fn waited(responses: Seq<WaitResponse>) -> Seq<Feedback> {
    Seq::new(responses.len(), |i: int| Feedback::Waited(responses[i]))
}

/// How far a phase is along the way from waiting to the end.
pub open spec fn progress(phase: Phase) -> nat {
    match phase {
        Phase::Waiting => 0,
        Phase::Notifying(_) => 1,
        Phase::Reporting(_) => 2,
        Phase::Done(_) => 3,
        Phase::Aborted(_) => 3,
    }
}

/// Two pieces of feedback that differ at most in whether the exit handle took the outcome.
pub open spec fn alike_but_for_the_listener(a: Feedback, b: Feedback) -> bool {
    a == b || (a is Notified && b is Notified)
}

/// A watcher keeps its name and its process through every run.
pub proof fn lemma_identity_kept(watcher: Watcher, feedback: Seq<Feedback>)
    ensures
        watcher.after_all(feedback).name == watcher.name,
        watcher.after_all(feedback).pid == watcher.pid,
    decreases feedback.len(),
{
    if feedback.len() > 0 {
        lemma_identity_kept(watcher, feedback.drop_last());
    }
}

/// No run takes a watcher back: between any two points of a run, the later phase is at
/// least as far along as the earlier.
pub proof fn lemma_never_back(watcher: Watcher, feedback: Seq<Feedback>, i: int, j: int)
    requires
        0 <= i <= j <= feedback.len(),
    ensures
        progress(watcher.after_all(feedback.take(i)).phase) <= progress(
            watcher.after_all(feedback.take(j)).phase,
        ),
    decreases j - i,
{
    if i < j {
        lemma_never_back(watcher, feedback, i, j - 1);
        lemma_run_extends(watcher, feedback, j - 1);
    }
}

/// While the kernel's answers are transient, the watcher stays as it is, and so goes on
/// asking for a wait call.
pub proof fn lemma_transients_change_nothing(watcher: Watcher, transients: Seq<WaitResponse>)
    requires
        watcher.is_fresh(),
        forall|i: int| 0 <= i < transients.len() ==> (#[trigger] transients[i]).is_transient(),
    ensures
        watcher.after_all(waited(transients)) == watcher,
    decreases transients.len(),
{
    if transients.len() > 0 {
        lemma_transients_change_nothing(watcher, transients.drop_last());
        assert(waited(transients).drop_last() == waited(transients.drop_last()));
        assert(waited(transients).last() == Feedback::Waited(transients.last()));
        assert(transients.last() == transients[transients.len() - 1]);
    }
}

/// The watcher retries on every transient answer and settles on the first terminal one,
/// never earlier. Given any row of transient answers and a terminal answer behind them:
/// after each part of the row the watcher is as it was at the start; along the whole run
/// it asks for nothing but a wait call, once at the start and once for each transient
/// answer; and after the terminal answer it holds the outcome that this answer names,
/// and asks to signal it on the exit handle.
pub proof fn lemma_retries_until_terminal(
    watcher: Watcher,
    transients: Seq<WaitResponse>,
    last: WaitResponse,
)
    requires
        watcher.is_fresh(),
        forall|i: int| 0 <= i < transients.len() ==> (#[trigger] transients[i]).is_transient(),
        last.outcome() is Some,
    ensures
        forall|k: int|
            0 <= k <= transients.len() ==> watcher.after_all(
                #[trigger] waited(transients.push(last)).take(k),
            ) == watcher,
        watcher.script(waited(transients.push(last))) == Seq::new(
            transients.len() + 1,
            |i: int| Action::Wait(watcher.pid),
        ),
        watcher.after_all(waited(transients.push(last))).phase == Phase::Notifying(
            last.outcome().unwrap(),
        ),
        watcher.after_all(waited(transients.push(last))).next_action() == Action::Notify(
            last.outcome().unwrap(),
        ),
{
    let run = waited(transients.push(last));
    assert forall|k: int| 0 <= k <= transients.len() implies watcher.after_all(
        #[trigger] run.take(k),
    ) == watcher by {
        assert(run.take(k) == waited(transients.take(k)));
        lemma_transients_change_nothing(watcher, transients.take(k));
    }
    assert(run.drop_last() == run.take(transients.len() as int));
    assert(run.last() == Feedback::Waited(last));
    assert(watcher.script(run) =~= Seq::new(
        transients.len() + 1,
        |i: int| Action::Wait(watcher.pid),
    ));
}

/// The watcher signals at most one outcome on the exit handle, reports at most one event
/// to the event loop, and serves the exit handle first. In every faithful run of a fresh
/// watcher: it asks at most once to signal the exit handle and at most once to report;
/// where it asks to report, it asked to signal the exit handle just before, and the event
/// carries its own name and the outcome that was signalled; and where the run ends with
/// the watcher done, its last two requests were that signal and that report, for the
/// outcome in its verdict.
pub proof fn lemma_one_outcome_handle_first(watcher: Watcher, feedback: Seq<Feedback>)
    requires
        watcher.is_fresh(),
        watcher.faithful(feedback),
    ensures
        forall|i: int, j: int|
            #![trigger watcher.script(feedback)[i], watcher.script(feedback)[j]]
            0 <= i < j < feedback.len() ==> !(watcher.script(feedback)[i] is Notify
                && watcher.script(feedback)[j] is Notify),
        forall|i: int, j: int|
            #![trigger watcher.script(feedback)[i], watcher.script(feedback)[j]]
            0 <= i < j < feedback.len() ==> !(watcher.script(feedback)[i] is Report
                && watcher.script(feedback)[j] is Report),
        forall|j: int|
            0 <= j < feedback.len() && (#[trigger] watcher.script(feedback)[j]) is Report ==> {
                &&& j > 0
                &&& watcher.script(feedback)[j - 1] is Notify
                &&& watcher.script(feedback)[j] == Action::Report(
                    Event::Exit(watcher.name, watcher.script(feedback)[j - 1]->Notify_0),
                )
            },
        watcher.after_all(feedback).phase matches Phase::Done(status) ==> {
            &&& feedback.len() >= 2
            &&& watcher.script(feedback)[feedback.len() - 2] == Action::Notify(status)
            &&& watcher.script(feedback)[feedback.len() - 1] == Action::Report(
                Event::Exit(watcher.name, status),
            )
        },
{
    let script = watcher.script(feedback);
    assert forall|i: int, j: int|
        #![trigger script[i], script[j]]
        0 <= i < j < feedback.len() implies !(script[i] is Notify && script[j] is Notify) by {
        if script[i] is Notify {
            lemma_moves_on(watcher, feedback, i, j);
        }
    }
    assert forall|i: int, j: int|
        #![trigger script[i], script[j]]
        0 <= i < j < feedback.len() implies !(script[i] is Report && script[j] is Report) by {
        if script[i] is Report {
            lemma_moves_on(watcher, feedback, i, j);
        }
    }
    assert forall|j: int| 0 <= j < feedback.len() && (#[trigger] script[j]) is Report implies {
        &&& j > 0
        &&& script[j - 1] is Notify
        &&& script[j] == Action::Report(Event::Exit(watcher.name, script[j - 1]->Notify_0))
    } by {
        lemma_reported_after_notified(watcher, feedback, j);
    }
    if watcher.after_all(feedback).phase is Done {
        lemma_done_after_report(watcher, feedback);
    }
}

/// In a faithful run, a watcher that asks to signal the exit handle, or to report, is
/// further along at every later point: it does not ask for the same kind of thing again.
proof fn lemma_moves_on(watcher: Watcher, feedback: Seq<Feedback>, i: int, j: int)
    requires
        watcher.faithful(feedback),
        0 <= i < j < feedback.len(),
        watcher.script(feedback)[i] is Notify || watcher.script(feedback)[i] is Report,
    ensures
        progress(watcher.after_all(feedback.take(i)).phase) < progress(
            watcher.after_all(feedback.take(j)).phase,
        ),
        watcher.script(feedback)[i] is Notify ==> !(watcher.script(feedback)[j] is Notify),
        watcher.script(feedback)[i] is Report ==> !(watcher.script(feedback)[j] is Report),
{
    let before = watcher.after_all(feedback.take(i));
    assert(feedback[i].answers(before.next_action()));
    lemma_run_extends(watcher, feedback, i);
    assert(progress(before.phase) < progress(before.after(feedback[i]).phase));
    lemma_never_back(watcher, feedback, i + 1, j);
}

/// A faithful run of a fresh watcher that ends with the watcher done has at least two
/// steps, and the last two are the signal on the exit handle and the report, for the
/// outcome that the watcher ends with.
proof fn lemma_done_after_report(watcher: Watcher, feedback: Seq<Feedback>)
    requires
        watcher.is_fresh(),
        watcher.faithful(feedback),
        watcher.after_all(feedback).phase is Done,
    ensures
        feedback.len() >= 2,
        watcher.script(feedback)[feedback.len() - 2] == Action::Notify(
            watcher.after_all(feedback).phase->Done_0,
        ),
        watcher.script(feedback)[feedback.len() - 1] == Action::Report(
            Event::Exit(watcher.name, watcher.after_all(feedback).phase->Done_0),
        ),
{
    let n = feedback.len() as int;
    assert(feedback.take(n) == feedback);
    if n == 0 {
        assert(watcher.after_all(feedback) == watcher);
    }
    let before = watcher.after_all(feedback.take(n - 1));
    lemma_run_extends(watcher, feedback, n - 1);
    assert(feedback[n - 1].answers(before.next_action()));
    assert(before.phase is Reporting);
    lemma_reported_after_notified(watcher, feedback, n - 1);
}

/// Where a faithful run of a fresh watcher asks to report, it asked to signal the exit
/// handle one step before, for the outcome that the event carries.
proof fn lemma_reported_after_notified(watcher: Watcher, feedback: Seq<Feedback>, j: int)
    requires
        watcher.is_fresh(),
        watcher.faithful(feedback),
        0 <= j < feedback.len(),
        watcher.script(feedback)[j] is Report,
    ensures
        j > 0,
        watcher.script(feedback)[j - 1] is Notify,
        watcher.script(feedback)[j] == Action::Report(
            Event::Exit(watcher.name, watcher.script(feedback)[j - 1]->Notify_0),
        ),
        watcher.after_all(feedback.take(j)).phase == Phase::Reporting(
            watcher.script(feedback)[j - 1]->Notify_0,
        ),
{
    let at = watcher.after_all(feedback.take(j));
    if j == 0 {
        assert(feedback.take(0).len() == 0);
        assert(at == watcher);
    }
    let before = watcher.after_all(feedback.take(j - 1));
    lemma_run_extends(watcher, feedback, j - 1);
    assert(feedback[j - 1].answers(before.next_action()));
    assert(at == before.after(feedback[j - 1]));
    assert(before.phase is Notifying);
    lemma_identity_kept(watcher, feedback.take(j));
    lemma_identity_kept(watcher, feedback.take(j - 1));
}

/// The watcher makes up no outcome. Where a faithful run of a fresh watcher asks to signal
/// an outcome on the exit handle, the kernel's answer just before named that outcome, and
/// every answer before that one was transient.
pub proof fn lemma_outcome_is_the_kernels(watcher: Watcher, feedback: Seq<Feedback>, j: int)
    requires
        watcher.is_fresh(),
        watcher.faithful(feedback),
        0 <= j < feedback.len(),
        watcher.script(feedback)[j] is Notify,
    ensures
        j > 0,
        feedback[j - 1] matches Feedback::Waited(last) && last.outcome() == Some(
            watcher.script(feedback)[j]->Notify_0,
        ),
        forall|i: int|
            0 <= i < j - 1 ==> ((#[trigger] feedback[i]) matches Feedback::Waited(earlier)
                && earlier.is_transient()),
{
    assert(feedback.take(0).len() == 0);
    assert forall|i: int| 0 <= i < j implies watcher.after_all(#[trigger] feedback.take(i)).phase
        is Waiting by {
        let at = watcher.after_all(feedback.take(i));
        lemma_never_back(watcher, feedback, i, j);
        if at.phase is Notifying {
            lemma_moves_on(watcher, feedback, i, j);
        }
    }
    assert(watcher.after_all(feedback.take(j - 1)).phase is Waiting);
    lemma_run_extends(watcher, feedback, j - 1);
    assert(feedback[j - 1].answers(watcher.after_all(feedback.take(j - 1)).next_action()));
    assert forall|i: int| 0 <= i < j - 1 implies ((#[trigger] feedback[i]) matches Feedback::Waited(
        earlier,
    ) && earlier.is_transient()) by {
        assert(watcher.after_all(feedback.take(i)).phase is Waiting);
        assert(watcher.after_all(feedback.take(i + 1)).phase is Waiting);
        lemma_run_extends(watcher, feedback, i);
        assert(feedback[i].answers(watcher.after_all(feedback.take(i)).next_action()));
    }
}

/// Whether anybody still waits on the exit handle makes no difference to the watcher. Two
/// runs that differ at most in whether the exit handle took the outcome lead the same
/// watcher to the same end, and along them it asks for the same things: the same report
/// goes to the event loop, and nothing turns into a failure.
pub proof fn lemma_listener_is_immaterial(
    watcher: Watcher,
    heard: Seq<Feedback>,
    unheard: Seq<Feedback>,
)
    requires
        heard.len() == unheard.len(),
        forall|i: int|
            0 <= i < heard.len() ==> alike_but_for_the_listener(
                #[trigger] heard[i],
                unheard[i],
            ),
    ensures
        watcher.after_all(heard) == watcher.after_all(unheard),
        watcher.script(heard) == watcher.script(unheard),
    decreases heard.len(),
{
    if heard.len() > 0 {
        lemma_listener_is_immaterial(watcher, heard.drop_last(), unheard.drop_last());
        assert(alike_but_for_the_listener(heard[heard.len() - 1], unheard[heard.len() - 1]));
    }
    assert forall|i: int| 0 <= i < heard.len() implies watcher.after_all(heard.take(i))
        == watcher.after_all(unheard.take(i)) by {
        lemma_listener_is_immaterial(watcher, heard.take(i), unheard.take(i));
    }
    assert(watcher.script(heard) =~= watcher.script(unheard));
}

/// A wait call that fails for good makes the watcher give up with nothing published. Given
/// any row of transient answers, a failure behind them, and whatever feedback may follow:
/// the watcher ends aborted with that failure as its reason, and along the whole run it
/// asks only for wait calls, up to the failure, and for nothing after it; it never asks
/// to signal the exit handle or to report to the event loop.
pub proof fn lemma_failed_wait_publishes_nothing(
    watcher: Watcher,
    transients: Seq<WaitResponse>,
    errno: Errno,
    rest: Seq<Feedback>,
)
    requires
        watcher.is_fresh(),
        forall|i: int| 0 <= i < transients.len() ==> (#[trigger] transients[i]).is_transient(),
    ensures
        ({
            let run = waited(transients.push(WaitResponse::Failed(errno))) + rest;
            &&& watcher.after_all(run).phase == Phase::Aborted(Fatal::Wait(errno))
            &&& watcher.after_all(run).verdict_spec() == Some(
                Err::<crate::status::ExitStatus, Fatal>(Fatal::Wait(errno)),
            )
            &&& forall|i: int|
                0 <= i < run.len() ==> #[trigger] watcher.script(run)[i] == if i
                    <= transients.len() {
                    Action::Wait(watcher.pid)
                } else {
                    Action::Halt
                }
        }),
{
    let failed = waited(transients.push(WaitResponse::Failed(errno)));
    let run = failed + rest;
    let n = transients.len() as int;
    assert forall|k: int| 0 <= k <= run.len() implies (#[trigger] watcher.after_all(
        run.take(k),
    )).phase == if k <= n {
        Phase::Waiting
    } else {
        Phase::Aborted(Fatal::Wait(errno))
    } && watcher.after_all(run.take(k)).pid == watcher.pid by {
        lemma_identity_kept(watcher, run.take(k));
        if k <= n {
            assert(run.take(k) == waited(transients.take(k)));
            lemma_transients_change_nothing(watcher, transients.take(k));
        } else {
            assert(run.take(n) == waited(transients));
            lemma_transients_change_nothing(watcher, transients);
            lemma_run_extends(watcher, run, n);
            lemma_aborted_for_good(watcher, run, n + 1, k, Fatal::Wait(errno));
        }
    }
    assert(run.take(run.len() as int) == run);
}

/// A watcher that has given up stays so, whatever it is told.
proof fn lemma_aborted_for_good(
    watcher: Watcher,
    feedback: Seq<Feedback>,
    i: int,
    j: int,
    fatal: Fatal,
)
    requires
        0 <= i <= j <= feedback.len(),
        watcher.after_all(feedback.take(i)).phase == Phase::Aborted(fatal),
    ensures
        watcher.after_all(feedback.take(j)).phase == Phase::Aborted(fatal),
    decreases j - i,
{
    if i < j {
        lemma_aborted_for_good(watcher, feedback, i, j - 1, fatal);
        lemma_run_extends(watcher, feedback, j - 1);
    }
}

} // verus!
