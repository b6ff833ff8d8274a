use nix::errno::Errno;
use nix::sys::signal::Signal;
use northstar::handle::exit_handle;
use northstar::kernel::WaitResponse;
use northstar::status::{Event, ExitStatus};
use northstar::watcher::{Action, Fatal, Feedback, Phase, Watcher};
use tokio::process::{Child, Command};
use tokio::runtime::Builder;
use tokio::sync::mpsc;

fn watch(name: &str, pid: u32) -> (Watcher, Vec<Feedback>, Option<ExitStatus>, Option<Event>) {
    let (signal, mut wait) = exit_handle();
    let (events, mut incoming) = mpsc::channel(10);
    let mut watcher = Watcher::new(name, pid);
    let got = watcher.drive(&signal, &events, usize::MAX);
    assert!(watcher.finished());
    (watcher, got, wait.try_recv().ok(), incoming.try_recv().ok())
}

/// Starts a shell on `script` and leaves the reaping to the caller.
fn shell(script: &str) -> (Child, u32) {
    let runtime = Builder::new_current_thread().enable_all().build().unwrap();
    let child = runtime.block_on(async { Command::new("sh").arg("-c").arg(script).spawn() });
    let child = child.unwrap();
    let pid = child.id().unwrap();
    (child, pid)
}

#[test]
fn a_process_that_is_no_child_cannot_be_watched() {
    // The first process of the system is nobody's child but the kernel's.
    let (watcher, got, signalled, reported) = watch("init", 1);
    assert_eq!(got, vec![Feedback::Waited(WaitResponse::Failed(Errno::ECHILD))]);
    assert_eq!(watcher.phase, Phase::Aborted(Fatal::Wait(Errno::ECHILD)));
    assert_eq!(watcher.verdict(), Some(Err(Fatal::Wait(Errno::ECHILD))));
    assert_eq!(signalled, None);
    assert_eq!(reported, None);
}

#[test]
fn a_child_that_exits_with_0_is_reaped_as_such() {
    let (_child, pid) = shell("exit 0");
    let (watcher, got, signalled, reported) = watch("zero", pid);
    assert_eq!(got.last(), Some(&Feedback::Reported(true)));
    assert_eq!(watcher.verdict(), Some(Ok(ExitStatus::Exit(0))));
    assert_eq!(signalled, Some(ExitStatus::Exit(0)));
    assert_eq!(reported, Some(Event::Exit("zero".to_string(), ExitStatus::Exit(0))));
}

#[test]
fn a_child_that_exits_with_17_is_reaped_as_such() {
    let (_child, pid) = shell("exit 17");
    let (watcher, got, signalled, reported) = watch("seventeen", pid);
    assert_eq!(
        &got[got.len() - 3..],
        &[
            Feedback::Waited(WaitResponse::Exited(17)),
            Feedback::Notified(true),
            Feedback::Reported(true),
        ]
    );
    assert_eq!(watcher.verdict(), Some(Ok(ExitStatus::Exit(17))));
    assert_eq!(signalled, Some(ExitStatus::Exit(17)));
    assert_eq!(
        reported,
        Some(Event::Exit("seventeen".to_string(), ExitStatus::Exit(17)))
    );
}

#[test]
fn a_child_that_is_killed_is_reaped_with_its_signal() {
    let (_child, pid) = shell("kill -9 $$");
    let (watcher, got, signalled, reported) = watch("victim", pid);
    let killed = ExitStatus::Signaled(Signal::SIGKILL);
    assert!(got.contains(&Feedback::Waited(WaitResponse::Signaled(Signal::SIGKILL, false))));
    assert_eq!(watcher.verdict(), Some(Ok(killed)));
    assert_eq!(signalled, Some(killed));
    assert_eq!(reported, Some(Event::Exit("victim".to_string(), killed)));
}

#[test]
fn a_child_that_is_terminated_is_reaped_with_its_signal() {
    let (_child, pid) = shell("kill -15 $$");
    let (watcher, _, signalled, _) = watch("victim", pid);
    let terminated = ExitStatus::Signaled(Signal::SIGTERM);
    assert_eq!(watcher.verdict(), Some(Ok(terminated)));
    assert_eq!(signalled, Some(terminated));
}

#[test]
fn a_reaped_child_cannot_be_reaped_again() {
    let (_child, pid) = shell("exit 4");
    let (first, _, _, _) = watch("once", pid);
    assert_eq!(first.verdict(), Some(Ok(ExitStatus::Exit(4))));
    let (second, _, signalled, reported) = watch("once", pid);
    assert_eq!(second.verdict(), Some(Err(Fatal::Wait(Errno::ECHILD))));
    assert_eq!(signalled, None);
    assert_eq!(reported, None);
}

#[test]
fn a_drive_does_what_a_replay_of_its_log_asks_for() {
    let (_child, pid) = shell("exit 6");
    let (watcher, got, _, _) = watch("six", pid);
    let mut replayed = Watcher::new("six", pid);
    let script = replayed.replay(&got);
    assert_eq!(replayed, watcher);
    assert_eq!(script.len(), got.len());
    let tail = &script[script.len() - 2..];
    assert_eq!(tail[0], Action::Notify(ExitStatus::Exit(6)));
    assert_eq!(tail[1], Action::Report(Event::Exit("six".to_string(), ExitStatus::Exit(6))));
    for action in &script[..script.len() - 2] {
        assert_eq!(*action, Action::Wait(pid));
    }
}
