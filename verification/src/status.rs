//! How a supervised process ended, and the event that reports it.

use nix::sys::signal::Signal;
use vstd::prelude::*;

verus! {

/// nix's `Signal`: the signals of the host platform. Carried through, never inspected.
#[verifier::external_type_specification]
#[verifier::external_body]
pub struct ExSignal(Signal);

/// Status code with which a process left.
pub type ExitCode = i32;

/// Process identifier, as the operating system assigned it.
pub type Pid = u32;

/// How a process ended.
#[derive(Clone, Copy, Debug, PartialEq, Eq)]
pub enum ExitStatus {
    /// Process exited with exit code
    Exit(ExitCode),
    /// Process was terminated by a signal
    Signaled(Signal),
}

/// What the runtime's event loop is told.
#[derive(Debug, PartialEq, Eq)]
pub enum Event {
    /// The process of the given name is gone, and this is how it ended.
    Exit(String, ExitStatus),
}

impl Clone for Event {
    fn clone(&self) -> (copy: Event)
        ensures
            copy == *self,
    {
        match self {
            Event::Exit(name, status) => Event::Exit(name.clone(), *status),
        }
    }
}

} // verus!
