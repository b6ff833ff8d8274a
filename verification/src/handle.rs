//! The exit handle of one process, and the channels that carry outcomes away.

use crate::status::{Event, ExitStatus};
use tokio::sync::mpsc::{channel, Receiver, Sender};
use vstd::prelude::*;

verus! {

/// tokio's `mpsc::Sender`: the sending half of a bounded channel.
#[verifier::external_type_specification]
#[verifier::external_body]
#[verifier::reject_recursive_types(T)]
pub struct ExSender<T>(Sender<T>);

/// tokio's `mpsc::Receiver`: the receiving half of a bounded channel.
#[verifier::external_type_specification]
#[verifier::external_body]
#[verifier::reject_recursive_types(T)]
pub struct ExReceiver<T>(Receiver<T>);

/// The half of an exit handle that the watcher signals on.
pub type ExitHandleSignal = Sender<ExitStatus>;

/// The half of an exit handle that an interested party waits on.
pub type ExitHandleWait = Receiver<ExitStatus>;

/// The way to the runtime's event loop.
pub type EventTx = Sender<Event>;

/// The number of values that the channel behind an exit handle holds at most: the bound
/// that tokio's `channel` was given when it made the channel, which `max_capacity`
/// reports of either half for as long as the channel lives.
pub uninterp spec fn slots(signal: ExitHandleSignal) -> nat;

/// tokio's `mpsc::channel`, for outcomes. It panics on a bound of 0 and on one above
/// `usize::MAX >> 3`, which `requires` leaves out; the channel it makes holds up to
/// `bound` values.
#[verifier::external_body]
fn outcome_channel(bound: usize) -> (pair: (ExitHandleSignal, ExitHandleWait))
    requires
        0 < bound <= usize::MAX / 8,
    ensures
        slots(pair.0) == bound,
{
    channel(bound)
}

/// tokio's `Sender::blocking_send`: blocks the calling thread until the channel has room
/// for `value` or is closed, and tells whether the channel took it. Nothing is claimed of
/// the answer: it depends on the receiving side. tokio lets the call panic on a thread
/// that drives asynchronous tasks.
#[verifier::external_body]
pub(crate) fn send_blocking<T>(sender: &Sender<T>, value: T) -> (taken: bool) {
    sender.blocking_send(value).is_ok()
}

/// Makes the exit handle of one process: a pair of which the first half signals and the
/// second waits, with room for the one outcome that a process has.
pub fn exit_handle() -> (pair: (ExitHandleSignal, ExitHandleWait))
    ensures
        slots(pair.0) == 1,
{
    outcome_channel(1)
}

} // verus!
