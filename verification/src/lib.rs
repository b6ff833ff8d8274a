//! Process-exit supervision: reaping a child process, classifying how it
//! ended, and publishing that outcome to its exit handle and to the runtime's
//! event loop, in that order and once.
//!
//! - [`status`]: how a process ended, and the event that reports it.
//! - [`kernel`]: one answer of the kernel to a wait call, and its classification.
//! - [`handle`]: the exit handle of a process and the channels behind it.
//! - [`watcher`]: the watcher of one process, as a state machine and as a driver.
//! - [`laws`]: what holds of every run of a watcher.

pub mod handle;
pub mod kernel;
pub mod laws;
pub mod status;
pub mod watcher;

pub use handle::{exit_handle, EventTx, ExitHandleSignal, ExitHandleWait};
pub use status::{Event, ExitCode, ExitStatus, Pid};
pub use watcher::Watcher;
