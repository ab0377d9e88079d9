//! Failures a recording session can end with.

use vstd::prelude::*;

verus! {

/// The part of the supervisor's surroundings on which an operation failed.
#[derive(Clone, Copy, Debug, PartialEq, Eq, Structural)]
pub enum Endpoint {
    /// The master side of the pseudo-terminal.
    Master,
    /// The controlling terminal.
    Tty,
    /// The stream of pending signals.
    Signals,
    /// The readiness poller.
    Poller,
    /// The child process, when waiting for it to end.
    Child,
}

/// Why a session, or the preparation of one, failed.
#[derive(Clone, Copy, Debug, PartialEq, Eq, Structural)]
pub enum Error {
    /// The locale does not declare UTF-8.
    NonUtf8Locale,
    /// There is no controlling terminal to open.
    CannotOpenTty,
    /// No pseudo-terminal pair could be allocated.
    PtyAllocationFailed,
    /// The child process could not be forked.
    ForkFailed,
    /// An unrecoverable error on the named endpoint.
    Io(Endpoint),
    /// The sink refused to start.
    Sink,
    /// The destination exists and neither appending nor overwriting was asked for.
    FileConflict,
}

} // verus!
