//! What passes between a session and the driver that performs its commands.
//!
//! A [`Session`](super::session::Session) never touches a device. It issues a
//! [`Command`]; the driver carries it out and reports a [`Reply`]; the
//! session answers with the next command.

use vstd::prelude::*;
use crate::error::Error;
use crate::pty::size::WindowSize;
use crate::pty::status::ChildStatus;

verus! {

/// Size of the scratch buffer a driver reads into and the most it should ask
/// a single read for: 128 KiB.
pub const SCRATCH_SIZE: usize = 131072;

/// Number of readiness events a driver should be able to take from one wait.
pub const EVENT_CAPACITY: usize = 128;

/// One of the three things the poller watches.
#[derive(Clone, Copy, Debug, PartialEq, Eq, Structural)]
pub enum Source {
    /// The master side of the pseudo-terminal.
    Master,
    /// The controlling terminal, in raw mode.
    Tty,
    /// The stream of pending signals.
    Signal,
}

impl Source {
    /// The token under which the source is registered with the poller.
    pub open spec fn spec_token(self) -> usize {
        match self {
            Source::Master => 0,
            Source::Tty => 1,
            Source::Signal => 2,
        }
    }

    /// The source registered under `token`, if there is one.
    pub open spec fn spec_from_token(token: usize) -> Option<Source> {
        if token == 0 {
            Some(Source::Master)
        } else if token == 1 {
            Some(Source::Tty)
        } else if token == 2 {
            Some(Source::Signal)
        } else {
            None
        }
    }

    /// The token under which the source is registered with the poller:
    /// 0 for the master, 1 for the terminal, 2 for the signals.
    #[verifier::when_used_as_spec(spec_token)]
    pub fn token(self) -> (t: usize)
        ensures
            t == self.spec_token(),
            Self::spec_from_token(t) == Some(self),
    {
        match self {
            Source::Master => 0,
            Source::Tty => 1,
            Source::Signal => 2,
        }
    }

    /// The source registered under `token`; `None` for a token that no
    /// source was registered under.
    #[verifier::when_used_as_spec(spec_from_token)]
    pub fn from_token(token: usize) -> (r: Option<Source>)
        ensures
            r == Self::spec_from_token(token),
            r matches Some(source) ==> source.spec_token() == token,
            r is None <==> token > 2,
    {
        if token == 0 {
            Some(Source::Master)
        } else if token == 1 {
            Some(Source::Tty)
        } else if token == 2 {
            Some(Source::Signal)
        } else {
            None
        }
    }
}

/// The readiness a source is registered for. Every source is always watched
/// for reading; it is watched for writing only while bytes are queued for it.
#[derive(Clone, Copy, Debug, PartialEq, Eq, Structural)]
pub enum Interest {
    /// Readable only: nothing is queued for the source.
    Read,
    /// Readable and writable: bytes are queued for the source.
    ReadWrite,
}

impl Interest {
    /// Whether the interest includes writability.
    pub open spec fn spec_wants_write(self) -> bool {
        self == Interest::ReadWrite
    }

    /// Whether the interest includes writability.
    #[verifier::when_used_as_spec(spec_wants_write)]
    pub fn wants_write(self) -> (b: bool)
        ensures
            b == self.spec_wants_write(),
    {
        match self {
            Interest::Read => false,
            Interest::ReadWrite => true,
        }
    }
}

/// One readiness event, as the poller reported it.
#[derive(Clone, Copy, Debug, PartialEq, Eq, Structural)]
pub struct Readiness {
    /// Token of the source the event is about.
    pub token: usize,
    pub readable: bool,
    pub writable: bool,
    /// The other end will send nothing more.
    pub read_closed: bool,
}

impl Readiness {
    /// An event that reports nothing, about the master.
    pub open spec fn spec_idle() -> Readiness {
        Readiness { token: 0, readable: false, writable: false, read_closed: false }
    }

    /// An event that reports nothing, about the master.
    #[verifier::when_used_as_spec(spec_idle)]
    pub fn idle() -> (r: Readiness)
        ensures
            r == Self::spec_idle(),
    {
        Readiness { token: 0, readable: false, writable: false, read_closed: false }
    }
}

/// A signal the supervisor was sent, as far as it tells signals apart.
#[derive(Clone, Copy, Debug, PartialEq, Eq, Structural)]
pub enum Signal {
    /// The terminal's window changed size.
    Winch,
    /// Interrupt from the keyboard.
    Int,
    /// Request to terminate.
    Term,
    /// Quit from the keyboard.
    Quit,
    /// The terminal hung up.
    Hup,
    /// Any other signal.
    Other,
}

impl Signal {
    /// Whether the signal ends the session.
    pub open spec fn spec_is_fatal(self) -> bool {
        self == Signal::Term || self == Signal::Quit || self == Signal::Hup
    }

    /// Whether the signal ends the session: true of `Term`, `Quit` and `Hup`.
    /// An interrupt is not fatal: the child gets its own from the terminal.
    #[verifier::when_used_as_spec(spec_is_fatal)]
    pub fn is_fatal(self) -> (b: bool)
        ensures
            b == self.spec_is_fatal(),
    {
        match self {
            Signal::Term => true,
            Signal::Quit => true,
            Signal::Hup => true,
            Signal::Winch => false,
            Signal::Int => false,
            Signal::Other => false,
        }
    }
}

/// What the session wants done next.
#[derive(Clone, Copy, Debug, PartialEq, Eq, Structural)]
pub enum Command {
    /// Open the controlling terminal for reading and writing.
    OpenTty,
    /// Ask the controlling terminal for its window size.
    MeasureTty,
    /// Call the sink's `start` with this size.
    RecordStart(WindowSize),
    /// Allocate a pseudo-terminal of this size and fork the child into it.
    Spawn(WindowSize),
    /// Create the readiness poller.
    OpenPoller,
    /// Save the terminal's line discipline and switch it to raw mode.
    EnterRawMode,
    /// Route window-change, interrupt, terminate, quit and hang-up signals
    /// into the signal stream.
    WatchSignals,
    /// Make the source's descriptor non-blocking.
    SetNonBlocking(Source),
    /// Register the source with the poller.
    Register(Source, Interest),
    /// Change what the source is registered for.
    Reregister(Source, Interest),
    /// Remove the source from the poller.
    Deregister(Source),
    /// Hand over the next readiness event, waiting for one without a
    /// timeout if none is at hand.
    Wait,
    /// Read once, without blocking, from the source into the scratch buffer.
    Read(Source),
    /// Write once, without blocking, the session's outgoing bytes to the source.
    Write(Source),
    /// Call the sink's `output` with the session's fresh bytes.
    RecordOutput,
    /// Call the sink's `input` with the session's fresh bytes.
    RecordInput,
    /// Read all pending signals from the signal stream.
    TakeSignals,
    /// Set the pseudo-terminal's window size.
    ResizePty(WindowSize),
    /// Call the sink's `resize` with this size.
    RecordResize(WindowSize),
    /// Send the child a request to terminate.
    TerminateChild,
    /// Restore the terminal, release the master and wait for the child to end.
    Reap,
    /// The session is over: exit with this code.
    Exit(i32),
    /// The session is over: it failed.
    Fail(Error),
}

impl Command {
    /// Whether the command ends the session.
    pub open spec fn spec_is_final(self) -> bool {
        self is Exit || self is Fail
    }

    /// Whether the command ends the session. Nothing is to be reported back for such a
    /// command.
    #[verifier::when_used_as_spec(spec_is_final)]
    pub fn is_final(self) -> (b: bool)
        ensures
            b == self.spec_is_final(),
    {
        match self {
            Command::Exit(_) => true,
            Command::Fail(_) => true,
            _ => false,
        }
    }

    /// Whether the command is a call of the sink.
    pub open spec fn spec_is_sink_call(self) -> bool {
        self is RecordStart || self is RecordOutput || self is RecordInput || self is RecordResize
    }

    /// Whether the command is a call of the sink.
    #[verifier::when_used_as_spec(spec_is_sink_call)]
    pub fn is_sink_call(self) -> (b: bool)
        ensures
            b == self.spec_is_sink_call(),
    {
        match self {
            Command::RecordStart(_) => true,
            Command::RecordOutput => true,
            Command::RecordInput => true,
            Command::RecordResize(_) => true,
            _ => false,
        }
    }
}

/// What the driver observed when it carried out the last command.
#[derive(Debug)]
pub enum Reply {
    /// The command was carried out and there is nothing to tell.
    Done,
    /// The command failed. For a read or a write this includes "would block".
    Failed,
    /// `Spawn` failed before forking: no pseudo-terminal could be allocated.
    NoPty,
    /// `Wait` was interrupted before any source became ready.
    Interrupted,
    /// The terminal's window size.
    Measured(WindowSize),
    /// A source is ready.
    Ready(Readiness),
    /// The bytes one read returned; none at all if the read returned zero.
    Data(Vec<u8>),
    /// The number of bytes one write accepted.
    Written(usize),
    /// The signals that were pending, in the order in which they are to be handled.
    Signals(Vec<Signal>),
    /// The child ended.
    Reaped(ChildStatus),
}

/// A [`Reply`] as contracts see it.
pub enum ReplyView {
    Done,
    Failed,
    NoPty,
    Interrupted,
    Measured(WindowSize),
    Ready(Readiness),
    Data(Seq<u8>),
    Written(usize),
    Signals(Seq<Signal>),
    Reaped(ChildStatus),
}

impl View for Reply {
    type V = ReplyView;

    open spec fn view(&self) -> ReplyView {
        match *self {
            Reply::Done => ReplyView::Done,
            Reply::Failed => ReplyView::Failed,
            Reply::NoPty => ReplyView::NoPty,
            Reply::Interrupted => ReplyView::Interrupted,
            Reply::Measured(size) => ReplyView::Measured(size),
            Reply::Ready(event) => ReplyView::Ready(event),
            Reply::Data(bytes) => ReplyView::Data(bytes@),
            Reply::Written(n) => ReplyView::Written(n),
            Reply::Signals(signals) => ReplyView::Signals(signals@),
            Reply::Reaped(status) => ReplyView::Reaped(status),
        }
    }
}

impl ReplyView {
    /// The measured size a reply carries, if it carries one.
    pub open spec fn measured(self) -> Option<WindowSize> {
        match self {
            ReplyView::Measured(size) => Some(size),
            _ => None,
        }
    }
}

/// A call that a sink received.
pub enum SinkCall {
    Start(WindowSize),
    Output(Seq<u8>),
    Input(Seq<u8>),
    Resize(WindowSize),
}

} // verus!
