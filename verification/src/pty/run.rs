//! Runs of the supervisor, and what a driver observes along them.
//!
//! A run is the sequence of replies a driver has given to a session. Its
//! trace holds what the driver did on the session's behalf: the bytes it
//! read and wrote and the calls it made on the sink.

use vstd::prelude::*;
use crate::pty::model::{initial, sink_call, step, Phase, SessionView};
use crate::pty::protocol::{Command, Interest, ReplyView, Signal, SinkCall, Source};
use crate::pty::size::{SizeOverride, WindowSize};

verus! {


/// Why a session left its reactor.
pub enum Departure {
    /// The master closed and the terminal has taken everything read from it.
    Drained,
    /// The terminal closed.
    TtyClosed,
    /// A fatal signal arrived and the child was asked to terminate.
    Signalled,
    /// An operation failed.
    Failed,
}

/// What a driver has done for a session so far.
pub struct Trace {
    /// The bytes read from the master, in the order read.
    pub from_master: Seq<u8>,
    /// The bytes the terminal accepted, in the order written.
    pub to_tty: Seq<u8>,
    /// The bytes read from the terminal, in the order read.
    pub from_tty: Seq<u8>,
    /// The bytes the master accepted, in the order written.
    pub to_master: Seq<u8>,
    /// The calls made on the sink, oldest first.
    pub sink: Seq<SinkCall>,
    /// The size that the pseudo-terminal was last asked to have.
    pub pty_size: Option<WindowSize>,
    /// Why the reactor was left, once it was.
    pub departure: Option<Departure>,
    /// Number of window changes among the signals taken.
    pub window_changes: nat,
    /// What the master is registered for, while it is registered.
    pub master_interest: Option<Interest>,
    /// What the terminal is registered for, while it is registered.
    pub tty_interest: Option<Interest>,
    /// The terminal is in raw mode and has not been asked back out of it.
    pub raw_mode: bool,
    /// A child was spawned and has not been waited for.
    pub child_unreaped: bool,
}

/// A session in the middle of a run.
pub struct Run {
    pub state: SessionView,
    /// The command that is out.
    pub command: Command,
    pub trace: Trace,
}

/// The bytes of all `output` calls in `sink`, joined in order.
pub open spec fn outputs(sink: Seq<SinkCall>) -> Seq<u8>
    decreases sink.len(),
{
    if sink.len() == 0 {
        Seq::empty()
    } else {
        outputs(sink.drop_last()) + (match sink.last() {
            SinkCall::Output(bytes) => bytes,
            _ => Seq::empty(),
        })
    }
}

/// The bytes of all `input` calls in `sink`, joined in order.
pub open spec fn inputs(sink: Seq<SinkCall>) -> Seq<u8>
    decreases sink.len(),
{
    if sink.len() == 0 {
        Seq::empty()
    } else {
        inputs(sink.drop_last()) + (match sink.last() {
            SinkCall::Input(bytes) => bytes,
            _ => Seq::empty(),
        })
    }
}

/// Number of window changes among `signals`.
pub open spec fn window_changes(signals: Seq<Signal>) -> nat
    decreases signals.len(),
{
    if signals.len() == 0 {
        0
    } else {
        window_changes(signals.skip(1)) + if signals[0] == Signal::Winch {
            1nat
        } else {
            0nat
        }
    }
}

/// Number of `resize` calls in `sink`.
pub open spec fn resizes(sink: Seq<SinkCall>) -> nat
    decreases sink.len(),
{
    if sink.len() == 0 {
        0
    } else {
        resizes(sink.drop_last()) + if sink.last() is Resize {
            1nat
        } else {
            0nat
        }
    }
}

/// What `source` is registered for once `command` is carried out, given
/// that it was registered for `before`.
pub open spec fn registered(command: Command, source: Source, before: Option<Interest>) -> Option<
    Interest,
> {
    match command {
        Command::Register(s, interest) if s == source => Some(interest),
        Command::Reregister(s, interest) if s == source => Some(interest),
        Command::Deregister(s) if s == source => None,
        _ => before,
    }
}

/// What a source should be registered for when `queued` bytes wait for it:
/// for writing too if there are any, for reading only if there are none.
pub open spec fn fitting_interest(queued: nat) -> Interest {
    if queued > 0 {
        Interest::ReadWrite
    } else {
        Interest::Read
    }
}

/// Why a step that issues `Reap` leaves the reactor.
pub open spec fn departure(before: SessionView, after: SessionView) -> Departure {
    if after.failure is Some {
        Departure::Failed
    } else if before.phase == Phase::Terminating {
        Departure::Signalled
    } else if before.phase == Phase::TtyClosing {
        Departure::TtyClosed
    } else {
        Departure::Drained
    }
}

/// The trace after the driver has reported `reply` in state `s` and has
/// carried out the command that came back, as far as it moves no bytes.
pub open spec fn observe(t: Trace, s: SessionView, reply: ReplyView) -> Trace {
    let (after, command) = step(s, reply);
    Trace {
        from_master: match reply {
            ReplyView::Data(bytes) if s.phase == Phase::MasterReading => t.from_master + bytes,
            _ => t.from_master,
        },
        to_tty: match reply {
            ReplyView::Written(n) if s.phase == Phase::TtyWriting => t.to_tty + s.to_tty.take(
                n as int,
            ),
            _ => t.to_tty,
        },
        from_tty: match reply {
            ReplyView::Data(bytes) if s.phase == Phase::TtyReading => t.from_tty + bytes,
            _ => t.from_tty,
        },
        to_master: match reply {
            ReplyView::Written(n) if s.phase == Phase::MasterWriting => t.to_master
                + s.to_master.take(n as int),
            _ => t.to_master,
        },
        sink: match sink_call(command, after) {
            Some(call) => t.sink.push(call),
            None => t.sink,
        },
        pty_size: match command {
            Command::Spawn(size) => Some(size),
            Command::ResizePty(size) => Some(size),
            _ => t.pty_size,
        },
        departure: if command == Command::Reap {
            Some(departure(s, after))
        } else {
            t.departure
        },
        window_changes: match reply {
            ReplyView::Signals(signals) if s.phase == Phase::TakingSignals => t.window_changes
                + window_changes(signals),
            _ => t.window_changes,
        },
        master_interest: registered(command, Source::Master, t.master_interest),
        tty_interest: registered(command, Source::Tty, t.tty_interest),
        raw_mode: if command == Command::Reap {
            false
        } else if s.phase == Phase::EnteringRawMode && reply is Done {
            true
        } else {
            t.raw_mode
        },
        child_unreaped: if s.phase == Phase::Reaping {
            false
        } else if s.phase == Phase::Spawning && reply is Done {
            true
        } else {
            t.child_unreaped
        },
    }
}

/// The run before the driver has reported anything.
pub open spec fn start(size_override: SizeOverride, capture_input: bool) -> Run {
    Run {
        state: initial(size_override, capture_input),
        command: Command::OpenTty,
        trace: Trace {
            from_master: Seq::empty(),
            to_tty: Seq::empty(),
            from_tty: Seq::empty(),
            to_master: Seq::empty(),
            sink: Seq::empty(),
            pty_size: None,
            departure: None,
            window_changes: 0,
            master_interest: None,
            tty_interest: None,
            raw_mode: false,
            child_unreaped: false,
        },
    }
}

/// The run after one more reply.
pub open spec fn extend(run: Run, reply: ReplyView) -> Run {
    let (state, command) = step(run.state, reply);
    Run { state, command, trace: observe(run.trace, run.state, reply) }
}

/// The run that the replies `replies`, given in this order, lead to.
pub open spec fn run_of(size_override: SizeOverride, capture_input: bool, replies: Seq<ReplyView>) -> Run
    decreases replies.len(),
{
    if replies.len() == 0 {
        start(size_override, capture_input)
    } else {
        extend(run_of(size_override, capture_input, replies.drop_last()), replies.last())
    }
}

/// Whether each of `replies` answers the command that was out when it was given.
pub open spec fn answers(size_override: SizeOverride, capture_input: bool, replies: Seq<ReplyView>) -> bool
    decreases replies.len(),
{
    replies.len() == 0 || (answers(size_override, capture_input, replies.drop_last()) && run_of(
        size_override,
        capture_input,
        replies.drop_last(),
    ).state.accepts(replies.last()))
}

} // verus!
