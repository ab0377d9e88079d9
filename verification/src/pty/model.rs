//! The supervisor as a transition system over plain values.
//!
//! [`step`] says, for every state and every reply the state accepts, what
//! the next state is and which command comes next. The executable
//! [`Session`](super::session::Session) computes exactly this function.

use vstd::prelude::*;
use crate::error::{Endpoint, Error};
use crate::pty::protocol::{Command, Interest, Readiness, ReplyView, Signal, SinkCall, Source};
use crate::pty::size::{spec_effective_size, SizeOverride, WindowSize};
use crate::pty::status::spec_exit_code;

verus! {

/// Where a session stands: the command it issued last and has no reply to yet.
#[derive(Clone, Copy, Debug, PartialEq, Eq, Structural)]
pub enum Phase {
    /// `OpenTty` is out.
    OpeningTty,
    /// `MeasureTty` is out, for the initial size.
    Measuring,
    /// `RecordStart` is out.
    Starting,
    /// `Spawn` is out.
    Spawning,
    /// `OpenPoller` is out.
    OpeningPoller,
    /// `EnterRawMode` is out.
    EnteringRawMode,
    /// `WatchSignals` is out.
    WatchingSignals,
    /// `SetNonBlocking(Master)` is out.
    UnblockingMaster,
    /// `SetNonBlocking(Tty)` is out.
    UnblockingTty,
    /// `Register(Master, ..)` is out.
    RegisteringMaster,
    /// `Register(Tty, ..)` is out.
    RegisteringTty,
    /// `Register(Signal, ..)` is out.
    RegisteringSignals,
    /// `Wait` is out.
    Waiting,
    /// `Read(Master)` is out.
    MasterReading,
    /// `RecordOutput` is out.
    MasterRecording,
    /// `Reregister(Tty, read and write)` is out, after output was queued.
    MasterArming,
    /// `Write(Master)` is out.
    MasterWriting,
    /// `Reregister(Master, read only)` is out, after the queue to the master drained.
    MasterDisarming,
    /// `Deregister(Master)` is out.
    MasterClosing,
    /// `Write(Tty)` is out.
    TtyWriting,
    /// `Reregister(Tty, read only)` is out, after the queue to the terminal drained.
    TtyDisarming,
    /// `Read(Tty)` is out.
    TtyReading,
    /// `RecordInput` is out.
    TtyRecording,
    /// `Reregister(Master, read and write)` is out, after input was queued.
    TtyArming,
    /// `Deregister(Tty)` is out.
    TtyClosing,
    /// `TakeSignals` is out.
    TakingSignals,
    /// `MeasureTty` is out, after a window change.
    Remeasuring,
    /// `ResizePty` is out.
    ResizingPty,
    /// `RecordResize` is out.
    RecordingResize,
    /// `TerminateChild` is out.
    Terminating,
    /// `Reap` is out.
    Reaping,
    /// `Exit` or `Fail` was issued: the session is over.
    Finished,
}

/// Everything a session knows.
pub struct SessionView {
    /// The user's override of the window size.
    pub size_override: SizeOverride,
    /// Whether the sink is to be told what the user typed.
    pub capture_input: bool,
    pub phase: Phase,
    /// The size the session last asked the pseudo-terminal to have.
    pub size: WindowSize,
    /// Bytes read from the terminal and not yet written to the master.
    pub to_master: Seq<u8>,
    /// Bytes read from the master and not yet written to the terminal.
    pub to_tty: Seq<u8>,
    /// The master is closed: leave as soon as `to_tty` is empty.
    pub flush: bool,
    /// The readiness event being handled.
    pub event: Readiness,
    /// Length that the queue being read into had when the current run of reads began.
    pub mark: nat,
    /// Signals taken from the stream and not yet handled.
    pub signals: Seq<Signal>,
    /// The failure to report once the child is reaped.
    pub failure: Option<Error>,
}

impl SessionView {
    /// What the phases rely on: while bytes are read or recorded, the mark
    /// lies inside the queue read into; while bytes are written, there are some.
    pub open spec fn wf(self) -> bool {
        &&& (self.phase == Phase::MasterReading || self.phase == Phase::MasterRecording)
            ==> self.mark <= self.to_tty.len()
        &&& (self.phase == Phase::TtyReading || self.phase == Phase::TtyRecording) ==> self.mark
            <= self.to_master.len()
        &&& self.phase == Phase::MasterWriting ==> self.to_master.len() > 0
        &&& self.phase == Phase::TtyWriting ==> self.to_tty.len() > 0
    }

    /// The bytes that a `RecordOutput` or `RecordInput` command speaks of:
    /// what the run of reads just ended has added to its queue.
    pub open spec fn fresh(self) -> Seq<u8> {
        if self.phase == Phase::MasterRecording {
            self.to_tty.skip(self.mark as int)
        } else if self.phase == Phase::TtyRecording {
            self.to_master.skip(self.mark as int)
        } else {
            Seq::empty()
        }
    }

    /// The bytes that a `Write` command speaks of: the whole queue for that side.
    pub open spec fn outgoing(self) -> Seq<u8> {
        if self.phase == Phase::MasterWriting {
            self.to_master
        } else if self.phase == Phase::TtyWriting {
            self.to_tty
        } else {
            Seq::empty()
        }
    }

    /// Whether `reply` answers the command that is out.
    pub open spec fn accepts(self, reply: ReplyView) -> bool {
        match self.phase {
            Phase::Measuring | Phase::Remeasuring => reply is Measured || reply is Failed,
            Phase::Spawning => reply is Done || reply is Failed || reply is NoPty,
            Phase::Waiting => reply is Ready || reply is Interrupted || reply is Failed,
            Phase::MasterReading | Phase::TtyReading => reply is Data || reply is Failed,
            Phase::MasterWriting => reply is Failed || (reply matches ReplyView::Written(n) && n
                <= self.to_master.len()),
            Phase::TtyWriting => reply is Failed || (reply matches ReplyView::Written(n) && n
                <= self.to_tty.len()),
            Phase::MasterRecording | Phase::TtyRecording | Phase::RecordingResize
            | Phase::TtyClosing => reply is Done,
            Phase::TakingSignals => reply is Signals,
            Phase::Reaping => reply is Reaped || reply is Failed,
            Phase::Finished => false,
            _ => reply is Done || reply is Failed,
        }
    }
}

/// The sink call that a command asks for, if it asks for one. `after` is the
/// state in which the command is out.
pub open spec fn sink_call(command: Command, after: SessionView) -> Option<SinkCall> {
    match command {
        Command::RecordStart(size) => Some(SinkCall::Start(size)),
        Command::RecordOutput => Some(SinkCall::Output(after.fresh())),
        Command::RecordInput => Some(SinkCall::Input(after.fresh())),
        Command::RecordResize(size) => Some(SinkCall::Resize(size)),
        _ => None,
    }
}

/// The command that is out in state `s`; the value is of no consequence for
/// a session that is over.
pub open spec fn command_out(s: SessionView) -> Command {
    match s.phase {
        Phase::OpeningTty => Command::OpenTty,
        Phase::Measuring => Command::MeasureTty,
        Phase::Starting => Command::RecordStart(s.size),
        Phase::Spawning => Command::Spawn(s.size),
        Phase::OpeningPoller => Command::OpenPoller,
        Phase::EnteringRawMode => Command::EnterRawMode,
        Phase::WatchingSignals => Command::WatchSignals,
        Phase::UnblockingMaster => Command::SetNonBlocking(Source::Master),
        Phase::UnblockingTty => Command::SetNonBlocking(Source::Tty),
        Phase::RegisteringMaster => Command::Register(Source::Master, Interest::Read),
        Phase::RegisteringTty => Command::Register(Source::Tty, Interest::Read),
        Phase::RegisteringSignals => Command::Register(Source::Signal, Interest::Read),
        Phase::Waiting => Command::Wait,
        Phase::MasterReading => Command::Read(Source::Master),
        Phase::MasterRecording => Command::RecordOutput,
        Phase::MasterArming => Command::Reregister(Source::Tty, Interest::ReadWrite),
        Phase::MasterWriting => Command::Write(Source::Master),
        Phase::MasterDisarming => Command::Reregister(Source::Master, Interest::Read),
        Phase::MasterClosing => Command::Deregister(Source::Master),
        Phase::TtyWriting => Command::Write(Source::Tty),
        Phase::TtyDisarming => Command::Reregister(Source::Tty, Interest::Read),
        Phase::TtyReading => Command::Read(Source::Tty),
        Phase::TtyRecording => Command::RecordInput,
        Phase::TtyArming => Command::Reregister(Source::Master, Interest::ReadWrite),
        Phase::TtyClosing => Command::Deregister(Source::Tty),
        Phase::TakingSignals => Command::TakeSignals,
        Phase::Remeasuring => Command::MeasureTty,
        Phase::ResizingPty => Command::ResizePty(s.size),
        Phase::RecordingResize => Command::RecordResize(s.size),
        Phase::Terminating => Command::TerminateChild,
        Phase::Reaping => Command::Reap,
        Phase::Finished => Command::Wait,
    }
}

/// The state a session begins in. The command that is out is `OpenTty`.
pub open spec fn initial(size_override: SizeOverride, capture_input: bool) -> SessionView {
    SessionView {
        size_override,
        capture_input,
        phase: Phase::OpeningTty,
        size: WindowSize::spec_fallback(),
        to_master: Seq::empty(),
        to_tty: Seq::empty(),
        flush: false,
        event: Readiness::spec_idle(),
        mark: 0,
        signals: Seq::empty(),
        failure: None,
    }
}

/// Moves to `phase` and issues `command`.
pub open spec fn go(s: SessionView, phase: Phase, command: Command) -> (SessionView, Command) {
    (SessionView { phase, ..s }, command)
}

/// Ends the session before a child exists.
pub open spec fn refuse(s: SessionView, error: Error) -> (SessionView, Command) {
    go(s, Phase::Finished, Command::Fail(error))
}

/// Gives up on a running session: the child is reaped, then `error` is reported.
pub open spec fn abort(s: SessionView, error: Error) -> (SessionView, Command) {
    go(SessionView { failure: Some(error), ..s }, Phase::Reaping, Command::Reap)
}

/// Leaves the reactor in good order.
pub open spec fn leave(s: SessionView) -> (SessionView, Command) {
    go(s, Phase::Reaping, Command::Reap)
}

/// Asks for the next readiness event.
pub open spec fn wait(s: SessionView) -> (SessionView, Command) {
    go(s, Phase::Waiting, Command::Wait)
}

/// `next` if the reply is `Done`, else gives up with an error on `endpoint`.
pub open spec fn done_or_abort(
    s: SessionView,
    reply: ReplyView,
    endpoint: Endpoint,
    next: (SessionView, Command),
) -> (SessionView, Command) {
    if reply is Done {
        next
    } else {
        abort(s, Error::Io(endpoint))
    }
}

// The master's event: read, then write, then notice the close.

/// First part of a master event: drain the master if it is readable.
pub open spec fn master_read(s: SessionView) -> (SessionView, Command) {
    if s.event.readable {
        go(SessionView { mark: s.to_tty.len(), ..s }, Phase::MasterReading, Command::Read(Source::Master))
    } else {
        master_write(s)
    }
}

/// A run of reads from the master has ended.
pub open spec fn master_read_done(s: SessionView) -> (SessionView, Command) {
    if s.to_tty.len() > s.mark {
        go(s, Phase::MasterRecording, Command::RecordOutput)
    } else {
        master_write(s)
    }
}

/// Second part of a master event: write queued input if the master is writable.
pub open spec fn master_write(s: SessionView) -> (SessionView, Command) {
    if s.event.writable {
        if s.to_master.len() == 0 {
            master_write_done(s)
        } else {
            go(s, Phase::MasterWriting, Command::Write(Source::Master))
        }
    } else {
        master_close(s)
    }
}

/// A run of writes to the master has ended.
pub open spec fn master_write_done(s: SessionView) -> (SessionView, Command) {
    if s.to_master.len() == 0 {
        go(s, Phase::MasterDisarming, Command::Reregister(Source::Master, Interest::Read))
    } else {
        master_close(s)
    }
}

/// Last part of a master event: stop watching a master that has closed.
pub open spec fn master_close(s: SessionView) -> (SessionView, Command) {
    if s.event.read_closed {
        go(s, Phase::MasterClosing, Command::Deregister(Source::Master))
    } else {
        wait(s)
    }
}

/// The master is deregistered: leave at once if nothing is owed to the
/// terminal, else keep running until the terminal has taken it all.
pub open spec fn master_closed(s: SessionView) -> (SessionView, Command) {
    if s.to_tty.len() > 0 {
        wait(SessionView { flush: true, ..s })
    } else {
        leave(s)
    }
}

// The terminal's event: write, then read, then notice the close.

/// First part of a terminal event: write queued output if the terminal is writable.
pub open spec fn tty_write(s: SessionView) -> (SessionView, Command) {
    if s.event.writable {
        if s.to_tty.len() == 0 {
            tty_write_done(s)
        } else {
            go(s, Phase::TtyWriting, Command::Write(Source::Tty))
        }
    } else {
        tty_read(s)
    }
}

/// A run of writes to the terminal has ended.
pub open spec fn tty_write_done(s: SessionView) -> (SessionView, Command) {
    if s.to_tty.len() == 0 {
        if s.flush {
            leave(s)
        } else {
            go(s, Phase::TtyDisarming, Command::Reregister(Source::Tty, Interest::Read))
        }
    } else {
        tty_read(s)
    }
}

/// Second part of a terminal event: drain the terminal if it is readable.
pub open spec fn tty_read(s: SessionView) -> (SessionView, Command) {
    if s.event.readable {
        go(SessionView { mark: s.to_master.len(), ..s }, Phase::TtyReading, Command::Read(Source::Tty))
    } else {
        tty_close(s)
    }
}

/// A run of reads from the terminal has ended.
pub open spec fn tty_read_done(s: SessionView) -> (SessionView, Command) {
    if s.to_master.len() > s.mark {
        if s.capture_input {
            go(s, Phase::TtyRecording, Command::RecordInput)
        } else {
            tty_arm(s)
        }
    } else {
        tty_close(s)
    }
}

/// Input is queued: have the poller say when the master can take it.
pub open spec fn tty_arm(s: SessionView) -> (SessionView, Command) {
    go(s, Phase::TtyArming, Command::Reregister(Source::Master, Interest::ReadWrite))
}

/// Last part of a terminal event: stop watching a terminal that has closed.
pub open spec fn tty_close(s: SessionView) -> (SessionView, Command) {
    if s.event.read_closed {
        go(s, Phase::TtyClosing, Command::Deregister(Source::Tty))
    } else {
        wait(s)
    }
}

// Signals.

/// Handles the signals that were taken, oldest first, up to the first one that needs a command.
pub open spec fn next_signal(s: SessionView) -> (SessionView, Command)
    decreases s.signals.len(),
{
    if s.signals.len() == 0 {
        wait(s)
    } else {
        let rest = SessionView { signals: s.signals.skip(1), ..s };
        match s.signals[0] {
            Signal::Winch => go(rest, Phase::Remeasuring, Command::MeasureTty),
            Signal::Term | Signal::Quit | Signal::Hup => go(
                rest,
                Phase::Terminating,
                Command::TerminateChild,
            ),
            Signal::Int | Signal::Other => next_signal(rest),
        }
    }
}

/// Takes up a readiness event.
pub open spec fn dispatch(s: SessionView, event: Readiness) -> (SessionView, Command) {
    let s = SessionView { event, ..s };
    match Source::spec_from_token(event.token) {
        Some(Source::Master) => master_read(s),
        Some(Source::Tty) => tty_write(s),
        Some(Source::Signal) => go(s, Phase::TakingSignals, Command::TakeSignals),
        None => wait(s),
    }
}

/// A read returned: queue what it brought and read again, or end the run
/// of reads if it brought nothing or failed.
pub open spec fn master_absorb(s: SessionView, reply: ReplyView) -> (SessionView, Command) {
    match reply {
        ReplyView::Data(bytes) if bytes.len() > 0 => go(
            SessionView { to_tty: s.to_tty + bytes, ..s },
            Phase::MasterReading,
            Command::Read(Source::Master),
        ),
        _ => master_read_done(s),
    }
}

/// As [`master_absorb`], for the terminal.
pub open spec fn tty_absorb(s: SessionView, reply: ReplyView) -> (SessionView, Command) {
    match reply {
        ReplyView::Data(bytes) if bytes.len() > 0 => go(
            SessionView { to_master: s.to_master + bytes, ..s },
            Phase::TtyReading,
            Command::Read(Source::Tty),
        ),
        _ => tty_read_done(s),
    }
}

/// A write returned: drop what it took from the front of the queue, then
/// write again unless the queue is empty or the write failed.
pub open spec fn master_sent(s: SessionView, reply: ReplyView) -> (SessionView, Command) {
    match reply {
        ReplyView::Written(n) => {
            let s = SessionView { to_master: s.to_master.skip(n as int), ..s };
            if s.to_master.len() == 0 {
                master_write_done(s)
            } else {
                go(s, Phase::MasterWriting, Command::Write(Source::Master))
            }
        },
        _ => master_write_done(s),
    }
}

/// As [`master_sent`], for the terminal.
pub open spec fn tty_sent(s: SessionView, reply: ReplyView) -> (SessionView, Command) {
    match reply {
        ReplyView::Written(n) => {
            let s = SessionView { to_tty: s.to_tty.skip(n as int), ..s };
            if s.to_tty.len() == 0 {
                tty_write_done(s)
            } else {
                go(s, Phase::TtyWriting, Command::Write(Source::Tty))
            }
        },
        _ => tty_write_done(s),
    }
}

/// The session's result once the child is reaped: the reactor's failure if
/// it had one, else the exit code that the child's end maps to.
pub open spec fn conclude(s: SessionView, reply: ReplyView) -> (SessionView, Command) {
    match s.failure {
        Some(error) => go(s, Phase::Finished, Command::Fail(error)),
        None => match reply {
            ReplyView::Reaped(status) => go(
                s,
                Phase::Finished,
                Command::Exit(spec_exit_code(status) as i32),
            ),
            _ => go(s, Phase::Finished, Command::Fail(Error::Io(Endpoint::Child))),
        },
    }
}

/// The next state and the next command, for a reply that the state
/// accepts. What it says of other replies, and of a session that is over,
/// is of no consequence: no executable step is ever taken there.
pub open spec fn step(s: SessionView, reply: ReplyView) -> (SessionView, Command) {
    match s.phase {
        Phase::OpeningTty => if reply is Done {
            go(s, Phase::Measuring, Command::MeasureTty)
        } else {
            refuse(s, Error::CannotOpenTty)
        },
        Phase::Measuring => {
            let size = spec_effective_size(reply.measured(), s.size_override);
            go(SessionView { size, ..s }, Phase::Starting, Command::RecordStart(size))
        },
        Phase::Starting => if reply is Done {
            go(s, Phase::Spawning, Command::Spawn(s.size))
        } else {
            refuse(s, Error::Sink)
        },
        Phase::Spawning => if reply is Done {
            go(s, Phase::OpeningPoller, Command::OpenPoller)
        } else if reply is NoPty {
            refuse(s, Error::PtyAllocationFailed)
        } else {
            refuse(s, Error::ForkFailed)
        },
        Phase::OpeningPoller => done_or_abort(
            s,
            reply,
            Endpoint::Poller,
            go(s, Phase::EnteringRawMode, Command::EnterRawMode),
        ),
        Phase::EnteringRawMode => done_or_abort(
            s,
            reply,
            Endpoint::Tty,
            go(s, Phase::WatchingSignals, Command::WatchSignals),
        ),
        Phase::WatchingSignals => done_or_abort(
            s,
            reply,
            Endpoint::Signals,
            go(s, Phase::UnblockingMaster, Command::SetNonBlocking(Source::Master)),
        ),
        Phase::UnblockingMaster => done_or_abort(
            s,
            reply,
            Endpoint::Master,
            go(s, Phase::UnblockingTty, Command::SetNonBlocking(Source::Tty)),
        ),
        Phase::UnblockingTty => done_or_abort(
            s,
            reply,
            Endpoint::Tty,
            go(
                s,
                Phase::RegisteringMaster,
                Command::Register(Source::Master, Interest::Read),
            ),
        ),
        Phase::RegisteringMaster => done_or_abort(
            s,
            reply,
            Endpoint::Master,
            go(s, Phase::RegisteringTty, Command::Register(Source::Tty, Interest::Read)),
        ),
        Phase::RegisteringTty => done_or_abort(
            s,
            reply,
            Endpoint::Tty,
            go(
                s,
                Phase::RegisteringSignals,
                Command::Register(Source::Signal, Interest::Read),
            ),
        ),
        Phase::RegisteringSignals => done_or_abort(s, reply, Endpoint::Signals, wait(s)),
        Phase::Waiting => match reply {
            ReplyView::Ready(event) => dispatch(s, event),
            ReplyView::Interrupted => wait(s),
            _ => abort(s, Error::Io(Endpoint::Poller)),
        },
        Phase::MasterReading => master_absorb(s, reply),
        Phase::MasterRecording => go(
            s,
            Phase::MasterArming,
            Command::Reregister(Source::Tty, Interest::ReadWrite),
        ),
        Phase::MasterArming => done_or_abort(s, reply, Endpoint::Tty, master_write(s)),
        Phase::MasterWriting => master_sent(s, reply),
        Phase::MasterDisarming => done_or_abort(s, reply, Endpoint::Master, master_close(s)),
        Phase::MasterClosing => done_or_abort(s, reply, Endpoint::Master, master_closed(s)),
        Phase::TtyWriting => tty_sent(s, reply),
        Phase::TtyDisarming => done_or_abort(s, reply, Endpoint::Tty, tty_read(s)),
        Phase::TtyReading => tty_absorb(s, reply),
        Phase::TtyRecording => tty_arm(s),
        Phase::TtyArming => done_or_abort(s, reply, Endpoint::Master, tty_close(s)),
        Phase::TtyClosing => leave(s),
        Phase::TakingSignals => match reply {
            ReplyView::Signals(signals) => next_signal(SessionView { signals, ..s }),
            _ => wait(s),
        },
        Phase::Remeasuring => {
            let size = spec_effective_size(reply.measured(), s.size_override);
            go(SessionView { size, ..s }, Phase::ResizingPty, Command::ResizePty(size))
        },
        Phase::ResizingPty => go(s, Phase::RecordingResize, Command::RecordResize(s.size)),
        Phase::RecordingResize => next_signal(s),
        Phase::Terminating => leave(s),
        Phase::Reaping => conclude(s, reply),
        Phase::Finished => refuse(s, Error::Io(Endpoint::Poller)),
    }
}

/// A state that is well-formed and not over, with the command that is out in it.
pub open spec fn proper(next: (SessionView, Command)) -> bool {
    &&& next.0.wf()
    &&& next.0.phase != Phase::Finished
    &&& next.1 == command_out(next.0)
}

/// Whatever part of a master event comes next, what it leads to is proper.
pub proof fn lemma_master_parts_wf(s: SessionView)
    ensures
        proper(master_read(s)),
        s.wf() ==> proper(master_read_done(s)),
        proper(master_write(s)),
        proper(master_write_done(s)),
        proper(master_close(s)),
        proper(master_closed(s)),
{
}

/// Whatever part of a terminal event comes next, what it leads to is proper.
pub proof fn lemma_tty_parts_wf(s: SessionView)
    ensures
        proper(tty_write(s)),
        proper(tty_write_done(s)),
        proper(tty_read(s)),
        s.wf() ==> proper(tty_read_done(s)),
        proper(tty_arm(s)),
        proper(tty_close(s)),
{
}

/// Phases of the session's preparation, up to the first wait.
pub open spec fn preparing(phase: Phase) -> bool {
    phase == Phase::OpeningTty || phase == Phase::Measuring || phase == Phase::Starting || phase
        == Phase::Spawning || phase == Phase::OpeningPoller || phase == Phase::EnteringRawMode
        || phase == Phase::WatchingSignals || phase == Phase::UnblockingMaster || phase
        == Phase::UnblockingTty || phase == Phase::RegisteringMaster || phase
        == Phase::RegisteringTty || phase == Phase::RegisteringSignals
}

/// Phases of handling a master event.
pub open spec fn at_master(phase: Phase) -> bool {
    phase == Phase::MasterReading || phase == Phase::MasterRecording || phase
        == Phase::MasterArming || phase == Phase::MasterWriting || phase == Phase::MasterDisarming
        || phase == Phase::MasterClosing
}

/// Phases of handling a terminal event.
pub open spec fn at_tty(phase: Phase) -> bool {
    phase == Phase::TtyWriting || phase == Phase::TtyDisarming || phase == Phase::TtyReading
        || phase == Phase::TtyRecording || phase == Phase::TtyArming || phase == Phase::TtyClosing
}

/// Phases of handling signals.
pub open spec fn at_signals(phase: Phase) -> bool {
    phase == Phase::TakingSignals || phase == Phase::Remeasuring || phase == Phase::ResizingPty
        || phase == Phase::RecordingResize || phase == Phase::Terminating
}

/// What a step leads to is well-formed; unless the session is over with
/// it, the command issued is the one that is out in the new state.
pub open spec fn step_is_proper(s: SessionView, reply: ReplyView) -> bool {
    let next = step(s, reply);
    &&& next.0.wf()
    &&& next.0.phase != Phase::Finished ==> next.1 == command_out(next.0)
    &&& next.0.phase == Phase::Finished <==> next.1.spec_is_final()
}

proof fn lemma_step_proper_preparing(s: SessionView, reply: ReplyView)
    requires
        s.wf(),
        s.accepts(reply),
        preparing(s.phase),
    ensures
        step_is_proper(s, reply),
{
}

proof fn lemma_step_proper_waiting(s: SessionView, reply: ReplyView)
    requires
        s.wf(),
        s.accepts(reply),
        s.phase == Phase::Waiting,
    ensures
        step_is_proper(s, reply),
{
    if let ReplyView::Ready(event) = reply {
        let t = SessionView { event, ..s };
        lemma_master_parts_wf(t);
        lemma_tty_parts_wf(t);
    }
}

proof fn lemma_step_proper_master(s: SessionView, reply: ReplyView)
    requires
        s.wf(),
        s.accepts(reply),
        at_master(s.phase),
    ensures
        step_is_proper(s, reply),
{
    lemma_master_parts_wf(s);
    if let ReplyView::Written(n) = reply {
        lemma_master_parts_wf(SessionView { to_master: s.to_master.skip(n as int), ..s });
    }
}

proof fn lemma_step_proper_tty(s: SessionView, reply: ReplyView)
    requires
        s.wf(),
        s.accepts(reply),
        at_tty(s.phase),
    ensures
        step_is_proper(s, reply),
{
    lemma_tty_parts_wf(s);
    if let ReplyView::Written(n) = reply {
        lemma_tty_parts_wf(SessionView { to_tty: s.to_tty.skip(n as int), ..s });
    }
}

proof fn lemma_step_proper_signals(s: SessionView, reply: ReplyView)
    requires
        s.wf(),
        s.accepts(reply),
        at_signals(s.phase),
    ensures
        step_is_proper(s, reply),
{
    lemma_next_signal_shape(s);
    if let ReplyView::Signals(signals) = reply {
        lemma_next_signal_shape(SessionView { signals, ..s });
    }
}

/// A step from a well-formed state leads to a well-formed state, and the
/// command it issues is the one that is out in that state.
pub proof fn lemma_step_keeps_wf(s: SessionView, reply: ReplyView)
    requires
        s.wf(),
        s.accepts(reply),
    ensures
        step_is_proper(s, reply),
        step(s, reply).0.wf(),
{
    if preparing(s.phase) {
        lemma_step_proper_preparing(s, reply);
    } else if s.phase == Phase::Waiting {
        lemma_step_proper_waiting(s, reply);
    } else if at_master(s.phase) {
        lemma_step_proper_master(s, reply);
    } else if at_tty(s.phase) {
        lemma_step_proper_tty(s, reply);
    } else if at_signals(s.phase) {
        lemma_step_proper_signals(s, reply);
    } else {
    }
}

/// The command that follows a call of the sink is never another call of the sink.
pub proof fn lemma_sink_call_is_answered(s: SessionView, reply: ReplyView)
    requires
        s.phase != Phase::Finished,
        command_out(s).spec_is_sink_call(),
    ensures
        !step(s, reply).1.spec_is_sink_call(),
        reply is Done ==> s.accepts(reply),
        reply is Failed && command_out(s) is RecordStart ==> s.accepts(reply),
{
    lemma_next_signal_shape(s);
}

/// Handling signals changes nothing but the phase and the signals left, and
/// ends in one of three phases.
pub proof fn lemma_next_signal_shape(s: SessionView)
    ensures
        ({
            let (t, c) = next_signal(s);
            &&& t == (SessionView { phase: t.phase, signals: t.signals, ..s })
            &&& t.signals.len() <= s.signals.len()
            &&& (t.phase == Phase::Waiting && c == Command::Wait && t.signals.len() == 0)
                || (t.phase == Phase::Remeasuring && c == Command::MeasureTty)
                || (t.phase == Phase::Terminating && c == Command::TerminateChild)
            &&& c == command_out(t)
        }),
    decreases s.signals.len(),
{
    if s.signals.len() > 0 {
        let rest = SessionView { signals: s.signals.skip(1), ..s };
        lemma_next_signal_shape(rest);
    }
}

} // verus!
