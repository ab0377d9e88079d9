//! The executable supervisor.

use vstd::prelude::*;
use crate::error::{Endpoint, Error};
use crate::pty::run::{answers, extend, inputs, outputs, resizes, run_of, start, Run};
use crate::pty::sound::{lemma_run_sound, lemma_step_keeps_settings, sound};
use crate::pty::laws::{
    law_input_capture, law_no_byte_loss, law_one_resize_per_window_change, law_output_order,
    law_start_once,
};
use crate::pty::model;
use crate::pty::model::{Phase, SessionView};
use crate::pty::protocol::{
    Command, Interest, Readiness, Reply, ReplyView, Signal, SinkCall, Source,
};
use crate::pty::queue::ByteQueue;
use crate::pty::recorder::{reply_to_start, Logged, Recorder};
use crate::pty::size::{effective_size, SizeOverride, WindowSize};
use crate::pty::status::exit_code;

verus! {

/// One recording session, from opening the terminal to the exit code.
///
/// The session holds the two byte queues and every decision of the
/// supervisor; it performs no input or output itself. A driver starts with
/// [`Session::begin`], carries out the command it is given, reports the
/// outcome to [`Session::advance`] and goes on with the command that comes
/// back, until that command is `Exit` or `Fail`. A driver that wants to
/// call the sink itself reports to [`Session::step`] instead.
pub struct Session {
    size_override: SizeOverride,
    capture_input: bool,
    phase: Phase,
    size: WindowSize,
    to_master: ByteQueue,
    to_tty: ByteQueue,
    flush: bool,
    event: Readiness,
    mark: usize,
    signals: Vec<Signal>,
    cursor: usize,
    failure: Option<Error>,
    history: Ghost<Seq<ReplyView>>,
}

impl View for Session {
    type V = SessionView;

    closed spec fn view(&self) -> SessionView {
        SessionView {
            size_override: self.size_override,
            capture_input: self.capture_input,
            phase: self.phase,
            size: self.size,
            to_master: self.to_master@,
            to_tty: self.to_tty@,
            flush: self.flush,
            event: self.event,
            mark: self.mark as nat,
            signals: self.signals@.skip(self.cursor as int),
            failure: self.failure,
        }
    }
}

/// The size that a reply to `MeasureTty` carries, if the terminal gave one.
fn measured(reply: &Reply) -> (r: Option<WindowSize>)
    ensures
        r == reply@.measured(),
{
    match reply {
        Reply::Measured(size) => Some(*size),
        _ => None,
    }
}

impl Session {
    /// The replies the session was given, oldest first.
    pub closed spec fn replies(&self) -> Seq<ReplyView> {
        self.history@
    }

    /// The run that the session is at the end of.
    pub open spec fn run(&self) -> Run {
        run_of(self@.size_override, self@.capture_input, self.replies())
    }

    /// The session's invariant: it is where its replies have led it from
    /// the initial state, and each of them answered the command that was out.
    pub closed spec fn wf(&self) -> bool {
        &&& self.cursor <= self.signals@.len()
        &&& self@.wf()
        &&& answers(self.size_override, self.capture_input, self.history@)
        &&& run_of(self.size_override, self.capture_input, self.history@).state == self@
    }

    /// A session is always at the end of a sound run of the model, so that
    /// every law of runs holds of it.
    pub proof fn lemma_sound(&self)
        requires
            self.wf(),
        ensures
            answers(self@.size_override, self@.capture_input, self.replies()),
            self.run().state == self@,
            sound(self.run()),
    {
        lemma_run_sound(self.size_override, self.capture_input, self.history@);
    }

    /// What a sink has received that was reported to through
    /// [`Session::advance`] alone, so that `calls` are the calls made on it:
    /// if it was called at all, `start` came first and only once; the
    /// output it was given is a prefix of what was read from the master,
    /// and all of it once the session is over; and it was told of a resize
    /// no more often than the window changed.
    pub proof fn law_sink_calls(&self, calls: Seq<SinkCall>)
        requires
            self.wf(),
            calls == self.run().trace.sink,
        ensures
            calls.len() > 0 ==> calls[0] is Start,
            forall|i: int| 0 < i < calls.len() ==> !(#[trigger] calls[i] is Start),
            self.run().command is Exit ==> calls.len() > 0,
            outputs(calls).is_prefix_of(self.run().trace.from_master),
            self@.phase == Phase::Finished ==> outputs(calls) == self.run().trace.from_master,
            self@.capture_input ==> inputs(calls).is_prefix_of(self.run().trace.from_tty),
            !self@.capture_input ==> inputs(calls) == Seq::<u8>::empty(),
            resizes(calls) <= self.run().trace.window_changes,
    {
        let size_override = self@.size_override;
        let capture_input = self@.capture_input;
        self.lemma_sound();
        law_start_once(size_override, capture_input, self.replies());
        law_no_byte_loss(size_override, capture_input, self.replies());
        law_output_order(size_override, capture_input, self.replies());
        law_input_capture(size_override, capture_input, self.replies());
        law_one_resize_per_window_change(size_override, capture_input, self.replies());
    }

    /// Starts a session. The first command is always `OpenTty`.
    pub fn begin(size_override: SizeOverride, capture_input: bool) -> (r: (Session, Command))
        ensures
            r.0.wf(),
            r.0@ == model::initial(size_override, capture_input),
            r.0.replies() == Seq::<ReplyView>::empty(),
            r.0.run() == start(size_override, capture_input),
            r.1 == Command::OpenTty,
    {
        let session = Session {
            size_override,
            capture_input,
            phase: Phase::OpeningTty,
            size: WindowSize::fallback(),
            to_master: ByteQueue::new(),
            to_tty: ByteQueue::new(),
            flush: false,
            event: Readiness::idle(),
            mark: 0,
            signals: Vec::new(),
            cursor: 0,
            failure: None,
            history: Ghost(Seq::empty()),
        };
        assert(session.signals@.skip(0) =~= Seq::<Signal>::empty());
        (session, Command::OpenTty)
    }

    /// Where the session stands.
    pub fn phase(&self) -> (p: Phase)
        ensures
            p == self@.phase,
    {
        self.phase
    }

    /// Whether the session is over.
    pub fn is_finished(&self) -> (b: bool)
        ensures
            b == (self@.phase == Phase::Finished),
    {
        match self.phase {
            Phase::Finished => true,
            _ => false,
        }
    }

    /// The size the session last asked the pseudo-terminal to have.
    pub fn size(&self) -> (size: WindowSize)
        ensures
            size == self@.size,
    {
        self.size
    }

    /// Whether the session only waits for the terminal to take what is queued for it.
    pub fn is_flushing(&self) -> (b: bool)
        ensures
            b == self@.flush,
    {
        self.flush
    }

    /// Number of bytes read from the master that the terminal has not taken yet.
    pub fn pending_to_tty(&self) -> (n: usize)
        ensures
            n == self@.to_tty.len(),
    {
        self.to_tty.len()
    }

    /// Number of bytes read from the terminal that the master has not taken yet.
    pub fn pending_to_master(&self) -> (n: usize)
        ensures
            n == self@.to_master.len(),
    {
        self.to_master.len()
    }

    /// The bytes to hand to the sink for a `RecordOutput` or `RecordInput`
    /// command: exactly what the run of reads just ended has queued. Empty
    /// while no such command is out.
    pub fn fresh(&self) -> (bytes: &[u8])
        requires
            self.wf(),
        ensures
            bytes@ == self@.fresh(),
    {
        match self.phase {
            Phase::MasterRecording => self.to_tty.since(self.mark),
            Phase::TtyRecording => self.to_master.since(self.mark),
            _ => {
                let n: usize = self.to_tty.len();
                let r = self.to_tty.since(n);
                assert(r@ =~= Seq::<u8>::empty());
                r
            },
        }
    }

    /// The bytes to write for a `Write` command: the whole queue for that
    /// side, oldest byte first. Empty while no such command is out.
    pub fn outgoing(&self) -> (bytes: &[u8])
        ensures
            bytes@ == self@.outgoing(),
    {
        match self.phase {
            Phase::MasterWriting => self.to_master.pending(),
            Phase::TtyWriting => self.to_tty.pending(),
            _ => {
                let n: usize = self.to_tty.len();
                let r = self.to_tty.since(n);
                assert(r@ =~= Seq::<u8>::empty());
                r
            },
        }
    }

    /// Whether `reply` answers the command that is out. [`Session::step`]
    /// takes only such replies.
    pub fn accepts(&self, reply: &Reply) -> (b: bool)
        ensures
            b == self@.accepts(reply@),
    {
        match self.phase {
            Phase::Measuring | Phase::Remeasuring => match reply {
                Reply::Measured(_) => true,
                Reply::Failed => true,
                _ => false,
            },
            Phase::Spawning => match reply {
                Reply::Done => true,
                Reply::Failed => true,
                Reply::NoPty => true,
                _ => false,
            },
            Phase::Waiting => match reply {
                Reply::Ready(_) => true,
                Reply::Interrupted => true,
                Reply::Failed => true,
                _ => false,
            },
            Phase::MasterReading | Phase::TtyReading => match reply {
                Reply::Data(_) => true,
                Reply::Failed => true,
                _ => false,
            },
            Phase::MasterWriting => match reply {
                Reply::Failed => true,
                Reply::Written(n) => *n <= self.to_master.len(),
                _ => false,
            },
            Phase::TtyWriting => match reply {
                Reply::Failed => true,
                Reply::Written(n) => *n <= self.to_tty.len(),
                _ => false,
            },
            Phase::MasterRecording | Phase::TtyRecording | Phase::RecordingResize
            | Phase::TtyClosing => match reply {
                Reply::Done => true,
                _ => false,
            },
            Phase::TakingSignals => match reply {
                Reply::Signals(_) => true,
                _ => false,
            },
            Phase::Reaping => match reply {
                Reply::Reaped(_) => true,
                Reply::Failed => true,
                _ => false,
            },
            Phase::Finished => false,
            _ => match reply {
                Reply::Done => true,
                Reply::Failed => true,
                _ => false,
            },
        }
    }

    /// Carries out a command that is a call of the sink and hands back the
    /// reply to report; does nothing and hands back `None` for any other
    /// command. The sink receives exactly the call that `command` asks for
    /// in this state. Only `start` can be answered `Failed`; the error it
    /// failed with is kept in `sink`.
    pub fn record<R: Recorder>(&self, command: Command, sink: &mut Logged<'_, R>) -> (reply: Option<
        Reply,
    >)
        requires
            self.wf(),
        ensures
            final(sink).calls() == (match model::sink_call(command, self@) {
                Some(call) => old(sink).calls().push(call),
                None => old(sink).calls(),
            }),
            reply is Some <==> command.spec_is_sink_call(),
            reply matches Some(r) ==> r@ is Done || (r@ is Failed && command is RecordStart),
            final(sink).holds_failure() == (old(sink).holds_failure() || (reply matches Some(r)
                && r@ is Failed)),
    {
        match command {
            Command::RecordStart(size) => {
                let result = sink.start(size);
                let reply = reply_to_start(&result);
                sink.keep_failure(result);
                Some(reply)
            },
            Command::RecordOutput => {
                sink.output(self.fresh());
                Some(Reply::Done)
            },
            Command::RecordInput => {
                sink.input(self.fresh());
                Some(Reply::Done)
            },
            Command::RecordResize(size) => {
                sink.resize(size);
                Some(Reply::Done)
            },
            _ => None,
        }
    }

    spec fn tidy(&self) -> bool {
        self.cursor <= self.signals@.len()
    }

    fn go(&mut self, phase: Phase, command: Command) -> (c: Command)
        requires
            old(self).tidy(),
        ensures
            final(self).tidy(),
            final(self).replies() == old(self).replies(),
            (final(self)@, c) == model::go(old(self)@, phase, command),
    {
        self.phase = phase;
        command
    }

    fn refuse(&mut self, error: Error) -> (c: Command)
        requires
            old(self).tidy(),
        ensures
            final(self).tidy(),
            final(self).replies() == old(self).replies(),
            (final(self)@, c) == model::refuse(old(self)@, error),
    {
        self.go(Phase::Finished, Command::Fail(error))
    }

    fn abort(&mut self, error: Error) -> (c: Command)
        requires
            old(self).tidy(),
        ensures
            final(self).tidy(),
            final(self).replies() == old(self).replies(),
            (final(self)@, c) == model::abort(old(self)@, error),
    {
        self.failure = Some(error);
        self.go(Phase::Reaping, Command::Reap)
    }

    fn leave(&mut self) -> (c: Command)
        requires
            old(self).tidy(),
        ensures
            final(self).tidy(),
            final(self).replies() == old(self).replies(),
            (final(self)@, c) == model::leave(old(self)@),
    {
        self.go(Phase::Reaping, Command::Reap)
    }

    fn wait(&mut self) -> (c: Command)
        requires
            old(self).tidy(),
        ensures
            final(self).tidy(),
            final(self).replies() == old(self).replies(),
            (final(self)@, c) == model::wait(old(self)@),
    {
        self.go(Phase::Waiting, Command::Wait)
    }

    fn master_read(&mut self) -> (c: Command)
        requires
            old(self).tidy(),
        ensures
            final(self).tidy(),
            final(self).replies() == old(self).replies(),
            (final(self)@, c) == model::master_read(old(self)@),
    {
        if self.event.readable {
            self.mark = self.to_tty.len();
            self.go(Phase::MasterReading, Command::Read(Source::Master))
        } else {
            self.master_write()
        }
    }

    fn master_read_done(&mut self) -> (c: Command)
        requires
            old(self).tidy(),
        ensures
            final(self).tidy(),
            final(self).replies() == old(self).replies(),
            (final(self)@, c) == model::master_read_done(old(self)@),
    {
        if self.to_tty.len() > self.mark {
            self.go(Phase::MasterRecording, Command::RecordOutput)
        } else {
            self.master_write()
        }
    }

    fn master_write(&mut self) -> (c: Command)
        requires
            old(self).tidy(),
        ensures
            final(self).tidy(),
            final(self).replies() == old(self).replies(),
            (final(self)@, c) == model::master_write(old(self)@),
    {
        if self.event.writable {
            if self.to_master.is_empty() {
                self.master_write_done()
            } else {
                self.go(Phase::MasterWriting, Command::Write(Source::Master))
            }
        } else {
            self.master_close()
        }
    }

    fn master_write_done(&mut self) -> (c: Command)
        requires
            old(self).tidy(),
        ensures
            final(self).tidy(),
            final(self).replies() == old(self).replies(),
            (final(self)@, c) == model::master_write_done(old(self)@),
    {
        if self.to_master.is_empty() {
            self.go(Phase::MasterDisarming, Command::Reregister(Source::Master, Interest::Read))
        } else {
            self.master_close()
        }
    }

    fn master_close(&mut self) -> (c: Command)
        requires
            old(self).tidy(),
        ensures
            final(self).tidy(),
            final(self).replies() == old(self).replies(),
            (final(self)@, c) == model::master_close(old(self)@),
    {
        if self.event.read_closed {
            self.go(Phase::MasterClosing, Command::Deregister(Source::Master))
        } else {
            self.wait()
        }
    }

    fn master_closed(&mut self) -> (c: Command)
        requires
            old(self).tidy(),
        ensures
            final(self).tidy(),
            final(self).replies() == old(self).replies(),
            (final(self)@, c) == model::master_closed(old(self)@),
    {
        if !self.to_tty.is_empty() {
            self.flush = true;
            self.wait()
        } else {
            self.leave()
        }
    }

    fn tty_write(&mut self) -> (c: Command)
        requires
            old(self).tidy(),
        ensures
            final(self).tidy(),
            final(self).replies() == old(self).replies(),
            (final(self)@, c) == model::tty_write(old(self)@),
    {
        if self.event.writable {
            if self.to_tty.is_empty() {
                self.tty_write_done()
            } else {
                self.go(Phase::TtyWriting, Command::Write(Source::Tty))
            }
        } else {
            self.tty_read()
        }
    }

    fn tty_write_done(&mut self) -> (c: Command)
        requires
            old(self).tidy(),
        ensures
            final(self).tidy(),
            final(self).replies() == old(self).replies(),
            (final(self)@, c) == model::tty_write_done(old(self)@),
    {
        if self.to_tty.is_empty() {
            if self.flush {
                self.leave()
            } else {
                self.go(Phase::TtyDisarming, Command::Reregister(Source::Tty, Interest::Read))
            }
        } else {
            self.tty_read()
        }
    }

    fn tty_read(&mut self) -> (c: Command)
        requires
            old(self).tidy(),
        ensures
            final(self).tidy(),
            final(self).replies() == old(self).replies(),
            (final(self)@, c) == model::tty_read(old(self)@),
    {
        if self.event.readable {
            self.mark = self.to_master.len();
            self.go(Phase::TtyReading, Command::Read(Source::Tty))
        } else {
            self.tty_close()
        }
    }

    fn tty_read_done(&mut self) -> (c: Command)
        requires
            old(self).tidy(),
        ensures
            final(self).tidy(),
            final(self).replies() == old(self).replies(),
            (final(self)@, c) == model::tty_read_done(old(self)@),
    {
        if self.to_master.len() > self.mark {
            if self.capture_input {
                self.go(Phase::TtyRecording, Command::RecordInput)
            } else {
                self.tty_arm()
            }
        } else {
            self.tty_close()
        }
    }

    fn tty_arm(&mut self) -> (c: Command)
        requires
            old(self).tidy(),
        ensures
            final(self).tidy(),
            final(self).replies() == old(self).replies(),
            (final(self)@, c) == model::tty_arm(old(self)@),
    {
        self.go(Phase::TtyArming, Command::Reregister(Source::Master, Interest::ReadWrite))
    }

    fn tty_close(&mut self) -> (c: Command)
        requires
            old(self).tidy(),
        ensures
            final(self).tidy(),
            final(self).replies() == old(self).replies(),
            (final(self)@, c) == model::tty_close(old(self)@),
    {
        if self.event.read_closed {
            self.go(Phase::TtyClosing, Command::Deregister(Source::Tty))
        } else {
            self.wait()
        }
    }

    fn next_signal(&mut self) -> (c: Command)
        requires
            old(self).tidy(),
        ensures
            final(self).tidy(),
            final(self).replies() == old(self).replies(),
            (final(self)@, c) == model::next_signal(old(self)@),
    {
        let ghost start = self@;
        while self.cursor < self.signals.len()
            invariant
                self.tidy(),
                self.replies() == old(self).replies(),
                start == old(self)@,
                model::next_signal(self@) == model::next_signal(start),
            decreases self.signals@.len() - self.cursor,
        {
            let ghost before = self@;
            let signal: Signal = self.signals[self.cursor];
            self.cursor = self.cursor + 1;
            let ghost rest = SessionView { signals: before.signals.skip(1), ..before };
            proof {
                assert(before.signals.len() > 0);
                assert(before.signals[0] == signal);
                assert(self@.signals =~= before.signals.skip(1));
                assert(self@ == rest);
                assert(signal == Signal::Winch ==> model::next_signal(before) == model::go(
                    rest,
                    Phase::Remeasuring,
                    Command::MeasureTty,
                ));
                assert(signal.spec_is_fatal() ==> model::next_signal(before) == model::go(
                    rest,
                    Phase::Terminating,
                    Command::TerminateChild,
                ));
                assert((signal == Signal::Int || signal == Signal::Other) ==> model::next_signal(
                    before,
                ) == model::next_signal(rest));
            }
            match signal {
                Signal::Winch => {
                    return self.go(Phase::Remeasuring, Command::MeasureTty);
                },
                Signal::Term | Signal::Quit | Signal::Hup => {
                    return self.go(Phase::Terminating, Command::TerminateChild);
                },
                Signal::Int | Signal::Other => {},
            }
        }
        assert(self@.signals.len() == 0);
        self.wait()
    }

    fn dispatch(&mut self, event: Readiness) -> (c: Command)
        requires
            old(self).tidy(),
        ensures
            final(self).tidy(),
            final(self).replies() == old(self).replies(),
            (final(self)@, c) == model::dispatch(old(self)@, event),
    {
        self.event = event;
        match Source::from_token(event.token) {
            Some(Source::Master) => self.master_read(),
            Some(Source::Tty) => self.tty_write(),
            Some(Source::Signal) => self.go(Phase::TakingSignals, Command::TakeSignals),
            None => self.wait(),
        }
    }

    fn master_absorb(&mut self, reply: Reply) -> (c: Command)
        requires
            old(self).tidy(),
        ensures
            final(self).tidy(),
            final(self).replies() == old(self).replies(),
            (final(self)@, c) == model::master_absorb(old(self)@, reply@),
    {
        match reply {
            Reply::Data(bytes) => {
                if bytes.len() > 0 {
                    self.to_tty.append(bytes.as_slice());
                    self.go(Phase::MasterReading, Command::Read(Source::Master))
                } else {
                    self.master_read_done()
                }
            },
            _ => self.master_read_done(),
        }
    }

    fn tty_absorb(&mut self, reply: Reply) -> (c: Command)
        requires
            old(self).tidy(),
        ensures
            final(self).tidy(),
            final(self).replies() == old(self).replies(),
            (final(self)@, c) == model::tty_absorb(old(self)@, reply@),
    {
        match reply {
            Reply::Data(bytes) => {
                if bytes.len() > 0 {
                    self.to_master.append(bytes.as_slice());
                    self.go(Phase::TtyReading, Command::Read(Source::Tty))
                } else {
                    self.tty_read_done()
                }
            },
            _ => self.tty_read_done(),
        }
    }

    fn master_sent(&mut self, reply: Reply) -> (c: Command)
        requires
            old(self).tidy(),
            reply@ matches ReplyView::Written(n) ==> n <= old(self)@.to_master.len(),
        ensures
            final(self).tidy(),
            final(self).replies() == old(self).replies(),
            (final(self)@, c) == model::master_sent(old(self)@, reply@),
    {
        match reply {
            Reply::Written(n) => {
                self.to_master.consume(n);
                if self.to_master.is_empty() {
                    self.master_write_done()
                } else {
                    self.go(Phase::MasterWriting, Command::Write(Source::Master))
                }
            },
            _ => self.master_write_done(),
        }
    }

    fn tty_sent(&mut self, reply: Reply) -> (c: Command)
        requires
            old(self).tidy(),
            reply@ matches ReplyView::Written(n) ==> n <= old(self)@.to_tty.len(),
        ensures
            final(self).tidy(),
            final(self).replies() == old(self).replies(),
            (final(self)@, c) == model::tty_sent(old(self)@, reply@),
    {
        match reply {
            Reply::Written(n) => {
                self.to_tty.consume(n);
                if self.to_tty.is_empty() {
                    self.tty_write_done()
                } else {
                    self.go(Phase::TtyWriting, Command::Write(Source::Tty))
                }
            },
            _ => self.tty_write_done(),
        }
    }

    fn conclude(&mut self, reply: Reply) -> (c: Command)
        requires
            old(self).tidy(),
        ensures
            final(self).tidy(),
            final(self).replies() == old(self).replies(),
            (final(self)@, c) == model::conclude(old(self)@, reply@),
    {
        match self.failure {
            Some(error) => self.go(Phase::Finished, Command::Fail(error)),
            None => match reply {
                Reply::Reaped(status) => {
                    let code: i32 = exit_code(status);
                    self.go(Phase::Finished, Command::Exit(code))
                },
                _ => self.go(Phase::Finished, Command::Fail(Error::Io(Endpoint::Child))),
            },
        }
    }

    fn take_signals(&mut self, reply: Reply) -> (c: Command)
        requires
            old(self).tidy(),
            old(self)@.phase == Phase::TakingSignals,
        ensures
            final(self).tidy(),
            final(self).replies() == old(self).replies(),
            (final(self)@, c) == model::step(old(self)@, reply@),
    {
        match reply {
            Reply::Signals(signals) => {
                self.signals = signals;
                self.cursor = 0;
                assert(self.signals@.skip(0) =~= self.signals@);
                assert(self@ == (SessionView { signals: signals@, ..old(self)@ }));
                self.next_signal()
            },
            _ => self.wait(),
        }
    }

    /// Takes the driver's report on the command that is out and says what to do next.
    ///
    /// The result is that of [`model::step`]: the session is a faithful
    /// run of that transition system, whatever the driver reports.
    pub fn step(&mut self, reply: Reply) -> (command: Command)
        requires
            old(self).wf(),
            old(self)@.accepts(reply@),
        ensures
            final(self).wf(),
            (final(self)@, command) == model::step(old(self)@, reply@),
            final(self).replies() == old(self).replies().push(reply@),
            final(self).run() == extend(old(self).run(), reply@),
            final(self).run().state == final(self)@,
            final(self).run().command == command,
    {
        let ghost given = reply@;
        let command = self.take_step(reply);
        proof {
            let before = old(self).history@;
            let after = before.push(given);
            model::lemma_step_keeps_wf(old(self)@, given);
            lemma_step_keeps_settings(old(self)@, given);
            self.history@ = after;
            assert(after.drop_last() =~= before);
            assert(after.last() == given);
        }
        command
    }

    /// Takes the driver's report as [`Session::step`] does and, if the
    /// command that follows is a call of the sink, makes that call and
    /// reports on it too. The command handed back is for the driver: it is
    /// never a call of the sink. A driver that reports through this function
    /// alone has a sink that received exactly the calls of the session's
    /// run, in their order. If the sink fails to start, the session ends
    /// with `Fail(Error::Sink)` and the sink's error is kept in `sink`.
    pub fn advance<R: Recorder>(&mut self, reply: Reply, sink: &mut Logged<'_, R>) -> (next: Command)
        requires
            old(self).wf(),
            old(self)@.accepts(reply@),
            old(sink).calls() == old(self).run().trace.sink,
        ensures
            final(self).wf(),
            final(sink).calls() == final(self).run().trace.sink,
            final(self).run().state == final(self)@,
            next == final(self).run().command,
            !next.spec_is_sink_call(),
            ({
                let first = extend(old(self).run(), reply@);
                if first.command.spec_is_sink_call() {
                    ||| {
                        &&& final(self).run() == extend(first, ReplyView::Done)
                        &&& final(sink).holds_failure() == old(sink).holds_failure()
                    }
                    ||| {
                        &&& first.command is RecordStart
                        &&& final(self).run() == extend(first, ReplyView::Failed)
                        &&& next == Command::Fail(Error::Sink)
                        &&& final(sink).holds_failure()
                    }
                } else {
                    &&& final(self).run() == first
                    &&& final(sink).holds_failure() == old(sink).holds_failure()
                }
            }),
    {
        let command = self.step(reply);
        proof {
            self.lemma_sound();
        }
        match self.record(command, sink) {
            Some(answer) => {
                proof {
                    model::lemma_sink_call_is_answered(self@, answer@);
                }
                self.step(answer)
            },
            None => command,
        }
    }

    fn take_step(&mut self, reply: Reply) -> (command: Command)
        requires
            old(self).tidy(),
            old(self)@.wf(),
            old(self)@.accepts(reply@),
        ensures
            final(self).tidy(),
            final(self).replies() == old(self).replies(),
            (final(self)@, command) == model::step(old(self)@, reply@),
    {
        let done: bool = match reply {
            Reply::Done => true,
            _ => false,
        };
        match self.phase {
            Phase::OpeningTty => if done {
                self.go(Phase::Measuring, Command::MeasureTty)
            } else {
                self.refuse(Error::CannotOpenTty)
            },
            Phase::Measuring => {
                let size: WindowSize = effective_size(measured(&reply), self.size_override);
                self.size = size;
                self.go(Phase::Starting, Command::RecordStart(size))
            },
            Phase::Starting => if done {
                let size: WindowSize = self.size;
                self.go(Phase::Spawning, Command::Spawn(size))
            } else {
                self.refuse(Error::Sink)
            },
            Phase::Spawning => match reply {
                Reply::Done => self.go(Phase::OpeningPoller, Command::OpenPoller),
                Reply::NoPty => self.refuse(Error::PtyAllocationFailed),
                _ => self.refuse(Error::ForkFailed),
            },
            Phase::OpeningPoller => if done {
                self.go(Phase::EnteringRawMode, Command::EnterRawMode)
            } else {
                self.abort(Error::Io(Endpoint::Poller))
            },
            Phase::EnteringRawMode => if done {
                self.go(Phase::WatchingSignals, Command::WatchSignals)
            } else {
                self.abort(Error::Io(Endpoint::Tty))
            },
            Phase::WatchingSignals => if done {
                self.go(Phase::UnblockingMaster, Command::SetNonBlocking(Source::Master))
            } else {
                self.abort(Error::Io(Endpoint::Signals))
            },
            Phase::UnblockingMaster => if done {
                self.go(Phase::UnblockingTty, Command::SetNonBlocking(Source::Tty))
            } else {
                self.abort(Error::Io(Endpoint::Master))
            },
            Phase::UnblockingTty => if done {
                self.go(
                    Phase::RegisteringMaster,
                    Command::Register(Source::Master, Interest::Read),
                )
            } else {
                self.abort(Error::Io(Endpoint::Tty))
            },
            Phase::RegisteringMaster => if done {
                self.go(Phase::RegisteringTty, Command::Register(Source::Tty, Interest::Read))
            } else {
                self.abort(Error::Io(Endpoint::Master))
            },
            Phase::RegisteringTty => if done {
                self.go(
                    Phase::RegisteringSignals,
                    Command::Register(Source::Signal, Interest::Read),
                )
            } else {
                self.abort(Error::Io(Endpoint::Tty))
            },
            Phase::RegisteringSignals => if done {
                self.wait()
            } else {
                self.abort(Error::Io(Endpoint::Signals))
            },
            Phase::Waiting => match reply {
                Reply::Ready(event) => self.dispatch(event),
                Reply::Interrupted => self.wait(),
                _ => self.abort(Error::Io(Endpoint::Poller)),
            },
            Phase::MasterReading => self.master_absorb(reply),
            Phase::MasterRecording => self.go(
                Phase::MasterArming,
                Command::Reregister(Source::Tty, Interest::ReadWrite),
            ),
            Phase::MasterArming => if done {
                self.master_write()
            } else {
                self.abort(Error::Io(Endpoint::Tty))
            },
            Phase::MasterWriting => self.master_sent(reply),
            Phase::MasterDisarming => if done {
                self.master_close()
            } else {
                self.abort(Error::Io(Endpoint::Master))
            },
            Phase::MasterClosing => if done {
                self.master_closed()
            } else {
                self.abort(Error::Io(Endpoint::Master))
            },
            Phase::TtyWriting => self.tty_sent(reply),
            Phase::TtyDisarming => if done {
                self.tty_read()
            } else {
                self.abort(Error::Io(Endpoint::Tty))
            },
            Phase::TtyReading => self.tty_absorb(reply),
            Phase::TtyRecording => self.tty_arm(),
            Phase::TtyArming => if done {
                self.tty_close()
            } else {
                self.abort(Error::Io(Endpoint::Master))
            },
            Phase::TtyClosing => self.leave(),
            Phase::TakingSignals => self.take_signals(reply),
            Phase::Remeasuring => {
                let size: WindowSize = effective_size(measured(&reply), self.size_override);
                self.size = size;
                self.go(Phase::ResizingPty, Command::ResizePty(size))
            },
            Phase::ResizingPty => {
                let size: WindowSize = self.size;
                self.go(Phase::RecordingResize, Command::RecordResize(size))
            },
            Phase::RecordingResize => self.next_signal(),
            Phase::Terminating => self.leave(),
            Phase::Reaping => self.conclude(reply),
            Phase::Finished => self.refuse(Error::Io(Endpoint::Poller)),
        }
    }
}

} // verus!
