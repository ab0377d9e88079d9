use asciinema::error::{Endpoint, Error};
use asciinema::pty::{
    Command, Interest, Logged, Phase, Readiness, Recorder, Reply, Session, Signal, SizeOverride,
    Source, WindowSize,
};

#[derive(Default)]
struct TestRecorder {
    size: Option<(u16, u16)>,
    output: Vec<Vec<u8>>,
    input: Vec<Vec<u8>>,
    resizes: Vec<(u16, u16)>,
    fail_start: bool,
    calls: Vec<&'static str>,
}

impl Recorder for TestRecorder {
    fn start(&mut self, size: (u16, u16)) -> std::io::Result<()> {
        self.calls.push("start");
        if self.fail_start {
            return Err(std::io::Error::new(std::io::ErrorKind::Other, "refused"));
        }
        self.size = Some(size);
        Ok(())
    }

    fn output(&mut self, data: &[u8]) {
        self.calls.push("output");
        self.output.push(data.into());
    }

    fn input(&mut self, data: &[u8]) {
        self.calls.push("input");
        self.input.push(data.into());
    }

    fn resize(&mut self, size: (u16, u16)) {
        self.calls.push("resize");
        self.resizes.push(size);
    }
}

impl TestRecorder {
    fn output(&self) -> Vec<String> {
        self.output
            .iter()
            .map(|x| String::from_utf8_lossy(x).to_string())
            .collect::<Vec<_>>()
    }
}

fn size(cols: u16, rows: u16) -> WindowSize {
    WindowSize { cols, rows }
}

fn master(readable: bool, writable: bool, read_closed: bool) -> Reply {
    Reply::Ready(Readiness { token: 0, readable, writable, read_closed })
}

fn tty(readable: bool, writable: bool, read_closed: bool) -> Reply {
    Reply::Ready(Readiness { token: 1, readable, writable, read_closed })
}

fn signal() -> Reply {
    Reply::Ready(Readiness { token: 2, readable: true, writable: false, read_closed: false })
}

/// A driver whose devices are a script: it answers sink commands by calling
/// the recorder and every other command with the next scripted reply.
struct Script<'a> {
    session: Session,
    command: Command,
    sink: Logged<'a, TestRecorder>,
    commands: Vec<Command>,
    written_to_tty: Vec<u8>,
    written_to_master: Vec<u8>,
}

impl<'a> Script<'a> {
    fn new(over: SizeOverride, capture_input: bool, recorder: &'a mut TestRecorder) -> Self {
        let (session, command) = Session::begin(over, capture_input);
        let mut script = Script {
            session,
            command,
            sink: Logged::new(recorder),
            commands: vec![command],
            written_to_tty: Vec::new(),
            written_to_master: Vec::new(),
        };
        script.settle();
        script
    }

    /// Carries out sink commands until another kind of command is out.
    fn settle(&mut self) {
        while let Some(reply) = self.session.record(self.command, &mut self.sink) {
            self.report(reply);
        }
    }

    fn report(&mut self, reply: Reply) {
        assert!(self.session.accepts(&reply), "{:?} does not answer {:?}", reply, self.command);
        if let Reply::Written(n) = reply {
            let taken = self.session.outgoing()[..n].to_vec();
            match self.command {
                Command::Write(Source::Tty) => self.written_to_tty.extend(taken),
                Command::Write(Source::Master) => self.written_to_master.extend(taken),
                other => panic!("write reported for {:?}", other),
            }
        }
        self.command = self.session.step(reply);
        self.commands.push(self.command);
    }

    /// Reports `reply` for the command that is out, which must be `expected`.
    fn answer(&mut self, expected: Command, reply: Reply) -> Command {
        assert_eq!(self.command, expected);
        self.report(reply);
        self.settle();
        self.command
    }

    /// Answers every preparation command with success, up to the first wait.
    fn prepare(&mut self, measured: Option<WindowSize>) {
        self.answer(Command::OpenTty, Reply::Done);
        let reply = match measured {
            Some(s) => Reply::Measured(s),
            None => Reply::Failed,
        };
        self.answer(Command::MeasureTty, reply);
        let mut guard = 0;
        while self.command != Command::Wait {
            self.report(Reply::Done);
            self.settle();
            guard += 1;
            assert!(guard < 20);
        }
    }

    fn reap(&mut self, status: asciinema::pty::ChildStatus) -> Command {
        self.answer(Command::Reap, Reply::Reaped(status))
    }
}

#[test]
fn exec() {
    let mut recorder = TestRecorder::default();
    let result;
    {
        let mut s = Script::new(SizeOverride { cols: None, rows: None }, false, &mut recorder);
        s.prepare(Some(size(80, 24)));
        s.answer(Command::Wait, master(true, false, false));
        s.answer(Command::Read(Source::Master), Reply::Data(b"foo".to_vec()));
        s.answer(Command::Read(Source::Master), Reply::Failed);
        s.answer(Command::Reregister(Source::Tty, Interest::ReadWrite), Reply::Done);
        s.answer(Command::Wait, tty(false, true, false));
        s.answer(Command::Write(Source::Tty), Reply::Written(3));
        s.answer(Command::Reregister(Source::Tty, Interest::Read), Reply::Done);
        s.answer(Command::Wait, master(true, false, false));
        s.answer(Command::Read(Source::Master), Reply::Data(b"bar".to_vec()));
        s.answer(Command::Read(Source::Master), Reply::Data(Vec::new()));
        s.answer(Command::Reregister(Source::Tty, Interest::ReadWrite), Reply::Done);
        s.answer(Command::Wait, tty(false, true, false));
        s.answer(Command::Write(Source::Tty), Reply::Written(3));
        s.answer(Command::Reregister(Source::Tty, Interest::Read), Reply::Done);
        s.answer(Command::Wait, master(false, false, true));
        s.answer(Command::Deregister(Source::Master), Reply::Done);
        result = s.reap(asciinema::pty::ChildStatus::Exited(0));
        assert_eq!(s.written_to_tty, b"foobar".to_vec());
    }

    assert!(matches!(result, Command::Exit(_)));
    assert!(recorder.size.is_some());
    assert_eq!(recorder.output(), vec!["foo", "bar"]);
}

#[test]
fn preparation_issues_commands_in_order() {
    let mut recorder = TestRecorder::default();
    let commands;
    {
        let mut s = Script::new(SizeOverride { cols: None, rows: None }, false, &mut recorder);
        s.prepare(Some(size(132, 43)));
        commands = s.commands.clone();
        assert_eq!(s.session.phase(), Phase::Waiting);
        assert_eq!(s.session.size(), size(132, 43));
    }
    let read = Interest::Read;
    assert_eq!(
        commands,
        vec![
            Command::OpenTty,
            Command::MeasureTty,
            Command::RecordStart(size(132, 43)),
            Command::Spawn(size(132, 43)),
            Command::OpenPoller,
            Command::EnterRawMode,
            Command::WatchSignals,
            Command::SetNonBlocking(Source::Master),
            Command::SetNonBlocking(Source::Tty),
            Command::Register(Source::Master, read),
            Command::Register(Source::Tty, read),
            Command::Register(Source::Signal, read),
            Command::Wait,
        ]
    );
    assert_eq!(recorder.size, Some((132, 43)));
    assert_eq!(recorder.calls, vec!["start"]);
}

#[test]
fn start_gets_measured_size_with_overrides() {
    let mut recorder = TestRecorder::default();
    {
        let mut s = Script::new(SizeOverride { cols: Some(100), rows: None }, false, &mut recorder);
        s.prepare(Some(size(80, 24)));
    }
    assert_eq!(recorder.size, Some((100, 24)));
}

#[test]
fn unmeasurable_terminal_counts_as_80_by_24() {
    let mut recorder = TestRecorder::default();
    {
        let mut s = Script::new(SizeOverride { cols: None, rows: Some(50) }, false, &mut recorder);
        s.prepare(None);
        assert_eq!(s.commands[3], Command::Spawn(size(80, 50)));
    }
    assert_eq!(recorder.size, Some((80, 50)));
}

#[test]
fn missing_terminal_fails_before_anything_else() {
    let mut recorder = TestRecorder::default();
    {
        let mut s = Script::new(SizeOverride { cols: None, rows: None }, false, &mut recorder);
        let end = s.answer(Command::OpenTty, Reply::Failed);
        assert_eq!(end, Command::Fail(Error::CannotOpenTty));
        assert!(s.session.is_finished());
        assert!(!s.session.accepts(&Reply::Done));
    }
    assert!(recorder.calls.is_empty());
}

#[test]
fn sink_that_fails_to_start_aborts_before_fork() {
    let mut recorder = TestRecorder { fail_start: true, ..TestRecorder::default() };
    {
        let mut s = Script::new(SizeOverride { cols: None, rows: None }, false, &mut recorder);
        s.answer(Command::OpenTty, Reply::Done);
        let end = s.answer(Command::MeasureTty, Reply::Measured(size(80, 24)));
        assert_eq!(end, Command::Fail(Error::Sink));
        assert!(!s.commands.iter().any(|c| matches!(c, Command::Spawn(_))));
    }
    assert_eq!(recorder.calls, vec!["start"]);
}

#[test]
fn spawn_failures_are_told_apart() {
    for (reply, error) in [
        (Reply::NoPty, Error::PtyAllocationFailed),
        (Reply::Failed, Error::ForkFailed),
    ] {
        let mut recorder = TestRecorder::default();
        let mut s = Script::new(SizeOverride { cols: None, rows: None }, false, &mut recorder);
        s.answer(Command::OpenTty, Reply::Done);
        s.answer(Command::MeasureTty, Reply::Measured(size(80, 24)));
        let end = s.answer(Command::Spawn(size(80, 24)), reply);
        assert_eq!(end, Command::Fail(error));
    }
}

#[test]
fn failed_preparation_reaps_the_child_and_reports_the_endpoint() {
    let cases = [
        (0, Endpoint::Poller),
        (1, Endpoint::Tty),
        (2, Endpoint::Signals),
        (3, Endpoint::Master),
        (4, Endpoint::Tty),
        (5, Endpoint::Master),
        (6, Endpoint::Tty),
        (7, Endpoint::Signals),
    ];
    for (successes, endpoint) in cases {
        let mut recorder = TestRecorder::default();
        let mut s = Script::new(SizeOverride { cols: None, rows: None }, false, &mut recorder);
        s.answer(Command::OpenTty, Reply::Done);
        s.answer(Command::MeasureTty, Reply::Measured(size(80, 24)));
        s.answer(Command::Spawn(size(80, 24)), Reply::Done);
        for _ in 0..successes {
            s.report(Reply::Done);
        }
        s.report(Reply::Failed);
        assert_eq!(s.command, Command::Reap);
        let end = s.reap(asciinema::pty::ChildStatus::Exited(0));
        assert_eq!(end, Command::Fail(Error::Io(endpoint)));
    }
}

#[test]
fn interrupted_wait_is_retried_and_failed_wait_is_fatal() {
    let mut recorder = TestRecorder::default();
    let mut s = Script::new(SizeOverride { cols: None, rows: None }, false, &mut recorder);
    s.prepare(Some(size(80, 24)));
    assert_eq!(s.answer(Command::Wait, Reply::Interrupted), Command::Wait);
    assert_eq!(s.answer(Command::Wait, Reply::Failed), Command::Reap);
    let end = s.reap(asciinema::pty::ChildStatus::Exited(0));
    assert_eq!(end, Command::Fail(Error::Io(Endpoint::Poller)));
}

#[test]
fn event_for_unknown_token_is_ignored() {
    let mut recorder = TestRecorder::default();
    let mut s = Script::new(SizeOverride { cols: None, rows: None }, false, &mut recorder);
    s.prepare(Some(size(80, 24)));
    let stray = Reply::Ready(Readiness { token: 7, readable: true, writable: true, read_closed: true });
    assert_eq!(s.answer(Command::Wait, stray), Command::Wait);
}

#[test]
fn one_run_of_reads_gives_one_output_call() {
    let mut recorder = TestRecorder::default();
    {
        let mut s = Script::new(SizeOverride { cols: None, rows: None }, false, &mut recorder);
        s.prepare(Some(size(80, 24)));
        s.answer(Command::Wait, master(true, false, false));
        s.answer(Command::Read(Source::Master), Reply::Data(b"ab".to_vec()));
        s.answer(Command::Read(Source::Master), Reply::Data(b"cd".to_vec()));
        s.answer(Command::Read(Source::Master), Reply::Failed);
        assert_eq!(s.session.pending_to_tty(), 4);
    }
    assert_eq!(recorder.output, vec![b"abcd".to_vec()]);
}

#[test]
fn output_call_carries_only_the_new_bytes() {
    let mut recorder = TestRecorder::default();
    {
        let mut s = Script::new(SizeOverride { cols: None, rows: None }, false, &mut recorder);
        s.prepare(Some(size(80, 24)));
        s.answer(Command::Wait, master(true, false, false));
        s.answer(Command::Read(Source::Master), Reply::Data(b"old".to_vec()));
        s.answer(Command::Read(Source::Master), Reply::Failed);
        s.answer(Command::Reregister(Source::Tty, Interest::ReadWrite), Reply::Done);
        s.answer(Command::Wait, master(true, false, false));
        s.answer(Command::Read(Source::Master), Reply::Data(b"new".to_vec()));
        s.answer(Command::Read(Source::Master), Reply::Failed);
        assert_eq!(s.session.pending_to_tty(), 6);
    }
    assert_eq!(recorder.output, vec![b"old".to_vec(), b"new".to_vec()]);
}

#[test]
fn readable_master_with_nothing_to_read_calls_no_sink() {
    let mut recorder = TestRecorder::default();
    {
        let mut s = Script::new(SizeOverride { cols: None, rows: None }, false, &mut recorder);
        s.prepare(Some(size(80, 24)));
        s.answer(Command::Wait, master(true, false, false));
        assert_eq!(s.answer(Command::Read(Source::Master), Reply::Failed), Command::Wait);
    }
    assert_eq!(recorder.calls, vec!["start"]);
}

#[test]
fn partial_write_keeps_the_rest_in_order() {
    let mut recorder = TestRecorder::default();
    let mut s = Script::new(SizeOverride { cols: None, rows: None }, false, &mut recorder);
    s.prepare(Some(size(80, 24)));
    s.answer(Command::Wait, master(true, false, false));
    s.answer(Command::Read(Source::Master), Reply::Data(b"hello world".to_vec()));
    s.answer(Command::Read(Source::Master), Reply::Failed);
    s.answer(Command::Reregister(Source::Tty, Interest::ReadWrite), Reply::Done);
    s.answer(Command::Wait, tty(false, true, false));
    assert_eq!(s.session.outgoing(), b"hello world");
    assert_eq!(s.answer(Command::Write(Source::Tty), Reply::Written(5)), Command::Write(Source::Tty));
    assert_eq!(s.session.outgoing(), b" world");
    assert_eq!(s.answer(Command::Write(Source::Tty), Reply::Written(0)), Command::Write(Source::Tty));
    assert_eq!(s.session.outgoing(), b" world");
    // would block: stop for now, stay interested in writing
    assert_eq!(s.answer(Command::Write(Source::Tty), Reply::Failed), Command::Wait);
    assert_eq!(s.session.pending_to_tty(), 6);
    s.answer(Command::Wait, tty(false, true, false));
    assert_eq!(
        s.answer(Command::Write(Source::Tty), Reply::Written(6)),
        Command::Reregister(Source::Tty, Interest::Read)
    );
    assert_eq!(s.written_to_tty, b"hello world".to_vec());
    assert_eq!(s.session.pending_to_tty(), 0);
}

#[test]
fn write_beyond_the_queue_is_not_accepted() {
    let mut recorder = TestRecorder::default();
    let mut s = Script::new(SizeOverride { cols: None, rows: None }, false, &mut recorder);
    s.prepare(Some(size(80, 24)));
    s.answer(Command::Wait, master(true, false, false));
    s.answer(Command::Read(Source::Master), Reply::Data(b"abc".to_vec()));
    s.answer(Command::Read(Source::Master), Reply::Failed);
    s.answer(Command::Reregister(Source::Tty, Interest::ReadWrite), Reply::Done);
    s.answer(Command::Wait, tty(false, true, false));
    assert!(!s.session.accepts(&Reply::Written(4)));
    assert!(s.session.accepts(&Reply::Written(3)));
    assert!(!s.session.accepts(&Reply::Done));
}

#[test]
fn master_close_with_pending_output_flushes_before_leaving() {
    let mut recorder = TestRecorder::default();
    let mut s = Script::new(SizeOverride { cols: None, rows: None }, false, &mut recorder);
    s.prepare(Some(size(80, 24)));
    s.answer(Command::Wait, master(true, false, true));
    s.answer(Command::Read(Source::Master), Reply::Data(b"bye".to_vec()));
    s.answer(Command::Read(Source::Master), Reply::Failed);
    s.answer(Command::Reregister(Source::Tty, Interest::ReadWrite), Reply::Done);
    assert_eq!(s.answer(Command::Deregister(Source::Master), Reply::Done), Command::Wait);
    assert!(s.session.is_flushing());
    s.answer(Command::Wait, tty(false, true, false));
    assert_eq!(s.answer(Command::Write(Source::Tty), Reply::Written(3)), Command::Reap);
    assert_eq!(s.written_to_tty, b"bye".to_vec());
    assert_eq!(s.reap(asciinema::pty::ChildStatus::Exited(0)), Command::Exit(0));
}

#[test]
fn master_close_with_nothing_pending_leaves_at_once() {
    let mut recorder = TestRecorder::default();
    let mut s = Script::new(SizeOverride { cols: None, rows: None }, false, &mut recorder);
    s.prepare(Some(size(80, 24)));
    s.answer(Command::Wait, master(false, false, true));
    assert_eq!(s.answer(Command::Deregister(Source::Master), Reply::Done), Command::Reap);
    assert!(!s.session.is_flushing());
    assert_eq!(s.reap(asciinema::pty::ChildStatus::Exited(7)), Command::Exit(7));
}

#[test]
fn typed_bytes_go_to_the_master_and_to_the_sink_when_captured() {
    let mut recorder = TestRecorder::default();
    {
        let mut s = Script::new(SizeOverride { cols: None, rows: None }, true, &mut recorder);
        s.prepare(Some(size(80, 24)));
        s.answer(Command::Wait, tty(true, false, false));
        s.answer(Command::Read(Source::Tty), Reply::Data(b"hello\n".to_vec()));
        assert_eq!(
            s.answer(Command::Read(Source::Tty), Reply::Failed),
            Command::Reregister(Source::Master, Interest::ReadWrite)
        );
        s.answer(Command::Reregister(Source::Master, Interest::ReadWrite), Reply::Done);
        s.answer(Command::Wait, master(false, true, false));
        assert_eq!(s.session.outgoing(), b"hello\n");
        assert_eq!(
            s.answer(Command::Write(Source::Master), Reply::Written(6)),
            Command::Reregister(Source::Master, Interest::Read)
        );
        s.answer(Command::Reregister(Source::Master, Interest::Read), Reply::Done);
        // the child echoes
        s.answer(Command::Wait, master(true, false, false));
        s.answer(Command::Read(Source::Master), Reply::Data(b"hello\r\n".to_vec()));
        s.answer(Command::Read(Source::Master), Reply::Failed);
        s.answer(Command::Reregister(Source::Tty, Interest::ReadWrite), Reply::Done);
        // the terminal closes
        s.answer(Command::Wait, tty(false, false, true));
        assert_eq!(s.answer(Command::Deregister(Source::Tty), Reply::Done), Command::Reap);
        assert_eq!(s.reap(asciinema::pty::ChildStatus::Exited(0)), Command::Exit(0));
        assert_eq!(s.written_to_master, b"hello\n".to_vec());
    }
    assert_eq!(recorder.input, vec![b"hello\n".to_vec()]);
    assert_eq!(recorder.output, vec![b"hello\r\n".to_vec()]);
    assert_eq!(recorder.calls, vec!["start", "input", "output"]);
}

#[test]
fn typed_bytes_are_not_recorded_without_capture() {
    let mut recorder = TestRecorder::default();
    {
        let mut s = Script::new(SizeOverride { cols: None, rows: None }, false, &mut recorder);
        s.prepare(Some(size(80, 24)));
        s.answer(Command::Wait, tty(true, false, false));
        s.answer(Command::Read(Source::Tty), Reply::Data(b"secret".to_vec()));
        assert_eq!(
            s.answer(Command::Read(Source::Tty), Reply::Failed),
            Command::Reregister(Source::Master, Interest::ReadWrite)
        );
        assert_eq!(s.session.pending_to_master(), 6);
    }
    assert!(recorder.input.is_empty());
    assert_eq!(recorder.calls, vec!["start"]);
}

#[test]
fn window_change_resizes_pty_then_tells_the_sink() {
    let mut recorder = TestRecorder::default();
    {
        let mut s = Script::new(SizeOverride { cols: None, rows: None }, false, &mut recorder);
        s.prepare(Some(size(80, 24)));
        s.answer(Command::Wait, master(true, false, false));
        s.answer(Command::Read(Source::Master), Reply::Data(b"line\r\n".to_vec()));
        s.answer(Command::Read(Source::Master), Reply::Failed);
        s.answer(Command::Reregister(Source::Tty, Interest::ReadWrite), Reply::Done);
        s.answer(Command::Wait, signal());
        s.answer(Command::TakeSignals, Reply::Signals(vec![Signal::Winch]));
        assert_eq!(
            s.answer(Command::MeasureTty, Reply::Measured(size(120, 40))),
            Command::ResizePty(size(120, 40))
        );
        assert_eq!(s.answer(Command::ResizePty(size(120, 40)), Reply::Done), Command::Wait);
        assert_eq!(s.session.size(), size(120, 40));
        let told = s.commands.iter().filter(|c| matches!(c, Command::RecordResize(_))).count();
        assert_eq!(told, 1);
    }
    assert_eq!(recorder.resizes, vec![(120, 40)]);
}

#[test]
fn window_change_keeps_the_overrides() {
    let mut recorder = TestRecorder::default();
    {
        let mut s = Script::new(SizeOverride { cols: None, rows: Some(30) }, false, &mut recorder);
        s.prepare(Some(size(80, 24)));
        s.answer(Command::Wait, signal());
        s.answer(Command::TakeSignals, Reply::Signals(vec![Signal::Int, Signal::Winch, Signal::Other]));
        s.answer(Command::MeasureTty, Reply::Measured(size(120, 40)));
        // a pseudo-terminal that cannot be resized does not stop the session
        assert_eq!(s.answer(Command::ResizePty(size(120, 30)), Reply::Failed), Command::Wait);
    }
    assert_eq!(recorder.resizes, vec![(120, 30)]);
}

#[test]
fn each_window_change_is_handled_in_turn() {
    let mut recorder = TestRecorder::default();
    {
        let mut s = Script::new(SizeOverride { cols: None, rows: None }, false, &mut recorder);
        s.prepare(Some(size(80, 24)));
        s.answer(Command::Wait, signal());
        s.answer(Command::TakeSignals, Reply::Signals(vec![Signal::Winch, Signal::Winch]));
        s.answer(Command::MeasureTty, Reply::Measured(size(90, 30)));
        assert_eq!(s.answer(Command::ResizePty(size(90, 30)), Reply::Done), Command::MeasureTty);
        s.answer(Command::MeasureTty, Reply::Failed);
        assert_eq!(s.answer(Command::ResizePty(size(80, 24)), Reply::Done), Command::Wait);
    }
    assert_eq!(recorder.resizes, vec![(90, 30), (80, 24)]);
}

#[test]
fn interrupt_is_ignored() {
    let mut recorder = TestRecorder::default();
    let mut s = Script::new(SizeOverride { cols: None, rows: None }, false, &mut recorder);
    s.prepare(Some(size(80, 24)));
    s.answer(Command::Wait, signal());
    assert_eq!(
        s.answer(Command::TakeSignals, Reply::Signals(vec![Signal::Int, Signal::Other, Signal::Int])),
        Command::Wait
    );
    s.answer(Command::Wait, signal());
    assert_eq!(s.answer(Command::TakeSignals, Reply::Signals(Vec::new())), Command::Wait);
}

#[test]
fn fatal_signals_terminate_the_child_and_leave() {
    for fatal in [Signal::Term, Signal::Quit, Signal::Hup] {
        let mut recorder = TestRecorder::default();
        let mut s = Script::new(SizeOverride { cols: None, rows: None }, false, &mut recorder);
        s.prepare(Some(size(80, 24)));
        s.answer(Command::Wait, signal());
        assert_eq!(
            s.answer(Command::TakeSignals, Reply::Signals(vec![Signal::Int, fatal, Signal::Winch])),
            Command::TerminateChild
        );
        assert_eq!(s.answer(Command::TerminateChild, Reply::Done), Command::Reap);
        assert_eq!(
            s.reap(asciinema::pty::ChildStatus::Signaled(15)),
            Command::Exit(128 + 15)
        );
    }
}

#[test]
fn exit_code_follows_the_child() {
    for (status, code) in [
        (asciinema::pty::ChildStatus::Exited(0), 0),
        (asciinema::pty::ChildStatus::Exited(3), 3),
        (asciinema::pty::ChildStatus::Signaled(15), 143),
        (asciinema::pty::ChildStatus::Signaled(9), 137),
        (asciinema::pty::ChildStatus::Other, 1),
    ] {
        let mut recorder = TestRecorder::default();
        let mut s = Script::new(SizeOverride { cols: None, rows: None }, false, &mut recorder);
        s.prepare(Some(size(80, 24)));
        s.answer(Command::Wait, master(false, false, true));
        s.answer(Command::Deregister(Source::Master), Reply::Done);
        assert_eq!(s.reap(status), Command::Exit(code));
        assert!(s.session.is_finished());
    }
}

#[test]
fn failed_wait_for_the_child_is_an_error() {
    let mut recorder = TestRecorder::default();
    let mut s = Script::new(SizeOverride { cols: None, rows: None }, false, &mut recorder);
    s.prepare(Some(size(80, 24)));
    s.answer(Command::Wait, master(false, false, true));
    s.answer(Command::Deregister(Source::Master), Reply::Done);
    assert_eq!(s.answer(Command::Reap, Reply::Failed), Command::Fail(Error::Io(Endpoint::Child)));
}

#[test]
fn registry_failures_during_the_session_are_fatal() {
    let mut recorder = TestRecorder::default();
    let mut s = Script::new(SizeOverride { cols: None, rows: None }, false, &mut recorder);
    s.prepare(Some(size(80, 24)));
    s.answer(Command::Wait, master(true, false, false));
    s.answer(Command::Read(Source::Master), Reply::Data(b"x".to_vec()));
    s.answer(Command::Read(Source::Master), Reply::Failed);
    let rw = Interest::ReadWrite;
    assert_eq!(s.answer(Command::Reregister(Source::Tty, rw), Reply::Failed), Command::Reap);
    assert_eq!(
        s.reap(asciinema::pty::ChildStatus::Exited(0)),
        Command::Fail(Error::Io(Endpoint::Tty))
    );
}

#[test]
fn fresh_and_outgoing_are_empty_outside_their_commands() {
    let mut recorder = TestRecorder::default();
    let mut s = Script::new(SizeOverride { cols: None, rows: None }, false, &mut recorder);
    s.prepare(Some(size(80, 24)));
    assert!(s.session.fresh().is_empty());
    assert!(s.session.outgoing().is_empty());
}

#[test]
fn advance_makes_the_sink_calls_itself() {
    let mut recorder = TestRecorder::default();
    let mut commands = Vec::new();
    {
        let mut sink = Logged::new(&mut recorder);
        let (mut session, first) = Session::begin(SizeOverride { cols: None, rows: None }, true);
        assert_eq!(first, Command::OpenTty);
        let replies = vec![
            Reply::Done,
            Reply::Measured(size(80, 24)),
            Reply::Done,
            Reply::Done,
            Reply::Done,
            Reply::Done,
            Reply::Done,
            Reply::Done,
            Reply::Done,
            Reply::Done,
            Reply::Done,
            master(true, false, false),
            Reply::Data(b"foo".to_vec()),
            Reply::Failed,
            Reply::Done,
            tty(true, false, false),
            Reply::Data(b"k".to_vec()),
            Reply::Failed,
            Reply::Done,
            signal(),
            Reply::Signals(vec![Signal::Winch]),
            Reply::Measured(size(100, 30)),
            Reply::Done,
            master(false, false, true),
            Reply::Done,
            tty(false, true, false),
            Reply::Written(3),
            Reply::Reaped(asciinema::pty::ChildStatus::Exited(0)),
        ];
        for reply in replies {
            assert!(session.accepts(&reply));
            let command = session.advance(reply, &mut sink);
            assert!(!command.is_sink_call());
            commands.push(command);
        }
        assert!(sink.take_failure().is_none());
    }
    assert_eq!(commands.last(), Some(&Command::Exit(0)));
    assert_eq!(recorder.calls, vec!["start", "output", "input", "resize"]);
    assert_eq!(recorder.size, Some((80, 24)));
    assert_eq!(recorder.output, vec![b"foo".to_vec()]);
    assert_eq!(recorder.input, vec![b"k".to_vec()]);
    assert_eq!(recorder.resizes, vec![(100, 30)]);
}

#[test]
fn advance_keeps_the_error_of_a_failed_start() {
    let mut recorder = TestRecorder { fail_start: true, ..TestRecorder::default() };
    let mut sink = Logged::new(&mut recorder);
    let (mut session, _) = Session::begin(SizeOverride { cols: None, rows: None }, false);
    assert_eq!(session.advance(Reply::Done, &mut sink), Command::MeasureTty);
    assert_eq!(
        session.advance(Reply::Measured(size(80, 24)), &mut sink),
        Command::Fail(Error::Sink)
    );
    let failure = sink.take_failure();
    assert_eq!(failure.map(|e| e.to_string()), Some("refused".to_owned()));
}
