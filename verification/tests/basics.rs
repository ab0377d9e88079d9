use asciinema::format::raw::RawCapture;
use asciinema::pty::protocol::{EVENT_CAPACITY, SCRATCH_SIZE};
use asciinema::pty::{
    effective_size, exit_code, ByteQueue, ChildStatus, Command, Interest, Logged, Recorder, Signal, SizeOverride, Source, WindowSize,
};

#[test]
fn fallback_size_is_80_by_24() {
    assert_eq!(WindowSize::fallback(), WindowSize { cols: 80, rows: 24 });
    assert_eq!(effective_size(None, SizeOverride::none()), WindowSize { cols: 80, rows: 24 });
}

#[test]
fn override_replaces_only_the_axes_given() {
    let measured = WindowSize { cols: 120, rows: 40 };
    let both = SizeOverride { cols: Some(100), rows: Some(30) };
    let cols = SizeOverride { cols: Some(100), rows: None };
    let rows = SizeOverride { cols: None, rows: Some(30) };
    assert_eq!(measured.with_override(SizeOverride::none()), measured);
    assert_eq!(measured.with_override(both), WindowSize { cols: 100, rows: 30 });
    assert_eq!(measured.with_override(cols), WindowSize { cols: 100, rows: 40 });
    assert_eq!(measured.with_override(rows), WindowSize { cols: 120, rows: 30 });
    assert_eq!(effective_size(Some(measured), cols), WindowSize { cols: 100, rows: 40 });
    assert_eq!(effective_size(None, rows), WindowSize { cols: 80, rows: 30 });
    assert_eq!(measured.with_override(cols).with_override(cols), measured.with_override(cols));
}

#[test]
fn size_as_pair_is_cols_then_rows() {
    assert_eq!(WindowSize { cols: 120, rows: 40 }.as_pair(), (120, 40));
}

#[test]
fn exit_code_of_exited_child_is_its_status() {
    assert_eq!(exit_code(ChildStatus::Exited(0)), 0);
    assert_eq!(exit_code(ChildStatus::Exited(1)), 1);
    assert_eq!(exit_code(ChildStatus::Exited(42)), 42);
    assert_eq!(exit_code(ChildStatus::Exited(-1)), -1);
}

#[test]
fn exit_code_of_signalled_child_is_128_plus_signal() {
    assert_eq!(exit_code(ChildStatus::Signaled(15)), 128 + 15);
    assert_eq!(exit_code(ChildStatus::Signaled(9)), 137);
    assert_eq!(exit_code(ChildStatus::Signaled(1)), 129);
    assert_eq!(exit_code(ChildStatus::Signaled(255)), 383);
}

#[test]
fn exit_code_of_anything_else_is_1() {
    assert_eq!(exit_code(ChildStatus::Other), 1);
}

#[test]
fn queue_is_first_in_first_out() {
    let mut q = ByteQueue::new();
    assert!(q.is_empty());
    q.append(b"abc");
    q.append(b"");
    q.append(b"def");
    assert_eq!(q.len(), 6);
    assert_eq!(q.pending(), b"abcdef");
    assert_eq!(q.since(3), b"def");
    assert_eq!(q.since(6), b"");
    q.consume(2);
    assert_eq!(q.pending(), b"cdef");
    q.consume(0);
    assert_eq!(q.pending(), b"cdef");
    q.append(b"g");
    assert_eq!(q.pending(), b"cdefg");
    q.consume(5);
    assert!(q.is_empty());
    assert_eq!(q.len(), 0);
}

#[test]
fn tokens_name_the_three_sources() {
    assert_eq!(Source::Master.token(), 0);
    assert_eq!(Source::Tty.token(), 1);
    assert_eq!(Source::Signal.token(), 2);
    assert_eq!(Source::from_token(0), Some(Source::Master));
    assert_eq!(Source::from_token(1), Some(Source::Tty));
    assert_eq!(Source::from_token(2), Some(Source::Signal));
    assert_eq!(Source::from_token(3), None);
    assert_eq!(Source::from_token(usize::MAX), None);
}

#[test]
fn only_term_quit_and_hup_are_fatal() {
    assert!(Signal::Term.is_fatal());
    assert!(Signal::Quit.is_fatal());
    assert!(Signal::Hup.is_fatal());
    assert!(!Signal::Int.is_fatal());
    assert!(!Signal::Winch.is_fatal());
    assert!(!Signal::Other.is_fatal());
}

#[test]
fn interest_in_writing() {
    assert!(!Interest::Read.wants_write());
    assert!(Interest::ReadWrite.wants_write());
}

#[test]
fn final_and_sink_commands() {
    assert!(Command::Exit(0).is_final());
    assert!(Command::Fail(asciinema::error::Error::Sink).is_final());
    assert!(!Command::Reap.is_final());
    assert!(!Command::Wait.is_final());
    let size = WindowSize { cols: 1, rows: 1 };
    assert!(Command::RecordStart(size).is_sink_call());
    assert!(Command::RecordOutput.is_sink_call());
    assert!(Command::RecordInput.is_sink_call());
    assert!(Command::RecordResize(size).is_sink_call());
    assert!(!Command::ResizePty(size).is_sink_call());
    assert!(!Command::Spawn(size).is_sink_call());
}

#[test]
fn buffer_sizes() {
    assert_eq!(SCRATCH_SIZE, 128 * 1024);
    assert_eq!(EVENT_CAPACITY, 128);
}

#[test]
fn raw_capture_keeps_output_verbatim_and_nothing_else() {
    let mut raw = RawCapture::new();
    assert!(raw.start((80, 24)).is_ok());
    raw.output(b"foo");
    raw.input(b"typed");
    raw.resize((100, 30));
    raw.output(b"\x1b[0mbar");
    assert_eq!(raw.bytes(), b"foo\x1b[0mbar");
    assert_eq!(raw.take(), b"foo\x1b[0mbar".to_vec());
    assert_eq!(raw.bytes(), b"");
}

#[test]
fn logged_passes_every_call_through() {
    let mut raw = RawCapture::new();
    {
        let mut sink = Logged::new(&mut raw);
        assert!(sink.start(WindowSize { cols: 80, rows: 24 }).is_ok());
        sink.output(b"a");
        sink.input(b"b");
        sink.resize(WindowSize { cols: 81, rows: 25 });
        sink.output(b"c");
    }
    assert_eq!(raw.bytes(), b"ac");
}
