use asciinema::format::asciicast::{
    resize_payload, write_event, write_header, EventKind, Header, Writer,
};
use asciinema::format::json::{write_decimal, write_quoted, write_seconds};
use asciinema::format::probe::{is_digit, last_event_time, parse_line_time};
use asciinema::pty::WindowSize;

fn text(bytes: Vec<u8>) -> String {
    String::from_utf8(bytes).unwrap()
}

fn decimal(n: u64) -> String {
    let mut out = Vec::new();
    write_decimal(&mut out, n);
    text(out)
}

fn seconds(micros: u64) -> String {
    let mut out = Vec::new();
    write_seconds(&mut out, micros);
    text(out)
}

fn quoted(s: &[u8]) -> String {
    let mut out = Vec::new();
    write_quoted(&mut out, s);
    text(out)
}

fn event(time: u64, kind: EventKind, payload: &[u8]) -> String {
    let mut out = Vec::new();
    write_event(&mut out, time, kind, payload);
    text(out)
}

fn header(h: &Header) -> String {
    let mut out = Vec::new();
    write_header(&mut out, h);
    text(out)
}

fn plain_header() -> Header {
    Header { width: 80, height: 24, timestamp: 1504467315, idle_time_limit: None, title: None, env: Vec::new() }
}

#[test]
fn decimal_digits() {
    assert_eq!(decimal(0), "0");
    assert_eq!(decimal(7), "7");
    assert_eq!(decimal(10), "10");
    assert_eq!(decimal(1504467315), "1504467315");
    assert_eq!(decimal(u64::MAX), "18446744073709551615");
}

#[test]
fn decimal_appends_to_what_is_there() {
    let mut out = b"n=".to_vec();
    write_decimal(&mut out, 42);
    assert_eq!(out, b"n=42".to_vec());
}

#[test]
fn seconds_have_six_decimals() {
    assert_eq!(seconds(0), "0.000000");
    assert_eq!(seconds(1), "0.000001");
    assert_eq!(seconds(248848), "0.248848");
    assert_eq!(seconds(1_001_376), "1.001376");
    assert_eq!(seconds(2_000_000), "2.000000");
    assert_eq!(seconds(3_600_000_010), "3600.000010");
}

#[test]
fn strings_are_escaped_for_json() {
    assert_eq!(quoted(b""), "\"\"");
    assert_eq!(quoted(b"foo"), "\"foo\"");
    assert_eq!(quoted(b"say \"hi\""), "\"say \\\"hi\\\"\"");
    assert_eq!(quoted(b"a\\b"), "\"a\\\\b\"");
    assert_eq!(quoted(b"line\r\n"), "\"line\\r\\n\"");
    assert_eq!(quoted(b"\t\x08\x0c"), "\"\\t\\b\\f\"");
    assert_eq!(quoted(b"\x1b[0m"), "\"\\u001b[0m\"");
    assert_eq!(quoted(b"\x00\x1f"), "\"\\u0000\\u001f\"");
    assert_eq!(quoted(b"\x7f"), "\"\x7f\"");
    assert_eq!(quoted("zażółć".as_bytes()), "\"zażółć\"");
}

#[test]
fn event_lines() {
    assert_eq!(event(248848, EventKind::Output, b"foo"), "[0.248848, \"o\", \"foo\"]\n");
    assert_eq!(event(1_001_376, EventKind::Input, b"\r"), "[1.001376, \"i\", \"\\r\"]\n");
    assert_eq!(event(5_000_000, EventKind::Resize, b"120x40"), "[5.000000, \"r\", \"120x40\"]\n");
}

#[test]
fn kind_codes() {
    assert_eq!(EventKind::Output.code(), b'o');
    assert_eq!(EventKind::Input.code(), b'i');
    assert_eq!(EventKind::Resize.code(), b'r');
}

#[test]
fn resize_payload_is_cols_x_rows() {
    assert_eq!(resize_payload(WindowSize { cols: 120, rows: 40 }), b"120x40".to_vec());
    assert_eq!(resize_payload(WindowSize { cols: 0, rows: 65535 }), b"0x65535".to_vec());
}

#[test]
fn header_with_required_keys_only() {
    assert_eq!(
        header(&plain_header()),
        "{\"version\": 2, \"width\": 80, \"height\": 24, \"timestamp\": 1504467315}\n"
    );
}

#[test]
fn header_with_everything() {
    let h = Header {
        width: 132,
        height: 43,
        timestamp: 1,
        idle_time_limit: Some(2_500_000),
        title: Some(b"Demo \"one\"".to_vec()),
        env: vec![
            (b"SHELL".to_vec(), b"/bin/bash".to_vec()),
            (b"TERM".to_vec(), b"xterm-256color".to_vec()),
        ],
    };
    assert_eq!(
        header(&h),
        "{\"version\": 2, \"width\": 132, \"height\": 43, \"timestamp\": 1, \
         \"idle_time_limit\": 2.500000, \"title\": \"Demo \\\"one\\\"\", \
         \"env\": {\"SHELL\": \"/bin/bash\", \"TERM\": \"xterm-256color\"}}\n"
    );
}

#[test]
fn header_with_one_variable() {
    let h = Header { env: vec![(b"TERM".to_vec(), b"xterm".to_vec())], ..plain_header() };
    assert_eq!(
        header(&h),
        "{\"version\": 2, \"width\": 80, \"height\": 24, \"timestamp\": 1504467315, \
         \"env\": {\"TERM\": \"xterm\"}}\n"
    );
}

#[test]
fn digits_are_recognised() {
    assert!(is_digit(b'0'));
    assert!(is_digit(b'9'));
    assert!(!is_digit(b'/'));
    assert!(!is_digit(b':'));
}

#[test]
fn time_is_read_from_an_event_line() {
    assert_eq!(parse_line_time(b"[0.248848, \"o\", \"foo\"]"), Some(248848));
    assert_eq!(parse_line_time(b"[2.000000, \"o\", \"x\"]"), Some(2_000_000));
    assert_eq!(parse_line_time(b"[12, \"o\", \"x\"]"), Some(12_000_000));
    assert_eq!(parse_line_time(b"[1.5, \"o\", \"x\"]"), Some(1_500_000));
    assert_eq!(parse_line_time(b"[1.2345678, \"o\", \"x\"]"), Some(1_234_567));
    assert_eq!(parse_line_time(b"[7."), Some(7_000_000));
    assert_eq!(parse_line_time(b"[7"), Some(7_000_000));
}

#[test]
fn time_is_not_read_from_other_lines() {
    assert_eq!(parse_line_time(b""), None);
    assert_eq!(parse_line_time(b"["), None);
    assert_eq!(parse_line_time(b"[]"), None);
    assert_eq!(parse_line_time(b"[.5, \"o\", \"x\"]"), None);
    assert_eq!(parse_line_time(b"{\"version\": 2}"), None);
    assert_eq!(parse_line_time(b"1.5"), None);
    assert_eq!(parse_line_time(b" [1.5"), None);
}

#[test]
fn time_too_large_is_not_read() {
    assert_eq!(parse_line_time(b"[18446744073709.551615, \"o\", \"\"]"), Some(u64::MAX));
    assert_eq!(parse_line_time(b"[18446744073709.551616, \"o\", \"\"]"), None);
    assert_eq!(parse_line_time(b"[18446744073710, \"o\", \"\"]"), None);
    assert_eq!(parse_line_time(b"[99999999999999999999999999, \"o\", \"\"]"), None);
}

#[test]
fn probe_reads_the_last_line() {
    let log = b"{\"version\": 2, \"width\": 80, \"height\": 24, \"timestamp\": 1}\n\
                [0.100000, \"o\", \"a\"]\n[1.250000, \"o\", \"b\\nc\"]\n";
    assert_eq!(last_event_time(log), Some(1_250_000));
    // without the final line feed
    assert_eq!(last_event_time(&log[..log.len() - 1]), Some(1_250_000));
}

#[test]
fn probe_of_a_log_without_events_finds_nothing() {
    assert_eq!(last_event_time(b""), None);
    assert_eq!(last_event_time(b"\n"), None);
    assert_eq!(last_event_time(b"{\"version\": 2, \"width\": 80, \"height\": 24, \"timestamp\": 1}\n"), None);
    assert_eq!(last_event_time(b"[1.000000, \"o\", \"a\"]\n\n"), None);
}

#[test]
fn probe_reads_back_what_was_written() {
    for time in [0u64, 1, 999_999, 1_000_000, 2_000_000, 123_456_789_012, u64::MAX] {
        let mut log = Vec::new();
        write_header(&mut log, &plain_header());
        write_event(&mut log, 5, EventKind::Output, b"first");
        write_event(&mut log, time, EventKind::Output, b"[9.9, \"o\"]\n[8.8");
        assert_eq!(last_event_time(&log), Some(time));
    }
}

#[test]
fn writer_writes_header_then_events() {
    let mut w = Writer::new(false, 0);
    w.header(&plain_header());
    assert_eq!(w.event(100_000, EventKind::Output, b"foo"), 100_000);
    assert_eq!(w.event(200_000, EventKind::Input, b"x"), 200_000);
    assert_eq!(w.resize(300_000, WindowSize { cols: 120, rows: 40 }), 300_000);
    assert_eq!(w.last_time(), 300_000);
    assert_eq!(
        text(w.take()),
        "{\"version\": 2, \"width\": 80, \"height\": 24, \"timestamp\": 1504467315}\n\
         [0.100000, \"o\", \"foo\"]\n[0.200000, \"i\", \"x\"]\n[0.300000, \"r\", \"120x40\"]\n"
    );
    assert_eq!(w.take(), Vec::<u8>::new());
    w.event(400_000, EventKind::Output, b"bar");
    assert_eq!(text(w.take()), "[0.400000, \"o\", \"bar\"]\n");
}

#[test]
fn writer_times_never_go_back() {
    let mut w = Writer::new(false, 0);
    assert_eq!(w.event(500, EventKind::Output, b"a"), 500);
    assert_eq!(w.event(400, EventKind::Output, b"b"), 500);
    assert_eq!(w.event(500, EventKind::Output, b"c"), 500);
    assert_eq!(w.event(501, EventKind::Output, b"d"), 501);
    let mut late = Writer::new(true, u64::MAX - 1);
    assert_eq!(late.event(5, EventKind::Output, b"e"), u64::MAX);
    assert_eq!(late.event(0, EventKind::Output, b"f"), u64::MAX);
}

#[test]
fn append_continues_an_earlier_recording() {
    // first session: two seconds long
    let mut file = Vec::new();
    let mut first = Writer::new(false, 0);
    first.header(&plain_header());
    first.event(500_000, EventKind::Output, b"one ");
    first.event(2_000_000, EventKind::Output, b"two ");
    file.extend(first.take());

    // second session: appends
    let base = last_event_time(&file).unwrap();
    assert_eq!(base, 2_000_000);
    let mut second = Writer::new(true, base);
    second.header(&plain_header());
    let t = second.event(10_000, EventKind::Output, b"three");
    assert!(t >= 2_000_000);
    file.extend(second.take());

    let content = text(file);
    let lines: Vec<&str> = content.lines().collect();
    assert_eq!(lines.len(), 4);
    assert_eq!(lines.iter().filter(|l| l.starts_with('{')).count(), 1);
    assert!(lines[0].starts_with("{\"version\": 2"));
    assert_eq!(lines[1], "[0.500000, \"o\", \"one \"]");
    assert_eq!(lines[2], "[2.000000, \"o\", \"two \"]");
    assert_eq!(lines[3], "[2.010000, \"o\", \"three\"]");
    let first_of_second = parse_line_time(lines[3].as_bytes()).unwrap();
    assert!(first_of_second >= 2_000_000);
    let payloads: String = lines[1..]
        .iter()
        .map(|l| {
            let open = l.rfind(", \"").unwrap() + 3;
            l[open..l.len() - 2].to_string()
        })
        .collect();
    assert_eq!(payloads, "one two three");
}

#[test]
fn writer_keeps_valid_utf8_as_it_is() {
    let mut w = Writer::new(false, 0);
    w.output(1_000_000, "zażółć \u{1F600}".as_bytes());
    w.input(1_500_000, b"q");
    assert_eq!(
        text(w.take()),
        "[1.000000, \"o\", \"zażółć \u{1F600}\"]\n[1.500000, \"i\", \"q\"]\n"
    );
}

#[test]
fn writer_replaces_invalid_utf8() {
    let mut w = Writer::new(false, 0);
    w.output(0, b"a\xffb");
    w.input(0, b"\xc3");
    assert_eq!(
        text(w.take()),
        "[0.000000, \"o\", \"a\u{FFFD}b\"]\n[0.000000, \"i\", \"\u{FFFD}\"]\n"
    );
}
