//! The event log: a header line, then one line per event.
//!
//! Times are counted in microseconds and written as seconds with six
//! decimals. Texts are written as JSON strings.

use vstd::prelude::*;
use vstd::string::StringSliceAdditionalSpecFns;
use vstd::utf8::valid_utf8;
use crate::format::json::{digits, quoted, seconds, write_decimal, write_quoted, write_seconds};
use crate::pty::size::WindowSize;

verus! {

/// What an event tells of.
#[derive(Clone, Copy, Debug, PartialEq, Eq, Structural)]
pub enum EventKind {
    /// The child wrote something.
    Output,
    /// The user typed something.
    Input,
    /// The window changed size.
    Resize,
}

impl EventKind {
    /// The letter that stands for the kind in an event line.
    pub open spec fn spec_code(self) -> u8 {
        match self {
            EventKind::Output => 111,
            EventKind::Input => 105,
            EventKind::Resize => 114,
        }
    }

    /// The letter that stands for the kind in an event line: `o`, `i` or `r`.
    #[verifier::when_used_as_spec(spec_code)]
    pub fn code(self) -> (c: u8)
        ensures
            c == self.spec_code(),
    {
        match self {
            EventKind::Output => 111,
            EventKind::Input => 105,
            EventKind::Resize => 114,
        }
    }
}

/// One event line, `[time, "kind", "payload"]` and a line feed, for an
/// event at `time` microseconds.
pub open spec fn event_line(time: nat, kind: EventKind, payload: Seq<u8>) -> Seq<u8> {
    seq![91u8] + seconds(time) + seq![44u8, 32u8, 34u8, kind.spec_code(), 34u8, 44u8, 32u8]
        + quoted(payload) + seq![93u8, 10u8]
}

/// Appends the line for one event to `out`.
pub fn write_event(out: &mut Vec<u8>, time: u64, kind: EventKind, payload: &[u8])
    ensures
        final(out)@ == old(out)@ + event_line(time as nat, kind, payload@),
{
    out.push(91);
    write_seconds(out, time);
    out.push(44);
    out.push(32);
    out.push(34);
    out.push(kind.code());
    out.push(34);
    out.push(44);
    out.push(32);
    write_quoted(out, payload);
    out.push(93);
    out.push(10);
    assert(out@ =~= old(out)@ + event_line(time as nat, kind, payload@));
}

/// The payload of a resize event: columns, `x`, rows.
pub open spec fn resize_text(size: WindowSize) -> Seq<u8> {
    digits(size.cols as nat).push(120u8) + digits(size.rows as nat)
}

/// The payload of a resize event: the columns, an `x`, the rows.
pub fn resize_payload(size: WindowSize) -> (text: Vec<u8>)
    ensures
        text@ == resize_text(size),
{
    let mut text: Vec<u8> = Vec::new();
    write_decimal(&mut text, size.cols as u64);
    text.push(120);
    write_decimal(&mut text, size.rows as u64);
    assert(text@ =~= resize_text(size));
    text
}

/// What a header tells of a recording.
#[derive(Debug)]
pub struct Header {
    /// Columns of the window at the start.
    pub width: u16,
    /// Rows of the window at the start.
    pub height: u16,
    /// When the recording began, in seconds since the epoch.
    pub timestamp: u64,
    /// Longest pause a player should keep, in microseconds.
    pub idle_time_limit: Option<u64>,
    /// Title of the recording.
    pub title: Option<Vec<u8>>,
    /// The environment variables kept with the recording.
    pub env: Vec<(Vec<u8>, Vec<u8>)>,
}

/// How a header line begins, up to the width.
pub const HEADER_OPEN: &'static str = "{\"version\": 2, \"width\": ";

/// What stands between the width and the height.
pub const HEADER_HEIGHT: &'static str = ", \"height\": ";

/// What stands between the height and the timestamp.
pub const HEADER_TIMESTAMP: &'static str = ", \"timestamp\": ";

/// What stands before the idle time limit.
pub const HEADER_IDLE: &'static str = ", \"idle_time_limit\": ";

/// What stands before the title.
pub const HEADER_TITLE: &'static str = ", \"title\": ";

/// What stands before the environment.
pub const HEADER_ENV: &'static str = ", \"env\": {";

/// What stands between a name and its value.
pub const PAIR_SEPARATOR: &'static str = ": ";

/// What stands between two variables.
pub const ENTRY_SEPARATOR: &'static str = ", ";

/// One variable of the environment, as a member of a JSON object.
pub open spec fn env_member(key: Seq<u8>, value: Seq<u8>) -> Seq<u8> {
    quoted(key) + PAIR_SEPARATOR.spec_bytes() + quoted(value)
}

/// The first `n` variables of `env`, as the members of a JSON object.
pub open spec fn env_members(env: Seq<(Vec<u8>, Vec<u8>)>, n: nat) -> Seq<u8>
    decreases n,
{
    if n == 0 {
        Seq::empty()
    } else if n == 1 {
        env_member(env[0].0@, env[0].1@)
    } else {
        env_members(env, (n - 1) as nat) + ENTRY_SEPARATOR.spec_bytes() + env_member(
            env[n - 1].0@,
            env[n - 1].1@,
        )
    }
}

/// The part of a header line that every recording has: the version, the
/// width, the height and the timestamp.
pub open spec fn header_fixed(h: Header) -> Seq<u8> {
    HEADER_OPEN.spec_bytes() + digits(h.width as nat) + HEADER_HEIGHT.spec_bytes() + digits(
        h.height as nat,
    ) + HEADER_TIMESTAMP.spec_bytes() + digits(h.timestamp as nat)
}

/// The idle time limit in a header line, if there is one.
pub open spec fn header_idle(h: Header) -> Seq<u8> {
    match h.idle_time_limit {
        Some(limit) => HEADER_IDLE.spec_bytes() + seconds(limit as nat),
        None => Seq::empty(),
    }
}

/// The title in a header line, if there is one.
pub open spec fn header_title(h: Header) -> Seq<u8> {
    match h.title {
        Some(title) => HEADER_TITLE.spec_bytes() + quoted(title@),
        None => Seq::empty(),
    }
}

/// The environment in a header line, if it is not empty.
pub open spec fn header_env(h: Header) -> Seq<u8> {
    if h.env@.len() > 0 {
        HEADER_ENV.spec_bytes() + env_members(h.env@, h.env@.len()).push(125u8)
    } else {
        Seq::empty()
    }
}

/// The header line: a JSON object with the version, the width, the height
/// and the timestamp, then the idle time limit and the title if there are
/// any, then the environment if it is not empty, and a line feed.
pub open spec fn header_line(h: Header) -> Seq<u8> {
    header_fixed(h) + header_idle(h) + header_title(h) + header_env(h) + seq![125u8, 10u8]
}

fn write_text(out: &mut Vec<u8>, text: &str)
    ensures
        final(out)@ == old(out)@ + text.spec_bytes(),
{
    out.extend_from_slice(text.as_bytes());
    assert(out@ =~= old(out)@ + text.spec_bytes());
}

fn write_env_members(out: &mut Vec<u8>, env: &Vec<(Vec<u8>, Vec<u8>)>)
    ensures
        final(out)@ == old(out)@ + env_members(env@, env@.len()),
{
    let mut i: usize = 0;
    assert(out@ =~= old(out)@ + env_members(env@, 0));
    while i < env.len()
        invariant
            i <= env@.len(),
            out@ == old(out)@ + env_members(env@, i as nat),
        decreases env@.len() - i,
    {
        let ghost before = out@;
        if i > 0 {
            write_text(out, ENTRY_SEPARATOR);
        }
        write_quoted(out, env[i].0.as_slice());
        write_text(out, PAIR_SEPARATOR);
        write_quoted(out, env[i].1.as_slice());
        proof {
            let member = env_member(env@[i as int].0@, env@[i as int].1@);
            if i == 0 {
                assert(out@ =~= before + member);
                assert(before + member =~= old(out)@ + member);
            } else {
                assert(out@ =~= before + ENTRY_SEPARATOR.spec_bytes() + member);
                assert(before + ENTRY_SEPARATOR.spec_bytes() + member =~= old(out)@ + (env_members(
                    env@,
                    i as nat,
                ) + ENTRY_SEPARATOR.spec_bytes() + member));
            }
        }
        i = i + 1;
    }
}

fn write_header_fixed(out: &mut Vec<u8>, header: &Header)
    ensures
        final(out)@ == old(out)@ + header_fixed(*header),
{
    write_text(out, HEADER_OPEN);
    write_decimal(out, header.width as u64);
    write_text(out, HEADER_HEIGHT);
    write_decimal(out, header.height as u64);
    write_text(out, HEADER_TIMESTAMP);
    write_decimal(out, header.timestamp);
    assert(out@ =~= old(out)@ + header_fixed(*header));
}

fn write_header_idle(out: &mut Vec<u8>, header: &Header)
    ensures
        final(out)@ == old(out)@ + header_idle(*header),
{
    match header.idle_time_limit {
        Some(limit) => {
            write_text(out, HEADER_IDLE);
            write_seconds(out, limit);
        },
        None => {},
    }
    assert(out@ =~= old(out)@ + header_idle(*header));
}

fn write_header_title(out: &mut Vec<u8>, header: &Header)
    ensures
        final(out)@ == old(out)@ + header_title(*header),
{
    match &header.title {
        Some(title) => {
            write_text(out, HEADER_TITLE);
            write_quoted(out, title.as_slice());
        },
        None => {},
    }
    assert(out@ =~= old(out)@ + header_title(*header));
}

fn write_header_env(out: &mut Vec<u8>, header: &Header)
    ensures
        final(out)@ == old(out)@ + header_env(*header),
{
    if header.env.len() > 0 {
        write_text(out, HEADER_ENV);
        write_env_members(out, &header.env);
        out.push(125);
    }
    assert(out@ =~= old(out)@ + header_env(*header));
}

/// Appends the header line for `header` to `out`.
pub fn write_header(out: &mut Vec<u8>, header: &Header)
    ensures
        final(out)@ == old(out)@ + header_line(*header),
{
    write_header_fixed(out, header);
    write_header_idle(out, header);
    write_header_title(out, header);
    write_header_env(out, header);
    out.push(125);
    out.push(10);
    assert(out@ =~= old(out)@ + header_line(*header));
}

/// The text that `String::from_utf8_lossy` makes of `bytes`, as UTF-8.
pub uninterp spec fn lossy_utf8(bytes: Seq<u8>) -> Seq<u8>;

/// Makes text of arbitrary bytes with `String::from_utf8_lossy` of the
/// standard library. Taken on trust from its documentation: the result
/// depends on the bytes alone, and bytes that are valid UTF-8 already come
/// back unchanged (only invalid sequences are replaced, by U+FFFD). Nothing
/// more is claimed of what invalid bytes turn into.
#[verifier::external_body]
fn to_text(bytes: &[u8]) -> (text: Vec<u8>)
    ensures
        text@ == lossy_utf8(bytes@),
        valid_utf8(bytes@) ==> text@ == bytes@,
{
    String::from_utf8_lossy(bytes).into_owned().into_bytes()
}

/// The writer of an event log, up to the file: it turns a header and
/// events into lines and keeps them until they are taken.
///
/// A writer that appends continues an earlier recording: it writes no
/// header, and it counts its times from the time of that recording's last
/// event. No writer ever writes a time smaller than the one before.
#[derive(Debug)]
pub struct Writer {
    append: bool,
    base: u64,
    last: u64,
    lines: Vec<u8>,
}

/// A [`Writer`] as contracts see it.
pub struct WriterView {
    /// Whether the writer continues an earlier recording.
    pub append: bool,
    /// The time, in microseconds, from which the writer counts.
    pub base: nat,
    /// The time of the last event written, or `base` if there is none.
    pub last: nat,
    /// The lines written and not yet taken.
    pub lines: Seq<u8>,
}

impl View for Writer {
    type V = WriterView;

    closed spec fn view(&self) -> WriterView {
        WriterView {
            append: self.append,
            base: self.base as nat,
            last: self.last as nat,
            lines: self.lines@,
        }
    }
}

/// The time an event is written with: `elapsed` microseconds after `base`,
/// but not before `last` and not beyond what 64 bits hold.
pub open spec fn event_time(base: nat, last: nat, elapsed: nat) -> nat {
    let time = if base + elapsed > u64::MAX {
        u64::MAX as nat
    } else {
        base + elapsed
    };
    if time < last {
        last
    } else {
        time
    }
}

impl Writer {
    /// A writer that counts from `base` microseconds; with `append` it
    /// continues an earlier recording.
    pub fn new(append: bool, base: u64) -> (w: Writer)
        ensures
            w@ == (WriterView { append, base: base as nat, last: base as nat, lines: Seq::empty() }),
    {
        Writer { append, base, last: base, lines: Vec::new() }
    }

    /// The time of the last event written, in microseconds.
    pub fn last_time(&self) -> (t: u64)
        ensures
            t == self@.last,
    {
        self.last
    }

    /// Writes the header line, unless the writer appends: a recording has one header.
    pub fn header(&mut self, header: &Header)
        ensures
            final(self)@ == (WriterView {
                lines: if old(self)@.append {
                    old(self)@.lines
                } else {
                    old(self)@.lines + header_line(*header)
                },
                ..old(self)@
            }),
    {
        if !self.append {
            write_header(&mut self.lines, header);
        }
    }

    /// Writes the line for an event that happened `elapsed` microseconds
    /// after the session began, and hands back the time written.
    pub fn event(&mut self, elapsed: u64, kind: EventKind, payload: &[u8]) -> (time: u64)
        ensures
            time == event_time(old(self)@.base, old(self)@.last, elapsed as nat),
            time >= old(self)@.last,
            final(self)@ == (WriterView {
                last: time as nat,
                lines: old(self)@.lines + event_line(time as nat, kind, payload@),
                ..old(self)@
            }),
    {
        let sum: u64 = match self.base.checked_add(elapsed) {
            Some(sum) => sum,
            None => u64::MAX,
        };
        let time: u64 = if sum < self.last {
            self.last
        } else {
            sum
        };
        write_event(&mut self.lines, time, kind, payload);
        self.last = time;
        time
    }

    /// Writes the line for bytes that the child wrote: the payload is the
    /// text that the standard library makes of them, which is the bytes
    /// themselves where they are valid UTF-8.
    pub fn output(&mut self, elapsed: u64, data: &[u8]) -> (time: u64)
        ensures
            time == event_time(old(self)@.base, old(self)@.last, elapsed as nat),
            final(self)@ == (WriterView {
                last: time as nat,
                lines: old(self)@.lines + event_line(
                    time as nat,
                    EventKind::Output,
                    lossy_utf8(data@),
                ),
                ..old(self)@
            }),
            valid_utf8(data@) ==> final(self)@.lines == old(self)@.lines + event_line(
                time as nat,
                EventKind::Output,
                data@,
            ),
    {
        let text: Vec<u8> = to_text(data);
        self.event(elapsed, EventKind::Output, text.as_slice())
    }

    /// Writes the line for bytes that the user typed; the payload is made as for output.
    pub fn input(&mut self, elapsed: u64, data: &[u8]) -> (time: u64)
        ensures
            time == event_time(old(self)@.base, old(self)@.last, elapsed as nat),
            final(self)@ == (WriterView {
                last: time as nat,
                lines: old(self)@.lines + event_line(
                    time as nat,
                    EventKind::Input,
                    lossy_utf8(data@),
                ),
                ..old(self)@
            }),
            valid_utf8(data@) ==> final(self)@.lines == old(self)@.lines + event_line(
                time as nat,
                EventKind::Input,
                data@,
            ),
    {
        let text: Vec<u8> = to_text(data);
        self.event(elapsed, EventKind::Input, text.as_slice())
    }

    /// Writes the line for a resize event.
    pub fn resize(&mut self, elapsed: u64, size: WindowSize) -> (time: u64)
        ensures
            time == event_time(old(self)@.base, old(self)@.last, elapsed as nat),
            final(self)@ == (WriterView {
                last: time as nat,
                lines: old(self)@.lines + event_line(
                    time as nat,
                    EventKind::Resize,
                    resize_text(size),
                ),
                ..old(self)@
            }),
    {
        let payload: Vec<u8> = resize_payload(size);
        self.event(elapsed, EventKind::Resize, payload.as_slice())
    }

    /// Hands out the lines written since the last call and keeps none.
    pub fn take(&mut self) -> (lines: Vec<u8>)
        ensures
            lines@ == old(self)@.lines,
            final(self)@ == (WriterView { lines: Seq::empty(), ..old(self)@ }),
    {
        let mut taken: Vec<u8> = Vec::new();
        taken.append(&mut self.lines);
        assert(taken@ =~= old(self)@.lines);
        taken
    }
}

} // verus!
