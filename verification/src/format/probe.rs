//! Reading the time of the last event back from an event log.

use vstd::prelude::*;
use vstd::slice::slice_subrange;
use crate::format::asciicast::{event_line, event_time, EventKind};
use crate::format::json::{
    digits, escaped, escaped_byte, quoted, seconds, six_digits, MICROS_PER_SECOND, ZERO,
};

verus! {

/// Whether `b` is a decimal digit.
pub open spec fn spec_is_digit(b: u8) -> bool {
    ZERO <= b <= 57
}

/// Whether `b` is a decimal digit.
#[verifier::when_used_as_spec(spec_is_digit)]
pub fn is_digit(b: u8) -> (r: bool)
    ensures
        r == spec_is_digit(b),
{
    ZERO <= b && b <= 57
}

/// Where the line begins that ends before position `end` of `log`: behind
/// the nearest line feed before `end`, or at the start of `log`.
pub open spec fn line_start(log: Seq<u8>, end: int) -> int
    decreases end,
{
    if end <= 0 {
        0
    } else if log[end - 1] == 10 {
        end
    } else {
        line_start(log, end - 1)
    }
}

/// The last line of `log`, without its line feed.
pub open spec fn last_line(log: Seq<u8>) -> Seq<u8> {
    let end = if log.len() > 0 && log.last() == 10 {
        log.len() - 1
    } else {
        log.len() as int
    };
    log.subrange(line_start(log, end), end)
}

/// Where the run of digits ends that begins at position `from` of `text`.
pub open spec fn digits_end(text: Seq<u8>, from: int) -> int
    decreases text.len() - from,
{
    if from < 0 || from >= text.len() || !spec_is_digit(text[from]) {
        from
    } else {
        digits_end(text, from + 1)
    }
}

/// The number that the digits `text[from..to]` write.
pub open spec fn number(text: Seq<u8>, from: int, to: int) -> nat
    decreases to - from,
{
    if to <= from {
        0
    } else {
        number(text, from, to - 1) * 10 + (text[to - 1] - ZERO) as nat
    }
}

/// The digit at position `at` of `text`, or zero from position `end` on.
pub open spec fn decimal_at(text: Seq<u8>, at: int, end: int) -> nat {
    if at < end {
        (text[at] - ZERO) as nat
    } else {
        0
    }
}

/// The microseconds that the decimals `text[from..end]` stand for. Decimals
/// behind the sixth do not count.
pub open spec fn decimals(text: Seq<u8>, from: int, end: int) -> nat {
    decimal_at(text, from, end) * 100000 + decimal_at(text, from + 1, end) * 10000 + decimal_at(
        text,
        from + 2,
        end,
    ) * 1000 + decimal_at(text, from + 3, end) * 100 + decimal_at(text, from + 4, end) * 10
        + decimal_at(text, from + 5, end)
}

/// The time, in microseconds, that an event line begins with: the line
/// opens with a bracket and a number of seconds, with or without decimals.
pub open spec fn line_time(line: Seq<u8>) -> Option<nat> {
    let whole_end = digits_end(line, 1);
    if line.len() == 0 || line[0] != 91 || whole_end == 1 {
        None
    } else if whole_end < line.len() && line[whole_end] == 46 {
        Some(
            number(line, 1, whole_end) * (MICROS_PER_SECOND as nat) + decimals(
                line,
                whole_end + 1,
                digits_end(line, whole_end + 1),
            ),
        )
    } else {
        Some(number(line, 1, whole_end) * (MICROS_PER_SECOND as nat))
    }
}

/// The time of the last event of a log, if its last line is an event line.
pub open spec fn spec_last_event_time(log: Seq<u8>) -> Option<nat> {
    line_time(last_line(log))
}

fn find_last_line(log: &[u8]) -> (line: &[u8])
    ensures
        line@ == last_line(log@),
{
    let n: usize = log.len();
    let end: usize = if n > 0 && log[n - 1] == 10 {
        n - 1
    } else {
        n
    };
    let mut start: usize = end;
    while start > 0 && log[start - 1] != 10
        invariant
            start <= end <= log@.len(),
            line_start(log@, start as int) == line_start(log@, end as int),
        decreases start,
    {
        start = start - 1;
    }
    slice_subrange(log, start, end)
}

/// The time, in microseconds, that an event line begins with; `None` if the
/// line does not begin as an event line does or the time is too large.
pub fn parse_line_time(line: &[u8]) -> (r: Option<u64>)
    ensures
        r == (match line_time(line@) {
            Some(t) => if t <= u64::MAX {
                Some(t as u64)
            } else {
                None
            },
            None => None,
        }),
{
    let n: usize = line.len();
    if n == 0 || line[0] != 91 {
        return None;
    }
    let mut i: usize = 1;
    let mut whole: u64 = 0;
    let mut over: bool = false;
    while i < n && is_digit(line[i])
        invariant
            1 <= i <= n,
            n == line@.len(),
            digits_end(line@, i as int) == digits_end(line@, 1),
            !over ==> whole == number(line@, 1, i as int),
            over ==> number(line@, 1, i as int) > u64::MAX,
        decreases n - i,
    {
        let d: u64 = (line[i] - ZERO) as u64;
        if !over {
            match whole.checked_mul(10) {
                Some(tenfold) => match tenfold.checked_add(d) {
                    Some(sum) => {
                        whole = sum;
                    },
                    None => {
                        over = true;
                    },
                },
                None => {
                    over = true;
                },
            }
        }
        i = i + 1;
    }
    let whole_end: usize = i;
    assert(digits_end(line@, 1) == whole_end);
    if whole_end == 1 {
        return None;
    }
    let mut fraction: u64 = 0;
    if whole_end < n && line[whole_end] == 46 {
        let from: usize = whole_end + 1;
        let mut j: usize = from;
        while j < n && is_digit(line[j])
            invariant
                from <= j <= n,
                n == line@.len(),
                digits_end(line@, j as int) == digits_end(line@, from as int),
                forall|k: int| from <= k < j ==> spec_is_digit(#[trigger] line@[k]),
            decreases n - j,
        {
            j = j + 1;
        }
        assert(digits_end(line@, from as int) == j);
        fraction = parse_decimals(line, from, j);
    }
    if over {
        assert(number(line@, 1, whole_end as int) * (MICROS_PER_SECOND as nat) > u64::MAX)
            by (nonlinear_arith)
            requires
                number(line@, 1, whole_end as int) > u64::MAX,
                MICROS_PER_SECOND == 1000000,
        ;
        return None;
    }
    match whole.checked_mul(MICROS_PER_SECOND) {
        Some(micros) => micros.checked_add(fraction),
        None => None,
    }
}

fn decimal_or_zero(line: &[u8], from: usize, place: usize, end: usize) -> (d: u64)
    requires
        from <= end <= line@.len(),
        place < 6,
        forall|k: int| from <= k < end ==> spec_is_digit(#[trigger] line@[k]),
    ensures
        d == decimal_at(line@, from + place, end as int),
        d <= 9,
{
    if place < end - from {
        (line[from + place] - ZERO) as u64
    } else {
        0
    }
}

fn parse_decimals(line: &[u8], from: usize, end: usize) -> (f: u64)
    requires
        from <= end <= line@.len(),
        forall|k: int| from <= k < end ==> spec_is_digit(#[trigger] line@[k]),
    ensures
        f == decimals(line@, from as int, end as int),
        f < 1000000,
{
    let d0: u64 = decimal_or_zero(line, from, 0, end);
    let d1: u64 = decimal_or_zero(line, from, 1, end);
    let d2: u64 = decimal_or_zero(line, from, 2, end);
    let d3: u64 = decimal_or_zero(line, from, 3, end);
    let d4: u64 = decimal_or_zero(line, from, 4, end);
    let d5: u64 = decimal_or_zero(line, from, 5, end);
    d0 * 100000 + d1 * 10000 + d2 * 1000 + d3 * 100 + d4 * 10 + d5
}

/// The time of the last event of a log, in microseconds: what a session
/// that appends to the log counts its own times from. `None` if the last
/// line is no event line, as in a log that holds only its header, or if the
/// time is too large.
pub fn last_event_time(log: &[u8]) -> (r: Option<u64>)
    ensures
        r == (match spec_last_event_time(log@) {
            Some(t) => if t <= u64::MAX {
                Some(t as u64)
            } else {
                None
            },
            None => None,
        }),
{
    parse_line_time(find_last_line(log))
}

/// The digits of a number are digits, and there is at least one.
pub proof fn lemma_digits_are_digits(n: nat)
    ensures
        digits(n).len() >= 1,
        forall|i: int| 0 <= i < digits(n).len() ==> spec_is_digit(#[trigger] digits(n)[i]),
    decreases n,
{
    if n >= 10 {
        lemma_digits_are_digits(n / 10);
    }
}

/// Reading the digits of a number gives the number back.
pub proof fn lemma_number_of_digits(text: Seq<u8>, from: int, n: nat)
    requires
        0 <= from,
        from + digits(n).len() <= text.len(),
        text.subrange(from, from + digits(n).len()) == digits(n),
    ensures
        number(text, from, from + digits(n).len()) == n,
    decreases n,
{
    let len = digits(n).len() as int;
    lemma_digits_are_digits(n);
    assert(text[from + len - 1] == text.subrange(from, from + len)[len - 1]);
    if n < 10 {
        assert(number(text, from, from) == 0);
    } else {
        let shorter = digits(n / 10);
        assert(text.subrange(from, from + shorter.len()) =~= shorter) by {
            assert forall|i: int| 0 <= i < shorter.len() implies text.subrange(
                from,
                from + shorter.len(),
            )[i] == shorter[i] by {
                assert(text.subrange(from, from + len)[i] == digits(n)[i]);
            }
        }
        lemma_number_of_digits(text, from, n / 10);
    }
}

/// A run of digits ends where the first byte that is no digit stands.
pub proof fn lemma_digits_end(text: Seq<u8>, from: int, to: int)
    requires
        0 <= from <= to <= text.len(),
        forall|k: int| from <= k < to ==> spec_is_digit(#[trigger] text[k]),
        to == text.len() || !spec_is_digit(text[to]),
    ensures
        digits_end(text, from) == to,
    decreases to - from,
{
    if from < to {
        lemma_digits_end(text, from + 1, to);
    }
}

/// No escaped text holds a line feed.
pub proof fn lemma_escaped_has_no_line_feed(text: Seq<u8>)
    ensures
        forall|i: int| 0 <= i < escaped(text).len() ==> #[trigger] escaped(text)[i] != 10,
    decreases text.len(),
{
    if text.len() > 0 {
        let front = escaped(text.drop_last());
        let back = escaped_byte(text.last());
        lemma_escaped_has_no_line_feed(text.drop_last());
        lemma_escaped_byte_has_no_line_feed(text.last());
        assert forall|i: int| 0 <= i < escaped(text).len() implies #[trigger] escaped(text)[i]
            != 10 by {
            if i < front.len() {
                assert(escaped(text)[i] == front[i]);
            } else {
                assert(escaped(text)[i] == back[i - front.len()]);
            }
        }
    }
}

/// No escaped byte holds a line feed.
pub proof fn lemma_escaped_byte_has_no_line_feed(b: u8)
    ensures
        forall|i: int| 0 <= i < escaped_byte(b).len() ==> #[trigger] escaped_byte(b)[i] != 10,
{
}

/// A line begins behind what came before it, if that ended with a line
/// feed and the line itself holds none.
pub proof fn lemma_line_start(log: Seq<u8>, begin: int, end: int)
    requires
        0 <= begin <= end <= log.len(),
        begin == 0 || log[begin - 1] == 10,
        forall|k: int| begin <= k < end ==> #[trigger] log[k] != 10,
    ensures
        line_start(log, end) == begin,
    decreases end - begin,
{
    if begin < end {
        lemma_line_start(log, begin, end - 1);
    }
}

/// An event line without its line feed.
pub open spec fn event_text(time: nat, kind: EventKind, payload: Seq<u8>) -> Seq<u8> {
    seq![91u8] + seconds(time) + seq![44u8, 32u8, 34u8, kind.spec_code(), 34u8, 44u8, 32u8]
        + quoted(payload) + seq![93u8]
}

/// An event line holds one line feed, at its end.
pub proof fn lemma_event_line_is_one_line(time: nat, kind: EventKind, payload: Seq<u8>)
    ensures
        event_line(time, kind, payload) == event_text(time, kind, payload).push(10u8),
        forall|i: int|
            0 <= i < event_text(time, kind, payload).len() ==> #[trigger] event_text(
                time,
                kind,
                payload,
            )[i] != 10,
{
    let whole = digits(time / (MICROS_PER_SECOND as nat));
    lemma_digits_are_digits(time / (MICROS_PER_SECOND as nat));
    lemma_escaped_has_no_line_feed(payload);
    assert(event_line(time, kind, payload) =~= event_text(time, kind, payload).push(10u8));
    let a = seq![91u8];
    let b = seconds(time);
    let c = seq![44u8, 32u8, 34u8, kind.spec_code(), 34u8, 44u8, 32u8];
    let d = quoted(payload);
    let e = seq![93u8];
    assert forall|i: int| 0 <= i < b.len() implies #[trigger] b[i] != 10 by {
        if i < whole.len() {
            assert(b[i] == whole[i]);
        }
    }
    assert forall|i: int| 0 <= i < d.len() implies #[trigger] d[i] != 10 by {
        if 0 < i < d.len() - 1 {
            assert(d[i] == escaped(payload)[i - 1]);
        }
    }
    let text = event_text(time, kind, payload);
    assert forall|i: int| 0 <= i < text.len() implies #[trigger] text[i] != 10 by {
        if i < 1 {
        } else if i < 1 + b.len() {
            assert(text[i] == b[i - 1]);
        } else if i < 1 + b.len() + 7 {
            assert(text[i] == c[i - 1 - b.len()]);
        } else if i < 1 + b.len() + 7 + d.len() {
            assert(text[i] == d[i - 8 - b.len()]);
        } else {
        }
    }
}

/// The six decimals of a number below a million write that number.
pub proof fn lemma_six_digits_value(m: nat)
    requires
        m < 1000000,
    ensures
        (m / 100000 % 10) * 100000 + (m / 10000 % 10) * 10000 + (m / 1000 % 10) * 1000 + (m / 100
            % 10) * 100 + (m / 10 % 10) * 10 + m % 10 == m,
{
    let a1 = m / 10;
    let a2 = a1 / 10;
    let a3 = a2 / 10;
    let a4 = a3 / 10;
    let a5 = a4 / 10;
    assert(a2 == m / 100);
    assert(a3 == m / 1000);
    assert(a4 == m / 10000);
    assert(a5 == m / 100000);
    assert(a5 < 10);
    assert(m == a1 * 10 + m % 10);
    assert(a1 == a2 * 10 + a1 % 10);
    assert(a2 == a3 * 10 + a2 % 10);
    assert(a3 == a4 * 10 + a3 % 10);
    assert(a4 == a5 * 10 + a4 % 10);
}

/// How an event line begins: a bracket, the digits of the seconds, a point,
/// six decimals and a comma.
pub proof fn lemma_event_text_begins(time: nat, kind: EventKind, payload: Seq<u8>)
    ensures
        ({
            let text = event_text(time, kind, payload);
            let whole = digits(time / (MICROS_PER_SECOND as nat));
            let six = six_digits(time % (MICROS_PER_SECOND as nat));
            &&& text.len() >= whole.len() + 9
            &&& text[0] == 91
            &&& forall|i: int| 0 <= i < whole.len() ==> #[trigger] text[1 + i] == whole[i]
            &&& text[1 + whole.len() as int] == 46
            &&& forall|k: int| 0 <= k < 6 ==> #[trigger] text[2 + whole.len() + k] == six[k]
            &&& text[8 + whole.len() as int] == 44
        }),
{
    let whole = digits(time / (MICROS_PER_SECOND as nat));
    let wl = whole.len() as int;
    let six = six_digits(time % (MICROS_PER_SECOND as nat));
    let text = event_text(time, kind, payload);
    let b = seconds(time);
    let c = seq![44u8, 32u8, 34u8, kind.spec_code(), 34u8, 44u8, 32u8];
    assert(b.len() == wl + 7);
    assert(text.len() >= 1 + b.len() + 7);
    assert forall|i: int| 0 <= i < b.len() implies #[trigger] text[1 + i] == b[i] by {}
    assert forall|i: int| 0 <= i < wl implies #[trigger] text[1 + i] == whole[i] by {
        assert(b[i] == whole[i]);
    }
    assert(b[wl] == 46);
    assert forall|k: int| 0 <= k < 6 implies #[trigger] text[2 + wl + k] == six[k] by {
        assert(b[wl + 1 + k] == six[k]);
        assert(text[1 + (wl + 1 + k)] == b[wl + 1 + k]);
    }
    assert(text[1 + b.len() as int] == c[0]);
}

/// The time an event line was written with is the time read from it.
pub proof fn lemma_event_text_time(time: nat, kind: EventKind, payload: Seq<u8>)
    ensures
        line_time(event_text(time, kind, payload)) == Some(time),
{
    let secs = time / (MICROS_PER_SECOND as nat);
    let micros = time % (MICROS_PER_SECOND as nat);
    let whole = digits(secs);
    let wl = whole.len() as int;
    let six = six_digits(micros);
    let text = event_text(time, kind, payload);
    lemma_digits_are_digits(secs);
    lemma_event_text_begins(time, kind, payload);
    assert forall|k: int| 1 <= k < 1 + wl implies spec_is_digit(#[trigger] text[k]) by {
        assert(text[1 + (k - 1)] == whole[k - 1]);
    }
    lemma_digits_end(text, 1, 1 + wl);
    assert(text.subrange(1, 1 + wl) =~= whole) by {
        assert forall|i: int| 0 <= i < wl implies text.subrange(1, 1 + wl)[i] == whole[i] by {
            assert(text[1 + i] == whole[i]);
        }
    }
    lemma_number_of_digits(text, 1, secs);
    assert forall|k: int| 2 + wl <= k < 8 + wl implies spec_is_digit(#[trigger] text[k]) by {
        assert(text[2 + wl + (k - 2 - wl)] == six[k - 2 - wl]);
    }
    lemma_digits_end(text, 2 + wl, 8 + wl);
    assert(decimals(text, 2 + wl, 8 + wl) == micros) by {
        assert(text[2 + wl + 0] == six[0]);
        assert(text[2 + wl + 1] == six[1]);
        assert(text[2 + wl + 2] == six[2]);
        assert(text[2 + wl + 3] == six[3]);
        assert(text[2 + wl + 4] == six[4]);
        assert(text[2 + wl + 5] == six[5]);
        lemma_six_digits_value(micros);
    }
}

/// What is probed is what was written: the time read from a log that ends
/// with an event line is the time that line was written with, whatever the
/// log held before, be it nothing, a header or other events.
pub proof fn law_probe_reads_back(before: Seq<u8>, time: nat, kind: EventKind, payload: Seq<u8>)
    requires
        before.len() == 0 || before.last() == 10,
    ensures
        spec_last_event_time(before + event_line(time, kind, payload)) == Some(time),
{
    let text = event_text(time, kind, payload);
    let log = before + event_line(time, kind, payload);
    lemma_event_line_is_one_line(time, kind, payload);
    lemma_event_text_time(time, kind, payload);
    let end = log.len() - 1;
    assert(log.last() == 10);
    assert forall|k: int| before.len() <= k < end implies #[trigger] log[k] != 10 by {
        assert(log[k] == text[k - before.len()]);
    }
    if before.len() > 0 {
        assert(log[before.len() - 1] == before.last());
    }
    lemma_line_start(log, before.len() as int, end);
    assert(log.subrange(before.len() as int, end) =~= text);
}

/// Appending continues a recording. If a log ends with an event at time
/// `base` and a line feed, then the first event that a writer counting from
/// `base` appends is written with a time of at least `base`, and that time
/// is what probing the longer log finds.
pub proof fn law_append_continues(
    log: Seq<u8>,
    base: nat,
    elapsed: nat,
    kind: EventKind,
    payload: Seq<u8>,
)
    requires
        log.len() > 0,
        log.last() == 10,
        spec_last_event_time(log) == Some(base),
    ensures
        ({
            let time = event_time(base, base, elapsed);
            &&& time >= base
            &&& spec_last_event_time(log + event_line(time, kind, payload)) == Some(time)
        }),
{
    law_probe_reads_back(log, event_time(base, base, elapsed), kind, payload);
}

} // verus!
