//! Numbers and strings as the event log writes them.

use vstd::prelude::*;

verus! {


/// Microseconds in a second.
pub const MICROS_PER_SECOND: u64 = 1000000;

/// The digit `0`.
pub const ZERO: u8 = 48;

/// The decimal digits of `n`, most significant first, without leading zeros.
pub open spec fn digits(n: nat) -> Seq<u8>
    decreases n,
{
    if n < 10 {
        seq![(ZERO + n) as u8]
    } else {
        digits(n / 10).push((ZERO + n % 10) as u8)
    }
}

/// The six decimal digits of `n`, which is below a million, with leading zeros.
pub open spec fn six_digits(n: nat) -> Seq<u8> {
    seq![
        (ZERO + n / 100000 % 10) as u8,
        (ZERO + n / 10000 % 10) as u8,
        (ZERO + n / 1000 % 10) as u8,
        (ZERO + n / 100 % 10) as u8,
        (ZERO + n / 10 % 10) as u8,
        (ZERO + n % 10) as u8,
    ]
}

/// A time of `micros` microseconds as seconds: the whole seconds, a point, six decimals.
pub open spec fn seconds(micros: nat) -> Seq<u8> {
    digits(micros / (MICROS_PER_SECOND as nat)).push(46u8) + six_digits(
        micros % (MICROS_PER_SECOND as nat),
    )
}

/// Appends the decimal digits of `n` to `out`.
pub fn write_decimal(out: &mut Vec<u8>, n: u64)
    ensures
        final(out)@ == old(out)@ + digits(n as nat),
    decreases n,
{
    if n < 10 {
        let d: u8 = ZERO + (n as u8);
        out.push(d);
        assert(out@ =~= old(out)@ + digits(n as nat));
    } else {
        write_decimal(out, n / 10);
        let d: u8 = ZERO + ((n % 10) as u8);
        out.push(d);
        assert(out@ =~= old(out)@ + digits(n as nat));
    }
}

/// Appends `micros` microseconds, written as seconds with six decimals, to `out`.
pub fn write_seconds(out: &mut Vec<u8>, micros: u64)
    ensures
        final(out)@ == old(out)@ + seconds(micros as nat),
{
    write_decimal(out, micros / MICROS_PER_SECOND);
    out.push(46);
    let n: u64 = micros % MICROS_PER_SECOND;
    out.push(ZERO + ((n / 100000 % 10) as u8));
    out.push(ZERO + ((n / 10000 % 10) as u8));
    out.push(ZERO + ((n / 1000 % 10) as u8));
    out.push(ZERO + ((n / 100 % 10) as u8));
    out.push(ZERO + ((n / 10 % 10) as u8));
    out.push(ZERO + ((n % 10) as u8));
    assert(out@ =~= old(out)@ + seconds(micros as nat));
}

/// The small hexadecimal digit for `v`, which is below 16.
pub open spec fn spec_hex_digit(v: u8) -> u8 {
    if v < 10 {
        (ZERO + v) as u8
    } else {
        (87 + v) as u8
    }
}

/// The small hexadecimal digit for `v`, which is below 16.
#[verifier::when_used_as_spec(spec_hex_digit)]
pub fn hex_digit(v: u8) -> (d: u8)
    requires
        v < 16,
    ensures
        d == spec_hex_digit(v),
{
    if v < 10 {
        ZERO + v
    } else {
        87 + v
    }
}

/// How one byte of a text stands inside a JSON string: a quotation mark and
/// a backslash behind a backslash, the control characters below 32 by
/// their short names or as `\u00..`, every other byte as it is.
pub open spec fn escaped_byte(b: u8) -> Seq<u8> {
    if b == 34 {
        seq![92u8, 34u8]
    } else if b == 92 {
        seq![92u8, 92u8]
    } else if b == 8 {
        seq![92u8, 98u8]
    } else if b == 9 {
        seq![92u8, 116u8]
    } else if b == 10 {
        seq![92u8, 110u8]
    } else if b == 12 {
        seq![92u8, 102u8]
    } else if b == 13 {
        seq![92u8, 114u8]
    } else if b < 32 {
        seq![92u8, 117u8, 48u8, 48u8, spec_hex_digit(b / 16), spec_hex_digit(b % 16)]
    } else {
        seq![b]
    }
}

/// How a text stands inside a JSON string: byte by byte as [`escaped_byte`] says.
pub open spec fn escaped(text: Seq<u8>) -> Seq<u8>
    decreases text.len(),
{
    if text.len() == 0 {
        Seq::empty()
    } else {
        escaped(text.drop_last()) + escaped_byte(text.last())
    }
}

/// A text as a JSON string: escaped, between quotation marks.
pub open spec fn quoted(text: Seq<u8>) -> Seq<u8> {
    seq![34u8] + escaped(text) + seq![34u8]
}

/// Appends one byte of a text, escaped for a JSON string, to `out`.
pub fn write_escaped_byte(out: &mut Vec<u8>, b: u8)
    ensures
        final(out)@ == old(out)@ + escaped_byte(b),
{
    if b == 34 {
        out.push(92);
        out.push(34);
    } else if b == 92 {
        out.push(92);
        out.push(92);
    } else if b == 8 {
        out.push(92);
        out.push(98);
    } else if b == 9 {
        out.push(92);
        out.push(116);
    } else if b == 10 {
        out.push(92);
        out.push(110);
    } else if b == 12 {
        out.push(92);
        out.push(102);
    } else if b == 13 {
        out.push(92);
        out.push(114);
    } else if b < 32 {
        out.push(92);
        out.push(117);
        out.push(48);
        out.push(48);
        out.push(hex_digit(b / 16));
        out.push(hex_digit(b % 16));
    } else {
        out.push(b);
    }
    assert(out@ =~= old(out)@ + escaped_byte(b));
}

/// Appends `text` as a JSON string, with its quotation marks, to `out`.
pub fn write_quoted(out: &mut Vec<u8>, text: &[u8])
    ensures
        final(out)@ == old(out)@ + quoted(text@),
{
    out.push(34);
    let mut i: usize = 0;
    while i < text.len()
        invariant
            i <= text@.len(),
            out@ == old(out)@ + seq![34u8] + escaped(text@.take(i as int)),
        decreases text@.len() - i,
    {
        let ghost before = out@;
        write_escaped_byte(out, text[i]);
        proof {
            let more = text@.take(i + 1);
            assert(more.drop_last() =~= text@.take(i as int));
            assert(more.last() == text@[i as int]);
            assert(out@ =~= old(out)@ + seq![34u8] + escaped(more));
        }
        i = i + 1;
    }
    assert(text@.take(text@.len() as int) =~= text@);
    out.push(34);
    assert(out@ =~= old(out)@ + quoted(text@));
}

} // verus!
