//! The window-size probe's protocol: the bytes that push the cursor to the
//! terminal's bottom right corner and request a Device Status Report, and
//! the parser for the terminal's cursor-position reply
//! `ESC [ row ; col R`, whose row and column are one-based decimal numbers.

use vstd::prelude::*;
use crate::render::{dec_digits, push_decimal};

verus! {

/// A cursor-position reply that does not match `ESC [ digits ; digits R`,
/// or whose numbers do not fit the machine word.
#[derive(Clone, Copy, Debug, PartialEq, Eq, Structural)]
pub enum ProbeParseError {
    MalformedReply,
}

/// An ASCII decimal digit.
pub open spec fn is_digit(b: u8) -> bool {
    0x30 <= b <= 0x39
}

/// The number a run of decimal digit bytes denotes, most significant first.
pub open spec fn digits_val(s: Seq<u8>) -> nat
    decreases s.len(),
{
    if s.len() == 0 {
        0
    } else {
        (digits_val(s.drop_last()) * 10 + (s.last() - 0x30)) as nat
    }
}

/// The first position at or after `i` that does not hold a digit (or the
/// end of the sequence).
pub open spec fn digit_run_end(s: Seq<u8>, i: int) -> int
    decreases s.len() - i,
{
    if i < 0 || i >= s.len() {
        i
    } else if is_digit(s[i]) {
        digit_run_end(s, i + 1)
    } else {
        i
    }
}

/// What `digit_run_end` marks: digits up to it, none at it.
pub proof fn lemma_digit_run_end(s: Seq<u8>, i: int)
    requires
        0 <= i <= s.len(),
    ensures
        i <= digit_run_end(s, i) <= s.len(),
        forall|j: int| i <= j < digit_run_end(s, i) ==> is_digit(s[j]),
        digit_run_end(s, i) < s.len() ==> !is_digit(s[digit_run_end(s, i)]),
    decreases s.len() - i,
{
    if i < s.len() && is_digit(s[i]) {
        lemma_digit_run_end(s, i + 1);
    }
}

/// The digit run from `start` ends exactly where the digits stop.
pub proof fn lemma_digit_run_end_is(s: Seq<u8>, start: int, i: int)
    requires
        0 <= start <= i <= s.len(),
        forall|j: int| start <= j < i ==> is_digit(s[j]),
        i < s.len() ==> !is_digit(s[i]),
    ensures
        digit_run_end(s, start) == i,
    decreases i - start,
{
    if start < i {
        lemma_digit_run_end_is(s, start + 1, i);
    }
}

/// A longer prefix of a digit run never denotes a smaller number.
pub proof fn lemma_digits_val_prefix(t: Seq<u8>, k: int)
    requires
        0 <= k <= t.len(),
        forall|j: int| 0 <= j < t.len() ==> is_digit(t[j]),
    ensures
        digits_val(t.take(k)) <= digits_val(t),
    decreases t.len() - k,
{
    if k < t.len() {
        assert(t.take(k + 1).drop_last() =~= t.take(k));
        assert(t.take(k + 1).last() == t[k]);
        lemma_digits_val_prefix(t, k + 1);
    } else {
        assert(t.take(k) =~= t);
    }
}

/// Whether a byte sequence opens with a well-formed cursor-position reply:
/// `ESC [`, a nonempty digit run, `;`, a nonempty digit run, `R`.
pub open spec fn report_shape(s: Seq<u8>) -> bool {
    let d1 = digit_run_end(s, 2);
    let d2 = digit_run_end(s, d1 + 1);
    &&& s.len() >= 2
    &&& s[0] == 0x1b
    &&& s[1] == 0x5b
    &&& d1 > 2
    &&& d1 < s.len()
    &&& s[d1] == 0x3b
    &&& d2 > d1 + 1
    &&& d2 < s.len()
    &&& s[d2] == 0x52
}

/// The row number a well-formed reply carries.
pub open spec fn report_row(s: Seq<u8>) -> nat {
    digits_val(s.subrange(2, digit_run_end(s, 2)))
}

/// The column number a well-formed reply carries.
pub open spec fn report_col(s: Seq<u8>) -> nat {
    let d1 = digit_run_end(s, 2);
    digits_val(s.subrange(d1 + 1, digit_run_end(s, d1 + 1)))
}

/// Whether a reply parses: it has the right shape and both numbers fit the
/// machine word.
pub open spec fn report_parses(s: Seq<u8>) -> bool {
    &&& report_shape(s)
    &&& report_row(s) <= usize::MAX
    &&& report_col(s) <= usize::MAX
}

/// Reads the digit run beginning at `start` and its value, or fails when no
/// digit stands there or the value overflows the machine word.
fn scan_number(buf: &[u8], start: usize) -> (r: Result<(usize, usize), ProbeParseError>)
    requires
        start <= buf@.len(),
    ensures
        match r {
            Ok((val, end)) => {
                &&& end == digit_run_end(buf@, start as int)
                &&& start < end <= buf@.len()
                &&& val == digits_val(buf@.subrange(start as int, end as int))
            },
            Err(_) => digit_run_end(buf@, start as int) == start
                || digits_val(
                    buf@.subrange(start as int, digit_run_end(buf@, start as int)),
                ) > usize::MAX,
        },
{
    proof {
        lemma_digit_run_end(buf@, start as int);
    }
    let ghost run_end: int = digit_run_end(buf@, start as int);
    let mut i: usize = start;
    let mut val: usize = 0;
    while i < buf.len() && (0x30 <= buf[i]) && (buf[i] <= 0x39)
        invariant
            start <= i <= buf@.len(),
            forall|j: int| start <= j < i ==> is_digit(buf@[j]),
            val == digits_val(buf@.subrange(start as int, i as int)),
        decreases buf@.len() - i,
    {
        let b: u8 = buf[i];
        let d: usize = (b - 0x30) as usize;
        proof {
            assert(buf@.subrange(start as int, i + 1).drop_last()
                =~= buf@.subrange(start as int, i as int));
            assert(buf@.subrange(start as int, i + 1).last() == buf@[i as int]);
        }
        if val > usize::MAX / 10 {
            proof {
                overflow_means_run_overflows(buf@, start as int, i as int, (val * 10 + d) as nat);
            }
            return Err(ProbeParseError::MalformedReply);
        }
        let high: usize = val * 10;
        if d > usize::MAX - high {
            proof {
                overflow_means_run_overflows(buf@, start as int, i as int, (val * 10 + d) as nat);
            }
            return Err(ProbeParseError::MalformedReply);
        }
        val = high + d;
        i = i + 1;
    }
    proof {
        lemma_digit_run_end_is(buf@, start as int, i as int);
    }
    if i == start {
        Err(ProbeParseError::MalformedReply)
    } else {
        Ok((val, i))
    }
}

/// When the next digit would push the value past the machine word, the whole
/// run's value is past it too.
proof fn overflow_means_run_overflows(s: Seq<u8>, start: int, i: int, v: nat)
    requires
        0 <= start <= i < s.len(),
        forall|j: int| start <= j <= i ==> is_digit(s[j]),
        digits_val(s.subrange(start, i + 1)) == v,
        v > usize::MAX,
    ensures
        digits_val(s.subrange(start, digit_run_end(s, start))) > usize::MAX,
{
    lemma_digit_run_end(s, start);
    let e = digit_run_end(s, start);
    assert(i + 1 <= e) by {
        if e <= i {
            assert(is_digit(s[e]));
        }
    }
    let t = s.subrange(start, e);
    assert(forall|j: int| 0 <= j < t.len() ==> is_digit(t[j]));
    assert(t.take(i + 1 - start) =~= s.subrange(start, i + 1));
    lemma_digits_val_prefix(t, i + 1 - start);
}

/// Parses the terminal's cursor-position reply from the start of `buf`,
/// returning the one-based row and column it reports. Exactly the replies
/// of the shape `ESC [ digits ; digits R` whose numbers fit the machine
/// word parse; anything else is a malformed reply.
pub fn parse_cursor_report(buf: &[u8]) -> (r: Result<(usize, usize), ProbeParseError>)
    ensures
        match r {
            Ok((row, col)) => {
                &&& report_parses(buf@)
                &&& row == report_row(buf@)
                &&& col == report_col(buf@)
            },
            Err(_) => !report_parses(buf@),
        },
{
    if buf.len() < 2 {
        return Err(ProbeParseError::MalformedReply);
    }
    if buf[0] != 0x1b || buf[1] != 0x5b {
        return Err(ProbeParseError::MalformedReply);
    }
    let (row, d1) = match scan_number(buf, 2) {
        Ok(p) => p,
        Err(e) => {
            return Err(e);
        },
    };
    if d1 == buf.len() {
        return Err(ProbeParseError::MalformedReply);
    }
    if buf[d1] != 0x3b {
        return Err(ProbeParseError::MalformedReply);
    }
    let (col, d2) = match scan_number(buf, d1 + 1) {
        Ok(p) => p,
        Err(e) => {
            return Err(e);
        },
    };
    if d2 == buf.len() {
        return Err(ProbeParseError::MalformedReply);
    }
    if buf[d2] != 0x52 {
        return Err(ProbeParseError::MalformedReply);
    }
    Ok((row, col))
}

/// `ESC [ n C ESC [ m B` — move the cursor `n` columns right and `m` rows
/// down; the terminal clamps the motion at its edges.
pub open spec fn cursor_motion_seq(right: nat, down: nat) -> Seq<u8> {
    seq![0x1bu8, 0x5bu8] + dec_digits(right) + seq![0x43u8]
        + seq![0x1bu8, 0x5bu8] + dec_digits(down) + seq![0x42u8]
}

/// The bytes of a relative cursor motion, used to push the cursor to the
/// bottom right corner before the probe.
pub fn cursor_motion_bytes(right: usize, down: usize) -> (r: Vec<u8>)
    ensures
        r@ == cursor_motion_seq(right as nat, down as nat),
{
    let mut out: Vec<u8> = Vec::new();
    out.push(0x1b);
    out.push(0x5b);
    push_decimal(&mut out, right);
    out.push(0x43);
    out.push(0x1b);
    out.push(0x5b);
    push_decimal(&mut out, down);
    out.push(0x42);
    proof {
        assert(out@ =~= cursor_motion_seq(right as nat, down as nat));
    }
    out
}

/// `ESC [ 6 n` — the Device Status Report request the probe sends.
pub open spec fn probe_request_seq() -> Seq<u8> {
    seq![0x1b, 0x5b, 0x36, 0x6e]
}

/// The bytes of the Device Status Report request.
pub fn probe_request_bytes() -> (r: Vec<u8>)
    ensures
        r@ == probe_request_seq(),
{
    let mut out: Vec<u8> = Vec::new();
    out.push(0x1b);
    out.push(0x5b);
    out.push(0x36);
    out.push(0x6e);
    proof {
        assert(out@ =~= probe_request_seq());
    }
    out
}

} // verus!
