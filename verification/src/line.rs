//! Byte-exact construction of log lines.
//!
//! The wire format of one line is
//! `[<timestamp> ]<LEVEL padded to 5> [<target>[@<thread>]] <message>\r\n`,
//! where the timestamp, when present, is an ISO-8601-like string with
//! millisecond precision ending in a literal `Z` or an explicit numeric
//! offset.

use vstd::prelude::*;

use crate::clock::{clock_parts_valid, ClockParts};

verus! {

/// Appends every byte of `src` to `dst`, in order.
pub fn push_all(dst: &mut Vec<u8>, src: &[u8])
    ensures
        final(dst)@ == old(dst)@ + src@,
{
    let mut i: usize = 0;
    while i < src.len()
        invariant
            i <= src@.len(),
            dst@ == old(dst)@ + src@.take(i as int),
        decreases src@.len() - i,
    {
        dst.push(src[i]);
        assert(old(dst)@ + src@.take(i as int + 1) =~= (old(dst)@ + src@.take(i as int)).push(
            src@[i as int],
        ));
        i += 1;
    }
    assert(src@.take(i as int) =~= src@);
}

/// The ASCII digit for `d`.
pub open spec fn digit(d: int) -> u8 {
    (48 + d) as u8
}

/// `n` written as exactly two decimal digits.
pub open spec fn two_digits_spec(n: int) -> Seq<u8> {
    seq![digit(n / 10), digit(n % 10)]
}

/// `n` written as exactly three decimal digits.
pub open spec fn three_digits_spec(n: int) -> Seq<u8> {
    seq![digit(n / 100), digit((n / 10) % 10), digit(n % 10)]
}

/// `n` written as exactly four decimal digits.
pub open spec fn four_digits_spec(n: int) -> Seq<u8> {
    seq![digit(n / 1000), digit((n / 100) % 10), digit((n / 10) % 10), digit(n % 10)]
}

/// `y` written as four digits, preceded by a sign when negative.
pub open spec fn year_digits_spec(y: int) -> Seq<u8> {
    if y < 0 {
        seq![45u8] + four_digits_spec(-y)
    } else {
        four_digits_spec(y)
    }
}

/// Appends `n` as exactly two decimal digits.
fn push_two_digits(dst: &mut Vec<u8>, n: u8)
    requires
        n < 100,
    ensures
        final(dst)@ == old(dst)@ + two_digits_spec(n as int),
{
    dst.push(48 + n / 10);
    dst.push(48 + n % 10);
    assert(dst@ =~= old(dst)@ + two_digits_spec(n as int));
}

/// Appends `n` as exactly three decimal digits.
fn push_three_digits(dst: &mut Vec<u8>, n: u16)
    requires
        n < 1000,
    ensures
        final(dst)@ == old(dst)@ + three_digits_spec(n as int),
{
    dst.push(48 + (n / 100) as u8);
    dst.push(48 + ((n / 10) % 10) as u8);
    dst.push(48 + (n % 10) as u8);
    assert(dst@ =~= old(dst)@ + three_digits_spec(n as int));
}

/// Appends `n` as exactly four decimal digits.
fn push_four_digits(dst: &mut Vec<u8>, n: u16)
    requires
        n < 10000,
    ensures
        final(dst)@ == old(dst)@ + four_digits_spec(n as int),
{
    dst.push(48 + (n / 1000) as u8);
    dst.push(48 + ((n / 100) % 10) as u8);
    dst.push(48 + ((n / 10) % 10) as u8);
    dst.push(48 + (n % 10) as u8);
    assert(dst@ =~= old(dst)@ + four_digits_spec(n as int));
}

/// The date and time of `p` up to millisecond precision, without any offset
/// marker: `YYYY-MM-DDThh:mm:ss.mmm`.
pub open spec fn base_timestamp_spec(p: ClockParts) -> Seq<u8> {
    year_digits_spec(p.year as int) + seq![45u8] + two_digits_spec(p.month as int) + seq![45u8]
        + two_digits_spec(p.day as int) + seq![84u8] + two_digits_spec(p.hour as int) + seq![58u8]
        + two_digits_spec(p.minute as int) + seq![58u8] + two_digits_spec(p.second as int)
        + seq![46u8] + three_digits_spec(p.millisecond as int)
}

/// The UTC form of the timestamp: the base form followed by a literal `Z`.
pub open spec fn utc_timestamp_spec(p: ClockParts) -> Seq<u8> {
    base_timestamp_spec(p) + seq![90u8]
}

/// The explicit numeric offset marker for an offset of `s` seconds:
/// a mandatory sign, then `hh:mm`.
pub open spec fn offset_suffix_spec(s: int) -> Seq<u8> {
    (if s < 0 {
        seq![45u8]
    } else {
        seq![43u8]
    }) + two_digits_spec(abs_offset(s) / 3600) + seq![58u8] + two_digits_spec(
        (abs_offset(s) % 3600) / 60,
    )
}

/// The magnitude of an offset.
pub open spec fn abs_offset(s: int) -> int {
    if s < 0 {
        -s
    } else {
        s
    }
}

/// The fixed-offset form of the timestamp: the base form followed by the
/// explicit numeric offset marker.
pub open spec fn offset_timestamp_spec(p: ClockParts, offset_seconds: int) -> Seq<u8> {
    base_timestamp_spec(p) + offset_suffix_spec(offset_seconds)
}

/// Appends the base timestamp `YYYY-MM-DDThh:mm:ss.mmm` of `p`.
fn push_base_timestamp(dst: &mut Vec<u8>, p: &ClockParts)
    requires
        clock_parts_valid(*p),
    ensures
        final(dst)@ == old(dst)@ + base_timestamp_spec(*p),
{
    if p.year < 0 {
        dst.push(45u8);
        push_four_digits(dst, (-p.year) as u16);
    } else {
        push_four_digits(dst, p.year as u16);
    }
    dst.push(45u8);
    push_two_digits(dst, p.month);
    dst.push(45u8);
    push_two_digits(dst, p.day);
    dst.push(84u8);
    push_two_digits(dst, p.hour);
    dst.push(58u8);
    push_two_digits(dst, p.minute);
    dst.push(58u8);
    push_two_digits(dst, p.second);
    dst.push(46u8);
    push_three_digits(dst, p.millisecond);
    assert(dst@ =~= old(dst)@ + base_timestamp_spec(*p));
}

/// Formats `p` as the UTC timestamp `YYYY-MM-DDThh:mm:ss.mmmZ`.
pub fn format_timestamp_utc(p: &ClockParts) -> (r: Vec<u8>)
    requires
        clock_parts_valid(*p),
    ensures
        r@ == utc_timestamp_spec(*p),
{
    let mut r: Vec<u8> = Vec::new();
    push_base_timestamp(&mut r, p);
    r.push(90u8);
    assert(r@ =~= utc_timestamp_spec(*p));
    r
}

/// Formats `p` as a fixed-offset timestamp `YYYY-MM-DDThh:mm:ss.mmm+hh:mm`
/// (sign mandatory).
pub fn format_timestamp_offset(p: &ClockParts, offset_seconds: i32) -> (r: Vec<u8>)
    requires
        clock_parts_valid(*p),
        -93599 <= offset_seconds <= 93599,
    ensures
        r@ == offset_timestamp_spec(*p, offset_seconds as int),
{
    let mut r: Vec<u8> = Vec::new();
    push_base_timestamp(&mut r, p);
    let magnitude: i32 = if offset_seconds < 0 {
        r.push(45u8);
        -offset_seconds
    } else {
        r.push(43u8);
        offset_seconds
    };
    push_two_digits(&mut r, (magnitude / 3600) as u8);
    r.push(58u8);
    push_two_digits(&mut r, ((magnitude % 3600) / 60) as u8);
    assert(r@ =~= offset_timestamp_spec(*p, offset_seconds as int));
    r
}

/// Everything of a line after its (possibly empty) timestamp field:
/// `<level> [<target><thread>] <message>\r\n`.
pub open spec fn line_tail_spec(
    level_str: Seq<u8>,
    target: Seq<u8>,
    thread: Seq<u8>,
    message: Seq<u8>,
) -> Seq<u8> {
    level_str + seq![32u8, 91u8] + target + thread + seq![93u8, 32u8] + message + seq![
        13u8,
        10u8,
    ]
}

/// One full log line: the timestamp field followed by the line tail.
pub open spec fn line_spec(
    ts_field: Seq<u8>,
    level_str: Seq<u8>,
    target: Seq<u8>,
    thread: Seq<u8>,
    message: Seq<u8>,
) -> Seq<u8> {
    ts_field + line_tail_spec(level_str, target, thread, message)
}

/// Composes one full log line from its fields.
pub fn compose_line(
    ts_field: &[u8],
    level_str: &[u8],
    target: &[u8],
    thread: &[u8],
    message: &[u8],
) -> (r: Vec<u8>)
    ensures
        r@ == line_spec(ts_field@, level_str@, target@, thread@, message@),
{
    let mut r: Vec<u8> = Vec::new();
    push_all(&mut r, ts_field);
    push_all(&mut r, level_str);
    r.push(32u8);
    r.push(91u8);
    push_all(&mut r, target);
    push_all(&mut r, thread);
    r.push(93u8);
    r.push(32u8);
    push_all(&mut r, message);
    r.push(13u8);
    r.push(10u8);
    assert(r@ =~= line_spec(ts_field@, level_str@, target@, thread@, message@));
    r
}

/// The side-channel diagnostic line for `msg`:
/// `[log_nonblock error] <msg>\n`.
pub open spec fn error_report_line_spec(msg: Seq<u8>) -> Seq<u8> {
    seq![
        91u8,
        108u8,
        111u8,
        103u8,
        95u8,
        110u8,
        111u8,
        110u8,
        98u8,
        108u8,
        111u8,
        99u8,
        107u8,
        32u8,
        101u8,
        114u8,
        114u8,
        111u8,
        114u8,
        93u8,
        32u8,
    ] + msg + seq![10u8]
}

/// Builds the diagnostic line that the side-channel error reporter writes
/// directly to the error stream, bypassing the queue.
pub fn error_report_line(msg: &[u8]) -> (r: Vec<u8>)
    ensures
        r@ == error_report_line_spec(msg@),
{
    let mut r: Vec<u8> = Vec::new();
    r.push(91u8);
    r.push(108u8);
    r.push(111u8);
    r.push(103u8);
    r.push(95u8);
    r.push(110u8);
    r.push(111u8);
    r.push(110u8);
    r.push(98u8);
    r.push(108u8);
    r.push(111u8);
    r.push(99u8);
    r.push(107u8);
    r.push(32u8);
    r.push(101u8);
    r.push(114u8);
    r.push(114u8);
    r.push(111u8);
    r.push(114u8);
    r.push(93u8);
    r.push(32u8);
    push_all(&mut r, msg);
    r.push(10u8);
    assert(r@ =~= error_report_line_spec(msg@));
    r
}

/// Idempotence of formatting: the same fields always compose to the same
/// line, and two lines built from the same fields but different timestamps
/// are byte-identical after their timestamp fields.
pub proof fn lemma_format_idempotent(
    ts1: Seq<u8>,
    ts2: Seq<u8>,
    level_str: Seq<u8>,
    target: Seq<u8>,
    thread: Seq<u8>,
    message: Seq<u8>,
)
    ensures
        ts1 == ts2 ==> line_spec(ts1, level_str, target, thread, message) == line_spec(
            ts2,
            level_str,
            target,
            thread,
            message,
        ),
        line_spec(ts1, level_str, target, thread, message).skip(ts1.len() as int) == line_spec(
            ts2,
            level_str,
            target,
            thread,
            message,
        ).skip(ts2.len() as int),
{
    assert(line_spec(ts1, level_str, target, thread, message).skip(ts1.len() as int)
        =~= line_tail_spec(level_str, target, thread, message));
    assert(line_spec(ts2, level_str, target, thread, message).skip(ts2.len() as int)
        =~= line_tail_spec(level_str, target, thread, message));
}

} // verus!
