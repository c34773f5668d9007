//! Wall-clock readings as plain calendar fields.
//!
//! The pipeline's own formatting code turns these fields into the timestamp
//! text; only the reading of the clock (and the shift to a fixed UTC offset)
//! is delegated to the `time` crate.

use vstd::prelude::*;

verus! {

/// One wall-clock reading, broken into calendar fields.
#[derive(Clone, Copy, Debug, PartialEq, Eq, Structural)]
pub struct ClockParts {
    /// Calendar year; negative for years before the common era.
    pub year: i32,
    /// Month of the year, `1..=12`.
    pub month: u8,
    /// Day of the month, `1..=31`.
    pub day: u8,
    /// Hour of the day, `0..=23`.
    pub hour: u8,
    /// Minute of the hour, `0..=59`.
    pub minute: u8,
    /// Second of the minute, `0..=59`.
    pub second: u8,
    /// Millisecond of the second, `0..=999`.
    pub millisecond: u16,
}

/// The field ranges that every clock reading satisfies.
pub open spec fn clock_parts_valid(p: ClockParts) -> bool {
    &&& -9999 <= p.year <= 9999
    &&& 1 <= p.month <= 12
    &&& 1 <= p.day <= 31
    &&& p.hour < 24
    &&& p.minute < 60
    &&& p.second < 60
    &&& p.millisecond < 1000
}

/// The most negative UTC offset, in seconds, that a clock reading can be
/// shifted by: -25:59:59.
pub const MIN_UTC_OFFSET_SECONDS: i32 = -93599;

/// The most positive UTC offset, in seconds, that a clock reading can be
/// shifted by: +25:59:59.
pub const MAX_UTC_OFFSET_SECONDS: i32 = 93599;

/// Relies on `time::OffsetDateTime::now_utc` and its field accessors `year`,
/// `month`, `day`, `hour`, `minute`, `second`, `millisecond`: the current UTC
/// date and time, whose fields lie in the documented calendar ranges (year
/// within `-9999..=9999`, month `1..=12`, day `1..=31`, hour below 24, minute
/// and second below 60, millisecond below 1000).  The reading depends on the
/// wall clock, so nothing relates two calls.
#[verifier::external_body]
pub(crate) fn clock_now_utc() -> (r: ClockParts)
    ensures
        clock_parts_valid(r),
{
    let t = time::OffsetDateTime::now_utc();
    ClockParts {
        year: t.year(), month: u8::from(t.month()), day: t.day(), hour: t.hour(),
        minute: t.minute(), second: t.second(), millisecond: t.millisecond(),
    }
}

/// Relies on `time::UtcOffset::from_whole_seconds` (which accepts every offset
/// in `-93599..=93599`), `time::OffsetDateTime::now_utc`,
/// `OffsetDateTime::checked_to_offset`, and the same field accessors as
/// `clock_now_utc`: the current date and time shifted to the given fixed UTC
/// offset, with fields in the documented calendar ranges; `None` in the edge
/// case where the shifted date would leave the supported year range.  The
/// reading depends on the wall clock, so nothing relates two calls.
#[verifier::external_body]
fn clock_now_shifted(offset_seconds: i32) -> (r: Option<ClockParts>)
    requires
        MIN_UTC_OFFSET_SECONDS <= offset_seconds <= MAX_UTC_OFFSET_SECONDS,
    ensures
        r matches Some(p) ==> clock_parts_valid(p),
{
    let offset = time::UtcOffset::from_whole_seconds(offset_seconds).ok()?;
    let t = time::OffsetDateTime::now_utc().checked_to_offset(offset)?;
    Some(ClockParts {
        year: t.year(), month: u8::from(t.month()), day: t.day(), hour: t.hour(),
        minute: t.minute(), second: t.second(), millisecond: t.millisecond(),
    })
}

/// The current wall-clock reading shifted to the given fixed UTC offset; falls
/// back to the plain UTC reading in the edge case where the shifted date would
/// leave the supported year range.
pub(crate) fn clock_now_at_offset(offset_seconds: i32) -> (r: ClockParts)
    requires
        MIN_UTC_OFFSET_SECONDS <= offset_seconds <= MAX_UTC_OFFSET_SECONDS,
    ensures
        clock_parts_valid(r),
{
    match clock_now_shifted(offset_seconds) {
        Some(p) => p,
        None => clock_now_utc(),
    }
}

} // verus!
