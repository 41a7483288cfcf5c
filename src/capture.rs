//! Capture dates: a wall-clock time with a fixed UTC offset, and the ways of
//! obtaining one from text or from a file's modification time.

use vstd::prelude::*;
use chrono::{Datelike, Timelike};
use crate::calendar::LocalDateTime;

verus! {

/// The offset attached to every timestamp that carries none: UTC-7, in
/// seconds east of UTC.
pub const DEFAULT_OFFSET_SECONDS: i32 = -25200;

/// The largest modification time (in seconds since 1970) that is always
/// turned into a date: 262142-12-31 23:59:59 UTC, the last second of the
/// calendar's range.
pub const LATEST_SUPPORTED_SECONDS: u64 = 8210266876799;

/// A wall-clock time together with the fixed offset at which it was read.
#[derive(Clone, Copy, Debug, PartialEq, Eq, Structural)]
pub struct CaptureDate {
    pub local: LocalDateTime,
    /// Seconds east of UTC.
    pub offset_seconds: i32,
}

impl CaptureDate {
    pub open spec fn wf(&self) -> bool {
        &&& self.local.wf()
        &&& -86400 < self.offset_seconds < 86400
    }

    /// The absolute instant, in seconds since 1970-01-01 00:00:00 UTC.
    pub open spec fn instant(&self) -> int {
        self.local.unix_seconds() - self.offset_seconds
    }
}

#[derive(Clone, Copy, Debug, PartialEq, Eq, Structural)]
pub enum DateError {
    /// A modification time lies outside the range of representable dates.
    TimestampOutOfRange,
}

/// Result of chrono's `NaiveDateTime::parse_from_str(s, fmt)`.
pub uninterp spec fn local_text_parse(s: Seq<char>, fmt: Seq<char>) -> Option<LocalDateTime>;

/// Result of chrono's `DateTime::parse_from_str(s, fmt)`.
pub uninterp spec fn stamped_text_parse(s: Seq<char>, fmt: Seq<char>) -> Option<CaptureDate>;

/// The format of dates without an offset: `YYYY-MM-DD HH:MM:SS`.
pub open spec fn local_format() -> Seq<char> {
    seq!['%', 'F', ' ', '%', 'T']
}

/// The format of dates with an offset: `YYYY-MM-DDTHH:MM:SS+HHMM`.
pub open spec fn stamped_format() -> Seq<char> {
    seq!['%', 'F', 'T', '%', 'T', '%', 'z']
}

/// Relies on chrono's `NaiveDateTime::parse_from_str`: the result depends on
/// the text and the format alone, and a parsed value is a valid date and time
/// (a leap second reads as second 59).
#[verifier::external_body]
fn parse_local(s: &str, fmt: &str) -> (r: Option<LocalDateTime>)
    ensures
        r == local_text_parse(s@, fmt@),
        r matches Some(p) ==> p.wf(),
{
    match chrono::NaiveDateTime::parse_from_str(s, fmt) {
        Ok(n) => Some(LocalDateTime {
            year: n.year(), month: n.month() as u8, day: n.day() as u8,
            hour: n.hour() as u8, minute: n.minute() as u8, second: n.second() as u8,
        }),
        Err(_) => None,
    }
}

/// Relies on chrono's `DateTime::parse_from_str`: the result depends on the
/// text and the format alone, its local time is a valid date and time, and its
/// `FixedOffset` lies strictly within one day of UTC.
#[verifier::external_body]
fn parse_stamped(s: &str, fmt: &str) -> (r: Option<CaptureDate>)
    ensures
        r == stamped_text_parse(s@, fmt@),
        r matches Some(d) ==> d.wf(),
{
    match chrono::DateTime::parse_from_str(s, fmt) {
        Ok(t) => {
            let n = t.naive_local();
            Some(CaptureDate {
                local: LocalDateTime {
                    year: n.year(), month: n.month() as u8, day: n.day() as u8,
                    hour: n.hour() as u8, minute: n.minute() as u8, second: n.second() as u8,
                },
                offset_seconds: t.offset().local_minus_utc(),
            })
        },
        Err(_) => None,
    }
}

/// Relies on chrono's `DateTime::from_timestamp(secs, 0)`: the UTC date and
/// time `secs` seconds after 1970-01-01 00:00:00, or `None` when that date is
/// out of chrono's range (which ends with the year 262142).
#[verifier::external_body]
fn utc_of_timestamp(secs: i64) -> (r: Option<LocalDateTime>)
    ensures
        r matches Some(p) ==> p.wf() && p.unix_seconds() == secs,
        0 <= secs <= LATEST_SUPPORTED_SECONDS ==> r is Some,
{
    chrono::DateTime::from_timestamp(secs, 0).map(|t| {
        let n = t.naive_utc();
        LocalDateTime {
            year: n.year(), month: n.month() as u8, day: n.day() as u8,
            hour: n.hour() as u8, minute: n.minute() as u8, second: n.second() as u8,
        }
    })
}

/// Attaches a fixed offset to a wall-clock time.
pub fn normalize_with(local: LocalDateTime, offset_seconds: i32) -> (r: CaptureDate)
    requires
        local.wf(),
        -86400 < offset_seconds < 86400,
    ensures
        r == (CaptureDate { local, offset_seconds }),
        r.wf(),
        r.instant() == local.unix_seconds() - offset_seconds,
{
    CaptureDate { local, offset_seconds }
}

/// Attaches the default offset, UTC-7, to a wall-clock time.
pub fn normalize(local: LocalDateTime) -> (r: CaptureDate)
    requires
        local.wf(),
    ensures
        r == (CaptureDate { local, offset_seconds: DEFAULT_OFFSET_SECONDS }),
        r.wf(),
{
    normalize_with(local, DEFAULT_OFFSET_SECONDS)
}

/// Reads a date written as `YYYY-MM-DD HH:MM:SS` and attaches the default
/// offset to it.
pub fn parse_local_date(text: &str) -> (r: Option<CaptureDate>)
    ensures
        r == (match local_text_parse(text@, local_format()) {
            Some(p) => Some(CaptureDate { local: p, offset_seconds: DEFAULT_OFFSET_SECONDS }),
            None => None,
        }),
        r matches Some(d) ==> d.wf(),
{
    proof { reveal_strlit("%F %T"); }
    let fmt = "%F %T";
    assert(fmt@ =~= local_format());
    match parse_local(text, fmt) {
        Some(p) => Some(normalize(p)),
        None => None,
    }
}

/// The capture date of a video container whose creation-date tag is `tag`.
/// The tag's own offset is kept; an absent or unreadable tag gives `None`.
pub fn container_date(tag: Option<&str>) -> (r: Option<CaptureDate>)
    ensures
        r == (match tag {
            Some(s) => stamped_text_parse(s@, stamped_format()),
            None => None,
        }),
        r matches Some(d) ==> d.wf(),
{
    match tag {
        Some(s) => {
            proof { reveal_strlit("%FT%T%z"); }
            let fmt = "%FT%T%z";
            assert(fmt@ =~= stamped_format());
            parse_stamped(s, fmt)
        },
        None => None,
    }
}

/// The capture date of a file known only by its modification time, `secs`
/// seconds after 1970-01-01 00:00:00 UTC: that UTC wall-clock time, read at
/// the default offset.
pub fn fallback_date(secs: u64) -> (r: Result<CaptureDate, DateError>)
    ensures
        secs <= LATEST_SUPPORTED_SECONDS ==> r is Ok,
        r is Err ==> r == Err::<CaptureDate, DateError>(DateError::TimestampOutOfRange),
        r matches Ok(d) ==> {
            &&& d.wf()
            &&& d.local.unix_seconds() == secs
            &&& d.offset_seconds == DEFAULT_OFFSET_SECONDS
            &&& d.instant() == secs - DEFAULT_OFFSET_SECONDS
        },
{
    if secs > 9223372036854775807u64 {
        return Err(DateError::TimestampOutOfRange);
    }
    match utc_of_timestamp(secs as i64) {
        Some(p) => Ok(normalize(p)),
        None => Err(DateError::TimestampOutOfRange),
    }
}

} // verus!
