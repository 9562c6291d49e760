//! Instants on the UTC time line, as whole seconds plus a nanosecond part.

use crate::model::option_text;
use vstd::prelude::*;

verus! {

/// Seconds in one day.
pub const SECONDS_PER_DAY: i64 = 86_400;

/// Seconds in one hour.
pub const SECONDS_PER_HOUR: i64 = 3_600;

/// Seconds in the seven days that bound what a first run looks back on.
pub const DEFAULT_LOOKBACK_SECONDS: i64 = 604_800;

/// An instant: non-leap seconds since 1970-01-01T00:00:00Z and the
/// nanoseconds since that whole second. Instants are ordered by `secs`,
/// then by `nanos`.
#[derive(Clone, Copy, Debug, PartialEq, Eq, Structural)]
pub struct Timestamp {
    pub secs: i64,
    pub nanos: u32,
}

/// The instant that a date and time written in the relaxed RFC 3339 form
/// denotes, where the text is such a date and time.
pub uninterp spec fn datetime_of_text(text: Seq<char>) -> Option<Timestamp>;

/// `str::parse::<chrono::DateTime<chrono::Utc>>`, with the date and time
/// taken to its seconds and nanoseconds since the epoch: what comes out
/// depends on the text alone.
#[verifier::external_body]
pub(crate) fn parse_datetime(text: &str) -> (parsed: Option<Timestamp>)
    ensures
        parsed == datetime_of_text(text@),
{
    match text.parse::<chrono::DateTime<chrono::Utc>>() {
        Ok(at) => Some(Timestamp { secs: at.timestamp(), nanos: at.timestamp_subsec_nanos() }),
        Err(_) => None,
    }
}

/// The instant that an RFC 3339 date and time denotes, where the text is
/// one.
pub uninterp spec fn instant_of_rfc3339(text: Seq<char>) -> Option<Timestamp>;

/// `chrono::DateTime::parse_from_rfc3339`, with the date and time taken
/// to UTC and to its seconds and nanoseconds since the epoch: what comes
/// out depends on the text alone.
#[verifier::external_body]
pub(crate) fn parse_rfc3339(text: &str) -> (parsed: Option<Timestamp>)
    ensures
        parsed == instant_of_rfc3339(text@),
{
    match chrono::DateTime::parse_from_rfc3339(text) {
        Ok(at) => Some(Timestamp { secs: at.timestamp(), nanos: at.timestamp_subsec_nanos() }),
        Err(_) => None,
    }
}

/// The RFC 3339 date and time in UTC that denotes an instant, where the
/// calendar reaches that far.
pub uninterp spec fn rfc3339_of_instant(at: Timestamp) -> Option<Seq<char>>;

/// `chrono::DateTime::from_timestamp` and then
/// `chrono::DateTime::to_rfc3339`: the instant as a date and time in UTC,
/// or nothing where the seconds are out of the calendar's range or the
/// nanoseconds are no part of a second. What comes out depends on the
/// instant alone.
#[verifier::external_body]
pub(crate) fn format_rfc3339(at: Timestamp) -> (text: Option<String>)
    ensures
        option_text(text) == rfc3339_of_instant(at),
{
    match chrono::DateTime::from_timestamp(at.secs, at.nanos) {
        Some(moment) => Some(moment.to_rfc3339()),
        None => None,
    }
}

/// `chrono::Utc::now`, taken to its seconds and nanoseconds since the
/// epoch: the present instant. It does not lie before the epoch, and its
/// nanoseconds are less than a second; which instant it is depends on
/// the clock.
#[verifier::external_body]
pub(crate) fn clock_now() -> (now: Timestamp)
    ensures
        now.secs >= 0,
        now.nanos < 1_000_000_000,
{
    let at = chrono::Utc::now();
    Timestamp { secs: at.timestamp(), nanos: at.timestamp_subsec_nanos() }
}

impl Timestamp {
    /// `self` lies strictly later than `other`.
    pub open spec fn is_after(self, other: Timestamp) -> bool {
        self.secs > other.secs || (self.secs == other.secs && self.nanos > other.nanos)
    }

    /// The hour of the day, 0 to 23, in which the instant falls.
    pub open spec fn hour_of_day(self) -> int {
        (self.secs as int % 86_400) / 3_600
    }

    /// The instant `nanos` nanoseconds after the whole second `secs`.
    pub fn new(secs: i64, nanos: u32) -> (t: Timestamp)
        ensures
            t.secs == secs,
            t.nanos == nanos,
    {
        Timestamp { secs, nanos }
    }

    /// Strict "later than".
    pub fn after(&self, other: &Timestamp) -> (b: bool)
        ensures
            b == self.is_after(*other),
    {
        self.secs > other.secs || (self.secs == other.secs && self.nanos > other.nanos)
    }

    /// The instant `seconds` before this one.
    pub fn seconds_before(&self, seconds: i64) -> (earlier: Timestamp)
        requires
            0 <= seconds,
            self.secs - seconds >= i64::MIN,
        ensures
            earlier.secs == self.secs - seconds,
            earlier.nanos == self.nanos,
    {
        Timestamp { secs: self.secs - seconds, nanos: self.nanos }
    }

    /// The instant that the RFC 3339 date and time `text` denotes.
    pub fn from_rfc3339(text: &str) -> (parsed: Option<Timestamp>)
        ensures
            parsed == instant_of_rfc3339(text@),
    {
        parse_rfc3339(text)
    }

    /// The instant as an RFC 3339 date and time in UTC.
    pub fn to_rfc3339(&self) -> (text: Option<String>)
        ensures
            option_text(text) == rfc3339_of_instant(*self),
    {
        format_rfc3339(*self)
    }

    /// The UTC hour of the day of this instant.
    pub fn utc_hour(&self) -> (h: u32)
        ensures
            h == self.hour_of_day(),
            h < 24,
    {
        let r: i64 = self.secs % SECONDS_PER_DAY;
        let in_day: i64 = if r < 0 { r + SECONDS_PER_DAY } else { r };
        let h: i64 = in_day / SECONDS_PER_HOUR;
        h as u32
    }
}

/// "Later than" orders the instants in a row: no instant is later than
/// itself, of two different instants exactly one is the later, and what
/// is later than a later instant is later than the earlier.
pub proof fn lemma_later_is_a_strict_order(a: Timestamp, b: Timestamp, c: Timestamp)
    ensures
        !a.is_after(a),
        a.is_after(b) ==> !b.is_after(a),
        a != b ==> a.is_after(b) || b.is_after(a),
        a.is_after(b) && b.is_after(c) ==> a.is_after(c),
{
}

/// The hour of the day is one of the 24 hours, and instants a whole day
/// apart fall in the same hour.
pub proof fn lemma_hour_of_day(at: Timestamp, later: Timestamp)
    requires
        later.secs == at.secs + SECONDS_PER_DAY,
    ensures
        0 <= at.hour_of_day() < 24,
        later.hour_of_day() == at.hour_of_day(),
{
}

} // verus!
