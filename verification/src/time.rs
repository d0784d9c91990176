//! Points in time, counted in seconds and nanoseconds from the Unix epoch.

use vstd::prelude::*;
use crate::error::{Field, Reason, ValidationError};
use crate::json::{DecodeError, Json, JsonModel, Wire};

verus! {

/// The seconds of one day.
pub const SECONDS_PER_DAY: i64 = 86_400;

/// A point in time: `secs` whole seconds after 1970-01-01T00:00:00Z (before
/// it where negative), and `nanos` nanoseconds after that second began.
#[derive(Clone, Copy, Debug, PartialEq, Eq, Hash, Structural)]
pub struct Timestamp {
    pub secs: i64,
    pub nanos: u32,
}

/// Reads the clock with `chrono::Utc::now` and hands out the seconds and the
/// nanoseconds of the reading. Of the value only its range is claimed: the
/// dates of `chrono` end before the year 262,145 on either side of the
/// epoch, which is less than ten to the thirteenth seconds away from it. The
/// outside call aborts if the system clock stands before 1970.
#[verifier::external_body]
fn outside_now() -> (r: Timestamp)
    ensures
        r.in_calendar_range(),
{
    let t = chrono::Utc::now();
    Timestamp { secs: t.timestamp(), nanos: t.timestamp_subsec_nanos() }
}

/// The text that `chrono` writes for a point in time, in the form of RFC
/// 3339 with `Z` for the time zone: `None` for a point beyond its calendar.
pub uninterp spec fn timestamp_text(t: Timestamp) -> Option<Seq<char>>;

/// The point in time that `chrono` reads from a text: `None` where it
/// rejects the text.
pub uninterp spec fn timestamp_from_text(text: Seq<char>) -> Option<Timestamp>;

/// The text that `chrono` shows for a point in time, such as
/// `2022-05-31 17:31:00 UTC`: `None` for a point beyond its calendar.
pub uninterp spec fn timestamp_shown(t: Timestamp) -> Option<Seq<char>>;

/// Makes a `chrono::DateTime` of the seconds and nanoseconds with
/// `from_timestamp` and writes it with its `to_string`. The result is
/// whatever text that crate shows; there is none where `from_timestamp`
/// returns none.
#[verifier::external_body]
fn outside_to_string(t: Timestamp) -> (r: Option<String>)
    ensures
        match r {
            Some(s) => timestamp_shown(t) == Some(s@),
            None => timestamp_shown(t) is None,
        },
{
    match chrono::DateTime::from_timestamp(t.secs, t.nanos) {
        Some(d) => Some(d.to_string()),
        None => None,
    }
}

/// Makes a `chrono::DateTime` of the seconds and nanoseconds with
/// `from_timestamp` and writes it with `to_rfc3339_opts`, with as many
/// digits of the second as the nanoseconds need and `Z` for the time zone.
/// The result is whatever text that crate writes; there is none where
/// `from_timestamp` returns none.
#[verifier::external_body]
fn outside_to_rfc3339(t: Timestamp) -> (r: Option<String>)
    ensures
        match r {
            Some(s) => timestamp_text(t) == Some(s@),
            None => timestamp_text(t) is None,
        },
{
    match chrono::DateTime::from_timestamp(t.secs, t.nanos) {
        Some(d) => Some(d.to_rfc3339_opts(chrono::SecondsFormat::AutoSi, true)),
        None => None,
    }
}

/// Reads a text with the `FromStr` of `chrono::DateTime<Utc>` and hands out
/// the seconds and nanoseconds of what it read. Which texts it accepts, and
/// as what, is whatever that crate does.
#[verifier::external_body]
fn outside_parse_rfc3339(text: &str) -> (r: Option<Timestamp>)
    ensures
        r == timestamp_from_text(text@),
{
    match text.parse::<chrono::DateTime<chrono::Utc>>() {
        Ok(d) => Some(Timestamp { secs: d.timestamp(), nanos: d.timestamp_subsec_nanos() }),
        Err(_) => None,
    }
}

impl Timestamp {
    /// The point lies less than ten to the thirteenth seconds from the
    /// epoch, as every point of the calendar does.
    pub open spec fn in_calendar_range(self) -> bool {
        -10_000_000_000_000 < self.secs < 10_000_000_000_000
    }

    /// `self` is strictly earlier than `other`.
    pub open spec fn before(self, other: Timestamp) -> bool {
        self.secs < other.secs || (self.secs == other.secs && self.nanos < other.nanos)
    }

    /// The point `days` days after `self`, where its seconds fit in 64 bits.
    pub open spec fn shifted_by_days(self, days: i64) -> Option<Timestamp> {
        let secs = self.secs + days * SECONDS_PER_DAY;
        if i64::MIN <= secs <= i64::MAX {
            Some(Timestamp { secs: secs as i64, nanos: self.nanos })
        } else {
            None
        }
    }

    /// The point `seconds` seconds after `self`, where its seconds fit in 64
    /// bits.
    pub open spec fn shifted_by_seconds(self, seconds: i64) -> Option<Timestamp> {
        let secs = self.secs + seconds;
        if i64::MIN <= secs <= i64::MAX {
            Some(Timestamp { secs: secs as i64, nanos: self.nanos })
        } else {
            None
        }
    }

    pub fn new(secs: i64, nanos: u32) -> (r: Timestamp)
        ensures
            r == (Timestamp { secs, nanos }),
    {
        Timestamp { secs, nanos }
    }

    /// The current time. Every point of the calendar may come back.
    pub fn now() -> (r: Timestamp)
        ensures
            r.in_calendar_range(),
    {
        outside_now()
    }

    /// The point in time as text, where the calendar reaches it.
    pub fn to_text(&self) -> (r: Option<String>)
        ensures
            match r {
                Some(s) => timestamp_text(*self) == Some(s@),
                None => timestamp_text(*self) is None,
            },
    {
        outside_to_rfc3339(*self)
    }

    /// The point in time as it is shown to people, where the calendar
    /// reaches it.
    pub fn shown(&self) -> (r: Option<String>)
        ensures
            match r {
                Some(s) => timestamp_shown(*self) == Some(s@),
                None => timestamp_shown(*self) is None,
            },
    {
        outside_to_string(*self)
    }

    /// Reads a point in time from a text.
    pub fn parse(text: &str) -> (r: Option<Timestamp>)
        ensures
            r == timestamp_from_text(text@),
    {
        outside_parse_rfc3339(text)
    }

    pub fn is_before(&self, other: &Timestamp) -> (r: bool)
        ensures
            r == self.before(*other),
    {
        self.secs < other.secs || (self.secs == other.secs && self.nanos < other.nanos)
    }

    /// The point `seconds` seconds later (earlier where `seconds` is
    /// negative), or `None` where that point cannot be represented.
    pub fn plus_seconds(&self, seconds: i64) -> (r: Option<Timestamp>)
        ensures
            r == self.shifted_by_seconds(seconds),
    {
        match self.secs.checked_add(seconds) {
            Some(secs) => Some(Timestamp { secs, nanos: self.nanos }),
            None => None,
        }
    }

    /// The point `days` days later (earlier where `days` is negative), or
    /// `None` where that point cannot be represented.
    pub fn plus_days(&self, days: i64) -> (r: Option<Timestamp>)
        ensures
            r == self.shifted_by_days(days),
    {
        let delta: i128 = days as i128 * 86_400;
        let total: i128 = self.secs as i128 + delta;
        if total < i64::MIN as i128 || total > i64::MAX as i128 {
            None
        } else {
            Some(Timestamp { secs: total as i64, nanos: self.nanos })
        }
    }
}

impl DeepView for Timestamp {
    type V = Timestamp;

    open spec fn deep_view(&self) -> Timestamp {
        *self
    }
}

impl Wire for Timestamp {
    /// A point in time stands on the wire as its text; one beyond the
    /// calendar has no text and is written as null.
    open spec fn to_wire(v: Timestamp) -> JsonModel {
        match timestamp_text(v) {
            Some(s) => JsonModel::Text(s),
            None => JsonModel::Null,
        }
    }

    open spec fn from_wire(j: JsonModel) -> Result<Timestamp, DecodeError> {
        match j {
            JsonModel::Text(s) => match timestamp_from_text(s) {
                Some(t) => Ok(t),
                None => Err(
                    DecodeError::Invalid(
                        ValidationError { field: Field::Timestamp, reason: Reason::Malformed },
                    ),
                ),
            },
            _ => Err(DecodeError::WrongType),
        }
    }

    /// The point in time has a text and the text is read back as the same.
    open spec fn faithful(v: Timestamp) -> bool {
        timestamp_text(v) matches Some(s) && timestamp_from_text(s) == Some(v)
    }

    proof fn lemma_round_trip(v: Timestamp) {
    }

    fn to_json(&self) -> (r: Json) {
        match self.to_text() {
            Some(s) => Json::Text(s),
            None => Json::Null,
        }
    }

    fn from_json(j: &Json) -> (r: Result<Timestamp, DecodeError>) {
        match j {
            Json::Text(s) => match Timestamp::parse(s.as_str()) {
                Some(t) => Ok(t),
                None => Err(
                    DecodeError::Invalid(ValidationError::new(Field::Timestamp, Reason::Malformed)),
                ),
            },
            _ => Err(DecodeError::WrongType),
        }
    }
}

} // verus!
