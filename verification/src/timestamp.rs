//! Instants in UTC at nanosecond precision, within the years that RFC 3339
//! text can express, and their stored text form.

use chrono::{DateTime, SecondsFormat, Utc};
use vstd::prelude::*;

verus! {

/// Seconds from the Unix epoch to `0000-01-01T00:00:00Z`.
pub const MIN_SECONDS: i64 = -62_167_219_200;

/// Seconds from the Unix epoch to `9999-12-31T23:59:59Z`.
pub const MAX_SECONDS: i64 = 253_402_300_799;

/// Nanoseconds in one second.
pub const SECOND_NANOS: u32 = 1_000_000_000;

/// Mathematical model of a [`Timestamp`]: whole seconds since the Unix epoch
/// (leap seconds not counted) and nanoseconds since the start of that second.
pub struct Instant {
    pub seconds: int,
    pub nanos: int,
}

impl Instant {
    /// Whether the pair denotes an instant of the years 0 to 9999. The
    /// nanoseconds stay below one second, except within a leap second, which
    /// is counted as an overlong last second of a minute.
    pub open spec fn valid(self) -> bool {
        &&& MIN_SECONDS <= self.seconds <= MAX_SECONDS
        &&& 0 <= self.nanos
        &&& (self.nanos < SECOND_NANOS || (self.nanos < 2 * SECOND_NANOS && self.seconds % 60
            == 59))
    }

    /// Chronological order: by seconds, then by nanoseconds.
    pub open spec fn at_or_before(self, other: Instant) -> bool {
        self.seconds < other.seconds || (self.seconds == other.seconds && self.nanos
            <= other.nanos)
    }

    /// The later of two instants.
    pub open spec fn later(self, other: Instant) -> Instant {
        if self.at_or_before(other) {
            other
        } else {
            self
        }
    }

    /// The valid instant nearest to an arbitrary clock reading.
    pub open spec fn nearest(seconds: int, nanos: int) -> Instant {
        if seconds < MIN_SECONDS {
            Instant { seconds: MIN_SECONDS as int, nanos: 0 }
        } else if seconds > MAX_SECONDS {
            Instant { seconds: MAX_SECONDS as int, nanos: SECOND_NANOS - 1 }
        } else if (Instant { seconds, nanos }).valid() {
            Instant { seconds, nanos }
        } else {
            Instant { seconds, nanos: SECOND_NANOS - 1 }
        }
    }

    /// The instant a parsed pair stands for, if it is a valid one.
    pub open spec fn from_parsed(pair: Option<(i64, u32)>) -> Option<Instant> {
        match pair {
            Some((seconds, nanos)) => {
                let instant = Instant { seconds: seconds as int, nanos: nanos as int };
                if instant.valid() {
                    Some(instant)
                } else {
                    None
                }
            },
            None => None,
        }
    }

    /// The instant written as `text`, if `text` is the text of a valid one.
    pub open spec fn parsed(text: Seq<char>) -> Option<Instant> {
        Self::from_parsed(rfc3339_instant(text))
    }

    /// The stored text of a valid instant.
    pub open spec fn text(self) -> Seq<char> {
        rfc3339_text(self.seconds as i64, self.nanos as u32)
    }
}

/// The text that `DateTime::<Utc>::to_rfc3339_opts`, with automatic
/// sub-second precision and `Z` for the offset, gives for the instant
/// `DateTime::from_timestamp(seconds, nanos)`.
pub uninterp spec fn rfc3339_text(seconds: i64, nanos: u32) -> Seq<char>;

/// The instant that `str::parse::<DateTime<Utc>>` reads from a text, as Unix
/// seconds and sub-second nanoseconds; `None` where it rejects the text.
pub uninterp spec fn rfc3339_instant(text: Seq<char>) -> Option<(i64, u32)>;

/// Calls `Utc::now` and takes the reading apart with `DateTime::timestamp` and
/// `DateTime::timestamp_subsec_nanos`. Nothing is claimed about the reading.
/// chrono expects the system clock to stand at or after the Unix epoch.
#[verifier::external_body]
fn clock_reading() -> (reading: (i64, u32)) {
    let now = Utc::now();
    (now.timestamp(), now.timestamp_subsec_nanos())
}

/// Calls `DateTime::from_timestamp`, which accepts every valid instant, and
/// then `DateTime::to_rfc3339_opts(SecondsFormat::AutoSi, true)`. The result
/// is the text named above, and parsing reads the same instant back from it:
/// for the years 0 to 9999 the writer emits four year digits, the fields of
/// date and time, the fraction in 0, 3, 6 or 9 digits without loss, a leap
/// second as second 60, and `Z`, each of which the parser accepts.
#[verifier::external_body]
fn format_rfc3339(seconds: i64, nanos: u32) -> (text: String)
    requires
        (Instant { seconds: seconds as int, nanos: nanos as int }).valid(),
    ensures
        text@ == rfc3339_text(seconds, nanos),
        rfc3339_instant(text@) == Some((seconds, nanos)),
{
    DateTime::from_timestamp(seconds, nanos).unwrap().to_rfc3339_opts(SecondsFormat::AutoSi, true)
}

/// Calls `str::parse::<DateTime<Utc>>`, chrono's relaxed RFC 3339 reader, and
/// takes the result apart with `DateTime::timestamp` and
/// `DateTime::timestamp_subsec_nanos`.
#[verifier::external_body]
fn parse_rfc3339(text: &str) -> (pair: Option<(i64, u32)>)
    ensures
        pair == rfc3339_instant(text@),
{
    match text.parse::<DateTime<Utc>>() {
        Ok(at) => Some((at.timestamp(), at.timestamp_subsec_nanos())),
        Err(_) => None,
    }
}

/// An instant in UTC between the start of year 0 and the end of year 9999.
#[derive(Clone, Copy, Debug, PartialEq, Eq, Hash)]
pub struct Timestamp {
    seconds: i64,
    nanos: u32,
}

impl View for Timestamp {
    type V = Instant;

    closed spec fn view(&self) -> Instant {
        Instant { seconds: self.seconds as int, nanos: self.nanos as int }
    }
}

impl Timestamp {
    #[verifier::type_invariant]
    spec fn well_formed(self) -> bool {
        self@.valid()
    }

    /// The timestamp for a pair of Unix seconds and nanoseconds; `None` where
    /// the pair is no valid instant.
    pub fn new(seconds: i64, nanos: u32) -> (made: Option<Timestamp>)
        ensures
            made.is_some() == (Instant { seconds: seconds as int, nanos: nanos as int }).valid(),
            made matches Some(t) ==> t@ == (Instant {
                seconds: seconds as int,
                nanos: nanos as int,
            }),
    {
        if seconds < MIN_SECONDS || seconds > MAX_SECONDS {
            return None;
        }
        if nanos < SECOND_NANOS {
            return Some(Timestamp { seconds, nanos });
        }
        let since_start: i64 = seconds - MIN_SECONDS;
        assert(since_start % 60 == seconds as int % 60);
        if nanos < 2 * SECOND_NANOS && since_start % 60 == 59 {
            Some(Timestamp { seconds, nanos })
        } else {
            None
        }
    }

    /// The valid instant nearest to a pair of Unix seconds and nanoseconds.
    pub fn nearest(seconds: i64, nanos: u32) -> (made: Timestamp)
        ensures
            made@ == Instant::nearest(seconds as int, nanos as int),
    {
        if seconds < MIN_SECONDS {
            Timestamp { seconds: MIN_SECONDS, nanos: 0 }
        } else if seconds > MAX_SECONDS {
            Timestamp { seconds: MAX_SECONDS, nanos: SECOND_NANOS - 1 }
        } else {
            match Timestamp::new(seconds, nanos) {
                Some(made) => made,
                None => Timestamp { seconds, nanos: SECOND_NANOS - 1 },
            }
        }
    }

    /// The current time of the system clock, brought into the valid range.
    pub fn now() -> (made: Timestamp)
        ensures
            made@.valid(),
    {
        let reading = clock_reading();
        let made = Timestamp::nearest(reading.0, reading.1);
        proof {
            use_type_invariant(&made);
        }
        made
    }

    /// Whole seconds since the Unix epoch.
    pub fn seconds(&self) -> (seconds: i64)
        ensures
            seconds == self@.seconds,
    {
        self.seconds
    }

    /// Nanoseconds since the start of the second.
    pub fn nanos(&self) -> (nanos: u32)
        ensures
            nanos == self@.nanos,
    {
        self.nanos
    }

    /// Whether this instant is not later than `other`.
    pub fn at_or_before(&self, other: &Timestamp) -> (holds: bool)
        ensures
            holds == self@.at_or_before(other@),
    {
        self.seconds < other.seconds || (self.seconds == other.seconds && self.nanos
            <= other.nanos)
    }

    /// The later of two instants.
    pub fn later(self, other: Timestamp) -> (chosen: Timestamp)
        ensures
            chosen@ == self@.later(other@),
    {
        if self.at_or_before(&other) {
            other
        } else {
            self
        }
    }

    /// Reads a timestamp from stored text; `None` where the text does not
    /// parse or lies outside the valid range.
    pub fn parse(text: &str) -> (read: Option<Timestamp>)
        ensures
            Self::views(read) == Instant::parsed(text@),
    {
        match parse_rfc3339(text) {
            Some(pair) => Timestamp::new(pair.0, pair.1),
            None => None,
        }
    }

    /// The stored text of this timestamp. Parsing it gives the timestamp
    /// back.
    pub fn to_text(&self) -> (text: String)
        ensures
            text@ == self@.text(),
            Instant::parsed(text@) == Some(self@),
    {
        proof {
            use_type_invariant(self);
        }
        format_rfc3339(self.seconds, self.nanos)
    }

    /// The model of an optional timestamp.
    pub open spec fn views(read: Option<Timestamp>) -> Option<Instant> {
        match read {
            Some(t) => Some(t@),
            None => None,
        }
    }
}

} // verus!
