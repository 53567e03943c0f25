//! Instants in UTC, held as whole seconds and nanoseconds since the Unix
//! epoch, and their textual form in the store.

use chrono::{DateTime, Utc};
use vstd::prelude::*;

verus! {

/// The first second of year 0000, in seconds since the Unix epoch.
pub const MIN_SECS: i64 = -62_167_219_200;

/// The last second of year 9999, in seconds since the Unix epoch.
pub const MAX_SECS: i64 = 253_402_300_799;

/// Nanoseconds in one second.
pub const NANOS_PER_SEC: u32 = 1_000_000_000;

/// Nanoseconds in one day.
pub const NANOS_PER_DAY: i128 = 86_400_000_000_000;

/// The mathematical value of a [`Timestamp`].
pub struct Instant {
    pub secs: int,
    pub nanos: int,
}

impl Instant {
    /// The years that the stored text can hold with four digits, and a
    /// nanosecond part below one second.
    pub open spec fn in_calendar(self) -> bool {
        &&& MIN_SECS <= self.secs <= MAX_SECS
        &&& 0 <= self.nanos < NANOS_PER_SEC
    }

    /// Nanoseconds since the Unix epoch.
    pub open spec fn total_nanos(self) -> int {
        self.secs * 1_000_000_000 + self.nanos
    }

    /// Whether the system clock may show the instant: it lies in the
    /// calendar and not before the Unix epoch.
    pub open spec fn on_the_clock(self) -> bool {
        self.in_calendar() && self.secs >= 0
    }

    /// Whether `self` is strictly later than `other`.
    pub open spec fn is_after(self, other: Instant) -> bool {
        self.total_nanos() > other.total_nanos()
    }

    /// Whole days from `earlier` to `self`, rounded toward zero.
    pub open spec fn whole_days_since(self, earlier: Instant) -> int {
        let d = self.total_nanos() - earlier.total_nanos();
        if d >= 0 {
            d / (NANOS_PER_DAY as int)
        } else {
            -((-d) / (NANOS_PER_DAY as int))
        }
    }

    /// The instant nearest to (`secs`, `nanos`) that lies in the calendar.
    pub open spec fn clamped(secs: int, nanos: int) -> Instant {
        Instant {
            secs: if secs < MIN_SECS {
                MIN_SECS as int
            } else if secs > MAX_SECS {
                MAX_SECS as int
            } else {
                secs
            },
            nanos: if nanos < 0 {
                0
            } else if nanos >= NANOS_PER_SEC {
                NANOS_PER_SEC - 1
            } else {
                nanos
            },
        }
    }
}

/// What chrono's `DateTime::<Utc>::to_rfc3339` writes for the instant that
/// lies `secs` seconds and `nanos` nanoseconds after the Unix epoch.
pub uninterp spec fn rfc3339_text(secs: int, nanos: int) -> Seq<char>;

/// The instant, as seconds and nanoseconds since the Unix epoch, that chrono's
/// `DateTime::parse_from_rfc3339` reads from `text`; `None` where it refuses
/// the text.
pub uninterp spec fn rfc3339_instant(text: Seq<char>) -> Option<(int, int)>;

/// An instant in UTC within the years 0000 to 9999.
#[derive(Clone, Copy, Debug, PartialEq, Eq, Structural)]
pub struct Timestamp {
    secs: i64,
    nanos: u32,
}

impl View for Timestamp {
    type V = Instant;

    closed spec fn view(&self) -> Instant {
        Instant { secs: self.secs as int, nanos: self.nanos as int }
    }
}

/// Reads the system clock through chrono's `Utc::now`. The reading differs
/// from call to call. chrono builds it from the duration since the Unix
/// epoch, and refuses a clock that stands before the epoch: so the seconds
/// are not negative, and the nanoseconds stay below one second.
#[verifier::external_body]
fn clock_reading() -> (r: (i64, u32))
    ensures
        r.0 >= 0,
        r.1 < NANOS_PER_SEC,
{
    let now: DateTime<Utc> = Utc::now();
    (now.timestamp(), now.timestamp_subsec_nanos())
}

/// Builds the `DateTime<Utc>` for (`secs`, `nanos`) with chrono's
/// `DateTime::from_timestamp` and writes it with `to_rfc3339`. An instant in the
/// calendar is always written; the text is named, not described.
#[verifier::external_body]
fn write_rfc3339(secs: i64, nanos: u32) -> (r: Option<String>)
    ensures
        (Instant { secs: secs as int, nanos: nanos as int }).in_calendar() ==> r is Some,
        r matches Some(s) ==> s@ == rfc3339_text(secs as int, nanos as int),
{
    match DateTime::from_timestamp(secs, nanos) {
        Some(moment) => Some(moment.to_rfc3339()),
        None => None,
    }
}

/// Reads `text` with chrono's `DateTime::parse_from_rfc3339` and hands back the
/// seconds and nanoseconds of the instant, or the parser's message.
#[verifier::external_body]
fn read_rfc3339(text: &str) -> (r: Result<(i64, u32), String>)
    ensures
        r matches Ok(p) ==> rfc3339_instant(text@) == Some((p.0 as int, p.1 as int)),
        r is Err ==> rfc3339_instant(text@) is None,
{
    match DateTime::parse_from_rfc3339(text) {
        Ok(moment) => Ok((moment.timestamp(), moment.timestamp_subsec_nanos())),
        Err(e) => Err(e.to_string()),
    }
}

impl Timestamp {
    #[verifier::type_invariant]
    spec fn in_calendar(self) -> bool {
        &&& MIN_SECS <= self.secs <= MAX_SECS
        &&& self.nanos < NANOS_PER_SEC
    }

    /// The instant `secs` seconds and `nanos` nanoseconds after the Unix
    /// epoch, if it lies in the calendar.
    pub fn new(secs: i64, nanos: u32) -> (r: Option<Timestamp>)
        ensures
            (Instant { secs: secs as int, nanos: nanos as int }).in_calendar() ==> r is Some,
            r matches Some(t) ==> t@ == (Instant { secs: secs as int, nanos: nanos as int })
                && t@.in_calendar(),
    {
        if MIN_SECS <= secs && secs <= MAX_SECS && nanos < NANOS_PER_SEC {
            Some(Timestamp { secs, nanos })
        } else {
            None
        }
    }

    /// The instant in the calendar nearest to (`secs`, `nanos`).
    pub fn saturating(secs: i64, nanos: u32) -> (r: Timestamp)
        ensures
            r@ == Instant::clamped(secs as int, nanos as int),
    {
        let s: i64 = if secs < MIN_SECS {
            MIN_SECS
        } else if secs > MAX_SECS {
            MAX_SECS
        } else {
            secs
        };
        let n: u32 = if nanos >= NANOS_PER_SEC {
            NANOS_PER_SEC - 1
        } else {
            nanos
        };
        Timestamp { secs: s, nanos: n }
    }

    /// The current instant by the system clock, held to the calendar. It
    /// does not lie before the Unix epoch.
    pub fn now() -> (r: Timestamp)
        ensures
            r@.in_calendar(),
            r@.secs >= 0,
    {
        let reading = clock_reading();
        Timestamp::saturating(reading.0, reading.1)
    }

    /// Every timestamp lies in the calendar.
    pub fn check(&self)
        ensures
            self@.in_calendar(),
    {
        proof {
            use_type_invariant(self);
        }
    }

    /// Whole seconds since the Unix epoch.
    pub fn secs(&self) -> (r: i64)
        ensures
            r == self@.secs,
            self@.in_calendar(),
    {
        proof {
            use_type_invariant(self);
        }
        self.secs
    }

    /// Nanoseconds past the whole second.
    pub fn nanos(&self) -> (r: u32)
        ensures
            r == self@.nanos,
    {
        self.nanos
    }

    /// Whether the two are the same instant.
    pub fn same(&self, other: &Timestamp) -> (r: bool)
        ensures
            r == (self@ == other@),
    {
        self.secs == other.secs && self.nanos == other.nanos
    }

    /// Whether `self` is strictly later than `other`.
    pub fn is_after(&self, other: &Timestamp) -> (r: bool)
        ensures
            r == self@.is_after(other@),
    {
        proof {
            use_type_invariant(self);
            use_type_invariant(other);
        }
        self.secs > other.secs || (self.secs == other.secs && self.nanos > other.nanos)
    }

    /// Whole days from `earlier` to `self`, rounded toward zero.
    pub fn whole_days_since(&self, earlier: &Timestamp) -> (r: i64)
        ensures
            r == self@.whole_days_since(earlier@),
    {
        proof {
            use_type_invariant(self);
            use_type_invariant(earlier);
        }
        let a: i128 = (self.secs as i128) * 1_000_000_000 + (self.nanos as i128);
        let b: i128 = (earlier.secs as i128) * 1_000_000_000 + (earlier.nanos as i128);
        let d: i128 = a - b;
        if d >= 0 {
            (d / NANOS_PER_DAY) as i64
        } else {
            let days: i128 = (0 - d) / NANOS_PER_DAY;
            (0 - days) as i64
        }
    }

    /// The stored text of the instant.
    pub fn to_rfc3339(&self) -> (r: String)
        ensures
            r@ == rfc3339_text(self@.secs, self@.nanos),
    {
        proof {
            use_type_invariant(self);
        }
        match write_rfc3339(self.secs, self.nanos) {
            Some(text) => text,
            None => vstd::pervasive::unreached(),
        }
    }

    /// Reads a stored text. The parser's message comes back where it refuses
    /// the text. An instant within a leap second is held as the last
    /// nanosecond of its second; an instant outside the years 0000 to 9999 is
    /// refused with a message of this library's.
    pub fn parse_rfc3339(text: &str) -> (r: Result<Timestamp, String>)
        ensures
            match rfc3339_instant(text@) {
                Some(p) => match Timestamp::held(p.0, p.1) {
                    Some(instant) => r matches Ok(t) && t@ == instant,
                    None => r matches Err(m) && m@ == "timestamp out of range"@,
                },
                None => r is Err,
            },
    {
        match read_rfc3339(text) {
            Ok(p) => Timestamp::from_parsed(p.0, p.1),
            Err(message) => Err(message),
        }
    }

    /// The instant that a timestamp holds for what the parser read: within
    /// the years 0000 to 9999 the instant itself, and for a leap second, which
    /// the parser gives as a nanosecond part of one second or more, the last
    /// nanosecond of its second. Outside those years there is none.
    pub open spec fn held(secs: int, nanos: int) -> Option<Instant> {
        if MIN_SECS <= secs <= MAX_SECS && 0 <= nanos < 2 * NANOS_PER_SEC {
            Some(
                Instant {
                    secs,
                    nanos: if nanos >= NANOS_PER_SEC {
                        NANOS_PER_SEC - 1
                    } else {
                        nanos
                    },
                },
            )
        } else {
            None
        }
    }

    /// What is made of the instant that the parser read: the timestamp that
    /// holds it, otherwise a message.
    pub fn from_parsed(secs: i64, nanos: u32) -> (r: Result<Timestamp, String>)
        ensures
            match Timestamp::held(secs as int, nanos as int) {
                Some(instant) => r matches Ok(t) && t@ == instant,
                None => r matches Err(m) && m@ == "timestamp out of range"@,
            },
    {
        if MIN_SECS <= secs && secs <= MAX_SECS && nanos < 2 * NANOS_PER_SEC {
            let kept: u32 = if nanos >= NANOS_PER_SEC {
                NANOS_PER_SEC - 1
            } else {
                nanos
            };
            Ok(Timestamp { secs, nanos: kept })
        } else {
            Err("timestamp out of range".to_owned())
        }
    }
}

} // verus!
