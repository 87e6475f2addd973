//! Instants on the UTC time line, held as plain integers.

use vstd::prelude::*;

verus! {

/// Seconds since the Unix epoch of the first representable instant,
/// midnight of January 1 of the year -262143.
pub const MIN_SECS: i64 = -8_334_601_228_800;

/// Seconds since the Unix epoch of the last representable second,
/// 23:59:59 of December 31 of the year 262142.
pub const MAX_SECS: i64 = 8_210_266_876_799;

/// Exclusive upper bound of the nanosecond field. Values from one billion
/// upwards stand for a leap second.
pub const NANOS_LIMIT: u32 = 2_000_000_000;

/// First nanosecond value that denotes a leap second.
pub const LEAP_NANOS: u32 = 1_000_000_000;

/// Mathematical model of a [`Timestamp`]: non-leap seconds since the Unix
/// epoch and nanoseconds since the last whole second.
pub struct Instant {
    pub secs: int,
    pub nanos: int,
}

impl Instant {
    /// Strict chronological order: seconds first, nanoseconds second.
    pub open spec fn is_before(self, other: Instant) -> bool {
        self.secs < other.secs || (self.secs == other.secs && self.nanos < other.nanos)
    }

    /// Whether the pair denotes an instant of the supported calendar range.
    /// A leap second may only follow the 59th second of a minute.
    pub open spec fn representable(self) -> bool {
        &&& MIN_SECS <= self.secs <= MAX_SECS
        &&& 0 <= self.nanos < NANOS_LIMIT
        &&& self.nanos >= LEAP_NANOS ==> self.secs % 60 == 59
    }
}

/// The text that chrono renders for the UTC instant `secs` seconds and `nanos`
/// nanoseconds after the Unix epoch under the pattern `%Y-%m-%d %H:%M:%S`.
pub uninterp spec fn utc_label(secs: int, nanos: int) -> Seq<char>;

/// Renders an instant through `chrono::DateTime::from_timestamp` followed by
/// `DateTime::format` with the pattern `%Y-%m-%d %H:%M:%S`.
///
/// Trusted, not proved: the bounds of [`Instant::representable`] are the span
/// on which `from_timestamp` yields a value (years -262143 through 262142,
/// nanoseconds below two billion, a leap second only after second 59), so the
/// second arm below is never taken; and the rendered text depends on the two
/// integers alone.
#[verifier::external_body]
fn format_utc(secs: i64, nanos: u32) -> (text: String)
    requires
        (Instant { secs: secs as int, nanos: nanos as int }).representable(),
    ensures
        text@ == utc_label(secs as int, nanos as int),
{
    match chrono::DateTime::from_timestamp(secs, nanos) {
        Some(moment) => moment.format("%Y-%m-%d %H:%M:%S").to_string(),
        None => String::new(),
    }
}

/// A representable UTC instant.
#[derive(Clone, Copy, Debug)]
pub struct Timestamp {
    secs: i64,
    nanos: u32,
}

impl View for Timestamp {
    type V = Instant;

    closed spec fn view(&self) -> Instant {
        Instant { secs: self.secs as int, nanos: self.nanos as int }
    }
}

impl Timestamp {
    #[verifier::type_invariant]
    closed spec fn inv(self) -> bool {
        self@.representable()
    }

    /// Builds a timestamp from seconds and nanoseconds, or nothing when the
    /// pair is not representable.
    pub fn new(secs: i64, nanos: u32) -> (r: Option<Timestamp>)
        ensures
            r is Some <==> (Instant { secs: secs as int, nanos: nanos as int }).representable(),
            r matches Some(t) ==> t@ == (Instant { secs: secs as int, nanos: nanos as int }),
    {
        if secs < MIN_SECS || secs > MAX_SECS || nanos >= NANOS_LIMIT {
            return None;
        }
        if nanos >= LEAP_NANOS {
            let second_of_minute: Option<i64> = secs.checked_rem_euclid(60);
            if second_of_minute != Some(59) {
                return None;
            }
        }
        Some(Timestamp { secs, nanos })
    }

    /// Seconds since the Unix epoch.
    pub fn secs(&self) -> (r: i64)
        ensures
            r == self@.secs,
    {
        self.secs
    }

    /// Nanoseconds since the last whole second.
    pub fn nanos(&self) -> (r: u32)
        ensures
            r == self@.nanos,
    {
        self.nanos
    }

    /// Fixed-format rendering of the instant, `YYYY-MM-DD HH:MM:SS` in UTC.
    pub fn label(&self) -> (text: String)
        ensures
            text@ == utc_label(self@.secs, self@.nanos),
    {
        proof {
            use_type_invariant(self);
        }
        format_utc(self.secs, self.nanos)
    }

    /// Whether this instant lies strictly before `other`.
    pub fn is_before(&self, other: &Timestamp) -> (r: bool)
        ensures
            r == self@.is_before(other@),
    {
        self.secs < other.secs || (self.secs == other.secs && self.nanos < other.nanos)
    }
}

} // verus!
