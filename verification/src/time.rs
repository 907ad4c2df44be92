//! Instants of publication and of reading, as `chrono` computes them.

use chrono::{DateTime, Utc};
use vstd::prelude::*;

verus! {

#[verifier::external_type_specification]
#[verifier::external_body]
pub struct ExParseError(chrono::format::ParseError);

/// Whether `DateTime::from_timestamp(secs, nanos)` accepts the pair.
pub uninterp spec fn chrono_timestamp_in_range(secs: i64, nanos: u32) -> bool;

/// The instant that `DateTime::parse_from_rfc2822` reads from a text, as
/// whole seconds since the Unix epoch and the nanoseconds past them.
pub uninterp spec fn chrono_rfc2822(text: Seq<char>) -> Option<(i64, u32)>;

/// `lhs.signed_duration_since(rhs)` as `(num_seconds(), subsec_nanos())`.
pub uninterp spec fn chrono_signed_duration(
    lhs_secs: i64,
    lhs_nanos: u32,
    rhs_secs: i64,
    rhs_nanos: u32,
) -> (i64, i32);

/// The text that `DateTime::format(fmt).to_string()` writes for an instant.
pub uninterp spec fn chrono_strftime(secs: i64, nanos: u32, fmt: Seq<char>) -> Seq<char>;

/// An instant in UTC that chrono can represent, by its Unix time: whole
/// seconds since 1970-01-01 00:00:00 and the nanoseconds past them (at or
/// above one second only within a leap second).
#[derive(Clone, Copy, Debug)]
pub struct Timestamp {
    secs: i64,
    nanos: u32,
}

impl Timestamp {
    #[verifier::type_invariant]
    closed spec fn representable(self) -> bool {
        chrono_timestamp_in_range(self.secs, self.nanos)
    }
}

impl View for Timestamp {
    type V = (i64, u32);

    closed spec fn view(&self) -> (i64, u32) {
        (self.secs, self.nanos)
    }
}

/// `DateTime::from_timestamp`: `Some` exactly for the pairs chrono can hold,
/// and then the instant whose Unix time is the pair (chrono documents the
/// round trip through `timestamp` and `timestamp_subsec_nanos`).
#[verifier::external_body]
fn chrono_from_timestamp(secs: i64, nanos: u32) -> (r: Option<Timestamp>)
    ensures
        r is Some <==> chrono_timestamp_in_range(secs, nanos),
        r matches Some(t) ==> t@ == (secs, nanos),
{
    match DateTime::from_timestamp(secs, nanos) {
        Some(_) => Some(Timestamp { secs, nanos }),
        None => None,
    }
}

impl Timestamp {
    /// The instant at `secs` seconds and `nanos` nanoseconds after the Unix
    /// epoch, or `None` where chrono cannot represent it.
    pub fn from_unix(secs: i64, nanos: u32) -> (r: Option<Timestamp>)
        ensures
            r is Some <==> chrono_timestamp_in_range(secs, nanos),
            r matches Some(t) ==> t@ == (secs, nanos),
    {
        chrono_from_timestamp(secs, nanos)
    }

    /// Whole seconds since the Unix epoch.
    pub fn secs(&self) -> (r: i64)
        ensures
            r == self@.0,
    {
        self.secs
    }

    /// Nanoseconds past `secs()`.
    pub fn nanos(&self) -> (r: u32)
        ensures
            r == self@.1,
    {
        self.nanos
    }
}


/// `DateTime::parse_from_rfc2822`, the instant taken to UTC: `Ok` exactly
/// where chrono reads an instant from the text, and then that instant.
#[verifier::external_body]
fn chrono_parse_rfc2822(text: &str) -> (r: Result<Timestamp, chrono::format::ParseError>)
    ensures
        r is Ok <==> chrono_rfc2822(text@) is Some,
        r matches Ok(t) ==> chrono_rfc2822(text@) == Some(t@),
{
    match DateTime::parse_from_rfc2822(text) {
        Ok(read) => {
            let instant = read.with_timezone(&Utc);
            Ok(Timestamp { secs: instant.timestamp(), nanos: instant.timestamp_subsec_nanos() })
        },
        Err(e) => Err(e),
    }
}

/// `Utc::now()`: the system clock, read as seconds since the Unix epoch,
/// which chrono takes from `SystemTime` and so never holds a leap second.
/// What it reads depends on the clock alone; that chrono panics on a clock
/// set before 1970 is not stated.
#[verifier::external_body]
pub(crate) fn chrono_utc_now() -> (r: Timestamp)
    ensures
        0 <= r@.0,
        r@.1 < 1_000_000_000,
{
    let instant = Utc::now();
    Timestamp { secs: instant.timestamp(), nanos: instant.timestamp_subsec_nanos() }
}

/// `DateTime::<Utc>::default()`: the Unix epoch, 1970-01-01 00:00:00.
#[verifier::external_body]
pub(crate) fn chrono_default_instant() -> (r: Timestamp)
    ensures
        r@ == (0i64, 0u32),
{
    let instant = DateTime::<Utc>::default();
    Timestamp { secs: instant.timestamp(), nanos: instant.timestamp_subsec_nanos() }
}

/// `lhs.signed_duration_since(rhs)`, read back as whole seconds and the
/// signed nanoseconds past them (`num_seconds`, `subsec_nanos`).
#[verifier::external_body]
fn chrono_duration_since(lhs: &Timestamp, rhs: &Timestamp) -> (r: (i64, i32))
    requires
        chrono_timestamp_in_range(lhs@.0, lhs@.1),
        chrono_timestamp_in_range(rhs@.0, rhs@.1),
    ensures
        r == chrono_signed_duration(lhs@.0, lhs@.1, rhs@.0, rhs@.1),
{
    let later = DateTime::from_timestamp(lhs.secs, lhs.nanos).unwrap();
    let earlier = DateTime::from_timestamp(rhs.secs, rhs.nanos).unwrap();
    let delta = later.signed_duration_since(earlier);
    (delta.num_seconds(), delta.subsec_nanos())
}

/// A format string made of plain characters and the specifiers `%d`, `%m`,
/// `%Y`, `%H` and `%M`, each of which chrono writes for every instant.
pub open spec fn plain_strftime_pattern(fmt: Seq<char>) -> bool {
    forall|i: int|
        0 <= i < fmt.len() && #[trigger] fmt[i] == '%' ==> {
            &&& i + 1 < fmt.len()
            &&& (fmt[i + 1] == 'd' || fmt[i + 1] == 'm' || fmt[i + 1] == 'Y' || fmt[i + 1]
                == 'H' || fmt[i + 1] == 'M')
        }
}

/// `instant.format(fmt).to_string()`, for patterns chrono always writes.
#[verifier::external_body]
fn chrono_format(t: &Timestamp, fmt: &str) -> (r: String)
    requires
        chrono_timestamp_in_range(t@.0, t@.1),
        plain_strftime_pattern(fmt@),
    ensures
        r@ == chrono_strftime(t@.0, t@.1, fmt@),
{
    DateTime::from_timestamp(t.secs, t.nanos).unwrap().format(fmt).to_string()
}

/// How long after `earlier` the instant `later` is, as chrono reckons it
/// (`signed_duration_since`), in whole seconds and nanoseconds past them.
pub fn duration_since(later: &Timestamp, earlier: &Timestamp) -> (r: (i64, i32))
    ensures
        r == chrono_signed_duration(later@.0, later@.1, earlier@.0, earlier@.1),
{
    proof {
        use_type_invariant(later);
        use_type_invariant(earlier);
    }
    chrono_duration_since(later, earlier)
}

/// The text chrono writes for an instant under a pattern of plain
/// characters and the specifiers `%d`, `%m`, `%Y`, `%H` and `%M`.
pub fn format_instant(t: &Timestamp, fmt: &str) -> (r: String)
    requires
        plain_strftime_pattern(fmt@),
    ensures
        r@ == chrono_strftime(t@.0, t@.1, fmt@),
{
    proof {
        use_type_invariant(t);
    }
    chrono_format(t, fmt)
}

/// The nanoseconds in a day.
pub open spec fn nanos_per_day() -> int {
    86_400_000_000_000
}

/// The length of a `chrono::TimeDelta` given as `(num_seconds(), subsec_nanos())`,
/// in nanoseconds; chrono orders deltas by it.
pub open spec fn delta_nanos(delta: (i64, i32)) -> int {
    delta.0 * 1_000_000_000 + delta.1
}

/// Whether `TimeDelta::days(days)` is in chrono's range (it panics otherwise).
pub open spec fn days_in_delta_range(days: i64) -> bool {
    -(i64::MAX / 1000) <= days * 86400 <= i64::MAX / 1000
}

/// `delta <= TimeDelta::days(days)`: whether a delta lasts at most `days` days.
pub fn within_days(delta: (i64, i32), days: i64) -> (r: bool)
    requires
        days_in_delta_range(days),
    ensures
        r == (delta_nanos(delta) <= days * nanos_per_day()),
{
    let total: i128 = delta.0 as i128 * 1_000_000_000i128 + delta.1 as i128;
    let limit: i128 = days as i128 * 86_400_000_000_000i128;
    total <= limit
}

/// Why a publication date could not be read.
#[derive(Debug)]
pub enum PubDateError {
    /// chrono found no RFC 2822 date in the text; its error says why.
    Rfc2822(chrono::format::ParseError),
}

/// The publication date of an item, read from the optional text of its
/// `pubDate` element: none where the element is absent, the instant that
/// chrono reads as RFC 2822 where it is present, and an error where chrono
/// reads none.
pub fn deserialize_rfc2822(text: Option<String>) -> (r: Result<Option<Timestamp>, PubDateError>)
    ensures
        text is None ==> r matches Ok(None),
        text matches Some(s) ==> match chrono_rfc2822(s@) {
            Some(v) => r matches Ok(Some(t)) && t@ == v,
            None => r is Err,
        },
{
    match text {
        Some(date_str) => match chrono_parse_rfc2822(date_str.as_str()) {
            Ok(t) => Ok(Some(t)),
            Err(e) => Err(PubDateError::Rfc2822(e)),
        },
        None => Ok(None),
    }
}

} // verus!
