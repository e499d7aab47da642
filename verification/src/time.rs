//! Points in time, held as seconds and nanoseconds since the UNIX epoch.
//!
//! Calendar rendering and parsing are done by `chrono`; the trusted items
//! below say which of its functions they call.

use vstd::prelude::*;
use chrono::{DateTime, Utc};

verus! {

/// A failed parse with the error text `e`.
pub open spec fn err_instant(e: Seq<char>) -> Result<(i64, u32), Seq<char>> {
    Err(e)
}

/// A successful parse giving `v`.
pub open spec fn ok_instant(v: (i64, u32)) -> Result<(i64, u32), Seq<char>> {
    Ok(v)
}

/// Whether `chrono::DateTime::<Utc>::from_timestamp(secs, nanos)` gives a date.
pub uninterp spec fn chrono_accepts(secs: i64, nanos: u32) -> bool;

/// The text `chrono::DateTime::to_rfc3339` gives for the instant `(secs, nanos)`.
pub uninterp spec fn rfc3339_text(secs: i64, nanos: u32) -> Seq<char>;

/// The text `chrono::DateTime::format(pattern)` gives for the instant
/// `(secs, nanos)`.
pub uninterp spec fn chrono_format(secs: i64, nanos: u32, pattern: Seq<char>) -> Seq<char>;

/// The instant as `YYYY-MM-DD HH:MM`.
pub open spec fn minute_text(secs: i64, nanos: u32) -> Seq<char> {
    chrono_format(secs, nanos, "%Y-%m-%d %H:%M"@)
}

/// The instant as `YYYY-MM-DD HH:MM:SS UTC`.
pub open spec fn second_text(secs: i64, nanos: u32) -> Seq<char> {
    chrono_format(secs, nanos, "%Y-%m-%d %H:%M:%S UTC"@)
}

/// The instant as `YYYYMMDD-HHMMSS`.
pub open spec fn stamp_text(secs: i64, nanos: u32) -> Seq<char> {
    chrono_format(secs, nanos, "%Y%m%d-%H%M%S"@)
}

/// The patterns this library formats with; each is made of specifiers that
/// chrono knows, so formatting with it does not fail.
pub open spec fn known_pattern(pattern: Seq<char>) -> bool {
    pattern == "%Y-%m-%d %H:%M"@ || pattern == "%Y-%m-%d %H:%M:%S UTC"@ || pattern
        == "%Y%m%d-%H%M%S"@
}

/// What `chrono::DateTime::parse_from_rfc3339` gives for a text, taken to UTC:
/// the instant, or the text of the parse error.
pub uninterp spec fn rfc3339_parse(text: Seq<char>) -> Result<(i64, u32), Seq<char>>;

/// Calls `chrono::Utc::now` and takes the instant apart. The instant depends on
/// the clock, so only that chrono accepts its parts back is stated: they come
/// from a `DateTime` that chrono built.
#[verifier::external_body]
fn utc_now_parts() -> (r: (i64, u32))
    ensures
        chrono_accepts(r.0, r.1),
{
    let now = Utc::now();
    (now.timestamp(), now.timestamp_subsec_nanos())
}

/// Calls `chrono::DateTime::<Utc>::from_timestamp` and reports whether it
/// gave a date.
#[verifier::external_body]
fn chrono_accepts_parts(secs: i64, nanos: u32) -> (r: bool)
    ensures
        r == chrono_accepts(secs, nanos),
{
    DateTime::<Utc>::from_timestamp(secs, nanos).is_some()
}

/// Whether an instant lies in the years 0000 to 9999 and is not a leap second.
pub open spec fn in_four_digit_years(secs: i64, nanos: u32) -> bool {
    -62167219200 <= secs <= 253402300799 && nanos < 1_000_000_000
}

/// Calls `chrono::DateTime::to_rfc3339` on the instant `(secs, nanos)`. For
/// years 0000 to 9999 the source writes the year in four digits, the offset as
/// `+00:00` and as many fraction digits as the nanoseconds need, a text that
/// `parse_from_rfc3339` reads back as the same instant; other years get a sign
/// and more digits, which that parser does not accept.
#[verifier::external_body]
fn rfc3339_of_parts(secs: i64, nanos: u32) -> (r: String)
    requires
        chrono_accepts(secs, nanos),
    ensures
        r@ == rfc3339_text(secs, nanos),
        in_four_digit_years(secs, nanos) ==> rfc3339_parse(r@) == ok_instant(
            (secs, nanos),
        ),
{
    DateTime::<Utc>::from_timestamp(secs, nanos).unwrap().to_rfc3339()
}

/// Calls `chrono::DateTime::format(pattern)` on the instant `(secs, nanos)`
/// and renders it.
#[verifier::external_body]
fn format_parts(secs: i64, nanos: u32, pattern: &str) -> (r: String)
    requires
        chrono_accepts(secs, nanos),
        known_pattern(pattern@),
    ensures
        r@ == chrono_format(secs, nanos, pattern@),
{
    DateTime::<Utc>::from_timestamp(secs, nanos).unwrap().format(pattern).to_string()
}

/// Calls `chrono::DateTime::parse_from_rfc3339` and takes the result to UTC
/// parts; on failure gives the error's text. A parsed instant comes from a
/// `DateTime` that chrono built, so chrono accepts its parts back.
#[verifier::external_body]
fn parse_rfc3339_parts(text: &str) -> (r: Result<(i64, u32), String>)
    ensures
        match r {
            Ok(p) => rfc3339_parse(text@) == ok_instant(p) && chrono_accepts(p.0, p.1),
            Err(e) => rfc3339_parse(text@) == err_instant(e@),
        },
{
    match DateTime::parse_from_rfc3339(text) {
        Ok(dt) => {
            let utc = dt.with_timezone(&Utc);
            Ok((utc.timestamp(), utc.timestamp_subsec_nanos()))
        },
        Err(e) => Err(e.to_string()),
    }
}

/// An instant in UTC, as whole seconds since the UNIX epoch and nanoseconds.
#[derive(Clone, Copy, Debug, PartialEq, Eq)]
pub struct Timestamp {
    secs: i64,
    nanos: u32,
}

impl Timestamp {
    #[verifier::type_invariant]
    spec fn valid(self) -> bool {
        chrono_accepts(self.secs, self.nanos)
    }

    /// Seconds since the epoch.
    pub closed spec fn secs_spec(self) -> i64 {
        self.secs
    }

    /// Nanoseconds within the second.
    pub closed spec fn nanos_spec(self) -> u32 {
        self.nanos
    }

    /// The current time. It depends on the clock, so what is stated is what
    /// holds of every reading: its parts are ones chrono accepts.
    pub fn now() -> (r: Timestamp)
        ensures
            chrono_accepts(r.secs_spec(), r.nanos_spec()),
    {
        let (secs, nanos) = utc_now_parts();
        Timestamp { secs, nanos }
    }

    /// Builds a timestamp from its parts, where chrono accepts them.
    pub fn from_parts(secs: i64, nanos: u32) -> (r: Option<Timestamp>)
        ensures
            r is Some <==> chrono_accepts(secs, nanos),
            r matches Some(t) ==> t.secs_spec() == secs && t.nanos_spec() == nanos,
    {
        if chrono_accepts_parts(secs, nanos) {
            Some(Timestamp { secs, nanos })
        } else {
            None
        }
    }

    /// Seconds since the epoch.
    pub fn secs(&self) -> (r: i64)
        ensures
            r == self.secs_spec(),
    {
        self.secs
    }

    /// Nanoseconds within the second.
    pub fn nanos(&self) -> (r: u32)
        ensures
            r == self.nanos_spec(),
    {
        self.nanos
    }

    /// The RFC 3339 text of this instant; for the years 0000 to 9999 it parses
    /// back to the same instant.
    pub fn to_rfc3339(&self) -> (r: String)
        ensures
            r@ == rfc3339_text(self.secs_spec(), self.nanos_spec()),
            in_four_digit_years(self.secs_spec(), self.nanos_spec()) ==> rfc3339_parse(r@) == ok_instant((self.secs_spec(), self.nanos_spec())),
    {
        proof { use_type_invariant(self); }
        rfc3339_of_parts(self.secs, self.nanos)
    }

    /// This instant as `YYYY-MM-DD HH:MM`.
    pub fn to_minute_text(&self) -> (r: String)
        ensures
            r@ == minute_text(self.secs_spec(), self.nanos_spec()),
    {
        proof { use_type_invariant(self); }
        format_parts(self.secs, self.nanos, "%Y-%m-%d %H:%M")
    }

    /// This instant as `YYYY-MM-DD HH:MM:SS UTC`.
    pub fn to_second_text(&self) -> (r: String)
        ensures
            r@ == second_text(self.secs_spec(), self.nanos_spec()),
    {
        proof { use_type_invariant(self); }
        format_parts(self.secs, self.nanos, "%Y-%m-%d %H:%M:%S UTC")
    }

    /// This instant as `YYYYMMDD-HHMMSS`, as used in backup names.
    pub fn to_stamp_text(&self) -> (r: String)
        ensures
            r@ == stamp_text(self.secs_spec(), self.nanos_spec()),
    {
        proof { use_type_invariant(self); }
        format_parts(self.secs, self.nanos, "%Y%m%d-%H%M%S")
    }

    /// Parses an RFC 3339 text, giving the instant in UTC or chrono's error text.
    pub fn parse_rfc3339(text: &str) -> (r: Result<Timestamp, String>)
        ensures
            match r {
                Ok(t) => rfc3339_parse(text@) == ok_instant((t.secs_spec(), t.nanos_spec())),
                Err(e) => rfc3339_parse(text@) == err_instant(e@),
            },
    {
        match parse_rfc3339_parts(text) {
            Ok(p) => Ok(Timestamp { secs: p.0, nanos: p.1 }),
            Err(e) => Err(e),
        }
    }
}

} // verus!
