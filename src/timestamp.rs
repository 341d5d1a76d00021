//! Normalisation of the loosely typed `updated_at` text that the search store
//! hands back into epoch seconds.

use vstd::prelude::*;

use crate::decimal::{decimal_value, parse_decimal};
use crate::text::contains_char;

verus! {

/// Epoch seconds of the instant that chrono's RFC 3339 parser reads from `s`,
/// or `None` where it rejects `s`.
pub uninterp spec fn rfc3339_seconds(s: Seq<char>) -> Option<i64>;

/// Epoch seconds of the instant that chrono reads from `s` under the strftime
/// pattern `pattern` (an offset is required), or `None` where it rejects `s`.
pub uninterp spec fn pattern_seconds(s: Seq<char>, pattern: Seq<char>) -> Option<i64>;

/// Relies on chrono's `DateTime::parse_from_rfc3339`; the parsed instant is
/// reduced to its epoch seconds with `DateTime::timestamp`.
#[verifier::external_body]
fn rfc3339_epoch(s: &str) -> (r: Option<i64>)
    ensures
        r == rfc3339_seconds(s@),
{
    chrono::DateTime::parse_from_rfc3339(s).ok().map(|dt| dt.timestamp())
}

/// Relies on chrono's `DateTime::parse_from_str`; the parsed instant is
/// reduced to its epoch seconds with `DateTime::timestamp`.
#[verifier::external_body]
fn pattern_epoch(s: &str, pattern: &str) -> (r: Option<i64>)
    ensures
        r == pattern_seconds(s@, pattern@),
{
    chrono::DateTime::parse_from_str(s, pattern).ok().map(|dt| dt.timestamp())
}

/// Relies on chrono's `Utc::now`, read as epoch seconds with
/// `DateTime::timestamp`. Nothing is promised of the value: it is the clock.
#[verifier::external_body]
pub(crate) fn now_epoch_seconds() -> (r: i64) {
    chrono::Utc::now().timestamp()
}

/// Number of date-time patterns tried after the RFC 3339 parser.
pub const FALLBACK_PATTERNS: usize = 4;

/// The date-time patterns tried, in order, after the RFC 3339 parser: with
/// fractional seconds, then without, each with a colon offset and then a
/// compact one.
pub open spec fn fallback_pattern(k: int) -> Seq<char> {
    if k == 0 {
        "%Y-%m-%dT%H:%M:%S%.f%:z"@
    } else if k == 1 {
        "%Y-%m-%dT%H:%M:%S%.f%z"@
    } else if k == 2 {
        "%Y-%m-%dT%H:%M:%S%:z"@
    } else {
        "%Y-%m-%dT%H:%M:%S%z"@
    }
}

fn fallback_pattern_str(k: usize) -> (p: &'static str)
    requires
        k < FALLBACK_PATTERNS,
    ensures
        p@ == fallback_pattern(k as int),
{
    if k == 0 {
        "%Y-%m-%dT%H:%M:%S%.f%:z"
    } else if k == 1 {
        "%Y-%m-%dT%H:%M:%S%.f%z"
    } else if k == 2 {
        "%Y-%m-%dT%H:%M:%S%:z"
    } else {
        "%Y-%m-%dT%H:%M:%S%z"
    }
}

/// The result of the first fallback pattern, from the `k`-th on, that reads `s`.
pub open spec fn first_pattern_seconds(s: Seq<char>, k: int) -> Option<i64>
    decreases FALLBACK_PATTERNS - k,
{
    if k < 0 || k >= FALLBACK_PATTERNS {
        None
    } else {
        match pattern_seconds(s, fallback_pattern(k)) {
            Some(t) => Some(t),
            None => first_pattern_seconds(s, k + 1),
        }
    }
}

/// Epoch seconds of an offset-qualified date-time: RFC 3339 first, then the
/// fallback patterns in order; the first that reads `s` wins.
pub open spec fn offset_seconds(s: Seq<char>) -> Option<i64> {
    match rfc3339_seconds(s) {
        Some(t) => Some(t),
        None => first_pattern_seconds(s, 0),
    }
}

/// The cheap test that gates the date-time parsers: `s` holds a `T` and a `+`.
pub open spec fn looks_offset_qualified(s: Seq<char>) -> bool {
    s.contains('T') && s.contains('+')
}

/// The epoch seconds that `updated_at` text denotes, if any: an unsigned
/// decimal is taken as it is; otherwise, where the text looks offset-qualified,
/// the date-time parsers are tried, and the instant's seconds are taken as a
/// 64-bit unsigned value (wrapping, as an `as` cast does).
pub open spec fn parsed_epoch(s: Seq<char>) -> Option<u64> {
    match decimal_value(s) {
        Some(v) => Some(v),
        None => if looks_offset_qualified(s) {
            match offset_seconds(s) {
                Some(t) => Some(t as u64),
                None => None,
            }
        } else {
            None
        },
    }
}

/// The epoch seconds for `updated_at` text, with `now` standing in where the
/// text denotes none.
pub open spec fn resolved_epoch(s: Seq<char>, now: u64) -> u64 {
    match parsed_epoch(s) {
        Some(v) => v,
        None => now,
    }
}

/// Tries the fallback patterns in order; the first that reads `s` wins.
fn first_pattern_epoch(s: &str) -> (r: Option<i64>)
    ensures
        r == first_pattern_seconds(s@, 0),
{
    let mut k: usize = 0;
    while k < FALLBACK_PATTERNS
        invariant
            k <= FALLBACK_PATTERNS,
            first_pattern_seconds(s@, k as int) == first_pattern_seconds(s@, 0),
        decreases FALLBACK_PATTERNS - k,
    {
        let found = pattern_epoch(s, fallback_pattern_str(k));
        if found.is_some() {
            return found;
        }
        k = k + 1;
    }
    None
}

/// Epoch seconds of an offset-qualified date-time, by the ordered parsers.
pub fn offset_epoch(s: &str) -> (r: Option<i64>)
    ensures
        r == offset_seconds(s@),
{
    match rfc3339_epoch(s) {
        Some(t) => Some(t),
        None => first_pattern_epoch(s),
    }
}

/// The epoch seconds that `updated_at` text denotes, or `None` where the
/// caller must fall back.
pub fn parse_updated_at(s: &str) -> (r: Option<u64>)
    ensures
        r == parsed_epoch(s@),
{
    match parse_decimal(s) {
        Some(v) => Some(v),
        None => {
            if contains_char(s, 'T') && contains_char(s, '+') {
                match offset_epoch(s) {
                    Some(t) => Some(t as u64),
                    None => None,
                }
            } else {
                None
            }
        },
    }
}

/// The epoch seconds for `updated_at` text, with `now` standing in where the
/// text denotes none.
pub fn resolve_updated_at(s: &str, now: u64) -> (r: u64)
    ensures
        r == resolved_epoch(s@, now),
{
    match parse_updated_at(s) {
        Some(v) => v,
        None => now,
    }
}

} // verus!
