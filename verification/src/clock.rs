//! Timestamp normalization. Server messages may carry a timestamp as an RFC
//! 3339 string or as a numeric epoch value; epoch values above a fixed cutoff
//! are read as milliseconds, smaller ones as seconds. Everything is rendered
//! as a local-time "HH:MM" string, with documented fallbacks.

use vstd::prelude::*;

use crate::text::prefix_chars;
use crate::text::prefix_spec;

verus! {

/// Epoch values above this cutoff are taken to be milliseconds since the
/// epoch; values at or below it, seconds. A heuristic carried over from the
/// wire protocol's tolerant reading of server timestamps, not validated
/// against any server: kept in one place so it can be revisited.
pub const EPOCH_MILLIS_CUTOFF: i64 = 10_000_000_000;

/// A timestamp as found in a decoded server message.
#[derive(Debug, Clone)]
pub enum TimestampValue {
    /// A string field, expected (but not required) to be RFC 3339.
    Text(String),
    /// A numeric field: epoch seconds or milliseconds, by the cutoff.
    Epoch(i64),
    /// No usable timestamp field.
    Absent,
}

/// The epoch-second reading of a numeric timestamp field.
pub open spec fn epoch_seconds_spec(n: i64) -> int {
    if n > EPOCH_MILLIS_CUTOFF {
        n as int / 1000
    } else {
        n as int
    }
}

pub fn epoch_seconds(n: i64) -> (r: i64)
    ensures
        r as int == epoch_seconds_spec(n),
{
    if n > EPOCH_MILLIS_CUTOFF {
        let q = ((n as u64) / 1000) as i64;
        proof {
            assert(n as u64 == n as int) by (bit_vector)
                requires n > 10_000_000_000i64;
            assert((n as u64) / 1000 == (n as int) / 1000) by (nonlinear_arith)
                requires n as u64 == n as int && n as int > 0;
        }
        q
    } else {
        n
    }
}

/// Law: the same instant given in seconds and in milliseconds normalizes to
/// the same epoch-second value (for instants recent enough that their
/// millisecond form lies above the cutoff).
pub proof fn lemma_seconds_vs_millis(secs: i64, millis: i64)
    requires
        millis == secs * 1000,
        EPOCH_MILLIS_CUTOFF / 1000 < secs <= EPOCH_MILLIS_CUTOFF,
    ensures
        epoch_seconds_spec(millis) == epoch_seconds_spec(secs),
{
    assert(millis > EPOCH_MILLIS_CUTOFF) by (nonlinear_arith)
        requires millis == secs * 1000 && secs > EPOCH_MILLIS_CUTOFF / 1000;
    assert(millis as int / 1000 == secs) by (nonlinear_arith)
        requires millis == secs * 1000;
}

/// What RFC 3339 parsing yields for the given text: the instant as epoch
/// seconds, or nothing when the text does not parse. A function of the text
/// alone.
pub uninterp spec fn rfc3339_instant(text: Seq<char>) -> Option<i64>;

/// Relies on chrono's DateTime::parse_from_rfc3339 and timestamp: the parse
/// depends on the text alone; the parsed instant's epoch second count is
/// returned.
#[verifier::external_body]
fn parse_rfc3339(text: &str) -> (r: Option<i64>)
    ensures
        r == rfc3339_instant(text@),
{
    chrono::DateTime::parse_from_rfc3339(text).ok().map(|d| d.timestamp())
}

/// Relies on chrono's DateTime::from_timestamp and the Local timezone:
/// out-of-range second counts give None; otherwise the instant is rendered in
/// the machine's local timezone as "HH:MM", five characters. The result
/// depends on the local timezone, so nothing more is assumed of it.
#[verifier::external_body]
fn epoch_local_hm(secs: i64) -> (r: Option<String>)
    ensures
        r matches Some(s) ==> s@.len() == 5,
{
    chrono::DateTime::from_timestamp(secs, 0).map(
        |d| d.with_timezone(&chrono::Local).format("%H:%M").to_string(),
    )
}

/// Relies on chrono's Local::now: the current local time as "HH:MM", five
/// characters.
#[verifier::external_body]
pub(crate) fn now_local_hm() -> (r: String)
    ensures
        r@.len() == 5,
{
    chrono::Local::now().format("%H:%M").to_string()
}

/// Renders a decoded timestamp as a local "HH:MM" string.
///
/// A string timestamp that parses as RFC 3339 is shown as its local
/// hour:minute; one that does not parse falls back to its first five
/// characters. A numeric timestamp is read by `epoch_seconds_spec` and shown
/// as local hour:minute, falling back to the current time when out of range.
/// An absent timestamp shows the current time.
pub fn format_timestamp(ts: &TimestampValue) -> (r: String)
    ensures
        match ts {
            TimestampValue::Text(s) => {
                if rfc3339_instant(s@) is None {
                    r@ == prefix_spec(s@, 5)
                } else {
                    r@.len() == 5
                }
            },
            TimestampValue::Epoch(_) => r@.len() == 5,
            TimestampValue::Absent => r@.len() == 5,
        },
{
    match ts {
        TimestampValue::Text(s) => {
            match parse_rfc3339(s.as_str()) {
                Some(t) => {
                    match epoch_local_hm(t) {
                        Some(hm) => hm,
                        None => now_local_hm(),
                    }
                },
                None => prefix_chars(s.as_str(), 5),
            }
        },
        TimestampValue::Epoch(n) => {
            match epoch_local_hm(epoch_seconds(*n)) {
                Some(hm) => hm,
                None => now_local_hm(),
            }
        },
        TimestampValue::Absent => now_local_hm(),
    }
}

} // verus!
