//! The time of a sample as the dashboard shows it: local time in Vietnam,
//! day first.

use chrono::TimeZone;
use std::fmt::Write;
use vstd::prelude::*;

verus! {

/// Vietnam is seven hours east of Greenwich all year.
pub const VN_OFFSET_SECONDS: i32 = 7 * 3600;

/// What `chrono` writes for the moment `timestamp` seconds after the Unix
/// epoch, seen from the fixed offset `offset_seconds` east of Greenwich, under
/// the strftime pattern `pattern`; `None` where the offset or the moment is
/// out of chrono's range or the pattern is not one that it takes.
pub uninterp spec fn zoned_time_text(offset_seconds: i32, timestamp: i64, pattern: Seq<char>) -> Option<Seq<char>>;

/// Calls chrono's `FixedOffset::east_opt`, `TimeZone::timestamp_opt` and
/// `DateTime::format`, and writes the result into a string. The contract only
/// names the outcome: a fixed offset involves neither the machine's clock nor
/// its time zone, so the same arguments always give the same text. `None`
/// stands for each of chrono's refusals: of the offset, of the moment, and of
/// the pattern when it is written out.
#[verifier::external_body]
fn zoned_text(offset_seconds: i32, timestamp: i64, pattern: &str) -> (r: Option<String>)
    ensures
        match r {
            Some(text) => zoned_time_text(offset_seconds, timestamp, pattern@) == Some(text@),
            None => zoned_time_text(offset_seconds, timestamp, pattern@).is_none(),
        },
{
    let zone = chrono::FixedOffset::east_opt(offset_seconds)?;
    let moment = zone.timestamp_opt(timestamp, 0).single()?;
    let mut text = String::new();
    write!(text, "{}", moment.format(pattern)).ok()?;
    Some(text)
}

/// The label for a local time that may be missing.
pub open spec fn label_text(local: Option<Seq<char>>) -> Seq<char> {
    match local {
        Some(text) => text,
        None => "Invalid Time"@,
    }
}

/// The label that `format_vn_timestamp` gives for `ts`. Seconds beyond
/// `i64::MAX` are read as the negative number with the same 64 bits.
pub open spec fn vn_timestamp_text(ts: u64) -> Seq<char> {
    label_text(zoned_time_text(VN_OFFSET_SECONDS, ts as i64, "%d/%m/%Y %H:%M:%S"@))
}

/// The label for a local time: the time itself, or `Invalid Time` where
/// there is none.
pub fn timestamp_label(local: Option<String>) -> (r: String)
    ensures
        r@ == label_text(
            match local {
                Some(text) => Some(text@),
                None => None,
            },
        ),
{
    match local {
        Some(text) => text,
        None => String::from_str("Invalid Time"),
    }
}

/// A sample's timestamp as day/month/year and time of day in Vietnam, or
/// `Invalid Time` for a moment that the calendar cannot hold.
pub fn format_vn_timestamp(ts: u64) -> (r: String)
    ensures
        r@ == vn_timestamp_text(ts),
{
    let seconds: i64 = #[verifier::truncate] (ts as i64);
    timestamp_label(zoned_text(VN_OFFSET_SECONDS, seconds, "%d/%m/%Y %H:%M:%S"))
}

} // verus!
