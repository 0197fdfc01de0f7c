//! Rendering block times.
//!
//! A block time arrives as raw Unix seconds and is rendered as a fixed
//! `YYYY-MM-DD HH:MM:SS UTC` string.  An epoch value the calendar library
//! cannot represent renders as the literal `Unknown` instead of failing.

use vstd::prelude::*;

verus! {

/// The fixed UTC rendering of an epoch second: `Some` exactly for the
/// seconds the calendar library can represent, and then the rendered
/// `YYYY-MM-DD HH:MM:SS UTC` string.
pub uninterp spec fn utc_label_of(ts: int) -> Option<Seq<char>>;

/// Relies on `chrono::DateTime::<chrono::Utc>::from_timestamp` (which is
/// `None` exactly for an out-of-range number of seconds) and on rendering
/// the result with the fixed format `%Y-%m-%d %H:%M:%S UTC`.  The outcome
/// depends on the epoch second alone.
#[verifier::external_body]
fn chrono_utc_label(ts: i64) -> (r: Option<String>)
    ensures
        (match r {
            Some(s) => utc_label_of(ts as int) == Some(s@),
            None => utc_label_of(ts as int) is None,
        }),
{
    chrono::DateTime::from_timestamp(ts, 0).map(|dt| dt.format("%Y-%m-%d %H:%M:%S UTC").to_string())
}

/// What the pipeline shows for a known block time: its fixed UTC rendering,
/// or the literal `Unknown` for an epoch value outside the calendar range.
pub open spec fn spec_block_time_label(ts: int) -> Seq<char> {
    match utc_label_of(ts) {
        Some(s) => s,
        None => "Unknown"@,
    }
}

/// Render a block time; an unrepresentable epoch value renders as the
/// literal `Unknown` rather than propagating an error.
pub fn format_block_time(ts: i64) -> (r: String)
    ensures
        r@ == spec_block_time_label(ts as int),
{
    match chrono_utc_label(ts) {
        Some(s) => s,
        None => "Unknown".to_owned(),
    }
}

} // verus!
