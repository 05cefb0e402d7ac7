//! The call into `chrono` the library makes: rendering a UTC instant with a
//! fixed `strftime` pattern. Instants are carried as whole seconds since the
//! Unix epoch.
use vstd::prelude::*;

verus! {

/// Seconds since the epoch of 1 January 262143 BCE (proleptic year -262143),
/// the earliest instant a `chrono::DateTime<Utc>` can hold.
pub const MIN_TIMESTAMP: i64 = -8334601315200;

/// Seconds since the epoch of 31 December 262142, 23:59:59 UTC, the latest
/// instant a `chrono::DateTime<Utc>` can hold.
pub const MAX_TIMESTAMP: i64 = 8210266876799;

/// `secs` names an instant that `chrono::DateTime<Utc>` can represent.
pub open spec fn in_time_range(secs: i64) -> bool {
    MIN_TIMESTAMP <= secs <= MAX_TIMESTAMP
}

/// The text `chrono` produces for the UTC instant `secs` under the
/// `strftime` pattern `fmt`.
pub uninterp spec fn spec_format_utc(secs: i64, fmt: Seq<char>) -> Seq<char>;

/// The date pattern used for saved/noted days in the export.
pub open spec fn day_pattern() -> Seq<char> {
    "%Y-%m-%d"@
}

/// The date-and-minute pattern used under each title in the article list.
pub open spec fn minute_pattern() -> Seq<char> {
    "%Y-%m-%d %H:%M"@
}

/// Calls `chrono::DateTime::<Utc>::from_timestamp(secs, 0)` and then
/// `format(fmt).to_string()`. `from_timestamp` returns `Some` for every
/// instant in `chrono`'s date range (years -262143 to 262142), which is what
/// `in_time_range` states; the two accepted patterns hold only valid
/// specifiers, so rendering cannot fail. The text itself is left to the name
/// `spec_format_utc`.
#[verifier::external_body]
pub(crate) fn format_utc(secs: i64, fmt: &str) -> (res: String)
    requires
        in_time_range(secs),
        fmt@ == day_pattern() || fmt@ == minute_pattern(),
    ensures
        res@ == spec_format_utc(secs, fmt@),
{
    chrono::DateTime::from_timestamp(secs, 0).unwrap().format(fmt).to_string()
}

} // verus!
