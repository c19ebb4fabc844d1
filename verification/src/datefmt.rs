use vstd::prelude::*;
use std::fmt::Write;

verus! {

/// Whether chrono's strftime parser accepts every specifier of `fmt`.
/// The value is fixed by the format string alone.
pub uninterp spec fn strftime_ok(fmt: Seq<char>) -> bool;

/// The string chrono produces when a UTC timestamp of `secs` seconds since
/// the epoch is formatted with the strftime string `fmt`. The value is fixed
/// by the two arguments alone: the timezone is always UTC and chrono's
/// default (English) names are locale-independent.
pub uninterp spec fn formatted_date(secs: int, fmt: Seq<char>) -> Seq<char>;

/// Timestamps from the epoch through the year 9999, all of which chrono can
/// represent as a `DateTime<Utc>`.
pub open spec fn common_era_secs(secs: int) -> bool {
    0 <= secs <= 253_402_300_799
}

/// Relies on chrono's `StrftimeItems::parse`, which returns `Ok` exactly when
/// the format string contains no invalid or unrecognized specifier.
#[verifier::external_body]
fn strftime_parses(fmt: &str) -> (r: bool)
    ensures
        r == strftime_ok(fmt@),
{
    chrono::format::strftime::StrftimeItems::new(fmt).parse().is_ok()
}

/// Relies on chrono's `DateTime::<Utc>::from_timestamp`, which is `Some` for
/// every second count from the epoch through year 9999, and on the `Display`
/// of `DateTime::format`, which writes the formatted date and errs exactly on
/// the format strings that `StrftimeItems::parse` rejects.
#[verifier::external_body]
pub(crate) fn format_utc_timestamp(secs: i64, fmt: &str) -> (r: Option<String>)
    ensures
        r matches Some(s) ==> s@ == formatted_date(secs as int, fmt@),
        r is Some ==> strftime_ok(fmt@),
        strftime_ok(fmt@) && common_era_secs(secs as int) ==> r is Some,
{
    let dt = match chrono::DateTime::<chrono::Utc>::from_timestamp(secs, 0) {
        Some(dt) => dt,
        None => return None,
    };
    let mut out = String::new();
    match write!(&mut out, "{}", dt.format(fmt)) {
        Ok(()) => Some(out),
        Err(_) => None,
    }
}

/// A usable grouping date format: non-empty and accepted by chrono.
pub open spec fn date_format_ok(fmt: Seq<char>) -> bool {
    fmt.len() > 0 && strftime_ok(fmt)
}

/// Decides whether `fmt` may be used to name grouping directories.
pub fn date_format_valid(fmt: &str) -> (r: bool)
    ensures
        r == date_format_ok(fmt@),
{
    !fmt.is_empty() && strftime_parses(fmt)
}

} // verus!
