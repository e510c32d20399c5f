//! Dates: the maturity date a term in months gives.
use vstd::prelude::*;

verus! {

/// The calendar date (`YYYY-MM-DD`, UTC) `days` days after the Unix time
/// `timestamp`, or `None` outside chrono's range; as chrono computes it.
/// It names the result of one chain of four chrono calls:
/// `DateTime::from_timestamp`, `TimeDelta::try_days`, `checked_add_signed`
/// and `format("%Y-%m-%d")`.
pub uninterp spec fn utc_date_after_days(timestamp: int, days: int) -> Option<Seq<char>>;

/// chrono: `DateTime::from_timestamp`, `TimeDelta::try_days`,
/// `checked_add_signed` and `format("%Y-%m-%d")`; the named result.
#[verifier::external_body]
fn date_after_days(timestamp: i64, days: i64) -> (r: Option<String>)
    ensures
        r matches Some(s) ==> utc_date_after_days(timestamp as int, days as int) == Some(s@),
        r is None ==> utc_date_after_days(timestamp as int, days as int) is None,
{
    let start = chrono::DateTime::from_timestamp(timestamp, 0)?;
    let end = start.checked_add_signed(chrono::TimeDelta::try_days(days)?)?;
    Some(end.format("%Y-%m-%d").to_string())
}

/// A term counts 30 days a month.
pub open spec fn term_days(term_months: u32) -> int {
    term_months as int * 30
}

/// The maturity date of a term of `term_months` months (30 days each)
/// starting at Unix time `now`; `None` where the date falls outside the
/// calendar's range.
pub fn maturity_date(now: i64, term_months: u32) -> (r: Option<String>)
    ensures
        r matches Some(s) ==> utc_date_after_days(now as int, term_days(term_months)) == Some(s@),
        r is None ==> utc_date_after_days(now as int, term_days(term_months)) is None,
{
    let days: i64 = term_months as i64 * 30;
    date_after_days(now, days)
}

} // verus!
