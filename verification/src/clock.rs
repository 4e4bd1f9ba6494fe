//! The wall clock, as the day of the week.

use vstd::prelude::*;

verus! {

/// Calls `SystemTime::now` of std and gives the seconds since the Unix epoch
/// (0 for a clock set before it). Nothing is stated of the result: it is the
/// time.
#[verifier::external_body]
fn unix_now_secs() -> u64 {
    match std::time::SystemTime::now().duration_since(std::time::UNIX_EPOCH) {
        Ok(elapsed) => elapsed.as_secs(),
        Err(_) => 0,
    }
}

/// The English short names of the days, Sunday first.
pub open spec fn weekday_names() -> Seq<Seq<char>> {
    seq!["Sun"@, "Mon"@, "Tue"@, "Wed"@, "Thu"@, "Fri"@, "Sat"@]
}

pub open spec fn is_weekday_name(s: Seq<char>) -> bool {
    exists|i: int| 0 <= i < 7 && s == #[trigger] weekday_names()[i]
}

/// The day of the week of the `days`-th day after 1 January 1970, a Thursday.
pub fn weekday_of_day(days: u64) -> (r: &'static str)
    ensures
        r@ == weekday_names()[(days as int + 4) % 7],
{
    let i = (days % 7 + 4) % 7;
    assert(i as int == (days as int + 4) % 7) by (nonlinear_arith)
        requires
            i == (days % 7 + 4) % 7,
    ;
    if i == 0 {
        "Sun"
    } else if i == 1 {
        "Mon"
    } else if i == 2 {
        "Tue"
    } else if i == 3 {
        "Wed"
    } else if i == 4 {
        "Thu"
    } else if i == 5 {
        "Fri"
    } else {
        "Sat"
    }
}

/// Today's day of the week (UTC).
pub fn current_weekday_en() -> (r: &'static str)
    ensures
        is_weekday_name(r@),
{
    let days = unix_now_secs() / 86400;
    let r = weekday_of_day(days);
    assert(weekday_names()[(days as int + 4) % 7] == r@);
    r
}

} // verus!
