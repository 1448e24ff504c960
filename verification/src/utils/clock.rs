use vstd::prelude::*;
use chrono::{Datelike, Timelike};

verus! {

/// A day of the week.
#[derive(Clone, Copy, Debug, PartialEq, Eq, Structural)]
pub enum Weekday {
    Mon,
    Tue,
    Wed,
    Thu,
    Fri,
    Sat,
    Sun,
}

/// `chrono::Local::now().weekday()`: today's day of the week in the machine's
/// time zone. It depends on the clock, so nothing is stated of it.
#[verifier::external_body]
pub fn today_weekday() -> (r: Weekday) {
    match chrono::Local::now().weekday() {
        chrono::Weekday::Mon => Weekday::Mon,
        chrono::Weekday::Tue => Weekday::Tue,
        chrono::Weekday::Wed => Weekday::Wed,
        chrono::Weekday::Thu => Weekday::Thu,
        chrono::Weekday::Fri => Weekday::Fri,
        chrono::Weekday::Sat => Weekday::Sat,
        chrono::Weekday::Sun => Weekday::Sun,
    }
}

/// Whether `c` is one of the digits '0' to '9'.
pub open spec fn is_digit(c: char) -> bool {
    '0' <= c <= '9'
}

/// The shape of chrono's `"%d/%m"`: day and month, each zero-padded to two
/// digits, separated by '/'.
pub open spec fn is_day_month(s: Seq<char>) -> bool {
    &&& s.len() == 5
    &&& is_digit(s[0])
    &&& is_digit(s[1])
    &&& s[2] == '/'
    &&& is_digit(s[3])
    &&& is_digit(s[4])
}

/// Yesterday's local date as chrono formats it with `"%d/%m"`
/// (`Local::now().date_naive().pred_opt()`, then `format("%d/%m")`). Which
/// date that is depends on the clock; chrono documents `%d` and `%m` as
/// numbers zero-padded to two digits, which is what is stated.
#[verifier::external_body]
pub fn yesterday_label() -> (r: String)
    ensures
        is_day_month(r@),
{
    chrono::Local::now().date_naive().pred_opt().expect("Invalid date").format("%d/%m").to_string()
}

/// The local time of day now, as chrono's `hour()`, `minute()` and `second()`
/// of `Local::now()`, which chrono documents as 0 to 23, 0 to 59 and 0 to 59.
#[verifier::external_body]
pub fn local_time_of_day() -> (r: (u32, u32, u32))
    ensures
        r.0 < 24,
        r.1 < 60,
        r.2 < 60,
{
    let now = chrono::Local::now();
    (now.hour(), now.minute(), now.second())
}

} // verus!
