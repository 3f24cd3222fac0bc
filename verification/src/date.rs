//! Date resolution: a user-supplied token is either the word `"today"`, a
//! calendar date written `YYYY-MM-DD`, or malformed. A malformed token never
//! fails the invocation: the resolver reports it and falls back to the
//! current date.

use crate::text::{spec_padded_decimal, str_eq, u64_to_padded_string};
use chrono::Datelike;
use vstd::prelude::*;
use vstd::string::StringExecFns;

verus! {

pub open spec fn is_leap_year(y: int) -> bool {
    (y % 4 == 0 && y % 100 != 0) || y % 400 == 0
}

pub open spec fn days_in_month(y: int, m: int) -> int {
    if m == 2 {
        if is_leap_year(y) {
            29
        } else {
            28
        }
    } else if m == 4 || m == 6 || m == 9 || m == 11 {
        30
    } else {
        31
    }
}

/// A proleptic Gregorian calendar date whose year has at most four digits,
/// the window the `YYYY-MM-DD` date format covers.
pub open spec fn valid_ymd(y: int, m: int, d: int) -> bool {
    &&& 0 <= y <= 9999
    &&& 1 <= m <= 12
    &&& 1 <= d <= days_in_month(y, m)
}

/// A calendar date, held as plain year, month and day numbers.
#[derive(Clone, Copy, Debug, PartialEq, Eq, Structural)]
pub struct Date {
    pub year: i32,
    pub month: u8,
    pub day: u8,
}

impl Date {
    pub open spec fn well_formed(self) -> bool {
        valid_ymd(self.year as int, self.month as int, self.day as int)
    }

    /// The date written `YYYY-MM-DD`, each part zero-padded.
    pub open spec fn spec_iso(self) -> Seq<char> {
        spec_padded_decimal(self.year as nat, 4) + seq!['-'] + spec_padded_decimal(
            self.month as nat,
            2,
        ) + seq!['-'] + spec_padded_decimal(self.day as nat, 2)
    }

    /// Renders the date as `YYYY-MM-DD`, the form the meal provider is
    /// queried with.
    pub fn to_iso_string(&self) -> (s: String)
        requires
            self.well_formed(),
        ensures
            s@ == self.spec_iso(),
    {
        let mut s = u64_to_padded_string(self.year as u64, 4);
        s.append("-");
        let m = u64_to_padded_string(self.month as u64, 2);
        s.append(m.as_str());
        s.append("-");
        let d = u64_to_padded_string(self.day as u64, 2);
        s.append(d.as_str());
        proof {
            reveal_strlit("-");
            assert("-"@ =~= seq!['-']);
            assert(s@ =~= self.spec_iso());
        }
        s
    }
}

fn leap_year(y: i32) -> (r: bool)
    requires
        y >= 0,
    ensures
        r == is_leap_year(y as int),
{
    (y % 4 == 0 && y % 100 != 0) || y % 400 == 0
}

fn days_in_month_exec(y: i32, m: u32) -> (r: u32)
    requires
        y >= 0,
    ensures
        r == days_in_month(y as int, m as int),
{
    if m == 2 {
        if leap_year(y) {
            29
        } else {
            28
        }
    } else if m == 4 || m == 6 || m == 9 || m == 11 {
        30
    } else {
        31
    }
}

/// Validates plain year, month and day numbers as a calendar date.
pub fn date_from_parts(y: i32, m: u32, d: u32) -> (r: Option<Date>)
    ensures
        valid_ymd(y as int, m as int, d as int) ==> r == Some(
            Date { year: y, month: m as u8, day: d as u8 },
        ),
        !valid_ymd(y as int, m as int, d as int) ==> r is None,
{
    if y < 0 || y > 9999 {
        return None;
    }
    if m < 1 || m > 12 {
        return None;
    }
    let dim = days_in_month_exec(y, m);
    if d < 1 || d > dim {
        return None;
    }
    Some(Date { year: y, month: m as u8, day: d as u8 })
}

/// What `chrono` makes of a token under the `"%Y-%m-%d"` format: `None`
/// where the token does not parse, else the parsed year, month and day.
pub uninterp spec fn chrono_ymd(token: Seq<char>) -> Option<(int, int, int)>;

/// Relies on chrono::NaiveDate::parse_from_str with the "%Y-%m-%d" format:
/// whether a token parses, and to which date, depends on the token alone,
/// and a parsed date is a valid calendar date, so its month lies in 1..=12
/// and its day in 1..=31.
#[verifier::external_body]
fn parse_ymd_token(token: &str) -> (r: Option<(i32, u32, u32)>)
    ensures
        r is Some <==> chrono_ymd(token@) is Some,
        r matches Some(t) ==> chrono_ymd(token@) == Some((t.0 as int, t.1 as int, t.2 as int))
            && 1 <= t.1 <= 12 && 1 <= t.2 <= 31,
{
    match chrono::NaiveDate::parse_from_str(token, "%Y-%m-%d") {
        Ok(d) => Some((d.year(), d.month(), d.day())),
        Err(_) => None,
    }
}

/// Relies on chrono::Utc::now and the Datelike accessors: the current UTC
/// date is a valid calendar date, and its year has at most four digits.
#[verifier::external_body]
pub fn current_date() -> (r: Date)
    ensures
        r.well_formed(),
{
    let d = chrono::Utc::now().date_naive();
    Date { year: d.year(), month: d.month() as u8, day: d.day() as u8 }
}

/// A token names a date when it is the word `"today"` or parses as
/// `YYYY-MM-DD` to a date within the four-digit-year window.
pub open spec fn date_token_valid(token: Seq<char>) -> bool {
    ||| token == "today"@
    ||| (chrono_ymd(token) matches Some(t) && valid_ymd(t.0, t.1, t.2))
}

/// The outcome of date resolution: the date to query for, and whether the
/// token was malformed and the current date substituted for it.
#[derive(Clone, Copy, Debug, PartialEq, Eq, Structural)]
pub struct DateResolution {
    pub date: Date,
    pub token_invalid: bool,
}

/// Resolves a date token against a given current date. A malformed token
/// (neither `"today"` nor a date written `YYYY-MM-DD`) is reported through
/// `token_invalid` and resolves to `today`: resolution never fails.
pub fn resolve_date(token: &str, today: Date) -> (r: DateResolution)
    requires
        today.well_formed(),
    ensures
        r.date.well_formed(),
        r.token_invalid == !date_token_valid(token@),
        token@ == "today"@ ==> r.date == today && !r.token_invalid,
        chrono_ymd(token@) matches Some(t) ==> token@ != "today"@ && valid_ymd(t.0, t.1, t.2)
            ==> r.date == (Date { year: t.0 as i32, month: t.1 as u8, day: t.2 as u8 }),
        r.token_invalid ==> r.date == today,
{
    if str_eq(token, "today") {
        return DateResolution { date: today, token_invalid: false };
    }
    match parse_ymd_token(token) {
        Some((y, m, d)) => match date_from_parts(y, m, d) {
            Some(date) => DateResolution { date, token_invalid: false },
            None => DateResolution { date: today, token_invalid: true },
        },
        None => DateResolution { date: today, token_invalid: true },
    }
}

/// Resolves a date token, taking the current UTC date as the fallback and
/// as the meaning of `"today"`.
pub fn resolve(token: &str) -> (r: DateResolution)
    ensures
        r.date.well_formed(),
        r.token_invalid == !date_token_valid(token@),
        chrono_ymd(token@) matches Some(t) ==> token@ != "today"@ && valid_ymd(t.0, t.1, t.2)
            ==> r.date == (Date { year: t.0 as i32, month: t.1 as u8, day: t.2 as u8 }),
{
    let today = current_date();
    resolve_date(token, today)
}

} // verus!
