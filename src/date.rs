//! Civil dates written `YYYY-MM-DD`, and the date on which a chore falls due.
use vstd::prelude::*;
use vstd::string::*;
use chrono::Datelike;
use crate::text::{decimal, zero_padded};

verus! {

/// Earliest year that a date can hold.
pub const MIN_YEAR: i32 = -262143;

/// Latest year that a date can hold.
pub const MAX_YEAR: i32 = 262142;

/// A calendar date, with no time of day and no time zone.
#[derive(Clone, Copy, Debug, PartialEq, Eq, Structural)]
pub struct CivilDate {
    pub year: i32,
    pub month: u32,
    pub day: u32,
}

pub open spec fn is_leap_year(y: int) -> bool {
    y % 4 == 0 && (y % 100 != 0 || y % 400 == 0)
}

pub open spec fn days_in_month(y: int, m: int) -> int {
    if m == 2 {
        if is_leap_year(y) { 29 } else { 28 }
    } else if m == 4 || m == 6 || m == 9 || m == 11 {
        30
    } else {
        31
    }
}

impl CivilDate {
    /// The month and day exist in the year, and the year is in range.
    pub open spec fn valid(self) -> bool {
        &&& MIN_YEAR <= self.year <= MAX_YEAR
        &&& 1 <= self.month <= 12
        &&& 1 <= self.day <= days_in_month(self.year as int, self.month as int)
    }

    /// Days from 1970-01-01 to this date (negative before it).
    pub open spec fn day_number(self) -> int {
        let y: int = if self.month <= 2 { self.year - 1 } else { self.year as int };
        let era = y / 400;
        let yoe = y - era * 400;
        let mp: int = if self.month > 2 { self.month - 3 } else { self.month + 9 };
        let doy = (153 * mp + 2) / 5 + self.day - 1;
        let doe = yoe * 365 + yoe / 4 - yoe / 100 + doy;
        era * 146097 + doe - 719468
    }
}

/// Day number of the latest date that can be held.
pub open spec fn last_day_number() -> int {
    CivilDate { year: MAX_YEAR, month: 12, day: 31 }.day_number()
}

/// The valid date with day number `n`.
pub open spec fn date_at(n: int) -> CivilDate {
    choose|e: CivilDate| e.valid() && e.day_number() == n
}

/// The year as ISO 8601 writes it: four digits, with a sign outside 0..=9999.
pub open spec fn year_text(y: int) -> Seq<char> {
    if 0 <= y <= 9999 {
        zero_padded(decimal(y as nat), 4)
    } else if y > 9999 {
        seq!['+'] + zero_padded(decimal(y as nat), 4)
    } else {
        seq!['-'] + zero_padded(decimal((-y) as nat), 4)
    }
}

/// The date written `YYYY-MM-DD`.
pub open spec fn iso_text(d: CivilDate) -> Seq<char> {
    year_text(d.year as int) + seq!['-'] + zero_padded(decimal(d.month as nat), 2) + seq!['-']
        + zero_padded(decimal(d.day as nat), 2)
}

/// The text that stands where a date is not known.
pub open spec fn unknown_text() -> Seq<char> {
    seq!['u', 'n', 'k', 'n', 'o', 'w', 'n']
}

/// What `%Y-%m-%d` reads from `s`, if it reads a date.
pub uninterp spec fn parsed_date(s: Seq<char>) -> Option<CivilDate>;

pub open spec fn is_digit(c: char) -> bool {
    48 <= (c as u32) <= 57
}

pub open spec fn digit_value(c: char) -> int {
    (c as u32) - 48
}

/// Whether position `k` of `s` holds what `YYYY-MM-DD` asks there.
pub open spec fn shape_at(s: Seq<char>, k: int) -> bool {
    if k == 4 || k == 7 {
        s[k] == '-'
    } else {
        is_digit(s[k])
    }
}

/// Whether `s` is written `YYYY-MM-DD`: ten characters, digits but for a `-`
/// at positions 4 and 7.
pub open spec fn iso_shape(s: Seq<char>) -> bool {
    s.len() == 10 && forall|k: int| 0 <= k < 10 ==> #[trigger] shape_at(s, k)
}

/// The year, month and day that the digits of a `YYYY-MM-DD` text name.
pub open spec fn ymd_of(s: Seq<char>) -> CivilDate {
    CivilDate {
        year: (digit_value(s[0]) * 1000 + digit_value(s[1]) * 100 + digit_value(s[2]) * 10
            + digit_value(s[3])) as i32,
        month: (digit_value(s[5]) * 10 + digit_value(s[6])) as u32,
        day: (digit_value(s[8]) * 10 + digit_value(s[9])) as u32,
    }
}

/// Whether `s` is written `YYYY-MM-DD` and names a day of the calendar.
pub open spec fn is_valid_ymd(s: Seq<char>) -> bool {
    iso_shape(s) && ymd_of(s).valid()
}

/// Relies on `chrono::NaiveDate::parse_from_str` with the pattern `%Y-%m-%d`:
/// the result depends on the text alone, and a date it gives exists. On a text
/// of four digits, `-`, two digits, `-`, two digits, it reads those numbers as
/// year, month and day, and gives that date where it exists.
#[verifier::external_body]
fn parse_iso_date(s: &str) -> (r: Option<CivilDate>)
    ensures
        r == parsed_date(s@),
        r matches Some(d) ==> d.valid(),
        iso_shape(s@) ==> r == (if ymd_of(s@).valid() {
            Some(ymd_of(s@))
        } else {
            None
        }),
{
    chrono::NaiveDate::parse_from_str(s, "%Y-%m-%d").ok().map(
        |d| CivilDate { year: d.year(), month: d.month(), day: d.day() },
    )
}

/// Relies on `chrono::NaiveDate::checked_add_days` (from `NaiveDate::from_ymd_opt`)
/// and on `NaiveDate`'s `Display`: the date `n` days later, written as `iso_text`,
/// unless it lies past the last date that `NaiveDate` holds.
#[verifier::external_body]
fn shifted_iso_text(d: CivilDate, n: u8) -> (r: Option<String>)
    requires
        d.valid(),
    ensures
        r is Some <==> d.day_number() + n <= last_day_number(),
        r matches Some(t) ==> t@ == iso_text(date_at(d.day_number() + n)),
{
    let start = chrono::NaiveDate::from_ymd_opt(d.year, d.month, d.day)?;
    start.checked_add_days(chrono::Days::new(n as u64)).map(|e| e.to_string())
}

/// When a chore done on `last` (if it is a date) with the given frequency in
/// days falls due again: that date written `YYYY-MM-DD`, else "unknown".
pub open spec fn next_due_of(last: Option<CivilDate>, frequency: int) -> Seq<char> {
    match last {
        Some(d) => if d.day_number() + frequency <= last_day_number() {
            iso_text(date_at(d.day_number() + frequency))
        } else {
            unknown_text()
        },
        None => unknown_text(),
    }
}

pub fn unknown_string() -> (r: String)
    ensures
        r@ == unknown_text(),
{
    let r = String::from_str("unknown");
    proof {
        reveal_strlit("unknown");
    }
    assert(r@ =~= unknown_text());
    r
}

/// The due date that follows a parsed last date.
pub fn next_due_after(last: Option<CivilDate>, frequency: u8) -> (r: String)
    requires
        last matches Some(d) ==> d.valid(),
    ensures
        r@ == next_due_of(last, frequency as int),
{
    match last {
        Some(d) => match shifted_iso_text(d, frequency) {
            Some(t) => t,
            None => unknown_string(),
        },
        None => unknown_string(),
    }
}

/// Whether `s` is written `YYYY-MM-DD`.
pub fn has_iso_shape(s: &str) -> (r: bool)
    ensures
        r == iso_shape(s@),
{
    let n = s.unicode_len();
    if n != 10 {
        return false;
    }
    let mut i: usize = 0;
    while i < 10
        invariant
            n == 10,
            s@.len() == 10,
            i <= 10,
            forall|k: int| 0 <= k < i ==> #[trigger] shape_at(s@, k),
        decreases 10 - i,
    {
        let c = s.get_char(i);
        if i == 4 || i == 7 {
            if c != '-' {
                assert(!shape_at(s@, i as int));
                return false;
            }
        } else if !(48 <= (c as u32) && (c as u32) <= 57) {
            assert(!shape_at(s@, i as int));
            return false;
        }
        i = i + 1;
    }
    true
}

/// Whether `s` is written `YYYY-MM-DD` and names a day of the calendar.
pub fn is_iso_date(s: &str) -> (r: bool)
    ensures
        r == is_valid_ymd(s@),
{
    has_iso_shape(s) && parse_iso_date(s).is_some()
}

/// The date on which a chore last done on `last` falls due again, or
/// "unknown" where `last` is no date.
pub fn calc_next_date(last: &str, frequency: u8) -> (r: String)
    ensures
        r@ == next_due_of(parsed_date(last@), frequency as int),
{
    next_due_after(parse_iso_date(last), frequency)
}

} // verus!
