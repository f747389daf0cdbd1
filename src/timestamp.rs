//! A local date and time held as plain calendar fields, and its text in the
//! form `YYYY-MM-DD HH:MM:SS`.

use vstd::prelude::*;

verus! {

/// The earliest year a calendar date can have here.
pub const MIN_YEAR: i32 = -262143;

/// The latest year a calendar date can have here.
pub const MAX_YEAR: i32 = 262142;

/// Whether `y` is a leap year of the proleptic Gregorian calendar.
pub open spec fn is_leap_year(y: int) -> bool {
    y % 4 == 0 && (y % 100 != 0 || y % 400 == 0)
}

/// The number of days in month `m` of year `y`.
pub open spec fn days_in_month(y: int, m: int) -> int {
    if m == 2 {
        if is_leap_year(y) {
            29
        } else {
            28
        }
    } else if m == 4 || m == 6 || m == 9 || m == 11 {
        30
    } else {
        31
    }
}

/// A date and time of the local calendar, one field per component.
#[derive(Clone, Copy, Debug, PartialEq, Eq, Structural)]
pub struct LocalDateTime {
    pub year: i32,
    pub month: u32,
    pub day: u32,
    pub hour: u32,
    pub minute: u32,
    pub second: u32,
}

impl LocalDateTime {
    /// The fields name a day that exists in the calendar, within the years
    /// from `MIN_YEAR` to `MAX_YEAR`, and a time of that day to the second.
    pub open spec fn wf(&self) -> bool {
        &&& MIN_YEAR <= self.year <= MAX_YEAR
        &&& 1 <= self.month <= 12
        &&& 1 <= self.day <= days_in_month(self.year as int, self.month as int)
        &&& self.hour < 24
        &&& self.minute < 60
        &&& self.second < 60
    }

    /// Whether the fields name an existing day and time; see `wf`.
    pub fn is_valid(&self) -> (r: bool)
        ensures
            r == self.wf(),
    {
        if self.year < MIN_YEAR || self.year > MAX_YEAR || self.month < 1 || self.month > 12
            || self.day < 1 || self.hour >= 24 || self.minute >= 60 || self.second >= 60 {
            return false;
        }
        let leap = self.year % 4 == 0 && (self.year % 100 != 0 || self.year % 400 == 0);
        let last: u32 = if self.month == 2 {
            if leap {
                29
            } else {
                28
            }
        } else if self.month == 4 || self.month == 6 || self.month == 9 || self.month == 11 {
            30
        } else {
            31
        };
        proof {
            assert(leap == is_leap_year(self.year as int)) by {
                assert((self.year % 4 == 0) == ((self.year as int) % 4 == 0));
                assert((self.year % 100 == 0) == ((self.year as int) % 100 == 0));
                assert((self.year % 400 == 0) == ((self.year as int) % 400 == 0));
            }
        }
        self.day <= last
    }
}

/// The decimal digit `d`.
pub open spec fn digit_char(d: nat) -> char
    recommends
        d < 10,
{
    seq!['0', '1', '2', '3', '4', '5', '6', '7', '8', '9'][d as int]
}

/// The decimal numeral of `n`, without leading zeros.
pub open spec fn decimal(n: nat) -> Seq<char>
    decreases n,
{
    if n < 10 {
        seq![digit_char(n)]
    } else {
        decimal(n / 10).push(digit_char(n % 10))
    }
}

/// `count` zero digits.
pub open spec fn zeros(count: nat) -> Seq<char> {
    Seq::new(count, |i: int| '0')
}

/// The decimal numeral of `n`, with zeros in front up to `width` characters.
pub open spec fn padded(n: nat, width: nat) -> Seq<char> {
    let s = decimal(n);
    if s.len() >= width {
        s
    } else {
        zeros((width - s.len()) as nat) + s
    }
}

/// A year as `%Y` prints it: four digits from 0 to 9999, and outside that
/// range a sign followed by at least four digits.
pub open spec fn year_text(y: int) -> Seq<char> {
    if 0 <= y <= 9999 {
        padded(y as nat, 4)
    } else if y < 0 {
        seq!['-'] + padded((-y) as nat, 4)
    } else {
        seq!['+'] + padded(y as nat, 4)
    }
}

/// The text `YYYY-MM-DD HH:MM:SS` of `t`.
pub open spec fn timestamp_text(t: LocalDateTime) -> Seq<char> {
    year_text(t.year as int) + seq!['-'] + padded(t.month as nat, 2) + seq!['-'] + padded(
        t.day as nat,
        2,
    ) + seq![' '] + padded(t.hour as nat, 2) + seq![':'] + padded(t.minute as nat, 2) + seq![':']
        + padded(t.second as nat, 2)
}

proof fn lemma_decimal_len_below(n: nat, k: nat)
    requires
        (k == 2 && n < 100) || (k == 4 && n < 10000),
    ensures
        decimal(n).len() <= k,
{
    reveal_with_fuel(decimal, 5);
}

/// For a well-formed date and time whose year has at most four digits, the
/// text `YYYY-MM-DD HH:MM:SS` is always 19 characters long.
pub proof fn lemma_timestamp_text_len(t: LocalDateTime)
    requires
        t.wf(),
        0 <= t.year <= 9999,
    ensures
        timestamp_text(t).len() == 19,
{
    lemma_decimal_len_below(t.year as nat, 4);
    lemma_decimal_len_below(t.month as nat, 2);
    lemma_decimal_len_below(t.day as nat, 2);
    lemma_decimal_len_below(t.hour as nat, 2);
    lemma_decimal_len_below(t.minute as nat, 2);
    lemma_decimal_len_below(t.second as nat, 2);
}

/// Relies on chrono::NaiveDate::from_ymd_opt and NaiveDate::and_hms_opt,
/// which return a value for every existing day in chrono's year range and
/// every time to the second, and on NaiveDateTime::format with the pattern
/// `%Y-%m-%d %H:%M:%S`: `%Y` writes the year as `year_text` states it, and the
/// other items write their component in two digits with a leading zero.
#[verifier::external_body]
fn chrono_format(t: &LocalDateTime, pattern: &str) -> (r: String)
    requires
        t.wf(),
        pattern@ == "%Y-%m-%d %H:%M:%S"@,
    ensures
        r@ == timestamp_text(*t),
{
    let date = chrono::NaiveDate::from_ymd_opt(t.year, t.month, t.day).unwrap();
    let at = date.and_hms_opt(t.hour, t.minute, t.second).unwrap();
    at.format(pattern).to_string()
}

impl LocalDateTime {
    /// The text `YYYY-MM-DD HH:MM:SS` of this date and time: the year as
    /// `year_text` gives it, every other component in two digits.
    pub fn to_timestamp_string(&self) -> (r: String)
        requires
            self.wf(),
        ensures
            r@ == timestamp_text(*self),
    {
        chrono_format(self, "%Y-%m-%d %H:%M:%S")
    }
}

} // verus!
