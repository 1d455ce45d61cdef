//! Calendar dates as plain year, month and day, with the arithmetic and
//! the two textual forms the pipeline needs.

use vstd::prelude::*;
use vstd::string::StringExecFns;

use crate::error::FeedError;

verus! {

/// A calendar date with no time component, in the proleptic Gregorian
/// calendar, restricted to the years 1 through 9999.
#[derive(Clone, Copy, PartialEq, Eq, Structural, Debug)]
pub struct Date {
    pub year: u32,
    pub month: u32,
    pub day: u32,
}

pub open spec fn is_leap_year(year: int) -> bool {
    (year % 4 == 0 && year % 100 != 0) || year % 400 == 0
}

pub open spec fn days_in_month(year: int, month: int) -> int {
    if month == 2 {
        if is_leap_year(year) {
            29
        } else {
            28
        }
    } else if month == 4 || month == 6 || month == 9 || month == 11 {
        30
    } else {
        31
    }
}

/// The character for a single decimal digit.
pub open spec fn digit(n: int) -> char {
    if n == 0 {
        '0'
    } else if n == 1 {
        '1'
    } else if n == 2 {
        '2'
    } else if n == 3 {
        '3'
    } else if n == 4 {
        '4'
    } else if n == 5 {
        '5'
    } else if n == 6 {
        '6'
    } else if n == 7 {
        '7'
    } else if n == 8 {
        '8'
    } else {
        '9'
    }
}

/// A number below 100 as exactly two decimal digits, zero-padded.
pub open spec fn two_digits(n: int) -> Seq<char> {
    seq![digit(n / 10), digit(n % 10)]
}

/// A number below 10000 as exactly four decimal digits, zero-padded.
pub open spec fn four_digits(n: int) -> Seq<char> {
    two_digits(n / 100) + two_digits(n % 100)
}

/// A day of a month as one or two decimal digits, without padding.
pub open spec fn day_digits(n: int) -> Seq<char> {
    if n < 10 {
        seq![digit(n)]
    } else {
        two_digits(n)
    }
}

pub open spec fn valid_ymd(year: int, month: int, day: int) -> bool {
    &&& 1 <= year <= 9999
    &&& 1 <= month <= 12
    &&& 1 <= day <= days_in_month(year, month)
}

/// The earliest supported date, 0001-01-01.
pub open spec fn min_date() -> Date {
    Date { year: 1, month: 1, day: 1 }
}

/// The calendar day before the given one.
pub open spec fn prev_date(d: Date) -> Date {
    if d.day > 1 {
        Date { year: d.year, month: d.month, day: (d.day - 1) as u32 }
    } else if d.month > 1 {
        Date {
            year: d.year,
            month: (d.month - 1) as u32,
            day: days_in_month(d.year as int, d.month - 1) as u32,
        }
    } else {
        Date { year: (d.year - 1) as u32, month: 12, day: 31 }
    }
}

/// The date `n` days before the given one.
pub open spec fn date_back(d: Date, n: nat) -> Date
    decreases n,
{
    if n == 0 {
        d
    } else {
        prev_date(date_back(d, (n - 1) as nat))
    }
}

/// The `n` consecutive days ending at `d` all lie in the supported range.
pub open spec fn window_ok(d: Date, n: nat) -> bool {
    forall|i: nat| i < n ==> date_back(d, i).wf()
}

/// Strict calendar order.
pub open spec fn date_lt(a: Date, b: Date) -> bool {
    ||| a.year < b.year
    ||| (a.year == b.year && a.month < b.month)
    ||| (a.year == b.year && a.month == b.month && a.day < b.day)
}

/// The date in `YYYY-MM-DD` form.
pub open spec fn iso_date(d: Date) -> Seq<char> {
    four_digits(d.year as int) + seq!['-'] + two_digits(d.month as int) + seq!['-'] + two_digits(
        d.day as int,
    )
}

/// The day of the week by Zeller's congruence, counted from Sunday as 0.
pub open spec fn weekday_from_sunday(d: Date) -> int {
    let m = if d.month < 3 {
        d.month + 12
    } else {
        d.month as int
    };
    let y = if d.month < 3 {
        d.year - 1
    } else {
        d.year as int
    };
    (d.day + (13 * (m + 1)) / 5 + y % 100 + (y % 100) / 4 + (y / 100) / 4 + 5 * (y / 100) + 6) % 7
}

/// The three-letter English name of a day of the week, counted from Sunday.
pub open spec fn weekday_abbrev(w: int) -> Seq<char> {
    if w == 0 {
        "Sun"@
    } else if w == 1 {
        "Mon"@
    } else if w == 2 {
        "Tue"@
    } else if w == 3 {
        "Wed"@
    } else if w == 4 {
        "Thu"@
    } else if w == 5 {
        "Fri"@
    } else {
        "Sat"@
    }
}

/// The three-letter English name of a month.
pub open spec fn month_abbrev(m: int) -> Seq<char> {
    if m == 1 {
        "Jan"@
    } else if m == 2 {
        "Feb"@
    } else if m == 3 {
        "Mar"@
    } else if m == 4 {
        "Apr"@
    } else if m == 5 {
        "May"@
    } else if m == 6 {
        "Jun"@
    } else if m == 7 {
        "Jul"@
    } else if m == 8 {
        "Aug"@
    } else if m == 9 {
        "Sep"@
    } else if m == 10 {
        "Oct"@
    } else if m == 11 {
        "Nov"@
    } else {
        "Dec"@
    }
}

/// Midnight UTC of the date in RFC 2822 form, e.g. `Mon, 1 Oct 2018 00:00:00
/// +0000`: the day carries no padding, the year exactly four digits.
pub open spec fn rfc2822_midnight(d: Date) -> Seq<char> {
    weekday_abbrev(weekday_from_sunday(d)) + ", "@ + day_digits(d.day as int) + " "@ + month_abbrev(
        d.month as int,
    ) + " "@ + four_digits(d.year as int) + " 00:00:00 +0000"@
}

proof fn lemma_digit_injective(x: int, y: int)
    requires
        0 <= x <= 9,
        0 <= y <= 9,
        digit(x) == digit(y),
    ensures
        x == y,
{
}

proof fn lemma_two_digits_injective(x: int, y: int)
    requires
        0 <= x < 100,
        0 <= y < 100,
        two_digits(x) == two_digits(y),
    ensures
        x == y,
{
    assert(two_digits(x)[0] == two_digits(y)[0]);
    assert(two_digits(x)[1] == two_digits(y)[1]);
    lemma_digit_injective(x / 10, y / 10);
    lemma_digit_injective(x % 10, y % 10);
}

proof fn lemma_four_digits_injective(x: int, y: int)
    requires
        0 <= x < 10000,
        0 <= y < 10000,
        four_digits(x) == four_digits(y),
    ensures
        x == y,
{
    assert(four_digits(x).subrange(0, 2) =~= two_digits(x / 100));
    assert(four_digits(x).subrange(2, 4) =~= two_digits(x % 100));
    assert(four_digits(y).subrange(0, 2) =~= two_digits(y / 100));
    assert(four_digits(y).subrange(2, 4) =~= two_digits(y % 100));
    lemma_two_digits_injective(x / 100, y / 100);
    lemma_two_digits_injective(x % 100, y % 100);
}

/// Two distinct days never share their `YYYY-MM-DD` form: the form can serve
/// as a key.
pub proof fn lemma_iso_date_injective(a: Date, b: Date)
    requires
        a.wf(),
        b.wf(),
        iso_date(a) == iso_date(b),
    ensures
        a == b,
{
    assert(iso_date(a).subrange(0, 4) =~= four_digits(a.year as int));
    assert(iso_date(a).subrange(5, 7) =~= two_digits(a.month as int));
    assert(iso_date(a).subrange(8, 10) =~= two_digits(a.day as int));
    assert(iso_date(b).subrange(0, 4) =~= four_digits(b.year as int));
    assert(iso_date(b).subrange(5, 7) =~= two_digits(b.month as int));
    assert(iso_date(b).subrange(8, 10) =~= two_digits(b.day as int));
    lemma_four_digits_injective(a.year as int, b.year as int);
    lemma_two_digits_injective(a.month as int, b.month as int);
    lemma_two_digits_injective(a.day as int, b.day as int);
}

/// A day of the supported calendar that is not the earliest has a
/// well-formed, strictly earlier predecessor.
pub proof fn lemma_prev_date_wf(d: Date)
    requires
        d.wf(),
        d != min_date(),
    ensures
        prev_date(d).wf(),
        date_lt(prev_date(d), d),
{
}

fn digit_char(n: u32) -> (c: char)
    requires
        n < 10,
    ensures
        c == digit(n as int),
{
    if n == 0 {
        '0'
    } else if n == 1 {
        '1'
    } else if n == 2 {
        '2'
    } else if n == 3 {
        '3'
    } else if n == 4 {
        '4'
    } else if n == 5 {
        '5'
    } else if n == 6 {
        '6'
    } else if n == 7 {
        '7'
    } else if n == 8 {
        '8'
    } else {
        '9'
    }
}

fn push_two_digits(s: &mut String, n: u32)
    requires
        n < 100,
    ensures
        final(s)@ == old(s)@ + two_digits(n as int),
{
    s.push(digit_char(n / 10));
    s.push(digit_char(n % 10));
    proof {
        assert(old(s)@.push(digit(n as int / 10)).push(digit(n as int % 10)) =~= old(s)@
            + two_digits(n as int));
    }
}

impl Date {
    /// The date is a real day of the supported calendar range.
    pub open spec fn wf(self) -> bool {
        valid_ymd(self.year as int, self.month as int, self.day as int)
    }

    /// Builds a date after checking that the components name a real calendar
    /// day between 0001-01-01 and 9999-12-31.
    pub fn new(year: u32, month: u32, day: u32) -> (r: Result<Date, FeedError>)
        ensures
            r is Ok <==> valid_ymd(year as int, month as int, day as int),
            r matches Ok(d) ==> d == (Date { year, month, day }),
            r is Err ==> r == Err::<Date, FeedError>(FeedError::InvalidDate),
    {
        if 1 <= year && year <= 9999 && 1 <= month && month <= 12 && 1 <= day
            && day <= Date::days_in_month_of(year, month) {
            Ok(Date { year, month, day })
        } else {
            Err(FeedError::InvalidDate)
        }
    }

    /// Whether the components name a real day of the supported range.
    pub fn is_valid(&self) -> (r: bool)
        ensures
            r == self.wf(),
    {
        if !(1 <= self.year && self.year <= 9999) {
            return false;
        }
        if !(1 <= self.month && self.month <= 12) {
            return false;
        }
        1 <= self.day && self.day <= Date::days_in_month_of(self.year, self.month)
    }

    /// The date in `YYYY-MM-DD` form.
    pub fn iso(&self) -> (r: String)
        requires
            self.wf(),
        ensures
            r@ == iso_date(*self),
    {
        let mut r = String::new();
        push_two_digits(&mut r, self.year / 100);
        push_two_digits(&mut r, self.year % 100);
        r.push('-');
        push_two_digits(&mut r, self.month);
        r.push('-');
        push_two_digits(&mut r, self.day);
        proof {
            assert(r@ =~= iso_date(*self));
        }
        r
    }

    /// The calendar day before this one.
    pub fn prev_day(&self) -> (r: Date)
        requires
            self.wf(),
            *self != min_date(),
        ensures
            r == prev_date(*self),
            r.wf(),
            date_lt(r, *self),
    {
        proof {
            lemma_prev_date_wf(*self);
        }
        if self.day > 1 {
            Date { year: self.year, month: self.month, day: self.day - 1 }
        } else if self.month > 1 {
            let month = self.month - 1;
            Date { year: self.year, month, day: Date::days_in_month_of(self.year, month) }
        } else {
            Date { year: self.year - 1, month: 12, day: 31 }
        }
    }

    /// The day of the week, counted from Sunday as 0.
    pub fn weekday(&self) -> (r: u32)
        requires
            self.wf(),
        ensures
            r as int == weekday_from_sunday(*self),
            r < 7,
    {
        let (y, m): (u32, u32) = if self.month < 3 {
            (self.year - 1, self.month + 12)
        } else {
            (self.year, self.month)
        };
        (self.day + (13 * (m + 1)) / 5 + y % 100 + (y % 100) / 4 + (y / 100) / 4 + 5 * (y / 100)
            + 6) % 7
    }

    /// Midnight UTC of this date in RFC 2822 form.
    #[verifier::rlimit(30)]
    pub fn rfc2822_midnight_utc(&self) -> (r: String)
        requires
            self.wf(),
        ensures
            r@ == rfc2822_midnight(*self),
    {
        let w = self.weekday();
        let mut r = String::new();
        let weekday_name: &str = if w == 0 {
            "Sun"
        } else if w == 1 {
            "Mon"
        } else if w == 2 {
            "Tue"
        } else if w == 3 {
            "Wed"
        } else if w == 4 {
            "Thu"
        } else if w == 5 {
            "Fri"
        } else {
            "Sat"
        };
        r.append(weekday_name);
        r.append(", ");
        if self.day < 10 {
            r.push(digit_char(self.day));
        } else {
            push_two_digits(&mut r, self.day);
        }
        r.push(' ');
        let month_name: &str = if self.month == 1 {
            "Jan"
        } else if self.month == 2 {
            "Feb"
        } else if self.month == 3 {
            "Mar"
        } else if self.month == 4 {
            "Apr"
        } else if self.month == 5 {
            "May"
        } else if self.month == 6 {
            "Jun"
        } else if self.month == 7 {
            "Jul"
        } else if self.month == 8 {
            "Aug"
        } else if self.month == 9 {
            "Sep"
        } else if self.month == 10 {
            "Oct"
        } else if self.month == 11 {
            "Nov"
        } else {
            "Dec"
        };
        r.append(month_name);
        r.push(' ');
        push_two_digits(&mut r, self.year / 100);
        push_two_digits(&mut r, self.year % 100);
        r.append(" 00:00:00 +0000");
        proof {
            reveal_strlit(" ");
            assert(weekday_name@ == weekday_abbrev(weekday_from_sunday(*self)));
            assert(month_name@ == month_abbrev(self.month as int));
            assert(r@ =~= rfc2822_midnight(*self));
        }
        r
    }

    /// How many days the given month of the given year has.
    pub fn days_in_month_of(year: u32, month: u32) -> (r: u32)
        requires
            1 <= month <= 12,
        ensures
            r == days_in_month(year as int, month as int),
    {
        if month == 2 {
            if (year % 4 == 0 && year % 100 != 0) || year % 400 == 0 {
                29
            } else {
                28
            }
        } else if month == 4 || month == 6 || month == 9 || month == 11 {
            30
        } else {
            31
        }
    }
}

} // verus!
