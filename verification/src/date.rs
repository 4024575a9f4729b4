//! Calendar dates, their two textual forms and their weekday label.
//!
//! A [`Date`] is one day of the proleptic Gregorian calendar, held as plain
//! year, month and day numbers. The two textual forms (`YYYY-MM-DD` and
//! `YYYY/MM/DD`) and the single-character Japanese weekday label are pure
//! projections of those three numbers.

use vstd::prelude::*;

verus! {

/// Gregorian leap-year rule.
pub open spec fn is_leap_year(y: int) -> bool {
    y % 4 == 0 && (y % 100 != 0 || y % 400 == 0)
}

/// Number of days in the given month of the given year.
pub open spec fn days_in_month(y: int, m: int) -> int {
    if m == 2 {
        if is_leap_year(y) {
            29
        } else {
            28
        }
    } else if m == 4 || m == 6 || m == 9 || m == 11 {
        30
    } else {
        31
    }
}

/// A real calendar day whose year has four decimal digits.
pub open spec fn valid_date(y: int, m: int, d: int) -> bool {
    &&& 1 <= y <= 9999
    &&& 1 <= m <= 12
    &&& 1 <= d <= days_in_month(y, m)
}

/// Days elapsed since 0000-03-01 of the proleptic Gregorian calendar,
/// counting the start of each 400-year era and the position inside it.
pub open spec fn day_number(y: int, m: int, d: int) -> int {
    let yy = if m <= 2 {
        y - 1
    } else {
        y
    };
    let era = yy / 400;
    let yoe = yy % 400;
    let mp = if m <= 2 {
        m + 9
    } else {
        m - 3
    };
    let doy = (153 * mp + 2) / 5 + d - 1;
    let doe = yoe * 365 + yoe / 4 - yoe / 100 + doy;
    era * 146097 + doe
}

/// Day of the week, with Sunday as 0 through Saturday as 6.
pub open spec fn weekday_index(y: int, m: int, d: int) -> int {
    (day_number(y, m, d) + 3) % 7
}

/// The decimal digit character for `n`, meaningful for `0 <= n <= 9`.
pub open spec fn dec_digit(n: int) -> char {
    if n == 0 {
        '0'
    } else if n == 1 {
        '1'
    } else if n == 2 {
        '2'
    } else if n == 3 {
        '3'
    } else if n == 4 {
        '4'
    } else if n == 5 {
        '5'
    } else if n == 6 {
        '6'
    } else if n == 7 {
        '7'
    } else if n == 8 {
        '8'
    } else {
        '9'
    }
}

/// The numeric value of a decimal digit character.
pub open spec fn digit_val(c: char) -> int {
    if c == '0' {
        0
    } else if c == '1' {
        1
    } else if c == '2' {
        2
    } else if c == '3' {
        3
    } else if c == '4' {
        4
    } else if c == '5' {
        5
    } else if c == '6' {
        6
    } else if c == '7' {
        7
    } else if c == '8' {
        8
    } else {
        9
    }
}

/// `n` written with exactly two decimal digits, zero-padded.
pub open spec fn two_digits(n: int) -> Seq<char> {
    seq![dec_digit(n / 10 % 10), dec_digit(n % 10)]
}

/// `n` written with exactly four decimal digits, zero-padded.
pub open spec fn four_digits(n: int) -> Seq<char> {
    seq![
        dec_digit(n / 1000 % 10),
        dec_digit(n / 100 % 10),
        dec_digit(n / 10 % 10),
        dec_digit(n % 10),
    ]
}

/// The date written `YYYY-MM-DD`.
pub open spec fn iso_chars(y: int, m: int, d: int) -> Seq<char> {
    four_digits(y) + seq!['-'] + two_digits(m) + seq!['-'] + two_digits(d)
}

/// The date written `YYYY/MM/DD`.
pub open spec fn slashed_chars(y: int, m: int, d: int) -> Seq<char> {
    four_digits(y) + seq!['/'] + two_digits(m) + seq!['/'] + two_digits(d)
}

/// The seven single-character Japanese weekday labels, Sunday first.
pub open spec fn weekday_label(w: int) -> Seq<char> {
    if w == 0 {
        seq!['日']
    } else if w == 1 {
        seq!['月']
    } else if w == 2 {
        seq!['火']
    } else if w == 3 {
        seq!['水']
    } else if w == 4 {
        seq!['木']
    } else if w == 5 {
        seq!['金']
    } else {
        seq!['土']
    }
}

/// One day of the calendar, reduced to its year, month and day.
#[derive(Debug, PartialEq, Eq, Structural, Clone, Copy)]
pub struct Date {
    pub year: u32,
    pub month: u32,
    pub day: u32,
}

impl Date {
    /// The three fields name a real calendar day.
    pub open spec fn wf(&self) -> bool {
        valid_date(self.year as int, self.month as int, self.day as int)
    }

    pub fn new(year: u32, month: u32, day: u32) -> (d: Date)
        requires
            valid_date(year as int, month as int, day as int),
        ensures
            d.wf(),
            d.year == year,
            d.month == month,
            d.day == day,
    {
        Date { year, month, day }
    }

    /// Day of the week of this date, Sunday as 0 through Saturday as 6.
    pub fn weekday(&self) -> (w: u32)
        requires
            self.wf(),
        ensures
            w == weekday_index(self.year as int, self.month as int, self.day as int),
            w < 7,
    {
        let yy: u32 = if self.month <= 2 {
            self.year - 1
        } else {
            self.year
        };
        let era: u32 = yy / 400;
        let yoe: u32 = yy % 400;
        let mp: u32 = if self.month <= 2 {
            self.month + 9
        } else {
            self.month - 3
        };
        let doy: u32 = (153 * mp + 2) / 5 + self.day - 1;
        let doe: u32 = yoe * 365 + yoe / 4 - yoe / 100 + doy;
        let dn: u32 = era * 146097 + doe;
        (dn + 3) % 7
    }

    /// The date written `YYYY-MM-DD`.
    pub fn format(&self) -> (r: String)
        requires
            self.wf(),
        ensures
            r@ == iso_chars(self.year as int, self.month as int, self.day as int),
    {
        let mut s = String::new();
        push_four_digits(&mut s, self.year);
        s.append("-");
        push_two_digits(&mut s, self.month);
        s.append("-");
        push_two_digits(&mut s, self.day);
        proof {
            reveal_strlit("-");
            assert(s@ =~= iso_chars(self.year as int, self.month as int, self.day as int));
        }
        s
    }

    /// The date written `YYYY/MM/DD`.
    pub fn format_with_slash(&self) -> (r: String)
        requires
            self.wf(),
        ensures
            r@ == slashed_chars(self.year as int, self.month as int, self.day as int),
    {
        let mut s = String::new();
        push_four_digits(&mut s, self.year);
        s.append("/");
        push_two_digits(&mut s, self.month);
        s.append("/");
        push_two_digits(&mut s, self.day);
        proof {
            reveal_strlit("/");
            assert(s@ =~= slashed_chars(self.year as int, self.month as int, self.day as int));
        }
        s
    }

    /// The Japanese single-character label of this date's weekday.
    pub fn ja_weekday(&self) -> (r: String)
        requires
            self.wf(),
        ensures
            r@ == weekday_label(weekday_index(self.year as int, self.month as int, self.day as int)),
    {
        let w = self.weekday();
        let label: &str = if w == 0 {
            "日"
        } else if w == 1 {
            "月"
        } else if w == 2 {
            "火"
        } else if w == 3 {
            "水"
        } else if w == 4 {
            "木"
        } else if w == 5 {
            "金"
        } else {
            "土"
        };
        proof {
            reveal_strlit("日");
            reveal_strlit("月");
            reveal_strlit("火");
            reveal_strlit("水");
            reveal_strlit("木");
            reveal_strlit("金");
            reveal_strlit("土");
            assert("日"@ =~= seq!['日']);
            assert("月"@ =~= seq!['月']);
            assert("火"@ =~= seq!['火']);
            assert("水"@ =~= seq!['水']);
            assert("木"@ =~= seq!['木']);
            assert("金"@ =~= seq!['金']);
            assert("土"@ =~= seq!['土']);
        }
        String::from_str(label)
    }

    /// Accepts a clock reading — a real calendar day whose year may lie
    /// outside the four-digit range — exactly when the year has four decimal
    /// digits, which is what the textual forms can carry.
    pub fn from_clock(year: i64, month: u32, day: u32) -> (r: Option<Date>)
        requires
            1 <= month <= 12,
            1 <= day <= days_in_month(year as int, month as int),
        ensures
            r is Some <==> 1 <= year <= 9999,
            r matches Some(d) ==> d.wf() && d.year == year && d.month == month && d.day == day,
    {
        if 1 <= year && year <= 9999 {
            Some(Date { year: year as u32, month, day })
        } else {
            None
        }
    }

    /// Today's date by the wall clock, or `None` when the clock names a year
    /// outside the four-digit range this library formats.
    pub fn today() -> (r: Option<Date>)
        ensures
            r matches Some(d) ==> d.wf(),
    {
        let (year, month, day) = now_ymd();
        Date::from_clock(year, month, day)
    }
}

/// Relies on `chrono::Local::now` and the `chrono::Datelike` accessors: a
/// `DateTime` always holds a real calendar date, so the month lies in 1..=12
/// and the day in 1..=days_in_month(year, month).
#[verifier::external_body]
fn now_ymd() -> (r: (i64, u32, u32))
    ensures
        1 <= r.1 <= 12,
        1 <= r.2 <= days_in_month(r.0 as int, r.1 as int),
{
    let now = chrono::Local::now();
    let year = chrono::Datelike::year(&now) as i64;
    let month = chrono::Datelike::month(&now);
    let day = chrono::Datelike::day(&now);
    (year, month, day)
}

/// The decimal digit character for `n`.
fn digit_str(n: u32) -> (r: &'static str)
    requires
        n < 10,
    ensures
        r@ == seq![dec_digit(n as int)],
{
    let s: &str = match n {
        0 => "0",
        1 => "1",
        2 => "2",
        3 => "3",
        4 => "4",
        5 => "5",
        6 => "6",
        7 => "7",
        8 => "8",
        _ => "9",
    };
    proof {
        reveal_strlit("0");
        reveal_strlit("1");
        reveal_strlit("2");
        reveal_strlit("3");
        reveal_strlit("4");
        reveal_strlit("5");
        reveal_strlit("6");
        reveal_strlit("7");
        reveal_strlit("8");
        reveal_strlit("9");
        assert("0"@ =~= seq!['0']);
        assert("1"@ =~= seq!['1']);
        assert("2"@ =~= seq!['2']);
        assert("3"@ =~= seq!['3']);
        assert("4"@ =~= seq!['4']);
        assert("5"@ =~= seq!['5']);
        assert("6"@ =~= seq!['6']);
        assert("7"@ =~= seq!['7']);
        assert("8"@ =~= seq!['8']);
        assert("9"@ =~= seq!['9']);
    }
    s
}

/// Appends `n` to `s` as exactly two decimal digits, zero-padded.
fn push_two_digits(s: &mut String, n: u32)
    requires
        n < 100,
    ensures
        final(s)@ == old(s)@ + two_digits(n as int),
{
    s.append(digit_str(n / 10));
    s.append(digit_str(n % 10));
    proof {
        assert(s@ =~= old(s)@ + two_digits(n as int));
    }
}

/// The year encoded in either textual form of a date.
pub open spec fn decoded_year(s: Seq<char>) -> int {
    1000 * digit_val(s[0]) + 100 * digit_val(s[1]) + 10 * digit_val(s[2]) + digit_val(s[3])
}

/// The month encoded in either textual form of a date.
pub open spec fn decoded_month(s: Seq<char>) -> int {
    10 * digit_val(s[5]) + digit_val(s[6])
}

/// The day encoded in either textual form of a date.
pub open spec fn decoded_day(s: Seq<char>) -> int {
    10 * digit_val(s[8]) + digit_val(s[9])
}

/// The weekday label of every calendar day is exactly one of the seven
/// fixed glyphs, the one picked by the day-of-week index.
pub proof fn lemma_weekday_label_one_of_seven(y: int, m: int, d: int)
    requires
        valid_date(y, m, d),
    ensures
        0 <= weekday_index(y, m, d) < 7,
        weekday_label(weekday_index(y, m, d)) == seq!['日']
            || weekday_label(weekday_index(y, m, d)) == seq!['月']
            || weekday_label(weekday_index(y, m, d)) == seq!['火']
            || weekday_label(weekday_index(y, m, d)) == seq!['水']
            || weekday_label(weekday_index(y, m, d)) == seq!['木']
            || weekday_label(weekday_index(y, m, d)) == seq!['金']
            || weekday_label(weekday_index(y, m, d)) == seq!['土'],
{
}

/// The two textual forms of one date derive from the same three numbers:
/// they agree character by character away from the separators, and both
/// decode back to the date's own year, month and day.
pub proof fn lemma_formats_agree(y: int, m: int, d: int)
    requires
        valid_date(y, m, d),
    ensures
        iso_chars(y, m, d).len() == 10,
        slashed_chars(y, m, d).len() == 10,
        forall|i: int|
            0 <= i < 10 && i != 4 && i != 7 ==> iso_chars(y, m, d)[i] == slashed_chars(y, m, d)[i],
        iso_chars(y, m, d)[4] == '-' && iso_chars(y, m, d)[7] == '-',
        slashed_chars(y, m, d)[4] == '/' && slashed_chars(y, m, d)[7] == '/',
        decoded_year(iso_chars(y, m, d)) == y && decoded_year(slashed_chars(y, m, d)) == y,
        decoded_month(iso_chars(y, m, d)) == m && decoded_month(slashed_chars(y, m, d)) == m,
        decoded_day(iso_chars(y, m, d)) == d && decoded_day(slashed_chars(y, m, d)) == d,
{
    lemma_encoded_digits_decode(y, m, d, iso_chars(y, m, d));
    lemma_encoded_digits_decode(y, m, d, slashed_chars(y, m, d));
}

/// A decimal digit decodes back to the number it was made from.
proof fn lemma_digit_roundtrip(n: int)
    requires
        0 <= n < 10,
    ensures
        digit_val(dec_digit(n)) == n,
{
}

/// A ten-character form whose digit positions spell out `y`, `m` and `d`
/// decodes back to exactly those three numbers.
#[verifier::rlimit(50)]
proof fn lemma_encoded_digits_decode(y: int, m: int, d: int, s: Seq<char>)
    requires
        0 <= y < 10000,
        0 <= m < 100,
        0 <= d < 100,
        s.len() == 10,
        s[0] == dec_digit(y / 1000 % 10),
        s[1] == dec_digit(y / 100 % 10),
        s[2] == dec_digit(y / 10 % 10),
        s[3] == dec_digit(y % 10),
        s[5] == dec_digit(m / 10 % 10),
        s[6] == dec_digit(m % 10),
        s[8] == dec_digit(d / 10 % 10),
        s[9] == dec_digit(d % 10),
    ensures
        decoded_year(s) == y,
        decoded_month(s) == m,
        decoded_day(s) == d,
{
    lemma_digit_roundtrip(y / 1000 % 10);
    lemma_digit_roundtrip(y / 100 % 10);
    lemma_digit_roundtrip(y / 10 % 10);
    lemma_digit_roundtrip(y % 10);
    lemma_digit_roundtrip(m / 10 % 10);
    lemma_digit_roundtrip(m % 10);
    lemma_digit_roundtrip(d / 10 % 10);
    lemma_digit_roundtrip(d % 10);
    assert(y == (y / 10) * 10 + y % 10);
    assert(y / 10 == (y / 100) * 10 + y / 10 % 10);
    assert(y / 100 == (y / 1000) * 10 + y / 100 % 10);
    assert(y / 1000 % 10 == y / 1000);
    assert(y == 1000 * (y / 1000 % 10) + 100 * (y / 100 % 10) + 10 * (y / 10 % 10) + y % 10);
    assert(m == 10 * (m / 10 % 10) + m % 10);
    assert(d == 10 * (d / 10 % 10) + d % 10);
}

/// Appends `n` to `s` as exactly four decimal digits, zero-padded.
fn push_four_digits(s: &mut String, n: u32)
    requires
        n < 10000,
    ensures
        final(s)@ == old(s)@ + four_digits(n as int),
{
    s.append(digit_str(n / 1000));
    s.append(digit_str(n / 100 % 10));
    s.append(digit_str(n / 10 % 10));
    s.append(digit_str(n % 10));
    proof {
        assert(s@ =~= old(s)@ + four_digits(n as int));
    }
}

} // verus!
