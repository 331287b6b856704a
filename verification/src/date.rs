//! Calendar days.

use vstd::prelude::*;

verus! {

/// A day of the proleptic Gregorian calendar, years 0 to 9999.
#[derive(Clone, Copy, Debug, PartialEq, Eq, Structural)]
pub struct Date {
    pub year: u16,
    pub month: u8,
    pub day: u8,
}

/// Whether `year` has a 29th of February.
pub open spec fn is_leap_year(year: int) -> bool {
    year % 4 == 0 && (year % 100 != 0 || year % 400 == 0)
}

/// The number of days of `month` in `year`; 0 where `month` is no month.
pub open spec fn days_in_month(year: int, month: int) -> int {
    if month == 2 {
        if is_leap_year(year) {
            29
        } else {
            28
        }
    } else if month == 4 || month == 6 || month == 9 || month == 11 {
        30
    } else if 1 <= month <= 12 {
        31
    } else {
        0
    }
}

/// Whether the three numbers name a day that exists.
pub open spec fn is_calendar_day(year: int, month: int, day: int) -> bool {
    &&& 0 <= year <= 9999
    &&& 1 <= month <= 12
    &&& 1 <= day <= days_in_month(year, month)
}

/// Whether `c` is one of the ten decimal digits.
pub open spec fn is_digit(c: char) -> bool {
    '0' <= c <= '9'
}

/// The number that the decimal digit `c` stands for.
pub open spec fn digit_value(c: char) -> int {
    c as int - '0' as int
}

/// The decimal digit that stands for `v`, for `v` from 0 to 9.
pub open spec fn digit_char(v: int) -> char {
    (v + '0' as int) as char
}

/// The day that a text of the form `YYYY-MM-DD` names: four digits, a hyphen,
/// two digits, a hyphen, two digits, and the day exists. Any other text names
/// no day.
pub open spec fn parse_iso(text: Seq<char>) -> Option<Date> {
    if text.len() == 10 && text[4] == '-' && text[7] == '-' && is_digit(text[0]) && is_digit(
        text[1],
    ) && is_digit(text[2]) && is_digit(text[3]) && is_digit(text[5]) && is_digit(text[6])
        && is_digit(text[8]) && is_digit(text[9]) {
        let year = digit_value(text[0]) * 1000 + digit_value(text[1]) * 100 + digit_value(text[2])
            * 10 + digit_value(text[3]);
        let month = digit_value(text[5]) * 10 + digit_value(text[6]);
        let day = digit_value(text[8]) * 10 + digit_value(text[9]);
        if is_calendar_day(year, month, day) {
            Some(Date { year: year as u16, month: month as u8, day: day as u8 })
        } else {
            None
        }
    } else {
        None
    }
}

/// The text `YYYY-MM-DD` of a date: the last four digits of the year, the
/// last two of the month and the last two of the day, which for a day that
/// exists are all there are.
pub open spec fn iso_text(date: Date) -> Seq<char> {
    seq![
        digit_char(date.year as int / 1000 % 10),
        digit_char(date.year as int / 100 % 10),
        digit_char(date.year as int / 10 % 10),
        digit_char(date.year as int % 10),
        '-',
        digit_char(date.month as int / 10 % 10),
        digit_char(date.month as int % 10),
        '-',
        digit_char(date.day as int / 10 % 10),
        digit_char(date.day as int % 10),
    ]
}

fn leap_year(year: u16) -> (leap: bool)
    ensures
        leap == is_leap_year(year as int),
{
    year % 4 == 0 && (year % 100 != 0 || year % 400 == 0)
}

fn month_length(year: u16, month: u8) -> (length: u8)
    ensures
        length == days_in_month(year as int, month as int),
{
    if month == 2 {
        if leap_year(year) {
            29
        } else {
            28
        }
    } else if month == 4 || month == 6 || month == 9 || month == 11 {
        30
    } else if 1 <= month && month <= 12 {
        31
    } else {
        0
    }
}

/// The byte at `index` of an ASCII text, as a digit's value where it is a digit.
fn ascii_digit(text: &str, index: usize) -> (value: Option<u8>)
    requires
        text.is_ascii(),
        index < text@.len(),
    ensures
        value == if is_digit(text@[index as int]) {
            Some(digit_value(text@[index as int]) as u8)
        } else {
            None
        },
        value matches Some(v) ==> v <= 9,
{
    let byte = text.get_ascii(index);
    if 48 <= byte && byte <= 57 {
        Some(byte - 48)
    } else {
        None
    }
}

/// The one-character text of a decimal digit.
pub(crate) fn digit_text(value: u8) -> (text: &'static str)
    requires
        value <= 9,
    ensures
        text@ == seq![digit_char(value as int)],
{
    proof {
        reveal_strlit("0");
        reveal_strlit("1");
        reveal_strlit("2");
        reveal_strlit("3");
        reveal_strlit("4");
        reveal_strlit("5");
        reveal_strlit("6");
        reveal_strlit("7");
        reveal_strlit("8");
        reveal_strlit("9");
    }
    let text = if value == 0 {
        "0"
    } else if value == 1 {
        "1"
    } else if value == 2 {
        "2"
    } else if value == 3 {
        "3"
    } else if value == 4 {
        "4"
    } else if value == 5 {
        "5"
    } else if value == 6 {
        "6"
    } else if value == 7 {
        "7"
    } else if value == 8 {
        "8"
    } else {
        "9"
    };
    assert(text@ =~= seq![digit_char(value as int)]);
    text
}

impl Date {
    /// Whether the date names a day that exists.
    pub open spec fn is_valid(self) -> bool {
        is_calendar_day(self.year as int, self.month as int, self.day as int)
    }

    /// Chronological order: `self` is an earlier day than `other`.
    pub open spec fn before(self, other: Date) -> bool {
        ||| self.year < other.year
        ||| self.year == other.year && self.month < other.month
        ||| self.year == other.year && self.month == other.month && self.day < other.day
    }

    /// The date of the given year, month and day, if that day exists.
    pub fn new(year: u16, month: u8, day: u8) -> (date: Option<Date>)
        ensures
            date == if is_calendar_day(year as int, month as int, day as int) {
                Some(Date { year, month, day })
            } else {
                None
            },
    {
        if year <= 9999 && 1 <= month && month <= 12 && 1 <= day && day <= month_length(year, month) {
            Some(Date { year, month, day })
        } else {
            None
        }
    }

    /// Reads a date written as `YYYY-MM-DD`.
    pub fn parse(text: &str) -> (date: Option<Date>)
        ensures
            date == parse_iso(text@),
    {
        if !text.is_ascii() {
            return None;
        }
        proof {
            vstd::utf8::is_ascii_chars_encode_utf8(text@);
        }
        if text.as_bytes().len() != 10 {
            return None;
        }
        if text.get_ascii(4) != 45 || text.get_ascii(7) != 45 {
            return None;
        }
        let y0 = ascii_digit(text, 0);
        let y1 = ascii_digit(text, 1);
        let y2 = ascii_digit(text, 2);
        let y3 = ascii_digit(text, 3);
        let m0 = ascii_digit(text, 5);
        let m1 = ascii_digit(text, 6);
        let d0 = ascii_digit(text, 8);
        let d1 = ascii_digit(text, 9);
        match (y0, y1, y2, y3, m0, m1, d0, d1) {
            (Some(a), Some(b), Some(c), Some(d), Some(e), Some(f), Some(g), Some(h)) => {
                let year: u16 = (a as u16) * 1000 + (b as u16) * 100 + (c as u16) * 10 + (d as u16);
                let month: u8 = e * 10 + f;
                let day: u8 = g * 10 + h;
                Date::new(year, month, day)
            },
            _ => None,
        }
    }

    /// Writes the date as `YYYY-MM-DD`.
    pub fn to_iso_string(&self) -> (text: String)
        ensures
            text@ == iso_text(*self),
    {
        let mut text = String::new();
        text.append(digit_text((self.year / 1000 % 10) as u8));
        text.append(digit_text((self.year / 100 % 10) as u8));
        text.append(digit_text((self.year / 10 % 10) as u8));
        text.append(digit_text((self.year % 10) as u8));
        text.append("-");
        text.append(digit_text(self.month / 10 % 10));
        text.append(digit_text(self.month % 10));
        text.append("-");
        text.append(digit_text(self.day / 10 % 10));
        text.append(digit_text(self.day % 10));
        proof {
            reveal_strlit("-");
            assert(text@ =~= iso_text(*self));
        }
        text
    }

    /// Decides chronological order.
    pub fn is_before(&self, other: &Date) -> (earlier: bool)
        ensures
            earlier == self.before(*other),
    {
        self.year < other.year || (self.year == other.year && (self.month < other.month || (
        self.month == other.month && self.day < other.day)))
    }
}

proof fn lemma_digit_of_value(v: int)
    requires
        0 <= v <= 9,
    ensures
        is_digit(digit_char(v)),
        digit_value(digit_char(v)) == v,
{
}

proof fn lemma_value_of_digit(c: char)
    requires
        is_digit(c),
    ensures
        0 <= digit_value(c) <= 9,
        digit_char(digit_value(c)) == c,
{
}

proof fn lemma_four_digits(n: int)
    requires
        0 <= n <= 9999,
    ensures
        0 <= n / 1000 <= 9,
        0 <= n / 100 % 10 <= 9,
        0 <= n / 10 % 10 <= 9,
        0 <= n % 10 <= 9,
        (n / 1000) * 1000 + (n / 100 % 10) * 100 + (n / 10 % 10) * 10 + n % 10 == n,
{
    let m = n as u32;
    assert(m <= 9999 ==> m / 1000 <= 9 && m / 100 % 10 <= 9 && m / 10 % 10 <= 9 && m % 10 <= 9
        && (m / 1000) * 1000 + (m / 100 % 10) * 100 + (m / 10 % 10) * 10 + m % 10 == m)
        by (bit_vector);
}

proof fn lemma_digits_of_number(a: int, b: int, c: int, d: int)
    requires
        0 <= a <= 9,
        0 <= b <= 9,
        0 <= c <= 9,
        0 <= d <= 9,
    ensures
        (a * 1000 + b * 100 + c * 10 + d) / 1000 == a,
        (a * 1000 + b * 100 + c * 10 + d) / 100 % 10 == b,
        (a * 1000 + b * 100 + c * 10 + d) / 10 % 10 == c,
        (a * 1000 + b * 100 + c * 10 + d) % 10 == d,
        (c * 10 + d) / 10 == c,
        (c * 10 + d) % 10 == d,
{
    let (p, q, r, s) = (a as u32, b as u32, c as u32, d as u32);
    assert(p <= 9 && q <= 9 && r <= 9 && s <= 9 ==> {
        let n = p * 1000 + q * 100 + r * 10 + s;
        n / 1000 == p && n / 100 % 10 == q && n / 10 % 10 == r && n % 10 == s && (r * 10 + s)
            / 10 == r && (r * 10 + s) % 10 == s
    }) by (bit_vector);
}

/// Reading the text of a valid date gives that date back.
pub proof fn law_parse_inverts_text(date: Date)
    requires
        date.is_valid(),
    ensures
        parse_iso(iso_text(date)) == Some(date),
{
    let text = iso_text(date);
    let y = date.year as int;
    let m = date.month as int;
    let d = date.day as int;
    lemma_four_digits(y);
    lemma_four_digits(m);
    lemma_four_digits(d);
    lemma_digit_of_value(y / 1000);
    lemma_digit_of_value(y / 100 % 10);
    lemma_digit_of_value(y / 10 % 10);
    lemma_digit_of_value(y % 10);
    lemma_digit_of_value(m / 10);
    lemma_digit_of_value(m % 10);
    lemma_digit_of_value(d / 10);
    lemma_digit_of_value(d % 10);
    assert(text.len() == 10);
    assert(y / 1000 % 10 == y / 1000 && m / 10 % 10 == m / 10 && d / 10 % 10 == d / 10);
    assert(text[0] == digit_char(y / 1000));
    assert(text[1] == digit_char(y / 100 % 10));
    assert(text[2] == digit_char(y / 10 % 10));
    assert(text[3] == digit_char(y % 10));
    assert(text[4] == '-');
    assert(text[5] == digit_char(m / 10));
    assert(text[6] == digit_char(m % 10));
    assert(text[7] == '-');
    assert(text[8] == digit_char(d / 10));
    assert(text[9] == digit_char(d % 10));
}

/// Only the text written for a date reads as that date, and a date that was
/// read is valid.
pub proof fn law_text_inverts_parse(text: Seq<char>)
    requires
        parse_iso(text) is Some,
    ensures
        parse_iso(text)->0.is_valid(),
        iso_text(parse_iso(text)->0) == text,
{
    let date = parse_iso(text)->0;
    let a = digit_value(text[0]);
    let b = digit_value(text[1]);
    let c = digit_value(text[2]);
    let d = digit_value(text[3]);
    let e = digit_value(text[5]);
    let f = digit_value(text[6]);
    let g = digit_value(text[8]);
    let h = digit_value(text[9]);
    lemma_value_of_digit(text[0]);
    lemma_value_of_digit(text[1]);
    lemma_value_of_digit(text[2]);
    lemma_value_of_digit(text[3]);
    lemma_value_of_digit(text[5]);
    lemma_value_of_digit(text[6]);
    lemma_value_of_digit(text[8]);
    lemma_value_of_digit(text[9]);
    lemma_digits_of_number(a, b, c, d);
    lemma_digits_of_number(0, 0, e, f);
    lemma_digits_of_number(0, 0, g, h);
    assert(date.year as int == a * 1000 + b * 100 + c * 10 + d);
    assert(date.month as int == e * 10 + f);
    assert(date.day as int == g * 10 + h);
    let written = iso_text(date);
    assert(written.len() == 10);
    assert(written[0] == text[0]);
    assert(written[1] == text[1]);
    assert(written[2] == text[2]);
    assert(written[3] == text[3]);
    assert(written[4] == text[4]);
    assert(written[5] == text[5]);
    assert(written[6] == text[6]);
    assert(written[7] == text[7]);
    assert(written[8] == text[8]);
    assert(written[9] == text[9]);
    assert(written =~= text);
}

/// Chronological order is a strict total order.
pub proof fn law_before_is_strict_total_order(a: Date, b: Date, c: Date)
    ensures
        !a.before(a),
        a.before(b) && b.before(c) ==> a.before(c),
        a.before(b) || b.before(a) || a == b,
{
}

} // verus!
