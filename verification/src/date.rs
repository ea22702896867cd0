//! Calendar dates as the site orders and reads them.

use vstd::prelude::*;
use vstd::string::*;

use crate::text::to_chars;

verus! {

/// A day of the proleptic Gregorian calendar, without a time or a zone.
#[derive(Debug, Clone, Copy, PartialEq, Eq, Structural)]
pub struct CalendarDate {
    pub year: i16,
    pub month: i8,
    pub day: i8,
}

impl CalendarDate {
    /// Whether year, month and day lie in the ranges of a calendar date: the
    /// years -9999 to 9999, the months 1 to 12, the days 1 to 31.
    pub open spec fn in_range(self) -> bool {
        &&& -9999 <= self.year <= 9999
        &&& 1 <= self.month <= 12
        &&& 1 <= self.day <= 31
    }

    /// Whether `self` is an earlier day than `other`.
    pub open spec fn before(self, other: CalendarDate) -> bool {
        ||| self.year < other.year
        ||| self.year == other.year && self.month < other.month
        ||| self.year == other.year && self.month == other.month && self.day < other.day
    }

    /// Tells whether `self` is an earlier day than `other`.
    pub fn is_before(&self, other: &CalendarDate) -> (earlier: bool)
        ensures
            earlier == self.before(*other),
    {
        self.year < other.year || (self.year == other.year && (self.month < other.month || (
        self.month == other.month && self.day < other.day)))
    }
}

/// Of two different days one is before the other, never both, and no day is
/// before itself.
pub proof fn lemma_before_is_total_order(a: CalendarDate, b: CalendarDate, c: CalendarDate)
    ensures
        !a.before(a),
        a.before(b) ==> !b.before(a),
        a.before(b) && b.before(c) ==> a.before(c),
        a != b ==> a.before(b) || b.before(a),
{
}

/// The day that a text states, in the notation of ISO 8601 and RFC 3339, as
/// the date parser reads it; `None` where it reads none.
pub uninterp spec fn civil_date(text: Seq<char>) -> Option<CalendarDate>;

/// Reads a day with the `FromStr` of `jiff::civil::Date`. What comes back
/// depends on the text alone, and a day that was read lies in the ranges of
/// a calendar date.
#[verifier::external_body]
pub(crate) fn parse_date(text: &str) -> (parsed: Option<CalendarDate>)
    ensures
        parsed == civil_date(text@),
        parsed matches Some(date) ==> date.in_range(),
{
    let date: jiff::civil::Date = text.parse().ok()?;
    Some(CalendarDate { year: date.year(), month: date.month(), day: date.day() })
}

/// The decimal digit for a number below ten.
pub open spec fn digit(n: int) -> char {
    if n == 0 {
        '0'
    } else if n == 1 {
        '1'
    } else if n == 2 {
        '2'
    } else if n == 3 {
        '3'
    } else if n == 4 {
        '4'
    } else if n == 5 {
        '5'
    } else if n == 6 {
        '6'
    } else if n == 7 {
        '7'
    } else if n == 8 {
        '8'
    } else {
        '9'
    }
}

/// The last `width` decimal digits of `n`, padded with zeros.
pub open spec fn padded(n: int, width: nat) -> Seq<char>
    decreases width,
{
    if width == 0 {
        Seq::empty()
    } else {
        padded(n / 10, (width - 1) as nat).push(digit(n % 10))
    }
}

/// A day in the notation of ISO 8601: four digits of year, two of month and
/// two of day, with hyphens between; a year before 0 has `-00` in front.
pub open spec fn iso_text(date: CalendarDate) -> Seq<char> {
    let sign = if date.year < 0 {
        seq!['-', '0', '0']
    } else {
        Seq::empty()
    };
    let year = if date.year < 0 {
        -date.year
    } else {
        date.year as int
    };
    sign + padded(year, 4) + seq!['-'] + padded(date.month as int, 2) + seq!['-'] + padded(
        date.day as int,
        2,
    )
}

/// The character of a decimal digit.
fn digit_char(n: u16) -> (c: char)
    requires
        n < 10,
    ensures
        c == digit(n as int),
{
    if n == 0 {
        '0'
    } else if n == 1 {
        '1'
    } else if n == 2 {
        '2'
    } else if n == 3 {
        '3'
    } else if n == 4 {
        '4'
    } else if n == 5 {
        '5'
    } else if n == 6 {
        '6'
    } else if n == 7 {
        '7'
    } else if n == 8 {
        '8'
    } else {
        '9'
    }
}

/// Two digits, written out.
proof fn lemma_padded_two(n: int)
    ensures
        padded(n, 2) == seq![digit((n / 10) % 10), digit(n % 10)],
{
    reveal_with_fuel(padded, 3);
    assert(padded(n, 2) =~= seq![digit((n / 10) % 10), digit(n % 10)]);
}

/// Four digits are the two of the hundreds and the two of the rest.
proof fn lemma_padded_four(n: int)
    requires
        0 <= n,
    ensures
        padded(n, 4) == padded(n / 100, 2) + padded(n % 100, 2),
{
    reveal_with_fuel(padded, 5);
    lemma_padded_two(n / 100);
    lemma_padded_two(n % 100);
    assert(n / 10 / 10 == n / 100 && (n / 10) % 10 == (n % 100) / 10 && n % 10 == (n % 100) % 10
        && n / 10 / 10 / 10 == (n / 100) / 10);
    assert(padded(n, 4) =~= seq![
        digit((n / 10 / 10 / 10) % 10),
        digit((n / 10 / 10) % 10),
        digit((n / 10) % 10),
        digit(n % 10),
    ]);
    assert(padded(n / 100, 2) + padded(n % 100, 2) =~= seq![
        digit(((n / 100) / 10) % 10),
        digit((n / 100) % 10),
        digit(((n % 100) / 10) % 10),
        digit((n % 100) % 10),
    ]);
}

/// Appends the last two decimal digits of `n` to `text`.
fn push_two_digits(text: &mut String, n: u16)
    ensures
        final(text)@ == old(text)@ + padded(n as int, 2),
{
    text.push(digit_char((n / 10) % 10));
    text.push(digit_char(n % 10));
    proof {
        lemma_padded_two(n as int);
        assert(text@ =~= old(text)@ + padded(n as int, 2));
    }
}

/// Appends the four decimal digits of `n` to `text`.
fn push_four_digits(text: &mut String, n: u16)
    requires
        n <= 9999,
    ensures
        final(text)@ == old(text)@ + padded(n as int, 4),
{
    push_two_digits(text, n / 100);
    push_two_digits(text, n % 100);
    proof {
        lemma_padded_four(n as int);
        assert(text@ =~= old(text)@ + padded(n as int, 4));
    }
}

/// Starts the text of a year: empty, or `-00` for a year before 0.
fn year_sign(year: i16) -> (text: String)
    ensures
        text@ == if year < 0 {
            seq!['-', '0', '0']
        } else {
            Seq::<char>::empty()
        },
{
    let mut text = String::new();
    if year < 0 {
        text.push('-');
        text.push('0');
        text.push('0');
        proof {
            assert(text@ =~= seq!['-', '0', '0']);
        }
    }
    text
}

impl CalendarDate {
    /// Writes the day in the notation of ISO 8601.
    pub fn to_iso(&self) -> (text: String)
        requires
            self.in_range(),
        ensures
            text@ == iso_text(*self),
    {
        let mut text = year_sign(self.year);
        let year: u16 = if self.year < 0 {
            (-self.year) as u16
        } else {
            self.year as u16
        };
        push_four_digits(&mut text, year);
        text.push('-');
        push_two_digits(&mut text, self.month as u16);
        text.push('-');
        push_two_digits(&mut text, self.day as u16);
        proof {
            assert(text@ =~= iso_text(*self));
        }
        text
    }
}

/// Whether a year has a 29th of February.
pub open spec fn is_leap_year(year: int) -> bool {
    year % 4 == 0 && (year % 100 != 0 || year % 400 == 0)
}

/// Number of days of a month.
pub open spec fn days_in_month(year: int, month: int) -> int {
    if month == 2 {
        if is_leap_year(year) {
            29
        } else {
            28
        }
    } else if month == 4 || month == 6 || month == 9 || month == 11 {
        30
    } else {
        31
    }
}

/// The short English name of a month.
pub open spec fn month_abbreviation(month: int) -> Seq<char> {
    if month == 1 {
        "Jan"@
    } else if month == 2 {
        "Feb"@
    } else if month == 3 {
        "Mar"@
    } else if month == 4 {
        "Apr"@
    } else if month == 5 {
        "May"@
    } else if month == 6 {
        "Jun"@
    } else if month == 7 {
        "Jul"@
    } else if month == 8 {
        "Aug"@
    } else if month == 9 {
        "Sep"@
    } else if month == 10 {
        "Oct"@
    } else if month == 11 {
        "Nov"@
    } else {
        "Dec"@
    }
}

/// A year as the site shows it: in four digits, padded with zeros. A
/// year before 0 has a minus sign, which takes the place of one digit of
/// padding: `-044`, `-2024`.
pub open spec fn year_label(year: int) -> Seq<char> {
    if year >= 0 {
        padded(year, 4)
    } else if -year < 1000 {
        seq!['-'] + padded(-year, 3)
    } else {
        seq!['-'] + padded(-year, 4)
    }
}

/// A day as the site shows it: `01 Jun, 2024`.
pub open spec fn label_text(date: CalendarDate) -> Seq<char> {
    padded(date.day as int, 2) + seq![' '] + month_abbreviation(date.month as int) + seq![
        ',',
        ' ',
    ] + year_label(date.year as int)
}

impl CalendarDate {
    /// Whether the calendar has this day.
    pub open spec fn exists_day(self) -> bool {
        &&& self.in_range()
        &&& self.day <= days_in_month(self.year as int, self.month as int)
    }
}

/// Writes a day with `jiff::civil::Date::strftime` in the format
/// `%d %b, %Y`: the day in two digits, the short English name of the month,
/// a comma and the year padded with zeros to four characters, the minus
/// sign of a year before 0 counted among them. `None` for a day that
/// `jiff::civil::Date::new` refuses, which is one that the calendar does not
/// have.
#[verifier::external_body]
fn format_day(date: CalendarDate, format: &str) -> (label: Option<String>)
    requires
        format@ == "%d %b, %Y"@,
    ensures
        label is Some <==> date.exists_day(),
        label matches Some(text) ==> text@ == label_text(date),
{
    let day = jiff::civil::Date::new(date.year, date.month, date.day).ok()?;
    Some(day.strftime(format).to_string())
}

/// Writes a day as the site shows it.
pub(crate) fn day_label(date: CalendarDate) -> (label: Option<String>)
    ensures
        label is Some <==> date.exists_day(),
        label matches Some(text) ==> text@ == label_text(date),
{
    format_day(date, "%d %b, %Y")
}

impl CalendarDate {
    /// Writes the day as the site shows it, `01 Jun, 2024`. `None` for a
    /// day that the calendar does not have.
    pub fn label(&self) -> (label: Option<String>)
        ensures
            label is Some <==> self.exists_day(),
            label matches Some(text) ==> text@ == label_text(*self),
    {
        day_label(*self)
    }
}

/// Whether a decimal digit stands at position `i` of `s`.
pub open spec fn digit_at(s: Seq<char>, i: int) -> bool {
    0 <= i < s.len() && 0x30 <= s[i] as u32 <= 0x39
}

/// The number that the two digits at positions `i` and `i + 1` stand for.
pub open spec fn two_at(s: Seq<char>, i: int) -> int {
    (s[i] as u32 - 0x30) * 10 + (s[i + 1] as u32 - 0x30)
}

/// Whether `s` begins with a day and a time of day in the notation of
/// RFC 3339, `2024-06-01T00:00:00`: a month from 1 to 12, a day from 1 to
/// 31, an hour up to 23, a minute up to 59 and a second up to 60.
pub open spec fn begins_with_date_time(s: Seq<char>) -> bool {
    &&& s.len() >= 19
    &&& digit_at(s, 0) && digit_at(s, 1) && digit_at(s, 2) && digit_at(s, 3)
    &&& s[4] == '-'
    &&& digit_at(s, 5) && digit_at(s, 6)
    &&& s[7] == '-'
    &&& digit_at(s, 8) && digit_at(s, 9)
    &&& s[10] == 'T'
    &&& digit_at(s, 11) && digit_at(s, 12)
    &&& s[13] == ':'
    &&& digit_at(s, 14) && digit_at(s, 15)
    &&& s[16] == ':'
    &&& digit_at(s, 17) && digit_at(s, 18)
    &&& 1 <= two_at(s, 5) <= 12
    &&& 1 <= two_at(s, 8) <= 31
    &&& two_at(s, 11) <= 23
    &&& two_at(s, 14) <= 59
    &&& two_at(s, 17) <= 60
}

/// Where the run of digits that starts at `k` ends.
pub open spec fn digits_end(s: Seq<char>, k: int) -> int
    decreases s.len() - k,
{
    if digit_at(s, k) {
        digits_end(s, k + 1)
    } else {
        k
    }
}

/// Where the seconds of a date and time end: behind the fraction, where
/// there is one.
pub open spec fn seconds_end(s: Seq<char>) -> int {
    if s.len() > 19 && s[19] == '.' {
        digits_end(s, 20)
    } else {
        19
    }
}

/// Whether what stands in `s` from `k` to the end is an offset from UTC in
/// the notation of RFC 3339: `Z`, or a sign, an hour up to 23, a colon and
/// a minute up to 59.
pub open spec fn is_offset_at(s: Seq<char>, k: int) -> bool {
    ||| s.len() == k + 1 && s[k] == 'Z'
    ||| {
        &&& s.len() == k + 6
        &&& (s[k] == '+' || s[k] == '-')
        &&& digit_at(s, k + 1) && digit_at(s, k + 2)
        &&& s[k + 3] == ':'
        &&& digit_at(s, k + 4) && digit_at(s, k + 5)
        &&& two_at(s, k + 1) <= 23
        &&& two_at(s, k + 4) <= 59
    }
}

/// Whether `s` is an instant in the notation of RFC 3339: a day and a time
/// of day, a fraction of the second where there is one, and the offset
/// from UTC, with nothing behind it.
pub open spec fn is_instant_text(s: Seq<char>) -> bool {
    &&& begins_with_date_time(s)
    &&& (s.len() > 19 && s[19] == '.' ==> seconds_end(s) > 20)
    &&& is_offset_at(s, seconds_end(s))
}

/// Tells whether a decimal digit stands at position `i`.
fn digit_here(chars: &Vec<char>, i: usize) -> (digit: bool)
    ensures
        digit == digit_at(chars@, i as int),
{
    if i < chars.len() {
        let code: u32 = chars[i] as u32;
        0x30 <= code && code <= 0x39
    } else {
        false
    }
}

/// Tells whether a character stands at position `i`.
fn char_here(chars: &Vec<char>, i: usize, c: char) -> (here: bool)
    ensures
        here == (i < chars@.len() && chars@[i as int] == c),
{
    i < chars.len() && chars[i] == c
}

/// Tells whether two digits stand at `i` whose number is from `low` to
/// `high`.
fn two_here(chars: &Vec<char>, i: usize, low: u32, high: u32) -> (here: bool)
    requires
        i < usize::MAX,
    ensures
        here == (digit_at(chars@, i as int) && digit_at(chars@, i + 1) && low <= two_at(
            chars@,
            i as int,
        ) <= high),
{
    if digit_here(chars, i) && digit_here(chars, i + 1) {
        let number: u32 = (chars[i] as u32 - 0x30) * 10 + (chars[i + 1] as u32 - 0x30);
        low <= number && number <= high
    } else {
        false
    }
}

/// Tells whether a text is an instant in the notation of RFC 3339.
pub fn is_instant(text: &str) -> (instant: bool)
    ensures
        instant == is_instant_text(text@),
{
    let chars = to_chars(text);
    let len = chars.len();
    if len < 20 {
        return false;
    }
    let date_time = two_here(&chars, 0, 0, 99) && two_here(&chars, 2, 0, 99) && char_here(
        &chars,
        4,
        '-',
    ) && two_here(&chars, 5, 1, 12) && char_here(&chars, 7, '-') && two_here(&chars, 8, 1, 31)
        && char_here(&chars, 10, 'T') && two_here(&chars, 11, 0, 23) && char_here(&chars, 13, ':')
        && two_here(&chars, 14, 0, 59) && char_here(&chars, 16, ':') && two_here(
        &chars,
        17,
        0,
        60,
    );
    if !date_time {
        return false;
    }
    let mut end: usize = 19;
    if chars[19] == '.' {
        end = 20;
        while end < len && digit_here(&chars, end)
            invariant
                20 <= end <= len,
                len == chars@.len(),
                digits_end(chars@, 20) == digits_end(chars@, end as int),
            decreases len - end,
        {
            end = end + 1;
        }
        if end == 20 {
            return false;
        }
    }
    if end >= len {
        false
    } else if end + 1 == len {
        chars[end] == 'Z'
    } else if len >= 6 && end == len - 6 {
        (chars[end] == '+' || chars[end] == '-') && two_here(&chars, end + 1, 0, 23) && char_here(
            &chars,
            end + 3,
            ':',
        ) && two_here(&chars, end + 4, 0, 59)
    } else {
        false
    }
}

} // verus!
