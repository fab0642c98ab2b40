use vstd::prelude::*;

use chrono::Datelike;

use crate::text::{
    all_digits, decimal, digit_char, digit_value, digits_value, is_digit, lemma_decimal_digits,
    push_decimal,
};

verus! {

/// Whether `year` is a leap year of the proleptic Gregorian calendar.
pub open spec fn is_leap_year(year: int) -> bool {
    (year % 4 == 0 && year % 100 != 0) || year % 400 == 0
}

/// The number of days of `month` (1 to 12) in `year`.
pub open spec fn days_in_month(year: int, month: int) -> int {
    if month == 2 {
        if is_leap_year(year) {
            29
        } else {
            28
        }
    } else if month == 4 || month == 6 || month == 9 || month == 11 {
        30
    } else {
        31
    }
}

/// Whether `(year, month, day)` is a date that `chrono::NaiveDate` can hold: a day of the
/// proleptic Gregorian calendar in the years -262143 to 262142.
pub open spec fn valid_ymd(year: int, month: int, day: int) -> bool {
    &&& -262143 <= year <= 262142
    &&& 1 <= month <= 12
    &&& 1 <= day <= days_in_month(year, month)
}

/// A calendar date (the publication date of an act).
#[derive(Debug, Clone, Copy, PartialEq, Eq, Structural)]
pub struct DrDate {
    year: i32,
    month: u32,
    day: u32,
}

impl View for DrDate {
    type V = (int, int, int);

    /// The year, month and day.
    closed spec fn view(&self) -> (int, int, int) {
        (self.year as int, self.month as int, self.day as int)
    }
}

impl DrDate {
    /// The date with this year, month and day.
    pub closed spec fn from_view(d: (int, int, int)) -> DrDate {
        DrDate { year: d.0 as i32, month: d.1 as u32, day: d.2 as u32 }
    }

    /// A valid date is the one with its own year, month and day.
    pub proof fn lemma_from_view(d: (int, int, int))
        requires
            valid_ymd(d.0, d.1, d.2),
        ensures
            Self::from_view(d)@ == d,
    {
    }

    #[verifier::type_invariant]
    spec fn inv(self) -> bool {
        valid_ymd(self.year as int, self.month as int, self.day as int)
    }

    /// The date `year`-`month`-`day`, where it exists (as `NaiveDate::from_ymd_opt`).
    pub fn from_ymd_opt(year: i32, month: u32, day: u32) -> (r: Option<DrDate>)
        ensures
            r is Some <==> valid_ymd(year as int, month as int, day as int),
            r matches Some(d) ==> d@ == (year as int, month as int, day as int),
    {
        if year < -262143 || year > 262142 || month < 1 || month > 12 || day < 1 {
            return None;
        }
        let shifted: i64 = year as i64 + 400000;
        let leap = (shifted % 4 == 0 && shifted % 100 != 0) || shifted % 400 == 0;
        assert(leap == is_leap_year(year as int));
        let last: u32 = if month == 2 {
            if leap {
                29
            } else {
                28
            }
        } else if month == 4 || month == 6 || month == 9 || month == 11 {
            30
        } else {
            31
        };
        if day > last {
            return None;
        }
        Some(DrDate { year, month, day })
    }

    /// The year.
    pub fn year(&self) -> (r: i32)
        ensures
            r as int == self@.0,
            valid_ymd(self@.0, self@.1, self@.2),
    {
        proof {
            use_type_invariant(self);
        }
        self.year
    }

    /// The month, 1 to 12.
    pub fn month(&self) -> (r: u32)
        ensures
            r as int == self@.1,
            valid_ymd(self@.0, self@.1, self@.2),
    {
        proof {
            use_type_invariant(self);
        }
        self.month
    }

    /// The day of the month.
    pub fn day(&self) -> (r: u32)
        ensures
            r as int == self@.2,
            valid_ymd(self@.0, self@.1, self@.2),
    {
        proof {
            use_type_invariant(self);
        }
        self.day
    }
}

/// `n` in decimal, zero-padded to at least four digits.
pub open spec fn pad4(n: nat) -> Seq<char> {
    if n < 10 {
        seq!['0', '0', '0'] + decimal(n)
    } else if n < 100 {
        seq!['0', '0'] + decimal(n)
    } else if n < 1000 {
        seq!['0'] + decimal(n)
    } else {
        decimal(n)
    }
}

/// The year as chrono's `%Y` writes it: zero-padded to four digits, with a sign (and at least
/// four digits after it) for the years before 0 and after 9999.
pub open spec fn year_text(year: int) -> Seq<char> {
    if 0 <= year <= 9999 {
        pad4(year as nat)
    } else if year < 0 {
        seq!['-'] + pad4((-year) as nat)
    } else {
        seq!['+'] + pad4(year as nat)
    }
}

/// `n` (below 100) in two digits, as chrono's `%m` and `%d` write it.
pub open spec fn two_digits(n: int) -> Seq<char> {
    seq![digit_char(n / 10), digit_char(n % 10)]
}

/// The date written as chrono's `"%Y-%m-%d"` writes it.
pub open spec fn ymd_text(d: (int, int, int)) -> Seq<char> {
    year_text(d.0) + seq!['-'] + two_digits(d.1) + seq!['-'] + two_digits(d.2)
}

fn push_pad4(out: &mut String, n: u32)
    ensures
        final(out)@ == old(out)@ + pad4(n as nat),
{
    let ghost start = out@;
    if n < 1000 {
        out.append("0");
    }
    if n < 100 {
        out.append("0");
    }
    if n < 10 {
        out.append("0");
    }
    push_decimal(out, n);
    proof {
        reveal_strlit("0");
        if n < 10 {
            assert(out@ =~= start + pad4(n as nat));
        } else if n < 100 {
            assert(out@ =~= start + pad4(n as nat));
        } else if n < 1000 {
            assert(out@ =~= start + pad4(n as nat));
        } else {
            assert(out@ =~= start + pad4(n as nat));
        }
    }
}

fn push_two_digits(out: &mut String, n: u32)
    requires
        n < 100,
    ensures
        final(out)@ == old(out)@ + two_digits(n as int),
{
    let ghost start = out@;
    let tens = n / 10;
    let ones = n % 10;
    push_decimal(out, tens);
    push_decimal(out, ones);
    assert(out@ =~= start + two_digits(n as int));
}

/// The date as `date.format("%Y-%m-%d").to_string()` writes it.
pub fn format_ymd(date: &DrDate) -> (r: String)
    ensures
        r@ == ymd_text(date@),
{
    let year = date.year();
    let month = date.month();
    let day = date.day();
    let mut s = String::new();
    if 0 <= year && year <= 9999 {
        push_pad4(&mut s, year as u32);
    } else if year < 0 {
        s.append("-");
        push_pad4(&mut s, (-year) as u32);
    } else {
        s.append("+");
        push_pad4(&mut s, year as u32);
    }
    s.append("-");
    push_two_digits(&mut s, month);
    s.append("-");
    push_two_digits(&mut s, day);
    proof {
        reveal_strlit("-");
        reveal_strlit("+");
        assert(s@ =~= ymd_text(date@));
    }
    s
}

/// A name for what `chrono::NaiveDate::parse_from_str(s, "%Y-%m-%d")` gives for the text `s`:
/// the year, month and day of the date that it reads, or nothing where it refuses `s`.
pub uninterp spec fn chrono_parse_ymd(s: Seq<char>) -> Option<(int, int, int)>;

/// Calls `chrono::NaiveDate::parse_from_str(s, "%Y-%m-%d")` and keeps the year, month and
/// day of the date. Claimed: the result is `chrono_parse_ymd` of the text; and chrono reads its
/// own `"%Y-%m-%d"` text of a valid date back as that date (its `%Y` reads four digits, or a
/// sign and any number of digits; `%m` and `%d` read two). That the date is one that `DrDate`
/// can hold (its type invariant) rests on chrono, whose dates are always valid and within those
/// years.
#[verifier::external_body]
pub(crate) fn parse_ymd(s: &str) -> (r: Option<DrDate>)
    ensures
        match r {
            Some(d) => chrono_parse_ymd(s@) == Some(d@),
            None => chrono_parse_ymd(s@) is None,
        },
        forall|d: (int, int, int)|
            valid_ymd(d.0, d.1, d.2) && s@ == #[trigger] ymd_text(d) ==> r == Some(
                DrDate::from_view(d),
            ),
{
    chrono::NaiveDate::parse_from_str(s, "%Y-%m-%d").ok().map(
        |d| DrDate { year: d.year(), month: d.month(), day: d.day() },
    )
}


proof fn lemma_decimal_len(n: nat)
    ensures
        n < 10 ==> decimal(n).len() == 1,
        10 <= n < 100 ==> decimal(n).len() == 2,
        100 <= n < 1000 ==> decimal(n).len() == 3,
        1000 <= n < 10000 ==> decimal(n).len() == 4,
    decreases n,
{
    if n >= 10 {
        lemma_decimal_len(n / 10);
    }
}

proof fn lemma_zeros_value(z: Seq<char>)
    requires
        forall|i: int| 0 <= i < z.len() ==> z[i] == '0',
    ensures
        digits_value(z) == 0,
        all_digits(z),
    decreases z.len(),
{
    if z.len() > 0 {
        lemma_zeros_value(z.drop_last());
        assert(z.last() == '0');
    }
}

proof fn lemma_leading_zeros_value(z: Seq<char>, d: Seq<char>)
    requires
        forall|i: int| 0 <= i < z.len() ==> z[i] == '0',
    ensures
        digits_value(z + d) == digits_value(d),
    decreases d.len(),
{
    if d.len() == 0 {
        assert(z + d =~= z);
        lemma_zeros_value(z);
    } else {
        assert((z + d).drop_last() =~= z + d.drop_last());
        lemma_leading_zeros_value(z, d.drop_last());
    }
}

proof fn lemma_pad4(n: nat)
    requires
        n < 10000,
    ensures
        pad4(n).len() == 4,
        all_digits(pad4(n)),
        digits_value(pad4(n)) == n,
{
    lemma_decimal_len(n);
    lemma_decimal_digits(n);
    let d = decimal(n);
    let z: Seq<char> = if n < 10 {
        seq!['0', '0', '0']
    } else if n < 100 {
        seq!['0', '0']
    } else if n < 1000 {
        seq!['0']
    } else {
        Seq::empty()
    };
    assert(pad4(n) =~= z + d);
    lemma_leading_zeros_value(z, d);
    lemma_zeros_value(z);
    assert forall|i: int| 0 <= i < pad4(n).len() implies #[trigger] is_digit(pad4(n)[i]) by {
        if i < z.len() {
            assert(is_digit(z[i]));
        } else {
            assert(pad4(n)[i] == d[i - z.len()]);
        }
    }
}

proof fn lemma_two_digits(n: int)
    requires
        0 <= n < 100,
    ensures
        two_digits(n).len() == 2,
        all_digits(two_digits(n)),
        digits_value(two_digits(n)) == n,
{
    let t = two_digits(n);
    assert(t.drop_last() =~= seq![digit_char(n / 10)]);
    assert(t.drop_last().drop_last() =~= Seq::<char>::empty());
    assert(digit_value(digit_char(n / 10)) == n / 10);
    assert(digit_value(digit_char(n % 10)) == n % 10);
    assert(is_digit(t[0]) && is_digit(t[1]));
    assert(digits_value(t.drop_last()) == digits_value(t.drop_last().drop_last()) * 10 + digit_value(
        t.drop_last().last(),
    ));
    assert(digits_value(t.drop_last()) == n / 10);
    assert(digits_value(t) == digits_value(t.drop_last()) * 10 + digit_value(t.last()));
}

/// A date of the years 0 to 9999 is written in the ISO form `YYYY-MM-DD`: ten characters,
/// dashes at 4 and 7, and digits that read back as its year, month and day.
pub proof fn law_iso_date_text(date: (int, int, int))
    requires
        valid_ymd(date.0, date.1, date.2),
        0 <= date.0 <= 9999,
    ensures
        ymd_text(date).len() == 10,
        ymd_text(date)[4] == '-',
        ymd_text(date)[7] == '-',
        all_digits(ymd_text(date).subrange(0, 4)),
        digits_value(ymd_text(date).subrange(0, 4)) == date.0,
        all_digits(ymd_text(date).subrange(5, 7)),
        digits_value(ymd_text(date).subrange(5, 7)) == date.1,
        all_digits(ymd_text(date).subrange(8, 10)),
        digits_value(ymd_text(date).subrange(8, 10)) == date.2,
{
    let t = ymd_text(date);
    lemma_pad4(date.0 as nat);
    lemma_two_digits(date.1);
    lemma_two_digits(date.2);
    assert(t.subrange(0, 4) =~= pad4(date.0 as nat));
    assert(t.subrange(5, 7) =~= two_digits(date.1));
    assert(t.subrange(8, 10) =~= two_digits(date.2));
}


/// Whether `t` is chrono's `"%Y-%m-%d"` text of a valid date.
pub open spec fn is_date_text(t: Seq<char>) -> bool {
    exists|d: (int, int, int)| valid_ymd(d.0, d.1, d.2) && t == #[trigger] ymd_text(d)
}

/// `n` (below 1000) in three digits, as chrono's `%.3f` writes the milliseconds.
pub open spec fn three_digits(n: int) -> Seq<char> {
    seq![digit_char(n / 100), digit_char((n / 10) % 10), digit_char(n % 10)]
}

/// The text that chrono's `"%Y-%m-%dT%H:%M:%S%.3f%:z"` writes for the date `d`, the time
/// `clock` (hour, minute, second, millisecond) and the offset `offset` (sign, hours, minutes).
pub open spec fn timestamp_text(
    d: (int, int, int),
    clock: (int, int, int, int),
    offset: (char, int, int),
) -> Seq<char> {
    ymd_text(d) + seq!['T'] + two_digits(clock.0) + seq![':'] + two_digits(clock.1) + seq![':']
        + two_digits(clock.2) + seq!['.'] + three_digits(clock.3) + seq![offset.0] + two_digits(
        offset.1,
    ) + seq![':'] + two_digits(offset.2)
}

/// Whether `t` is such a timestamp: a valid date, an hour below 24, a minute below 60, a
/// second up to 60 (a leap second), a millisecond below 1000, and an offset of a sign, at most
/// 24 hours and a minute below 60.
pub open spec fn is_timestamp_text(t: Seq<char>) -> bool {
    exists|d: (int, int, int), clock: (int, int, int, int), offset: (char, int, int)|
        {
            &&& valid_ymd(d.0, d.1, d.2)
            &&& 0 <= clock.0 < 24
            &&& 0 <= clock.1 < 60
            &&& 0 <= clock.2 <= 60
            &&& 0 <= clock.3 < 1000
            &&& (offset.0 == '+' || offset.0 == '-')
            &&& 0 <= offset.1 <= 24
            &&& 0 <= offset.2 < 60
            &&& t == #[trigger] timestamp_text(d, clock, offset)
        }
}

} // verus!
