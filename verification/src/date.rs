//! Calendar dates and the text a date input carries.

use vstd::prelude::*;
use crate::number::{lemma_first_digit, nat_text, push_nat};
use crate::text::text_of;

verus! {

/// A day of the Gregorian calendar.
#[derive(Clone, Copy, Debug, PartialEq, Eq, Structural)]
pub struct Date {
    pub year: i32,
    pub month: u32,
    pub day: u32,
}

/// Whether the year `y` has a 29th of February.
pub open spec fn is_leap(y: int) -> bool {
    y % 4 == 0 && (y % 100 != 0 || y % 400 == 0)
}

/// How many days the month `m` of the year `y` has.
pub open spec fn days_in_month(y: int, m: int) -> int {
    if m == 2 {
        if is_leap(y) {
            29
        } else {
            28
        }
    } else if m == 4 || m == 6 || m == 9 || m == 11 {
        30
    } else {
        31
    }
}

/// `s` with zeros put before it until it is at least `width` long.
pub open spec fn zero_padded(s: Seq<char>, width: int) -> Seq<char> {
    if s.len() < width {
        Seq::new((width - s.len()) as nat, |i: int| '0') + s
    } else {
        s
    }
}

/// The text of a year: four digits, and a sign where that is not enough.
pub open spec fn year_text(y: int) -> Seq<char> {
    if y < 0 {
        seq!['-'] + zero_padded(nat_text((-y) as nat), 4)
    } else if y > 9999 {
        seq!['+'] + zero_padded(nat_text(y as nat), 4)
    } else {
        zero_padded(nat_text(y as nat), 4)
    }
}

impl Date {
    /// Whether such a day exists.
    pub open spec fn is_real(self) -> bool {
        1 <= self.month <= 12 && 1 <= self.day <= days_in_month(self.year as int, self.month as int)
    }

    /// The text of the date, as in `2024-02-29`.
    pub open spec fn text_view(self) -> Seq<char> {
        year_text(self.year as int) + seq!['-'] + zero_padded(nat_text(self.month as nat), 2)
            + seq!['-'] + zero_padded(nat_text(self.day as nat), 2)
    }

    /// The text of the date, as in `2024-02-29`.
    pub fn text(self) -> (r: String)
        ensures
            r@ == self.text_view(),
    {
        let mut out: String = String::new();
        if self.year < 0 {
            out.push('-');
            push_padded(&mut out, (-(self.year as i128)) as u128, 4);
        } else if self.year > 9999 {
            out.push('+');
            push_padded(&mut out, self.year as u128, 4);
        } else {
            push_padded(&mut out, self.year as u128, 4);
        }
        out.push('-');
        push_padded(&mut out, self.month as u128, 2);
        out.push('-');
        push_padded(&mut out, self.day as u128, 2);
        out
    }
}

/// Appends `n` to `out`, with zeros before it up to `width` digits.
fn push_padded(out: &mut String, n: u128, width: usize)
    ensures
        final(out)@ == old(out)@ + zero_padded(nat_text(n as nat), width as int),
{
    let mut digits: String = String::new();
    push_nat(&mut digits, n);
    let mut len: usize = digits.as_str().unicode_len();
    let ghost missing = width - len;
    while len < width
        invariant
            digits@ == nat_text(n as nat),
            digits@.len() <= len,
            len <= width || len == digits@.len(),
            out@ == old(out)@ + Seq::new((len - digits@.len()) as nat, |i: int| '0'),
        decreases width - len,
    {
        out.push('0');
        len = len + 1;
    }
    out.append(digits.as_str());
    assert(out@ == old(out)@ + zero_padded(nat_text(n as nat), width as int));
}

/// How a date input writes a date.
pub const DATE_PATTERN: &'static str = "%Y-%m-%d";

/// How screens show a point in time.
pub const MINUTE_PATTERN: &'static str = "%Y-%m-%d %H:%M";

/// What `chrono::NaiveDate::parse_from_str` reads in a text by a pattern: year,
/// month and day, or nothing where it reports an error.
pub uninterp spec fn date_in(s: Seq<char>, pattern: Seq<char>) -> Option<(i32, u32, u32)>;

/// The date that `s` reads as, if it reads as one.
pub open spec fn read_date_view(s: Seq<char>) -> Option<Date> {
    match date_in(s, DATE_PATTERN@) {
        Some((year, month, day)) => Some(Date { year, month, day }),
        None => None,
    }
}

/// `chrono::NaiveDate::parse_from_str`: the result depends on the text and the
/// pattern alone and is a day that exists. By the pattern `%Y-%m-%d` the text of
/// a day in the years 0 to 9999 reads as that day. Which other texts read as a
/// date is left unsaid.
#[verifier::external_body]
fn parse_date(s: &str, pattern: &str) -> (r: Option<(i32, u32, u32)>)
    ensures
        r == date_in(s@, pattern@),
        r matches Some((year, month, day)) ==> (Date { year, month, day }).is_real(),
        pattern@ == DATE_PATTERN@ ==> forall|d: Date|
            s@ == #[trigger] d.text_view() && d.is_real() && 0 <= d.year <= 9999 ==> r == Some(
                (d.year, d.month, d.day),
            ),
{
    match chrono::NaiveDate::parse_from_str(s, pattern) {
        Ok(d) => Some((
            chrono::Datelike::year(&d),
            chrono::Datelike::month(&d),
            chrono::Datelike::day(&d),
        )),
        Err(_) => None,
    }
}

/// Reads a date written as year, month and day. The text of a date reads back
/// as that date.
pub fn read_date(s: &str) -> (r: Option<Date>)
    ensures
        r == read_date_view(s@),
        r matches Some(d) ==> d.is_real(),
        forall|d: Date|
            s@ == #[trigger] d.text_view() && d.is_real() && 0 <= d.year <= 9999 ==> r == Some(d),
{
    match parse_date(s, DATE_PATTERN) {
        Some((year, month, day)) => Some(Date { year, month, day }),
        None => None,
    }
}

/// What `chrono` shows of a point in time by a pattern; nothing where the time
/// lies outside its calendar.
pub uninterp spec fn time_shown(millis: i64, pattern: Seq<char>) -> Option<Seq<char>>;

/// A point in time to the minute, as screens show it.
pub open spec fn minute_of(millis: i64) -> Option<Seq<char>> {
    time_shown(millis, MINUTE_PATTERN@)
}

/// `chrono::DateTime::from_timestamp_millis`, followed by `format` and
/// `to_string`: the result depends on the time and the pattern alone. Other
/// patterns than `%Y-%m-%d %H:%M` are left out: `to_string` panics on one that
/// chrono does not know. Which text is shown is left unsaid.
#[verifier::external_body]
fn format_time(millis: i64, pattern: &str) -> (r: Option<String>)
    requires
        pattern@ == MINUTE_PATTERN@,
    ensures
        text_of(r) == time_shown(millis, pattern@),
{
    chrono::DateTime::from_timestamp_millis(millis).map(|t| t.format(pattern).to_string())
}

/// A point in time to the minute, as screens show it.
pub fn minute_text(millis: i64) -> (r: Option<String>)
    ensures
        text_of(r) == minute_of(millis),
{
    format_time(millis, MINUTE_PATTERN)
}

/// The text of a date has no white space at either end.
pub proof fn dates_have_bare_ends(d: Date)
    ensures
        crate::text::bare(d.text_view()),
{
    let y = year_text(d.year as int);
    let n = zero_padded(nat_text(d.day as nat), 2);
    lemma_first_digit(d.day as nat);
    crate::number::numbers_have_bare_ends(d.day as int);
    let (abs, year) = if d.year < 0 {
        (-(d.year as int), zero_padded(nat_text((-(d.year as int)) as nat), 4))
    } else {
        (d.year as int, zero_padded(nat_text(d.year as nat), 4))
    };
    lemma_first_digit(abs as nat);
    assert(d.text_view().last() == n.last());
    assert(n.last() == nat_text(d.day as nat).last());
    assert(d.text_view()[0] == y[0]);
}

proof fn lemma_zero_padded(n: nat, width: int)
    requires
        width == 2 || width == 4,
        width == 2 ==> n < 100,
        width == 4 ==> n < 10000,
    ensures
        zero_padded(nat_text(n), width).len() == width,
        crate::number::read_int(zero_padded(nat_text(n), width), 0, 9999) == Some(n as int),
{
    let t = nat_text(n);
    reveal_with_fuel(nat_text, 5);
    let z = zero_padded(t, width);
    let zeros = Seq::new((width - t.len()) as nat, |i: int| '0');
    crate::number::leading_zeros_count_for_nothing(zeros, n, 9999);
    assert(z =~= zeros + t);
}

/// A date of the years 0 to 9999 is written with four digits for the year, two
/// for the month and two for the day, with hyphens between them.
pub proof fn a_date_is_written_in_ten_characters(d: Date)
    requires
        d.is_real(),
        0 <= d.year <= 9999,
    ensures
        d.text_view().len() == 10,
        d.text_view()[4] == '-' && d.text_view()[7] == '-',
        crate::number::read_int(d.text_view().subrange(0, 4), 0, 9999) == Some(d.year as int),
        crate::number::read_int(d.text_view().subrange(5, 7), 0, 9999) == Some(d.month as int),
        crate::number::read_int(d.text_view().subrange(8, 10), 0, 9999) == Some(d.day as int),
{
    lemma_zero_padded(d.year as nat, 4);
    lemma_zero_padded(d.month as nat, 2);
    lemma_zero_padded(d.day as nat, 2);
    let t = d.text_view();
    assert(t.subrange(0, 4) == zero_padded(nat_text(d.year as nat), 4));
    assert(t.subrange(5, 7) == zero_padded(nat_text(d.month as nat), 2));
    assert(t.subrange(8, 10) == zero_padded(nat_text(d.day as nat), 2));
}

} // verus!
