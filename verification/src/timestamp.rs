//! Calendar time of a task's creation, to the second.
//!
//! A [`Timestamp`] holds the fields of a date and time of day as plain
//! numbers. Reading the clock, and turning a timestamp into text and back,
//! is chrono's work. The text that chrono writes is spelled out here, so
//! that the rest of the library can say exactly what it stores and shows.
//! What chrono reads from a text is given a name, of which one thing is
//! said: a text that was written for a moment reads back as its second.

use crate::text::digit_char;
use crate::text::lemma_leading_zeros_value;
use crate::text::lemma_natural_text_value;
use crate::text::natural_text;
use crate::text::repeated;
use crate::text::text_value;
use chrono::Datelike;
use chrono::Timelike;
use vstd::prelude::*;

verus! {

/// The format in which a creation time is written into the store and read
/// back from it: `YYYY-MM-DD HH:MM:SS`.
pub const STORED_FORMAT: &'static str = "%Y-%m-%d %H:%M:%S";

/// The earliest year a timestamp can fall in.
pub const MIN_YEAR: i32 = -262143;

/// The latest year a timestamp can fall in.
pub const MAX_YEAR: i32 = 262142;

/// The fields of a date and time of day, as mathematical integers.
pub struct Moment {
    pub year: int,
    pub month: int,
    pub day: int,
    pub hour: int,
    pub minute: int,
    pub second: int,
    pub nanosecond: int,
}

/// Whether `year` has a 29th of February in the proleptic Gregorian calendar.
pub open spec fn is_leap_year(year: int) -> bool {
    year % 4 == 0 && (year % 100 != 0 || year % 400 == 0)
}

/// The number of days of `month` in `year`.
pub open spec fn days_in_month(year: int, month: int) -> int {
    if month == 2 {
        if is_leap_year(year) {
            29
        } else {
            28
        }
    } else if month == 4 || month == 6 || month == 9 || month == 11 {
        30
    } else {
        31
    }
}

/// Whether the fields name a day that exists and a time of day on it.
///
/// A leap second is written as second 59 with a nanosecond count of one
/// billion or more; no other second may carry such a count.
pub open spec fn valid_moment(moment: Moment) -> bool {
    &&& MIN_YEAR <= moment.year <= MAX_YEAR
    &&& 1 <= moment.month <= 12
    &&& 1 <= moment.day <= days_in_month(moment.year, moment.month)
    &&& 0 <= moment.hour < 24
    &&& 0 <= moment.minute < 60
    &&& 0 <= moment.second < 60
    &&& 0 <= moment.nanosecond < 2_000_000_000
    &&& moment.nanosecond >= 1_000_000_000 ==> moment.second == 59
}

/// What chrono's `NaiveDateTime::parse_from_str` makes of `text` under
/// `format`: the moment it reads, or `None` where it reports an error.
pub uninterp spec fn parsed_datetime(text: Seq<char>, format: Seq<char>) -> Option<Moment>;

/// A moment cut to the whole second: the fraction of the second is dropped,
/// and a leap second stays one.
pub open spec fn whole_second(moment: Moment) -> Moment {
    Moment {
        year: moment.year,
        month: moment.month,
        day: moment.day,
        hour: moment.hour,
        minute: moment.minute,
        second: moment.second,
        nanosecond: if moment.nanosecond >= 1_000_000_000 {
            1_000_000_000
        } else {
            0
        },
    }
}

/// Whether `read` is what the stored text of a moment has to read back as:
/// where `text` is the stored text of a moment that exists, `read` is that
/// moment, cut to the whole second. Of any other text this says nothing.
pub open spec fn reads_back(text: Seq<char>, read: Option<Moment>) -> bool {
    forall|moment: Moment|
        valid_moment(moment) && text == #[trigger] stored_text(moment) ==> read == Some(
            whole_second(moment),
        )
}

/// Whether `c` is one of the ten decimal digits.
pub open spec fn is_decimal_digit(c: char) -> bool {
    '0' <= c <= '9'
}

/// Whether every character of `text` is a decimal digit.
pub open spec fn all_decimal_digits(text: Seq<char>) -> bool {
    forall|i: int| 0 <= i < text.len() ==> is_decimal_digit(#[trigger] text[i])
}

/// Whether `text` has the shape `YYYY-MM-DD HH:MM:SS`: nineteen characters,
/// all of them digits but the two dashes, the space and the two colons.
pub open spec fn has_stored_shape(text: Seq<char>) -> bool {
    &&& text.len() == 19
    &&& text[4] == '-'
    &&& text[7] == '-'
    &&& text[10] == ' '
    &&& text[13] == ':'
    &&& text[16] == ':'
    &&& forall|i: int|
        0 <= i < 19 && i != 4 && i != 7 && i != 10 && i != 13 && i != 16 ==> is_decimal_digit(
            #[trigger] text[i],
        )
}

/// `number` in decimal, with zeros put in front where it has fewer than
/// `width` digits.
pub open spec fn zero_padded(number: nat, width: nat) -> Seq<char> {
    let digits = natural_text(number);
    if digits.len() >= width {
        digits
    } else {
        repeated(seq!['0'], (width - digits.len()) as nat) + digits
    }
}

/// The year as it is written: in four digits from year 0 to year 9999; with
/// a sign in front and in at least four digits before and after.
pub open spec fn year_text(year: int) -> Seq<char> {
    if year < 0 {
        seq!['-'] + zero_padded((-year) as nat, 4)
    } else if year > 9999 {
        seq!['+'] + zero_padded(year as nat, 4)
    } else {
        zero_padded(year as nat, 4)
    }
}

/// A moment in the stored format, `YYYY-MM-DD HH:MM:SS`: every field but
/// the year in two digits, a leap second as second 60, and nothing of the
/// fraction of a second.
pub open spec fn stored_text(moment: Moment) -> Seq<char> {
    year_text(moment.year) + seq!['-'] + zero_padded(moment.month as nat, 2) + seq!['-']
        + zero_padded(moment.day as nat, 2) + seq![' '] + zero_padded(moment.hour as nat, 2)
        + seq![':'] + zero_padded(moment.minute as nat, 2) + seq![':'] + zero_padded(
        (moment.second + moment.nanosecond / 1_000_000_000) as nat,
        2,
    )
}

/// The fraction of a second as it is shown: nothing for a whole second,
/// else a dot and the milliseconds in three digits, the microseconds in
/// six, or the nanoseconds in nine, whichever is the shortest that is
/// exact.
pub open spec fn fraction_text(nanosecond: int) -> Seq<char> {
    let fraction = nanosecond % 1_000_000_000;
    if fraction == 0 {
        Seq::empty()
    } else if fraction % 1_000_000 == 0 {
        seq!['.'] + zero_padded((fraction / 1_000_000) as nat, 3)
    } else if fraction % 1_000 == 0 {
        seq!['.'] + zero_padded((fraction / 1_000) as nat, 6)
    } else {
        seq!['.'] + zero_padded(fraction as nat, 9)
    }
}

/// A moment as it is shown to the user: in the stored format, followed by
/// the fraction of the second where there is one.
pub open spec fn display_text(moment: Moment) -> Seq<char> {
    stored_text(moment) + fraction_text(moment.nanosecond)
}

/// A number below a hundred is written in two digits: the tens, then the
/// ones.
proof fn lemma_two_digits(number: nat)
    requires
        number < 100,
    ensures
        zero_padded(number, 2) == seq![
            digit_char(number as int / 10),
            digit_char(number as int % 10),
        ],
        zero_padded(number, 2).len() == 2,
        all_decimal_digits(zero_padded(number, 2)),
{
    reveal_with_fuel(natural_text, 2);
    reveal_with_fuel(repeated, 2);
}

/// A number below ten thousand is written in four digits.
proof fn lemma_four_digits(number: nat)
    requires
        number < 10000,
    ensures
        zero_padded(number, 4) == seq![
            digit_char(number as int / 1000),
            digit_char(number as int / 100 % 10),
            digit_char(number as int / 10 % 10),
            digit_char(number as int % 10),
        ],
        zero_padded(number, 4).len() == 4,
        all_decimal_digits(zero_padded(number, 4)),
{
    reveal_with_fuel(natural_text, 4);
    reveal_with_fuel(repeated, 4);
}

/// Six runs of digits, of four characters and five times two, joined by two
/// dashes, a space and two colons, make nineteen characters with the
/// separators in their places and digits everywhere else.
proof fn lemma_shape_of_fields(
    year: Seq<char>,
    month: Seq<char>,
    day: Seq<char>,
    hour: Seq<char>,
    minute: Seq<char>,
    second: Seq<char>,
)
    requires
        year.len() == 4,
        month.len() == 2,
        day.len() == 2,
        hour.len() == 2,
        minute.len() == 2,
        second.len() == 2,
        all_decimal_digits(year),
        all_decimal_digits(month),
        all_decimal_digits(day),
        all_decimal_digits(hour),
        all_decimal_digits(minute),
        all_decimal_digits(second),
    ensures
        has_stored_shape(
            year + seq!['-'] + month + seq!['-'] + day + seq![' '] + hour + seq![':'] + minute
                + seq![':'] + second,
        ),
{
    let text = year + seq!['-'] + month + seq!['-'] + day + seq![' '] + hour + seq![':'] + minute
        + seq![':'] + second;
    assert(text.len() == 19);
}

/// From year 0 to year 9999 the stored text of a moment has the shape
/// `YYYY-MM-DD HH:MM:SS`.
pub proof fn lemma_stored_text_shape(moment: Moment)
    requires
        valid_moment(moment),
        0 <= moment.year <= 9999,
    ensures
        has_stored_shape(stored_text(moment)),
{
    let second = (moment.second + moment.nanosecond / 1_000_000_000) as nat;
    lemma_four_digits(moment.year as nat);
    lemma_two_digits(moment.month as nat);
    lemma_two_digits(moment.day as nat);
    lemma_two_digits(moment.hour as nat);
    lemma_two_digits(moment.minute as nat);
    lemma_two_digits(second);
    lemma_shape_of_fields(
        zero_padded(moment.year as nat, 4),
        zero_padded(moment.month as nat, 2),
        zero_padded(moment.day as nat, 2),
        zero_padded(moment.hour as nat, 2),
        zero_padded(moment.minute as nat, 2),
        zero_padded(second, 2),
    );
}

/// A zero-padded number spells that number.
proof fn lemma_zero_padded_value(number: nat, width: nat)
    ensures
        text_value(zero_padded(number, width)) == number,
{
    lemma_natural_text_value(number);
    let digits = natural_text(number);
    if digits.len() < width {
        lemma_leading_zeros_value((width - digits.len()) as nat, digits);
    }
}

/// The decimal notation of a number is made of digits, at least one.
proof fn lemma_natural_text_digits(number: nat)
    ensures
        natural_text(number).len() >= 1,
        all_decimal_digits(natural_text(number)),
    decreases number,
{
    assert(forall|digit: int| is_decimal_digit(#[trigger] digit_char(digit)));
    if number >= 10 {
        lemma_natural_text_digits(number / 10);
    }
}

/// A run of zeros is made of digits, as many as it has zeros.
proof fn lemma_zeros_digits(count: nat)
    ensures
        repeated(seq!['0'], count).len() == count,
        all_decimal_digits(repeated(seq!['0'], count)),
    decreases count,
{
    if count > 0 {
        lemma_zeros_digits((count - 1) as nat);
    }
}

/// A zero-padded number is made of digits, at least as many as its width.
proof fn lemma_zero_padded_digits(number: nat, width: nat)
    ensures
        zero_padded(number, width).len() >= width,
        zero_padded(number, width).len() >= 1,
        all_decimal_digits(zero_padded(number, width)),
{
    lemma_natural_text_digits(number);
    let digits = natural_text(number);
    if digits.len() < width {
        lemma_zeros_digits((width - digits.len()) as nat);
    }
}

/// Two numbers with the same zero-padded notation are the same number.
proof fn lemma_zero_padded_tells_numbers_apart(first: nat, second: nat, width: nat)
    requires
        zero_padded(first, width) == zero_padded(second, width),
    ensures
        first == second,
{
    lemma_zero_padded_value(first, width);
    lemma_zero_padded_value(second, width);
}

/// The year without its sign.
spec fn year_magnitude(year: int) -> nat {
    if year < 0 {
        (-year) as nat
    } else {
        year as nat
    }
}

/// Two years that are written alike are the same year.
proof fn lemma_year_text_tells_years_apart(first: int, second: int)
    requires
        year_text(first) == year_text(second),
    ensures
        first == second,
{
    let one = zero_padded(year_magnitude(first), 4);
    let other = zero_padded(year_magnitude(second), 4);
    lemma_zero_padded_digits(year_magnitude(first), 4);
    lemma_zero_padded_digits(year_magnitude(second), 4);
    assert(is_decimal_digit(one[0]));
    assert(is_decimal_digit(other[0]));
    assert(year_text(first)[0] == if first < 0 {
        '-'
    } else if first > 9999 {
        '+'
    } else {
        one[0]
    });
    assert(year_text(second)[0] == if second < 0 {
        '-'
    } else if second > 9999 {
        '+'
    } else {
        other[0]
    });
    if first < 0 || first > 9999 {
        assert(year_text(first).subrange(1, year_text(first).len() as int) =~= one);
        assert(year_text(second).subrange(1, year_text(second).len() as int) =~= other);
    }
    assert(one == other);
    lemma_zero_padded_tells_numbers_apart(year_magnitude(first), year_magnitude(second), 4);
}

/// What follows the year in the stored text of a moment.
spec fn after_year_text(moment: Moment) -> Seq<char> {
    seq!['-'] + zero_padded(moment.month as nat, 2) + seq!['-'] + zero_padded(moment.day as nat, 2)
        + seq![' '] + zero_padded(moment.hour as nat, 2) + seq![':'] + zero_padded(
        moment.minute as nat,
        2,
    ) + seq![':'] + zero_padded((moment.second + moment.nanosecond / 1_000_000_000) as nat, 2)
}

/// The stored text of a moment is its year followed by fifteen characters,
/// in which every field has its fixed place.
proof fn lemma_fields_of_stored_text(moment: Moment)
    requires
        valid_moment(moment),
    ensures
        stored_text(moment) == year_text(moment.year) + after_year_text(moment),
        after_year_text(moment).len() == 15,
        after_year_text(moment).subrange(1, 3) == zero_padded(moment.month as nat, 2),
        after_year_text(moment).subrange(4, 6) == zero_padded(moment.day as nat, 2),
        after_year_text(moment).subrange(7, 9) == zero_padded(moment.hour as nat, 2),
        after_year_text(moment).subrange(10, 12) == zero_padded(moment.minute as nat, 2),
        after_year_text(moment).subrange(13, 15) == zero_padded(
            (moment.second + moment.nanosecond / 1_000_000_000) as nat,
            2,
        ),
{
    let second = (moment.second + moment.nanosecond / 1_000_000_000) as nat;
    lemma_two_digits(moment.month as nat);
    lemma_two_digits(moment.day as nat);
    lemma_two_digits(moment.hour as nat);
    lemma_two_digits(moment.minute as nat);
    lemma_two_digits(second);
    let rest = after_year_text(moment);
    assert(rest.len() == 15);
    assert(stored_text(moment) =~= year_text(moment.year) + rest);
    assert(rest.subrange(1, 3) =~= zero_padded(moment.month as nat, 2));
    assert(rest.subrange(4, 6) =~= zero_padded(moment.day as nat, 2));
    assert(rest.subrange(7, 9) =~= zero_padded(moment.hour as nat, 2));
    assert(rest.subrange(10, 12) =~= zero_padded(moment.minute as nat, 2));
    assert(rest.subrange(13, 15) =~= zero_padded(second, 2));
}

/// The stored text tells seconds apart: two moments that are written alike
/// are the same moment, up to the fraction of the second. So no text is
/// asked to read back as two different seconds.
pub proof fn lemma_stored_text_tells_seconds_apart(first: Moment, second: Moment)
    requires
        valid_moment(first),
        valid_moment(second),
        stored_text(first) == stored_text(second),
    ensures
        whole_second(first) == whole_second(second),
{
    lemma_fields_of_stored_text(first);
    lemma_fields_of_stored_text(second);
    let one_year = year_text(first.year);
    let other_year = year_text(second.year);
    let one_rest = after_year_text(first);
    let other_rest = after_year_text(second);
    let text = stored_text(first);
    assert(text == one_year + one_rest);
    assert(text == other_year + other_rest);
    assert(text.len() == one_year.len() + 15);
    assert(text.len() == other_year.len() + 15);
    assert(one_year =~= text.subrange(0, one_year.len() as int));
    assert(other_year =~= text.subrange(0, one_year.len() as int));
    assert(one_rest =~= text.subrange(one_year.len() as int, text.len() as int));
    assert(other_rest =~= text.subrange(one_year.len() as int, text.len() as int));
    lemma_year_text_tells_years_apart(first.year, second.year);
    lemma_zero_padded_tells_numbers_apart(first.month as nat, second.month as nat, 2);
    lemma_zero_padded_tells_numbers_apart(first.day as nat, second.day as nat, 2);
    lemma_zero_padded_tells_numbers_apart(first.hour as nat, second.hour as nat, 2);
    lemma_zero_padded_tells_numbers_apart(first.minute as nat, second.minute as nat, 2);
    lemma_zero_padded_tells_numbers_apart(
        (first.second + first.nanosecond / 1_000_000_000) as nat,
        (second.second + second.nanosecond / 1_000_000_000) as nat,
        2,
    );
}

/// A date and time of day without a time zone. Every value names a day that
/// exists.
#[derive(Clone, Copy, Debug, PartialEq, Eq)]
pub struct Timestamp {
    year: i32,
    month: u32,
    day: u32,
    hour: u32,
    minute: u32,
    second: u32,
    nanosecond: u32,
}

impl View for Timestamp {
    type V = Moment;

    closed spec fn view(&self) -> Moment {
        Moment {
            year: self.year as int,
            month: self.month as int,
            day: self.day as int,
            hour: self.hour as int,
            minute: self.minute as int,
            second: self.second as int,
            nanosecond: self.nanosecond as int,
        }
    }
}

/// Reads the local wall-clock time through chrono's `Local::now` and
/// `DateTime::naive_local`.
///
/// Nothing is claimed of the time itself: two calls may differ. The fields
/// are those that chrono's accessors report, and the one claim is that they
/// name a day that exists, since chrono constructs no other. Chrono panics
/// where the machine's clock stands before 1970 and where it cannot use the
/// machine's table of time zones.
#[verifier::external_body]
fn clock_now() -> (now: Timestamp)
    ensures
        now.well_formed(),
{
    let now = chrono::Local::now().naive_local();
    Timestamp {
        year: now.year(),
        month: now.month(),
        day: now.day(),
        hour: now.hour(),
        minute: now.minute(),
        second: now.second(),
        nanosecond: now.nanosecond(),
    }
}

/// Parses `text` with chrono's `NaiveDateTime::parse_from_str`.
///
/// The result is named, not described: chrono's reading of a format is
/// lenient in ways that take pages to state. The claims are that the same
/// text and format always give the same result, that a moment which chrono
/// returns is a day that exists, and that chrono reads what it writes: in
/// the stored format, the stored text of a moment reads back as that
/// moment without its fraction of a second. There chrono finds the year
/// with its sign, each other field in its two digits, and second 60 as a
/// leap second.
#[verifier::external_body]
fn parse_datetime(text: &str, format: &str) -> (stamp: Option<Timestamp>)
    ensures
        moment_of(stamp) == parsed_datetime(text@, format@),
        stamp matches Some(read) ==> read.well_formed(),
        format@ == STORED_FORMAT@ ==> reads_back(text@, moment_of(stamp)),
{
    let moment = chrono::NaiveDateTime::parse_from_str(text, format).ok()?;
    Some(
        Timestamp {
            year: moment.year(),
            month: moment.month(),
            day: moment.day(),
            hour: moment.hour(),
            minute: moment.minute(),
            second: moment.second(),
            nanosecond: moment.nanosecond(),
        },
    )
}

/// Writes `stamp` with chrono's `NaiveDateTime::format`.
///
/// Chrono fails on a format it does not know, so only the stored format is
/// admitted, which it knows; and it builds a date only from a day that
/// exists, which `NaiveDate::from_ymd_opt` and `NaiveDate::and_hms_nano_opt`
/// then accept. The claim is what chrono documents of `%Y`, `%m`, `%d`, `%H`,
/// `%M` and `%S`: zero-padded numbers, the year signed outside 0 to 9999, a
/// leap second written as 60.
#[verifier::external_body]
fn format_datetime(stamp: &Timestamp, format: &str) -> (text: String)
    requires
        stamp.well_formed(),
        format@ == STORED_FORMAT@,
    ensures
        text@ == stored_text(stamp@),
{
    let date = chrono::NaiveDate::from_ymd_opt(stamp.year, stamp.month, stamp.day).unwrap();
    let time = date.and_hms_nano_opt(stamp.hour, stamp.minute, stamp.second, stamp.nanosecond);
    time.unwrap().format(format).to_string()
}

/// Writes `stamp` as chrono's `Display` for `NaiveDateTime` does.
///
/// The date is built as in [`format_datetime`], from a day that exists. The
/// claim is what chrono documents of this `Display`: the date and the time
/// as in the stored format, then the fraction of the second, if any, in
/// three, six or nine digits.
#[verifier::external_body]
fn display_datetime(stamp: &Timestamp) -> (text: String)
    requires
        stamp.well_formed(),
    ensures
        text@ == display_text(stamp@),
{
    let date = chrono::NaiveDate::from_ymd_opt(stamp.year, stamp.month, stamp.day).unwrap();
    let time = date.and_hms_nano_opt(stamp.hour, stamp.minute, stamp.second, stamp.nanosecond);
    time.unwrap().to_string()
}

/// The moment of a timestamp that may be absent.
pub open spec fn moment_of(stamp: Option<Timestamp>) -> Option<Moment> {
    match stamp {
        Some(stamp) => Some(stamp@),
        None => None,
    }
}

fn leap_year(year: i32) -> (leap: bool)
    requires
        MIN_YEAR <= year <= MAX_YEAR,
    ensures
        leap == is_leap_year(year as int),
{
    // 262400 is a multiple of 400, so the shift keeps every remainder.
    let shifted: i32 = year + 262400;
    shifted % 4 == 0 && (shifted % 100 != 0 || shifted % 400 == 0)
}

fn month_length(year: i32, month: u32) -> (days: u32)
    requires
        MIN_YEAR <= year <= MAX_YEAR,
    ensures
        days == days_in_month(year as int, month as int),
{
    if month == 2 {
        if leap_year(year) {
            29
        } else {
            28
        }
    } else if month == 4 || month == 6 || month == 9 || month == 11 {
        30
    } else {
        31
    }
}

impl Timestamp {
    /// The invariant of the type: the fields name a day that exists and a
    /// time of day on it.
    #[verifier::type_invariant]
    pub open spec fn well_formed(self) -> bool {
        valid_moment(self@)
    }

    /// The timestamp with the given fields and no fraction of a second, or
    /// `None` where there is no such day or time of day.
    pub fn new(year: i32, month: u32, day: u32, hour: u32, minute: u32, second: u32) -> (stamp:
        Option<Timestamp>)
        ensures
            moment_of(stamp) == if valid_moment(
                Moment {
                    year: year as int,
                    month: month as int,
                    day: day as int,
                    hour: hour as int,
                    minute: minute as int,
                    second: second as int,
                    nanosecond: 0,
                },
            ) {
                Some(
                    Moment {
                        year: year as int,
                        month: month as int,
                        day: day as int,
                        hour: hour as int,
                        minute: minute as int,
                        second: second as int,
                        nanosecond: 0,
                    },
                )
            } else {
                None
            },
    {
        if year < MIN_YEAR || year > MAX_YEAR || month < 1 || month > 12 {
            return None;
        }
        if day < 1 || day > month_length(year, month) {
            return None;
        }
        if hour >= 24 || minute >= 60 || second >= 60 {
            return None;
        }
        Some(Timestamp { year, month, day, hour, minute, second, nanosecond: 0 })
    }

    /// This timestamp with `nanosecond` as its count of nanoseconds, or
    /// `None` where the count is two billion or more, or is a billion or
    /// more in a second other than 59.
    pub fn with_nanosecond(&self, nanosecond: u32) -> (stamp: Option<Timestamp>)
        ensures
            moment_of(stamp) == if nanosecond < 1_000_000_000 || (nanosecond < 2_000_000_000
                && self@.second == 59) {
                Some(
                    Moment {
                        year: self@.year,
                        month: self@.month,
                        day: self@.day,
                        hour: self@.hour,
                        minute: self@.minute,
                        second: self@.second,
                        nanosecond: nanosecond as int,
                    },
                )
            } else {
                None
            },
    {
        proof {
            use_type_invariant(self);
        }
        if nanosecond >= 2_000_000_000 || (nanosecond >= 1_000_000_000 && self.second != 59) {
            return None;
        }
        Some(
            Timestamp {
                year: self.year,
                month: self.month,
                day: self.day,
                hour: self.hour,
                minute: self.minute,
                second: self.second,
                nanosecond,
            },
        )
    }

    /// The local wall-clock time at the moment of the call.
    ///
    /// # Panics
    ///
    /// The clock is read by chrono, which panics where the machine's clock
    /// stands before 1970 and where it cannot use the machine's table of
    /// time zones.
    pub fn now() -> (now: Timestamp)
        ensures
            now.well_formed(),
    {
        clock_now()
    }

    /// Reads a timestamp from text in the stored format. `None` means that
    /// chrono does not accept the text. What [`Timestamp::to_stored_text`]
    /// writes is accepted, and reads back as the same second.
    pub fn parse(text: &str) -> (stamp: Option<Timestamp>)
        ensures
            moment_of(stamp) == parsed_datetime(text@, STORED_FORMAT@),
            reads_back(text@, moment_of(stamp)),
    {
        parse_datetime(text, STORED_FORMAT)
    }

    /// The text that is written into the store for this timestamp.
    pub fn to_stored_text(&self) -> (text: String)
        ensures
            text@ == stored_text(self@),
    {
        proof {
            use_type_invariant(self);
        }
        format_datetime(self, STORED_FORMAT)
    }

    /// The text that is shown to the user for this timestamp.
    pub fn to_display_text(&self) -> (text: String)
        ensures
            text@ == display_text(self@),
    {
        proof {
            use_type_invariant(self);
        }
        display_datetime(self)
    }

    /// The year, in the proleptic Gregorian calendar; the year before year 1 is year 0.
    pub fn year(&self) -> (year: i32)
        ensures
            year == self@.year,
    {
        self.year
    }

    /// The month of the year, from 1 to 12.
    pub fn month(&self) -> (month: u32)
        ensures
            month == self@.month,
    {
        self.month
    }

    /// The day of the month, from 1.
    pub fn day(&self) -> (day: u32)
        ensures
            day == self@.day,
    {
        self.day
    }

    /// The hour of the day, from 0 to 23.
    pub fn hour(&self) -> (hour: u32)
        ensures
            hour == self@.hour,
    {
        self.hour
    }

    /// The minute of the hour, from 0 to 59.
    pub fn minute(&self) -> (minute: u32)
        ensures
            minute == self@.minute,
    {
        self.minute
    }

    /// The second of the minute, from 0 to 59.
    pub fn second(&self) -> (second: u32)
        ensures
            second == self@.second,
    {
        self.second
    }

    /// The nanoseconds since the start of the second; a billion or more during a leap second.
    pub fn nanosecond(&self) -> (nanosecond: u32)
        ensures
            nanosecond == self@.nanosecond,
    {
        self.nanosecond
    }
}

} // verus!
