//! Building the text that is shown to the user: decimal numbers, repeated
//! units and left-aligned columns.

use vstd::prelude::*;
use vstd::string::StrSliceExecFns;
use vstd::string::StringExecFns;

verus! {

/// The character that writes the decimal digit `digit`.
pub open spec fn digit_char(digit: int) -> char {
    if digit == 0 {
        '0'
    } else if digit == 1 {
        '1'
    } else if digit == 2 {
        '2'
    } else if digit == 3 {
        '3'
    } else if digit == 4 {
        '4'
    } else if digit == 5 {
        '5'
    } else if digit == 6 {
        '6'
    } else if digit == 7 {
        '7'
    } else if digit == 8 {
        '8'
    } else {
        '9'
    }
}

/// The decimal notation of a natural number, without leading zeros.
pub open spec fn natural_text(number: nat) -> Seq<char>
    decreases number,
{
    if number < 10 {
        seq![digit_char(number as int)]
    } else {
        natural_text(number / 10).push(digit_char((number % 10) as int))
    }
}

/// The decimal notation of an integer: a minus sign for a negative number,
/// then its magnitude.
pub open spec fn integer_text(number: int) -> Seq<char> {
    if number < 0 {
        seq!['-'] + natural_text((-number) as nat)
    } else {
        natural_text(number as nat)
    }
}

/// The number that a decimal digit stands for; zero for any other
/// character.
pub open spec fn digit_value(c: char) -> nat {
    if c == '1' {
        1
    } else if c == '2' {
        2
    } else if c == '3' {
        3
    } else if c == '4' {
        4
    } else if c == '5' {
        5
    } else if c == '6' {
        6
    } else if c == '7' {
        7
    } else if c == '8' {
        8
    } else if c == '9' {
        9
    } else {
        0
    }
}

/// The number that a text of decimal digits spells, leading zeros and all.
pub open spec fn text_value(text: Seq<char>) -> nat
    decreases text.len(),
{
    if text.len() == 0 {
        0
    } else {
        text_value(text.drop_last()) * 10 + digit_value(text.last())
    }
}

/// `unit` written `count` times in a row.
pub open spec fn repeated(unit: Seq<char>, count: nat) -> Seq<char>
    decreases count,
{
    if count == 0 {
        Seq::empty()
    } else {
        repeated(unit, (count - 1) as nat) + unit
    }
}

/// `text` followed by as many spaces as it takes to fill `width` characters;
/// a text that is already that wide is left alone.
pub open spec fn padded(text: Seq<char>, width: nat) -> Seq<char> {
    if text.len() >= width {
        text
    } else {
        text + repeated(seq![' '], (width - text.len()) as nat)
    }
}

/// The decimal notation of a number spells that number.
pub proof fn lemma_natural_text_value(number: nat)
    ensures
        text_value(natural_text(number)) == number,
    decreases number,
{
    if number < 10 {
        let text = natural_text(number);
        assert(text.drop_last() =~= Seq::<char>::empty());
        assert(text_value(text.drop_last()) == 0);
        assert(text.last() == digit_char(number as int));
    } else {
        lemma_natural_text_value(number / 10);
        let text = natural_text(number);
        assert(text.drop_last() =~= natural_text(number / 10));
        assert(text.last() == digit_char((number % 10) as int));
    }
}

/// Zeros in front of a text do not change the number it spells.
pub proof fn lemma_leading_zeros_value(count: nat, text: Seq<char>)
    ensures
        text_value(repeated(seq!['0'], count) + text) == text_value(text),
    decreases text.len(), count,
{
    let zeros = repeated(seq!['0'], count);
    if text.len() > 0 {
        assert((zeros + text).drop_last() =~= zeros + text.drop_last());
        assert((zeros + text).last() == text.last());
        lemma_leading_zeros_value(count, text.drop_last());
    } else if count > 0 {
        let fewer = repeated(seq!['0'], (count - 1) as nat);
        assert(zeros + text =~= zeros);
        assert(zeros.drop_last() =~= fewer);
        assert(zeros.last() == '0');
        lemma_leading_zeros_value((count - 1) as nat, text);
        assert(fewer + text =~= fewer);
    } else {
        assert(zeros + text =~= text);
    }
}

fn digit_text(digit: u64) -> (text: &'static str)
    requires
        digit < 10,
    ensures
        text@ == seq![digit_char(digit as int)],
{
    proof {
        reveal_strlit("0");
        reveal_strlit("1");
        reveal_strlit("2");
        reveal_strlit("3");
        reveal_strlit("4");
        reveal_strlit("5");
        reveal_strlit("6");
        reveal_strlit("7");
        reveal_strlit("8");
        reveal_strlit("9");
    }
    if digit == 0 {
        "0"
    } else if digit == 1 {
        "1"
    } else if digit == 2 {
        "2"
    } else if digit == 3 {
        "3"
    } else if digit == 4 {
        "4"
    } else if digit == 5 {
        "5"
    } else if digit == 6 {
        "6"
    } else if digit == 7 {
        "7"
    } else if digit == 8 {
        "8"
    } else {
        "9"
    }
}

/// Writes a natural number in decimal.
pub fn natural_to_text(number: u64) -> (text: String)
    ensures
        text@ == natural_text(number as nat),
    decreases number,
{
    if number < 10 {
        String::from_str(digit_text(number))
    } else {
        let mut text = natural_to_text(number / 10);
        text.append(digit_text(number % 10));
        text
    }
}

/// Writes an integer in decimal, as `{}` shows an `i64`.
pub fn integer_to_text(number: i64) -> (text: String)
    ensures
        text@ == integer_text(number as int),
{
    if number < 0 {
        let magnitude: u64 = ((-(number + 1)) as u64) + 1;
        let digits = natural_to_text(magnitude);
        let mut text = String::from_str("-");
        text.append(digits.as_str());
        proof {
            reveal_strlit("-");
        }
        text
    } else {
        natural_to_text(number as u64)
    }
}

/// Writes `unit` `count` times in a row.
pub fn repeat_text(unit: &str, count: usize) -> (text: String)
    ensures
        text@ == repeated(unit@, count as nat),
{
    let mut text = String::new();
    let mut written: usize = 0;
    while written < count
        invariant
            written <= count,
            text@ == repeated(unit@, written as nat),
        decreases count - written,
    {
        text.append(unit);
        written = written + 1;
    }
    text
}

/// Left-aligns `text` in a column of `width` characters, as `{:<width$}`
/// does: shorter texts are filled up with spaces, longer ones are kept whole.
pub fn pad_right(text: &str, width: usize) -> (cell: String)
    ensures
        cell@ == padded(text@, width as nat),
{
    let length = text.unicode_len();
    let mut cell = String::from_str(text);
    if length < width {
        let filler = repeat_text(" ", width - length);
        cell.append(filler.as_str());
        proof {
            reveal_strlit(" ");
            assert(" "@ =~= seq![' ']);
        }
    }
    cell
}

} // verus!
