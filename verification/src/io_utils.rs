//! The yes-or-no question that the tracker puts to the user.
//!
//! The program prints the prompt and reads a line; what the line means,
//! and what to say when it means nothing, is decided here.

use vstd::prelude::*;
use vstd::string::StrSliceExecFns;
use vstd::string::StringExecFns;

verus! {

/// What the program got when it asked the terminal for a line.
#[derive(Debug, Clone, PartialEq, Eq)]
pub enum Reply {
    /// The line that was read, with whatever ends it.
    Line(String),
    /// Reading failed.
    Unreadable { cause: String },
}

/// Where a note to the user goes.
#[derive(Debug, Clone, Copy, PartialEq, Eq)]
pub enum Channel {
    Output,
    Error,
}

/// What the program is to do after a reply.
#[derive(Debug, Clone, PartialEq, Eq)]
pub enum PromptStep {
    /// The user has answered yes (`true`) or no (`false`).
    Answered(bool),
    /// Print the note on the channel, then show the prompt and read again.
    AskAgain { note: String, channel: Channel },
}

/// Whether `c` is white space: one of the twenty-five characters that carry
/// Unicode's `White_Space` property. They are the tab, the line feed, the
/// vertical tab, the form feed and the carriage return; the space; the next
/// line control; the no-break space; the Ogham space mark; the eleven
/// spaces from the en quad to the hair space; the line and the paragraph
/// separator; the narrow no-break space; the medium mathematical space;
/// and the ideographic space.
pub open spec fn is_whitespace_char(c: char) -> bool {
    ||| '\u{9}' <= c <= '\u{d}'
    ||| c == ' '
    ||| c == '\u{85}'
    ||| c == '\u{a0}'
    ||| c == '\u{1680}'
    ||| '\u{2000}' <= c <= '\u{200a}'
    ||| c == '\u{2028}'
    ||| c == '\u{2029}'
    ||| c == '\u{202f}'
    ||| c == '\u{205f}'
    ||| c == '\u{3000}'
}

/// `text` without the white space it starts with.
pub open spec fn trim_start(text: Seq<char>) -> Seq<char>
    decreases text.len(),
{
    if text.len() > 0 && is_whitespace_char(text[0]) {
        trim_start(text.drop_first())
    } else {
        text
    }
}

/// `text` without the white space it ends with.
pub open spec fn trim_end(text: Seq<char>) -> Seq<char>
    decreases text.len(),
{
    if text.len() > 0 && is_whitespace_char(text.last()) {
        trim_end(text.drop_last())
    } else {
        text
    }
}

/// `text` without the white space around it.
pub open spec fn trimmed(text: Seq<char>) -> Seq<char> {
    trim_end(trim_start(text))
}

/// The answer that a text without white space around it gives: yes for
/// `y`, no for `n`, in either case; none for everything else.
pub open spec fn answer_in(text: Seq<char>) -> Option<bool> {
    if text == seq!['y'] || text == seq!['Y'] {
        Some(true)
    } else if text == seq!['n'] || text == seq!['N'] {
        Some(false)
    } else {
        None
    }
}

/// The answer that a line gives: that of the line without the white space
/// around it.
pub open spec fn confirmation(line: Seq<char>) -> Option<bool> {
    answer_in(trimmed(line))
}

/// Asks `char::is_whitespace` whether `c` is white space. The standard
/// library answers by Unicode's `White_Space` property; the claim is that
/// these are the characters listed in [`is_whitespace_char`].
#[verifier::external_body]
fn is_whitespace(c: char) -> (white: bool)
    ensures
        white == is_whitespace_char(c),
{
    c.is_whitespace()
}

/// Cuts the white space off both ends of a line.
pub fn trim(line: &str) -> (text: &str)
    ensures
        text@ == trimmed(line@),
{
    let length = line.unicode_len();
    let mut start: usize = 0;
    assert(line@.subrange(0, length as int) =~= line@);
    while start < length && is_whitespace(line.get_char(start))
        invariant
            start <= length,
            length == line@.len(),
            trim_start(line@) == trim_start(line@.subrange(start as int, length as int)),
        decreases length - start,
    {
        assert(line@.subrange(start as int, length as int).drop_first() =~= line@.subrange(
            start + 1,
            length as int,
        ));
        start = start + 1;
    }
    let mut end: usize = length;
    while end > start && is_whitespace(line.get_char(end - 1))
        invariant
            start <= end <= length,
            length == line@.len(),
            trimmed(line@) == trim_end(line@.subrange(start as int, end as int)),
        decreases end,
    {
        assert(line@.subrange(start as int, end as int).drop_last() =~= line@.subrange(
            start as int,
            end - 1,
        ));
        end = end - 1;
    }
    line.substring_char(start, end)
}

/// Reads the answer from a text that has no white space around it.
pub fn read_answer(text: &str) -> (answer: Option<bool>)
    ensures
        answer == answer_in(text@),
{
    if text.unicode_len() != 1 {
        return None;
    }
    let letter = text.get_char(0);
    assert(text@ =~= seq![letter]);
    if letter == 'y' || letter == 'Y' {
        Some(true)
    } else if letter == 'n' || letter == 'N' {
        Some(false)
    } else {
        None
    }
}

/// Reads the answer that a line gives.
pub fn read_confirmation(line: &str) -> (answer: Option<bool>)
    ensures
        answer == confirmation(line@),
{
    read_answer(trim(line))
}

/// Decides how the question goes on after a reply: a clear answer ends
/// it, anything else is followed by a note and another try. A line that
/// is no answer is pointed out on standard output, a failure to read on
/// standard error.
pub fn ask_user_confirmation(reply: Reply) -> (step: PromptStep)
    ensures
        match reply {
            Reply::Line(line) => match confirmation(line@) {
                Some(answer) => step == PromptStep::Answered(answer),
                None => step matches PromptStep::AskAgain { note, channel: Channel::Output }
                    && note@ == "Please enter 'Y' or 'N'."@,
            },
            Reply::Unreadable { cause } => step matches PromptStep::AskAgain {
                note,
                channel: Channel::Error,
            } && note@ == "Failed to read input: "@ + cause@,
        },
{
    match reply {
        Reply::Line(line) => match read_confirmation(line.as_str()) {
            Some(answer) => PromptStep::Answered(answer),
            None => PromptStep::AskAgain {
                note: String::from_str("Please enter 'Y' or 'N'."),
                channel: Channel::Output,
            },
        },
        Reply::Unreadable { cause } => {
            let mut note = String::from_str("Failed to read input: ");
            note.append(cause.as_str());
            PromptStep::AskAgain { note, channel: Channel::Error }
        },
    }
}

} // verus!
