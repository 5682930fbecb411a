//! What the tracker makes of a line that the user typed.

use vstd::prelude::*;
use crate::bill::{is_finite, is_finite_amount};

verus! {

/// Whether a character is white space: one of the characters that carry
/// Unicode's property White_Space. These are the characters that the standard
/// library trims.
pub open spec fn is_white_space(c: char) -> bool {
    let code = c as u32;
    ||| 0x09 <= code <= 0x0D
    ||| code == 0x20
    ||| code == 0x85
    ||| code == 0xA0
    ||| code == 0x1680
    ||| 0x2000 <= code <= 0x200A
    ||| code == 0x2028
    ||| code == 0x2029
    ||| code == 0x202F
    ||| code == 0x205F
    ||| code == 0x3000
}

/// A text without the white space it begins with.
pub open spec fn trimmed_start(text: Seq<char>) -> Seq<char>
    decreases text.len(),
{
    if text.len() > 0 && is_white_space(text.first()) {
        trimmed_start(text.drop_first())
    } else {
        text
    }
}

/// A text without the white space it ends with.
pub open spec fn trimmed_end(text: Seq<char>) -> Seq<char>
    decreases text.len(),
{
    if text.len() > 0 && is_white_space(text.last()) {
        trimmed_end(text.drop_last())
    } else {
        text
    }
}

/// The text that is left of a line once the white space at both of its ends
/// is taken away. White space inside the line stays.
pub open spec fn trimmed(line: Seq<char>) -> Seq<char> {
    trimmed_end(trimmed_start(line))
}

/// Calls `str::trim`. Believed, not proved: the standard library returns the
/// part of the line that is left when the white space at its two ends is
/// removed, white space being the characters of Unicode's property
/// White_Space.
#[verifier::external_body]
pub(crate) fn trim(line: &str) -> (text: &str)
    ensures
        text@ == trimmed(line@),
{
    line.trim()
}

/// The characters of an answer, where there is one.
pub open spec fn text_of(input: Option<String>) -> Option<Seq<char>> {
    match input {
        Some(text) => Some(text@),
        None => None,
    }
}

/// A text as an answer: an empty text is no answer.
pub open spec fn entry_of(text: Seq<char>) -> Option<Seq<char>> {
    if text.len() == 0 {
        None
    } else {
        Some(text)
    }
}

/// The answer that a line gives: what is left of it after trimming, or no
/// answer where nothing is left.
pub open spec fn cleaned(line: Seq<char>) -> Option<Seq<char>> {
    entry_of(trimmed(line))
}

/// Turns a text into an answer: `None` for the empty text, else the text.
pub fn entry(text: &str) -> (input: Option<String>)
    ensures
        text_of(input) == entry_of(text@),
{
    if text.is_empty() {
        None
    } else {
        Some(text.to_owned())
    }
}

/// Turns a line as it was read into an answer: trims it and takes what is
/// left, if anything is.
pub fn clean_input(line: &str) -> (input: Option<String>)
    ensures
        text_of(input) == cleaned(line@),
{
    entry(trim(line))
}

/// Where trimming the start of a text begins to keep: every character before
/// that place is white space, and what is kept does not begin with any.
proof fn lemma_trimmed_start(text: Seq<char>) -> (from: int)
    ensures
        0 <= from <= text.len(),
        trimmed_start(text) == text.subrange(from, text.len() as int),
        forall|i: int| 0 <= i < from ==> is_white_space(#[trigger] text[i]),
        trimmed_start(text).len() > 0 ==> !is_white_space(trimmed_start(text).first()),
    decreases text.len(),
{
    if text.len() > 0 && is_white_space(text.first()) {
        let rest = text.drop_first();
        let k = lemma_trimmed_start(rest);
        assert(rest.subrange(k, rest.len() as int) =~= text.subrange(k + 1, text.len() as int));
        assert forall|i: int| 0 <= i < k + 1 implies is_white_space(#[trigger] text[i]) by {
            if i > 0 {
                assert(text[i] == rest[i - 1]);
            }
        }
        k + 1
    } else {
        assert(text.subrange(0, text.len() as int) =~= text);
        0
    }
}

/// Where trimming the end of a text stops to keep: every character from that
/// place on is white space, and what is kept does not end with any.
proof fn lemma_trimmed_end(text: Seq<char>) -> (to: int)
    ensures
        0 <= to <= text.len(),
        trimmed_end(text) == text.subrange(0, to),
        forall|i: int| to <= i < text.len() ==> is_white_space(#[trigger] text[i]),
        trimmed_end(text).len() > 0 ==> !is_white_space(trimmed_end(text).last()),
    decreases text.len(),
{
    if text.len() > 0 && is_white_space(text.last()) {
        let rest = text.drop_last();
        let k = lemma_trimmed_end(rest);
        assert(rest.subrange(0, k) =~= text.subrange(0, k));
        assert forall|i: int| k <= i < text.len() implies is_white_space(#[trigger] text[i]) by {
            if i < rest.len() {
                assert(text[i] == rest[i]);
            }
        }
        k
    } else {
        assert(text.subrange(0, text.len() as int) =~= text);
        text.len() as int
    }
}

/// What trimming leaves is a part of the line, between two places that the
/// lemma returns. Only white space is cut, before the first place and from
/// the second on, and what is left neither begins nor ends with white space.
pub proof fn lemma_trimmed_cuts_white_ends(line: Seq<char>) -> (ends: (int, int))
    ensures
        0 <= ends.0 <= ends.1 <= line.len(),
        trimmed(line) == line.subrange(ends.0, ends.1),
        forall|i: int| 0 <= i < ends.0 ==> is_white_space(#[trigger] line[i]),
        forall|i: int| ends.1 <= i < line.len() ==> is_white_space(#[trigger] line[i]),
        trimmed(line).len() > 0 ==> !is_white_space(trimmed(line).first()) && !is_white_space(
            trimmed(line).last(),
        ),
{
    let from = lemma_trimmed_start(line);
    let kept = trimmed_start(line);
    let to = lemma_trimmed_end(kept);
    assert(kept.subrange(0, to) =~= line.subrange(from, from + to));
    assert forall|i: int| from + to <= i < line.len() implies is_white_space(
        #[trigger] line[i],
    ) by {
        assert(line[i] == kept[i - from]);
    }
    if trimmed(line).len() > 0 {
        assert(trimmed(line).first() == kept.first());
    }
    (from, from + to)
}

/// A line of white space only, the empty line among them, gives no answer.
pub proof fn lemma_blank_line_gives_no_answer(line: Seq<char>)
    requires
        forall|i: int| 0 <= i < line.len() ==> is_white_space(#[trigger] line[i]),
    ensures
        cleaned(line) is None,
{
    let ends = lemma_trimmed_cuts_white_ends(line);
    if trimmed(line).len() > 0 {
        assert(trimmed(line).first() == line[ends.0]);
    }
}

/// A line that neither begins nor ends with white space is its own answer.
pub proof fn lemma_clean_line_is_its_answer(line: Seq<char>)
    requires
        line.len() > 0,
        !is_white_space(line.first()),
        !is_white_space(line.last()),
    ensures
        cleaned(line) == Some(line),
{
}

/// What an answer to the request for an amount comes to.
#[derive(Clone, Copy, Debug, PartialEq, Eq, Structural)]
pub enum AmountReply {
    /// No answer: the user gives the action up.
    Cancelled,
    /// An answer that is no finite number: the user is asked again.
    Rejected,
    /// A finite number, as its bit pattern.
    Accepted(u64),
}

/// How an answer to the request for an amount is taken, given the answer
/// and what it reads as: the bit pattern of a double-precision number, or
/// nothing. An answer is accepted where it reads as a finite number. What
/// reads as an infinity or as a value that is no number is refused like
/// what reads as nothing.
pub open spec fn amount_reply_of(input: Option<Seq<char>>, reading: Option<u64>) -> AmountReply {
    match input {
        None => AmountReply::Cancelled,
        Some(_) => match reading {
            None => AmountReply::Rejected,
            Some(amount) => if is_finite_amount(amount) {
                AmountReply::Accepted(amount)
            } else {
                AmountReply::Rejected
            },
        },
    }
}

/// Decides on an answer to the request for an amount. `reading` is what
/// the answer reads as: the bit pattern of a double-precision number, or
/// `None` where it reads as none.
pub fn amount_reply(input: &Option<String>, reading: Option<u64>) -> (reply: AmountReply)
    ensures
        reply == amount_reply_of(text_of(*input), reading),
{
    match input {
        None => AmountReply::Cancelled,
        Some(_) => match reading {
            None => AmountReply::Rejected,
            Some(amount) => if is_finite(amount) {
                AmountReply::Accepted(amount)
            } else {
                AmountReply::Rejected
            },
        },
    }
}

/// An amount that is accepted is finite, and it is what the answer reads as.
pub proof fn lemma_accepted_amount_is_finite(input: Option<Seq<char>>, reading: Option<u64>)
    ensures
        amount_reply_of(input, reading) matches AmountReply::Accepted(amount) ==> input is Some
            && reading == Some(amount) && is_finite_amount(amount),
{
}

} // verus!
