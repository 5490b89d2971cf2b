//! One line of the log: made ready for the parser, and read.

use vstd::prelude::*;

use crate::speed::{get, speed_scan, Speed};

verus! {

/// Whether `c` is white space, as Unicode defines it.
pub uninterp spec fn white_space(c: char) -> bool;

/// Calls `char::is_whitespace`, which says whether Unicode lists the
/// character as `White_Space`: the answer depends on the character
/// alone, and `white_space` names it.
#[verifier::external_body]
fn is_white_space(c: char) -> (white: bool)
    ensures
        white == white_space(c),
{
    c.is_whitespace()
}

/// `text` with every `from` replaced by `to`.
pub open spec fn replaced(text: Seq<char>, from: char, to: Seq<char>) -> Seq<char>
    decreases text.len(),
{
    if text.len() == 0 {
        text
    } else if text[0] == from {
        to + replaced(text.drop_first(), from, to)
    } else {
        seq![text[0]] + replaced(text.drop_first(), from, to)
    }
}

/// Calls `str::replace` with a character as the pattern: the result is the
/// text with each occurrence of the character replaced by `to`, and the
/// rest as it was.
#[verifier::external_body]
fn replace_char(text: &str, from: char, to: &str) -> (changed: String)
    ensures
        changed@ == replaced(text@, from, to@),
{
    text.replace(from, to)
}

/// A line that holds nothing but white space.
pub open spec fn blank(text: Seq<char>) -> bool {
    forall|i: int| 0 <= i < text.len() ==> white_space(#[trigger] text[i])
}

/// `text` with a point for every comma.
pub open spec fn with_points(text: Seq<char>) -> Seq<char> {
    Seq::new(text.len(), |i: int| if text[i] == ',' { '.' } else { text[i] })
}

/// What a line gives: nothing where it is blank, else the outcome of the
/// parser on the line with points for commas.
pub open spec fn measured(line: Seq<char>, unit: Seq<char>) -> Option<Speed> {
    if blank(line) {
        None
    } else {
        match speed_scan(with_points(line), unit) {
            Ok(bits) => Some(Speed(bits)),
            Err(_) => None,
        }
    }
}

/// Replacing each comma by the text of one point puts a point for every
/// comma.
proof fn lemma_replaced_commas(text: Seq<char>)
    ensures
        replaced(text, ',', seq!['.']) == with_points(text),
    decreases text.len(),
{
    if text.len() > 0 {
        lemma_replaced_commas(text.drop_first());
        assert(replaced(text, ',', seq!['.']) =~= with_points(text));
    } else {
        assert(replaced(text, ',', seq!['.']) =~= with_points(text));
    }
}

/// Whether the line holds nothing but white space.
pub fn is_blank(line: &str) -> (is: bool)
    ensures
        is == blank(line@),
{
    for c in iter: line.chars()
        invariant
            iter.seq() == line@,
            forall|i: int| 0 <= i < iter.index() ==> white_space(#[trigger] line@[i]),
    {
        if !is_white_space(c) {
            return false;
        }
    }
    true
}

/// The line with a point for every comma, so that a number written with a
/// decimal comma reads as one.
pub fn decimal_points(line: &str) -> (changed: String)
    ensures
        changed@ == with_points(line@),
{
    proof {
        reveal_strlit(".");
        lemma_replaced_commas(line@);
        assert("."@ =~= seq!['.']);
    }
    replace_char(line, ',', ".")
}

/// Reads the speed from one line of the log: a blank line gives none, and
/// neither does a line in which no number stands before `unit`.
pub fn measure(line: &str, unit: &str) -> (speed: Option<Speed>)
    ensures
        speed == measured(line@, unit@),
{
    if is_blank(line) {
        return None;
    }
    let ready = decimal_points(line);
    match get(ready.as_str(), unit) {
        Ok((_, speed)) => Some(speed),
        Err(_) => None,
    }
}

} // verus!
