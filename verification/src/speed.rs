//! Finding the measured speed in a line of a log: the first number in the
//! line that the unit follows, blanks between them or none.

use vstd::prelude::*;
use vstd::string::{StrSliceExecFns, StringExecFns};

use core::num::ParseFloatError;
use nom::number::streaming::float;
use nom::IResult;

verus! {

/// The error that std reports for a text that is no number.
#[verifier::external_type_specification]
#[verifier::external_body]
pub struct ExParseFloatError(ParseFloatError);

/// A measured speed: a single-precision number, held by its IEEE 754
/// encoding. Two speeds are equal when their encodings are.
#[derive(Debug, Clone, Copy, PartialEq, Eq, Structural)]
pub struct Speed(pub u32);

/// Why no speed was had from a text.
#[derive(Debug, PartialEq, Eq)]
pub enum InvalidInput {
    /// The text is no number.
    Speed(ParseFloatError),
    /// The text ended before a speed with its unit was found.
    NoSpeed,
    /// The text cannot be read.
    Malformed,
}

/// How a parser gave up: out of input, at a mismatch, or for good.
#[derive(Debug, Clone, Copy, PartialEq, Eq, Structural)]
pub enum ParseStop {
    Incomplete,
    Error,
    Failure,
}

/// What nom's parser of numbers makes of the start of `text`: the rest of
/// the text behind the number and the encoding of the number, or how the
/// parser gave up.
pub uninterp spec fn float_prefix(text: Seq<char>) -> Result<(Seq<char>, u32), ParseStop>;

/// Runs `nom::number::streaming::float` on `text`. The parser depends on the
/// text alone, so the outcome is the one that `float_prefix` names: the
/// text that the parser left and the encoding of the number that it read,
/// or which of the three variants of `nom::Err` came back. Nothing is
/// claimed of which texts start with a number.
#[verifier::external_body]
fn float_at<'a>(text: &'a str) -> (parsed: Result<(&'a str, u32), ParseStop>)
    ensures
        match parsed {
            Ok((rest, bits)) => float_prefix(text@) == Ok::<(Seq<char>, u32), ParseStop>(
                (rest@, bits),
            ),
            Err(stop) => float_prefix(text@) == Err::<(Seq<char>, u32), ParseStop>(stop),
        },
{
    let parsed: IResult<&str, _> = float(text);
    match parsed {
        Ok((rest, x)) => Ok((rest, x.to_bits())),
        Err(nom::Err::Incomplete(_)) => Err(ParseStop::Incomplete),
        Err(nom::Err::Error(_)) => Err(ParseStop::Error),
        Err(nom::Err::Failure(_)) => Err(ParseStop::Failure),
    }
}

/// A space or a tab.
pub open spec fn is_blank_char(c: char) -> bool {
    c == ' ' || c == '\t'
}

/// Where the blanks that start at `from` end: the first place from `from`
/// on that holds no blank, or the length of the text.
pub open spec fn blanks_end(text: Seq<char>, from: int) -> int
    decreases text.len() - from,
{
    if from < 0 || from >= text.len() {
        text.len() as int
    } else if is_blank_char(text[from]) {
        blanks_end(text, from + 1)
    } else {
        from
    }
}

/// Whether `text` starts with `unit`. A text that ends before it could tell
/// is incomplete; one that differs from the unit is an error.
pub open spec fn tagged(text: Seq<char>, unit: Seq<char>) -> Result<(), ParseStop> {
    if unit.is_prefix_of(text) {
        Ok(())
    } else if text.is_prefix_of(unit) {
        Err(ParseStop::Incomplete)
    } else {
        Err(ParseStop::Error)
    }
}

/// Whether blanks, or none, and then `unit` stand at the start of `rest`.
/// Blanks that run to the end of the text are incomplete: the unit may still
/// come.
pub open spec fn unit_follows(rest: Seq<char>, unit: Seq<char>) -> Result<(), ParseStop> {
    let at = blanks_end(rest, 0);
    if at >= rest.len() {
        Err(ParseStop::Incomplete)
    } else {
        tagged(rest.subrange(at, rest.len() as int), unit)
    }
}

/// What stands at the start of `text`: a number with `unit` behind it, as the
/// encoding of the number, or why not.
pub open spec fn number_with_unit(text: Seq<char>, unit: Seq<char>) -> Result<u32, ParseStop> {
    match float_prefix(text) {
        Ok((rest, bits)) => match unit_follows(rest, unit) {
            Ok(_) => Ok(bits),
            Err(stop) => Err(stop),
        },
        Err(stop) => Err(stop),
    }
}

/// The first number with `unit` behind it that starts at `from` or later.
/// Where the text at a place is an error, the search goes on one character
/// later; where the text gives out or fails for good, the search ends; at
/// the end of the text it is incomplete.
pub open spec fn speed_scan_from(text: Seq<char>, unit: Seq<char>, from: int) -> Result<
    u32,
    ParseStop,
>
    decreases text.len() - from,
{
    if from < 0 || from > text.len() {
        Err(ParseStop::Incomplete)
    } else {
        match number_with_unit(text.subrange(from, text.len() as int), unit) {
            Ok(bits) => Ok(bits),
            Err(ParseStop::Error) => if from >= text.len() {
                Err(ParseStop::Incomplete)
            } else {
                speed_scan_from(text, unit, from + 1)
            },
            Err(stop) => Err(stop),
        }
    }
}

/// The first number in `input` with `unit` behind it, or how the search for
/// it ended.
pub open spec fn speed_scan(input: Seq<char>, unit: Seq<char>) -> Result<u32, ParseStop> {
    speed_scan_from(input, unit, 0)
}

/// Tells whether `unit` stands in `text` at the place `from`.
fn tag_at(text: &str, from: usize, unit: &str) -> (found: Result<(), ParseStop>)
    requires
        from <= text@.len(),
    ensures
        found == tagged(text@.subrange(from as int, text@.len() as int), unit@),
{
    let text_len = text.unicode_len();
    let unit_len = unit.unicode_len();
    let ghost tail = text@.subrange(from as int, text@.len() as int);
    let mut i: usize = 0;
    while i < unit_len && i < text_len - from
        invariant
            from <= text_len == text@.len(),
            unit_len == unit@.len(),
            tail == text@.subrange(from as int, text@.len() as int),
            i <= unit_len,
            i <= text_len - from,
            forall|j: int| 0 <= j < i ==> tail[j] == unit@[j],
        decreases unit_len - i,
    {
        if text.get_char(from + i) != unit.get_char(i) {
            assert(tail[i as int] != unit@[i as int]);
            return Err(ParseStop::Error);
        }
        i += 1;
    }
    if unit_len <= text_len - from {
        assert(unit@ =~= tail.subrange(0, unit@.len() as int));
        Ok(())
    } else {
        assert(tail =~= unit@.subrange(0, tail.len() as int));
        Err(ParseStop::Incomplete)
    }
}

/// Tells whether blanks, or none, and then `unit` stand at the start of
/// `rest`: what must follow a number for it to be the speed.
pub fn follows(rest: &str, unit: &str) -> (found: Result<(), ParseStop>)
    ensures
        found == unit_follows(rest@, unit@),
{
    let len = rest.unicode_len();
    let mut at: usize = 0;
    while at < len
        invariant
            at <= len == rest@.len(),
            blanks_end(rest@, at as int) == blanks_end(rest@, 0),
        decreases len - at,
    {
        let c = rest.get_char(at);
        if !(c == ' ' || c == '\t') {
            return tag_at(rest, at, unit);
        }
        at += 1;
    }
    Err(ParseStop::Incomplete)
}

/// Reads a number with `unit` behind it at the start of `text`.
pub fn read_number(text: &str, unit: &str) -> (read: Result<u32, ParseStop>)
    ensures
        read == number_with_unit(text@, unit@),
{
    match float_at(text) {
        Ok((rest, bits)) => match follows(rest, unit) {
            Ok(_) => Ok(bits),
            Err(stop) => Err(stop),
        },
        Err(stop) => Err(stop),
    }
}

/// Searches `input` from its start for the first number with `unit` behind
/// it.
pub fn scan_speed(input: &str, unit: &str) -> (scanned: Result<u32, ParseStop>)
    ensures
        scanned == speed_scan(input@, unit@),
{
    let len = input.unicode_len();
    let mut from: usize = 0;
    while from < len
        invariant
            from <= len == input@.len(),
            speed_scan_from(input@, unit@, from as int) == speed_scan(input@, unit@),
        decreases len - from,
    {
        match read_number(input.substring_char(from, len), unit) {
            Ok(bits) => {
                return Ok(bits);
            },
            Err(ParseStop::Error) => {
                from += 1;
            },
            Err(stop) => {
                return Err(stop);
            },
        }
    }
    match read_number(input.substring_char(len, len), unit) {
        Ok(bits) => Ok(bits),
        Err(ParseStop::Error) => Err(ParseStop::Incomplete),
        Err(stop) => Err(stop),
    }
}

/// The search finds the first speed: where it succeeds from `from`, a number
/// with the unit behind it stands at some place not before `from`, with the
/// encoding found, and the text at every place between is an error.
pub proof fn lemma_scan_finds_first(text: Seq<char>, unit: Seq<char>, from: int, bits: u32)
    requires
        0 <= from <= text.len(),
        speed_scan_from(text, unit, from) == Ok::<u32, ParseStop>(bits),
    ensures
        exists|at: int|
            {
                &&& from <= at <= text.len()
                &&& #[trigger] number_with_unit(text.subrange(at, text.len() as int), unit) == Ok::<
                    u32,
                    ParseStop,
                >(bits)
                &&& forall|p: int|
                    from <= p < at ==> #[trigger] number_with_unit(
                        text.subrange(p, text.len() as int),
                        unit,
                    ) == Err::<u32, ParseStop>(ParseStop::Error)
            },
    decreases text.len() - from,
{
    let here = number_with_unit(text.subrange(from, text.len() as int), unit);
    if here is Ok {
        assert(from <= from <= text.len() && number_with_unit(
            text.subrange(from, text.len() as int),
            unit,
        ) == Ok::<u32, ParseStop>(bits));
    } else {
        lemma_scan_finds_first(text, unit, from + 1, bits);
        let at = choose|at: int|
            {
                &&& from + 1 <= at <= text.len()
                &&& #[trigger] number_with_unit(text.subrange(at, text.len() as int), unit) == Ok::<
                    u32,
                    ParseStop,
                >(bits)
                &&& forall|p: int|
                    from + 1 <= p < at ==> #[trigger] number_with_unit(
                        text.subrange(p, text.len() as int),
                        unit,
                    ) == Err::<u32, ParseStop>(ParseStop::Error)
            };
        assert(from <= at <= text.len() && number_with_unit(
            text.subrange(at, text.len() as int),
            unit,
        ) == Ok::<u32, ParseStop>(bits));
    }
}

/// What a line and the outcome of the search in it make: the line with the
/// speed found, no speed where the line ran out, and else a malformed line.
pub open spec fn speed_of<'a>(input: &'a str, scanned: Result<u32, ParseStop>) -> Result<
    (&'a str, Speed),
    InvalidInput,
> {
    match scanned {
        Ok(bits) => Ok((input, Speed(bits))),
        Err(ParseStop::Incomplete) => Err(InvalidInput::NoSpeed),
        Err(_) => Err(InvalidInput::Malformed),
    }
}

/// Makes the result for the line `input` once it has been searched, with
/// `scanned` the outcome of the search.
pub fn from_scan<'a>(input: &'a str, scanned: Result<u32, ParseStop>) -> (found: Result<
    (&'a str, Speed),
    InvalidInput,
>)
    ensures
        found == speed_of(input, scanned),
{
    match scanned {
        Ok(bits) => Ok((input, Speed(bits))),
        Err(ParseStop::Incomplete) => Err(InvalidInput::NoSpeed),
        Err(_) => Err(InvalidInput::Malformed),
    }
}

/// Finds in `input` the first number that `measurement_unit` follows, blanks
/// between them or none, whatever stands before the number, and returns the
/// whole line with the speed.
pub fn get<'a>(input: &'a str, measurement_unit: &'a str) -> (found: Result<
    (&'a str, Speed),
    InvalidInput,
>)
    ensures
        found == speed_of(input, speed_scan(input@, measurement_unit@)),
{
    from_scan(input, scan_speed(input, measurement_unit))
}

impl From<ParseFloatError> for InvalidInput {
    fn from(value: ParseFloatError) -> (error: InvalidInput)
        ensures
            error == InvalidInput::Speed(value),
    {
        InvalidInput::Speed(value)
    }
}

impl vstd::std_specs::convert::FromSpecImpl<ParseFloatError> for InvalidInput {
    open spec fn obeys_from_spec() -> bool {
        true
    }

    open spec fn from_spec(value: ParseFloatError) -> InvalidInput {
        InvalidInput::Speed(value)
    }
}

impl InvalidInput {
    /// The text of the message for this error.
    pub open spec fn message_of(self) -> Seq<char> {
        match self {
            InvalidInput::Speed(_) => "invalid float for speed"@,
            InvalidInput::NoSpeed => "speed value is not provided"@,
            InvalidInput::Malformed => "malformed input, couldn't parse anything"@,
        }
    }

    /// The message for this error, for the user to read.
    pub fn message(&self) -> (text: String)
        ensures
            text@ == self.message_of(),
    {
        match self {
            InvalidInput::Speed(_) => String::from_str("invalid float for speed"),
            InvalidInput::NoSpeed => String::from_str("speed value is not provided"),
            InvalidInput::Malformed => String::from_str(
                "malformed input, couldn't parse anything",
            ),
        }
    }
}

} // verus!
