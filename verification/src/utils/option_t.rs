//! A value that the user may leave out by a word such as "none".

use std::str::FromStr;
use vstd::prelude::*;
use vstd::string::StringExecFns;
use crate::utils::text::{lowercase, to_lowercase};

verus! {

/// A value of a setting, or none.
#[derive(Debug, PartialEq, Eq)]
pub struct OptionT<T>(pub Option<T>);

/// Whether a text in lower case is one of the words for no value.
pub open spec fn none_word(lower: Seq<char>) -> bool {
    lower == "none"@ || lower == "null"@ || lower == "no"@ || lower == "n"@
}

/// What every refusal of an input starts with.
pub open spec fn parse_failure(reason: Seq<char>) -> Seq<char> {
    "Failed to parse input: "@ + reason
}

/// Whether a text in lower case is one of the words for no value: "none",
/// "null", "no" or "n".
pub fn is_none_word(lower: &String) -> (none: bool)
    ensures
        none == none_word(lower@),
{
    *lower == "none".to_owned() || *lower == "null".to_owned() || *lower == "no".to_owned()
        || *lower == "n".to_owned()
}

/// A type whose values can be read from text, with the reason where a
/// text holds none.
pub trait ReadText: Sized {
    /// Reads a value from `s`.
    fn read_text(s: &str) -> Result<Self, String>;
}

/// The value of a decimal digit, where the character is one.
pub open spec fn digit_of(c: char) -> Option<int> {
    if c == '0' {
        Some(0)
    } else if c == '1' {
        Some(1)
    } else if c == '2' {
        Some(2)
    } else if c == '3' {
        Some(3)
    } else if c == '4' {
        Some(4)
    } else if c == '5' {
        Some(5)
    } else if c == '6' {
        Some(6)
    } else if c == '7' {
        Some(7)
    } else if c == '8' {
        Some(8)
    } else if c == '9' {
        Some(9)
    } else {
        None
    }
}

/// Whether a text is one decimal digit or more, and nothing else.
pub open spec fn all_digits(text: Seq<char>) -> bool {
    &&& text.len() > 0
    &&& forall|i: int| 0 <= i < text.len() ==> digit_of(#[trigger] text[i]) is Some
}

/// The number that a run of decimal digits stands for.
pub open spec fn digits_value(text: Seq<char>) -> int
    decreases text.len(),
{
    if text.len() == 0 {
        0
    } else {
        match digit_of(text.last()) {
            Some(d) => digits_value(text.drop_last()) * 10 + d,
            None => 0,
        }
    }
}

/// The whole number that a text is the decimal form of: digits, with one
/// sign before them or none.
pub open spec fn integer_of(text: Seq<char>) -> Option<int> {
    if text.len() > 0 && text[0] == '-' {
        if all_digits(text.skip(1)) {
            Some(-digits_value(text.skip(1)))
        } else {
            None
        }
    } else if text.len() > 0 && text[0] == '+' {
        if all_digits(text.skip(1)) {
            Some(digits_value(text.skip(1)))
        } else {
            None
        }
    } else if all_digits(text) {
        Some(digits_value(text))
    } else {
        None
    }
}

/// `str::parse` for `i64`. The error comes back as the text that its
/// `Debug` form gives. Trusted: a text is read exactly where it is the
/// decimal form of a number that an `i64` holds, and as that number.
#[verifier::external_body]
fn parse_i64(s: &str) -> (parsed: Result<i64, String>)
    ensures
        parsed is Ok <==> (integer_of(s@) matches Some(i) && i64::MIN <= i <= i64::MAX),
        parsed matches Ok(value) ==> integer_of(s@) == Some(value as int),
{
    match s.parse::<i64>() {
        Ok(value) => Ok(value),
        Err(e) => Err(format!("{:?}", e)),
    }
}

impl ReadText for i64 {
    /// Reads a whole number in decimal: digits, with one sign before them
    /// or none. A text of any other form is refused, and so is a number
    /// that an `i64` does not hold.
    fn read_text(s: &str) -> (read: Result<i64, String>)
        ensures
            read is Ok <==> (integer_of(s@) matches Some(i) && i64::MIN <= i <= i64::MAX),
            read matches Ok(value) ==> integer_of(s@) == Some(value as int),
    {
        parse_i64(s)
    }
}

impl<T> OptionT<T> {
    /// The setting that a parsed value stands for: the value, where there
    /// is one, and else the refusal with the parser's reason in it.
    pub fn from_parsed(parsed: Result<T, String>) -> (setting: Result<OptionT<T>, String>)
        ensures
            parsed matches Ok(value) ==> setting == Ok::<OptionT<T>, String>(OptionT(Some(value))),
            parsed matches Err(reason) ==> (setting matches Err(message) && message@
                == parse_failure(reason@)),
    {
        match parsed {
            Ok(value) => Ok(OptionT(Some(value))),
            Err(reason) => {
                let mut message = "Failed to parse input: ".to_owned();
                message.append(reason.as_str());
                Err(message)
            },
        }
    }
}

impl OptionT<i64> {
    /// Reads a whole number that may be left out: no value where the text
    /// is, in any mix of upper and lower case, one of the words for none;
    /// else the number that the text is the decimal form of; a refusal
    /// where it is neither, or where an `i64` does not hold the number.
    pub fn parse_integer(s: &str) -> (setting: Result<OptionT<i64>, String>)
        ensures
            none_word(lowercase(s@)) ==> setting == Ok::<OptionT<i64>, String>(OptionT(None)),
            !none_word(lowercase(s@)) ==> match integer_of(s@) {
                Some(i) if i64::MIN <= i <= i64::MAX => setting == Ok::<OptionT<i64>, String>(
                    OptionT(Some(i as i64)),
                ),
                _ => setting is Err,
            },
    {
        let lower = to_lowercase(s);
        if is_none_word(&lower) {
            Ok(OptionT(None))
        } else {
            OptionT::from_parsed(parse_i64(s))
        }
    }
}

impl<T: ReadText> FromStr for OptionT<T> {
    type Err = String;

    /// Reads a setting: no value where the text is, in any mix of upper and
    /// lower case, one of the words for none; else what `T` reads from the
    /// text.
    fn from_str(s: &str) -> (setting: Result<Self, String>)
        ensures
            none_word(lowercase(s@)) ==> setting == Ok::<OptionT<T>, String>(OptionT(None)),
            !none_word(lowercase(s@)) ==> (setting matches Ok(read) ==> read.0 is Some),
    {
        let lower = to_lowercase(s);
        if is_none_word(&lower) {
            Ok(OptionT(None))
        } else {
            OptionT::from_parsed(T::read_text(s))
        }
    }
}

} // verus!
