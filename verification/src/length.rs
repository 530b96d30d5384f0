//! The packet length: decimal text checked against the accepted range.

use std::num::ParseIntError;
use vstd::prelude::*;
use vstd::string::*;

use crate::text::{all_digits, decimal_text, digits_value};

verus! {

/// The smallest accepted packet length, in bytes.
pub const MIN_PACKET_LENGTH: usize = 1;

/// The largest accepted packet length, in bytes.
pub const MAX_PACKET_LENGTH: usize = 65000;

/// Why a packet length was refused.
#[derive(Debug, PartialEq)]
pub enum PacketLengthError {
    /// The text is not an unsigned decimal number that fits the machine word.
    InvalidFormat(ParseIntError),
    /// The number is above [`MAX_PACKET_LENGTH`].
    Overflow,
    /// The number is below [`MIN_PACKET_LENGTH`].
    Underflow,
}

impl Clone for PacketLengthError {
    fn clone(&self) -> (copy: Self)
        ensures
            copy == *self,
    {
        match self {
            PacketLengthError::InvalidFormat(error) => PacketLengthError::InvalidFormat(
                error.clone(),
            ),
            PacketLengthError::Overflow => PacketLengthError::Overflow,
            PacketLengthError::Underflow => PacketLengthError::Underflow,
        }
    }
}

impl PacketLengthError {
    /// The text of [`PacketLengthError::message`].
    pub open spec fn message_text(self) -> Seq<char> {
        match self {
            PacketLengthError::InvalidFormat(error) => parse_int_error_text(error),
            PacketLengthError::Overflow => "Overflow occurred"@,
            PacketLengthError::Underflow => "Underflow occurred"@,
        }
    }

    /// The error in words.
    pub fn message(&self) -> (text: String)
        ensures
            text@ == self.message_text(),
    {
        match self {
            PacketLengthError::InvalidFormat(error) => parse_int_error_to_string(error),
            PacketLengthError::Overflow => String::from_str("Overflow occurred"),
            PacketLengthError::Underflow => String::from_str("Underflow occurred"),
        }
    }
}

/// What a packet length text stands for: the number it spells when that lies
/// in the accepted range, else the reason for refusing it.
pub open spec fn length_of_text(text: Seq<char>) -> Result<usize, PacketLengthError> {
    if !is_decimal(text) || decimal_value(text) > usize::MAX {
        Err(PacketLengthError::InvalidFormat(unsigned_parse_error(text, usize::MAX as nat)))
    } else if decimal_value(text) < MIN_PACKET_LENGTH {
        Err(PacketLengthError::Underflow)
    } else if decimal_value(text) > MAX_PACKET_LENGTH {
        Err(PacketLengthError::Overflow)
    } else {
        Ok(decimal_value(text) as usize)
    }
}

/// Whether the text is an unsigned decimal number: an optional `+`, then one
/// or more digits and nothing else.
pub open spec fn is_decimal(text: Seq<char>) -> bool {
    let digits = unsigned_digits(text);
    &&& digits.len() > 0
    &&& all_digits(digits)
}

/// The number that an unsigned decimal text spells.
pub open spec fn decimal_value(text: Seq<char>) -> nat {
    digits_value(unsigned_digits(text))
}

/// The text without its leading `+`, if it has one.
pub open spec fn unsigned_digits(text: Seq<char>) -> Seq<char> {
    if text.len() > 0 && text[0] == '+' {
        text.subrange(1, text.len() as int)
    } else {
        text
    }
}

/// A number written in the plain way is an unsigned decimal text that spells
/// that number.
pub proof fn lemma_decimal_text(n: nat)
    ensures
        is_decimal(decimal_text(n)),
        decimal_value(decimal_text(n)) == n,
        decimal_text(n).len() > 0,
        decimal_text(n)[0] != '+',
    decreases n,
{
    if n < 10 {
        assert(digits_value(decimal_text(n)) == n) by {
            reveal_with_fuel(digits_value, 2);
        }
    } else {
        lemma_decimal_text(n / 10);
        assert(decimal_text(n).drop_last() =~= decimal_text(n / 10));
    }
}

/// Reads a packet length and checks it against the accepted range.
pub fn parse_length(text: &str) -> (parsed: Result<usize, PacketLengthError>)
    ensures
        parsed == length_of_text(text@),
{
    match parse_usize(text) {
        Err(error) => Err(PacketLengthError::InvalidFormat(error)),
        Ok(length) => {
            if length < MIN_PACKET_LENGTH {
                Err(PacketLengthError::Underflow)
            } else if length > MAX_PACKET_LENGTH {
                Err(PacketLengthError::Overflow)
            } else {
                Ok(length)
            }
        },
    }
}

/// std's `ParseIntError`, carried as it is: nothing is known of what it
/// holds.
#[verifier::external_type_specification]
#[verifier::external_body]
pub struct ExParseIntError(ParseIntError);

/// `Clone::clone` on std's `ParseIntError`: the copy is the same error.
pub assume_specification[ <ParseIntError as Clone>::clone ](error: &ParseIntError) -> (copy:
    ParseIntError)
    ensures
        copy == *error,
;

/// The error that std's integer parser gives for a text that it refuses as
/// an unsigned number of at most `max`. The limit counts: a text that holds
/// both a number too large and a wrong character is refused for whichever
/// the parser meets first.
pub uninterp spec fn unsigned_parse_error(text: Seq<char>, max: nat) -> ParseIntError;

/// The message that std's `Display` writes for an integer parse error.
pub uninterp spec fn parse_int_error_text(error: ParseIntError) -> Seq<char>;

/// `str::parse::<usize>`, that is std's `usize::from_str`. Its documentation
/// promises the number for an optional `+` followed by decimal digits only,
/// and an error for anything else (an empty text, a sign alone, a `-`, a
/// blank, an underscore) and for a number above `usize::MAX`. The contract
/// says the same, and names the error.
#[verifier::external_body]
fn parse_usize(text: &str) -> (parsed: Result<usize, ParseIntError>)
    ensures
        parsed is Ok <==> (is_decimal(text@) && decimal_value(text@) <= usize::MAX),
        parsed matches Ok(n) ==> n == decimal_value(text@),
        parsed matches Err(e) ==> e == unsigned_parse_error(text@, usize::MAX as nat),
{
    text.parse::<usize>()
}

/// `ToString::to_string` on std's `ParseIntError`: the text of its `Display`.
#[verifier::external_body]
fn parse_int_error_to_string(error: &ParseIntError) -> (text: String)
    ensures
        text@ == parse_int_error_text(*error),
{
    error.to_string()
}

} // verus!
