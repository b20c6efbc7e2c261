//! Post identifiers: 128-bit values written in the hyphenated hexadecimal form.

use crate::errors::AppError;
use vstd::prelude::*;
use vstd::string::StringExecFns;

verus! {

/// The identifier of a post. The store assigns it when the post is created and
/// it never changes afterwards.
#[derive(Debug, Clone, Copy, PartialEq, Eq, Hash, Structural)]
pub struct PostId(pub u128);

/// Sixteen to the power `exponent`.
pub open spec fn pow16(exponent: nat) -> nat
    decreases exponent,
{
    if exponent == 0 {
        1
    } else {
        16 * pow16((exponent - 1) as nat)
    }
}

/// The `k`-th hexadecimal digit of `value`, counted from the most significant
/// of its thirty-two digits.
pub open spec fn nibble(value: u128, k: int) -> int {
    (value as int / pow16((31 - k) as nat) as int) % 16
}

/// The lower-case character for a hexadecimal digit.
pub open spec fn hex_char(digit: int) -> char {
    if digit < 10 {
        (digit + 48) as char
    } else {
        (digit + 87) as char
    }
}

/// Whether position `i` of the hyphenated form holds a hyphen.
pub open spec fn is_hyphen_position(i: int) -> bool {
    i == 8 || i == 13 || i == 18 || i == 23
}

/// Which of the thirty-two digits stands at position `i` of the hyphenated form.
pub open spec fn digit_index(i: int) -> int {
    if i < 8 {
        i
    } else if i < 13 {
        i - 1
    } else if i < 18 {
        i - 2
    } else if i < 23 {
        i - 3
    } else {
        i - 4
    }
}

/// The hyphenated form of a 128-bit value: thirty-two lower-case hexadecimal
/// digits, most significant first, in groups of 8, 4, 4, 4 and 12.
pub open spec fn hyphenated(value: u128) -> Seq<char> {
    Seq::new(
        36,
        |i: int|
            if is_hyphen_position(i) {
                '-'
            } else {
                hex_char(nibble(value, digit_index(i)))
            },
    )
}

/// What reading a piece of text as an identifier gives: the 128-bit value, or
/// the reader's complaint.
pub uninterp spec fn parsed_uuid(text: Seq<char>) -> Result<u128, Seq<char>>;

/// An outcome of reading, with the complaint taken as plain text.
pub open spec fn read_view(outcome: Result<u128, String>) -> Result<u128, Seq<char>> {
    match outcome {
        Ok(value) => Ok(value),
        Err(complaint) => Err(complaint@),
    }
}

/// Writes a value with `uuid`: `Uuid::from_u128` followed by `Uuid`'s
/// `Display`, which is the lower-case hyphenated form. The crate reads back
/// every form it writes, so the text parses to the same value.
#[verifier::external_body]
fn uuid_text(value: u128) -> (text: String)
    ensures
        text@ == hyphenated(value),
        parsed_uuid(text@) == read_view(Ok(value)),
{
    uuid::Uuid::from_u128(value).to_string()
}

/// Reads a value with `uuid::Uuid::parse_str`, which accepts the simple,
/// hyphenated, braced and URN forms. The contract only names the outcome: the
/// value as `Uuid::as_u128` gives it, or the text of the crate's error.
#[verifier::external_body]
fn uuid_parse(text: &str) -> (outcome: Result<u128, String>)
    ensures
        read_view(outcome) == parsed_uuid(text@),
{
    match uuid::Uuid::parse_str(text) {
        Ok(id) => Ok(id.as_u128()),
        Err(error) => Err(error.to_string()),
    }
}

impl PostId {
    /// The identifier in its hyphenated form.
    pub open spec fn text(self) -> Seq<char> {
        hyphenated(self.0)
    }

    /// The identifier that a piece of text stands for, if it stands for one.
    pub open spec fn read(text: Seq<char>) -> Option<PostId> {
        match parsed_uuid(text) {
            Ok(value) => Some(PostId(value)),
            Err(_) => None,
        }
    }

    /// The detail reported for text that stands for no identifier.
    pub open spec fn complaint(text: Seq<char>) -> Seq<char> {
        match parsed_uuid(text) {
            Ok(_) => Seq::empty(),
            Err(said) => "UUID parsing failed: "@ + said,
        }
    }

    /// Writes the identifier in its hyphenated form, which reads back as the
    /// same identifier.
    pub fn to_string(&self) -> (text: String)
        ensures
            text@ == self.text(),
            PostId::read(text@) == Some(*self),
    {
        uuid_text(self.0)
    }

    /// Reads an identifier from a path segment. Text that stands for no
    /// identifier is rejected as a malformed request that carries the reader's
    /// complaint.
    pub fn parse(text: &str) -> (outcome: Result<PostId, AppError>)
        ensures
            match outcome {
                Ok(id) => PostId::read(text@) == Some(id),
                Err(error) => {
                    &&& PostId::read(text@) is None
                    &&& error matches AppError::BodyParsingError(detail)
                    &&& detail@ == PostId::complaint(text@)
                },
            },
    {
        match uuid_parse(text) {
            Ok(value) => Ok(PostId(value)),
            Err(complaint) => Err(
                AppError::BodyParsingError(
                    String::from_str("UUID parsing failed: ").concat(complaint.as_str()),
                ),
            ),
        }
    }
}

} // verus!
