//! UUIDs as 128-bit values, read and written by the `uuid` crate.
use crate::error::{error_view, ErrorKind, OsdError};
use vstd::prelude::*;
use vstd::string::*;

verus! {

/// A UUID, held as the 128-bit number whose most significant byte comes
/// first in the text forms.
#[derive(Clone, Copy, Debug, PartialEq, Eq, Structural)]
pub struct Uuid {
    pub bits: u128,
}

/// The lower-case hexadecimal digit that stands for `d`, for `d` in `0..16`.
pub open spec fn hex_char(d: int) -> char {
    if d == 0 {
        '0'
    } else if d == 1 {
        '1'
    } else if d == 2 {
        '2'
    } else if d == 3 {
        '3'
    } else if d == 4 {
        '4'
    } else if d == 5 {
        '5'
    } else if d == 6 {
        '6'
    } else if d == 7 {
        '7'
    } else if d == 8 {
        '8'
    } else if d == 9 {
        '9'
    } else if d == 10 {
        'a'
    } else if d == 11 {
        'b'
    } else if d == 12 {
        'c'
    } else if d == 13 {
        'd'
    } else if d == 14 {
        'e'
    } else {
        'f'
    }
}

/// Whether position `p` of the hyphenated form holds a hyphen.
pub open spec fn is_hyphen_position(p: int) -> bool {
    p == 8 || p == 13 || p == 18 || p == 23
}

/// Which of the 32 hexadecimal digits, counted from the most significant,
/// stands at position `p` of the hyphenated form.
pub open spec fn digit_index(p: int) -> int {
    if p < 8 {
        p
    } else if p < 13 {
        p - 1
    } else if p < 18 {
        p - 2
    } else if p < 23 {
        p - 3
    } else {
        p - 4
    }
}

/// The `k`-th hexadecimal digit of `bits`, counted from the most significant.
pub open spec fn hex_digit(bits: u128, k: int) -> int {
    ((bits >> ((124 - 4 * k) as u128)) & 0xf) as int
}

/// The hyphenated lower-case form of a UUID: 32 hexadecimal digits in groups
/// of 8, 4, 4, 4 and 12, with a hyphen between groups.
pub open spec fn hyphenated_text(bits: u128) -> Seq<char> {
    Seq::new(
        36,
        |p: int|
            if is_hyphen_position(p) {
                '-'
            } else {
                hex_char(hex_digit(bits, digit_index(p)))
            },
    )
}

/// The UUID that `Uuid::parse_str` of the `uuid` crate reads from a text, or
/// `None` where it rejects the text.
pub uninterp spec fn uuid_text_value(text: Seq<char>) -> Option<u128>;

/// The error of the `uuid` crate's parser.
#[verifier::external_type_specification]
#[verifier::external_body]
pub struct ExUuidError(uuid::Error);

/// `uuid::Uuid::parse_str`, with the UUID handed on as its 128-bit value
/// (`as_u128`). Trusted: the call succeeds exactly on the texts that the
/// parser accepts, and gives the value it read.
#[verifier::external_body]
fn parse_str(text: &str) -> (r: Result<u128, uuid::Error>)
    ensures
        match r {
            Ok(bits) => uuid_text_value(text@) == Some(bits),
            Err(_) => uuid_text_value(text@) is None,
        },
{
    match uuid::Uuid::parse_str(text) {
        Ok(id) => Ok(id.as_u128()),
        Err(e) => Err(e),
    }
}

/// `uuid::Uuid::to_hyphenated`, rendered by its `Display`, for the UUID with
/// the given 128-bit value (`from_u128`). Trusted: the text is the lower-case
/// hyphenated form, and `Uuid::parse_str` reads the same UUID back from it,
/// as the crate documents for every format it generates.
#[verifier::external_body]
fn to_hyphenated(bits: u128) -> (s: String)
    ensures
        s@ == hyphenated_text(bits),
        uuid_text_value(s@) == Some(bits),
{
    uuid::Uuid::from_u128(bits).to_hyphenated().to_string()
}

/// Whether `bits` is a UUID of version 4 in the variant of RFC 4122: the
/// thirteenth of its hexadecimal digits is 4, and the two highest bits of
/// the seventeenth are 1 and 0. The other 122 bits are free.
pub open spec fn is_version_4(bits: u128) -> bool {
    hex_digit(bits, 12) == 4 && 8 <= hex_digit(bits, 16) <= 11
}

/// `uuid::Uuid::new_v4`, as its 128-bit value (`as_u128`). Trusted: whatever
/// random bytes were drawn, the crate sets the version to 4 and the variant
/// to that of RFC 4122 before it hands the UUID out. Nothing is promised of
/// the other bits. The crate panics if the operating system gives no random
/// bytes.
#[verifier::external_body]
fn new_v4() -> (bits: u128)
    ensures
        is_version_4(bits),
{
    uuid::Uuid::new_v4().as_u128()
}

/// The message of the error for a text that is no UUID.
pub open spec fn invalid_uuid_message(text: Seq<char>) -> Seq<char> {
    "invalid UUID: "@ + text
}

impl Uuid {
    /// The UUID with the given 128-bit value.
    pub fn from_u128(bits: u128) -> (id: Uuid)
        ensures
            id.bits == bits,
    {
        Uuid { bits }
    }

    /// The 128-bit value of this UUID.
    pub fn as_u128(&self) -> (bits: u128)
        ensures
            bits == self.bits,
    {
        self.bits
    }

    /// A fresh random UUID: of version 4, in the variant of RFC 4122, its
    /// other bits drawn at random.
    pub fn random() -> (id: Uuid)
        ensures
            is_version_4(id.bits),
    {
        Uuid { bits: new_v4() }
    }

    /// Reads a UUID from any of the text forms that the `uuid` crate
    /// accepts. A text that it rejects is a parse failure.
    pub fn parse(text: &str) -> (r: Result<Uuid, OsdError>)
        ensures
            match uuid_text_value(text@) {
                Some(bits) => r == Ok::<Uuid, OsdError>(Uuid { bits }),
                None => r is Err && r->Err_0@ == error_view(
                    ErrorKind::ParseFailure,
                    invalid_uuid_message(text@),
                ),
            },
    {
        match parse_str(text) {
            Ok(bits) => Ok(Uuid { bits }),
            Err(_) => {
                let mut message = String::from_str("invalid UUID: ");
                message.append(text);
                Err(OsdError::new(ErrorKind::ParseFailure, message))
            },
        }
    }

    /// The hyphenated lower-case text of this UUID, which `parse` reads
    /// back.
    pub fn to_hyphenated_string(&self) -> (s: String)
        ensures
            s@ == hyphenated_text(self.bits),
            uuid_text_value(s@) == Some(self.bits),
    {
        to_hyphenated(self.bits)
    }
}

/// Every character of the hyphenated form is a hyphen or a lower-case
/// hexadecimal digit.
pub proof fn lemma_hyphenated_text_alphabet(bits: u128)
    ensures
        hyphenated_text(bits).len() == 36,
        forall|p: int|
            0 <= p < 36 ==> {
                let c = #[trigger] hyphenated_text(bits)[p];
                c == '-' || ('0' <= c && c <= '9') || ('a' <= c && c <= 'f')
            },
{
}

} // verus!
