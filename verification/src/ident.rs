//! Identifiers of users and todo items.

use vstd::arithmetic::power::pow;
use vstd::prelude::*;

verus! {

/// A 128-bit universally unique identifier.
#[derive(Clone, Copy, Debug, PartialEq, Eq, Structural, Hash)]
pub struct Id {
    pub value: u128,
}

/// Whether `value` has the six fixed bits of a random identifier: the
/// thirteenth hexadecimal digit, the version, is 4, and the two bits that
/// follow the sixteenth digit's place, the variant, are 1 and 0.
pub open spec fn is_version_4(value: u128) -> bool {
    value & 0x0000_0000_0000_f000_c000_0000_0000_0000u128
        == 0x0000_0000_0000_4000_8000_0000_0000_0000u128
}

/// What `uuid::Uuid::parse_str` reads from `text`: the identifier's 128 bits,
/// or `None` where the text is no identifier.
pub uninterp spec fn uuid_parsed(text: Seq<char>) -> Option<u128>;

/// The `k`-th of the 32 hexadecimal digits of `value`, counted from the
/// left, in lower case.
pub open spec fn hex_digit_at(value: u128, k: int) -> char {
    let digit = (value as int / pow(16, (31 - k) as nat)) % 16;
    if digit < 10 {
        (digit + 48) as u8 as char
    } else {
        (digit + 87) as u8 as char
    }
}

/// The hyphenated text of the identifier with bits `value`: its 32
/// hexadecimal digits in lower case, in groups of 8, 4, 4, 4 and 12 with a
/// `-` between them.
pub open spec fn uuid_hyphenated(value: u128) -> Seq<char> {
    Seq::new(
        36,
        |i: int|
            if i == 8 || i == 13 || i == 18 || i == 23 {
                '-'
            } else if i < 8 {
                hex_digit_at(value, i)
            } else if i < 13 {
                hex_digit_at(value, i - 1)
            } else if i < 18 {
                hex_digit_at(value, i - 2)
            } else if i < 23 {
                hex_digit_at(value, i - 3)
            } else {
                hex_digit_at(value, i - 4)
            },
    )
}

/// Calls `uuid::Uuid::parse_str`, which accepts the simple, hyphenated, URN
/// and braced forms, and hands back the identifier's bits. The result is
/// named, not described.
#[verifier::external_body]
pub(crate) fn uuid_parse(text: &str) -> (r: Option<u128>)
    ensures
        r == uuid_parsed(text@),
{
    uuid::Uuid::parse_str(text).ok().map(|u| u.as_u128())
}

/// Calls `to_string` on the `uuid::Uuid` made of `value`, which writes the
/// lower-case hyphenated form. The contract also claims what the
/// documentation of `parse_str` promises of every form that the crate
/// writes: parsing the text gives the identifier back.
#[verifier::external_body]
pub(crate) fn uuid_format(value: u128) -> (r: String)
    ensures
        r@ == uuid_hyphenated(value),
        uuid_parsed(r@) == Some(value),
{
    uuid::Uuid::from_u128(value).to_string()
}

/// Calls `uuid::Uuid::new_v4`, which draws 128 random bits and then fixes
/// six of them: the version becomes 4 and the variant the one of RFC 4122.
/// The contract claims those six bits and nothing of the others. The call
/// unwinds where the operating system gives no random bytes; no argument
/// decides that.
#[verifier::external_body]
pub(crate) fn uuid_random() -> (r: u128)
    ensures
        is_version_4(r),
{
    uuid::Uuid::new_v4().as_u128()
}

impl Id {
    /// The identifier with the given bits.
    pub fn new(value: u128) -> (id: Id)
        ensures
            id.value == value,
    {
        Id { value }
    }

    /// A fresh random identifier, of version 4.
    pub fn random() -> (id: Id)
        ensures
            is_version_4(id.value),
    {
        Id { value: uuid_random() }
    }

    /// Reads an identifier from its text.
    pub fn parse(text: &str) -> (r: Option<Id>)
        ensures
            r == Id::parsed(text@),
    {
        match uuid_parse(text) {
            Some(value) => Some(Id { value }),
            None => None,
        }
    }

    /// The identifier that `text` stands for, if any.
    pub open spec fn parsed(text: Seq<char>) -> Option<Id> {
        match uuid_parsed(text) {
            Some(value) => Some(Id { value }),
            None => None,
        }
    }

    /// The identifier's text.
    pub open spec fn text(self) -> Seq<char> {
        uuid_hyphenated(self.value)
    }

    /// Writes the identifier as text; reading the text gives it back.
    pub fn to_text(&self) -> (r: String)
        ensures
            r@ == self.text(),
            Id::parsed(r@) == Some(*self),
    {
        uuid_format(self.value)
    }
}

} // verus!
