//! Participant identifiers: 128-bit numbers, written as hyphenated UUID text in frames.

use uuid::Uuid;
use vstd::prelude::*;

verus! {

/// The text that the `uuid` crate writes for the identifier `id`: thirty-two lower-case
/// hexadecimal digits in five hyphenated groups.
pub uninterp spec fn uuid_text(id: u128) -> Seq<char>;

/// The identifier that the `uuid` crate reads from `text`, if it reads one.
pub uninterp spec fn uuid_parsed(text: Seq<char>) -> Option<u128>;

/// The version of the identifier `id`: the first digit of the third group of its text.
pub open spec fn version_of(id: u128) -> u128 {
    id / 0x1000_0000_0000_0000_0000 % 16
}

/// The two leading bits of the fourth group of the text of the identifier `id`, which tell
/// its variant.
pub open spec fn variant_bits_of(id: u128) -> u128 {
    id / 0x4000_0000_0000_0000 % 4
}

/// Whether `id` is an identifier as they are drawn at random: of version four, and of the
/// variant of the UUID standard. Its other 122 bits are free.
pub open spec fn is_random_id(id: u128) -> bool {
    version_of(id) == 4 && variant_bits_of(id) == 2
}

/// `Uuid::new_v4`, as a number: a random identifier of version four and of the variant of the
/// UUID standard, to which the crate sets six of its bits. Nothing is said of the others.
#[verifier::external_body]
pub(crate) fn fresh_id() -> (id: u128)
    ensures
        is_random_id(id),
{
    Uuid::new_v4().as_u128()
}

/// `Uuid`'s `to_string`: the hyphenated text of the identifier.
#[verifier::external_body]
pub(crate) fn id_text(id: u128) -> (text: String)
    ensures
        text@ == uuid_text(id),
{
    Uuid::from_u128(id).to_string()
}

/// `Uuid::parse_str`: the identifier that `text` spells, in any of the forms the crate reads.
#[verifier::external_body]
pub(crate) fn parse_id(text: &str) -> (id: Option<u128>)
    ensures
        id == uuid_parsed(text@),
{
    match Uuid::parse_str(text) {
        Ok(u) => Some(u.as_u128()),
        Err(_) => None,
    }
}

/// A new participant identifier drawn at random: an identifier of version four and of the
/// variant of the UUID standard.
pub fn new_participant_id() -> (id: u128)
    ensures
        is_random_id(id),
{
    fresh_id()
}

/// The text under which participant `id` appears in frames.
pub fn participant_text(id: u128) -> (text: String)
    ensures
        text@ == uuid_text(id),
{
    id_text(id)
}

/// The participant that `text` names, if it names one.
pub fn participant_from_text(text: &str) -> (id: Option<u128>)
    ensures
        id == uuid_parsed(text@),
{
    parse_id(text)
}

/// The decimal digits of `n`, as the standard library writes them.
pub uninterp spec fn decimal_text(n: usize) -> Seq<char>;

/// `ToString::to_string` of a `usize`: its decimal digits.
#[verifier::external_body]
pub(crate) fn number_text(n: usize) -> (text: String)
    ensures
        text@ == decimal_text(n),
{
    n.to_string()
}

} // verus!
