use vstd::prelude::*;

verus! {

/// Whether `id` carries the marks of a randomly generated identifier:
/// version 4 in bits 76 to 79 and the variant `10` in bits 62 and 63.
pub open spec fn is_random_id(id: u128) -> bool {
    id & 0x0000_0000_0000_F000_C000_0000_0000_0000u128
        == 0x0000_0000_0000_4000_8000_0000_0000_0000u128
}

/// The lower case hexadecimal digit for a value below 16.
pub open spec fn hex_digit(nibble: u128) -> char {
    seq!['0', '1', '2', '3', '4', '5', '6', '7', '8', '9', 'a', 'b', 'c', 'd', 'e', 'f'][nibble as int]
}

/// Which of the 32 digits, counted from the most significant, stands at
/// index `i` of the hyphenated text, for an index that holds no hyphen.
pub open spec fn digit_index(i: int) -> int {
    if i < 8 {
        i
    } else if i < 13 {
        i - 1
    } else if i < 18 {
        i - 2
    } else if i < 23 {
        i - 3
    } else {
        i - 4
    }
}

/// The character at index `i` of the hyphenated text of `id`.
pub open spec fn hyphenated_char(id: u128, i: int) -> char {
    if i == 8 || i == 13 || i == 18 || i == 23 {
        '-'
    } else {
        hex_digit((id >> ((4 * (31 - digit_index(i))) as u128)) & 0xf)
    }
}

/// The text of an identifier: its 32 lower case hexadecimal digits, most
/// significant first, in groups of 8, 4, 4, 4 and 12 joined by hyphens.
pub open spec fn hyphenated(id: u128) -> Seq<char> {
    Seq::new(36, |i: int| hyphenated_char(id, i))
}

/// The identifier that `uuid::Uuid::parse_str` reads from a text, if any.
pub uninterp spec fn parsed_id(text: Seq<char>) -> Option<u128>;

/// A new random identifier.
///
/// Trusted: calls `uuid::Uuid::new_v4`, which draws 128 random bits and then
/// sets the version and variant bits; the contract claims only those bits.
#[verifier::external_body]
pub(crate) fn fresh_id() -> (id: u128)
    ensures
        is_random_id(id),
{
    uuid::Uuid::new_v4().as_u128()
}

/// The identifier as text.
///
/// Trusted: formats `uuid::Uuid::from_u128(id)` through its `Display` impl,
/// which writes the hyphenated lower case form; the contract claims that the
/// text is exactly [`hyphenated`] of `id`.
#[verifier::external_body]
pub(crate) fn id_text(id: u128) -> (text: String)
    ensures
        text@ == hyphenated(id),
{
    uuid::Uuid::from_u128(id).to_string()
}

/// Reads an identifier from text.
///
/// Trusted: calls `uuid::Uuid::parse_str`; the contract gives its answer the
/// name [`parsed_id`], with `None` where it returns an error.
#[verifier::external_body]
pub(crate) fn parse_id(text: &str) -> (id: Option<u128>)
    ensures
        id == parsed_id(text@),
{
    match uuid::Uuid::parse_str(text) {
        Ok(u) => Some(u.as_u128()),
        Err(_) => None,
    }
}

} // verus!
