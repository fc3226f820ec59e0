//! 128-bit identifiers and their textual form.
//!
//! Identifiers are carried as `u128`; the `uuid` crate mints them and turns
//! them to and from text.

use vstd::prelude::*;
use crate::text::{chars_of, string_of};

verus! {

/// The sixteen lower-case hexadecimal digits, by value.
pub open spec fn hex_digits() -> Seq<char> {
    seq!['0', '1', '2', '3', '4', '5', '6', '7', '8', '9', 'a', 'b', 'c', 'd', 'e', 'f']
}

/// Sixteen to the power `n`.
pub open spec fn pow16(n: nat) -> nat
    decreases n,
{
    if n == 0 {
        1
    } else {
        16 * pow16((n - 1) as nat)
    }
}

/// The `k`-th hexadecimal digit of `id`, counted from the most significant
/// (`k` = 0) to the least (`k` = 31).
pub open spec fn nibble(id: u128, k: int) -> int {
    (id as int / pow16((31 - k) as nat) as int) % 16
}

/// The 32 lower-case hexadecimal digits of `id`, most significant first.
pub open spec fn simple_text(id: u128) -> Seq<char> {
    Seq::new(32, |k: int| hex_digits()[nibble(id, k)])
}

/// The hyphenated form of `id`: its 32 digits in groups of 8, 4, 4, 4 and 12.
pub open spec fn id_text(id: u128) -> Seq<char> {
    simple_text(id).subrange(0, 8) + seq!['-'] + simple_text(id).subrange(8, 12) + seq!['-']
        + simple_text(id).subrange(12, 16) + seq!['-'] + simple_text(id).subrange(16, 20)
        + seq!['-'] + simple_text(id).subrange(20, 32)
}

/// What `uuid::Uuid::parse_str` makes of a text: the identifier it reads, or
/// `None` where it rejects the text.
pub uninterp spec fn parsed_id(text: Seq<char>) -> Option<u128>;

/// The bits of an identifier that hold its version and variant.
pub const VERSION_VARIANT_MASK: u128 = 0x0000_0000_0000_f000_c000_0000_0000_0000;

/// The version and variant bits of a random identifier: version 4, variant
/// `10`.
pub const RANDOM_VERSION_VARIANT: u128 = 0x0000_0000_0000_4000_8000_0000_0000_0000;

/// Whether an identifier carries the version and variant of a random one.
pub open spec fn is_random_id(id: u128) -> bool {
    id & VERSION_VARIANT_MASK == RANDOM_VERSION_VARIANT
}

/// Calls `uuid::Uuid::new_v4`: a random identifier. Chance decides its
/// value; the crate sets the version bits to 4 and the variant bits to
/// `10` in every identifier it returns.
#[verifier::external_body]
fn fresh_id() -> (id: u128)
    ensures
        is_random_id(id),
{
    uuid::Uuid::new_v4().as_u128()
}

/// A new random identifier. It is never zero.
pub fn new_id() -> (id: u128)
    ensures
        is_random_id(id),
        id != 0,
{
    let id = fresh_id();
    assert(id & 0x0000_0000_0000_f000_c000_0000_0000_0000
        == 0x0000_0000_0000_4000_8000_0000_0000_0000 ==> id != 0) by (bit_vector);
    id
}

/// Calls `Display` of `uuid::Uuid`, which writes the hyphenated lower-case
/// form: 32 hexadecimal digits, most significant first, in groups of 8, 4,
/// 4, 4 and 12. That form is one of those that `Uuid::parse_str` reads, and
/// it reads it back as the same identifier.
#[verifier::external_body]
fn display_id(id: u128) -> (text: String)
    ensures
        text@ == id_text(id),
        parsed_id(text@) == Some(id),
{
    uuid::Uuid::from_u128(id).to_string()
}

/// Calls `uuid::Uuid::parse_str`; the contract only names its result.
#[verifier::external_body]
fn parse_uuid(text: &str) -> (id: Option<u128>)
    ensures
        id == parsed_id(text@),
{
    match uuid::Uuid::parse_str(text) {
        Ok(u) => Some(u.as_u128()),
        Err(_) => None,
    }
}

/// The hyphenated text of an identifier. It has 36 characters, and reads
/// back as the identifier.
pub fn format_id(id: u128) -> (text: String)
    ensures
        text@ == id_text(id),
        text@.len() == 36,
        parsed_id(text@) == Some(id),
{
    display_id(id)
}

/// Reads an identifier from text, in any form the `uuid` crate accepts.
pub fn parse_id(text: &str) -> (id: Option<u128>)
    ensures
        id == parsed_id(text@),
{
    parse_uuid(text)
}

/// The 32 hexadecimal digits of an identifier, without hyphens.
pub fn format_id_simple(id: u128) -> (text: String)
    ensures
        text@ == simple_text(id),
{
    let dashed = display_id(id);
    let cs = chars_of(dashed.as_str());
    let mut out = string_of(&cs, 0, 8);
    let g2 = string_of(&cs, 9, 13);
    let g3 = string_of(&cs, 14, 18);
    let g4 = string_of(&cs, 19, 23);
    let g5 = string_of(&cs, 24, 36);
    out.push_str(g2.as_str());
    out.push_str(g3.as_str());
    out.push_str(g4.as_str());
    out.push_str(g5.as_str());
    assert(out@ =~= simple_text(id));
    out
}

} // verus!
