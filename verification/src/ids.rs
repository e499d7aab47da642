//! Identifiers: 128-bit UUIDs, created and rendered by the `uuid` crate.

use vstd::prelude::*;
use uuid::Uuid;
use crate::text::hex_char;

verus! {

/// A failed parse with the error text `e`.
pub open spec fn err_id(e: Seq<char>) -> Result<u128, Seq<char>> {
    Err(e)
}

/// A successful parse giving `v`.
pub open spec fn ok_id(v: u128) -> Result<u128, Seq<char>> {
    Ok(v)
}

/// The bits that `Uuid::new_v4` fixes: the version nibble and the variant bits.
pub open spec fn v4_mask() -> u128 {
    0xF000_C000_0000_0000_0000u128
}

/// The values of the fixed bits of a version 4 UUID.
pub open spec fn v4_bits() -> u128 {
    0x4000_8000_0000_0000_0000u128
}

/// Whether `c` may appear in the hyphenated form of a UUID.
pub open spec fn is_uuid_char(c: char) -> bool {
    ('0' <= c && c <= '9') || ('a' <= c && c <= 'f') || c == '-'
}

/// The 32 lower-case hex digits of an id, most significant first.
pub open spec fn id_digits(id: u128) -> Seq<char> {
    Seq::new(32, |k: int| hex_char(((id >> ((124 - 4 * k) as u128)) & 15u128) as nat))
}

/// The text that `Uuid`'s `Display` gives for an id: its hex digits in
/// groups of 8, 4, 4, 4 and 12, joined by hyphens.
pub open spec fn uuid_text(id: u128) -> Seq<char> {
    let d = id_digits(id);
    d.subrange(0, 8) + seq!['-'] + d.subrange(8, 12) + seq!['-'] + d.subrange(12, 16) + seq!['-']
        + d.subrange(16, 20) + seq!['-'] + d.subrange(20, 32)
}

/// What `Uuid::parse_str` gives for a text: the id, or the error's text.
pub uninterp spec fn uuid_parse(text: Seq<char>) -> Result<u128, Seq<char>>;

/// Calls `Uuid::new_v4`. The id is random; the source masks in the version
/// nibble 4 and the RFC 4122 variant bits, and that is all that is stated.
#[verifier::external_body]
fn new_v4_value() -> (r: u128)
    ensures
        r & v4_mask() == v4_bits(),
{
    Uuid::new_v4().as_u128()
}

/// Renders an id with `Uuid`'s `Display`: the source writes 32 lower-case hex
/// digits in groups 8-4-4-4-12 joined by hyphens, 36 ASCII characters, a form
/// that `Uuid::parse_str` reads back as the same id.
#[verifier::external_body]
fn uuid_display(id: u128) -> (r: String)
    ensures
        r@ == uuid_text(id),
        uuid_parse(r@) == ok_id(id),
        r@.len() == 36,
        forall|i: int| 0 <= i < 36 ==> is_uuid_char(#[trigger] r@[i]),
{
    Uuid::from_u128(id).to_string()
}

/// Calls `Uuid::parse_str`, giving the id or the error's text.
#[verifier::external_body]
fn uuid_parse_text(text: &str) -> (r: Result<u128, String>)
    ensures
        match r {
            Ok(v) => uuid_parse(text@) == ok_id(v),
            Err(e) => uuid_parse(text@) == err_id(e@),
        },
{
    match Uuid::parse_str(text) {
        Ok(u) => Ok(u.as_u128()),
        Err(e) => Err(e.to_string()),
    }
}

/// A fresh random version 4 id.
pub fn new_id() -> (r: u128)
    ensures
        r & v4_mask() == v4_bits(),
{
    new_v4_value()
}

/// That a version 4 id is never the nil id.
pub proof fn lemma_v4_not_nil(id: u128)
    requires
        id & v4_mask() == v4_bits(),
    ensures
        id != 0,
{
    assert(id == 0 ==> id & v4_mask() == 0) by (bit_vector);
}

/// The hyphenated text of an id.
pub fn id_to_string(id: u128) -> (r: String)
    ensures
        r@ == uuid_text(id),
        uuid_parse(r@) == ok_id(id),
        r@.len() == 36,
        forall|i: int| 0 <= i < 36 ==> is_uuid_char(#[trigger] r@[i]),
{
    uuid_display(id)
}

/// Parses an id, giving the error's text on failure.
pub fn parse_id(text: &str) -> (r: Result<u128, String>)
    ensures
        match r {
            Ok(v) => uuid_parse(text@) == ok_id(v),
            Err(e) => uuid_parse(text@) == err_id(e@),
        },
{
    uuid_parse_text(text)
}

} // verus!
