//! User and key identifiers.
//!
//! Identifiers are UUIDs. The library holds them as their 128-bit value and
//! stores them as text in the hyphenated lower-case form that `uuid` prints.
use vstd::arithmetic::power2::pow2;
use vstd::prelude::*;
use webauthn_rs::prelude::Uuid;

verus! {

/// The lower-case hexadecimal digit for `d` (`0 <= d < 16`).
pub open spec fn hex_lower(d: int) -> char {
    if d < 10 {
        ((('0' as u32) + d) as u32) as char
    } else {
        ((('a' as u32) + d - 10) as u32) as char
    }
}

/// The `k`-th hexadecimal digit of `id`, counting from the most significant one
/// (`0 <= k < 32`).
pub open spec fn uuid_digit(id: u128, k: int) -> int {
    ((id as nat) / pow2((4 * (31 - k)) as nat)) as int % 16
}

/// Which hexadecimal digit of the UUID stands at position `i` of its text.
pub open spec fn uuid_digit_index(i: int) -> int {
    if i < 8 {
        i
    } else if i < 13 {
        i - 1
    } else if i < 18 {
        i - 2
    } else if i < 23 {
        i - 3
    } else {
        i - 4
    }
}

/// Whether position `i` of a UUID's text holds a hyphen.
pub open spec fn is_uuid_hyphen(i: int) -> bool {
    i == 8 || i == 13 || i == 18 || i == 23
}

/// The 16 bytes of a UUID, most significant first.
pub open spec fn uuid_bytes(id: u128) -> Seq<u8> {
    Seq::new(16, |i: int| (((id as nat) / pow2((8 * (15 - i)) as nat)) % 256) as u8)
}

/// The hyphenated lower-case text of a UUID: 36 characters, groups of
/// 8, 4, 4, 4 and 12 hexadecimal digits separated by `-`.
pub open spec fn uuid_text(id: u128) -> Seq<char> {
    Seq::new(
        36,
        |i: int|
            if is_uuid_hyphen(i) {
                '-'
            } else {
                hex_lower(uuid_digit(id, uuid_digit_index(i)))
            },
    )
}

/// What `Uuid::parse_str` gives for a text, taken as the 128-bit value of the UUID.
pub uninterp spec fn uuid_parse(text: Seq<char>) -> Option<u128>;

/// Trusted: `Uuid::parse_str` followed by `Uuid::as_u128`. The result is the
/// named `uuid_parse` of the text; nothing more is claimed.
#[verifier::external_body]
fn uuid_parse_str(text: &str) -> (r: Option<u128>)
    ensures
        r == uuid_parse(text@),
{
    match Uuid::parse_str(text) {
        Ok(u) => Some(u.as_u128()),
        Err(_) => None,
    }
}

/// Trusted: `Uuid::from_u128` followed by `to_string`. `Display` of a `Uuid`
/// writes its hyphenated lower-case form, and `parse_str` reads that form
/// back to the same value.
#[verifier::external_body]
fn uuid_to_text(id: u128) -> (r: String)
    ensures
        r@ == uuid_text(id),
        uuid_parse(r@) == Some(id),
{
    Uuid::from_u128(id).to_string()
}

/// A version 4 (random) UUID of the RFC 4122 variant: its version field
/// (bits 76 to 79) holds 4 and its variant field (bits 62 and 63) holds
/// binary `10`.
pub open spec fn is_v4_uuid(id: u128) -> bool {
    &&& (id >> 76u128) & 0xfu128 == 4u128
    &&& (id >> 62u128) & 0x3u128 == 2u128
}

/// Trusted: `Uuid::new_v4` followed by `Uuid::as_u128`. The value is random,
/// except for its version and variant fields, which `new_v4` sets to 4 and
/// to the RFC 4122 variant.
#[verifier::external_body]
fn uuid_new_v4() -> (r: u128)
    ensures
        is_v4_uuid(r),
{
    Uuid::new_v4().as_u128()
}

/// Parses `text` as a UUID; `None` where it is not one.
pub fn parse_uuid(text: &str) -> (r: Option<u128>)
    ensures
        r == uuid_parse(text@),
{
    uuid_parse_str(text)
}

/// The text under which an identifier is stored: its hyphenated lower-case
/// form, which parses back to the same identifier.
pub fn uuid_string(id: u128) -> (r: String)
    ensures
        r@ == uuid_text(id),
        uuid_parse(r@) == Some(id),
{
    uuid_to_text(id)
}

/// A fresh random identifier: a version 4 UUID.
pub fn new_uuid() -> (r: u128)
    ensures
        is_v4_uuid(r),
{
    uuid_new_v4()
}

/// The text of a UUID is 36 characters long, with hyphens at positions 8, 13,
/// 18 and 23 and lower-case hexadecimal digits everywhere else.
pub proof fn lemma_uuid_text_shape(id: u128)
    ensures
        uuid_text(id).len() == 36,
        forall|i: int| 0 <= i < 36 && is_uuid_hyphen(i) ==> #[trigger] uuid_text(id)[i] == '-',
        forall|i: int|
            0 <= i < 36 && !is_uuid_hyphen(i) ==> {
                let c = #[trigger] uuid_text(id)[i];
                ('0' <= c <= '9') || ('a' <= c <= 'f')
            },
{
    assert forall|i: int| 0 <= i < 36 && !is_uuid_hyphen(i) implies {
        let c = #[trigger] uuid_text(id)[i];
        ('0' <= c <= '9') || ('a' <= c <= 'f')
    } by {
        let d = uuid_digit(id, uuid_digit_index(i));
        assert(0 <= d < 16);
    }
}

} // verus!
