//! Relay session identifiers: UUIDs, carried as their 128 bits.
use vstd::prelude::*;

verus! {

/// The lower-case hexadecimal digit for `n`, which is below 16.
pub open spec fn hex_digit(n: u128) -> char {
    if n < 10 {
        (48 + n) as char
    } else {
        (87 + n) as char
    }
}

/// The `k`-th four-bit group of `id`, counted from the most significant.
pub open spec fn uuid_nibble(id: u128, k: int) -> u128 {
    (id >> ((124 - 4 * k) as u128)) & 0xfu128
}

/// How many hyphens stand before position `p` of a UUID's text.
pub open spec fn hyphens_before(p: int) -> int {
    if p < 8 {
        0
    } else if p < 13 {
        1
    } else if p < 18 {
        2
    } else if p < 23 {
        3
    } else {
        4
    }
}

/// The hyphenated lower-case text of the UUID whose 128 bits are `id`: its
/// 32 hexadecimal digits, most significant first, in groups of 8, 4, 4, 4
/// and 12 joined by hyphens.
pub open spec fn uuid_text(id: u128) -> Seq<char> {
    Seq::new(
        36,
        |p: int|
            if p == 8 || p == 13 || p == 18 || p == 23 {
                '-'
            } else {
                hex_digit(uuid_nibble(id, p - hyphens_before(p)))
            },
    )
}

/// A fresh random version-4 UUID (`uuid::Uuid::new_v4`), as its 128 bits.
/// Trusted: claims what the crate's source shows of every outcome, that the
/// version nibble is 4 and the variant bits are `10`; the rest is random.
#[verifier::external_body]
pub(crate) fn new_relay_session_id() -> (id: u128)
    ensures
        (id >> 76u128) & 0xfu128 == 4,
        (id >> 62u128) & 0x3u128 == 2,
{
    uuid::Uuid::new_v4().as_u128()
}

/// The text of the UUID with bits `id` (`Display` of `uuid::Uuid`).
/// Trusted: claims the crate's documented format, the hyphenated
/// lower-case hexadecimal text of `id`.
#[verifier::external_body]
pub(crate) fn uuid_string(id: u128) -> (s: String)
    ensures
        s@ == uuid_text(id),
{
    uuid::Uuid::from_u128(id).to_string()
}

} // verus!
