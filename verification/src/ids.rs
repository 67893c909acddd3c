//! Identifiers of phones and towers: 128-bit UUIDs, generated at random and
//! written in their hyphenated lowercase form.
use vstd::prelude::*;

verus! {

/// The lowercase hexadecimal digit for a value below sixteen.
pub open spec fn hex_digit(n: int) -> char {
    if n < 10 {
        (48 + n) as char
    } else {
        (87 + n) as char
    }
}

/// The `k`-th hexadecimal digit of `id`, most significant first (`0 <= k < 32`).
pub open spec fn id_nibble(id: u128, k: int) -> int {
    ((id >> ((124 - 4 * k) as u128)) & 0xfu128) as int
}

/// Digits `from..to` of `id`, most significant first.
pub open spec fn id_digits(id: u128, from: int, to: int) -> Seq<char> {
    Seq::new((to - from) as nat, |i: int| hex_digit(id_nibble(id, from + i)))
}

/// The hyphenated form of an identifier: its 32 hexadecimal digits in groups
/// of 8, 4, 4, 4 and 12, joined by `-`.
pub open spec fn id_text(id: u128) -> Seq<char> {
    id_digits(id, 0, 8) + seq!['-'] + id_digits(id, 8, 12) + seq!['-'] + id_digits(id, 12, 16)
        + seq!['-'] + id_digits(id, 16, 20) + seq!['-'] + id_digits(id, 20, 32)
}

/// A random (version 4, RFC 4122 variant) identifier carries the version
/// number 4 in bits 76..80 and the variant `10` in bits 62..64.
pub open spec fn is_random_id(id: u128) -> bool {
    &&& (id >> 76u128) & 0xfu128 == 4
    &&& (id >> 62u128) & 0x3u128 == 2
}

/// Calls `uuid::Uuid::new_v4` and returns the new identifier as a `u128`.
/// `new_v4` masks random bits with the version 4 and RFC 4122 variant bits;
/// the contract claims those bits and nothing of the random rest.
#[verifier::external_body]
pub(crate) fn new_random_id() -> (id: u128)
    ensures
        is_random_id(id),
{
    uuid::Uuid::new_v4().as_u128()
}

/// Calls the `Display` of `uuid::Uuid` (through `to_string`) on the
/// identifier built by `Uuid::from_u128`. The contract claims the hyphenated
/// lowercase form that `uuid`'s formatter writes.
#[verifier::external_body]
pub(crate) fn id_to_text(id: u128) -> (text: String)
    ensures
        text@ == id_text(id),
{
    uuid::Uuid::from_u128(id).to_string()
}

/// A nibble of an identifier is below sixteen.
pub proof fn lemma_nibble_bound(id: u128, k: int)
    ensures
        0 <= id_nibble(id, k) < 16,
{
    let s = (124 - 4 * k) as u128;
    assert((id >> s) & 0xfu128 <= 0xfu128) by (bit_vector);
}

/// The hyphenated form of every identifier is 36 characters long and holds
/// only lowercase hexadecimal digits and hyphens: no comma and no line break,
/// so it stands as one field of a CSV line.
pub proof fn lemma_id_text_is_plain(id: u128)
    ensures
        id_text(id).len() == 36,
        forall|i: int| 0 <= i < 36 ==> {
            let c = #[trigger] id_text(id)[i];
            c != ',' && c != '\n' && (c == '-' || ('0' <= c <= '9') || ('a' <= c <= 'f'))
        },
{
    assert forall|k: int| 0 <= k < 32 implies {
        let c = #[trigger] hex_digit(id_nibble(id, k));
        ('0' <= c <= '9') || ('a' <= c <= 'f')
    } by {
        lemma_nibble_bound(id, k);
    }
    let t = id_text(id);
    assert forall|i: int| 0 <= i < 36 implies {
        let c = #[trigger] t[i];
        c != ',' && c != '\n' && (c == '-' || ('0' <= c <= '9') || ('a' <= c <= 'f'))
    } by {
        if i < 8 {
            assert(t[i] == hex_digit(id_nibble(id, i)));
        } else if i == 8 {
        } else if i < 13 {
            assert(t[i] == hex_digit(id_nibble(id, i - 1)));
        } else if i == 13 {
        } else if i < 18 {
            assert(t[i] == hex_digit(id_nibble(id, i - 2)));
        } else if i == 18 {
        } else if i < 23 {
            assert(t[i] == hex_digit(id_nibble(id, i - 3)));
        } else if i == 23 {
        } else {
            assert(t[i] == hex_digit(id_nibble(id, i - 4)));
        }
    }
}

} // verus!
