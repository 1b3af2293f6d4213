//! Keyed hashing and hex encoding used by the request signer.

use vstd::prelude::*;

verus! {

/// The HMAC-SHA256 digest of `msg` keyed by `key`. The digest itself is far
/// too large to state here; all that matters to callers is that it is a
/// function of the key and the message alone.
pub uninterp spec fn hmac_sha256_of(key: Seq<u8>, msg: Seq<u8>) -> Seq<u8>;

/// The lowercase hex character for a nibble: `0..=9` map to `'0'..='9'`,
/// `10..=15` map to `'a'..='f'`.
pub open spec fn hex_digit_char(n: u8) -> char
    recommends
        n < 16,
{
    if n < 10 {
        ((n + 0x30) as u8) as char
    } else {
        ((n + 0x57) as u8) as char
    }
}

/// Lowercase hex encoding: each byte becomes two hex digits, high nibble
/// first, in input order.
pub open spec fn hex_of(bytes: Seq<u8>) -> Seq<char>
    decreases bytes.len(),
{
    if bytes.len() == 0 {
        Seq::empty()
    } else {
        seq![
            hex_digit_char((bytes.first() / 16) as u8),
            hex_digit_char((bytes.first() % 16) as u8),
        ] + hex_of(bytes.drop_first())
    }
}

pub proof fn lemma_hex_of_len(bytes: Seq<u8>)
    ensures
        hex_of(bytes).len() == 2 * bytes.len(),
    decreases bytes.len(),
{
    if bytes.len() > 0 {
        lemma_hex_of_len(bytes.drop_first());
    }
}

/// Relies on `Hmac::<Sha256>::new_from_slice`, `Mac::update` and
/// `Mac::finalize` of the hmac crate: the digest is HMAC-SHA256 of the
/// message keyed by the key, a function of those two values alone, 32 bytes
/// long. `new_from_slice` accepts a key of any length (short keys are
/// zero-padded, long keys hashed down), so key setup never fails.
#[verifier::external_body]
pub(crate) fn hmac_sha256(key: &[u8], msg: &[u8]) -> (r: Option<Vec<u8>>)
    ensures
        r is Some,
        r matches Some(d) ==> d@ == hmac_sha256_of(key@, msg@) && d@.len() == 32,
{
    let mut mac = match <hmac::Hmac<sha2::Sha256> as hmac::Mac>::new_from_slice(key) {
        Ok(m) => m,
        Err(_) => {
            return None;
        },
    };
    hmac::Mac::update(&mut mac, msg);
    Some(hmac::Mac::finalize(mac).into_bytes().to_vec())
}

/// Relies on `hex::encode`: lowercase hex, two digits per byte, high nibble
/// first, in input order.
#[verifier::external_body]
pub(crate) fn hex_encode(bytes: &[u8]) -> (r: String)
    ensures
        r@ == hex_of(bytes@),
{
    hex::encode(bytes)
}

} // verus!
