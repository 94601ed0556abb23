//! Signature verification: HMAC-SHA3-256 over the canonical encoding, keyed
//! with the shared secret, written as lowercase hex and compared with the
//! signature the caller supplied.
use vstd::prelude::*;
use vstd::utf8::encode_utf8;
use crate::payload::{canonical, canonical_json, SharedSecret, WebhookPayload};

verus! {

/// What HMAC with SHA3-256 as its digest gives for a key and a message.
pub uninterp spec fn hmac_sha3_256_of(key: Seq<u8>, msg: Seq<u8>) -> Seq<u8>;

/// The lowercase hexadecimal digit for `v` (0 to 15).
pub open spec fn hex_digit(v: int) -> char {
    seq!['0', '1', '2', '3', '4', '5', '6', '7', '8', '9', 'a', 'b', 'c', 'd', 'e', 'f'][v]
}

/// Two lowercase hexadecimal digits per byte, high half first.
pub open spec fn hex_lower(b: Seq<u8>) -> Seq<char> {
    Seq::new(
        (2 * b.len()) as nat,
        |i: int|
            if i % 2 == 0 {
                hex_digit(b[i / 2] as int / 16)
            } else {
                hex_digit(b[i / 2] as int % 16)
            },
    )
}

/// The signature that the holder of `secret` writes for `p`.
pub open spec fn expected_signature(secret: Seq<char>, p: WebhookPayload) -> Seq<char> {
    hex_lower(hmac_sha3_256_of(encode_utf8(secret), encode_utf8(canonical(p))))
}

/// Relies on hmac's `Hmac<Sha3_256>`: `new_from_slice` keys it (it takes a
/// key of any length and never fails), `update` feeds the message and
/// `finalize` gives the tag.
#[verifier::external_body]
pub(crate) fn hmac_sha3_256(key: &[u8], msg: &[u8]) -> (r: Option<Vec<u8>>)
    ensures
        r.is_some(),
        r.unwrap()@ == hmac_sha3_256_of(key@, msg@),
{
    match <hmac::Hmac<sha3::Sha3_256> as hmac::Mac>::new_from_slice(key) {
        Ok(mut m) => {
            hmac::Mac::update(&mut m, msg);
            Some(hmac::Mac::finalize(m).into_bytes().to_vec())
        },
        Err(_) => None,
    }
}

/// Relies on hex::encode: two lowercase digits for each byte, in order.
#[verifier::external_body]
pub(crate) fn hex_encode(b: &[u8]) -> (r: String)
    ensures
        r@ == hex_lower(b@),
{
    hex::encode(b)
}

/// Compares two byte strings of equal length without an early exit, so the
/// time taken does not reveal where they first differ.
pub fn bytes_equal_ct(a: &[u8], b: &[u8]) -> (r: bool)
    ensures
        r == (a@ == b@),
{
    if a.len() != b.len() {
        return false;
    }
    let mut diff: u8 = 0;
    let mut i: usize = 0;
    assert(a@.subrange(0, 0) =~= b@.subrange(0, 0));
    while i < a.len()
        invariant
            a.len() == b.len(),
            i <= a.len(),
            (diff == 0) == (a@.subrange(0, i as int) == b@.subrange(0, i as int)),
        decreases a.len() - i,
    {
        let x = a[i];
        let y = b[i];
        assert((diff | (x ^ y)) == 0 <==> (diff == 0 && x == y)) by (bit_vector);
        assert(a@.subrange(0, i + 1) =~= a@.subrange(0, i as int).push(x));
        assert(b@.subrange(0, i + 1) =~= b@.subrange(0, i as int).push(y));
        proof {
            if a@.subrange(0, i + 1) == b@.subrange(0, i + 1) {
                assert(a@.subrange(0, i + 1).drop_last() =~= a@.subrange(0, i as int));
                assert(b@.subrange(0, i + 1).drop_last() =~= b@.subrange(0, i as int));
                assert(a@.subrange(0, i + 1).last() == x);
            }
        }
        diff = diff | (x ^ y);
        i += 1;
    }
    assert(a@.subrange(0, a.len() as int) =~= a@);
    assert(b@.subrange(0, b.len() as int) =~= b@);
    diff == 0
}

/// Whether `signature` is the lowercase hex form of `digest`. The comparison
/// takes no shortcut on the first differing byte.
pub fn signature_matches(digest: &[u8], signature: &str) -> (r: bool)
    ensures
        r == (signature@ == hex_lower(digest@)),
{
    let expected = hex_encode(digest);
    let r = bytes_equal_ct(expected.as_str().as_bytes(), signature.as_bytes());
    proof {
        vstd::utf8::encode_utf8_decode_utf8(expected@);
        vstd::utf8::encode_utf8_decode_utf8(signature@);
    }
    r
}

/// Whether `signature` is the HMAC-SHA3-256 of the canonical encoding of
/// `payload`, keyed with the secret, in lowercase hex.
pub fn verify_signature(payload: &WebhookPayload, secret: &SharedSecret, signature: &str) -> (r:
    bool)
    ensures
        r == (signature@ == expected_signature(secret.value@, *payload)),
{
    let encoded = canonical_json(payload);
    match hmac_sha3_256(secret.value.as_str().as_bytes(), encoded.as_str().as_bytes()) {
        Some(digest) => signature_matches(digest.as_slice(), signature),
        None => false,
    }
}

} // verus!
