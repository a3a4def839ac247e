//! Content hashing and the hashlock primitive.
//!
//! Every identity key of the protocol — escrow immutables, orders,
//! cross-chain correlations — is a 256-bit Keccak digest of a byte-exact
//! field encoding.  The digest itself comes from an outside implementation
//! and is only named here: nothing in this crate restates the permutation.

use vstd::prelude::*;
use vstd::string::StringSliceAdditionalSpecFns;
use vstd::utf8::is_ascii_chars;

verus! {

/// A 256-bit content digest.
pub type Digest = [u8; 32];

/// The Keccak-256 digest of a byte sequence.  The value is a function of
/// the bytes alone; no further structure is assumed of it.
pub uninterp spec fn keccak256(bytes: Seq<u8>) -> Seq<u8>;

/// Relies on `sha3::Keccak256` (through the `digest::Digest` trait): the
/// 32-byte Keccak-256 digest of the input, a function of the input bytes
/// alone.
#[verifier::external_body]
pub fn keccak256_digest(bytes: &[u8]) -> (r: Digest)
    ensures
        r@ == keccak256(bytes@),
{
    let out = <sha3::Keccak256 as sha3::digest::Digest>::digest(bytes);
    out.into()
}

/// The lower-case hex character for a value below sixteen.
pub open spec fn spec_hex_char(n: u8) -> char
    recommends
        n < 16,
{
    if n == 0 { '0' } else if n == 1 { '1' } else if n == 2 { '2' }
    else if n == 3 { '3' } else if n == 4 { '4' } else if n == 5 { '5' }
    else if n == 6 { '6' } else if n == 7 { '7' } else if n == 8 { '8' }
    else if n == 9 { '9' } else if n == 10 { 'a' } else if n == 11 { 'b' }
    else if n == 12 { 'c' } else if n == 13 { 'd' } else if n == 14 { 'e' }
    else { 'f' }
}

/// The lower-case hex encoding of a byte sequence: two characters per
/// byte, high nibble first.
pub open spec fn spec_hex(bytes: Seq<u8>) -> Seq<char>
    decreases bytes.len(),
{
    if bytes.len() == 0 {
        seq![]
    } else {
        seq![
            spec_hex_char(bytes.first() / 16),
            spec_hex_char(bytes.first() % 16),
        ] + spec_hex(bytes.drop_first())
    }
}

/// The hex encoding is twice as long as its input.
pub proof fn lemma_spec_hex_len(bytes: Seq<u8>)
    ensures
        spec_hex(bytes).len() == 2 * bytes.len(),
    decreases bytes.len(),
{
    if bytes.len() > 0 {
        lemma_spec_hex_len(bytes.drop_first());
    }
}

/// Every character of a hex encoding is ASCII.
pub proof fn lemma_spec_hex_ascii(bytes: Seq<u8>)
    ensures
        is_ascii_chars(spec_hex(bytes)),
    decreases bytes.len(),
{
    if bytes.len() > 0 {
        lemma_spec_hex_ascii(bytes.drop_first());
        assert forall|i| 0 <= i < spec_hex(bytes).len() implies
            '\0' <= #[trigger] spec_hex(bytes)[i] <= '\u{7f}' by {
            if i >= 2 {
                assert(spec_hex(bytes)[i] == spec_hex(bytes.drop_first())[i - 2]);
            }
        }
    }
}

/// Relies on `hex::encode`: the lower-case hex encoding of the input,
/// two digits per byte, high nibble first.
#[verifier::external_body]
pub fn hex_encode(bytes: &[u8]) -> (r: String)
    ensures
        r@ == spec_hex(bytes@),
{
    hex::encode(bytes)
}

/// Whether two digests hold the same bytes.
pub fn digest_eq(a: &Digest, b: &Digest) -> (r: bool)
    ensures
        r == (a@ == b@),
{
    let mut i: usize = 0;
    while i < 32
        invariant
            i <= 32,
            forall|j: int| 0 <= j < i ==> a@[j] == b@[j],
        decreases 32 - i,
    {
        if a[i] != b[i] {
            return false;
        }
        i += 1;
    }
    proof {
        assert(a@ =~= b@);
    }
    true
}

/// Whether a secret's digest coincides with a stored hashlock.
pub open spec fn spec_secret_matches(secret_bytes: Seq<u8>, hashlock: Seq<u8>) -> bool {
    keccak256(secret_bytes) == hashlock
}

/// Hashlock verification: the digest of the secret's raw bytes must equal
/// the stored hashlock exactly.  No partial match, no normalization.
pub fn verify_secret(secret: &str, expected_hash: &Digest) -> (r: bool)
    ensures
        r == spec_secret_matches(secret.spec_bytes(), expected_hash@),
{
    let computed = keccak256_digest(secret.as_bytes());
    digest_eq(&computed, expected_hash)
}

/// A secret always verifies against its own digest.
pub proof fn lemma_secret_matches_own_hash(secret_bytes: Seq<u8>)
    ensures
        spec_secret_matches(secret_bytes, keccak256(secret_bytes)),
{
}

/// A secret verifies against a hashlock only when its digest is exactly
/// that hashlock: any candidate whose digest differs is rejected.
pub proof fn lemma_secret_mismatch(candidate: Seq<u8>, secret_bytes: Seq<u8>)
    requires
        keccak256(candidate) != keccak256(secret_bytes),
    ensures
        !spec_secret_matches(candidate, keccak256(secret_bytes)),
{
}

} // verus!
