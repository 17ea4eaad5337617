//! SHA-256 digests and their hexadecimal text.
use vstd::prelude::*;

use sha2::Digest;

use crate::text::{hex_digits, hex_lower};

verus! {

/// The SHA-256 digest of `data`.
pub uninterp spec fn sha256_spec(data: Seq<u8>) -> Seq<u8>;

/// SHA-256 of `data` (`sha2::Sha256::digest`): the result is the digest named
/// `sha256_spec` of the input bytes, and SHA-256 digests are 32 bytes long.
#[verifier::external_body]
pub(crate) fn sha256(data: &[u8]) -> (r: Vec<u8>)
    ensures
        r@ == sha256_spec(data@),
        r@.len() == 32,
{
    sha2::Sha256::digest(data).to_vec()
}

/// Lowercase hexadecimal text of bytes (`hex::encode`): two digits per byte,
/// most significant first, from the digits `0-9a-f`.
#[verifier::external_body]
pub(crate) fn hex_encode(data: &[u8]) -> (r: String)
    ensures
        r@ == hex_lower(data@),
{
    hex::encode(data)
}

/// Hexadecimal text is twice as long as the bytes it encodes.
pub proof fn lemma_hex_lower_len(bytes: Seq<u8>)
    ensures
        hex_lower(bytes).len() == 2 * bytes.len(),
    decreases bytes.len(),
{
    if bytes.len() > 0 {
        lemma_hex_lower_len(bytes.drop_last());
        reveal_with_fuel(hex_digits, 3);
    }
}

/// The hex text of a prefix of the bytes is the matching prefix of the text.
pub proof fn lemma_hex_lower_prefix(bytes: Seq<u8>, n: nat)
    requires
        n <= bytes.len(),
    ensures
        hex_lower(bytes.subrange(0, n as int)) == hex_lower(bytes).subrange(0, 2 * n as int),
    decreases bytes.len(),
{
    lemma_hex_lower_len(bytes);
    lemma_hex_lower_len(bytes.subrange(0, n as int));
    if n == bytes.len() {
        assert(bytes.subrange(0, n as int) =~= bytes);
        assert(hex_lower(bytes).subrange(0, 2 * n as int) =~= hex_lower(bytes));
    } else {
        let t = bytes.drop_last();
        lemma_hex_lower_prefix(t, n);
        assert(t.subrange(0, n as int) =~= bytes.subrange(0, n as int));
        lemma_hex_lower_len(t);
        assert(hex_lower(bytes) == hex_lower(t) + hex_digits(bytes.last() as nat, 2));
        assert(hex_lower(bytes).subrange(0, 2 * n as int) =~= hex_lower(t).subrange(0, 2 * n as int));
    }
}

} // verus!
