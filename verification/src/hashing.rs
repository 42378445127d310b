//! SHA-256 digests (from the `sha2` crate) and their `sha256:` hex fingerprints.
use vstd::prelude::*;
use crate::domain::{identifier_check, is_visible_ascii, lemma_visible_identifier};
use crate::text::{concat2, has_prefix, hex_lower, is_lower_hex_char, is_sha256_fingerprint_spec, lemma_hex_lower_chars, to_hex_lower};
use sha2::Digest;

verus! {

/// The SHA-256 digest of `data`, as the `sha2` crate computes it.
pub uninterp spec fn sha256_digest_spec(data: Seq<u8>) -> Seq<u8>;

/// Calls `sha2::Sha256::digest` on `data` and returns the 32-byte digest. The contract
/// claims that the result is the digest of `data` (named, not defined here) and that
/// it has 32 bytes, the output size `Sha256` declares.
#[verifier::external_body]
fn sha256_digest(data: &[u8]) -> (res: Vec<u8>)
    ensures
        res@ == sha256_digest_spec(data@),
        res@.len() == 32,
{
    sha2::Sha256::digest(data).to_vec()
}

/// `sha256:` followed by the lowercase hex digest of `data`.
pub open spec fn sha256_fingerprint_spec(data: Seq<u8>) -> Seq<char> {
    "sha256:"@ + hex_lower(sha256_digest_spec(data))
}

/// The lowercase hex SHA-256 digest of `data`.
pub fn sha256_hex(data: &[u8]) -> (res: String)
    ensures
        res@ == hex_lower(sha256_digest_spec(data@)),
        sha256_digest_spec(data@).len() == 32,
{
    let digest = sha256_digest(data);
    to_hex_lower(digest.as_slice())
}

/// The fingerprint `sha256:<hex digest>` of `data`.
pub fn sha256_fingerprint(data: &[u8]) -> (res: String)
    ensures
        res@ == sha256_fingerprint_spec(data@),
        sha256_digest_spec(data@).len() == 32,
{
    let hex = sha256_hex(data);
    concat2("sha256:", hex.as_str())
}

/// The fingerprint of the UTF-8 bytes of `text`.
pub fn sha256_fingerprint_of_text(text: &str) -> (res: String)
    ensures
        res@ == sha256_fingerprint_spec(vstd::utf8::encode_utf8(text@)),
        sha256_digest_spec(vstd::utf8::encode_utf8(text@)).len() == 32,
{
    sha256_fingerprint(text.as_bytes())
}

/// A fingerprint of a 32-byte digest is a valid identifier: 71 visible ASCII characters.
pub proof fn lemma_fingerprint_identifier(data: Seq<u8>)
    requires
        sha256_digest_spec(data).len() == 32,
    ensures
        sha256_fingerprint_spec(data).len() == 71,
        is_sha256_fingerprint_spec(sha256_fingerprint_spec(data)),
        identifier_check(sha256_fingerprint_spec(data)) is Ok,
{
    reveal_strlit("sha256:");
    let hex = hex_lower(sha256_digest_spec(data));
    lemma_hex_lower_chars(sha256_digest_spec(data));
    let s = sha256_fingerprint_spec(data);
    assert forall|k: int| 0 <= k < s.len() implies is_visible_ascii(#[trigger] s[k]) by {
        if k >= 7 {
            assert(s[k] == hex[k - 7]);
            assert(is_lower_hex_char(hex[k - 7]));
        }
    }
    assert(s.subrange(0, 7) =~= "sha256:"@);
    assert(has_prefix(s, "sha256:"@));
    lemma_visible_identifier(s);
}

} // verus!
