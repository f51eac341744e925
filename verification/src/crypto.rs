//! Cryptographic material for the PKCE authorization flow: the code
//! verifier, its derived code challenge, and the anti-CSRF state value.
//!
//! All randomness comes from a cryptographically secure source; a failure
//! of that source panics and thereby aborts the flow, as required.

use vstd::prelude::*;
use vstd::string::StringSliceAdditionalSpecFns;
use base64::Engine;
use sha2::Digest;

verus! {

/// The SHA-256 digest of a byte string.
pub uninterp spec fn sha256_of(b: Seq<u8>) -> Seq<u8>;

/// The base64url encoding (URL-safe alphabet, no padding) of a byte string.
pub uninterp spec fn b64url_of(b: Seq<u8>) -> Seq<char>;

/// The PKCE code challenge derived from the encoded bytes of a verifier:
/// SHA-256, then base64url without padding.
pub open spec fn challenge_of(verifier_bytes: Seq<u8>) -> Seq<char> {
    b64url_of(sha256_of(verifier_bytes))
}

/// Relies on sha2's `Sha256`: the digest is a pure function of the input
/// bytes and is exactly 32 bytes long.
#[verifier::external_body]
fn sha256_digest(b: &[u8]) -> (r: Vec<u8>)
    ensures
        r@ == sha256_of(b@),
        r@.len() == 32,
{
    sha2::Sha256::digest(b).to_vec()
}

/// Relies on base64's `URL_SAFE_NO_PAD` engine: the encoding is a pure
/// function of the input bytes over the URL-safe alphabet without
/// padding, and that alphabet is ASCII.
#[verifier::external_body]
fn b64url_encode(b: &[u8]) -> (r: String)
    ensures
        r@ == b64url_of(b@),
        r.is_ascii(),
{
    base64::engine::general_purpose::URL_SAFE_NO_PAD.encode(b)
}

/// Relies on rand's thread-local generator, a cryptographically secure
/// source: the returned buffer has the requested length and is freshly
/// filled. Nothing is assumed of the byte values. A failure to seed the
/// source panics, which aborts the flow immediately.
#[verifier::external_body]
fn random_bytes(n: usize) -> (r: Vec<u8>)
    ensures
        r@.len() == n,
{
    let mut buf = vec![0u8; n];
    rand::Rng::fill_bytes(&mut rand::rng(), buf.as_mut_slice());
    buf
}

/// Generates a fresh PKCE code verifier: 64 random bytes, base64url-encoded
/// without padding.
pub fn generate_code_verifier() -> (r: String)
    ensures
        exists|b: Seq<u8>| b.len() == 64 && r@ == b64url_of(b),
        r.is_ascii(),
{
    let bytes = random_bytes(64);
    let r = b64url_encode(bytes.as_slice());
    proof {
        assert(bytes@.len() == 64 && r@ == b64url_of(bytes@));
    }
    r
}

/// Derives the code challenge from a verifier: the SHA-256 digest of the
/// verifier's encoded bytes, base64url-encoded without padding. This is a
/// pure function of its input.
pub fn generate_code_challenge(verifier: &str) -> (r: String)
    ensures
        r@ == challenge_of(verifier.spec_bytes()),
        r.is_ascii(),
{
    let digest = sha256_digest(verifier.as_bytes());
    b64url_encode(digest.as_slice())
}

/// Generates a fresh anti-CSRF state value: 16 random bytes,
/// base64url-encoded without padding.
pub fn generate_state() -> (r: String)
    ensures
        exists|b: Seq<u8>| b.len() == 16 && r@ == b64url_of(b),
        r.is_ascii(),
{
    let bytes = random_bytes(16);
    let r = b64url_encode(bytes.as_slice());
    proof {
        assert(bytes@.len() == 16 && r@ == b64url_of(bytes@));
    }
    r
}

/// Law: deriving the code challenge is deterministic — equal verifier
/// bytes always yield the same challenge.
pub proof fn lemma_challenge_deterministic(v1: Seq<u8>, v2: Seq<u8>)
    requires
        v1 == v2,
    ensures
        challenge_of(v1) == challenge_of(v2),
{
}

} // verus!
