//! Trusted boundary to the cryptographic primitives the agent relies on:
//! SHA-256 digests, Ed25519 signatures, and base64 encoding. Each outside
//! result that has no short description is given a name, and every
//! contract in the library speaks of these names.

use vstd::prelude::*;
use base64::Engine;
use sha2::Digest;

verus! {

/// The SHA-256 digest of a byte sequence.
pub uninterp spec fn spec_sha256_of(data: Seq<u8>) -> Seq<u8>;

/// The Ed25519 signature over `msg` under the 32-byte secret key `key`.
pub uninterp spec fn spec_ed25519_sign_of(key: Seq<u8>, msg: Seq<u8>) -> Seq<u8>;

/// The Ed25519 public key derived from the 32-byte secret key `key`.
pub uninterp spec fn spec_ed25519_public_of(key: Seq<u8>) -> Seq<u8>;

/// The standard base64 rendering (with padding) of a byte sequence.
pub uninterp spec fn spec_base64_of(data: Seq<u8>) -> Seq<char>;

/// Relies on sha2's `Sha256::digest`: a 32-byte digest determined by the
/// input bytes alone.
#[verifier::external_body]
pub fn sha256_digest(data: &[u8]) -> (r: Vec<u8>)
    ensures
        r@ == spec_sha256_of(data@),
        r@.len() == 32,
{
    sha2::Sha256::digest(data).to_vec()
}

/// Relies on ed25519-dalek's `SigningKey` and `Signer::sign`: Ed25519
/// signing is deterministic in the key and message, and a signature is
/// 64 bytes.
#[verifier::external_body]
pub fn ed25519_sign(key: &[u8], msg: &[u8]) -> (r: Vec<u8>)
    requires
        key@.len() == 32,
    ensures
        r@ == spec_ed25519_sign_of(key@, msg@),
        r@.len() == 64,
{
    let mut arr = [0u8; 32];
    arr.copy_from_slice(key);
    let sk = ed25519_dalek::SigningKey::from_bytes(&arr);
    let sig = ed25519_dalek::Signer::sign(&sk, msg);
    sig.to_bytes().to_vec()
}

/// Relies on ed25519-dalek's `SigningKey::verifying_key`: the 32-byte
/// public key is derived from the secret key alone.
#[verifier::external_body]
pub fn ed25519_public_key(key: &[u8]) -> (r: Vec<u8>)
    requires
        key@.len() == 32,
    ensures
        r@ == spec_ed25519_public_of(key@),
        r@.len() == 32,
{
    let mut arr = [0u8; 32];
    arr.copy_from_slice(key);
    let sk = ed25519_dalek::SigningKey::from_bytes(&arr);
    sk.verifying_key().to_bytes().to_vec()
}

/// Relies on base64's standard engine with padding: the rendering is
/// determined by the input bytes alone, four characters for every
/// started group of three bytes.
#[verifier::external_body]
pub fn base64_encode(data: &[u8]) -> (r: String)
    ensures
        r@ == spec_base64_of(data@),
        r@.len() == 4 * ((data@.len() + 2) / 3),
{
    base64::engine::general_purpose::STANDARD.encode(data)
}

} // verus!
