//! The device's long-lived signing identity: a 32-byte Ed25519 secret
//! key, validated on load, exposing signing and public-key encoding.
//! Reading and writing the key file is the caller's business; the
//! identity itself only accepts key material that is exactly 32 bytes.

use vstd::prelude::*;
use crate::crypto::spec_base64_of;
use crate::crypto::spec_ed25519_public_of;
use crate::crypto::spec_ed25519_sign_of;
use crate::crypto::base64_encode;
use crate::crypto::ed25519_public_key;
use crate::crypto::ed25519_sign;

verus! {

/// Why stored identity material could not be used.
#[derive(Clone, Copy, Debug, PartialEq, Eq, Structural)]
pub enum IdentityError {
    /// The key material is not a valid 32-byte secret key.
    IdentityCorrupt,
}

/// A device's cryptographic identity: the Ed25519 secret key.
pub struct DeviceIdentity {
    key: Vec<u8>,
}

impl DeviceIdentity {
    /// The secret-key bytes, as the model of this identity.
    pub closed spec fn key_bytes(&self) -> Seq<u8> {
        self.key@
    }

    #[verifier::type_invariant]
    spec fn type_wf(&self) -> bool {
        self.key@.len() == 32
    }

    /// Accepts raw key-file material; anything but exactly 32 bytes is a
    /// corrupt identity and is rejected, never repaired.
    pub fn from_key_bytes(bytes: Vec<u8>) -> (r: Result<Self, IdentityError>)
        ensures
            match r {
                Ok(id) => bytes@.len() == 32 && id.key_bytes() == bytes@,
                Err(e) => bytes@.len() != 32 && e == IdentityError::IdentityCorrupt,
            },
    {
        if bytes.len() != 32 {
            return Err(IdentityError::IdentityCorrupt);
        }
        Ok(DeviceIdentity { key: bytes })
    }

    /// Signature over `message`, as raw bytes.
    pub fn sign(&self, message: &[u8]) -> (r: Vec<u8>)
        ensures
            r@ == spec_ed25519_sign_of(self.key_bytes(), message@),
            r@.len() == 64,
    {
        proof {
            use_type_invariant(self);
        }
        ed25519_sign(self.key.as_slice(), message)
    }

    /// Signature over `message`, base64-encoded for transport.
    pub fn sign_base64(&self, message: &[u8]) -> (r: String)
        ensures
            r@ == spec_base64_of(spec_ed25519_sign_of(self.key_bytes(), message@)),
    {
        let sig = self.sign(message);
        base64_encode(sig.as_slice())
    }

    /// The public key, base64-encoded for registration.
    pub fn public_key_base64(&self) -> (r: String)
        ensures
            r@ == spec_base64_of(spec_ed25519_public_of(self.key_bytes())),
    {
        proof {
            use_type_invariant(self);
        }
        let pk = ed25519_public_key(self.key.as_slice());
        base64_encode(pk.as_slice())
    }
}

} // verus!
