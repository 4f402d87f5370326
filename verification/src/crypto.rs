//! The two cryptographic primitives of the wallet: the SHA-256 digest and the Ed25519
//! signature. Both are computed by outside crates; here they get a name and nothing more.

use ed25519_dalek::{Signer, SigningKey};
use sha2::{Digest, Sha256};
use vstd::prelude::*;

verus! {

/// The SHA-256 digest of `data`.
pub uninterp spec fn sha256(data: Seq<u8>) -> Seq<u8>;

/// The Ed25519 signature that the secret key `secret_key` gives to `message`.
pub uninterp spec fn ed25519_signature(secret_key: Seq<u8>, message: Seq<u8>) -> Seq<u8>;

/// `Sha256::digest` of `sha2`: the 32 bytes of the digest depend on the data alone and are
/// given the name `sha256`.
#[verifier::external_body]
pub(crate) fn sha256_digest(data: &[u8]) -> (r: [u8; 32])
    ensures
        r@ == sha256(data@),
{
    let mut out = [0u8; 32];
    out.copy_from_slice(&Sha256::digest(data));
    out
}

/// `SigningKey::sign` of `ed25519-dalek`, on the signing key made of the 32 secret bytes: the
/// 64 bytes of the signature depend on the key and the message alone and are given the name
/// `ed25519_signature`.
#[verifier::external_body]
pub(crate) fn ed25519_sign(secret_key: &[u8; 32], message: &[u8]) -> (r: [u8; 64])
    ensures
        r@ == ed25519_signature(secret_key@, message@),
{
    SigningKey::from_bytes(secret_key).sign(message).to_bytes()
}

} // verus!
