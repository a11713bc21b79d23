//! The cryptographic primitives the attestation relies on: SHA-256 (from
//! `sha2`) and Ed25519 (from `ed25519-dalek`). Their results are named, not
//! described: each name below is what the outside function computes on the
//! given values.
use ed25519_dalek::{Signature, Signer, SigningKey, Verifier, VerifyingKey};
use sha2::{Digest, Sha256};
use vstd::prelude::*;

verus! {

/// The SHA-256 digest of `data`.
pub uninterp spec fn sha256(data: Seq<u8>) -> Seq<u8>;

/// Whether `pk` is the compressed encoding of a point that `ed25519-dalek`
/// accepts as a verifying key.
pub uninterp spec fn ed25519_key_valid(pk: Seq<u8>) -> bool;

/// Whether `sig` is a valid Ed25519 signature of `msg` under the public key `pk`.
pub uninterp spec fn ed25519_signature_valid(pk: Seq<u8>, msg: Seq<u8>, sig: Seq<u8>) -> bool;

/// The Ed25519 signature of `msg` by the key whose 32-byte secret is `secret`.
pub uninterp spec fn ed25519_signature(secret: Seq<u8>, msg: Seq<u8>) -> Seq<u8>;

/// The Ed25519 public key (compressed) of the key whose 32-byte secret is `secret`.
pub uninterp spec fn ed25519_public_key(secret: Seq<u8>) -> Seq<u8>;

/// `sha2::Sha256::digest`: the 32-byte SHA-256 digest of `data`. The contract
/// names the result; nothing more of SHA-256 is claimed.
#[verifier::external_body]
pub(crate) fn sha256_digest(data: &[u8]) -> (out: [u8; 32])
    ensures
        out@ == sha256(data@),
{
    Sha256::digest(data).into()
}

/// `ed25519_dalek::VerifyingKey::from_bytes`, reduced to whether it succeeds
/// on `pk`: it fails when `pk` does not decompress to a curve point.
#[verifier::external_body]
pub(crate) fn ed25519_key_check(pk: &[u8; 32]) -> (ok: bool)
    ensures
        ok == ed25519_key_valid(pk@),
{
    VerifyingKey::from_bytes(pk).is_ok()
}

/// `<ed25519_dalek::VerifyingKey as Verifier>::verify` on the key decoded from
/// `pk` and the signature `Signature::from_bytes(sig)`: whether `sig` is a
/// valid signature of `msg` under `pk`. A key that does not decode verifies
/// nothing.
#[verifier::external_body]
pub(crate) fn ed25519_verify(pk: &[u8; 32], msg: &[u8], sig: &[u8; 64]) -> (ok: bool)
    ensures
        ok == ed25519_signature_valid(pk@, msg@, sig@),
{
    match VerifyingKey::from_bytes(pk) {
        Ok(vk) => vk.verify(msg, &Signature::from_bytes(sig)).is_ok(),
        Err(_) => false,
    }
}

/// `<ed25519_dalek::SigningKey as Signer>::sign` with the key
/// `SigningKey::from_bytes(secret)`: the (deterministic) Ed25519 signature of
/// `msg`, as 64 bytes. As Ed25519 guarantees, the signature verifies under
/// the key's public key.
#[verifier::external_body]
pub(crate) fn ed25519_sign(secret: &[u8; 32], msg: &[u8]) -> (sig: [u8; 64])
    ensures
        sig@ == ed25519_signature(secret@, msg@),
        ed25519_signature_valid(ed25519_public_key(secret@), msg@, sig@),
{
    SigningKey::from_bytes(secret).sign(msg).to_bytes()
}

/// `SigningKey::from_bytes(secret).verifying_key().to_bytes()`: the
/// compressed public key of the key whose 32-byte secret is `secret`. It is
/// a point on the curve, so it decodes as a verifying key.
#[verifier::external_body]
pub(crate) fn ed25519_derive_public_key(secret: &[u8; 32]) -> (pk: [u8; 32])
    ensures
        pk@ == ed25519_public_key(secret@),
        ed25519_key_valid(pk@),
{
    SigningKey::from_bytes(secret).verifying_key().to_bytes()
}

} // verus!
