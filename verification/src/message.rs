//! The message a presenter signs to bind an attestation to their key:
//! `context_id || merkle_root || threshold_n (little-endian) || nullifier`.
use crate::bytes::{append_bytes, u128_le, u128_to_le_bytes};
use crate::crypto::{
    ed25519_derive_public_key, ed25519_key_valid, ed25519_public_key, ed25519_sign,
    ed25519_signature, ed25519_signature_valid,
};
use vstd::prelude::*;

verus! {

/// The signed message: `context_id || merkle_root || threshold_n_le || nullifier`.
pub open spec fn attestation_message(
    context_id: Seq<u8>,
    merkle_root: Seq<u8>,
    threshold_n: u128,
    nullifier: Seq<u8>,
) -> Seq<u8> {
    context_id + merkle_root + u128_le(threshold_n) + nullifier
}

/// Builds the 112-byte message that binds an attestation to its presenter.
pub fn build_attestation_message(
    context_id: &[u8; 32],
    merkle_root: &[u8; 32],
    threshold_n: u128,
    nullifier: &[u8; 32],
) -> (message: Vec<u8>)
    ensures
        message@ == attestation_message(context_id@, merkle_root@, threshold_n, nullifier@),
        message@.len() == 112,
{
    let mut message: Vec<u8> = Vec::with_capacity(32 + 32 + 16 + 32);
    append_bytes(&mut message, context_id);
    append_bytes(&mut message, merkle_root);
    let thr = u128_to_le_bytes(threshold_n);
    append_bytes(&mut message, thr.as_slice());
    append_bytes(&mut message, nullifier);
    assert(message@ =~= attestation_message(context_id@, merkle_root@, threshold_n, nullifier@));
    message
}

/// Signs the attestation message
/// `context_id || merkle_root || threshold_n || nullifier` with the Ed25519
/// key whose 32-byte secret is `sk`. The signature verifies under the
/// presenter's public key (`presenter_public_key(sk)`).
pub fn sign_attestation(
    sk: &[u8; 32],
    context_id: &[u8; 32],
    merkle_root: &[u8; 32],
    threshold_n: u128,
    nullifier: &[u8; 32],
) -> (sig: [u8; 64])
    ensures
        sig@ == ed25519_signature(
            sk@,
            attestation_message(context_id@, merkle_root@, threshold_n, nullifier@),
        ),
        ed25519_signature_valid(
            ed25519_public_key(sk@),
            attestation_message(context_id@, merkle_root@, threshold_n, nullifier@),
            sig@,
        ),
{
    let message = build_attestation_message(context_id, merkle_root, threshold_n, nullifier);
    ed25519_sign(sk, message.as_slice())
}

/// The presenter's public key for the 32-byte secret key `sk`.
pub fn presenter_public_key(sk: &[u8; 32]) -> (pk: [u8; 32])
    ensures
        pk@ == ed25519_public_key(sk@),
        ed25519_key_valid(pk@),
{
    ed25519_derive_public_key(sk)
}

} // verus!
