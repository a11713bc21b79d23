//! Borsh encodings of the gating state and of the attestation journal.
//!
//! Borsh writes a `[u8; 32]` as its 32 bytes, a `u128` as 16 little-endian
//! bytes, a `Vec<T>` as its length (a little-endian `u32`) followed by its
//! items, and a struct or tuple as its fields in order. The encode and decode
//! calls go to the `borsh` crate on tuples with the same fields as the
//! library's structs, which borsh encodes identically.
use crate::bytes::{
    flatten32, lemma_flatten32_injective, lemma_flatten32_len, lemma_le_bytes_len,
    lemma_u128_le_injective, lemma_u32_le_value, le_value, u128_le, u32_le,
};
use crate::gate::{AttestationJournal, GateState};
use vstd::prelude::*;

verus! {

/// Borsh bytes of a gate state: `accepted_root || len_u32_le || nullifiers...`.
pub open spec fn gate_state_encoding(accepted_root: Seq<u8>, spent: Seq<[u8; 32]>) -> Seq<u8> {
    accepted_root + u32_le(spent.len() as u32) + flatten32(spent)
}

/// Whether `b` has the shape of an encoded gate state: a 32-byte root, a
/// length `n`, then exactly `n` 32-byte nullifiers.
pub open spec fn gate_state_layout(b: Seq<u8>) -> bool {
    b.len() >= 36 && b.len() - 36 == 32 * le_value(b.subrange(32, 36))
}

/// Borsh bytes of a journal: `merkle_root || threshold_n_le || context_id ||
/// presenter_pk || nullifier` (144 bytes).
pub open spec fn journal_encoding(journal: AttestationJournal) -> Seq<u8> {
    journal.merkle_root@ + u128_le(journal.threshold_n) + journal.context_id@
        + journal.presenter_pk@ + journal.nullifier@
}

/// `borsh::to_vec` of `(accepted_root, spent_nullifiers)`. It fails only when
/// the number of nullifiers does not fit the `u32` length prefix; the error is
/// handed back as its text.
#[verifier::external_body]
fn borsh_encode_gate_state(accepted_root: &[u8; 32], spent: &Vec<[u8; 32]>) -> (r: Result<
    Vec<u8>,
    String,
>)
    ensures
        r is Ok <==> spent@.len() <= u32::MAX,
        r matches Ok(b) ==> b@ == gate_state_encoding(accepted_root@, spent@),
{
    match borsh::to_vec(&(accepted_root, spent)) {
        Ok(b) => Ok(b),
        Err(e) => Err(e.to_string()),
    }
}

/// `borsh::from_slice::<([u8; 32], Vec<[u8; 32]>)>`: succeeds exactly on the
/// bytes that have the layout of an encoded gate state (all bytes consumed),
/// and then gives back the values those bytes encode.
#[verifier::external_body]
fn borsh_decode_gate_state(bytes: &[u8]) -> (r: Option<([u8; 32], Vec<[u8; 32]>)>)
    ensures
        r is Some <==> gate_state_layout(bytes@),
        r matches Some(v) ==> gate_state_encoding(v.0@, v.1@) == bytes@,
{
    match borsh::from_slice::<([u8; 32], Vec<[u8; 32]>)>(bytes) {
        Ok(v) => Some(v),
        Err(_) => None,
    }
}

/// `borsh::from_slice::<([u8; 32], u128, [u8; 32], [u8; 32], [u8; 32])>`:
/// succeeds exactly on 144-byte inputs, and then gives back the fields those
/// bytes encode.
#[verifier::external_body]
fn borsh_decode_journal(bytes: &[u8]) -> (r: Option<([u8; 32], u128, [u8; 32], [u8; 32], [u8; 32])>)
    ensures
        r is Some <==> bytes@.len() == 144,
        r matches Some(v) ==> v.0@ + u128_le(v.1) + v.2@ + v.3@ + v.4@ == bytes@,
{
    match borsh::from_slice::<([u8; 32], u128, [u8; 32], [u8; 32], [u8; 32])>(bytes) {
        Ok(v) => Some(v),
        Err(_) => None,
    }
}

/// Encodes the gating state as borsh bytes. Fails (as borsh does) only when
/// there are more than `u32::MAX` spent nullifiers.
pub fn encode_gate_state(state: &GateState) -> (r: Result<Vec<u8>, String>)
    ensures
        r is Ok <==> state.spent_nullifiers@.len() <= u32::MAX,
        r matches Ok(b) ==> b@ == gate_state_encoding(
            state.accepted_root@,
            state.spent_nullifiers@,
        ),
{
    borsh_encode_gate_state(&state.accepted_root, &state.spent_nullifiers)
}

/// Decodes a gate state from borsh bytes; `None` unless the bytes are exactly
/// an encoded gate state.
pub fn decode_gate_state(bytes: &[u8]) -> (r: Option<GateState>)
    ensures
        r is Some <==> gate_state_layout(bytes@),
        r matches Some(s) ==> gate_state_encoding(s.accepted_root@, s.spent_nullifiers@)
            == bytes@,
{
    match borsh_decode_gate_state(bytes) {
        Some((accepted_root, spent_nullifiers)) => Some(GateState { accepted_root, spent_nullifiers }),
        None => None,
    }
}

/// Decodes an attestation journal from borsh bytes; `None` unless there are
/// exactly 144 bytes.
pub fn decode_journal(bytes: &[u8]) -> (r: Option<AttestationJournal>)
    ensures
        r is Some <==> bytes@.len() == 144,
        r matches Some(j) ==> journal_encoding(j) == bytes@,
{
    match borsh_decode_journal(bytes) {
        Some((merkle_root, threshold_n, context_id, presenter_pk, nullifier)) => {
            let j = AttestationJournal { merkle_root, threshold_n, context_id, presenter_pk, nullifier };
            assert(journal_encoding(j) =~= bytes@);
            Some(j)
        },
        None => None,
    }
}

/// Encoded gate states decode again: the encoding of any state whose
/// nullifiers fit the `u32` length prefix has the layout that decoding
/// accepts, and no other state has the same encoding. So decoding what
/// `encode_gate_state` wrote gives back the state that was encoded.
pub proof fn lemma_gate_state_roundtrip(s: GateState, t: GateState)
    requires
        s.spent_nullifiers@.len() <= u32::MAX,
        gate_state_encoding(t.accepted_root@, t.spent_nullifiers@) == gate_state_encoding(
            s.accepted_root@,
            s.spent_nullifiers@,
        ),
    ensures
        gate_state_layout(gate_state_encoding(s.accepted_root@, s.spent_nullifiers@)),
        t.accepted_root == s.accepted_root,
        t.spent_nullifiers@ == s.spent_nullifiers@,
{
    let n = s.spent_nullifiers@;
    let enc = gate_state_encoding(s.accepted_root@, n);
    lemma_u32_le_value(n.len() as u32);
    lemma_flatten32_len(n);
    assert(enc.subrange(32, 36) =~= u32_le(n.len() as u32));
    assert(gate_state_layout(enc));
    let m = t.spent_nullifiers@;
    let enc_t = gate_state_encoding(t.accepted_root@, m);
    lemma_flatten32_len(m);
    lemma_u32_le_value(m.len() as u32);
    lemma_le_bytes_len(n.len() as nat, 4);
    assert(enc_t.subrange(0, 32) =~= t.accepted_root@);
    assert(enc.subrange(0, 32) =~= s.accepted_root@);
    assert(t.accepted_root =~= s.accepted_root);
    assert(enc_t.subrange(32, 36) =~= u32_le(m.len() as u32));
    // equal total lengths give equal counts
    assert(m.len() == n.len());
    assert(enc_t.subrange(36, enc_t.len() as int) =~= flatten32(m));
    assert(enc.subrange(36, enc.len() as int) =~= flatten32(n));
    lemma_flatten32_injective(m, n);
}

/// Journal encodings are one-to-one: two journals with the same bytes are the
/// same journal. So decoding an encoded journal gives it back.
pub proof fn lemma_journal_encoding_injective(a: AttestationJournal, b: AttestationJournal)
    requires
        journal_encoding(a) == journal_encoding(b),
    ensures
        a == b,
{
    let ea = journal_encoding(a);
    let eb = journal_encoding(b);
    lemma_le_bytes_len(a.threshold_n as nat, 16);
    lemma_le_bytes_len(b.threshold_n as nat, 16);
    assert(ea.subrange(0, 32) =~= a.merkle_root@);
    assert(eb.subrange(0, 32) =~= b.merkle_root@);
    assert(ea.subrange(32, 48) =~= u128_le(a.threshold_n));
    assert(eb.subrange(32, 48) =~= u128_le(b.threshold_n));
    assert(ea.subrange(48, 80) =~= a.context_id@);
    assert(eb.subrange(48, 80) =~= b.context_id@);
    assert(ea.subrange(80, 112) =~= a.presenter_pk@);
    assert(eb.subrange(80, 112) =~= b.presenter_pk@);
    assert(ea.subrange(112, 144) =~= a.nullifier@);
    assert(eb.subrange(112, 144) =~= b.nullifier@);
    lemma_u128_le_injective(a.threshold_n, b.threshold_n);
    assert(a.merkle_root =~= b.merkle_root);
    assert(a.context_id =~= b.context_id);
    assert(a.presenter_pk =~= b.presenter_pk);
    assert(a.nullifier =~= b.nullifier);
}

} // verus!
