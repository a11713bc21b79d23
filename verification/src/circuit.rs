//! The statement the attestation circuit proves, as a function from its
//! private input to its public journal: the prover holds a shielded account
//! whose commitment is a leaf of the commitment Merkle tree with the given
//! root, and whose balance is at least the threshold. The nullifier binds the
//! attestation to the prover's secret key and to the gating context.
use crate::bytes::{
    append_bytes, le_words, u128_le, u128_to_le_bytes, u32_le, words_le_bytes,
    lemma_word_roundtrip,
};
use crate::crypto::{sha256, sha256_digest};
use vstd::arithmetic::div_mod::lemma_div_denominator;
use vstd::arithmetic::power::pow;
use vstd::arithmetic::power2::{lemma_pow2, lemma_pow2_pos, lemma_pow2_unfold, pow2};
use vstd::prelude::*;

verus! {

/// The full input to the circuit (kept private by the prover).
pub struct ProverInput {
    pub nsk: [u8; 32],
    pub program_owner: [u32; 8],
    pub balance: u128,
    pub data: Vec<u8>,
    pub nonce: u128,
    pub merkle_root: [u8; 32],
    pub threshold_n: u128,
    pub context_id: [u8; 32],
    pub presenter_pk: [u8; 32],
    pub leaf_index: usize,
    pub sibling_nodes: Vec<[u8; 32]>,
    pub use_nonce: u128,
}

/// Public journal committed by the circuit.
#[derive(Debug, Clone, Copy)]
pub struct BalanceAttestation {
    pub merkle_root: [u8; 32],
    pub threshold_n: u128,
    pub context_id: [u8; 32],
    pub presenter_pk: [u8; 32],
    /// One-shot nullifier: SHA256("balance-attest/v1" || nsk || context_id || use_nonce).
    pub nullifier: [u8; 32],
}

/// Why the circuit refuses its input (the proof cannot be made).
#[derive(Debug, Clone, Copy, PartialEq, Eq, Structural)]
pub enum CircuitError {
    /// The recomputed Merkle root is not the public root.
    MerkleRootMismatch,
    /// The balance is below the claimed threshold.
    BalanceBelowThreshold,
}

/// `"LEE/keys"`.
pub open spec fn npk_tag() -> Seq<u8> {
    seq![0x4cu8, 0x45, 0x45, 0x2f, 0x6b, 0x65, 0x79, 0x73]
}

/// `"/LEE/v0.3/Commitment/"` padded with zeros to 32 bytes.
pub open spec fn commitment_prefix() -> Seq<u8> {
    seq![
        0x2fu8, 0x4c, 0x45, 0x45, 0x2f, 0x76, 0x30, 0x2e, 0x33, 0x2f, 0x43, 0x6f, 0x6d, 0x6d,
        0x69, 0x74, 0x6d, 0x65, 0x6e, 0x74, 0x2f, 0, 0, 0, 0, 0, 0, 0, 0, 0, 0, 0,
    ]
}

/// `"balance-attest/v1"`.
pub open spec fn nullifier_tag() -> Seq<u8> {
    seq![
        0x62u8, 0x61, 0x6c, 0x61, 0x6e, 0x63, 0x65, 0x2d, 0x61, 0x74, 0x74, 0x65, 0x73, 0x74,
        0x2f, 0x76, 0x31,
    ]
}

/// `n` zero bytes.
pub open spec fn zeros(n: nat) -> Seq<u8> {
    Seq::new(n, |i: int| 0u8)
}

/// The nullifier public key: `SHA256("LEE/keys" || nsk || 0x07 || [0; 23])`.
pub open spec fn npk_of(nsk: Seq<u8>) -> Seq<u8> {
    sha256(npk_tag() + nsk + seq![7u8] + zeros(23))
}

/// The account commitment: `SHA256(PREFIX || npk || program_owner_le ||
/// balance_le || nonce_le || SHA256(data))`, with the program owner given by
/// its 32 bytes.
pub open spec fn commitment_of(
    nsk: Seq<u8>,
    program_owner: Seq<u8>,
    balance: u128,
    data: Seq<u8>,
    nonce: u128,
) -> Seq<u8> {
    sha256(
        commitment_prefix() + npk_of(nsk) + program_owner + u128_le(balance) + u128_le(nonce)
            + sha256(data),
    )
}

/// The hash input of the nullifier: `"balance-attest/v1" || nsk || context_id || use_nonce_le`.
pub open spec fn nullifier_preimage(nsk: Seq<u8>, context_id: Seq<u8>, use_nonce: u128) -> Seq<u8> {
    nullifier_tag() + nsk + context_id + u128_le(use_nonce)
}

/// The nullifier: `SHA256("balance-attest/v1" || nsk || context_id || use_nonce_le)`.
pub open spec fn nullifier_of(nsk: Seq<u8>, context_id: Seq<u8>, use_nonce: u128) -> Seq<u8> {
    sha256(nullifier_preimage(nsk, context_id, use_nonce))
}

/// Nullifiers are bound to the gating context and to the use: for one secret key, two
/// attestations for different context ids, or with different use nonces, hash
/// different inputs.
pub proof fn lemma_nullifier_inputs_distinct(
    nsk: [u8; 32],
    context_a: [u8; 32],
    context_b: [u8; 32],
    nonce_a: u128,
    nonce_b: u128,
)
    requires
        context_a != context_b || nonce_a != nonce_b,
    ensures
        nullifier_preimage(nsk@, context_a@, nonce_a) != nullifier_preimage(
            nsk@,
            context_b@,
            nonce_b,
        ),
{
    let pa = nullifier_preimage(nsk@, context_a@, nonce_a);
    let pb = nullifier_preimage(nsk@, context_b@, nonce_b);
    crate::bytes::lemma_le_bytes_len(nonce_a as nat, 16);
    crate::bytes::lemma_le_bytes_len(nonce_b as nat, 16);
    if pa == pb {
        assert(pa.subrange(49, 81) =~= context_a@);
        assert(pb.subrange(49, 81) =~= context_b@);
        assert(context_a =~= context_b);
        assert(pa.subrange(81, 97) =~= u128_le(nonce_a));
        assert(pb.subrange(81, 97) =~= u128_le(nonce_b));
        crate::bytes::lemma_u128_le_injective(nonce_a, nonce_b);
    }
}

/// The commitment the host computes from the program owner's bytes is the one
/// the circuit recomputes from the words the host derives from those bytes.
pub proof fn lemma_host_commitment_matches_circuit(
    nsk: Seq<u8>,
    program_owner: [u8; 32],
    balance: u128,
    data: Seq<u8>,
    nonce: u128,
)
    ensures
        commitment_of(nsk, program_owner@, balance, data, nonce) == commitment_of(
            nsk,
            words_le_bytes(le_words(program_owner@)),
            balance,
            data,
            nonce,
        ),
{
    lemma_owner_words_roundtrip(program_owner@);
}

/// The root reached from `node` at position `index` by hashing with each
/// sibling in turn: `SHA256(node || sibling)` when the position is even,
/// `SHA256(sibling || node)` when it is odd, halving the position each level.
pub open spec fn path_root(node: Seq<u8>, index: nat, siblings: Seq<[u8; 32]>) -> Seq<u8>
    decreases siblings.len(),
{
    if siblings.len() == 0 {
        node
    } else {
        let parent = if index % 2 == 0 {
            sha256(node + siblings[0]@)
        } else {
            sha256(siblings[0]@ + node)
        };
        path_root(parent, index / 2, siblings.drop_first())
    }
}

/// Bit `k` of a leaf position, counting from the least significant bit:
/// whether the node on the path from that leaf at level `k` is a right child.
pub open spec fn index_bit(index: nat, k: nat) -> bool {
    (index / pow2(k)) % 2 == 1
}

/// Merkle paths are built level by level: a path with no siblings reaches
/// the node itself, and one more sibling `s` on top of `siblings` hashes the
/// node reached so far with `s`, the node standing on the right exactly when
/// bit `siblings.len()` of the leaf position is set.
pub proof fn lemma_path_root_by_levels(node: Seq<u8>, index: nat, siblings: Seq<[u8; 32]>, s: [u8; 32])
    ensures
        path_root(node, index, Seq::<[u8; 32]>::empty()) == node,
        path_root(node, index, siblings.push(s)) == (if index_bit(index, siblings.len()) {
            sha256(s@ + path_root(node, index, siblings))
        } else {
            sha256(path_root(node, index, siblings) + s@)
        }),
    decreases siblings.len(),
{
    reveal(pow);
    if siblings.len() == 0 {
        assert(pow2(0) == 1) by {
            lemma_pow2(0);
        }
        let all = siblings.push(s);
        assert(all.drop_first() =~= Seq::<[u8; 32]>::empty());
        assert(all[0] == s);
        assert(index / pow2(0) == index);
        assert(path_root(node, index, siblings) == node);
        let top = if index % 2 == 0 {
            sha256(node + s@)
        } else {
            sha256(s@ + node)
        };
        assert(path_root(top, index / 2, all.drop_first()) == top);
        assert(path_root(node, index, all) == top);
    } else {
        let all = siblings.push(s);
        assert(all[0] == siblings[0]);
        assert(all.drop_first() =~= siblings.drop_first().push(s));
        let parent = if index % 2 == 0 {
            sha256(node + siblings[0]@)
        } else {
            sha256(siblings[0]@ + node)
        };
        lemma_path_root_by_levels(parent, index / 2, siblings.drop_first(), s);
        let n = siblings.len();
        lemma_pow2_unfold(n);
        lemma_pow2_pos((n - 1) as nat);
        lemma_div_denominator(index as int, 2, pow2((n - 1) as nat) as int);
        assert((index / 2) / pow2((n - 1) as nat) == index / pow2(n));
        assert(index_bit(index / 2, siblings.drop_first().len()) == index_bit(index, n));
        assert(path_root(node, index, siblings) == path_root(parent, index / 2, siblings.drop_first()));
        assert(path_root(node, index, all) == path_root(parent, index / 2, all.drop_first()));
    }
}

/// The Merkle root the circuit recomputes for `input`: the path root from
/// the leaf `SHA256(commitment)`.
pub open spec fn input_root(input: ProverInput) -> Seq<u8> {
    path_root(
        sha256(
            commitment_of(
                input.nsk@,
                words_le_bytes(input.program_owner@),
                input.balance,
                input.data@,
                input.nonce,
            ),
        ),
        input.leaf_index as nat,
        input.sibling_nodes@,
    )
}

/// Reading bytes as little-endian words and writing the words back gives the
/// same bytes (for a whole number of words): the program owner the host
/// passes as bytes is the one the circuit receives as words.
pub proof fn lemma_owner_words_roundtrip(b: Seq<u8>)
    requires
        b.len() % 4 == 0,
    ensures
        words_le_bytes(le_words(b)) == b,
    decreases b.len(),
{
    if b.len() > 0 {
        let rest = b.subrange(4, b.len() as int);
        lemma_owner_words_roundtrip(rest);
        assert(le_words(b).drop_first() =~= le_words(rest));
        lemma_word_roundtrip(b[0], b[1], b[2], b[3]);
        assert(le_words(b)[0] == crate::bytes::word_of(b[0], b[1], b[2], b[3]));
        assert(words_le_bytes(le_words(b)) == u32_le(le_words(b)[0]) + words_le_bytes(
            le_words(b).drop_first(),
        ));
        assert(seq![b[0], b[1], b[2], b[3]] + rest =~= b);
    } else {
        assert(le_words(b) =~= Seq::<u32>::empty());
        assert(words_le_bytes(le_words(b)) =~= b);
    }
}

/// `SHA256("LEE/keys" || nsk || 0x07 || [0; 23])`.
pub fn derive_npk(nsk: &[u8; 32]) -> (npk: [u8; 32])
    ensures
        npk@ == npk_of(nsk@),
{
    let tag: [u8; 8] = [0x4c, 0x45, 0x45, 0x2f, 0x6b, 0x65, 0x79, 0x73];
    let seven: [u8; 1] = [7];
    let pad: [u8; 23] = [0; 23];
    assert(tag@ =~= npk_tag());
    assert(pad@ =~= zeros(23));
    assert(seven@ =~= seq![7u8]);
    let mut preimage: Vec<u8> = Vec::with_capacity(8 + 32 + 1 + 23);
    append_bytes(&mut preimage, &tag);
    append_bytes(&mut preimage, nsk);
    append_bytes(&mut preimage, &seven);
    append_bytes(&mut preimage, &pad);
    sha256_digest(preimage.as_slice())
}

/// The little-endian bytes of the eight program-owner words.
pub fn owner_words_bytes(words: &[u32; 8]) -> (out: Vec<u8>)
    ensures
        out@ == words_le_bytes(words@),
{
    crate::bytes::words_to_le_bytes(words)
}

/// The program owner's 32 bytes read as eight little-endian words.
pub fn owner_words(program_owner: &[u8; 32]) -> (words: [u32; 8])
    ensures
        words@ == le_words(program_owner@),
        words_le_bytes(words@) == program_owner@,
{
    let v = crate::bytes::words_from_le_bytes(program_owner);
    let mut words = [0u32; 8];
    let mut i: usize = 0;
    while i < 8
        invariant
            i <= 8,
            v@ == le_words(program_owner@),
            v@.len() == 8,
            forall|k: int| 0 <= k < i ==> words[k] == v@[k],
        decreases 8 - i,
    {
        words[i] = v[i];
        i = i + 1;
    }
    assert(words@ =~= v@);
    proof {
        lemma_owner_words_roundtrip(program_owner@);
    }
    words
}

/// The account commitment computed from its parts, with the program owner as
/// its 32 bytes (`SHA256(PREFIX || npk || program_owner_le || balance_le ||
/// nonce_le || SHA256(data))`).
pub fn compute_commitment(
    nsk: &[u8; 32],
    program_owner: &[u8; 32],
    balance: u128,
    data: &[u8],
    nonce: u128,
) -> (commitment: [u8; 32])
    ensures
        commitment@ == commitment_of(nsk@, program_owner@, balance, data@, nonce),
{
    let words = owner_words(program_owner);
    commitment_from_words(nsk, &words, balance, data, nonce)
}

/// The account commitment with the program owner given as eight words, as
/// the circuit holds it.
pub fn commitment_from_words(
    nsk: &[u8; 32],
    program_owner: &[u32; 8],
    balance: u128,
    data: &[u8],
    nonce: u128,
) -> (commitment: [u8; 32])
    ensures
        commitment@ == commitment_of(nsk@, words_le_bytes(program_owner@), balance, data@, nonce),
{
    let npk = derive_npk(nsk);
    let data_hash = sha256_digest(data);
    let prefix: [u8; 32] = [
        0x2f, 0x4c, 0x45, 0x45, 0x2f, 0x76, 0x30, 0x2e, 0x33, 0x2f, 0x43, 0x6f, 0x6d, 0x6d, 0x69,
        0x74, 0x6d, 0x65, 0x6e, 0x74, 0x2f, 0, 0, 0, 0, 0, 0, 0, 0, 0, 0, 0,
    ];
    assert(prefix@ =~= commitment_prefix());
    let mut bytes: Vec<u8> = Vec::with_capacity(32 + 32 + 32 + 16 + 16 + 32);
    append_bytes(&mut bytes, &prefix);
    append_bytes(&mut bytes, &npk);
    let owner = owner_words_bytes(program_owner);
    append_bytes(&mut bytes, owner.as_slice());
    let b = u128_to_le_bytes(balance);
    append_bytes(&mut bytes, b.as_slice());
    let n = u128_to_le_bytes(nonce);
    append_bytes(&mut bytes, n.as_slice());
    append_bytes(&mut bytes, &data_hash);
    sha256_digest(bytes.as_slice())
}

/// `SHA256("balance-attest/v1" || nsk || context_id || use_nonce_le)`.
pub fn compute_nullifier(nsk: &[u8; 32], context_id: &[u8; 32], use_nonce: u128) -> (nullifier: [u8; 32])
    ensures
        nullifier@ == nullifier_of(nsk@, context_id@, use_nonce),
{
    let tag: [u8; 17] = [
        0x62, 0x61, 0x6c, 0x61, 0x6e, 0x63, 0x65, 0x2d, 0x61, 0x74, 0x74, 0x65, 0x73, 0x74, 0x2f,
        0x76, 0x31,
    ];
    assert(tag@ =~= nullifier_tag());
    let mut preimage: Vec<u8> = Vec::with_capacity(17 + 32 + 32 + 16);
    append_bytes(&mut preimage, &tag);
    append_bytes(&mut preimage, nsk);
    append_bytes(&mut preimage, context_id);
    let u = u128_to_le_bytes(use_nonce);
    append_bytes(&mut preimage, u.as_slice());
    sha256_digest(preimage.as_slice())
}

/// Hashes `leaf` up the tree along `siblings` from position `leaf_index`.
pub fn merkle_root_for_path(leaf: [u8; 32], leaf_index: usize, siblings: &Vec<[u8; 32]>) -> (root:
    [u8; 32])
    ensures
        root@ == path_root(leaf@, leaf_index as nat, siblings@),
{
    let mut result = leaf;
    let mut level_index = leaf_index;
    let mut i: usize = 0;
    assert(siblings@.skip(0) =~= siblings@);
    while i < siblings.len()
        invariant
            i <= siblings@.len(),
            path_root(result@, level_index as nat, siblings@.skip(i as int)) == path_root(
                leaf@,
                leaf_index as nat,
                siblings@,
            ),
        decreases siblings@.len() - i,
    {
        let node = siblings[i];
        let mut pair: Vec<u8> = Vec::with_capacity(64);
        let ghost rest = siblings@.skip(i as int);
        assert(rest[0] == node);
        assert(rest.drop_first() =~= siblings@.skip(i + 1));
        if level_index % 2 == 0 {
            append_bytes(&mut pair, &result);
            append_bytes(&mut pair, &node);
        } else {
            append_bytes(&mut pair, &node);
            append_bytes(&mut pair, &result);
        }
        result = sha256_digest(pair.as_slice());
        level_index = level_index / 2;
        i = i + 1;
    }
    assert(siblings@.skip(i as int) =~= Seq::<[u8; 32]>::empty());
    result
}

/// The circuit: recompute the account commitment, check that it is a leaf of
/// the tree with the public Merkle root and that the balance meets the
/// threshold, and build the journal with the nullifier for this gate.
pub fn compute_attestation(input: &ProverInput) -> (r: Result<BalanceAttestation, CircuitError>)
    ensures
        input_root(*input) != input.merkle_root@ ==> r == Err::<BalanceAttestation, CircuitError>(
            CircuitError::MerkleRootMismatch,
        ),
        input_root(*input) == input.merkle_root@ && input.balance < input.threshold_n ==> r == Err::<
            BalanceAttestation,
            CircuitError,
        >(CircuitError::BalanceBelowThreshold),
        input_root(*input) == input.merkle_root@ && input.balance >= input.threshold_n ==> (r matches Ok(
            att,
        ) && att.merkle_root == input.merkle_root && att.threshold_n == input.threshold_n
            && att.context_id == input.context_id && att.presenter_pk == input.presenter_pk
            && att.nullifier@ == nullifier_of(input.nsk@, input.context_id@, input.use_nonce)),
{
    let commitment = commitment_from_words(
        &input.nsk,
        &input.program_owner,
        input.balance,
        input.data.as_slice(),
        input.nonce,
    );
    let leaf = sha256_digest(&commitment);
    let computed_root = merkle_root_for_path(leaf, input.leaf_index, &input.sibling_nodes);
    if !crate::bytes::bytes32_eq(&computed_root, &input.merkle_root) {
        proof {
            if computed_root@ == input.merkle_root@ {
                assert(computed_root =~= input.merkle_root);
            }
        }
        return Err(CircuitError::MerkleRootMismatch);
    }
    if input.balance < input.threshold_n {
        return Err(CircuitError::BalanceBelowThreshold);
    }
    let nullifier = compute_nullifier(&input.nsk, &input.context_id, input.use_nonce);
    Ok(
        BalanceAttestation {
            merkle_root: input.merkle_root,
            threshold_n: input.threshold_n,
            context_id: input.context_id,
            presenter_pk: input.presenter_pk,
            nullifier,
        },
    )
}

} // verus!
