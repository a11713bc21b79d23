//! The gating program: its persisted state, the journal an attestation
//! carries, and the rule that admits an attestation once.
use crate::bytes::bytes32_eq;
use crate::crypto::{ed25519_key_check, ed25519_key_valid, ed25519_signature_valid, ed25519_verify};
use crate::message::{attestation_message, build_attestation_message};
use vstd::prelude::*;

verus! {

pub const ERR_PROOF_INVALID: u32 = 5001;

pub const ERR_CONTEXT_MISMATCH: u32 = 5002;

pub const ERR_THRESHOLD_NOT_MET: u32 = 5003;

pub const ERR_SIGNATURE_INVALID: u32 = 5004;

pub const ERR_STALE_ROOT: u32 = 5005;

pub const ERR_NULLIFIER_SPENT: u32 = 5006;

/// Gate state persisted on-chain.
#[derive(Debug, Clone)]
pub struct GateState {
    pub accepted_root: [u8; 32],
    pub spent_nullifiers: Vec<[u8; 32]>,
}

/// Journal committed by the circuit guest.
#[derive(Debug, Clone, Copy)]
pub struct AttestationJournal {
    pub merkle_root: [u8; 32],
    pub threshold_n: u128,
    pub context_id: [u8; 32],
    pub presenter_pk: [u8; 32],
    pub nullifier: [u8; 32],
}

/// Errors of the gating program.
#[derive(Debug)]
pub enum SpelError {
    /// A rejection with one of the `ERR_*` codes.
    Custom { code: u32, message: String },
    /// The state could not be encoded.
    SerializationError { message: String },
}

/// The message the presenter must have signed for `journal`.
pub open spec fn journal_message(journal: AttestationJournal) -> Seq<u8> {
    attestation_message(
        journal.context_id@,
        journal.merkle_root@,
        journal.threshold_n,
        journal.nullifier@,
    )
}

/// Why `apply_attestation` rejects `journal` against `state`, as an error code
/// and message, checked in order; `None` when it admits it.
pub open spec fn rejection(
    state: GateState,
    journal: AttestationJournal,
    context_id: [u8; 32],
    presenter_sig: [u8; 64],
    expected_threshold: u128,
) -> Option<(u32, Seq<char>)> {
    if journal.context_id != context_id {
        Some((ERR_CONTEXT_MISMATCH, "context_id mismatch"@))
    } else if journal.threshold_n < expected_threshold {
        Some((ERR_THRESHOLD_NOT_MET, "balance below expected threshold"@))
    } else if journal.merkle_root != state.accepted_root {
        Some((ERR_STALE_ROOT, "merkle root mismatch"@))
    } else if state.spent_nullifiers@.contains(journal.nullifier) {
        Some((ERR_NULLIFIER_SPENT, "nullifier already spent"@))
    } else if !ed25519_key_valid(journal.presenter_pk@) {
        Some((ERR_SIGNATURE_INVALID, "invalid presenter public key"@))
    } else if !ed25519_signature_valid(
        journal.presenter_pk@,
        journal_message(journal),
        presenter_sig@,
    ) {
        Some((ERR_SIGNATURE_INVALID, "presenter signature invalid"@))
    } else {
        None
    }
}

/// `err` is the custom error with this code and message.
pub open spec fn is_custom_error(err: SpelError, code: u32, message: Seq<char>) -> bool {
    match err {
        SpelError::Custom { code: c, message: m } => c == code && m@ == message,
        _ => false,
    }
}

/// No nullifier occurs twice.
pub open spec fn distinct_nullifiers(spent: Seq<[u8; 32]>) -> bool {
    forall|i: int, j: int| 0 <= i < j < spent.len() ==> spent[i] != spent[j]
}

/// Whether `nullifier` is among `spent`.
pub fn contains_nullifier(spent: &Vec<[u8; 32]>, nullifier: &[u8; 32]) -> (found: bool)
    ensures
        found == spent@.contains(*nullifier),
{
    let mut i: usize = 0;
    while i < spent.len()
        invariant
            i <= spent@.len(),
            forall|k: int| 0 <= k < i ==> spent@[k] != *nullifier,
        decreases spent@.len() - i,
    {
        if bytes32_eq(&spent[i], nullifier) {
            assert(spent@[i as int] == *nullifier);
            return true;
        }
        i = i + 1;
    }
    false
}

/// Verify a balance attestation journal against gate state.
///
/// Checks, in order, that the journal is for this gate (`context_id`), that its
/// threshold meets `expected_threshold`, that its Merkle root is the accepted
/// one, that its nullifier is unspent, and that `presenter_sig` signs
/// `context_id || merkle_root || threshold_n || nullifier` under the journal's
/// presenter key. On success the nullifier is recorded as spent; on any
/// failure the state is left as it was.
pub fn apply_attestation(
    state: &mut GateState,
    journal: &AttestationJournal,
    context_id: [u8; 32],
    presenter_sig: [u8; 64],
    expected_threshold: u128,
) -> (r: Result<(), SpelError>)
    ensures
        r is Ok <==> rejection(*old(state), *journal, context_id, presenter_sig, expected_threshold) is None,
        r is Ok ==> final(state).accepted_root == old(state).accepted_root
            && final(state).spent_nullifiers@ == old(state).spent_nullifiers@.push(journal.nullifier),
        r matches Err(e) ==> *final(state) == *old(state) && match rejection(
            *old(state),
            *journal,
            context_id,
            presenter_sig,
            expected_threshold,
        ) {
            Some((code, message)) => is_custom_error(e, code, message),
            None => false,
        },
{
    if !bytes32_eq(&journal.context_id, &context_id) {
        return Err(
            SpelError::Custom { code: ERR_CONTEXT_MISMATCH, message: String::from_str("context_id mismatch") },
        );
    }
    if journal.threshold_n < expected_threshold {
        return Err(
            SpelError::Custom {
                code: ERR_THRESHOLD_NOT_MET,
                message: String::from_str("balance below expected threshold"),
            },
        );
    }
    if !bytes32_eq(&journal.merkle_root, &state.accepted_root) {
        return Err(
            SpelError::Custom { code: ERR_STALE_ROOT, message: String::from_str("merkle root mismatch") },
        );
    }
    if contains_nullifier(&state.spent_nullifiers, &journal.nullifier) {
        return Err(
            SpelError::Custom {
                code: ERR_NULLIFIER_SPENT,
                message: String::from_str("nullifier already spent"),
            },
        );
    }
    let message = build_attestation_message(
        &journal.context_id,
        &journal.merkle_root,
        journal.threshold_n,
        &journal.nullifier,
    );
    if !ed25519_key_check(&journal.presenter_pk) {
        return Err(
            SpelError::Custom {
                code: ERR_SIGNATURE_INVALID,
                message: String::from_str("invalid presenter public key"),
            },
        );
    }
    if !ed25519_verify(&journal.presenter_pk, message.as_slice(), &presenter_sig) {
        return Err(
            SpelError::Custom {
                code: ERR_SIGNATURE_INVALID,
                message: String::from_str("presenter signature invalid"),
            },
        );
    }
    state.spent_nullifiers.push(journal.nullifier);
    Ok(())
}

/// What an admission means, both ways: an attestation is admitted exactly
/// when the journal was made for this gating context, meets the threshold,
/// is over the accepted Merkle root, carries an unspent nullifier, and is
/// signed under a valid presenter key. So a presenter whose key and signature
/// come from `presenter_public_key` and `sign_attestation` is admitted with a
/// fresh, current attestation.
pub proof fn lemma_admission_exactly(
    state: GateState,
    journal: AttestationJournal,
    context_id: [u8; 32],
    presenter_sig: [u8; 64],
    expected_threshold: u128,
)
    ensures
        rejection(state, journal, context_id, presenter_sig, expected_threshold) is None <==> {
            &&& journal.context_id == context_id
            &&& journal.threshold_n >= expected_threshold
            &&& journal.merkle_root == state.accepted_root
            &&& !state.spent_nullifiers@.contains(journal.nullifier)
            &&& ed25519_key_valid(journal.presenter_pk@)
            &&& ed25519_signature_valid(
                journal.presenter_pk@,
                journal_message(journal),
                presenter_sig@,
            )
        },
{
}

/// Replay denial: after a nullifier has been admitted, every later
/// attestation with the same nullifier is rejected, and one that passes the
/// context, threshold and root checks is rejected as a spent nullifier.
pub proof fn lemma_nullifier_single_use(
    before: GateState,
    after: GateState,
    first: AttestationJournal,
    first_context: [u8; 32],
    first_sig: [u8; 64],
    first_threshold: u128,
    second: AttestationJournal,
    second_context: [u8; 32],
    second_sig: [u8; 64],
    second_threshold: u128,
)
    requires
        rejection(before, first, first_context, first_sig, first_threshold) is None,
        after.accepted_root == before.accepted_root,
        after.spent_nullifiers@ == before.spent_nullifiers@.push(first.nullifier),
        second.nullifier == first.nullifier,
    ensures
        rejection(after, second, second_context, second_sig, second_threshold) is Some,
        second.context_id == second_context && second.threshold_n >= second_threshold
            && second.merkle_root == after.accepted_root ==> rejection(
            after,
            second,
            second_context,
            second_sig,
            second_threshold,
        ) == Some((ERR_NULLIFIER_SPENT, "nullifier already spent"@)),
{
    assert(after.spent_nullifiers@[before.spent_nullifiers@.len() as int] == first.nullifier);
    assert(after.spent_nullifiers@.contains(second.nullifier));
}

/// Spent nullifiers stay spent and stay distinct: admitting an attestation
/// to a state whose nullifiers are distinct keeps every earlier nullifier and
/// keeps them distinct; a rejection leaves the state as it was.
pub proof fn lemma_admission_keeps_nullifiers(
    before: GateState,
    after: GateState,
    journal: AttestationJournal,
    context_id: [u8; 32],
    presenter_sig: [u8; 64],
    expected_threshold: u128,
)
    requires
        distinct_nullifiers(before.spent_nullifiers@),
        rejection(before, journal, context_id, presenter_sig, expected_threshold) is None,
        after.spent_nullifiers@ == before.spent_nullifiers@.push(journal.nullifier),
    ensures
        distinct_nullifiers(after.spent_nullifiers@),
        forall|n: [u8; 32]| before.spent_nullifiers@.contains(n) ==> after.spent_nullifiers@.contains(n),
        after.spent_nullifiers@.contains(journal.nullifier),
{
    let b = before.spent_nullifiers@;
    let a = after.spent_nullifiers@;
    assert forall|i: int, j: int| 0 <= i < j < a.len() implies a[i] != a[j] by {
        if j == b.len() {
            assert(b[i] == a[i]);
            assert(b.contains(a[i]));
        } else {
            assert(a[i] == b[i] && a[j] == b[j]);
        }
    }
    assert forall|n: [u8; 32]| b.contains(n) implies a.contains(n) by {
        let k = choose|k: int| 0 <= k < b.len() && b[k] == n;
        assert(a[k] == n);
    }
    assert(a[b.len() as int] == journal.nullifier);
}

/// Freshness: an attestation for this gating context that meets the
/// threshold but is over another Merkle root than the accepted one is
/// rejected as stale, whatever its signature.
pub proof fn lemma_stale_root_rejected(
    state: GateState,
    journal: AttestationJournal,
    context_id: [u8; 32],
    presenter_sig: [u8; 64],
    expected_threshold: u128,
)
    requires
        journal.context_id == context_id,
        journal.threshold_n >= expected_threshold,
        journal.merkle_root != state.accepted_root,
    ensures
        rejection(state, journal, context_id, presenter_sig, expected_threshold) == Some(
            (ERR_STALE_ROOT, "merkle root mismatch"@),
        ),
{
}

/// A lower expected threshold never turns an admission into a rejection.
pub proof fn lemma_threshold_monotone(
    state: GateState,
    journal: AttestationJournal,
    context_id: [u8; 32],
    presenter_sig: [u8; 64],
    expected_threshold: u128,
    lower_threshold: u128,
)
    requires
        rejection(state, journal, context_id, presenter_sig, expected_threshold) is None,
        lower_threshold <= expected_threshold,
    ensures
        rejection(state, journal, context_id, presenter_sig, lower_threshold) is None,
{
}

} // verus!
