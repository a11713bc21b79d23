//! The gating program's two instructions, on the account bytes they read and
//! write. The receipt assumption (`env::verify` inside the zkVM) is checked by
//! the program's entry point between `gate_precheck` and `gate`.
use crate::encoding::{
    decode_gate_state, decode_journal, encode_gate_state, gate_state_encoding, gate_state_layout,
    journal_encoding,
};
use crate::gate::{
    apply_attestation, is_custom_error, rejection, AttestationJournal, GateState, SpelError,
    ERR_PROOF_INVALID,
};
use vstd::prelude::*;

verus! {

/// Initialize a new gate with an accepted Merkle root: the account data of a
/// gate that accepts `initial_root` and has spent no nullifier.
pub fn initialize(initial_root: [u8; 32]) -> (r: Result<Vec<u8>, SpelError>)
    ensures
        r matches Ok(data) && data@ == gate_state_encoding(initial_root@, Seq::empty()),
{
    let state = GateState { accepted_root: initial_root, spent_nullifiers: Vec::new() };
    match encode_gate_state(&state) {
        Ok(data) => Ok(data),
        Err(message) => Err(SpelError::SerializationError { message }),
    }
}

/// The checks of the `gate` instruction that come before the receipt
/// assumption: the presenter signature must be 64 bytes and the account data
/// must decode as a gate state.
pub fn gate_precheck(account_data: &[u8], presenter_sig_bytes: &[u8]) -> (r: Result<
    (GateState, [u8; 64]),
    SpelError,
>)
    ensures
        presenter_sig_bytes@.len() != 64 ==> (r matches Err(e) && is_custom_error(
            e,
            ERR_PROOF_INVALID,
            "presenter_sig must be 64 bytes"@,
        )),
        presenter_sig_bytes@.len() == 64 && !gate_state_layout(account_data@) ==> (r matches Err(
            e,
        ) && is_custom_error(e, ERR_PROOF_INVALID, "state deserialise failed"@)),
        presenter_sig_bytes@.len() == 64 && gate_state_layout(account_data@) ==> (r matches Ok(
            (state, sig),
        ) && sig@ == presenter_sig_bytes@ && gate_state_encoding(
            state.accepted_root@,
            state.spent_nullifiers@,
        ) == account_data@),
{
    if presenter_sig_bytes.len() != 64 {
        return Err(
            SpelError::Custom {
                code: ERR_PROOF_INVALID,
                message: String::from_str("presenter_sig must be 64 bytes"),
            },
        );
    }
    let mut sig = [0u8; 64];
    let mut i: usize = 0;
    while i < 64
        invariant
            i <= 64,
            presenter_sig_bytes@.len() == 64,
            forall|k: int| 0 <= k < i ==> sig[k] == presenter_sig_bytes@[k],
        decreases 64 - i,
    {
        sig[i] = presenter_sig_bytes[i];
        i = i + 1;
    }
    assert(sig@ =~= presenter_sig_bytes@);
    match decode_gate_state(account_data) {
        Some(state) => Ok((state, sig)),
        None => Err(
            SpelError::Custom {
                code: ERR_PROOF_INVALID,
                message: String::from_str("state deserialise failed"),
            },
        ),
    }
}

/// The `gate` instruction after the receipt assumption has been verified:
/// decode the journal, apply the attestation to the state, and return the new
/// account data.
pub fn gate(
    state: GateState,
    presenter_sig: [u8; 64],
    journal_bytes: &[u8],
    context_id: [u8; 32],
    expected_threshold: u128,
) -> (r: Result<Vec<u8>, SpelError>)
    ensures
        journal_bytes@.len() != 144 ==> (r matches Err(e) && is_custom_error(
            e,
            ERR_PROOF_INVALID,
            "journal decode failed"@,
        )),
        forall|journal: AttestationJournal|
            #![trigger journal_encoding(journal)]
            journal_encoding(journal) == journal_bytes@ ==> match rejection(
                state,
                journal,
                context_id,
                presenter_sig,
                expected_threshold,
            ) {
                Some((code, message)) => r matches Err(e) && is_custom_error(e, code, message),
                None => if state.spent_nullifiers@.len() + 1 <= u32::MAX {
                    r matches Ok(data) && data@ == gate_state_encoding(
                        state.accepted_root@,
                        state.spent_nullifiers@.push(journal.nullifier),
                    )
                } else {
                    r matches Err(SpelError::SerializationError { .. })
                },
            },
{
    let journal = match decode_journal(journal_bytes) {
        Some(j) => j,
        None => {
            proof {
                assert forall|j: AttestationJournal|
                    #![trigger journal_encoding(j)]
                    journal_encoding(j) != journal_bytes@ by {
                    crate::bytes::lemma_le_bytes_len(j.threshold_n as nat, 16);
                }
            }
            return Err(
                SpelError::Custom {
                    code: ERR_PROOF_INVALID,
                    message: String::from_str("journal decode failed"),
                },
            );
        },
    };
    proof {
        assert forall|j: AttestationJournal|
            #![trigger journal_encoding(j)]
            journal_encoding(j) == journal_bytes@ implies j == journal by {
            crate::encoding::lemma_journal_encoding_injective(j, journal);
        }
    }
    let mut state = state;
    apply_attestation(&mut state, &journal, context_id, presenter_sig, expected_threshold)?;
    match encode_gate_state(&state) {
        Ok(data) => Ok(data),
        Err(message) => Err(SpelError::SerializationError { message }),
    }
}

} // verus!
