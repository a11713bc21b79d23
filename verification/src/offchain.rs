//! Off-chain verification of balance attestation receipts.
//!
//! A receipt is read from its bytes (little-endian words in risc0's serde
//! format), verified against the circuit's image id by `risc0-zkvm`, and its
//! journal decoded into a `BalanceAttestation`; the attestation is then
//! checked against what the verifier expects.
use crate::bytes::{le_value, le_words, words_from_le_bytes, words_le_bytes};
use crate::circuit::BalanceAttestation;
use crate::crypto::{ed25519_key_check, ed25519_key_valid, ed25519_signature_valid, ed25519_verify};
use crate::message::{attestation_message, build_attestation_message};
use risc0_zkvm::Receipt;
use vstd::prelude::*;

verus! {

/// Attestation circuit image ID.
pub const IMAGE_ID: [u32; 8] = [
    0xa467ec7f,
    0xecb63d04,
    0xdec5c62b,
    0xfee3e100,
    0x278f0e6f,
    0x3e1a8fc2,
    0x200c856c,
    0xd931e6b0,
];

/// Whether risc0's serde format reads a `Receipt` from `words`.
pub uninterp spec fn receipt_decodes(words: Seq<u32>) -> bool;

/// The journal bytes of the receipt that risc0's serde format reads from
/// `words` (meaningful where `receipt_decodes(words)`).
pub uninterp spec fn receipt_journal(words: Seq<u32>) -> Seq<u8>;

/// Whether the claim of the receipt read from `words` has the digest of the
/// successful-exit claim for `image_id` with that receipt's journal: the
/// last check of `Receipt::verify_with_context`, which does not depend on
/// the verifier context.
pub uninterp spec fn receipt_claim_ok(words: Seq<u32>, image_id: Seq<u32>) -> bool;

/// `risc0_zkvm::serde::from_slice::<Receipt, u32>`, then the receipt's
/// `journal.bytes`: `None` exactly when the words do not hold a receipt.
/// Whether they do, and the journal they hold, are named.
#[verifier::external_body]
fn receipt_journal_of_words(words: &[u32]) -> (r: Option<Vec<u8>>)
    ensures
        r is Some <==> receipt_decodes(words@),
        r matches Some(journal) ==> journal@ == receipt_journal(words@),
{
    match risc0_zkvm::serde::from_slice::<Receipt, u32>(words) {
        Ok(receipt) => Some(receipt.journal.bytes),
        Err(_) => None,
    }
}

/// `Receipt::verify` with `image_id`, on the receipt read from `words` by
/// `risc0_zkvm::serde::from_slice`: whether its seal proves a successful run
/// of that image with its journal. Words that hold no receipt do not verify,
/// and a receipt verifies only if its claim is the successful-exit claim for
/// `image_id` and its journal (a check that runs on every path). Beyond that
/// the outcome is not stated: the seal check rests on the proof system and on
/// the verifier context that `verify` builds, which reads whether dev mode is
/// enabled in the environment.
#[verifier::external_body]
fn receipt_verify_words(words: &[u32], image_id: [u32; 8]) -> (ok: bool)
    ensures
        ok ==> receipt_decodes(words@),
        ok ==> receipt_claim_ok(words@, image_id@),
{
    match risc0_zkvm::serde::from_slice::<Receipt, u32>(words) {
        Ok(receipt) => receipt.verify(image_id).is_ok(),
        Err(_) => false,
    }
}

/// A receipt held as its words in risc0's serde format.
pub struct SerializedReceipt {
    pub words: Vec<u32>,
}

/// Whether each word holds a byte value.
pub open spec fn byte_words(w: Seq<u32>) -> bool {
    forall|i: int| 0 <= i < w.len() ==> #[trigger] w[i] < 256
}

/// The bytes held one per word.
pub open spec fn words_as_bytes(w: Seq<u32>) -> Seq<u8> {
    Seq::new(w.len(), |i: int| w[i] as u8)
}

/// Whether risc0's serde format reads the journal fields from `w`: 32 words
/// of root bytes, 4 words of threshold, then 3 × 32 words of bytes (words
/// after these are not read).
pub open spec fn journal_words_ok(w: Seq<u32>) -> bool {
    &&& w.len() >= 132
    &&& byte_words(w.subrange(0, 32))
    &&& byte_words(w.subrange(36, 132))
}

/// The threshold read from four words: the `u128` whose little-endian bytes
/// are the words' little-endian bytes.
pub open spec fn threshold_of_words(w: Seq<u32>) -> nat {
    le_value(words_le_bytes(w.subrange(32, 36)))
}

/// `attestation` holds the fields that `w` encodes.
pub open spec fn attestation_from_words(attestation: BalanceAttestation, w: Seq<u32>) -> bool {
    &&& attestation.merkle_root@ == words_as_bytes(w.subrange(0, 32))
    &&& attestation.threshold_n as nat == threshold_of_words(w)
    &&& attestation.context_id@ == words_as_bytes(w.subrange(36, 68))
    &&& attestation.presenter_pk@ == words_as_bytes(w.subrange(68, 100))
    &&& attestation.nullifier@ == words_as_bytes(w.subrange(100, 132))
}

/// `risc0_zkvm::serde::from_slice::<([u8; 32], u128, [u8; 32], [u8; 32],
/// [u8; 32]), u32>`: each byte is one word (a word above 255 fails), the
/// `u128` is read from the little-endian bytes of four words, and words after
/// the last field are left unread.
#[verifier::external_body]
fn journal_fields_from_words(words: &[u32]) -> (r: Option<
    ([u8; 32], u128, [u8; 32], [u8; 32], [u8; 32]),
>)
    ensures
        r is Some <==> journal_words_ok(words@),
        r matches Some(v) ==> attestation_from_words(
            BalanceAttestation {
                merkle_root: v.0,
                threshold_n: v.1,
                context_id: v.2,
                presenter_pk: v.3,
                nullifier: v.4,
            },
            words@,
        ),
{
    match risc0_zkvm::serde::from_slice::<([u8; 32], u128, [u8; 32], [u8; 32], [u8; 32]), u32>(
        words,
    ) {
        Ok(v) => Some(v),
        Err(_) => None,
    }
}

/// Why an attestation receipt was refused.
#[derive(Debug, Clone, Copy, PartialEq, Eq, Structural)]
pub enum VerifyError {
    /// The receipt bytes do not hold a receipt.
    ReceiptDecode,
    /// The receipt does not verify against the image id.
    ReceiptInvalid,
    /// The journal does not hold an attestation.
    JournalDecode,
    /// The attestation was made for another gate.
    ContextMismatch,
    /// The attestation's threshold is below the required one.
    ThresholdNotMet { proven: u128, required: u128 },
    /// The attestation binds another presenter key.
    PresenterKeyMismatch,
    /// The presenter key is not a valid Ed25519 key.
    InvalidPresenterKey,
    /// The presenter signature does not verify.
    SignatureInvalid,
}

/// Decodes an attestation from journal bytes (risc0 serde words). A journal
/// whose length is not a whole number of words is refused.
pub fn decode_attestation_journal(journal: &[u8]) -> (r: Option<BalanceAttestation>)
    ensures
        journal@.len() % 4 != 0 ==> r is None,
        journal@.len() % 4 == 0 ==> (r is Some <==> journal_words_ok(le_words(journal@))),
        r matches Some(att) ==> attestation_from_words(att, le_words(journal@)),
{
    if journal.len() % 4 != 0 {
        return None;
    }
    let words = words_from_le_bytes(journal);
    match journal_fields_from_words(words.as_slice()) {
        Some((merkle_root, threshold_n, context_id, presenter_pk, nullifier)) => Some(
            BalanceAttestation { merkle_root, threshold_n, context_id, presenter_pk, nullifier },
        ),
        None => None,
    }
}

/// Why `check_attestation` refuses `att` (checked in order), or `None`. With
/// `bind_presenter`, the attestation must also carry `presenter_pk`.
pub open spec fn attestation_refusal(
    att: BalanceAttestation,
    expected_context_id: [u8; 32],
    expected_threshold: u128,
    presenter_pk: [u8; 32],
    presenter_sig: [u8; 64],
    bind_presenter: bool,
) -> Option<VerifyError> {
    if att.context_id != expected_context_id {
        Some(VerifyError::ContextMismatch)
    } else if att.threshold_n < expected_threshold {
        Some(VerifyError::ThresholdNotMet { proven: att.threshold_n, required: expected_threshold })
    } else if bind_presenter && att.presenter_pk != presenter_pk {
        Some(VerifyError::PresenterKeyMismatch)
    } else if !ed25519_key_valid(presenter_pk@) {
        Some(VerifyError::InvalidPresenterKey)
    } else if !ed25519_signature_valid(
        presenter_pk@,
        attestation_message(att.context_id@, att.merkle_root@, att.threshold_n, att.nullifier@),
        presenter_sig@,
    ) {
        Some(VerifyError::SignatureInvalid)
    } else {
        None
    }
}

/// What an accepted attestation satisfies: it was made for
/// `expected_context_id`, proves at least `expected_threshold`, carries
/// `presenter_pk` where `bind_presenter` asks so, and `presenter_sig` is a
/// valid signature under the valid key `presenter_pk` of the attestation's
/// message.
pub open spec fn attestation_accepted(
    att: BalanceAttestation,
    expected_context_id: [u8; 32],
    expected_threshold: u128,
    presenter_pk: [u8; 32],
    presenter_sig: [u8; 64],
    bind_presenter: bool,
) -> bool {
    &&& att.context_id == expected_context_id
    &&& att.threshold_n >= expected_threshold
    &&& bind_presenter ==> att.presenter_pk == presenter_pk
    &&& ed25519_key_valid(presenter_pk@)
    &&& ed25519_signature_valid(
        presenter_pk@,
        attestation_message(att.context_id@, att.merkle_root@, att.threshold_n, att.nullifier@),
        presenter_sig@,
    )
}

/// Whether or not the presenter key must be carried, an attestation is
/// refused for no reason exactly when it is accepted; one for another gate is
/// refused as `ContextMismatch`; and one for this gate that proves less than
/// the required threshold is refused as `ThresholdNotMet` with the proven and
/// the required amounts. Past those two checks, an attestation that must carry
/// the key and carries another is refused as `PresenterKeyMismatch`; then an
/// invalid key is refused as `InvalidPresenterKey`, and a signature that does
/// not verify as `SignatureInvalid`.
pub proof fn lemma_attestation_refusal_reasons(
    att: BalanceAttestation,
    expected_context_id: [u8; 32],
    expected_threshold: u128,
    presenter_pk: [u8; 32],
    presenter_sig: [u8; 64],
    bind_presenter: bool,
)
    ensures
        attestation_refusal(
            att,
            expected_context_id,
            expected_threshold,
            presenter_pk,
            presenter_sig,
            bind_presenter,
        ) is None <==> attestation_accepted(
            att,
            expected_context_id,
            expected_threshold,
            presenter_pk,
            presenter_sig,
            bind_presenter,
        ),
        att.context_id != expected_context_id ==> attestation_refusal(
            att,
            expected_context_id,
            expected_threshold,
            presenter_pk,
            presenter_sig,
            bind_presenter,
        ) == Some(VerifyError::ContextMismatch),
        att.context_id == expected_context_id && att.threshold_n < expected_threshold
            ==> attestation_refusal(
            att,
            expected_context_id,
            expected_threshold,
            presenter_pk,
            presenter_sig,
            bind_presenter,
        ) == Some(
            VerifyError::ThresholdNotMet { proven: att.threshold_n, required: expected_threshold },
        ),
        att.context_id == expected_context_id && att.threshold_n >= expected_threshold
            && bind_presenter && att.presenter_pk != presenter_pk ==> attestation_refusal(
            att,
            expected_context_id,
            expected_threshold,
            presenter_pk,
            presenter_sig,
            bind_presenter,
        ) == Some(VerifyError::PresenterKeyMismatch),
        att.context_id == expected_context_id && att.threshold_n >= expected_threshold && (
        bind_presenter ==> att.presenter_pk == presenter_pk) && !ed25519_key_valid(presenter_pk@)
            ==> attestation_refusal(
            att,
            expected_context_id,
            expected_threshold,
            presenter_pk,
            presenter_sig,
            bind_presenter,
        ) == Some(VerifyError::InvalidPresenterKey),
        att.context_id == expected_context_id && att.threshold_n >= expected_threshold && (
        bind_presenter ==> att.presenter_pk == presenter_pk) && ed25519_key_valid(presenter_pk@)
            && !ed25519_signature_valid(
            presenter_pk@,
            attestation_message(att.context_id@, att.merkle_root@, att.threshold_n, att.nullifier@),
            presenter_sig@,
        ) ==> attestation_refusal(
            att,
            expected_context_id,
            expected_threshold,
            presenter_pk,
            presenter_sig,
            bind_presenter,
        ) == Some(VerifyError::SignatureInvalid),
{
}

fn check_attestation_with(
    att: BalanceAttestation,
    expected_context_id: &[u8; 32],
    expected_threshold: u128,
    presenter_pk: &[u8; 32],
    presenter_sig: &[u8; 64],
    bind_presenter: bool,
) -> (r: Result<BalanceAttestation, VerifyError>)
    ensures
        match attestation_refusal(
            att,
            *expected_context_id,
            expected_threshold,
            *presenter_pk,
            *presenter_sig,
            bind_presenter,
        ) {
            Some(e) => r == Err::<BalanceAttestation, VerifyError>(e),
            None => r == Ok::<BalanceAttestation, VerifyError>(att),
        },
{
    if !crate::bytes::bytes32_eq(&att.context_id, expected_context_id) {
        return Err(VerifyError::ContextMismatch);
    }
    if att.threshold_n < expected_threshold {
        return Err(
            VerifyError::ThresholdNotMet { proven: att.threshold_n, required: expected_threshold },
        );
    }
    if bind_presenter && !crate::bytes::bytes32_eq(&att.presenter_pk, presenter_pk) {
        return Err(VerifyError::PresenterKeyMismatch);
    }
    let message = build_attestation_message(
        &att.context_id,
        &att.merkle_root,
        att.threshold_n,
        &att.nullifier,
    );
    if !ed25519_key_check(presenter_pk) {
        return Err(VerifyError::InvalidPresenterKey);
    }
    if !ed25519_verify(presenter_pk, message.as_slice(), presenter_sig) {
        return Err(VerifyError::SignatureInvalid);
    }
    Ok(att)
}

/// Checks a decoded attestation as `verify_attestation` does: it must be for
/// `expected_context_id`, meet `expected_threshold`, carry
/// `expected_presenter_pk`, and `presenter_sig` must sign
/// `context_id || merkle_root || threshold_n || nullifier` under that key.
pub fn check_attestation(
    attestation: BalanceAttestation,
    expected_context_id: &[u8; 32],
    expected_threshold: u128,
    expected_presenter_pk: &[u8; 32],
    presenter_sig: &[u8; 64],
) -> (r: Result<BalanceAttestation, VerifyError>)
    ensures
        match attestation_refusal(
            attestation,
            *expected_context_id,
            expected_threshold,
            *expected_presenter_pk,
            *presenter_sig,
            true,
        ) {
            Some(e) => r == Err::<BalanceAttestation, VerifyError>(e),
            None => r == Ok::<BalanceAttestation, VerifyError>(attestation),
        },
        r is Ok <==> attestation_accepted(
            attestation,
            *expected_context_id,
            expected_threshold,
            *expected_presenter_pk,
            *presenter_sig,
            true,
        ),
        attestation.context_id == *expected_context_id && attestation.threshold_n < expected_threshold
            ==> r == Err::<BalanceAttestation, VerifyError>(
            VerifyError::ThresholdNotMet { proven: attestation.threshold_n, required: expected_threshold },
        ),
{
    check_attestation_with(
        attestation,
        expected_context_id,
        expected_threshold,
        expected_presenter_pk,
        presenter_sig,
        true,
    )
}

/// The offline check of the command-line verifier: like `check_attestation`,
/// but the signature is checked under the given `presenter_pk` without
/// requiring the attestation to carry that key.
pub fn check_presented_attestation(
    attestation: BalanceAttestation,
    expected_context_id: &[u8; 32],
    expected_threshold: u128,
    presenter_pk: &[u8; 32],
    presenter_sig: &[u8; 64],
) -> (r: Result<BalanceAttestation, VerifyError>)
    ensures
        match attestation_refusal(
            attestation,
            *expected_context_id,
            expected_threshold,
            *presenter_pk,
            *presenter_sig,
            false,
        ) {
            Some(e) => r == Err::<BalanceAttestation, VerifyError>(e),
            None => r == Ok::<BalanceAttestation, VerifyError>(attestation),
        },
        r is Ok <==> attestation_accepted(
            attestation,
            *expected_context_id,
            expected_threshold,
            *presenter_pk,
            *presenter_sig,
            false,
        ),
        attestation.context_id == *expected_context_id && attestation.threshold_n < expected_threshold
            ==> r == Err::<BalanceAttestation, VerifyError>(
            VerifyError::ThresholdNotMet { proven: attestation.threshold_n, required: expected_threshold },
        ),
{
    check_attestation_with(
        attestation,
        expected_context_id,
        expected_threshold,
        presenter_pk,
        presenter_sig,
        false,
    )
}

/// Whether `journal` holds an attestation: a whole number of words that
/// risc0's serde format reads as the journal fields.
pub open spec fn journal_decodes(journal: Seq<u8>) -> bool {
    journal.len() % 4 == 0 && journal_words_ok(le_words(journal))
}

/// `r` is what decoding `journal` gives: the attestation its words encode, or
/// `JournalDecode`.
pub open spec fn journal_result(r: Result<BalanceAttestation, VerifyError>, journal: Seq<u8>) -> bool {
    if journal_decodes(journal) {
        r matches Ok(att) && attestation_from_words(att, le_words(journal))
    } else {
        r == Err::<BalanceAttestation, VerifyError>(VerifyError::JournalDecode)
    }
}

/// `r` is what reading and checking the receipt words `w` may give: refused
/// as undecodable exactly when the words hold no receipt; refused as
/// invalid only for a receipt (the proof check itself is not stated);
/// otherwise what decoding the receipt's journal gives.
pub open spec fn receipt_result(r: Result<BalanceAttestation, VerifyError>, w: Seq<u32>) -> bool {
    if !receipt_decodes(w) {
        r == Err::<BalanceAttestation, VerifyError>(VerifyError::ReceiptDecode)
    } else {
        r == Err::<BalanceAttestation, VerifyError>(VerifyError::ReceiptInvalid) || journal_result(
            r,
            receipt_journal(w),
        )
    }
}

/// `r` is what verifying the receipt words `w` and then checking the
/// attestation of its journal (as `check_attestation` does, or, without
/// `bind_presenter`, as `check_presented_attestation` does) may give.
pub open spec fn verification_result(
    r: Result<BalanceAttestation, VerifyError>,
    w: Seq<u32>,
    expected_context_id: [u8; 32],
    expected_threshold: u128,
    presenter_pk: [u8; 32],
    presenter_sig: [u8; 64],
    bind_presenter: bool,
) -> bool {
    if !receipt_decodes(w) {
        r == Err::<BalanceAttestation, VerifyError>(VerifyError::ReceiptDecode)
    } else if r == Err::<BalanceAttestation, VerifyError>(VerifyError::ReceiptInvalid) {
        true
    } else if !journal_decodes(receipt_journal(w)) {
        r == Err::<BalanceAttestation, VerifyError>(VerifyError::JournalDecode)
    } else {
        exists|att: BalanceAttestation|
            #[trigger] attestation_from_words(att, le_words(receipt_journal(w))) && match attestation_refusal(
                att,
                expected_context_id,
                expected_threshold,
                presenter_pk,
                presenter_sig,
                bind_presenter,
            ) {
                Some(e) => r == Err::<BalanceAttestation, VerifyError>(e),
                None => r == Ok::<BalanceAttestation, VerifyError>(att),
            }
    }
}

/// What follows the proof check of a receipt: a receipt that does not verify
/// is refused as invalid; otherwise its journal is decoded.
pub fn receipt_outcome(verified: bool, journal: &[u8]) -> (r: Result<BalanceAttestation, VerifyError>)
    ensures
        !verified ==> r == Err::<BalanceAttestation, VerifyError>(VerifyError::ReceiptInvalid),
        verified ==> journal_result(r, journal@),
{
    if !verified {
        return Err(VerifyError::ReceiptInvalid);
    }
    match decode_attestation_journal(journal) {
        Some(att) => Ok(att),
        None => Err(VerifyError::JournalDecode),
    }
}

/// Reads, verifies against `image_id` and decodes a receipt: the attestation
/// of its journal, or why it was refused before the attestation checks.
pub fn receipt_attestation(receipt_bytes: &[u8], image_id: [u32; 8]) -> (r: Result<
    BalanceAttestation,
    VerifyError,
>)
    ensures
        receipt_result(r, le_words(receipt_bytes@)),
        r is Ok ==> receipt_claim_ok(le_words(receipt_bytes@), image_id@),
        receipt_decodes(le_words(receipt_bytes@)) && !receipt_claim_ok(le_words(receipt_bytes@), image_id@)
            ==> r == Err::<BalanceAttestation, VerifyError>(VerifyError::ReceiptInvalid),
{
    let words = words_from_le_bytes(receipt_bytes);
    let journal = match receipt_journal_of_words(words.as_slice()) {
        Some(journal) => journal,
        None => {
            return Err(VerifyError::ReceiptDecode);
        },
    };
    let verified = receipt_verify_words(words.as_slice(), image_id);
    receipt_outcome(verified, journal.as_slice())
}

/// Decodes the attestation from a receipt's journal (without checking the
/// receipt's proof).
pub fn journal_attestation(receipt: &SerializedReceipt) -> (r: Result<BalanceAttestation, VerifyError>)
    ensures
        !receipt_decodes(receipt.words@) ==> r == Err::<BalanceAttestation, VerifyError>(
            VerifyError::ReceiptDecode,
        ),
        receipt_decodes(receipt.words@) ==> journal_result(r, receipt_journal(receipt.words@)),
{
    match receipt_journal_of_words(receipt.words.as_slice()) {
        Some(journal) => receipt_outcome(true, journal.as_slice()),
        None => Err(VerifyError::ReceiptDecode),
    }
}

/// The receipt's bytes: its words, each written little-endian, so that
/// reading the bytes back as words gives exactly those words.
pub fn receipt_bytes(receipt: &SerializedReceipt) -> (b: Vec<u8>)
    ensures
        b@ == words_le_bytes(receipt.words@),
        le_words(b@) == receipt.words@,
{
    crate::bytes::words_to_le_bytes(receipt.words.as_slice())
}

/// Verify a balance attestation receipt: the receipt verifies against the
/// image id, its journal decodes into a `BalanceAttestation`, and the
/// attestation passes `check_attestation`. The caller keeps the nullifier
/// bookkeeping.
pub fn verify_attestation(
    receipt_bytes: &[u8],
    image_id: [u32; 8],
    expected_context_id: &[u8; 32],
    expected_threshold: u128,
    expected_presenter_pk: &[u8; 32],
    presenter_sig: &[u8; 64],
) -> (r: Result<BalanceAttestation, VerifyError>)
    ensures
        verification_result(
            r,
            le_words(receipt_bytes@),
            *expected_context_id,
            expected_threshold,
            *expected_presenter_pk,
            *presenter_sig,
            true,
        ),
        r is Ok ==> receipt_claim_ok(le_words(receipt_bytes@), image_id@),
        receipt_decodes(le_words(receipt_bytes@)) && !receipt_claim_ok(le_words(receipt_bytes@), image_id@)
            ==> r == Err::<BalanceAttestation, VerifyError>(VerifyError::ReceiptInvalid),
        r matches Ok(att) ==> attestation_accepted(
            att,
            *expected_context_id,
            expected_threshold,
            *expected_presenter_pk,
            *presenter_sig,
            true,
        ),
{
    let attestation = receipt_attestation(receipt_bytes, image_id)?;
    check_attestation(
        attestation,
        expected_context_id,
        expected_threshold,
        expected_presenter_pk,
        presenter_sig,
    )
}

/// The command-line `verify`: reads, verifies against `image_id` and decodes
/// the receipt, then applies `check_presented_attestation`.
pub fn verify_receipt_offline(
    receipt_bytes: &[u8],
    image_id: [u32; 8],
    expected_context_id: &[u8; 32],
    expected_threshold: u128,
    presenter_pk: &[u8; 32],
    presenter_sig: &[u8; 64],
) -> (r: Result<BalanceAttestation, VerifyError>)
    ensures
        verification_result(
            r,
            le_words(receipt_bytes@),
            *expected_context_id,
            expected_threshold,
            *presenter_pk,
            *presenter_sig,
            false,
        ),
        r is Ok ==> receipt_claim_ok(le_words(receipt_bytes@), image_id@),
        receipt_decodes(le_words(receipt_bytes@)) && !receipt_claim_ok(le_words(receipt_bytes@), image_id@)
            ==> r == Err::<BalanceAttestation, VerifyError>(VerifyError::ReceiptInvalid),
        r matches Ok(att) ==> attestation_accepted(
            att,
            *expected_context_id,
            expected_threshold,
            *presenter_pk,
            *presenter_sig,
            false,
        ),
{
    let attestation = receipt_attestation(receipt_bytes, image_id)?;
    check_presented_attestation(
        attestation,
        expected_context_id,
        expected_threshold,
        presenter_pk,
        presenter_sig,
    )
}

/// The off-chain and on-chain paths accept the same attestations: when the
/// gate state accepts the attestation's Merkle root and has not spent its
/// nullifier, the program admits the journal with the same fields exactly when
/// `check_attestation` accepts the attestation under the presenter key it
/// carries.
pub proof fn lemma_onchain_offchain_agree(
    attestation: BalanceAttestation,
    journal: crate::gate::AttestationJournal,
    state: crate::gate::GateState,
    context_id: [u8; 32],
    threshold: u128,
    presenter_sig: [u8; 64],
)
    requires
        journal.merkle_root == attestation.merkle_root,
        journal.threshold_n == attestation.threshold_n,
        journal.context_id == attestation.context_id,
        journal.presenter_pk == attestation.presenter_pk,
        journal.nullifier == attestation.nullifier,
        state.accepted_root == attestation.merkle_root,
        !state.spent_nullifiers@.contains(attestation.nullifier),
    ensures
        crate::gate::rejection(state, journal, context_id, presenter_sig, threshold) is None
            <==> attestation_refusal(
            attestation,
            context_id,
            threshold,
            attestation.presenter_pk,
            presenter_sig,
            true,
        ) is None,
{
}

} // verus!
