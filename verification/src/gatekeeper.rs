//! The off-chain gatekeeper of a token-gated group: it verifies each incoming
//! attestation, admits a presenter at most once per nullifier, and answers
//! with a decision that names only the public failure category.
use crate::circuit::BalanceAttestation;
use crate::hexcodec::{
    hex_decoded, hex_encode, hex_encoded, is_hex, parse_hex32, parse_hex64, parse_hex_result,
};
use crate::bytes::le_words;
use crate::offchain::{
    receipt_claim_ok, receipt_decodes, verification_result, verify_attestation, VerifyError, IMAGE_ID,
};
use vstd::prelude::*;

verus! {

/// Envelope published to the attest topic.
pub struct AttestationEnvelope {
    pub v: u8,
    pub request_id: String,
    pub receipt_hex: String,
    pub presenter_pk: String,
    pub sig: String,
}

/// Why the gatekeeper denied a request.
#[derive(Debug, Clone, Copy, PartialEq, Eq, Structural)]
pub enum DenyReason {
    /// The receipt is not hexadecimal text.
    MalformedReceipt,
    /// The presenter key is not 32 hex-encoded bytes.
    MalformedPresenterKey,
    /// The signature is not 64 hex-encoded bytes.
    MalformedSignature,
    /// The attestation did not verify.
    VerificationFailed(VerifyError),
    /// The attestation's nullifier was already used.
    NullifierSpent,
}

/// Decision published to the response topic.
pub struct GateResponse {
    pub v: u8,
    pub request_id: String,
    pub admitted: bool,
    /// Present only on denial: why.
    pub denial: Option<DenyReason>,
    /// Present only on admission: the group the presenter was admitted to.
    pub group: Option<String>,
    /// Present only on admission: nullifier consumed by this admission (hex).
    pub nullifier: Option<String>,
}

/// What the gatekeeper remembers: the spent nullifiers (hex) and the
/// presenter keys it admitted, in order.
pub struct GatekeeperState {
    pub spent_nullifiers: Vec<String>,
    pub members: Vec<String>,
}

/// The texts of the spent nullifiers.
pub open spec fn spent_texts(state: GatekeeperState) -> Seq<Seq<char>> {
    state.spent_nullifiers@.map_values(|s: String| s@)
}

/// The texts of the admitted presenter keys.
pub open spec fn member_texts(state: GatekeeperState) -> Seq<Seq<char>> {
    state.members@.map_values(|s: String| s@)
}

/// No spent nullifier is recorded twice.
pub open spec fn distinct_texts(s: Seq<Seq<char>>) -> bool {
    forall|i: int, j: int| 0 <= i < j < s.len() ==> s[i] != s[j]
}

/// `response` denies `request_id` for `reason`.
pub open spec fn is_denial(response: GateResponse, request_id: Seq<char>, reason: DenyReason) -> bool {
    &&& response.v == 1
    &&& response.request_id@ == request_id
    &&& !response.admitted
    &&& response.denial == Some(reason)
    &&& response.group is None
    &&& response.nullifier is None
}

/// `response` admits `request_id` into `group`, consuming the nullifier `nullifier`.
pub open spec fn is_admission(
    response: GateResponse,
    request_id: Seq<char>,
    group: Seq<char>,
    nullifier: Seq<char>,
) -> bool {
    &&& response.v == 1
    &&& response.request_id@ == request_id
    &&& response.admitted
    &&& response.denial is None
    &&& response.group matches Some(g) && g@ == group
    &&& response.nullifier matches Some(n) && n@ == nullifier
}

/// The envelope a prover publishes: version 1, the receipt as lower-case
/// hexadecimal text, and the presenter key and signature as given.
pub fn build_envelope(
    request_id: String,
    receipt: &[u8],
    presenter_pk: String,
    sig: String,
) -> (env: AttestationEnvelope)
    ensures
        env.v == 1,
        env.request_id == request_id,
        env.receipt_hex@ == hex_encoded(receipt@),
        env.presenter_pk == presenter_pk,
        env.sig == sig,
{
    AttestationEnvelope { v: 1, request_id, receipt_hex: hex_encode(receipt), presenter_pk, sig }
}

fn deny(request_id: &String, reason: DenyReason) -> (response: GateResponse)
    ensures
        is_denial(response, request_id@, reason),
{
    GateResponse {
        v: 1,
        request_id: request_id.clone(),
        admitted: false,
        denial: Some(reason),
        group: None,
        nullifier: None,
    }
}

/// Whether `texts` holds `t`.
pub fn contains_text(texts: &Vec<String>, t: &String) -> (found: bool)
    ensures
        found == texts@.map_values(|s: String| s@).contains(t@),
{
    let ghost view = texts@.map_values(|s: String| s@);
    let mut i: usize = 0;
    while i < texts.len()
        invariant
            i <= texts@.len(),
            view == texts@.map_values(|s: String| s@),
            forall|k: int| 0 <= k < i ==> view[k] != t@,
        decreases texts@.len() - i,
    {
        if texts[i] == *t {
            assert(view[i as int] == t@);
            return true;
        }
        i = i + 1;
    }
    false
}

/// The decision on a verification outcome `verified` for `request_id`, from
/// state `before` to state `after`: a verification failure is denied; an
/// attestation whose nullifier (hex) is already spent is denied; otherwise
/// the nullifier is spent, the presenter key becomes a member, and the
/// presenter is admitted into `group`. A denial leaves the state as it was.
pub open spec fn admit_outcome(
    verified: Result<BalanceAttestation, VerifyError>,
    request_id: Seq<char>,
    presenter_pk: Seq<char>,
    group: Seq<char>,
    before: GatekeeperState,
    response: GateResponse,
    after: GatekeeperState,
) -> bool {
    match verified {
        Err(e) => is_denial(response, request_id, DenyReason::VerificationFailed(e)) && after
            == before,
        Ok(att) => if spent_texts(before).contains(hex_encoded(att.nullifier@)) {
            is_denial(response, request_id, DenyReason::NullifierSpent) && after == before
        } else {
            is_admission(response, request_id, group, hex_encoded(att.nullifier@))
                && spent_texts(after) == spent_texts(before).push(hex_encoded(att.nullifier@))
                && member_texts(after) == member_texts(before).push(presenter_pk)
        },
    }
}

/// Decides on an attestation once the receipt has been verified (or not):
/// a verification failure is denied; an attestation whose nullifier (hex) is
/// already spent is denied; otherwise the nullifier is spent, the presenter
/// key becomes a member, and the presenter is admitted into `group`. A denial
/// leaves the state as it was.
pub fn admit_attestation(
    request_id: &String,
    presenter_pk: &String,
    verified: Result<BalanceAttestation, VerifyError>,
    group: &str,
    state: &mut GatekeeperState,
) -> (response: GateResponse)
    ensures
        admit_outcome(verified, request_id@, presenter_pk@, group@, *old(state), response, *final(state)),
        distinct_texts(spent_texts(*old(state))) ==> distinct_texts(spent_texts(*final(state))),
{
    let attestation = match verified {
        Ok(a) => a,
        Err(e) => {
            return deny(request_id, DenyReason::VerificationFailed(e));
        },
    };
    let nullifier_hex = hex_encode(&attestation.nullifier);
    if contains_text(&state.spent_nullifiers, &nullifier_hex) {
        return deny(request_id, DenyReason::NullifierSpent);
    }
    let ghost old_spent = state.spent_nullifiers@;
    let ghost old_members = state.members@;
    state.spent_nullifiers.push(nullifier_hex.clone());
    state.members.push(presenter_pk.clone());
    assert(spent_texts(*state) =~= old_spent.map_values(|s: String| s@).push(nullifier_hex@));
    assert(member_texts(*state) =~= old_members.map_values(|s: String| s@).push(presenter_pk@));
    GateResponse {
        v: 1,
        request_id: request_id.clone(),
        admitted: true,
        denial: None,
        group: Some(String::from_str(group)),
        nullifier: Some(nullifier_hex),
    }
}

/// Verify one attestation envelope and answer with a decision: the receipt must be
/// hexadecimal, the presenter key 32 hex-encoded bytes and the signature 64;
/// the receipt is then verified with `verify_attestation` against this gate's
/// context and threshold, and `admit_attestation` decides.
pub fn handle_attestation(
    env: &AttestationEnvelope,
    expected_context: &[u8; 32],
    threshold: u128,
    group: &str,
    state: &mut GatekeeperState,
) -> (response: GateResponse)
    ensures
        response.v == 1,
        response.request_id@ == env.request_id@,
        response.admitted <==> response.denial is None,
        response.admitted <==> response.group is Some,
        response.admitted <==> response.nullifier is Some,
        !response.admitted ==> *final(state) == *old(state),
        response.admitted ==> receipt_claim_ok(le_words(hex_decoded(env.receipt_hex@)), IMAGE_ID@),
        is_hex(env.receipt_hex@) && parse_hex_result(env.presenter_pk@, 32) is Ok && parse_hex_result(
            env.sig@,
            64,
        ) is Ok && receipt_decodes(le_words(hex_decoded(env.receipt_hex@))) && !receipt_claim_ok(
            le_words(hex_decoded(env.receipt_hex@)),
            IMAGE_ID@,
        ) ==> response.denial == Some(DenyReason::VerificationFailed(VerifyError::ReceiptInvalid))
            && *final(state) == *old(state),
        distinct_texts(spent_texts(*old(state))) ==> distinct_texts(spent_texts(*final(state))),
        (response.denial == Some(DenyReason::MalformedReceipt)) <==> !is_hex(env.receipt_hex@),
        (response.denial == Some(DenyReason::MalformedPresenterKey)) <==> (is_hex(env.receipt_hex@)
            && parse_hex_result(env.presenter_pk@, 32) is Err),
        (response.denial == Some(DenyReason::MalformedSignature)) <==> (is_hex(env.receipt_hex@)
            && parse_hex_result(env.presenter_pk@, 32) is Ok && parse_hex_result(env.sig@, 64) is Err),
        is_hex(env.receipt_hex@) && parse_hex_result(env.presenter_pk@, 32) is Ok
            && parse_hex_result(env.sig@, 64) is Ok ==> exists|
            verified: Result<BalanceAttestation, VerifyError>,
            pk: [u8; 32],
            sig: [u8; 64],
        |
            #![trigger verification_result(verified, le_words(hex_decoded(env.receipt_hex@)), *expected_context, threshold, pk, sig, true)]
            {
                &&& pk@ == hex_decoded(env.presenter_pk@)
                &&& sig@ == hex_decoded(env.sig@)
                &&& verification_result(
                    verified,
                    le_words(hex_decoded(env.receipt_hex@)),
                    *expected_context,
                    threshold,
                    pk,
                    sig,
                    true,
                )
                &&& admit_outcome(
                    verified,
                    env.request_id@,
                    env.presenter_pk@,
                    group@,
                    *old(state),
                    response,
                    *final(state),
                )
            },
{
    let receipt_bytes = match crate::hexcodec::decode_hex(env.receipt_hex.as_str()) {
        Some(b) => b,
        None => {
            return deny(&env.request_id, DenyReason::MalformedReceipt);
        },
    };
    let pk = match parse_hex32(&env.presenter_pk) {
        Ok(pk) => pk,
        Err(_) => {
            return deny(&env.request_id, DenyReason::MalformedPresenterKey);
        },
    };
    let sig = match parse_hex64(&env.sig) {
        Ok(sig) => sig,
        Err(_) => {
            return deny(&env.request_id, DenyReason::MalformedSignature);
        },
    };
    let verified = verify_attestation(
        receipt_bytes.as_slice(),
        IMAGE_ID,
        expected_context,
        threshold,
        &pk,
        &sig,
    );
    admit_attestation(&env.request_id, &env.presenter_pk, verified, group, state)
}

/// Replay denial at the gatekeeper: once an attestation's nullifier has been
/// spent, it is among the spent texts, so `admit_attestation` denies every
/// later attestation with the same nullifier as spent.
pub proof fn lemma_gatekeeper_single_use(
    before: GatekeeperState,
    after: GatekeeperState,
    first: BalanceAttestation,
    second: BalanceAttestation,
)
    requires
        spent_texts(after) == spent_texts(before).push(hex_encoded(first.nullifier@)),
        second.nullifier == first.nullifier,
    ensures
        spent_texts(after).contains(hex_encoded(second.nullifier@)),
{
    assert(spent_texts(after)[spent_texts(before).len() as int] == hex_encoded(first.nullifier@));
}

/// Different nullifiers are recorded under different texts, so the spent
/// texts tell nullifiers apart.
pub proof fn lemma_nullifier_texts_distinct(a: [u8; 32], b: [u8; 32])
    requires
        a != b,
    ensures
        hex_encoded(a@) != hex_encoded(b@),
{
    crate::hexcodec::lemma_hex_roundtrip(a@);
    crate::hexcodec::lemma_hex_roundtrip(b@);
    if hex_encoded(a@) == hex_encoded(b@) {
        assert(a =~= b);
    }
}

/// An admission keeps the spent texts distinct and forgets none of them.
pub proof fn lemma_gatekeeper_keeps_spent(before: GatekeeperState, after: GatekeeperState, text: Seq<char>)
    requires
        distinct_texts(spent_texts(before)),
        !spent_texts(before).contains(text),
        spent_texts(after) == spent_texts(before).push(text),
    ensures
        distinct_texts(spent_texts(after)),
        forall|t: Seq<char>| spent_texts(before).contains(t) ==> spent_texts(after).contains(t),
{
    let b = spent_texts(before);
    let a = spent_texts(after);
    assert forall|i: int, j: int| 0 <= i < j < a.len() implies a[i] != a[j] by {
        if j == b.len() {
            assert(a[i] == b[i]);
            assert(b.contains(a[i]));
        } else {
            assert(a[i] == b[i] && a[j] == b[j]);
        }
    }
    assert forall|t: Seq<char>| b.contains(t) implies a.contains(t) by {
        let k = choose|k: int| 0 <= k < b.len() && b[k] == t;
        assert(a[k] == t);
    }
}

/// What the gatekeeper's listening loop does once a decision has been
/// published: the new count of handled attestations, whether the state is
/// saved, and whether the loop ends.
pub struct LoopStep {
    pub handled: u64,
    pub save_state: bool,
    pub stop: bool,
}

/// The listening loop's bookkeeping after one decision: the attestation is
/// counted, the state is saved only when the presenter was admitted, and the
/// loop ends once `max_messages` attestations have been handled (zero means
/// no limit).
pub fn after_decision(handled: u64, max_messages: u64, admitted: bool) -> (step: LoopStep)
    requires
        handled < u64::MAX,
    ensures
        step.handled == handled + 1,
        step.save_state == admitted,
        step.stop == (max_messages > 0 && handled + 1 >= max_messages),
{
    let count = handled + 1;
    LoopStep { handled: count, save_state: admitted, stop: max_messages > 0 && count >= max_messages }
}

/// How a requester reads a decision seen on the response topic while it waits
/// for the one on `request_id`: a decision on another request
/// (`response_request_id`) is passed over (`None`); the awaited one ends the
/// wait with whether it `admitted`.
pub fn awaited_decision(request_id: &String, response_request_id: &String, admitted: bool) -> (r:
    Option<bool>)
    ensures
        r == (if response_request_id@ == request_id@ {
            Some(admitted)
        } else {
            None::<bool>
        }),
{
    if *response_request_id == *request_id {
        Some(admitted)
    } else {
        None
    }
}

} // verus!
