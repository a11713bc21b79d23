//! Selecting the payloads of one content topic from the messages a relay node
//! returns. Payloads travel as standard base64 text.
use base64::Engine;
use vstd::prelude::*;

verus! {

/// The bytes that standard base64 decoding (with padding) gives for `text`,
/// or `None` where the text is not valid base64.
pub uninterp spec fn base64_decoded(text: Seq<char>) -> Option<Seq<u8>>;

/// `base64::engine::general_purpose::STANDARD.decode`: the decoded bytes, or
/// `None` where decoding fails. The result is named.
#[verifier::external_body]
fn base64_decode(text: &str) -> (r: Option<Vec<u8>>)
    ensures
        r is Some <==> base64_decoded(text@) is Some,
        r matches Some(v) ==> v@ == base64_decoded(text@)->0,
{
    match base64::engine::general_purpose::STANDARD.decode(text) {
        Ok(v) => Some(v),
        Err(_) => None,
    }
}

/// One relay message: its content topic and its payload, each present only
/// where the message held a string there.
pub struct RelayMessage {
    pub content_topic: Option<String>,
    pub payload: Option<String>,
}

/// The payload `m` contributes when polling `topic`: its decoded bytes when
/// its content topic is `topic` and its payload decodes, and nothing otherwise.
pub open spec fn selected_payload(m: RelayMessage, topic: Seq<char>) -> Option<Seq<u8>> {
    match (m.content_topic, m.payload) {
        (Some(t), Some(p)) => if t@ == topic {
            base64_decoded(p@)
        } else {
            None
        },
        _ => None,
    }
}

/// The payloads selected from `msgs`, in order.
pub open spec fn selected_payloads(msgs: Seq<RelayMessage>, topic: Seq<char>) -> Seq<Seq<u8>>
    decreases msgs.len(),
{
    if msgs.len() == 0 {
        Seq::empty()
    } else {
        let rest = selected_payloads(msgs.drop_last(), topic);
        match selected_payload(msgs.last(), topic) {
            Some(p) => rest.push(p),
            None => rest,
        }
    }
}

/// The decoded payloads of the messages whose content topic is
/// `content_topic`; messages with another topic, without a payload, or whose
/// payload is not base64 are skipped.
pub fn select_payloads(messages: &Vec<RelayMessage>, content_topic: &str) -> (out: Vec<Vec<u8>>)
    ensures
        out@.map_values(|v: Vec<u8>| v@) == selected_payloads(messages@, content_topic@),
{
    let topic = String::from_str(content_topic);
    let mut out: Vec<Vec<u8>> = Vec::new();
    let mut i: usize = 0;
    while i < messages.len()
        invariant
            i <= messages@.len(),
            topic@ == content_topic@,
            out@.map_values(|v: Vec<u8>| v@) == selected_payloads(
                messages@.subrange(0, i as int),
                content_topic@,
            ),
        decreases messages@.len() - i,
    {
        let m = &messages[i];
        let ghost before = out@;
        assert(messages@.subrange(0, i + 1).drop_last() =~= messages@.subrange(0, i as int));
        assert(messages@.subrange(0, i + 1).last() == messages@[i as int]);
        match (&m.content_topic, &m.payload) {
            (Some(t), Some(p)) => {
                if *t == topic {
                    match base64_decode(p.as_str()) {
                        Some(bytes) => {
                            out.push(bytes);
                            assert(out@.map_values(|v: Vec<u8>| v@) =~= before.map_values(
                                |v: Vec<u8>| v@,
                            ).push(base64_decoded(p@)->0));
                        },
                        None => {},
                    }
                }
            },
            _ => {},
        }
        i = i + 1;
    }
    assert(messages@.subrange(0, i as int) =~= messages@);
    out
}

} // verus!
