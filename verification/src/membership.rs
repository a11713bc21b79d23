//! Validation of the sequencer's answer to `getProofForCommitment`: the
//! Merkle root, the leaf index and the sibling nodes, each as hexadecimal
//! text, turned into the values the circuit takes.
use crate::hexcodec::{decode_hex, hex_decoded, is_hex, parse_hex_result, HexError};
use vstd::prelude::*;
use vstd::utf8::encode_utf8;

verus! {

/// The fields of the sequencer's `result` object, as far as each was of the
/// expected JSON kind (`None` where it was missing or of another kind).
pub struct MembershipResponse {
    pub merkle_root: Option<String>,
    pub leaf_index: Option<u64>,
    /// Each sibling as text, or `None` where it was not a string.
    pub sibling_nodes: Option<Vec<Option<String>>>,
}

/// Why a membership proof answer was refused.
#[derive(Debug, Clone, Copy, PartialEq, Eq, Structural)]
pub enum MembershipError {
    MissingResult,
    MissingMerkleRoot,
    MissingLeafIndex,
    MissingSiblingNodes,
    /// `sibling_nodes[index]` is not a string.
    SiblingNotString { index: usize },
    /// `sibling_nodes[index]` is `len` bytes of text, not 64.
    SiblingWrongLength { index: usize, len: usize },
    /// `sibling_nodes[index]` is not hexadecimal.
    SiblingInvalidHex { index: usize },
    /// `sibling_nodes[index]` does not decode to 32 bytes.
    SiblingWrongDecodedLength { index: usize },
    MerkleRootInvalidHex,
    MerkleRootNot32Bytes,
    LeafIndexOverflow,
}

/// How one sibling's text is judged: its byte length must be 64, it must be
/// hexadecimal, and it must decode to 32 bytes.
pub open spec fn sibling_error(index: usize, text: Option<String>) -> Option<MembershipError> {
    match text {
        None => Some(MembershipError::SiblingNotString { index }),
        Some(s) => if encode_utf8(s@).len() as usize != 64 {
            Some(MembershipError::SiblingWrongLength { index, len: encode_utf8(s@).len() as usize })
        } else if !is_hex(s@) {
            Some(MembershipError::SiblingInvalidHex { index })
        } else if hex_decoded(s@).len() != 32 {
            Some(MembershipError::SiblingWrongDecodedLength { index })
        } else {
            None
        },
    }
}

/// Decodes one sibling node.
fn parse_sibling(index: usize, text: &Option<String>) -> (r: Result<[u8; 32], MembershipError>)
    ensures
        match sibling_error(index, *text) {
            Some(e) => r == Err::<[u8; 32], MembershipError>(e),
            None => r matches Ok(node) && node@ == hex_decoded(text->0@),
        },
{
    let s = match text {
        Some(s) => s,
        None => {
            return Err(MembershipError::SiblingNotString { index });
        },
    };
    let len = s.as_str().len();
    if len != 64 {
        return Err(MembershipError::SiblingWrongLength { index, len });
    }
    let bytes = match decode_hex(s.as_str()) {
        Some(b) => b,
        None => {
            return Err(MembershipError::SiblingInvalidHex { index });
        },
    };
    if bytes.len() != 32 {
        return Err(MembershipError::SiblingWrongDecodedLength { index });
    }
    let mut node = [0u8; 32];
    let mut i: usize = 0;
    while i < 32
        invariant
            i <= 32,
            bytes@.len() == 32,
            forall|k: int| 0 <= k < i ==> node[k] == bytes@[k],
        decreases 32 - i,
    {
        node[i] = bytes[i];
        i = i + 1;
    }
    assert(node@ =~= bytes@);
    Ok(node)
}

/// The first sibling (by position) that is refused, with its error.
pub open spec fn first_sibling_error(texts: Seq<Option<String>>, k: int) -> Option<MembershipError>
    decreases texts.len() - k,
    when 0 <= k
{
    if k >= texts.len() {
        None
    } else if sibling_error(k as usize, texts[k]) is Some {
        sibling_error(k as usize, texts[k])
    } else {
        first_sibling_error(texts, k + 1)
    }
}

/// Checks the answer's fields in the order the prover reads them and returns
/// `(merkle_root, leaf_index, sibling_nodes)`.
pub fn parse_membership_proof(response: Option<MembershipResponse>) -> (r: Result<
    ([u8; 32], usize, Vec<[u8; 32]>),
    MembershipError,
>)
    ensures
        response is None ==> r == Err::<([u8; 32], usize, Vec<[u8; 32]>), MembershipError>(
            MembershipError::MissingResult,
        ),
        response matches Some(resp) ==> {
            if resp.merkle_root is None {
                r == Err::<([u8; 32], usize, Vec<[u8; 32]>), MembershipError>(
                    MembershipError::MissingMerkleRoot,
                )
            } else if resp.leaf_index is None {
                r == Err::<([u8; 32], usize, Vec<[u8; 32]>), MembershipError>(
                    MembershipError::MissingLeafIndex,
                )
            } else if resp.sibling_nodes is None {
                r == Err::<([u8; 32], usize, Vec<[u8; 32]>), MembershipError>(
                    MembershipError::MissingSiblingNodes,
                )
            } else if first_sibling_error(resp.sibling_nodes->0@, 0) is Some {
                r == Err::<([u8; 32], usize, Vec<[u8; 32]>), MembershipError>(
                    first_sibling_error(resp.sibling_nodes->0@, 0)->0,
                )
            } else if parse_hex_result(resp.merkle_root->0@, 32) == Err::<Seq<u8>, HexError>(
                HexError::InvalidHex,
            ) {
                r == Err::<([u8; 32], usize, Vec<[u8; 32]>), MembershipError>(
                    MembershipError::MerkleRootInvalidHex,
                )
            } else if parse_hex_result(resp.merkle_root->0@, 32) is Err {
                r == Err::<([u8; 32], usize, Vec<[u8; 32]>), MembershipError>(
                    MembershipError::MerkleRootNot32Bytes,
                )
            } else if resp.leaf_index->0 > usize::MAX {
                r == Err::<([u8; 32], usize, Vec<[u8; 32]>), MembershipError>(
                    MembershipError::LeafIndexOverflow,
                )
            } else {
                r matches Ok((root, index, nodes)) && root@ == hex_decoded(resp.merkle_root->0@)
                    && index == resp.leaf_index->0 && nodes@.len() == resp.sibling_nodes->0@.len()
                    && forall|k: int|
                    0 <= k < nodes@.len() ==> #[trigger] nodes@[k]@ == hex_decoded(
                        resp.sibling_nodes->0@[k]->0@,
                    )
            }
        },
{
    let resp = match response {
        Some(resp) => resp,
        None => {
            return Err(MembershipError::MissingResult);
        },
    };
    let root_text = match &resp.merkle_root {
        Some(t) => t,
        None => {
            return Err(MembershipError::MissingMerkleRoot);
        },
    };
    let leaf_index = match resp.leaf_index {
        Some(i) => i,
        None => {
            return Err(MembershipError::MissingLeafIndex);
        },
    };
    let texts = match &resp.sibling_nodes {
        Some(t) => t,
        None => {
            return Err(MembershipError::MissingSiblingNodes);
        },
    };
    let mut nodes: Vec<[u8; 32]> = Vec::new();
    let mut i: usize = 0;
    #[verifier::loop_isolation(false)]
    while i < texts.len()
        invariant
            i <= texts@.len(),
            nodes@.len() == i,
            first_sibling_error(texts@, 0) == first_sibling_error(texts@, i as int),
            forall|k: int| 0 <= k < i ==> sibling_error(k as usize, #[trigger] texts@[k]) is None,
            forall|k: int| 0 <= k < i ==> #[trigger] nodes@[k]@ == hex_decoded(texts@[k]->0@),
        decreases texts@.len() - i,
    {
        let node = match parse_sibling(i, &texts[i]) {
            Ok(n) => n,
            Err(e) => {
                return Err(e);
            },
        };
        nodes.push(node);
        i = i + 1;
    }
    let root = match crate::hexcodec::parse_hex32(root_text.as_str()) {
        Ok(root) => root,
        Err(HexError::InvalidHex) => {
            return Err(MembershipError::MerkleRootInvalidHex);
        },
        Err(_) => {
            return Err(MembershipError::MerkleRootNot32Bytes);
        },
    };
    if leaf_index > usize::MAX as u64 {
        return Err(MembershipError::LeafIndexOverflow);
    }
    Ok((root, leaf_index as usize, nodes))
}

} // verus!
