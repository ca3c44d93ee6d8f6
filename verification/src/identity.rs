//! Node identities: parsing an enode URL into the node's public-key
//! identifier, deriving the lookup identifier the monitored node should be
//! configured with, and validating the identity the node reports back.

use vstd::prelude::*;

use crate::hexcodec::{all_hex, decoded_bytes, hex_decode, hex_encode, hex_of};

verus! {

/// A node's 64-byte public-key identifier, as carried inside an enode URL.
pub struct NodeId {
    pub bytes: Vec<u8>,
}

impl NodeId {
    /// A well-formed identifier holds exactly 64 bytes.
    pub open spec fn wf(self) -> bool {
        self.bytes@.len() == 64
    }
}

/// Whether the string starts with the scheme word of an enode URL.
pub open spec fn has_enode_prefix(s: Seq<char>) -> bool {
    s.len() >= 5 && s.subrange(0, 5) == "enode"@
}

/// The character range that carries the hexadecimal public-key identifier:
/// after `enode://` for a full URL, at the front for a bare identifier.
pub open spec fn enode_hex_range(s: Seq<char>) -> Seq<char> {
    if has_enode_prefix(s) {
        s.subrange(8, 136)
    } else {
        s.subrange(0, 128)
    }
}

/// Whether the string carries a full 128-digit hexadecimal identifier in
/// its identifier range.
pub open spec fn valid_enode(s: Seq<char>) -> bool {
    if has_enode_prefix(s) {
        s.len() >= 136 && all_hex(s.subrange(8, 136))
    } else {
        s.len() >= 128 && all_hex(s.subrange(0, 128))
    }
}

/// Parses an enode URL (or a bare 128-digit identifier) into the node's
/// 64-byte public-key identifier; `None` on a malformed string, which is a
/// startup-fatal configuration error for the caller.
pub fn parse_enode(enode: &str) -> (r: Option<NodeId>)
    ensures
        r is Some <==> valid_enode(enode@),
        r is Some ==> r.unwrap().wf() && r.unwrap().bytes@ == decoded_bytes(enode_hex_range(enode@)),
{
    proof {
        reveal_strlit("enode");
    }
    let n = enode.unicode_len();
    let prefixed = n >= 5 && enode.get_char(0) == 'e' && enode.get_char(1) == 'n'
        && enode.get_char(2) == 'o' && enode.get_char(3) == 'd' && enode.get_char(4) == 'e';
    proof {
        if n >= 5 {
            assert(has_enode_prefix(enode@) <==> prefixed) by {
                if prefixed {
                    assert(enode@.subrange(0, 5) =~= "enode"@);
                }
                if has_enode_prefix(enode@) {
                    assert(enode@.subrange(0, 5)[0] == 'e');
                    assert(enode@.subrange(0, 5)[1] == 'n');
                    assert(enode@.subrange(0, 5)[2] == 'o');
                    assert(enode@.subrange(0, 5)[3] == 'd');
                    assert(enode@.subrange(0, 5)[4] == 'e');
                }
            }
        }
    }
    let hex_part: &str = if prefixed {
        if n < 136 {
            return None;
        }
        enode.substring_char(8, 136)
    } else {
        if n < 128 {
            return None;
        }
        enode.substring_char(0, 128)
    };
    match hex_decode(hex_part) {
        Some(bytes) => Some(NodeId { bytes }),
        None => None,
    }
}

/// The Keccak-256 digest, named: the 32-byte result is a function of the
/// input bytes alone.
pub uninterp spec fn keccak256_of(data: Seq<u8>) -> Seq<u8>;

/// Relies on `parity_crypto::Keccak256::keccak256`: the Keccak-256 digest
/// of the input bytes, always 32 bytes long and depending on the input
/// bytes alone.
#[verifier::external_body]
fn keccak256(data: &Vec<u8>) -> (r: Vec<u8>)
    ensures
        r@ == keccak256_of(data@),
        r@.len() == 32,
{
    let digest: [u8; 32] = parity_crypto::Keccak256::keccak256(data);
    digest.to_vec()
}

/// The 32-byte lookup identifier of a node: the Keccak-256 digest of its
/// public-key identifier.
pub fn enode_id_to_peer_id(node_id: &NodeId) -> (r: Vec<u8>)
    ensures
        r@ == keccak256_of(node_id.bytes@),
        r@.len() == 32,
{
    keccak256(&node_id.bytes)
}

/// The target identity for an enode URL in one step: parse, digest, render
/// as 64 lowercase hexadecimal digits. `None` on a malformed URL.
pub fn derive_target_identity(enode: &str) -> (r: Option<String>)
    ensures
        r is Some <==> valid_enode(enode@),
        r is Some ==> r.unwrap()@ == hex_of(
            keccak256_of(decoded_bytes(enode_hex_range(enode@))),
        ) && r.unwrap()@.len() == 64,
{
    match parse_enode(enode) {
        Some(node_id) => {
            let peer_id = enode_id_to_peer_id(&node_id);
            Some(hex_encode(&peer_id))
        },
        None => None,
    }
}

/// Whether a reported identity is accepted against the target identity:
/// its first sixteen characters must exist and match the target's first
/// sixteen; anything after them is ignored. An empty or short report is
/// never accepted.
pub open spec fn prefix16_matches(reported: Seq<char>, target: Seq<char>) -> bool {
    reported.len() >= 16 && reported.subrange(0, 16) == target.subrange(0, 16)
}

/// Checks a reported identity against the target: accepted exactly when
/// the first sixteen characters match, whatever follows them.
pub fn identity_accepted(reported: &str, target: &str) -> (r: bool)
    requires
        target@.len() >= 16,
    ensures
        r == prefix16_matches(reported@, target@),
{
    let n = reported.unicode_len();
    if n < 16 {
        return false;
    }
    let mut i: usize = 0;
    while i < 16
        invariant
            i <= 16,
            reported@.len() >= 16,
            target@.len() >= 16,
            forall|j: int| 0 <= j < i ==> reported@[j] == target@[j],
        decreases 16 - i,
    {
        if reported.get_char(i) != target.get_char(i) {
            proof {
                assert(reported@.subrange(0, 16)[i as int] != target@.subrange(0, 16)[i as int]);
            }
            return false;
        }
        i = i + 1;
    }
    proof {
        assert(reported@.subrange(0, 16) =~= target@.subrange(0, 16));
    }
    true
}

} // verus!
