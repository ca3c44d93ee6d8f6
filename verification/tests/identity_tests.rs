use parity_crypto::Keccak256;
use taichi_agent::hexcodec::hex_encode;
use taichi_agent::identity::{
    derive_target_identity, enode_id_to_peer_id, identity_accepted, parse_enode,
};

const HEX_ID: &str = "24a2bdca9fae77873ecedfbb3d418a524601790de393f8fa62620fd2092429b5c40fbc30d4e89049964dcf9167913a1b2198592044ee72c8eeec4c7c3fd29336";

fn full_enode() -> String {
    format!("enode://{}@47.114.137.69:32303", HEX_ID)
}

#[test]
fn parse_full_enode_url() {
    let node_id = parse_enode(&full_enode()).expect("well-formed enode");
    assert_eq!(node_id.bytes.len(), 64);
    assert_eq!(node_id.bytes[0], 0x24);
    assert_eq!(node_id.bytes[1], 0xa2);
    assert_eq!(node_id.bytes[63], 0x36);
}

#[test]
fn parse_bare_identifier() {
    let from_url = parse_enode(&full_enode()).expect("well-formed enode");
    let bare = parse_enode(HEX_ID).expect("well-formed bare identifier");
    assert_eq!(from_url.bytes, bare.bytes);
}

#[test]
fn parse_rejects_short_or_malformed() {
    assert!(parse_enode("").is_none());
    assert!(parse_enode("enode://abcd").is_none());
    assert!(parse_enode(&HEX_ID[0..127]).is_none());
    // Right length, but one character is not a hexadecimal digit.
    let mut bad = String::from(HEX_ID);
    bad.replace_range(10..11, "x");
    assert!(parse_enode(&bad).is_none());
}

#[test]
fn peer_id_is_keccak_of_node_id() {
    let node_id = parse_enode(&full_enode()).expect("well-formed enode");
    let peer_id = enode_id_to_peer_id(&node_id);
    assert_eq!(peer_id.len(), 32);
    // The digest must be exactly what the crypto crate computes of these
    // bytes, not the input handed back.
    let expected: [u8; 32] = node_id.bytes.keccak256();
    assert_eq!(peer_id, expected.to_vec());
    assert_ne!(peer_id, node_id.bytes[0..32].to_vec());
}

#[test]
fn target_identity_is_hex_of_peer_id() {
    let target = derive_target_identity(&full_enode()).expect("well-formed enode");
    assert_eq!(target.len(), 64);
    let node_id = parse_enode(&full_enode()).unwrap();
    let expected = hex_encode(&enode_id_to_peer_id(&node_id));
    assert_eq!(target, expected);
    assert!(derive_target_identity("enode://oops").is_none());
}

#[test]
fn accepts_matching_prefix_whatever_follows() {
    let target = "abcdef0123456789abcdef0123456789abcdef0123456789abcdef0123456789";
    assert!(identity_accepted("abcdef0123456789", target));
    assert!(identity_accepted(
        "abcdef0123456789_totally_different_tail",
        target
    ));
    assert!(identity_accepted(target, target));
}

#[test]
fn rejects_differing_prefix() {
    let target = "abcdef0123456789abcdef0123456789abcdef0123456789abcdef0123456789";
    // Sixteenth character differs.
    assert!(!identity_accepted("abcdef012345678Xrest", target));
    // First character differs.
    assert!(!identity_accepted("Xbcdef0123456789", target));
}

#[test]
fn rejects_empty_or_short_report() {
    let target = "abcdef0123456789abcdef0123456789abcdef0123456789abcdef0123456789";
    assert!(!identity_accepted("", target));
    assert!(!identity_accepted("abcdef012345678", target));
}
