use taichi_agent::envelope::{
    GetTaichiPeerReq, GetTaichiStatsReq, ReqIdCounter, SetTaichiPeerReq,
};

#[test]
fn set_peer_envelope() {
    let r = SetTaichiPeerReq::new(7, "abcdef".to_string());
    assert_eq!(r.id, 7);
    assert_eq!(r.jsonrpc, "2.0");
    assert_eq!(r.method, "eth_setTaichiPeer");
    assert_eq!(r.params, vec!["abcdef".to_string()]);
}

#[test]
fn get_peer_envelope() {
    let r = GetTaichiPeerReq::new(8);
    assert_eq!(r.id, 8);
    assert_eq!(r.jsonrpc, "2.0");
    assert_eq!(r.method, "eth_getTaichiPeer");
    assert!(r.params.is_empty());
}

#[test]
fn get_stats_envelope() {
    let r = GetTaichiStatsReq::new(9);
    assert_eq!(r.id, 9);
    assert_eq!(r.jsonrpc, "2.0");
    assert_eq!(r.method, "eth_getTaichiStats");
    assert!(r.params.is_empty());
}

#[test]
fn request_ids_count_up() {
    let mut c = ReqIdCounter::new();
    assert_eq!(c.take_id(), 0);
    assert_eq!(c.take_id(), 1);
    assert_eq!(c.take_id(), 2);
    assert_eq!(c.next_id, 3);
}

#[test]
fn request_ids_wrap_around() {
    let mut c = ReqIdCounter { next_id: u64::MAX };
    assert_eq!(c.take_id(), u64::MAX);
    assert_eq!(c.take_id(), 0);
}
