//! The request envelopes of the node's textual RPC interface, and the
//! counter that correlates outbound requests.
//!
//! Each envelope carries a numeric request id, the protocol version tag,
//! the method name, and the string parameters; the shell serializes it on
//! the wire unchanged.

use vstd::prelude::*;

verus! {

/// The request-id counter for outbound RPC correlation: each request takes
/// the next id; wraparound is acceptable and not an error.
pub struct ReqIdCounter {
    pub next_id: u64,
}

impl ReqIdCounter {
    /// A fresh counter, starting at zero.
    pub fn new() -> (c: Self)
        ensures
            c.next_id == 0,
    {
        ReqIdCounter { next_id: 0 }
    }

    /// Takes the next request id, wrapping around at the top of `u64`.
    pub fn take_id(&mut self) -> (id: u64)
        ensures
            id == old(self).next_id,
            old(self).next_id < u64::MAX ==> final(self).next_id == old(self).next_id + 1,
            old(self).next_id == u64::MAX ==> final(self).next_id == 0,
    {
        let id = self.next_id;
        self.next_id = if self.next_id == u64::MAX {
            0
        } else {
            self.next_id + 1
        };
        id
    }
}

/// The envelope of a "set target identity" request: it asks the node to
/// track the given lookup identifier.
pub struct SetTaichiPeerReq {
    pub id: u64,
    pub jsonrpc: String,
    pub method: String,
    pub params: Vec<String>,
}

impl SetTaichiPeerReq {
    /// The envelope for one binding request: the wire method name, the
    /// protocol version tag, and the identifier as its only parameter.
    pub fn new(id: u64, peer_id: String) -> (r: Self)
        ensures
            r.id == id,
            r.jsonrpc@ == "2.0"@,
            r.method@ == "eth_setTaichiPeer"@,
            r.params@.len() == 1,
            r.params@[0] == peer_id,
    {
        let mut params: Vec<String> = Vec::new();
        params.push(peer_id);
        SetTaichiPeerReq {
            id,
            jsonrpc: String::from_str("2.0"),
            method: String::from_str("eth_setTaichiPeer"),
            params,
        }
    }
}

/// The envelope of a "get current identity" request.
pub struct GetTaichiPeerReq {
    pub id: u64,
    pub jsonrpc: String,
    pub method: String,
    pub params: Vec<String>,
}

impl GetTaichiPeerReq {
    /// The envelope for one identity query: no parameters.
    pub fn new(id: u64) -> (r: Self)
        ensures
            r.id == id,
            r.jsonrpc@ == "2.0"@,
            r.method@ == "eth_getTaichiPeer"@,
            r.params@.len() == 0,
    {
        GetTaichiPeerReq {
            id,
            jsonrpc: String::from_str("2.0"),
            method: String::from_str("eth_getTaichiPeer"),
            params: Vec::new(),
        }
    }
}

/// The envelope of a "get raw counters" request.
pub struct GetTaichiStatsReq {
    pub id: u64,
    pub jsonrpc: String,
    pub method: String,
    pub params: Vec<String>,
}

impl GetTaichiStatsReq {
    /// The envelope for one counters query: no parameters.
    pub fn new(id: u64) -> (r: Self)
        ensures
            r.id == id,
            r.jsonrpc@ == "2.0"@,
            r.method@ == "eth_getTaichiStats"@,
            r.params@.len() == 0,
    {
        GetTaichiStatsReq {
            id,
            jsonrpc: String::from_str("2.0"),
            method: String::from_str("eth_getTaichiStats"),
            params: Vec::new(),
        }
    }
}

} // verus!
