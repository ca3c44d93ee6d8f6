//! The unit of transmission to the remote collector: one counter delta,
//! stamped with the pool's name, this agent's network identifier, and a
//! millisecond epoch timestamp encoded as little-endian bytes.

use vstd::prelude::*;

use crate::stats::StatsResult;

verus! {

/// The little-endian encoding of `x` in `n` bytes: the low byte first,
/// then the rest of the value in the remaining bytes.
pub open spec fn le_bytes_of(x: nat, n: nat) -> Seq<u8>
    decreases n,
{
    if n == 0 {
        Seq::empty()
    } else {
        seq![(x % 256) as u8] + le_bytes_of(x / 256, (n - 1) as nat)
    }
}

/// The little-endian encoding always has exactly `n` bytes.
pub proof fn lemma_le_bytes_len(x: nat, n: nat)
    ensures
        le_bytes_of(x, n).len() == n,
    decreases n,
{
    if n > 0 {
        lemma_le_bytes_len(x / 256, (n - 1) as nat);
    }
}

/// Encodes a millisecond timestamp as its sixteen little-endian bytes.
pub fn u128_le_bytes(x: u128) -> (r: Vec<u8>)
    ensures
        r@ == le_bytes_of(x as nat, 16),
        r@.len() == 16,
{
    let mut out: Vec<u8> = Vec::new();
    let mut v = x;
    let mut i: usize = 0;
    proof {
        lemma_le_bytes_len(x as nat, 16);
    }
    while i < 16
        invariant
            i <= 16,
            out@.len() == i,
            le_bytes_of(x as nat, 16) =~= out@ + le_bytes_of(v as nat, (16 - i) as nat),
        decreases 16 - i,
    {
        out.push((v % 256) as u8);
        proof {
            assert(le_bytes_of(v as nat, (16 - i) as nat) == seq![(v as nat % 256) as u8]
                + le_bytes_of(v as nat / 256, (16 - i - 1) as nat));
            assert(out@.push((v % 256) as u8) + le_bytes_of(v as nat / 256, (16 - i - 1) as nat)
                =~= out@ + le_bytes_of(v as nat, (16 - i) as nat));
        }
        v = v / 256;
        i = i + 1;
    }
    proof {
        assert(le_bytes_of(v as nat, 0) =~= Seq::<u8>::empty());
        assert(out@ =~= out@ + Seq::<u8>::empty());
    }
    out
}

/// One record for the remote collector: the five counters of a delta, the
/// pool's display name, this agent's enode, and the poll instant in
/// milliseconds since the epoch as sixteen little-endian bytes.
pub struct TxCnt {
    pub name: String,
    pub enode: String,
    pub timestamp: Vec<u8>,
    pub all: u64,
    pub pushed: u64,
    pub dup: u64,
    pub under_price: u64,
    pub other: u64,
}

impl TxCnt {
    /// Wraps one delta into a record: the counters are carried over field
    /// by field (the delta's `accept` under the wire name `all`), and the
    /// timestamp is encoded little-endian.
    pub fn new(name: String, self_enode: String, ts: u128, stats: StatsResult) -> (r: Self)
        ensures
            r.name == name,
            r.enode == self_enode,
            r.timestamp@ == le_bytes_of(ts as nat, 16),
            r.timestamp@.len() == 16,
            r.all == stats.accept,
            r.pushed == stats.pushed,
            r.dup == stats.dup,
            r.under_price == stats.under_price,
            r.other == stats.other,
    {
        TxCnt {
            name,
            enode: self_enode,
            timestamp: u128_le_bytes(ts),
            all: stats.accept,
            pushed: stats.pushed,
            dup: stats.dup,
            under_price: stats.under_price,
            other: stats.other,
        }
    }
}

} // verus!
