//! The in-process hand-off queue between the polling engine and the relay
//! client: ordered, unbounded, first in first out. A stalled consumer lets
//! events accumulate without bound — a documented resource risk, not a
//! crash condition.

use vstd::prelude::*;

use crate::stats::StatsResult;

verus! {

/// An unbounded first-in-first-out queue of counter deltas.
pub struct DeliveryQueue {
    items: Vec<StatsResult>,
}

impl DeliveryQueue {
    /// The queued deltas, oldest first.
    pub closed spec fn view(&self) -> Seq<StatsResult> {
        self.items@
    }

    /// An empty queue.
    pub fn new() -> (q: Self)
        ensures
            q@ =~= Seq::<StatsResult>::empty(),
    {
        DeliveryQueue { items: Vec::new() }
    }

    /// How many deltas are queued.
    pub fn len(&self) -> (n: usize)
        ensures
            n == self@.len(),
    {
        self.items.len()
    }

    /// Appends one delta at the back; nothing already queued moves.
    pub fn push_back(&mut self, delta: StatsResult)
        ensures
            final(self)@ == old(self)@.push(delta),
    {
        self.items.push(delta);
    }

    /// Takes the oldest delta, preserving the order of the rest; `None` on
    /// an empty queue, which stays empty.
    pub fn pop_front(&mut self) -> (r: Option<StatsResult>)
        ensures
            old(self)@.len() == 0 ==> r is None && final(self)@ == old(self)@,
            old(self)@.len() > 0 ==> r == Some(old(self)@[0]) && final(self)@ == old(
                self,
            )@.subrange(1, old(self)@.len() as int),
    {
        if self.items.len() == 0 {
            None
        } else {
            let first = self.items.remove(0);
            Some(first)
        }
    }
}

} // verus!
