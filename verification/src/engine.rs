//! The polling engine: a state machine over the monitored node's replies.
//!
//! The engine owns the session with one target node. It first binds the
//! node to the target identity (retrying with a fixed backoff until the
//! node confirms), then, once per timer tick, validates the reported
//! identity and turns a raw counter reading into a saturating delta
//! against its baseline. The asynchronous shell performs the actual
//! requests and feeds each reply into the matching step method.

use vstd::prelude::*;

use crate::identity::prefix16_matches;
use crate::stats::{delta_of, StatsResult};

verus! {

/// Seconds to wait between identity-binding attempts.
pub const BIND_BACKOFF_SECS: u64 = 5;

/// The reply to a "set target identity" request.
pub enum BindReply {
    /// The node confirmed the binding.
    Confirmed,
    /// The node answered, but refused the binding.
    Refused,
    /// The request did not complete (endpoint unreachable or timed out).
    TransportError,
}

/// The reply to a "get current identity" request.
pub enum IdentityReply {
    /// The node reported the identity it currently tracks.
    Reported(String),
    /// The request did not complete.
    TransportError,
}

/// The reply to a "get raw counters" request.
pub enum StatsReply {
    /// The node reported its five cumulative counters.
    Counters(StatsResult),
    /// The request did not complete.
    TransportError,
}

/// What to do with the rest of a poll round after the identity check.
#[derive(PartialEq, Eq, Structural, Debug)]
pub enum RoundPlan {
    /// The reported identity is in order (or could not be read): go on and
    /// collect the counters.
    CollectStats,
    /// The reported identity is empty or wrong: re-bind once, and abort
    /// the round without touching the counters.
    Recover,
}

/// The engine's phase: still binding the identity, or polling.
#[derive(Clone, Copy, PartialEq, Eq, Structural, Debug)]
pub enum Phase {
    Binding,
    Active,
}

/// The polling engine's state: the target identity the node should track,
/// the phase, and the counter baseline of the previous successful reading.
pub struct PollingEngine {
    pub target: String,
    pub phase: Phase,
    pub baseline: Option<StatsResult>,
}

/// The binding-phase transition: a confirmed binding activates the engine,
/// anything else leaves it unchanged. Confirming an already-active engine
/// changes nothing, so repeated binding converges.
pub open spec fn bind_step(e: PollingEngine, confirmed: bool) -> PollingEngine {
    if confirmed {
        PollingEngine { phase: Phase::Active, ..e }
    } else {
        e
    }
}

/// The plan for a poll round, from the identity reply: a transport error
/// never aborts the round; a reported identity aborts it exactly when its
/// sixteen-character prefix does not match the target's.
pub open spec fn round_plan_of(target: Seq<char>, r: IdentityReply) -> RoundPlan {
    match r {
        IdentityReply::Reported(s) => if prefix16_matches(s@, target) {
            RoundPlan::CollectStats
        } else {
            RoundPlan::Recover
        },
        IdentityReply::TransportError => RoundPlan::CollectStats,
    }
}

/// The counter transition: a transport error changes nothing; the first
/// successful reading only seeds the baseline; every later reading moves
/// the baseline and emits the saturating delta against the old one.
pub open spec fn stats_step(e: PollingEngine, r: StatsReply) -> (PollingEngine, Option<
    StatsResult,
>) {
    match r {
        StatsReply::TransportError => (e, None),
        StatsReply::Counters(cur) => match e.baseline {
            None => (PollingEngine { baseline: Some(cur), ..e }, None),
            Some(prev) => (PollingEngine { baseline: Some(cur), ..e }, Some(delta_of(cur, prev))),
        },
    }
}

impl PollingEngine {
    /// Well-formed: the target identity is long enough to carry the
    /// sixteen-character prefix the identity check compares, and no
    /// baseline exists before the binding phase is over.
    pub open spec fn wf(self) -> bool {
        &&& self.target@.len() >= 16
        &&& self.phase is Binding ==> self.baseline is None
    }

    /// A fresh engine for one target identity: in the binding phase, with
    /// no baseline.
    pub fn new(target: String) -> (e: Self)
        requires
            target@.len() >= 16,
        ensures
            e.wf(),
            e.target == target,
            e.phase is Binding,
            e.baseline is None,
    {
        PollingEngine { target, phase: Phase::Binding, baseline: None }
    }

    /// Digests the reply to a binding attempt. A confirmed binding
    /// activates the engine and ends the binding phase; a refusal or a
    /// transport error leaves it binding and asks the caller to wait the
    /// fixed backoff before the next attempt.
    pub fn on_bind_reply(&mut self, r: &BindReply) -> (retry_after: Option<u64>)
        requires
            old(self).wf(),
        ensures
            final(self).wf(),
            *final(self) == bind_step(*old(self), r is Confirmed),
            r is Confirmed ==> final(self).phase is Active && retry_after is None,
            !(r is Confirmed) ==> *final(self) == *old(self) && retry_after == Some(
                BIND_BACKOFF_SECS,
            ),
    {
        match r {
            BindReply::Confirmed => {
                self.phase = Phase::Active;
                None
            },
            BindReply::Refused => Some(BIND_BACKOFF_SECS),
            BindReply::TransportError => Some(BIND_BACKOFF_SECS),
        }
    }

    /// Plans a poll round from the identity reply: abort and re-bind once
    /// exactly when the node reported an identity whose first sixteen
    /// characters differ from the target's (an empty or short report
    /// always differs); proceed to the counters otherwise, a transport
    /// error included.
    pub fn plan_round(&self, r: &IdentityReply) -> (p: RoundPlan)
        requires
            self.wf(),
            self.phase is Active,
        ensures
            p == round_plan_of(self.target@, *r),
            match *r {
                IdentityReply::Reported(s) => (p is Recover <==> !prefix16_matches(
                    s@,
                    self.target@,
                )),
                IdentityReply::TransportError => p is CollectStats,
            },
    {
        match r {
            IdentityReply::Reported(s) => {
                if crate::identity::identity_accepted(s.as_str(), self.target.as_str()) {
                    RoundPlan::CollectStats
                } else {
                    RoundPlan::Recover
                }
            },
            IdentityReply::TransportError => RoundPlan::CollectStats,
        }
    }

    /// Digests the reply to a counters request. A transport error skips
    /// the round with the baseline unchanged; the first successful reading
    /// becomes the baseline and emits nothing; every later one replaces
    /// the baseline and emits the saturating delta against the previous
    /// reading, to be handed to the delivery queue.
    pub fn on_stats_reply(&mut self, r: &StatsReply) -> (emit: Option<StatsResult>)
        requires
            old(self).wf(),
            old(self).phase is Active,
        ensures
            final(self).wf(),
            final(self).phase is Active,
            final(self).target == old(self).target,
            (*final(self), emit) == stats_step(*old(self), *r),
            r is TransportError ==> *final(self) == *old(self) && emit is None,
            match *r {
                StatsReply::Counters(cur) => {
                    &&& final(self).baseline == Some(cur)
                    &&& match old(self).baseline {
                        None => emit is None,
                        Some(prev) => emit == Some(delta_of(cur, prev)),
                    }
                },
                StatsReply::TransportError => true,
            },
    {
        match r {
            StatsReply::TransportError => None,
            StatsReply::Counters(cur) => {
                let emit = match self.baseline {
                    None => None,
                    Some(prev) => Some(cur.sub(&prev)),
                };
                self.baseline = Some(*cur);
                emit
            },
        }
    }
}

/// Law: identity binding is idempotent. Binding an engine whose node
/// confirms, and then binding it again with another confirmation, is the
/// same as binding it once: a node that is already bound and keeps
/// confirming is not an error, and the engine stays active.
pub proof fn lemma_bind_idempotent(e: PollingEngine)
    requires
        e.wf(),
    ensures
        bind_step(bind_step(e, true), true) == bind_step(e, true),
        bind_step(e, true).phase is Active,
        bind_step(e, true).wf(),
{
}

} // verus!
