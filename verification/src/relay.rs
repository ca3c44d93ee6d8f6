//! The relay client's decision logic: the bounded connection cycle and the
//! reaction to each delivery outcome.
//!
//! The asynchronous shell performs the actual connection attempts and
//! sends; this module decides, from each outcome, whether to pause and try
//! again, give up, or reconnect — and a pure plan of a whole cycle lets
//! the budget be stated once and for all.

use vstd::prelude::*;

verus! {

/// How many connection attempts one cycle makes before giving up.
pub const MAX_CONNECT_ATTEMPTS: u64 = 3;

/// Seconds to pause after each failed connection attempt.
pub const CONNECT_PAUSE_SECS: u64 = 3;

/// One bounded cycle of connection attempts: at most
/// `MAX_CONNECT_ATTEMPTS`, a `CONNECT_PAUSE_SECS` pause after each
/// failure, and silent surrender when the budget is spent.
pub struct ConnectCycle {
    pub attempts_made: u64,
}

impl ConnectCycle {
    pub open spec fn wf(self) -> bool {
        self.attempts_made <= MAX_CONNECT_ATTEMPTS
    }

    /// A fresh cycle with the whole budget.
    pub fn new() -> (c: Self)
        ensures
            c.wf(),
            c.attempts_made == 0,
    {
        ConnectCycle { attempts_made: 0 }
    }

    /// Whether the budget allows another attempt.
    pub fn should_attempt(&self) -> (b: bool)
        ensures
            b == (self.attempts_made < MAX_CONNECT_ATTEMPTS),
    {
        self.attempts_made < MAX_CONNECT_ATTEMPTS
    }

    /// Records one failed attempt and returns how long to pause before the
    /// next one: always the fixed three seconds.
    pub fn record_failure(&mut self) -> (pause_secs: u64)
        requires
            old(self).wf(),
            old(self).attempts_made < MAX_CONNECT_ATTEMPTS,
        ensures
            final(self).wf(),
            final(self).attempts_made == old(self).attempts_made + 1,
            pause_secs == CONNECT_PAUSE_SECS,
            pause_secs >= 3,
    {
        self.attempts_made = self.attempts_made + 1;
        CONNECT_PAUSE_SECS
    }

    /// Whether the cycle has spent its whole budget without connecting.
    pub fn gave_up(&self) -> (b: bool)
        ensures
            b == (self.attempts_made == MAX_CONNECT_ATTEMPTS),
    {
        self.attempts_made == MAX_CONNECT_ATTEMPTS
    }
}

/// The outcome of one whole connection cycle: how many attempts it made,
/// whether one of them connected, how many pauses it slept, and how long
/// each pause was.
#[derive(PartialEq, Eq, Structural, Debug)]
pub struct CycleOutcome {
    pub attempts_used: u64,
    pub connected: bool,
    pub pauses: u64,
    pub pause_secs: u64,
}

/// The outcome of a cycle whose attempt number `i` succeeds exactly when
/// `outcomes[i]` holds: the cycle stops at the first success, pauses after
/// every failure, and gives up after the third failure.
pub open spec fn cycle_outcome_of(outcomes: Seq<bool>) -> CycleOutcome
    recommends
        outcomes.len() >= MAX_CONNECT_ATTEMPTS,
{
    if outcomes[0] {
        CycleOutcome { attempts_used: 1, connected: true, pauses: 0, pause_secs: CONNECT_PAUSE_SECS }
    } else if outcomes[1] {
        CycleOutcome { attempts_used: 2, connected: true, pauses: 1, pause_secs: CONNECT_PAUSE_SECS }
    } else if outcomes[2] {
        CycleOutcome { attempts_used: 3, connected: true, pauses: 2, pause_secs: CONNECT_PAUSE_SECS }
    } else {
        CycleOutcome {
            attempts_used: 3,
            connected: false,
            pauses: 3,
            pause_secs: CONNECT_PAUSE_SECS,
        }
    }
}

/// Plays one whole connection cycle against a given sequence of attempt
/// results (`outcomes[i]` says whether attempt `i` would connect), driving
/// the same bounded cycle the shell drives against the real endpoint.
pub fn connect_cycle_plan(outcomes: &Vec<bool>) -> (r: CycleOutcome)
    requires
        outcomes@.len() >= MAX_CONNECT_ATTEMPTS,
    ensures
        r == cycle_outcome_of(outcomes@),
        r.attempts_used <= MAX_CONNECT_ATTEMPTS,
        r.connected <==> exists|i: int| 0 <= i < MAX_CONNECT_ATTEMPTS && outcomes@[i],
        r.pause_secs == CONNECT_PAUSE_SECS,
{
    let mut cycle = ConnectCycle::new();
    let mut connected = false;
    let mut pauses: u64 = 0;
    while !connected && cycle.should_attempt()
        invariant
            outcomes@.len() >= MAX_CONNECT_ATTEMPTS,
            cycle.wf(),
            connected ==> cycle.attempts_made >= 1 && outcomes@[cycle.attempts_made - 1],
            forall|j: int|
                0 <= j < (if connected {
                    cycle.attempts_made - 1
                } else {
                    cycle.attempts_made as int
                }) ==> !outcomes@[j],
            pauses == if connected {
                cycle.attempts_made - 1
            } else {
                cycle.attempts_made as int
            },
        decreases MAX_CONNECT_ATTEMPTS - cycle.attempts_made,
    {
        let i = cycle.attempts_made;
        if outcomes[i as usize] {
            connected = true;
            cycle.attempts_made = i + 1;
        } else {
            let pause = cycle.record_failure();
            pauses = pauses + pause / CONNECT_PAUSE_SECS;
        }
    }
    CycleOutcome { attempts_used: cycle.attempts_made, connected, pauses, pause_secs: CONNECT_PAUSE_SECS }
}

/// Law: the reconnection budget. Against an endpoint that never answers,
/// a cycle makes exactly three attempts, sleeps a pause of at least three
/// seconds around each of them, and then gives up without connecting.
pub proof fn lemma_reconnect_budget(outcomes: Seq<bool>)
    requires
        outcomes.len() >= MAX_CONNECT_ATTEMPTS,
        forall|i: int| 0 <= i < MAX_CONNECT_ATTEMPTS ==> !outcomes[i],
    ensures
        cycle_outcome_of(outcomes).attempts_used == MAX_CONNECT_ATTEMPTS,
        !cycle_outcome_of(outcomes).connected,
        cycle_outcome_of(outcomes).pauses == MAX_CONNECT_ATTEMPTS,
        cycle_outcome_of(outcomes).pause_secs >= 3,
{
    assert(!outcomes[0]);
    assert(!outcomes[1]);
    assert(!outcomes[2]);
}

/// The remote collector's acknowledgment of one delivered record.
pub struct Ack {
    pub code: i64,
    pub msg: String,
}

/// Why a delivery failed: the collector was temporarily unavailable, or
/// anything else.
#[derive(Clone, Copy, PartialEq, Eq, Structural, Debug)]
pub enum SendErrorKind {
    Unavailable,
    Other,
}

/// The outcome of delivering one record to the remote collector.
pub enum SendReply {
    Acked(Ack),
    Failed(SendErrorKind),
}

/// What the relay client does after one delivery. Whatever happens, the
/// record itself is never retried: delivery is at-most-once, best-effort.
#[derive(PartialEq, Eq, Structural, Debug)]
pub enum SendReaction {
    /// Log the acknowledgment and take the next event.
    LogAck,
    /// Run one reconnection cycle, then take the next event whether or not
    /// it connected.
    Reconnect,
    /// Log the failure and take the next event on the same connection.
    DropAndContinue,
}

/// The reaction to a delivery outcome: reconnect exactly on "temporarily
/// unavailable", continue on any other failure, acknowledge on success.
pub open spec fn reaction_of(r: SendReply) -> SendReaction {
    match r {
        SendReply::Acked(_) => SendReaction::LogAck,
        SendReply::Failed(SendErrorKind::Unavailable) => SendReaction::Reconnect,
        SendReply::Failed(SendErrorKind::Other) => SendReaction::DropAndContinue,
    }
}

/// Decides what to do after one delivery: a reconnection cycle runs
/// exactly when the failure was "temporarily unavailable"; every other
/// failure is dropped, and a success only acknowledged.
pub fn react_to_send(r: &SendReply) -> (a: SendReaction)
    ensures
        a == reaction_of(*r),
        a is Reconnect <==> (*r matches SendReply::Failed(k) && k is Unavailable),
        a is LogAck <==> r is Acked,
{
    match r {
        SendReply::Acked(_) => SendReaction::LogAck,
        SendReply::Failed(SendErrorKind::Unavailable) => SendReaction::Reconnect,
        SendReply::Failed(SendErrorKind::Other) => SendReaction::DropAndContinue,
    }
}

} // verus!
