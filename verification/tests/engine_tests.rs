use taichi_agent::engine::{
    BindReply, IdentityReply, Phase, PollingEngine, RoundPlan, StatsReply, BIND_BACKOFF_SECS,
};
use taichi_agent::stats::StatsResult;

const TARGET: &str = "abcdef0123456789abcdef0123456789abcdef0123456789abcdef0123456789";

fn active_engine() -> PollingEngine {
    let mut e = PollingEngine::new(TARGET.to_string());
    let retry = e.on_bind_reply(&BindReply::Confirmed);
    assert!(retry.is_none());
    assert_eq!(e.phase, Phase::Active);
    e
}

#[test]
fn binding_retries_with_fixed_backoff() {
    let mut e = PollingEngine::new(TARGET.to_string());
    assert_eq!(e.phase, Phase::Binding);
    assert_eq!(e.on_bind_reply(&BindReply::Refused), Some(BIND_BACKOFF_SECS));
    assert_eq!(e.phase, Phase::Binding);
    assert_eq!(
        e.on_bind_reply(&BindReply::TransportError),
        Some(BIND_BACKOFF_SECS)
    );
    assert_eq!(e.phase, Phase::Binding);
    assert_eq!(BIND_BACKOFF_SECS, 5);
    assert_eq!(e.on_bind_reply(&BindReply::Confirmed), None);
    assert_eq!(e.phase, Phase::Active);
}

#[test]
fn binding_twice_converges() {
    // An already-bound node keeps confirming: not an error, still active.
    let mut e = PollingEngine::new(TARGET.to_string());
    assert_eq!(e.on_bind_reply(&BindReply::Confirmed), None);
    assert_eq!(e.phase, Phase::Active);
    assert_eq!(e.on_bind_reply(&BindReply::Confirmed), None);
    assert_eq!(e.phase, Phase::Active);
}

#[test]
fn first_round_only_seeds_baseline() {
    // Scenario: the first poll round yields counters; no event is emitted,
    // the reading only becomes the baseline. The second round emits the
    // delta, and its push ratio is exact.
    let mut e = active_engine();

    let plan = e.plan_round(&IdentityReply::Reported(TARGET.to_string()));
    assert_eq!(plan, RoundPlan::CollectStats);
    let emitted = e.on_stats_reply(&StatsReply::Counters(StatsResult::new([100, 0, 0, 0, 0])));
    assert!(emitted.is_none());
    assert_eq!(e.baseline, Some(StatsResult::new([100, 0, 0, 0, 0])));

    let plan = e.plan_round(&IdentityReply::Reported(TARGET.to_string()));
    assert_eq!(plan, RoundPlan::CollectStats);
    let emitted = e.on_stats_reply(&StatsReply::Counters(StatsResult::new([150, 40, 0, 0, 0])));
    let delta = emitted.expect("second successful round emits the delta");
    assert_eq!(delta, StatsResult::new([50, 40, 0, 0, 0]));
    let (num, den) = delta.push_ratio();
    assert_eq!(num as f64 / den as f64, 0.8);
    assert_eq!(e.baseline, Some(StatsResult::new([150, 40, 0, 0, 0])));
}

#[test]
fn empty_identity_aborts_round() {
    // Scenario: the identity query returns an empty string. The round is
    // aborted for one recovery attempt; no counters are read, so the
    // baseline stays as it was.
    let mut e = active_engine();
    e.on_stats_reply(&StatsReply::Counters(StatsResult::new([7, 1, 0, 0, 0])));
    let before = e.baseline;

    let plan = e.plan_round(&IdentityReply::Reported(String::new()));
    assert_eq!(plan, RoundPlan::Recover);
    // The shell now makes exactly one re-binding attempt and skips the
    // counters; the engine's state is untouched either way.
    assert_eq!(e.baseline, before);
    assert_eq!(e.phase, Phase::Active);
}

#[test]
fn wrong_identity_aborts_round() {
    let e = active_engine();
    let plan = e.plan_round(&IdentityReply::Reported(
        "ffffff0123456789_something_else".to_string(),
    ));
    assert_eq!(plan, RoundPlan::Recover);
}

#[test]
fn identity_transport_error_does_not_abort() {
    let e = active_engine();
    let plan = e.plan_round(&IdentityReply::TransportError);
    assert_eq!(plan, RoundPlan::CollectStats);
}

#[test]
fn stats_transport_error_skips_round() {
    let mut e = active_engine();
    e.on_stats_reply(&StatsReply::Counters(StatsResult::new([9, 2, 1, 0, 0])));
    let before = e.baseline;
    let emitted = e.on_stats_reply(&StatsReply::TransportError);
    assert!(emitted.is_none());
    assert_eq!(e.baseline, before);
}

#[test]
fn counter_reset_floors_at_zero() {
    let mut e = active_engine();
    e.on_stats_reply(&StatsReply::Counters(StatsResult::new([100, 50, 3, 2, 1])));
    let emitted = e.on_stats_reply(&StatsReply::Counters(StatsResult::new([20, 60, 0, 0, 0])));
    let delta = emitted.expect("later rounds always emit");
    assert_eq!(delta, StatsResult::new([0, 10, 0, 0, 0]));
}
