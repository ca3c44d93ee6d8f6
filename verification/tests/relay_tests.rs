use taichi_agent::relay::{
    connect_cycle_plan, react_to_send, Ack, ConnectCycle, SendErrorKind, SendReaction, SendReply,
    CONNECT_PAUSE_SECS, MAX_CONNECT_ATTEMPTS,
};

#[test]
fn budget_is_three_attempts_three_second_pauses() {
    // Against an endpoint that never answers: exactly three attempts, a
    // pause of at least three seconds around each, then silent surrender.
    let outcome = connect_cycle_plan(&vec![false, false, false]);
    assert_eq!(outcome.attempts_used, 3);
    assert!(!outcome.connected);
    assert_eq!(outcome.pauses, 3);
    assert_eq!(outcome.pause_secs, CONNECT_PAUSE_SECS);
    assert!(outcome.pause_secs >= 3);
    assert_eq!(MAX_CONNECT_ATTEMPTS, 3);
}

#[test]
fn cycle_stops_at_first_success() {
    let outcome = connect_cycle_plan(&vec![true, true, true]);
    assert_eq!(outcome.attempts_used, 1);
    assert!(outcome.connected);
    assert_eq!(outcome.pauses, 0);

    let outcome = connect_cycle_plan(&vec![false, true, false]);
    assert_eq!(outcome.attempts_used, 2);
    assert!(outcome.connected);
    assert_eq!(outcome.pauses, 1);

    let outcome = connect_cycle_plan(&vec![false, false, true]);
    assert_eq!(outcome.attempts_used, 3);
    assert!(outcome.connected);
    assert_eq!(outcome.pauses, 2);
}

#[test]
fn cycle_steps_match_budget() {
    let mut cycle = ConnectCycle::new();
    assert!(cycle.should_attempt());
    assert_eq!(cycle.record_failure(), CONNECT_PAUSE_SECS);
    assert!(cycle.should_attempt());
    assert_eq!(cycle.record_failure(), CONNECT_PAUSE_SECS);
    assert!(cycle.should_attempt());
    assert_eq!(cycle.record_failure(), CONNECT_PAUSE_SECS);
    assert!(!cycle.should_attempt());
    assert!(cycle.gave_up());
}

#[test]
fn unavailable_failure_triggers_one_reconnect_cycle() {
    // Scenario: a delivery fails as "temporarily unavailable". One
    // reconnection cycle runs, and the next event is still attempted on
    // the existing or newly connected client; the failed record is gone.
    let reaction = react_to_send(&SendReply::Failed(SendErrorKind::Unavailable));
    assert_eq!(reaction, SendReaction::Reconnect);

    let reconnect = connect_cycle_plan(&vec![true, false, false]);
    assert!(reconnect.connected);

    let next = react_to_send(&SendReply::Acked(Ack {
        code: 0,
        msg: "ok".to_string(),
    }));
    assert_eq!(next, SendReaction::LogAck);
}

#[test]
fn other_failures_do_not_reconnect() {
    let reaction = react_to_send(&SendReply::Failed(SendErrorKind::Other));
    assert_eq!(reaction, SendReaction::DropAndContinue);
}

#[test]
fn ack_is_only_logged() {
    let reaction = react_to_send(&SendReply::Acked(Ack {
        code: 7,
        msg: "accepted".to_string(),
    }));
    assert_eq!(reaction, SendReaction::LogAck);
}
