use vote_hub::config::Config;
use vote_hub::hub::{recv, RecvOutcome};
use vote_hub::session::{
    activate, close_session, handle_inbound, handle_transport, open_session, CloseReason,
    InboundOutcome, RateLimiter, Session, SessionPhase, TransportEvent,
};
use vote_hub::state::AppState;

fn test_state(limit: &str) -> AppState {
    let config = Config::load(
        None,
        None,
        None,
        Some(limit.to_string()),
        None,
        None,
        None,
    )
    .unwrap();
    AppState::new(config, 16)
}

fn active_session(st: &mut AppState, identity: u64, now_ms: u64) -> (Session, String) {
    let mut sess = open_session(st, identity, now_ms).expect("admission");
    let direct = activate(&mut sess, st);
    (sess, direct)
}

fn next_message(st: &AppState, sess: &mut Session) -> String {
    match recv(&st.hub, &mut sess.receiver) {
        RecvOutcome::Message(m) => m,
        other => panic!("expected a message, got {:?}", other),
    }
}

#[test]
fn valid_vote_counts_and_is_broadcast_to_all() {
    let mut st = test_state("5");
    st.counters.red = 3;
    st.counters.total = 10;
    let (mut alice, _) = active_session(&mut st, 1, 0);
    let (mut bob, _) = active_session(&mut st, 2, 0);
    // drain the two join events
    next_message(&st, &mut alice);
    next_message(&st, &mut alice);
    next_message(&st, &mut bob);
    let r = handle_inbound(&mut alice, &mut st, "red", 200);
    assert_eq!(r, InboundOutcome::Voted);
    assert_eq!(st.counters.red, 4);
    assert_eq!(st.counters.total, 11);
    assert_eq!(st.counters.green, 0);
    // both sessions, the sender included, receive the update event
    assert_eq!(next_message(&st, &mut alice), "{\"red\":4,\"total\":11}");
    assert_eq!(next_message(&st, &mut bob), "{\"red\":4,\"total\":11}");
    assert!(matches!(recv(&st.hub, &mut alice.receiver), RecvOutcome::Empty));
}

#[test]
fn unrecognized_token_closes_only_the_sender_and_mutates_nothing() {
    let mut st = test_state("5");
    let (mut alice, _) = active_session(&mut st, 1, 0);
    let published_before = st.hub.published;
    let r = handle_inbound(&mut alice, &mut st, "yellow", 200);
    assert_eq!(r, InboundOutcome::Terminate(CloseReason::InvalidColor));
    assert_eq!(st.counters.red, 0);
    assert_eq!(st.counters.green, 0);
    assert_eq!(st.counters.blue, 0);
    assert_eq!(st.counters.purple, 0);
    assert_eq!(st.counters.total, 0);
    assert_eq!(st.hub.published, published_before);
    let frame = close_session(&mut alice, &mut st).expect("close frame");
    assert_eq!(frame, "Invalid Color");
    assert_eq!(alice.phase, SessionPhase::Closed);
}

#[test]
fn second_message_inside_interval_is_dropped_silently() {
    let mut st = test_state("5");
    let (mut alice, _) = active_session(&mut st, 1, 0);
    // the default minimum interval is 100 ms
    let r = handle_inbound(&mut alice, &mut st, "blue", 150);
    assert_eq!(r, InboundOutcome::Voted);
    assert_eq!(st.counters.blue, 1);
    let r = handle_inbound(&mut alice, &mut st, "blue", 200);
    assert_eq!(r, InboundOutcome::Dropped);
    assert_eq!(st.counters.blue, 1);
    assert_eq!(st.counters.total, 1);
    assert_eq!(alice.phase, SessionPhase::Active);
    // once the interval has passed, votes count again
    let r = handle_inbound(&mut alice, &mut st, "blue", 250);
    assert_eq!(r, InboundOutcome::Voted);
    assert_eq!(st.counters.blue, 2);
}

#[test]
fn first_message_within_interval_of_session_start_is_dropped() {
    let mut st = test_state("5");
    let (mut alice, _) = active_session(&mut st, 1, 1000);
    let r = handle_inbound(&mut alice, &mut st, "red", 1050);
    assert_eq!(r, InboundOutcome::Dropped);
    assert_eq!(st.counters.red, 0);
}

#[test]
fn oversized_payload_closes_the_session_without_mutation() {
    let mut st = test_state("5");
    let (mut alice, _) = active_session(&mut st, 1, 0);
    // eleven bytes: one over the ceiling
    let r = handle_inbound(&mut alice, &mut st, "aaaaaaaaaaa", 200);
    assert_eq!(r, InboundOutcome::Terminate(CloseReason::PayloadTooLarge));
    assert_eq!(st.counters.total, 0);
    let frame = close_session(&mut alice, &mut st).expect("close frame");
    assert_eq!(frame, "Abnormal Payload");
}

#[test]
fn ten_byte_payload_is_not_oversized() {
    let mut st = test_state("5");
    let (mut alice, _) = active_session(&mut st, 1, 0);
    // exactly at the ceiling: goes on to token recognition
    let r = handle_inbound(&mut alice, &mut st, "aaaaaaaaaa", 200);
    assert_eq!(r, InboundOutcome::Terminate(CloseReason::InvalidColor));
}

#[test]
fn idle_timeout_closes_with_timeout_reason() {
    let mut st = test_state("5");
    let (mut alice, _) = active_session(&mut st, 1, 0);
    let reason = handle_transport(&mut alice, TransportEvent::TimerFired);
    assert_eq!(reason, CloseReason::Timeout);
    assert_eq!(alice.phase, SessionPhase::Terminating(CloseReason::Timeout));
    let frame = close_session(&mut alice, &mut st).expect("close frame");
    assert_eq!(frame, "Timeout");
}

#[test]
fn transport_errors_carry_their_reasons() {
    let mut st = test_state("5");
    let (mut alice, _) = active_session(&mut st, 1, 0);
    let reason = handle_transport(&mut alice, TransportEvent::ReadError);
    assert_eq!(reason, CloseReason::WebSocketError);
    let frame = close_session(&mut alice, &mut st).expect("close frame");
    assert_eq!(frame, "Websocket Error");

    let (mut bob, _) = active_session(&mut st, 2, 0);
    let reason = handle_transport(&mut bob, TransportEvent::WriteError);
    assert_eq!(reason, CloseReason::WebSocketSendError);
    let frame = close_session(&mut bob, &mut st).expect("close frame");
    assert_eq!(frame, "Websocket Sending Error");
}

#[test]
fn new_session_snapshot_reports_prior_state_privately() {
    let mut st = test_state("5");
    st.counters.red = 3;
    st.counters.total = 10;
    let (mut earlier, _) = active_session(&mut st, 1, 0);
    next_message(&st, &mut earlier);
    let (mut alice, direct) = active_session(&mut st, 2, 0);
    assert_eq!(
        direct,
        "{\"total_users\":2,\"red\":3,\"green\":0,\"blue\":0,\"purple\":0,\"total\":10}"
    );
    // what every session sees of the newcomer is only the join notification
    assert_eq!(next_message(&st, &mut earlier), "{\"total_users\":2}");
    assert!(matches!(recv(&st.hub, &mut earlier.receiver), RecvOutcome::Empty));
    // the newcomer's own subscription holds its join event, not the snapshot
    assert_eq!(next_message(&st, &mut alice), "{\"total_users\":2}");
    assert!(matches!(recv(&st.hub, &mut alice.receiver), RecvOutcome::Empty));
}

#[test]
fn admission_ceiling_limits_sessions_per_identity() {
    let mut st = test_state("2");
    let s1 = open_session(&mut st, 7, 0);
    let s2 = open_session(&mut st, 7, 0);
    let s3 = open_session(&mut st, 7, 0);
    assert!(s1.is_some());
    assert!(s2.is_some());
    assert!(s3.is_none());
    // a different identity is unaffected
    assert!(open_session(&mut st, 8, 0).is_some());
    assert_eq!(st.connection_map.current(7), 2);
    assert_eq!(st.concurrent_users, 3);
    assert_eq!(st.total_users, 3);
}

#[test]
fn closing_sessions_releases_slots_and_removes_the_identity() {
    let mut st = test_state("2");
    let mut s1 = open_session(&mut st, 7, 0).unwrap();
    let mut s2 = open_session(&mut st, 7, 0).unwrap();
    assert!(st.connection_map.has_slot(7));
    // a session closed while still active sends no close frame
    assert!(close_session(&mut s1, &mut st).is_none());
    assert_eq!(st.connection_map.current(7), 1);
    assert!(st.connection_map.has_slot(7));
    assert!(close_session(&mut s2, &mut st).is_none());
    assert_eq!(st.connection_map.current(7), 0);
    assert!(!st.connection_map.has_slot(7));
    assert_eq!(st.concurrent_users, 0);
    // the cumulative user count never falls
    assert_eq!(st.total_users, 2);
}

#[test]
fn many_votes_accumulate_without_loss() {
    let mut st = test_state("5");
    let n: u64 = 50;
    let mut sessions = Vec::new();
    for i in 0..n {
        let (sess, _) = active_session(&mut st, 100 + i, 0);
        sessions.push(sess);
    }
    for (i, sess) in sessions.iter_mut().enumerate() {
        let r = handle_inbound(sess, &mut st, "purple", 1000 + i as u64);
        assert_eq!(r, InboundOutcome::Voted);
    }
    assert_eq!(st.counters.purple, n);
    assert_eq!(st.counters.total, n);
    assert_eq!(st.counters.red, 0);
}

#[test]
fn rate_limiter_is_a_pure_throttle() {
    let mut lim = RateLimiter::new(1000);
    assert!(!lim.allow(1099, 100));
    // the rejected message leaves the clock unchanged
    assert_eq!(lim.last_accepted_ms, 1000);
    assert!(lim.allow(1100, 100));
    assert_eq!(lim.last_accepted_ms, 1100);
    assert!(!lim.allow(1150, 100));
    assert!(lim.allow(1300, 100));
}
