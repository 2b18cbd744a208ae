//! Events: how they are read, reduced and replayed.
use attyd::bootstrap::{BridgeBootstrap, MAX_AUTH_REPLAY_BYTES, MAX_AUTH_REPLAY_EVENTS};
use attyd::events::{
    business_session_event, deliver_session_event, directed_bridge_event, global_business_event,
    is_internal_direct_event, is_internal_runtime_event, opened_runtime_session_id,
    session_event_cursor, session_event_matches, session_event_owner, session_event_position,
    terminal_auth_succeeded, Delivery,
};
use attyd::json::{same_json, Json};

fn json(text: &str) -> Json {
    Json::parse(text).unwrap()
}

#[test]
fn session_sse_accepts_only_business_events_and_uses_reset_cursor() {
    let reset = r#"{"type":"bridge/session_reset","bridgeEpoch":"epoch","sessionId":"wanted","sessionIncarnation":3,"viewRevision":9}"#;
    let other = r#"{"type":"acp/session_update","notification":{"sessionId":"other","update":{}}}"#;
    let runtime = r#"{"type":"bridge/runtime_delta","delta":{"change":{"kind":"session_upsert","session":{"sessionId":"wanted"}}}}"#;
    let turn_complete = r#"{"type":"bridge/session_turn_complete","sessionId":"wanted","operationId":"turn-1","response":{"stopReason":"end_turn"}}"#;

    assert!(session_event_matches(reset, "wanted"));
    let (_, relayed_turn) =
        business_session_event(turn_complete).expect("turn outcome is session business data");
    assert!(session_event_matches(&relayed_turn, "wanted"));
    assert_eq!(session_event_cursor(&relayed_turn), None);
    assert!(!session_event_matches(other, "wanted"));
    assert!(!session_event_matches(runtime, "wanted"));
    assert_eq!(session_event_cursor(reset).as_deref(), Some("epoch:3:9"));
}

#[test]
fn full_session_views_are_reduced_to_reset_tokens_for_sse() {
    let full = r#"{
        "type": "bridge/session_view",
        "sessionId": "wanted",
        "view": {
            "bridgeEpoch": "epoch",
            "session": {
                "incarnation": 3,
                "viewRevision": 9,
                "historyRevision": "history-9",
                "phase": "ready",
                "syncError": null
            },
            "baseline": { "updates": [{ "large": "payload" }] }
        }
    }"#;
    let (_, event) = business_session_event(full).expect("session view becomes reset");
    let event = json(&event);

    assert_eq!(event.text_at("type"), Some("bridge/session_reset"));
    assert_eq!(event.text_at("historyRevision"), Some("history-9"));
    assert!(event.get("baseline").is_none());
}

#[test]
fn only_catalog_changes_join_the_global_business_stream() {
    let catalog = r#"{"type":"bridge/catalog_changed","bridgeEpoch":"epoch","revision":2}"#;
    assert_eq!(global_business_event(catalog).as_deref(), Some(catalog));
    let retired = r#"{"type":"bridge/session_retired","sessionId":"session","bridgeEpoch":"epoch","sessionIncarnation":1,"reason":"deleted"}"#;
    assert!(global_business_event(retired).is_none());
    assert!(business_session_event(retired).is_some());
    assert!(session_event_matches(retired, "session"));
    assert_eq!(
        session_event_position(retired),
        None,
        "terminal facts must not be discarded by revision deduplication"
    );
}

#[test]
fn bootstrap_replays_connection_state_without_transient_command_errors() {
    let mut bootstrap = BridgeBootstrap::new();
    bootstrap.update(r#"{"type":"bridge/hello"}"#);
    bootstrap.update(r#"{"type":"acp/initialized","response":{}}"#);
    bootstrap.update(r#"{"type":"bridge/phase","phase":"ready"}"#);
    bootstrap.update(r#"{"type":"bridge/error","message":"bad command"}"#);
    let events = bootstrap.events();
    assert_eq!(events.len(), 3);
    assert!(events.iter().all(|event| !event.contains("bad command")));

    bootstrap.update(r#"{"type":"bridge/error","message":"Agent exited"}"#);
    bootstrap.update(r#"{"type":"bridge/phase","phase":"error"}"#);
    let events = bootstrap.events();
    assert!(events.iter().any(|event| event.contains("Agent exited")));
}

#[test]
fn restarts_only_after_successful_terminal_authentication() {
    assert!(terminal_auth_succeeded(
        r#"{"type":"bridge/auth_terminal_exited","status":"succeeded"}"#
    ));
    assert!(!terminal_auth_succeeded(
        r#"{"type":"bridge/auth_terminal_exited","status":"cancelled"}"#
    ));
    assert!(!terminal_auth_succeeded(
        r#"{"type":"acp/authenticated","status":"succeeded"}"#
    ));
}

#[test]
fn identifies_session_lifecycle_events_that_may_have_a_live_suffix() {
    assert_eq!(
        opened_runtime_session_id(
            r#"{"type":"acp/session_created","response":{"sessionId":"created"}}"#
        ),
        Some("created".to_string())
    );
    assert_eq!(
        opened_runtime_session_id(
            r#"{"type":"acp/session_attached","sessionId":"attached","response":{}}"#
        ),
        Some("attached".to_string())
    );
    assert_eq!(
        opened_runtime_session_id(r#"{"type":"acp/prompt_complete","sessionId":"done"}"#),
        None
    );
}

#[test]
fn internal_direct_event_is_unwrapped_without_becoming_public_state() {
    let event = r#"{"type":"bridge/internal_direct","subscriberId":42,"event":{"type":"bridge/error","requestId":"request","message":"collision"}}"#;

    let (subscriber_id, direct) = directed_bridge_event(event).unwrap();
    assert_eq!(subscriber_id, 42);
    assert!(same_json(
        &json(&direct),
        &json(r#"{ "type": "bridge/error", "requestId": "request", "message": "collision" }"#),
    ));
    assert!(directed_bridge_event(r#"{"type":"bridge/phase","phase":"ready"}"#).is_none());
}

#[test]
fn global_authentication_replay_is_bounded_by_count_and_bytes() {
    let mut bootstrap = BridgeBootstrap::new();
    for index in 0..=MAX_AUTH_REPLAY_EVENTS {
        bootstrap.update(&format!(
            r#"{{"data":"{index}","type":"bridge/auth_terminal_output"}}"#
        ));
    }
    let events = bootstrap.global_events();
    assert_eq!(events.len(), MAX_AUTH_REPLAY_EVENTS);
    assert_eq!(json(&events[0]).text_at("data"), Some("1"));
    bootstrap.update(&format!(
        r#"{{"data":"{}","type":"bridge/auth_terminal_output"}}"#,
        "x".repeat(MAX_AUTH_REPLAY_BYTES)
    ));
    assert_eq!(bootstrap.global_events().len(), 0);
    assert_eq!(bootstrap.auth_replay().1, 0);
}

#[test]
fn a_ready_connection_forgets_its_error() {
    let mut bootstrap = BridgeBootstrap::new();
    bootstrap.update(r#"{"type":"bridge/error","message":"Agent exited"}"#);
    assert!(bootstrap.error_event().is_some());
    bootstrap.update(r#"{"type":"bridge/phase","phase":"ready"}"#);
    assert!(bootstrap.error_event().is_none());
    bootstrap.update("no event");
    assert_eq!(bootstrap.events().len(), 1);
}

#[test]
fn kinds_of_internal_events_are_told_apart() {
    assert!(is_internal_direct_event(r#"{"type":"bridge/internal_direct"}"#));
    assert!(!is_internal_direct_event("no event"));
    for kind in ["bridge/internal_runtime_snapshot", "bridge/internal_runtime_delta"] {
        assert!(is_internal_runtime_event(&format!(r#"{{"type":"{kind}"}}"#)));
    }
    assert!(!is_internal_runtime_event(r#"{"type":"bridge/phase"}"#));
}

#[test]
fn global_readers_see_errors_of_the_connection_only() {
    let phase = global_business_event(r#"{"type":"bridge/phase","phase":"ready"}"#).unwrap();
    assert!(same_json(
        &json(&phase),
        &json(r#"{ "type": "bridge/connection", "phase": "ready" }"#)
    ));
    let error = global_business_event(r#"{"type":"bridge/error","message":"exited"}"#).unwrap();
    assert!(same_json(
        &json(&error),
        &json(
            r#"{ "type": "bridge/connection_error", "message": "exited", "code": null, "data": null }"#
        )
    ));
    assert_eq!(
        global_business_event(r#"{"type":"bridge/error","requestId":"r","message":"bad"}"#),
        None
    );
}

#[test]
fn owners_are_read_from_events() {
    let delta = r#"{"type":"bridge/session_delta","bridgeEpoch":"epoch","sessionId":"s","sessionIncarnation":2,"viewRevision":5}"#;
    assert_eq!(session_event_owner(delta), Some(("epoch".to_string(), 2)));
    assert_eq!(
        session_event_position(delta),
        Some(("epoch".to_string(), 2, 5))
    );
    assert_eq!(session_event_owner(r#"{"bridgeEpoch":"epoch"}"#), None);
}

#[test]
fn a_reader_of_a_session_is_never_sent_back() {
    let delta = |revision: u64| {
        format!(
            r#"{{"type":"bridge/session_delta","bridgeEpoch":"epoch","sessionId":"s","sessionIncarnation":1,"viewRevision":{revision}}}"#
        )
    };
    let mut position = None;
    let mut deliver =
        |session_id: &str, event: &str| deliver_session_event(session_id, &mut position, event);
    assert_eq!(
        deliver("s", &delta(5)),
        Delivery::Send { cursor: Some("epoch:1:5".to_string()) }
    );
    assert_eq!(deliver("s", &delta(5)), Delivery::Skip);
    assert_eq!(deliver("s", &delta(4)), Delivery::Skip);
    assert_eq!(deliver("other", &delta(6)), Delivery::Skip);
    assert_eq!(
        deliver("s", &delta(6)),
        Delivery::Send { cursor: Some("epoch:1:6".to_string()) }
    );
    let retired = r#"{"type":"bridge/session_retired","sessionId":"s"}"#;
    assert_eq!(deliver("s", retired), Delivery::Send { cursor: None });
}
