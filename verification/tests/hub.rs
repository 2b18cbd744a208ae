//! The hub: who reads what the connection tells.
use attyd::api::{
    session_view_error, HeaderText, SessionResourceOwner, SessionViewError, SessionViewQuery,
};
use attyd::hub::{
    classify_event, BridgeHubState, EventRole, NextEvent, Published, MAX_SUBSCRIBERS,
};
use attyd::json::{same_json, Json};
use attyd::observation::{advance_handshake, HandshakeEvent, HandshakeStage, HandshakeState};
use attyd::projection::RuntimeEvent;
use attyd::registry::SessionRegistry;
use attyd::requests::{check_observe_request, check_view_request};
use attyd::runtime_types::{RuntimeChange, RuntimeDelta};
use attyd::subscribers::{
    deliver, offer, remove_reader, take_first, Subscriber, SUBSCRIBER_QUEUE_BYTE_CAPACITY,
    SUBSCRIBER_QUEUE_CAPACITY,
};
use attyd::wire::Wire;

fn json(text: &str) -> Json {
    Json::parse(text).unwrap()
}

fn test_hub() -> BridgeHubState {
    let mut hub = BridgeHubState::new();
    assert_eq!(hub.ensure_runtime(), Some(1));
    hub
}

fn publish(hub: &mut BridgeHubState, generation: u64, event: &str) -> Published {
    hub.publish(generation, event, RuntimeEvent::Other, event, &Vec::new())
}

fn next(hub: &mut BridgeHubState, id: u64) -> Option<String> {
    match hub.take_event(id) {
        NextEvent::Event(event) => Some(event),
        NextEvent::Waiting | NextEvent::Ended => None,
    }
}

fn observe(hub: &mut BridgeHubState, session_id: &str) -> u64 {
    hub.observe_session(session_id, true).unwrap().0
}

fn observer_ready(id: u64, revision: u64) -> String {
    format!(
        r#"{{"type":"bridge/internal_observer_ready","observerId":{id},"sessionId":"session","reset":{{"type":"bridge/session_reset","bridgeEpoch":"epoch","sessionId":"session","sessionIncarnation":1,"viewRevision":{revision},"historyRevision":"history","phase":"ready","syncError":null}}}}"#
    )
}

fn observation_delta(revision: u64) -> String {
    format!(
        r#"{{"type":"bridge/session_delta","bridgeEpoch":"epoch","sessionId":"session","sessionIncarnation":1,"fromRevision":{},"viewRevision":{revision},"change":{{"kind":"test"}}}}"#,
        revision - 1
    )
}

fn gap(seq: u64) -> RuntimeDelta {
    RuntimeDelta {
        epoch: "epoch".to_string(),
        seq,
        scope_revision: None,
        change: RuntimeChange::SessionRemoved {
            session_id: "missing".to_string(),
            incarnation: 1,
        },
    }
}

fn open_new(runtime: &mut SessionRegistry, session_id: &str) -> u64 {
    let session = json(&format!(r#"{{ "sessionId": "{session_id}" }}"#));
    runtime
        .open_new("epoch", session_id, "/workspace", &session)
        .unwrap()
}

#[test]
fn shutdown_closes_event_streams_without_an_active_agent() {
    let mut hub = test_hub();
    let aggregate = hub.subscribe(&Vec::new()).unwrap().id;
    let global = hub.subscribe_global().unwrap().id;
    let (session, _) = hub.observe_session("session", false).unwrap();
    assert!(hub.shutdown());
    for id in [aggregate, global, session] {
        assert_eq!(hub.take_event(id), NextEvent::Ended);
    }
    assert!(hub.subscribe(&Vec::new()).is_none());
    assert!(hub.subscribe_global().is_none());
    assert_eq!(hub.observe_session("session", false), Err("bridge is not ready"));
    assert_eq!(hub.ensure_runtime(), None);
}

#[test]
fn session_subscription_does_not_queue_unrelated_session_traffic() {
    let mut hub = test_hub();
    let (id, generation) = hub.observe_session("wanted", false).unwrap();
    let delta = |session_id: &str, from: usize, kind: &str| {
        format!(
            r#"{{"type":"bridge/session_delta","bridgeEpoch":"epoch","sessionId":"{session_id}","sessionIncarnation":1,"fromRevision":{from},"viewRevision":{},"change":{{"kind":"{kind}"}}}}"#,
            from + 1
        )
    };
    for index in 0..SUBSCRIBER_QUEUE_CAPACITY * 2 {
        publish(&mut hub, 1, &delta("other", index, "noise"));
    }
    publish(&mut hub, 1, &delta("wanted", 0, "visible"));

    let event = json(&next(&mut hub, id).expect("wanted event was not routed"));
    assert_eq!(event.text_at("sessionId"), Some("wanted"));
    assert_eq!(event.get("change").unwrap().text_at("kind"), Some("visible"));
    assert_eq!(hub.take_event(id), NextEvent::Waiting);

    hub.unsubscribe(id, generation);
    assert_eq!(hub.subscriber_count(), 0);
}

#[test]
fn cancelled_session_sse_handshake_releases_pending_observer_immediately() {
    let mut hub = test_hub();
    let id = observe(&mut hub, "session");
    assert_eq!(hub.subscriber_count(), 1);
    hub.cancel_observation(id);
    assert_eq!(hub.take_event(id), NextEvent::Ended);
    hub.unsubscribe(id, 1);
    assert_eq!(hub.subscriber_count(), 0);
    assert_eq!(hub.take_unobserved(), vec![("session".to_string(), id)]);
    publish(&mut hub, 1, &observer_ready(id, 10));
    assert_eq!(hub.subscriber_count(), 0, "late marker cannot revive cancelled HTTP");
}

#[test]
fn observe_ready_marker_establishes_reset_before_the_live_suffix() {
    let mut hub = test_hub();
    let global = hub.subscribe_global().unwrap().id;
    let aggregate = hub.subscribe(&Vec::new()).unwrap().id;
    let id = observe(&mut hub, "session");
    publish(&mut hub, 1, &observation_delta(9));
    assert_eq!(hub.is_activated(id), Some(false));
    publish(&mut hub, 1, &observer_ready(id, 10));
    assert_eq!(hub.is_activated(id), Some(true));
    publish(&mut hub, 1, &observation_delta(11));
    let reset = json(&next(&mut hub, id).unwrap());
    let delta = json(&next(&mut hub, id).unwrap());
    assert_eq!(reset.text_at("type"), Some("bridge/session_reset"));
    assert_eq!(reset.get("viewRevision").unwrap().as_u64(), Some(10));
    assert_eq!(delta.get("fromRevision").unwrap().as_u64(), Some(10));
    assert_eq!(delta.get("viewRevision").unwrap().as_u64(), Some(11));
    assert_eq!(hub.take_event(id), NextEvent::Waiting);
    assert_eq!(hub.take_event(global), NextEvent::Waiting);
    while let Some(event) = next(&mut hub, aggregate) {
        assert!(!event.contains("internal_observer_ready"));
    }
}

#[test]
fn ordered_observer_end_drains_the_committed_http_prefix_before_eof() {
    let mut hub = test_hub();
    let id = observe(&mut hub, "session");
    publish(&mut hub, 1, &observer_ready(id, 10));
    publish(&mut hub, 1, &observation_delta(11));
    publish(
        &mut hub,
        1,
        r#"{"type":"bridge/session_turn_complete","bridgeEpoch":"epoch","sessionId":"session","sessionIncarnation":1,"viewRevision":12,"operationId":"last-turn","phase":"ready","historyRevision":"final-history","response":{"stopReason":"end_turn"}}"#,
    );
    publish(
        &mut hub,
        1,
        r#"{"type":"bridge/session_retired","bridgeEpoch":"epoch","sessionId":"session","sessionIncarnation":1,"reason":"closed"}"#,
    );
    let end = |incarnation: u64| {
        format!(
            r#"{{"type":"bridge/internal_observer_end","observerId":{id},"sessionId":"session","bridgeEpoch":"epoch","sessionIncarnation":{incarnation}}}"#
        )
    };
    publish(&mut hub, 1, &end(2));
    assert_eq!(
        hub.is_activated(id),
        Some(true),
        "old or wrong owner cannot end the stream"
    );
    publish(&mut hub, 1, &end(1));
    assert_eq!(hub.subscriber_count(), 0);
    let mut delivered = Vec::new();
    while let Some(event) = next(&mut hub, id) {
        delivered.push(event);
    }
    assert_eq!(hub.take_event(id), NextEvent::Ended);
    assert_eq!(delivered.len(), 4);
    assert!(delivered[0].contains("bridge/session_reset"));
    assert!(delivered[1].contains("bridge/session_delta"));
    assert!(delivered[2].contains("last-turn"));
    assert!(delivered[3].contains("bridge/session_retired"));
    assert!(!delivered
        .iter()
        .any(|event| event.contains("internal_observer_end")));
    assert!(
        hub.take_unobserved().is_empty(),
        "normal finish must not send a late Unobserve"
    );
}

#[test]
fn ready_marker_with_another_session_scope_revokes_pending_delivery() {
    let mut hub = test_hub();
    let id = observe(&mut hub, "session");
    let marker = observer_ready(id, 10).replace(
        r#""bridgeEpoch":"epoch","sessionId":"session""#,
        r#""bridgeEpoch":"epoch","sessionId":"other""#,
    );
    publish(&mut hub, 1, &marker);
    assert_eq!(hub.is_activated(id), None);
    assert_eq!(hub.take_event(id), NextEvent::Ended);
    assert_eq!(hub.subscriber_count(), 0);
    assert_eq!(hub.take_unobserved().len(), 1);
}

#[test]
fn slow_session_delivery_unobserves_only_its_lease_and_preserves_other_observers() {
    let mut hub = test_hub();
    let mut ids = Vec::new();
    for _ in 0..2 {
        let id = observe(&mut hub, "session");
        publish(&mut hub, 1, &observer_ready(id, 1));
        ids.push(id);
    }
    next(&mut hub, ids[1]).unwrap();
    for revision in 2..=(SUBSCRIBER_QUEUE_CAPACITY as u64 + 1) {
        publish(&mut hub, 1, &observation_delta(revision));
        next(&mut hub, ids[1]).unwrap();
    }
    assert_eq!(hub.take_event(ids[0]), NextEvent::Ended);
    assert_eq!(hub.take_event(ids[1]), NextEvent::Waiting);
    assert_eq!(hub.subscriber_count(), 1);
    assert_eq!(hub.take_unobserved(), vec![("session".to_string(), ids[0])]);
    hub.unsubscribe(ids[1], 1);
    assert_eq!(hub.take_unobserved(), vec![("session".to_string(), ids[1])]);
    assert_eq!(hub.subscriber_count(), 0);
}

#[test]
fn observer_delivery_fences_generation_epoch_and_incarnation() {
    for event_type in [
        "bridge/session_delta",
        "bridge/session_turn_complete",
        "bridge/session_turn_failed",
    ] {
        for (field, other) in [("bridgeEpoch", r#""other""#), ("sessionIncarnation", "2")] {
            let mut hub = test_hub();
            let id = observe(&mut hub, "session");
            publish(&mut hub, 0, &observer_ready(id, 10));
            assert_eq!(
                hub.is_activated(id),
                Some(false),
                "old generation cannot activate a current delivery"
            );
            publish(&mut hub, 1, &observer_ready(id, 10));
            next(&mut hub, id).unwrap();
            let mut event = json(&observation_delta(11));
            event.put("type", Json::text(event_type));
            event.put(field, json(other));
            publish(&mut hub, 1, &event.to_text());
            assert_eq!(hub.take_event(id), NextEvent::Ended);
            assert_eq!(hub.take_unobserved().len(), 1);
        }
    }
}

#[test]
fn ending_generation_revokes_pending_and_active_session_leases() {
    let mut hub = test_hub();
    let active = observe(&mut hub, "session");
    publish(&mut hub, 1, &observer_ready(active, 10));
    let pending = observe(&mut hub, "session");
    assert!(hub.finish_generation(1));
    assert_eq!(hub.take_event(active), NextEvent::Ended);
    assert_eq!(hub.is_activated(pending), None);
    assert_eq!(hub.take_unobserved().len(), 2);
    assert_eq!(hub.ensure_runtime(), Some(2));
}

#[test]
fn dropping_legacy_and_debug_state_does_not_change_canonical_projection() {
    let mut hub = test_hub();
    let mut runtime = SessionRegistry::new("epoch");
    open_new(&mut runtime, "session");
    hub.publish_runtime(1, RuntimeEvent::Snapshot(Some(runtime.snapshot())));
    let canonical = runtime.snapshot().to_json().to_text();
    publish(
        &mut hub,
        1,
        r#"{"type":"acp/session_created","cwd":"/legacy","response":{"sessionId":"legacy-session"}}"#,
    );
    let held = hub.canonical().snapshot.as_ref().unwrap();
    assert_eq!(held.to_json().to_text(), canonical);
}

#[test]
fn directed_event_reaches_only_the_requesting_subscriber() {
    let mut hub = test_hub();
    let target = hub.subscribe(&Vec::new()).unwrap().id;
    let other = hub.subscribe(&Vec::new()).unwrap().id;
    publish(
        &mut hub,
        1,
        &format!(
            r#"{{"type":"bridge/internal_direct","subscriberId":{target},"event":{{"type":"bridge/error","message":"collision"}}}}"#
        ),
    );
    assert!(same_json(
        &json(&next(&mut hub, target).unwrap()),
        &json(r#"{ "type": "bridge/error", "message": "collision" }"#),
    ));
    assert_eq!(hub.take_event(other), NextEvent::Waiting);
}

#[test]
fn old_generation_direct_events_are_rejected() {
    let mut hub = test_hub();
    hub.finish_generation(1);
    assert_eq!(hub.ensure_runtime(), Some(2));
    let id = hub.subscribe(&Vec::new()).unwrap().id;
    hub.publish_direct(1, id, "stale");
    assert_eq!(hub.take_event(id), NextEvent::Waiting);
}

#[test]
fn global_subscription_bootstrap_preserves_auth_without_session_or_request_replay() {
    let mut hub = test_hub();
    let mut runtime = SessionRegistry::new("epoch");
    open_new(&mut runtime, "session");
    hub.publish_runtime(1, RuntimeEvent::Snapshot(Some(runtime.snapshot())));
    let auth_events = [
        r#"{"type":"bridge/auth_terminal_started","terminalId":"auth"}"#,
        r#"{"type":"bridge/auth_terminal_output","terminalId":"auth","data":"Sign in"}"#,
    ];
    for event in auth_events.iter().chain(
        [
            r#"{"type":"acp/elicitation_request","elicitationId":"form","request":{"mode":"form"}}"#,
            r#"{"type":"acp/mcp_connection","connectionId":"mcp"}"#,
            r#"{"type":"acp/session_created","cwd":"/workspace","response":{"sessionId":"session"}}"#,
            r#"{"type":"acp/prompt_started","sessionId":"session","requestId":"prompt","prompt":[]}"#,
            r#"{"type":"bridge/error","message":"Agent exited"}"#,
            r#"{"type":"bridge/phase","phase":"error"}"#,
        ]
        .iter(),
    ) {
        publish(&mut hub, 1, event);
    }

    let global = hub.subscribe_global().unwrap();
    assert_eq!(global.initial_events.len(), 4);
    assert_eq!(&global.initial_events[..2], &auth_events);
    let error = json(&global.initial_events[2]);
    assert_eq!(error.text_at("type"), Some("bridge/connection_error"));
    assert_eq!(error.text_at("message"), Some("Agent exited"));
    assert!(same_json(
        &json(&global.initial_events[3]),
        &json(r#"{ "type": "bridge/connection", "phase": "error" }"#)
    ));

    let replay = vec![r#"{"type":"bridge/runtime_session"}"#.to_string()];
    let aggregate = hub.subscribe(&replay).unwrap();
    assert!(aggregate
        .initial_events
        .iter()
        .any(|event| json(event).text_at("type") == Some("bridge/runtime_snapshot")));
    assert!(aggregate.initial_events.contains(&replay[0]));
    hub.unsubscribe(global.id, global.generation);
    hub.unsubscribe(aggregate.id, aggregate.generation);
    assert_eq!(hub.subscriber_count(), 0);
}

#[test]
fn unrelated_session_events_do_not_consume_global_subscriber_capacity() {
    let mut hub = test_hub();
    let mut runtime = SessionRegistry::new("epoch");
    hub.publish_runtime(1, RuntimeEvent::Snapshot(Some(runtime.snapshot())));
    let global = hub.subscribe_global().unwrap().id;
    for index in 0..=SUBSCRIBER_QUEUE_CAPACITY {
        let session_id = format!("session-{index}");
        open_new(&mut runtime, &session_id);
        let delta = runtime.deltas_after(index as u64).unwrap().remove(0);
        hub.publish_runtime(1, RuntimeEvent::Delta(Some(delta)));
        for event in [
            format!(
                r#"{{"type":"acp/session_update","notification":{{"sessionId":"{session_id}","update":{{}}}}}}"#
            ),
            format!(
                r#"{{"type":"bridge/session_delta","sessionId":"{session_id}","viewRevision":2,"change":{{"kind":"turn_update"}}}}"#
            ),
            format!(
                r#"{{"type":"bridge/error","requestId":"{session_id}","message":"Session request failed"}}"#
            ),
        ] {
            publish(&mut hub, 1, &event);
        }
    }
    assert_eq!(hub.take_event(global), NextEvent::Waiting);
    publish(&mut hub, 1, r#"{"type":"bridge/phase","phase":"ready"}"#);
    assert!(same_json(
        &json(&next(&mut hub, global).unwrap()),
        &json(r#"{ "type": "bridge/connection", "phase": "ready" }"#),
    ));
    assert!(!hub.finish_generation(0));
    assert_eq!(hub.take_event(global), NextEvent::Waiting);
    assert!(hub.finish_generation(1));
    assert_eq!(hub.take_event(global), NextEvent::Ended);
}

#[test]
fn subscriber_count_has_a_hard_global_limit() {
    let mut hub = test_hub();
    let mut ids = Vec::new();
    for index in 0..MAX_SUBSCRIBERS {
        ids.push(match index % 3 {
            0 => hub.subscribe(&Vec::new()).unwrap().id,
            1 => hub.subscribe_global().unwrap().id,
            _ => hub.observe_session("session", false).unwrap().0,
        });
    }
    assert!(hub.subscribe(&Vec::new()).is_none());
    assert!(hub.subscribe_global().is_none());
    assert_eq!(
        hub.observe_session("session", false),
        Err("too many event subscribers")
    );
    hub.unsubscribe(ids.pop().unwrap(), 1);
    assert!(hub.subscribe_global().is_some());
}

#[test]
fn slow_subscriber_is_evicted_without_blocking_a_healthy_subscriber() {
    let mut hub = test_hub();
    let slow = hub.subscribe(&Vec::new()).unwrap().id;
    let healthy = hub.subscribe(&Vec::new()).unwrap().id;
    for _ in 1..SUBSCRIBER_QUEUE_CAPACITY {
        publish(&mut hub, 1, r#"{"type":"bridge/stderr","chunk":"a"}"#);
        next(&mut hub, healthy).unwrap();
    }
    let starting = r#"{"type":"bridge/phase","phase":"starting"}"#;
    let ready = r#"{"type":"bridge/phase","phase":"ready"}"#;
    publish(&mut hub, 1, starting);
    assert_eq!(hub.subscriber_count(), 2);
    publish(&mut hub, 1, ready);
    assert_eq!(hub.subscriber_count(), 1);
    assert_eq!(next(&mut hub, healthy).as_deref(), Some(starting));
    assert_eq!(next(&mut hub, healthy).as_deref(), Some(ready));
    assert_eq!(hub.take_event(healthy), NextEvent::Waiting);
    let mut held = Vec::new();
    while let Some(event) = next(&mut hub, slow) {
        held.push(event);
    }
    assert_eq!(held.len(), SUBSCRIBER_QUEUE_CAPACITY);
    assert_eq!(held.last().map(String::as_str), Some(starting));
    assert_eq!(hub.take_event(slow), NextEvent::Ended);
}

#[test]
fn slow_subscriber_does_not_pin_a_completed_turn_in_hub_state() {
    let marker = "slow-subscriber-completed-turn";
    let mut hub = test_hub();
    let mut runtime = SessionRegistry::new("epoch");
    let incarnation = open_new(&mut runtime, "session");
    runtime
        .start_prompt("epoch", "session", incarnation, "prompt", Vec::new())
        .unwrap();
    runtime
        .append_runtime_update(
            "epoch",
            "session",
            incarnation,
            &json(&format!(
                r#"{{ "sessionUpdate": "agent_message_chunk", "messageId": "answer", "content": {{ "type": "text", "text": "{marker}" }} }}"#
            )),
        )
        .unwrap();
    let through_seq = runtime.seq();
    hub.publish_runtime(1, RuntimeEvent::Snapshot(Some(runtime.snapshot())));
    let slow = hub.subscribe(&Vec::new()).unwrap().id;
    runtime
        .complete_prompt(
            "epoch",
            "session",
            incarnation,
            "prompt",
            &json(r#"{ "stopReason": "end_turn" }"#),
        )
        .unwrap();
    for delta in runtime.deltas_after(through_seq).unwrap() {
        hub.publish_runtime(1, RuntimeEvent::Delta(Some(delta)));
    }
    let retained = hub.canonical().snapshot.as_ref().unwrap().to_json().to_text();
    assert!(!retained.contains(marker));
    assert!(
        next(&mut hub, slow).is_some(),
        "the subscriber must still be holding the final publication for this test"
    );
}

#[test]
fn subscriber_backlog_is_bounded_by_bytes_not_only_event_count() {
    let mut hub = test_hub();
    hub.subscribe(&Vec::new()).unwrap();
    let large_event = format!(
        r#"{{"chunk":"{}","type":"bridge/stderr"}}"#,
        "x".repeat(SUBSCRIBER_QUEUE_BYTE_CAPACITY / 2 + 1)
    );
    publish(&mut hub, 1, &large_event);
    assert_eq!(hub.subscriber_count(), 1);
    publish(&mut hub, 1, &large_event);
    assert_eq!(
        hub.subscriber_count(),
        0,
        "a few large events must not bypass subscriber memory bounds"
    );
}

fn queued_bytes(queue: &[String]) -> usize {
    queue.iter().map(String::len).sum()
}

#[test]
fn subscriber_byte_accounting_releases_on_receive_and_failed_send() {
    let mut queue = Vec::new();
    assert!(offer(&mut queue, "first"));
    assert_eq!(queued_bytes(&queue), 5);
    for _ in 1..SUBSCRIBER_QUEUE_CAPACITY {
        assert!(offer(&mut queue, ""));
    }
    let before = queue.clone();
    assert!(!offer(&mut queue, "overflow"));
    assert_eq!(queue, before, "a refused event must leave the queue as it was");
    assert_eq!(queued_bytes(&queue), 5);
    assert_eq!(take_first(&mut queue).as_deref(), Some("first"));
    assert_eq!(queued_bytes(&queue), 0);
    let mut readers = vec![Subscriber { id: 1, queue: Vec::new() }];
    let gone = remove_reader(&mut readers, 1).unwrap();
    let mut lost = Vec::new();
    deliver(&mut readers, &vec!["closed".to_string()], &mut lost);
    assert!(readers.is_empty() && lost.is_empty());
    assert_eq!(queued_bytes(&gone.queue), 0);
}

#[test]
fn an_event_that_is_too_large_leaves_the_queue_as_it_was() {
    let mut queue = vec!["held".to_string()];
    let large = "x".repeat(SUBSCRIBER_QUEUE_BYTE_CAPACITY - 3);
    assert!(!offer(&mut queue, &large));
    assert_eq!(queue, vec!["held".to_string()]);
    assert!(offer(&mut queue, &large[1..]));
    assert_eq!(queued_bytes(&queue), SUBSCRIBER_QUEUE_BYTE_CAPACITY);
}

#[test]
fn reading_frees_the_place_of_an_event() {
    let mut queue = Vec::new();
    let half = "x".repeat(SUBSCRIBER_QUEUE_BYTE_CAPACITY / 2);
    assert!(offer(&mut queue, &half));
    assert!(offer(&mut queue, &half));
    assert!(!offer(&mut queue, "x"));
    assert_eq!(take_first(&mut queue).as_deref(), Some(half.as_str()));
    assert!(offer(&mut queue, "x"));
    for _ in queue.len()..SUBSCRIBER_QUEUE_CAPACITY {
        assert!(offer(&mut queue, ""));
    }
    assert!(!offer(&mut queue, ""));
    let mut none = Vec::new();
    assert_eq!(take_first(&mut none), None);
}

#[test]
fn subscriber_bootstrap_contains_atomic_canonical_snapshot_and_suffix() {
    let mut hub = test_hub();
    let mut runtime = SessionRegistry::new("epoch");
    let initial = runtime.snapshot();
    let through_seq = initial.through_seq;
    hub.publish_runtime(1, RuntimeEvent::Snapshot(Some(initial)));
    let subscription = hub.subscribe(&Vec::new()).unwrap();
    let snapshot_event = subscription
        .initial_events
        .iter()
        .map(|event| json(event))
        .find(|event| event.text_at("type") == Some("bridge/runtime_snapshot"))
        .expect("canonical snapshot must be part of the atomic bootstrap");
    let snapshot = snapshot_event.get("snapshot").unwrap();
    assert_eq!(snapshot.text_at("epoch"), Some("epoch"));
    assert_eq!(snapshot.get("throughSeq").unwrap().as_u64(), Some(through_seq));

    open_new(&mut runtime, "session");
    let delta = runtime.deltas_after(through_seq).unwrap().remove(0);
    hub.publish_runtime(1, RuntimeEvent::Delta(Some(delta)));
    let delta_event = json(&next(&mut hub, subscription.id).unwrap());
    assert_eq!(delta_event.text_at("type"), Some("bridge/runtime_delta"));
    assert_eq!(
        delta_event.get("delta").unwrap().get("seq").unwrap().as_u64(),
        Some(through_seq + 1)
    );
}

#[test]
fn canonical_gap_requests_a_fresh_bridge_snapshot() {
    let mut hub = test_hub();
    let runtime = SessionRegistry::new("epoch");
    assert!(!hub.publish_runtime(1, RuntimeEvent::Snapshot(Some(runtime.snapshot()))));
    assert!(hub.publish_runtime(1, RuntimeEvent::Delta(Some(gap(2)))));
}

#[test]
fn gap_resnapshot_is_single_flight_and_reestablishes_contiguous_suffix() {
    let mut hub = test_hub();
    let mut runtime = SessionRegistry::new("epoch");
    hub.publish_runtime(1, RuntimeEvent::Snapshot(Some(runtime.snapshot())));
    let id = hub.subscribe(&Vec::new()).unwrap().id;
    assert!(hub.publish_runtime(1, RuntimeEvent::Delta(Some(gap(2)))));
    assert!(
        !hub.publish_runtime(1, RuntimeEvent::Delta(Some(gap(3)))),
        "only one replacement snapshot may be in flight"
    );

    let incarnation = open_new(&mut runtime, "session");
    hub.publish_runtime(1, RuntimeEvent::Snapshot(Some(runtime.snapshot())));
    let replacement = json(&next(&mut hub, id).unwrap());
    assert_eq!(replacement.text_at("type"), Some("bridge/runtime_snapshot"));
    let through = replacement.get("snapshot").unwrap().get("throughSeq");
    assert_eq!(through.unwrap().as_u64(), Some(1));

    runtime
        .start_prompt("epoch", "session", incarnation, "prompt", Vec::new())
        .unwrap();
    let suffix = runtime.deltas_after(1).unwrap().remove(0);
    hub.publish_runtime(1, RuntimeEvent::Delta(Some(suffix)));
    let suffix = json(&next(&mut hub, id).unwrap());
    assert_eq!(suffix.text_at("type"), Some("bridge/runtime_delta"));
    let seq = suffix.get("delta").unwrap().get("seq");
    assert_eq!(seq.unwrap().as_u64(), Some(2));
}

#[test]
fn two_subscribers_receive_the_same_canonical_revision_and_state() {
    let mut hub = test_hub();
    let mut runtime = SessionRegistry::new("epoch");
    hub.publish_runtime(1, RuntimeEvent::Snapshot(Some(runtime.snapshot())));
    let first = hub.subscribe(&Vec::new()).unwrap().id;
    let second = hub.subscribe(&Vec::new()).unwrap().id;
    let incarnation = open_new(&mut runtime, "session");
    runtime
        .start_prompt("epoch", "session", incarnation, "prompt", Vec::new())
        .unwrap();
    for delta in runtime.deltas_after(0).unwrap() {
        hub.publish_runtime(1, RuntimeEvent::Delta(Some(delta)));
    }
    for expected_seq in 1..=runtime.seq() {
        let first_event = next(&mut hub, first).unwrap();
        let second_event = next(&mut hub, second).unwrap();
        assert_eq!(first_event, second_event);
        let event = json(&first_event);
        let seq = event.get("delta").unwrap().get("seq").unwrap().as_u64();
        assert_eq!(seq, Some(expected_seq));
    }
    let canonical = hub.canonical().snapshot.as_ref().unwrap();
    assert_eq!(
        canonical.to_json().to_text(),
        runtime.snapshot().to_json().to_text()
    );
}

#[test]
fn a_login_on_a_terminal_starts_the_connection_over() {
    let mut hub = test_hub();
    let exited = r#"{"type":"bridge/auth_terminal_exited","status":"succeeded"}"#;
    assert!(hub.publish_ordinary(1, exited, exited, &Vec::new()));
    assert!(!hub.publish_ordinary(2, exited, exited, &Vec::new()));
    let other = r#"{"type":"bridge/auth_terminal_exited","status":"cancelled"}"#;
    assert!(!hub.publish_ordinary(1, other, other, &Vec::new()));
}

#[test]
fn an_opened_session_is_followed_by_what_is_told_of_it() {
    let mut hub = test_hub();
    let id = hub.subscribe(&Vec::new()).unwrap().id;
    let (watcher, _) = hub.observe_session("s", false).unwrap();
    let opened = r#"{"type":"acp/session_created","response":{"sessionId":"s"}}"#;
    let delta = r#"{"type":"bridge/session_delta","sessionId":"s"}"#.to_string();
    hub.publish_ordinary(1, opened, opened, &vec![delta.clone()]);
    assert_eq!(next(&mut hub, id).as_deref(), Some(opened));
    assert_eq!(next(&mut hub, id), Some(delta.clone()));
    assert_eq!(next(&mut hub, watcher), Some(delta));
}

#[test]
fn what_is_told_of_the_connection_follows_its_events() {
    let mut hub = BridgeHubState::new();
    assert_eq!(
        hub.runtime_info().to_text(),
        json(
            r#"{ "generation": 0, "bridgeEpoch": null, "connected": false, "hello": null, "initialized": null, "phase": null, "error": null }"#
        )
        .to_text()
    );
    hub.ensure_runtime();
    publish(&mut hub, 1, r#"{"type":"bridge/phase","phase":"ready"}"#);
    let runtime = SessionRegistry::new("epoch");
    hub.publish_runtime(1, RuntimeEvent::Snapshot(Some(runtime.snapshot())));
    let info = hub.runtime_info();
    assert_eq!(info.text_at("bridgeEpoch"), Some("epoch"));
    assert_eq!(info.get("connected").unwrap().as_bool(), Some(true));
    assert_eq!(info.get("phase").unwrap().text_at("phase"), Some("ready"));
    assert!(hub.is_connected());
    assert_eq!(hub.generation(), 1);
    assert!(hub.bootstrap().phase_event().is_some());
}

#[test]
fn an_event_goes_where_its_type_says() {
    for (kind, role) in [
        ("bridge/internal_observer_ready", "ObserverReady"),
        ("bridge/internal_observer_end", "ObserverEnd"),
        ("bridge/internal_runtime_snapshot", "Runtime"),
        ("bridge/internal_runtime_delta", "Runtime"),
        ("bridge/internal_direct", "Direct"),
        ("bridge/phase", "Ordinary"),
    ] {
        let found = match classify_event(&format!(r#"{{"type":"{kind}"}}"#)) {
            EventRole::ObserverReady => "ObserverReady",
            EventRole::ObserverEnd => "ObserverEnd",
            EventRole::Runtime => "Runtime",
            EventRole::Direct => "Direct",
            EventRole::Ordinary => "Ordinary",
        };
        assert_eq!(found, role);
    }
}

#[test]
fn one_call_takes_every_event_of_the_connection() {
    let mut hub = test_hub();
    let id = hub.subscribe(&Vec::new()).unwrap().id;
    let mut runtime = SessionRegistry::new("epoch");
    open_new(&mut runtime, "session");
    let text = format!(
        r#"{{"type":"bridge/internal_runtime_snapshot","value":{}}}"#,
        runtime.snapshot().to_json().to_text()
    );
    let state = RuntimeEvent::Snapshot(Some(runtime.snapshot()));
    let published = hub.publish(1, &text, state, &text, &Vec::new());
    assert_eq!(published, Published { asks: false, restart: false });
    let event = json(&next(&mut hub, id).unwrap());
    assert_eq!(event.text_at("type"), Some("bridge/runtime_snapshot"));

    let lost = r#"{"type":"bridge/internal_runtime_delta"}"#;
    let published = hub.publish(1, lost, RuntimeEvent::Delta(None), lost, &Vec::new());
    assert_eq!(published, Published { asks: true, restart: false });
    let published = hub.publish(1, lost, RuntimeEvent::Delta(None), lost, &Vec::new());
    assert_eq!(published, Published { asks: false, restart: false });

    let login = r#"{"type":"bridge/auth_terminal_exited","status":"succeeded"}"#;
    assert_eq!(publish(&mut hub, 2, login), Published { asks: false, restart: false });
    assert_eq!(hub.take_event(id), NextEvent::Waiting);
    assert_eq!(publish(&mut hub, 1, login), Published { asks: false, restart: true });
    assert_eq!(next(&mut hub, id).as_deref(), Some(login));
}

#[test]
fn only_an_event_that_opens_a_session_is_followed_by_its_live_state() {
    let mut hub = test_hub();
    let id = hub.subscribe(&Vec::new()).unwrap().id;
    let suffix = vec![r#"{"type":"live"}"#.to_string()];
    let opened = r#"{"type":"acp/session_attached","sessionId":"session"}"#;
    hub.publish(1, opened, RuntimeEvent::Other, opened, &suffix);
    assert_eq!(next(&mut hub, id).as_deref(), Some(opened));
    assert_eq!(next(&mut hub, id).as_deref(), Some(suffix[0].as_str()));
    let other = r#"{"type":"bridge/catalog_changed"}"#;
    hub.publish(1, other, RuntimeEvent::Other, other, &suffix);
    assert_eq!(next(&mut hub, id).as_deref(), Some(other));
    assert_eq!(hub.take_event(id), NextEvent::Waiting);
}

fn failure(stage: HandshakeStage, event: HandshakeEvent) -> SessionViewError {
    match advance_handshake(stage, event) {
        HandshakeState::Failed(error) => error,
        other => panic!("the handshake went on: {other:?}"),
    }
}

fn unavailable(stage: HandshakeStage, event: HandshakeEvent) -> String {
    match failure(stage, event) {
        SessionViewError::Unavailable(message) => message,
        other => panic!("another failure: {other:?}"),
    }
}

#[test]
fn a_handshake_passes_every_stage() {
    let mut stage = HandshakeStage::Sending;
    for (event, expected) in [
        (HandshakeEvent::Accepted, HandshakeStage::Sending),
        (HandshakeEvent::Sent, HandshakeStage::Answering),
        (HandshakeEvent::Accepted, HandshakeStage::Activating),
        (HandshakeEvent::Sent, HandshakeStage::Activating),
    ] {
        match advance_handshake(stage, event) {
            HandshakeState::Waiting(next) => stage = next,
            other => panic!("the handshake ended: {other:?}"),
        }
        assert_eq!(stage, expected);
    }
    let last = advance_handshake(stage, HandshakeEvent::Activated { cancelled: false });
    assert!(matches!(last, HandshakeState::Registered));
}

#[test]
fn observe_handshake_timeout_revokes_its_owner_lease() {
    for stage in [HandshakeStage::Sending, HandshakeStage::Answering, HandshakeStage::Activating] {
        assert_eq!(
            unavailable(stage, HandshakeEvent::TimedOut),
            "bridge session observation timed out"
        );
        assert_eq!(
            unavailable(stage, HandshakeEvent::Cancelled),
            "session observation was cancelled"
        );
    }
    let mut hub = test_hub();
    let id = observe(&mut hub, "session");
    hub.unsubscribe(id, 1);
    assert_eq!(hub.take_unobserved(), vec![("session".to_string(), id)]);
    assert_eq!(hub.subscriber_count(), 0);
}

#[test]
fn a_failed_handshake_says_why() {
    for (stage, event, message) in [
        (
            HandshakeStage::Sending,
            HandshakeEvent::NotSent,
            "bridge stopped before accepting the observer",
        ),
        (
            HandshakeStage::Answering,
            HandshakeEvent::AnswerLost,
            "bridge stopped before registering the observer",
        ),
        (
            HandshakeStage::Activating,
            HandshakeEvent::ActivationLost,
            "observer delivery stopped before its snapshot cut",
        ),
        (
            HandshakeStage::Activating,
            HandshakeEvent::Activated { cancelled: true },
            "observer delivery ended during registration",
        ),
    ] {
        assert_eq!(unavailable(stage, event), message);
    }
    let refused = HandshakeEvent::Refused(SessionViewError::NotFound);
    let error = failure(HandshakeStage::Answering, refused);
    assert!(matches!(error, SessionViewError::NotFound));
}

#[test]
fn load_replacement_is_private_and_never_becomes_completed_replay() {
    let mut hub = test_hub();
    let target = hub.subscribe(&Vec::new()).unwrap().id;
    let other = hub.subscribe(&Vec::new()).unwrap().id;
    for event in [
        r#"{"type":"acp/session_update","notification":{"sessionId":"saved","update":{"sessionUpdate":"agent_message_chunk","messageId":"loaded","content":{"type":"text","text":"Agent history"}}}}"#,
        r#"{"type":"acp/session_attached","requestId":"load","method":"load","sessionId":"saved","cwd":"/workspace","response":{"sessionId":"saved"}}"#,
    ] {
        let direct = format!(
            r#"{{"type":"bridge/internal_direct","subscriberId":{target},"event":{event}}}"#
        );
        publish(&mut hub, 1, &direct);
    }
    let first = next(&mut hub, target).unwrap();
    assert!(first.contains("Agent history"));
    let second = next(&mut hub, target).unwrap();
    assert!(second.contains("acp/session_attached"));
    assert_eq!(hub.take_event(target), NextEvent::Waiting);
    assert_eq!(hub.take_event(other), NextEvent::Waiting);
    let late = hub.subscribe(&Vec::new()).unwrap();
    assert!(late.initial_events.is_empty());
}

#[test]
fn connection_replacement_reports_canonical_epoch_independently_of_generation() {
    let mut hub = test_hub();
    assert!(hub.runtime_info().get("bridgeEpoch").unwrap().is_null());
    let registry = SessionRegistry::new("new-connection");
    hub.publish_runtime(1, RuntimeEvent::Snapshot(Some(registry.snapshot())));
    let runtime = hub.runtime_info();
    assert_eq!(runtime.text_at("bridgeEpoch"), Some("new-connection"));
    assert_eq!(runtime.get("generation").unwrap().as_u64(), Some(1));
    let response = session_view_error(&SessionViewError::ConnectionReplaced {
        owner: SessionResourceOwner {
            epoch: "old-connection".to_string(),
            session_id: "session".to_string(),
            incarnation: 1,
        },
        current_epoch: "new-connection".to_string(),
    });
    assert_eq!(response.status, 409);
    let body = response.body.unwrap();
    assert_eq!(body.text_at("code"), Some("bridge_replaced"));
    assert_eq!(body.text_at("bridgeEpoch"), Some("old-connection"));
    assert_eq!(body.text_at("currentBridgeEpoch"), runtime.text_at("bridgeEpoch"));
    assert_eq!(body.get("sessionIncarnation").unwrap().as_u64(), Some(1));
}

#[test]
fn view_refresh_and_sse_resume_return_the_retired_owner_without_fresh_open() {
    let owner = || SessionResourceOwner {
        epoch: "retired-epoch".to_string(),
        session_id: "session".to_string(),
        incarnation: 9,
    };
    let query = SessionViewQuery {
        cwd: Some("/workspace".to_string()),
        expected_epoch: Some("retired-epoch".to_string()),
        expected_incarnation: Some(9),
    };
    assert_eq!(check_view_request("session", &query).unwrap(), Some(owner()));
    let expected = session_view_error(&SessionViewError::Retired(owner()));
    assert_eq!(expected.status, 409);
    let expected = expected.body.unwrap();
    assert_eq!(expected.text_at("code"), Some("session_retired"));
    assert_eq!(expected.get("sessionIncarnation").unwrap().as_u64(), Some(9));

    let nothing = SessionViewQuery {
        cwd: None,
        expected_epoch: None,
        expected_incarnation: None,
    };
    let resumed = HeaderText::Text("retired-epoch:9:12");
    assert_eq!(check_observe_request("session", &nothing, resumed).unwrap(), Some(owner()));
    let refused = HandshakeEvent::Refused(SessionViewError::Retired(owner()));
    let error = failure(HandshakeStage::Answering, refused);
    let answer = session_view_error(&error);
    assert_eq!(answer.status, 409);
    assert!(same_json(&answer.body.unwrap(), &expected));
}

#[test]
fn a_reader_that_leaves_does_not_touch_the_queue_of_another() {
    let mut hub = test_hub();
    let first = hub.subscribe(&Vec::new()).unwrap().id;
    let second = hub.subscribe(&Vec::new()).unwrap().id;
    let large = "x".repeat(SUBSCRIBER_QUEUE_BYTE_CAPACITY);
    hub.publish_direct(1, first, &large);
    hub.publish_direct(1, second, "second");
    hub.unsubscribe(first, 1);
    assert_eq!(hub.take_event(first), NextEvent::Ended);
    assert_eq!(next(&mut hub, second).as_deref(), Some("second"));
    hub.publish_direct(1, second, &large);
    assert_eq!(next(&mut hub, second).as_deref(), Some(large.as_str()));
    assert_eq!(hub.take_event(second), NextEvent::Waiting);
}
