//! The projection of what a connection publishes.
use attyd::json::{same_json, Json};
use attyd::projection::{CanonicalProjection, RuntimeEvent};
use attyd::registry::SessionRegistry;
use attyd::runtime_types::{RuntimeChange, RuntimeDelta, RuntimeSnapshot};
use attyd::table::Duplicate;
use attyd::wire::Wire;

fn json(text: &str) -> Json {
    Json::parse(text).unwrap()
}

fn wire_text<T: Wire>(value: &T) -> String {
    value.to_json().to_text()
}

fn open_new(runtime: &mut SessionRegistry, session_id: &str) -> u64 {
    let session = json(&format!(r#"{{ "sessionId": "{session_id}" }}"#));
    runtime
        .open_new("epoch", session_id, "/workspace", &session)
        .unwrap()
}

fn take_snapshot(projection: &mut CanonicalProjection, snapshot: RuntimeSnapshot) -> bool {
    projection
        .update_with_public_event(RuntimeEvent::Snapshot(Some(snapshot)))
        .0
}

fn take_delta(projection: &mut CanonicalProjection, delta: RuntimeDelta) -> bool {
    projection
        .update_with_public_event(RuntimeEvent::Delta(Some(delta)))
        .0
}

fn chunk(text: &str) -> Json {
    json(&format!(
        r#"{{ "sessionUpdate": "agent_message_chunk", "messageId": "answer", "content": {{ "type": "text", "text": "{text}" }} }}"#
    ))
}

#[test]
fn canonical_terminal_deltas_reconstruct_live_output_without_session_copies() {
    let mut runtime = SessionRegistry::new("epoch");
    let incarnation = open_new(&mut runtime, "session");
    let snapshot = runtime.snapshot();
    let through_seq = snapshot.through_seq;
    let mut projection = CanonicalProjection {
        snapshot: Some(snapshot),
    };
    for output in ["first", "second"] {
        runtime
            .upsert_terminal(
                "epoch",
                "session",
                incarnation,
                "terminal",
                &json(&format!(
                    r#"{{ "sessionId": "session", "terminalId": "terminal", "output": "{output}", "outputAppend": true, "released": false }}"#
                )),
            )
            .unwrap();
    }
    for delta in runtime.deltas_after(through_seq).unwrap() {
        assert!(projection.apply_delta(&delta));
    }
    let projected = projection.snapshot.as_ref().unwrap();
    let terminals = &projected.sessions.get("session").unwrap().terminals;
    assert_eq!(
        terminals.get("terminal").unwrap().text_at("output"),
        Some("firstsecond")
    );
    assert_eq!(
        wire_text(projected.sessions.get("session").unwrap()),
        wire_text(runtime.snapshot().sessions.get("session").unwrap())
    );
    assert_eq!(projected.sessions.len(), runtime.snapshot().sessions.len());
}

#[test]
fn canonical_projection_folds_typed_snapshot_and_contiguous_deltas() {
    let mut runtime = SessionRegistry::new("epoch");
    let mut projection = CanonicalProjection::new();
    assert!(take_snapshot(&mut projection, runtime.snapshot()));
    let incarnation = open_new(&mut runtime, "session");
    runtime
        .start_prompt("epoch", "session", incarnation, "prompt", Vec::new())
        .unwrap();
    for text in ["incre", "ment"] {
        runtime
            .append_runtime_update("epoch", "session", incarnation, &chunk(text))
            .unwrap();
    }
    let active_through = runtime.snapshot().through_seq;
    for delta in runtime.deltas_after(0).unwrap() {
        assert!(take_delta(&mut projection, delta));
    }
    {
        let projected = projection.snapshot.as_ref().unwrap();
        let session = projected.sessions.get("session").unwrap();
        let updates = &session.active_turn.as_ref().unwrap().updates;
        assert_eq!(updates.len(), 1);
        assert_eq!(
            updates[0].get("content").unwrap().text_at("text"),
            Some("increment")
        );
        assert_eq!(
            wire_text(session),
            wire_text(runtime.snapshot().sessions.get("session").unwrap()),
            "raw delta application must retain the same folded active turn as RuntimeState"
        );
    }
    runtime
        .complete_prompt(
            "epoch",
            "session",
            incarnation,
            "prompt",
            &json(r#"{ "stopReason": "end_turn" }"#),
        )
        .unwrap();
    for delta in runtime.deltas_after(active_through).unwrap() {
        assert!(take_delta(&mut projection, delta));
    }

    assert_eq!(
        wire_text(&projection.snapshot.unwrap()),
        wire_text(&runtime.snapshot())
    );
}

#[test]
fn replaying_the_same_canonical_snapshot_is_idempotent() {
    let mut runtime = SessionRegistry::new("epoch");
    let incarnation = open_new(&mut runtime, "session");
    runtime
        .start_prompt("epoch", "session", incarnation, "prompt", Vec::new())
        .unwrap();
    let mut projection = CanonicalProjection::new();

    assert!(take_snapshot(&mut projection, runtime.snapshot()));
    let once = wire_text(projection.snapshot.as_ref().unwrap());
    assert!(take_snapshot(&mut projection, runtime.snapshot()));
    assert_eq!(wire_text(projection.snapshot.as_ref().unwrap()), once);
    assert_eq!(
        projection
            .snapshot
            .as_ref()
            .unwrap()
            .sessions
            .get("session")
            .unwrap()
            .active_turn
            .iter()
            .count(),
        1,
        "snapshot replay must replace state rather than duplicate live entities"
    );
}

#[test]
fn stale_turn_update_operation_forces_resnapshot_without_partial_mutation() {
    let mut runtime = SessionRegistry::new("epoch");
    let incarnation = open_new(&mut runtime, "session");
    runtime
        .start_prompt("epoch", "session", incarnation, "current", Vec::new())
        .unwrap();
    let snapshot = runtime.snapshot();
    let revision = snapshot.sessions.get("session").unwrap().revision + 1;
    let stale = RuntimeDelta {
        epoch: "epoch".to_string(),
        seq: snapshot.through_seq + 1,
        scope_revision: Some(revision),
        change: RuntimeChange::TurnUpdateAppended {
            session_id: "session".to_string(),
            incarnation,
            revision,
            operation_id: "stale".to_string(),
            update: json(r#"{ "sessionUpdate": "agent_message_chunk", "text": "late" }"#),
        },
    };

    let mut direct = CanonicalProjection {
        snapshot: Some(snapshot),
    };
    assert!(!direct.apply_delta(&stale));
    assert_eq!(
        wire_text(direct.snapshot.as_ref().unwrap()),
        wire_text(&runtime.snapshot()),
        "a rejected delta must not partially mutate the materialized projection"
    );

    let mut public = CanonicalProjection {
        snapshot: Some(runtime.snapshot()),
    };
    assert!(take_delta(&mut public, stale));
    assert!(
        public.snapshot.is_none(),
        "the Hub must request a replacement snapshot after an invalid turn delta"
    );
}

#[test]
fn canonical_projection_discards_a_gapped_delta_stream() {
    let runtime = SessionRegistry::new("epoch");
    let mut projection = CanonicalProjection::new();
    take_snapshot(&mut projection, runtime.snapshot());
    let gap = RuntimeDelta {
        epoch: "epoch".to_string(),
        seq: 2,
        scope_revision: None,
        change: RuntimeChange::SessionRemoved {
            session_id: "missing".to_string(),
            incarnation: 1,
        },
    };

    assert!(take_delta(&mut projection, gap));
    assert!(projection.snapshot.is_none());
}

#[test]
fn canonical_projection_rejects_a_session_revision_jump() {
    let mut runtime = SessionRegistry::new("epoch");
    open_new(&mut runtime, "session");
    let mut projection = CanonicalProjection::new();
    take_snapshot(&mut projection, runtime.snapshot());
    let mut jumped = runtime.session("session").unwrap().duplicate();
    jumped.revision += 2;
    let delta = RuntimeDelta {
        epoch: "epoch".to_string(),
        seq: runtime.seq() + 1,
        scope_revision: Some(jumped.revision),
        change: RuntimeChange::SessionUpsert {
            session: Box::new(jumped),
        },
    };

    assert!(take_delta(&mut projection, delta));
    assert!(projection.snapshot.is_none());
}

#[test]
fn canonical_projection_tracks_sequential_terminal_retirement() {
    let mut runtime = SessionRegistry::new("epoch");
    let initial = runtime.snapshot();
    let mut through_seq = initial.through_seq;
    let mut projection = CanonicalProjection::new();
    take_snapshot(&mut projection, initial);
    for index in 0..3 {
        let session_id = format!("session-{index}");
        let operation_id = format!("prompt-{index}");
        let incarnation = open_new(&mut runtime, &session_id);
        runtime
            .start_prompt("epoch", &session_id, incarnation, &operation_id, Vec::new())
            .unwrap();
        let active_through = runtime.snapshot().through_seq;
        for delta in runtime.deltas_after(through_seq).unwrap() {
            assert!(take_delta(&mut projection, delta));
        }
        runtime
            .complete_prompt(
                "epoch",
                &session_id,
                incarnation,
                &operation_id,
                &json(r#"{ "stopReason": "end_turn" }"#),
            )
            .unwrap();
        for delta in runtime.deltas_after(active_through).unwrap() {
            assert!(take_delta(&mut projection, delta));
        }
        through_seq = runtime.snapshot().through_seq;
    }

    assert_eq!(
        wire_text(&projection.snapshot.unwrap()),
        wire_text(&runtime.snapshot())
    );
}

#[test]
fn control_changes_follow_a_snapshot() {
    let mut runtime = SessionRegistry::new("epoch");
    let incarnation = open_new(&mut runtime, "session");
    let mut projection = CanonicalProjection::new();
    take_snapshot(&mut projection, runtime.snapshot());
    let before = runtime.seq();
    runtime
        .update_control_state(
            "epoch",
            "session",
            incarnation,
            "current_mode_update",
            json(r#"{ "sessionUpdate": "current_mode_update", "currentModeId": "plan" }"#),
        )
        .unwrap();
    for delta in runtime.deltas_after(before).unwrap() {
        assert!(projection.apply_delta(&delta));
    }
    assert_eq!(
        wire_text(&projection.snapshot.unwrap()),
        wire_text(&runtime.snapshot())
    );
}

#[test]
fn unreadable_events_make_the_projection_unknown() {
    let runtime = SessionRegistry::new("epoch");
    for event in [RuntimeEvent::Snapshot(None), RuntimeEvent::Delta(None)] {
        let mut projection = CanonicalProjection {
            snapshot: Some(runtime.snapshot()),
        };
        assert_eq!(projection.update_with_public_event(event), (true, None));
        assert!(projection.snapshot.is_none());
    }
    let mut projection = CanonicalProjection {
        snapshot: Some(runtime.snapshot()),
    };
    assert_eq!(
        projection.update_with_public_event(RuntimeEvent::Other),
        (false, None)
    );
    assert!(projection.snapshot.is_some());
}

#[test]
fn released_terminals_leave_the_projection() {
    let mut runtime = SessionRegistry::new("epoch");
    let incarnation = open_new(&mut runtime, "session");
    runtime
        .upsert_terminal(
            "epoch",
            "session",
            incarnation,
            "terminal",
            &json(r#"{ "output": "running", "released": false }"#),
        )
        .unwrap();
    let mut snapshot = runtime.snapshot();
    let mut session = snapshot.sessions.remove("session").unwrap();
    session
        .terminals
        .insert("gone", json(r#"{ "output": "old", "released": true }"#));
    snapshot.sessions.insert("session", session);
    let mut projection = CanonicalProjection::new();
    assert!(take_snapshot(&mut projection, snapshot));
    let projected = projection.snapshot.unwrap();
    let terminals = &projected.sessions.get("session").unwrap().terminals;
    assert!(terminals.contains_key("terminal"));
    assert!(!terminals.contains_key("gone"));
}

#[test]
fn published_texts_read_back_as_what_was_published() {
    let mut runtime = SessionRegistry::new("epoch");
    open_new(&mut runtime, "session");
    let mut projection = CanonicalProjection::new();
    let (_, told) =
        projection.update_with_public_event(RuntimeEvent::Snapshot(Some(runtime.snapshot())));
    let told = json(&told.unwrap());
    assert_eq!(told.text_at("type"), Some("bridge/runtime_snapshot"));
    assert!(same_json(
        told.get("snapshot").unwrap(),
        &runtime.snapshot().to_json()
    ));
}
