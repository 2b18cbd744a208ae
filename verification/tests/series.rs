//! Series of calls: what later ones find of earlier ones.
use attyd::bootstrap::{BridgeBootstrap, MAX_AUTH_REPLAY_BYTES};
use attyd::fold::{fold_active_turn_update, fold_terminal_snapshot, RuntimeStateError};
use attyd::json::{same_json, Json};
use attyd::projection::{CanonicalProjection, RuntimeEvent};
use attyd::registry::turns::{StartedTurn, TurnAdmission};
use attyd::registry::SessionRegistry;
use attyd::runtime_types::{
    InteractionResolution, InteractionResponseStart, InteractionUpsert, MirrorPhase,
    SessionAdmission, SessionOperationKind, SessionTurnError, TurnExecution, TurnOverlay,
    UrlFlowResolution, UrlFlowStatus,
};
use attyd::session_update::{validate_and_track_session_update, SessionUpdateSemanticState};
use attyd::wire::Wire;

fn json(text: &str) -> Json {
    Json::parse(text).unwrap()
}

fn open(registry: &mut SessionRegistry, session_id: &str) -> u64 {
    registry.open_new("e", session_id, "/w", &json("{}")).unwrap()
}

fn close(registry: &mut SessionRegistry, session_id: &str, incarnation: u64) {
    let kind = SessionOperationKind::Close;
    registry
        .start_operation("e", session_id, incarnation, "close", kind, "closing", true)
        .unwrap();
    registry.close_session("e", session_id, incarnation, "close").unwrap();
    registry
        .finish_session_cleanup(session_id, incarnation, SessionAdmission::Close, "close")
        .unwrap();
}

#[test]
fn no_two_openings_get_one_incarnation() {
    let mut registry = SessionRegistry::new("e");
    let mut given = Vec::new();
    for id in ["a", "b", "a", "c", "b"] {
        if let Some(session) = registry.session(id) {
            close(&mut registry, id, session.incarnation);
        }
        given.push(open(&mut registry, id));
    }
    assert_eq!(given, vec![1, 2, 3, 4, 5]);
    for stale in [1, 2] {
        for id in ["a", "b"] {
            assert_eq!(
                registry.request_cancel("e", id, stale),
                Err(RuntimeStateError::StaleIncarnation)
            );
        }
    }
}

#[test]
fn a_settled_permission_stays_settled_whatever_comes_between() {
    let mut registry = SessionRegistry::new("e");
    let incarnation = open(&mut registry, "s");
    registry.upsert_permission("e", "s", incarnation, "p", &json("{}")).unwrap();
    assert_eq!(
        registry.resolve_permission("e", "s", incarnation, "p"),
        Ok(InteractionResolution::Applied)
    );
    registry.start_prompt("e", "s", incarnation, "turn", Vec::new()).unwrap();
    registry.upsert_permission("e", "s", incarnation, "q", &json("{}")).unwrap();
    registry.complete_prompt("e", "s", incarnation, "turn", &json("{}")).unwrap();
    open(&mut registry, "other");
    let seq = registry.seq();
    for id in ["p", "q"] {
        assert_eq!(
            registry.upsert_permission("e", "s", incarnation, id, &json("[]")),
            Ok(InteractionUpsert::AlreadyResolved)
        );
        assert_eq!(
            registry.resolve_permission("e", "s", incarnation, id),
            Ok(InteractionResolution::AlreadyResolved)
        );
        assert_eq!(
            registry.complete_permission_response("e", "s", incarnation, id, "op"),
            Ok(InteractionResolution::AlreadyResolved)
        );
        assert!(!registry.session("s").unwrap().permissions.contains_key(id));
    }
    assert_eq!(registry.seq(), seq);
}

#[test]
fn a_settled_flow_waits_again_only_where_it_is_registered_anew() {
    let mut registry = SessionRegistry::new("e");
    let incarnation = open(&mut registry, "s");
    for scope in [Some(("s", incarnation)), None] {
        let request = json(r#"{"mode":"url"}"#);
        registry.upsert_elicitation("e", scope, "q", &request).unwrap();
        registry.resolve_elicitation("e", scope, "q", Some("u")).unwrap();
        assert_eq!(
            registry.settle_url_flow("e", scope, "u", UrlFlowStatus::Completed),
            Ok(UrlFlowResolution::Applied)
        );
        registry.upsert_elicitation("e", scope, "r", &request).unwrap();
        registry.resolve_elicitation("e", scope, "r", None).unwrap();
        let seq = registry.seq();
        assert_eq!(
            registry.settle_url_flow("e", scope, "u", UrlFlowStatus::Cancelled),
            Ok(UrlFlowResolution::AlreadyTerminal)
        );
        assert_eq!(
            registry.settle_url_flow("e", scope, "u", UrlFlowStatus::Waiting),
            Err(RuntimeStateError::OperationMismatch)
        );
        assert_eq!(
            registry.upsert_elicitation("e", scope, "q", &request),
            Ok(InteractionUpsert::AlreadyResolved)
        );
        assert_eq!(registry.seq(), seq);
        registry.upsert_elicitation("e", scope, "t", &request).unwrap();
        registry.resolve_elicitation("e", scope, "t", Some("u")).unwrap();
        assert_eq!(
            registry.settle_url_flow("e", scope, "u", UrlFlowStatus::Cancelled),
            Ok(UrlFlowResolution::Applied)
        );
    }
}

#[test]
fn one_operation_answers_one_question() {
    let mut registry = SessionRegistry::new("e");
    let incarnation = open(&mut registry, "s");
    registry.start_prompt("e", "s", incarnation, "turn", Vec::new()).unwrap();
    for id in ["p", "q"] {
        registry.upsert_permission("e", "s", incarnation, id, &json("{}")).unwrap();
    }
    let begin = |registry: &mut SessionRegistry, id: &str, operation: &str| {
        registry.begin_permission_response("e", "s", incarnation, id, operation)
    };
    assert_eq!(
        begin(&mut registry, "p", "turn"),
        Err(RuntimeStateError::OperationCollision)
    );
    assert_eq!(begin(&mut registry, "p", "op"), Ok(InteractionResponseStart::Applied));
    assert_eq!(begin(&mut registry, "p", "op"), Ok(InteractionResponseStart::Duplicate));
    assert_eq!(
        begin(&mut registry, "q", "op"),
        Err(RuntimeStateError::OperationCollision)
    );
}

fn started(intent: &str) -> StartedTurn {
    StartedTurn {
        admission: TurnAdmission::Accepted { operation_id: format!("turn-{intent}") },
        turn: TurnOverlay {
            operation_id: format!("turn-{intent}"),
            client_intent_id: intent.to_string(),
            prompt: Vec::new(),
            updates: Vec::new(),
            execution: Some(TurnExecution {
                rpc_operation_id: intent.to_string(),
                cancel_requested: false,
            }),
        },
        phase: MirrorPhase::Running,
    }
}

#[test]
fn a_turn_is_admitted_once() {
    let mut registry = SessionRegistry::new("e");
    let incarnation = open(&mut registry, "s");
    let seq = registry.seq();
    let first = registry
        .admit_session_turn("e", "s", incarnation, "i", Ok(None), Ok(started("i")))
        .unwrap();
    assert!(matches!(first, TurnAdmission::Accepted { operation_id } if operation_id == "turn-i"));
    assert_eq!(registry.seq(), seq + 1);
    let remembered = TurnAdmission::Duplicate { operation_id: "turn-i".to_string() };
    let again = registry
        .admit_session_turn("e", "s", incarnation, "i", Ok(Some(remembered)), Ok(started("i")))
        .unwrap();
    assert!(matches!(again, TurnAdmission::Duplicate { operation_id } if operation_id == "turn-i"));
    assert!(matches!(
        registry.admit_session_turn("e", "s", incarnation, "i", Ok(None), Ok(started("i"))),
        Err(SessionTurnError::Live(RuntimeStateError::BusySession))
    ));
    assert_eq!(registry.seq(), seq + 1);
}

#[test]
fn a_state_catches_up_change_by_change() {
    let mut registry = SessionRegistry::new("e");
    let incarnation = open(&mut registry, "s");
    let mut projection = CanonicalProjection::new();
    projection.update_with_public_event(RuntimeEvent::Snapshot(Some(registry.snapshot())));
    let seq = registry.seq();
    registry.start_prompt("e", "s", incarnation, "turn", Vec::new()).unwrap();
    let update = json(
        r#"{"sessionUpdate":"agent_message_chunk","content":{"type":"text","text":"a"}}"#,
    );
    registry.append_runtime_update("e", "s", incarnation, &update).unwrap();
    registry.append_runtime_update("e", "s", incarnation, &update).unwrap();
    registry
        .upsert_terminal("e", "s", incarnation, "t", &json(r#"{"output":"b"}"#))
        .unwrap();
    registry.upsert_elicitation("e", None, "q", &json("{}")).unwrap();
    let changes = registry.deltas_after(seq).unwrap();
    assert_eq!(changes.len(), 5);
    for change in &changes {
        assert!(projection.apply_delta(change));
        assert!(!projection.apply_delta(change));
    }
    let held = projection.snapshot.as_ref().unwrap().to_json();
    assert!(same_json(&held, &registry.snapshot().to_json()));
}

#[test]
fn two_adjacent_chunks_leave_what_one_leaves() {
    let chunk = |text: &str| {
        json(&format!(
            r#"{{"sessionUpdate":"agent_message_chunk","messageId":"m","content":{{"type":"text","text":"{text}"}}}}"#
        ))
    };
    let first = fold_active_turn_update(&Vec::new(), &chunk("ab")).unwrap();
    let split = fold_active_turn_update(&first, &chunk("é")).unwrap();
    let whole = fold_active_turn_update(&Vec::new(), &chunk("abé")).unwrap();
    assert_eq!((split.len(), whole.len()), (1, 1));
    assert!(same_json(&split[0], &whole[0]));
}

#[test]
fn one_tool_call_has_one_entry() {
    let call = |status: &str| {
        json(&format!(
            r#"{{"sessionUpdate":"tool_call_update","toolCallId":"t","status":"{status}"}}"#
        ))
    };
    let first = fold_active_turn_update(&Vec::new(), &call("pending")).unwrap();
    let second = fold_active_turn_update(&first, &call("completed")).unwrap();
    assert_eq!(second.len(), 1);
    assert_eq!(second[0].text_at("status"), Some("completed"));
}

#[test]
fn output_that_is_split_anywhere_is_put_together() {
    let cuts = [("YcOpYg==", ""), ("YQ==", "w6li"), ("YcM=", "qWI="), ("YcOp", "Yg==")];
    for (first, second) in cuts {
        let shown = fold_terminal_snapshot(
            None,
            &json(&format!(r#"{{"outputBytes":"{first}"}}"#)),
        );
        let shown = fold_terminal_snapshot(
            Some(&shown),
            &json(&format!(r#"{{"outputBytes":"{second}","outputAppend":true}}"#)),
        );
        assert_eq!(shown.text_at("output"), Some("aéb"));
        assert_eq!(shown.text_at("outputBytes"), Some("YcOpYg=="));
    }
}

#[test]
fn an_ended_compaction_takes_no_update() {
    for ended in ["completed", "failed", "cancelled"] {
        let update = |status: &str| {
            json(&format!(
                r#"{{"sessionUpdate":"compaction_update","compactionId":"c","status":"{status}"}}"#
            ))
        };
        let mut state = SessionUpdateSemanticState::default();
        validate_and_track_session_update(&mut state, &update("in_progress")).unwrap();
        validate_and_track_session_update(&mut state, &update(ended)).unwrap();
        let count = state.update_count;
        for status in ["in_progress", "completed", "failed", "cancelled"] {
            assert!(validate_and_track_session_update(&mut state, &update(status)).is_err());
        }
        assert_eq!(state.update_count, count);
    }
}

#[test]
fn the_latest_login_events_that_fit_are_kept() {
    let event = |data: &str| {
        format!(r#"{{"data":"{data}","type":"bridge/auth_terminal_output"}}"#)
    };
    let frame = event("").len();
    let large = event(&"x".repeat(MAX_AUTH_REPLAY_BYTES - 2 * frame - 2));
    let mut bootstrap = BridgeBootstrap::new();
    for text in [event("1"), event("2"), large.clone(), event("3")] {
        bootstrap.update(&text);
    }
    assert_eq!(bootstrap.global_events(), vec![large.clone(), event("3")]);
    bootstrap.update(&event("4"));
    assert_eq!(bootstrap.global_events(), vec![event("3"), event("4")]);
}

#[test]
fn controls_are_replayed_as_they_were_changed() {
    let updates = vec![
        json(r#"{"sessionUpdate":"current_mode_update","currentModeId":"a"}"#),
        json(r#"{"sessionUpdate":"agent_message_chunk","content":{"type":"text","text":"t"}}"#),
        json(r#"{"sessionUpdate":"current_mode_update","currentModeId":"b"}"#),
    ];
    let mut replayed = SessionRegistry::new("e");
    replayed.open_new_with_replay("e", "s", "/w", &json("{}"), &updates).unwrap();
    let mut changed = SessionRegistry::new("e");
    let incarnation = open(&mut changed, "s");
    for at in [0, 2] {
        let update = json(&updates[at].to_text());
        changed
            .update_control_state("e", "s", incarnation, "current_mode_update", update)
            .unwrap();
    }
    let controls = |registry: &SessionRegistry| {
        registry.session("s").unwrap().to_json().get("controlState").unwrap().to_text()
    };
    assert_eq!(controls(&replayed), controls(&changed));
    assert!(controls(&replayed).contains(r#""currentModeId":"b""#));
}
