//! What a session holds besides its turn.
use base64::engine::general_purpose::STANDARD as BASE64_STANDARD;
use base64::Engine;
use attyd::fold::{extract_control_state, RuntimeStateError};
use attyd::json::{same_json, Json};
use attyd::registry::turns::{StartedTurn, TurnAdmission};
use attyd::registry::SessionRegistry;
use attyd::runtime_types::{InteractionResolution, InteractionResponseStart, InteractionUpsert, MirrorPhase, RuntimeChange, RuntimeDelta, RuntimeEffect, RuntimeSnapshot, SessionLifecycle, SessionOperationKind, SessionTurnError, TerminalUpsert, TurnExecution, TurnOverlay, UrlFlowResolution, UrlFlowStatus};
use attyd::table::Duplicate;
use attyd::wire::Wire;
use std::ops::{Deref, DerefMut};

fn json(text: &str) -> Json {
    Json::parse(text).unwrap()
}

/// A value inside another one, found by the names on the way to it.
#[derive(Debug)]
struct Found(Json);

fn at(value: &Json, path: &str) -> Found {
    let mut here = value;
    for step in path.split('.') {
        here = match step.parse::<usize>() {
            Ok(index) => &here.as_array().unwrap()[index],
            Err(_) => match here.get(step) {
                Some(next) => next,
                None => &Json::Null,
            },
        };
    }
    Found(here.clone())
}

impl PartialEq<&str> for Found {
    fn eq(&self, other: &&str) -> bool {
        self.0.as_str() == Some(*other)
    }
}

impl PartialEq<Json> for Found {
    fn eq(&self, other: &Json) -> bool {
        same_json(&self.0, other)
    }
}

impl PartialEq<u64> for Found {
    fn eq(&self, other: &u64) -> bool {
        self.0.as_u64() == Some(*other)
    }
}

fn wire_text<T: Wire>(value: &T) -> String {
    value.to_json().to_text()
}

fn deltas_text(deltas: &[RuntimeDelta]) -> String {
    deltas.iter().map(wire_text).collect::<Vec<_>>().join(",")
}

fn texts(values: &[Json]) -> Vec<String> {
    values.iter().map(|value| value.to_text()).collect()
}

/// A snapshot that can be compared.
struct Shown(RuntimeSnapshot);

impl Deref for Shown {
    type Target = RuntimeSnapshot;

    fn deref(&self) -> &RuntimeSnapshot {
        &self.0
    }
}

impl PartialEq for Shown {
    fn eq(&self, other: &Shown) -> bool {
        wire_text(&self.0) == wire_text(&other.0)
    }
}

impl std::fmt::Debug for Shown {
    fn fmt(&self, f: &mut std::fmt::Formatter) -> std::fmt::Result {
        f.write_str(&wire_text(&self.0))
    }
}

/// The registry of one connection, with a history that admits everything.
struct RuntimeState {
    registry: SessionRegistry,
}

impl Deref for RuntimeState {
    type Target = SessionRegistry;

    fn deref(&self) -> &SessionRegistry {
        &self.registry
    }
}

impl DerefMut for RuntimeState {
    fn deref_mut(&mut self) -> &mut SessionRegistry {
        &mut self.registry
    }
}

type Outcome<T> = Result<T, RuntimeStateError>;
type Kind = SessionOperationKind;

#[allow(dead_code)]
impl RuntimeState {
    fn new(epoch: &str) -> Self {
        RuntimeState { registry: SessionRegistry::new(epoch) }
    }

    fn snapshot(&self) -> Shown {
        Shown(self.registry.snapshot())
    }

    fn snapshot_text(&self) -> String {
        wire_text(&self.registry.snapshot())
    }

    fn journal_text(&self) -> String {
        format!("{:?}", self.registry.journal())
    }

    fn owner_text(&self, id: &str) -> String {
        format!("{:?}", self.registry.state(id).unwrap())
    }

    fn open_new(&mut self, epoch: &str, id: &str, cwd: &str, session: Json) -> Outcome<u64> {
        self.registry.open_new(epoch, id, cwd, &session)
    }

    fn open_new_with_replay(
        &mut self,
        epoch: &str,
        id: &str,
        cwd: &str,
        session: Json,
        replay: Vec<Json>,
    ) -> Outcome<u64> {
        self.registry.open_new_with_replay(epoch, id, cwd, &session, &replay)
    }

    fn open_forked(
        &mut self,
        epoch: &str,
        id: &str,
        cwd: &str,
        session: Json,
        source: (&str, u64),
        replay: Option<Vec<Json>>,
    ) -> Outcome<u64> {
        self.registry.open_forked(epoch, id, cwd, &session, source, replay.as_ref())
    }

    fn append_runtime_update(
        &mut self,
        epoch: &str,
        id: &str,
        incarnation: u64,
        update: Json,
    ) -> Outcome<()> {
        self.registry.append_runtime_update(epoch, id, incarnation, &update)
    }

    fn append_attachment_candidate(
        &mut self,
        epoch: &str,
        id: &str,
        incarnation: u64,
        update: Json,
    ) -> Outcome<()> {
        self.registry.append_attachment_candidate(epoch, id, incarnation, &update)
    }

    fn complete_prompt(
        &mut self,
        epoch: &str,
        id: &str,
        incarnation: u64,
        operation: &str,
        result: Json,
    ) -> Outcome<()> {
        self.registry.complete_prompt(epoch, id, incarnation, operation, &result)
    }

    fn fail_prompt(
        &mut self,
        epoch: &str,
        id: &str,
        incarnation: u64,
        operation: &str,
        error: Json,
    ) -> Outcome<()> {
        self.registry.fail_prompt(epoch, id, incarnation, operation, &error)
    }

    fn start_operation(
        &mut self,
        epoch: &str,
        id: &str,
        incarnation: u64,
        operation: &str,
        kind: Kind,
        stage: &str,
    ) -> Outcome<()> {
        self.registry.start_operation(epoch, id, incarnation, operation, kind, stage, true)
    }

    fn start_reload(
        &mut self,
        epoch: &str,
        id: &str,
        incarnation: u64,
        operation: &str,
        kind: Kind,
    ) -> Outcome<()> {
        self.registry.start_reload(epoch, id, incarnation, operation, kind, true)
    }

    fn start_delete(
        &mut self,
        epoch: &str,
        id: &str,
        incarnation: u64,
        operation: &str,
    ) -> Outcome<()> {
        self.registry.start_delete(epoch, id, incarnation, operation, true)
    }

    fn complete_reload(
        &mut self,
        epoch: &str,
        id: &str,
        incarnation: u64,
        operation: &str,
        response: Json,
    ) -> Outcome<()> {
        self.registry.complete_reload(epoch, id, incarnation, operation, &response)
    }

    fn fail_reload(
        &mut self,
        epoch: &str,
        id: &str,
        incarnation: u64,
        operation: &str,
        error: Json,
    ) -> Outcome<()> {
        self.registry.fail_reload(epoch, id, incarnation, operation, &error)
    }

    fn complete_attachment(
        &mut self,
        epoch: &str,
        id: &str,
        incarnation: u64,
        operation: &str,
        kind: Kind,
        response: Json,
    ) -> Outcome<()> {
        self.registry.complete_attachment(epoch, id, incarnation, operation, kind, &response)
    }

    fn fail_attachment(
        &mut self,
        epoch: &str,
        id: &str,
        incarnation: u64,
        operation: &str,
        kind: Kind,
        error: Json,
    ) -> Outcome<()> {
        self.registry.fail_attachment(epoch, id, incarnation, operation, kind, &error)
    }

    fn synchronize_loaded_session(
        &mut self,
        epoch: &str,
        id: &str,
        incarnation: u64,
        response: Json,
        replay: Vec<Json>,
    ) -> Outcome<()> {
        self.registry.synchronize_loaded_session(epoch, id, incarnation, &response, &replay)
    }

    fn upsert_permission(
        &mut self,
        epoch: &str,
        id: &str,
        incarnation: u64,
        interaction: &str,
        request: Json,
    ) -> Outcome<InteractionUpsert> {
        self.registry.upsert_permission(epoch, id, incarnation, interaction, &request)
    }

    fn upsert_elicitation(
        &mut self,
        epoch: &str,
        scope: Option<(&str, u64)>,
        interaction: &str,
        request: Json,
    ) -> Outcome<InteractionUpsert> {
        self.registry.upsert_elicitation(epoch, scope, interaction, &request)
    }

    fn upsert_terminal(
        &mut self,
        epoch: &str,
        id: &str,
        incarnation: u64,
        terminal_id: &str,
        terminal: Json,
    ) -> Outcome<TerminalUpsert> {
        self.registry.upsert_terminal(epoch, id, incarnation, terminal_id, &terminal)
    }

    fn complete_operation(
        &mut self,
        epoch: &str,
        id: &str,
        incarnation: u64,
        operation: &str,
        kind: Kind,
        result: Json,
    ) -> Outcome<()> {
        self.registry.complete_operation(epoch, id, incarnation, operation, kind, &result)
    }

    fn complete_control_operation(
        &mut self,
        epoch: &str,
        id: &str,
        incarnation: u64,
        operation: &str,
        kind: Kind,
        key: &str,
        update: Json,
        result: Json,
    ) -> Outcome<()> {
        self.registry
            .complete_control_operation(epoch, id, incarnation, operation, kind, key, update, &result)
    }

    fn fail_operation(
        &mut self,
        epoch: &str,
        id: &str,
        incarnation: u64,
        operation: &str,
        kind: Kind,
        error: Json,
    ) -> Outcome<()> {
        self.registry.fail_operation(epoch, id, incarnation, operation, kind, &error)
    }

    /// Admits a turn that the history of the session has room for.
    fn admit_session_turn(
        &mut self,
        epoch: &str,
        id: &str,
        incarnation: u64,
        intent: &str,
        prompt: Vec<Json>,
    ) -> Result<TurnAdmission, SessionTurnError> {
        let known = match self.registry.state(id) {
            Some(owner) => match &owner.active_turn {
                Some(turn) if turn.client_intent_id == intent => Some(TurnAdmission::Duplicate {
                    operation_id: turn.operation_id.clone(),
                }),
                _ => None,
            },
            None => None,
        };
        let operation_id = format!("turn-{intent}");
        let started = StartedTurn {
            admission: TurnAdmission::Accepted { operation_id: operation_id.clone() },
            turn: TurnOverlay {
                operation_id,
                client_intent_id: intent.to_string(),
                prompt,
                updates: Vec::new(),
                execution: Some(TurnExecution {
                    rpc_operation_id: intent.to_string(),
                    cancel_requested: false,
                }),
            },
            phase: MirrorPhase::Running,
        };
        self.registry
            .admit_session_turn(epoch, id, incarnation, intent, Ok(known), Ok(started))
    }
}

fn state() -> RuntimeState {
    RuntimeState::new("epoch")
}

fn open(state: &mut RuntimeState, session_id: &str) -> u64 {
    state
        .open_new(
            "epoch",
            session_id,
            &format!("/{session_id}"),
            json(&format!(r#"{{ "sessionId": "{session_id}" }}"#)),
        )
        .unwrap()
}

fn start_prompt_operation(
    state: &mut RuntimeState,
    session_id: &str,
    incarnation: u64,
    operation_id: &str,
    prompt: Vec<Json>,
) -> String {
    state
        .start_prompt("epoch", session_id, incarnation, operation_id, prompt)
        .unwrap();
    operation_id.to_string()
}

#[test]
fn terminal_result_is_not_retained_after_turn_retirement() {
    let mut state = RuntimeState::new("epoch");
    let incarnation = open(&mut state, "session");
    let operation_id = "prompt".to_string();
    state
        .start_prompt("epoch", "session", incarnation, &operation_id, Vec::new())
        .unwrap();
    let before = state.seq();

    state
        .complete_prompt(
            "epoch",
            "session",
            incarnation,
            &operation_id,
            json(r#"{ "stopReason": "end_turn" }"#),
        )
        .unwrap();

    assert!(state.session("session").unwrap().active_turn.is_none());
    assert!(!state.operation_in_use(&operation_id));
    let deltas = state.deltas_after(before).unwrap();
    assert_eq!(deltas.len(), 1);
    assert!(
        !deltas_text(&deltas)
            .contains("stopReason")
    );
}

#[test]
fn rejected_transition_is_revision_and_delta_neutral() {
    let mut state = state();
    let incarnation = open(&mut state, "session");
    state
        .start_prompt("epoch", "session", incarnation, "active", Vec::new())
        .unwrap();
    let before = state.snapshot();

    assert_eq!(
        state.start_prompt("epoch", "session", incarnation, "rejected", Vec::new()),
        Err(RuntimeStateError::BusySession),
    );

    assert_eq!(state.snapshot(), before);
    assert!(state.deltas_after(before.through_seq).unwrap().is_empty());
}

#[test]
fn terminal_retirement_invalidates_payload_bearing_delta_prefix() {
    let mut state = state();
    let incarnation = open(&mut state, "session");
    let other_incarnation = open(&mut state, "other");
    let before = state.snapshot();
    state
        .start_prompt("epoch", "session", incarnation, "prompt", Vec::new())
        .unwrap();
    state
        .append_runtime_update("epoch", "session", incarnation, json(r#""answer""#))
        .unwrap();
    state
        .start_prompt(
            "epoch",
            "other",
            other_incarnation,
            "other-prompt",
            Vec::new(),
        )
        .unwrap();
    state
        .append_runtime_update(
            "epoch",
            "other",
            other_incarnation,
            json(r#""other answer""#),
        )
        .unwrap();
    state
        .complete_prompt(
            "epoch",
            "session",
            incarnation,
            "prompt",
            json(r#"{ "stopReason": "end_turn" }"#),
        )
        .unwrap();

    assert!(state.deltas_after(before.through_seq).is_none());
    let suffix = state.deltas_after(before.through_seq + 2).unwrap();
    assert_eq!(suffix.len(), 3);
    assert!(suffix.windows(2).all(|pair| pair[0].seq + 1 == pair[1].seq));
    let settled = state.snapshot();
    let deltas = state.deltas_after(settled.through_seq - 1).unwrap();
    assert_eq!(deltas.len(), 1);
    assert_eq!(deltas[0].epoch, "epoch");
    assert_eq!(deltas[0].seq, settled.through_seq);
    assert_eq!(
        deltas[0].scope_revision,
        Some(settled.sessions.get("session").unwrap().revision)
    );
}

#[test]
fn definite_close_failure_restores_active_and_releases_operation_guard() {
    let mut state = state();
    let incarnation = open(&mut state, "session");
    state
        .start_operation(
            "epoch",
            "session",
            incarnation,
            "close",
            SessionOperationKind::Close,
            "closing",
        )
        .unwrap();

    state
        .fail_operation(
            "epoch",
            "session",
            incarnation,
            "close",
            SessionOperationKind::Close,
            json(r#"{ "message": "refused" }"#),
        )
        .unwrap();

    let session = state.session("session").unwrap();
    assert_eq!(session.lifecycle, SessionLifecycle::Active);
    assert!(session.operation.is_none());
    assert!(!state.operation_in_use("close"));
    state
        .start_prompt("epoch", "session", incarnation, "next", Vec::new())
        .unwrap();
}

#[test]
fn generic_operation_success_and_failure_release_exactly_the_matching_guard() {
    for (kind, succeeds) in [
        (SessionOperationKind::Fork, true),
        (SessionOperationKind::SetMode, false),
        (SessionOperationKind::SetConfig, true),
    ] {
        let mut state = state();
        let incarnation = open(&mut state, "session");
        let operation_id = format!("{kind:?}");
        state
            .start_operation(
                "epoch",
                "session",
                incarnation,
                &operation_id,
                kind,
                "running",
            )
            .unwrap();
        if succeeds {
            state
                .complete_operation(
                    "epoch",
                    "session",
                    incarnation,
                    &operation_id,
                    kind,
                    json(r#"{ "ok": true }"#),
                )
                .unwrap();
        } else {
            state
                .fail_operation(
                    "epoch",
                    "session",
                    incarnation,
                    &operation_id,
                    kind,
                    json(r#"{ "message": "failed" }"#),
                )
                .unwrap();
        }
        assert!(state.session("session").unwrap().operation.is_none());
        assert_eq!(
            state.session("session").unwrap().lifecycle,
            SessionLifecycle::Active
        );
        assert_eq!(
            state.complete_operation(
                "epoch",
                "session",
                incarnation,
                &operation_id,
                kind,
                Json::Null,
            ),
            Err(RuntimeStateError::OperationMismatch),
        );
    }
}

#[test]
fn control_success_updates_value_and_retires_result_payload_atomically() {
    let mut state = state();
    let incarnation = open(&mut state, "session");
    state
        .start_operation(
            "epoch",
            "session",
            incarnation,
            "mode",
            SessionOperationKind::SetMode,
            "setting",
        )
        .unwrap();
    let before = state.seq();

    state
        .complete_control_operation(
            "epoch",
            "session",
            incarnation,
            "mode",
            SessionOperationKind::SetMode,
            "current_mode_update",
            json(r#"{ "sessionUpdate": "current_mode_update", "currentModeId": "plan" }"#),
            json(r#"{ "ok": true }"#),
        )
        .unwrap();

    assert_eq!(state.seq(), before + 1);
    let session = state.session("session").unwrap();
    assert!(session.operation.is_none());
    assert_eq!(
        at(session.control_state.get("current_mode_update").unwrap(), "currentModeId"),
        "plan",
    );
    assert!(!state.operation_in_use("mode"));
    assert!(
        !deltas_text(&state.deltas_after(before).unwrap())
            .contains("\"ok\":true")
    );
}

#[test]
fn load_candidate_is_invisible_until_success_then_commits_atomically() {
    let mut state = state();
    let incarnation = state
        .start_attachment(
            "epoch",
            "session",
            "/workspace",
            "load",
            SessionOperationKind::Load,
        )
        .unwrap();
    let started_seq = state.seq();
    state
        .append_attachment_candidate(
            "epoch",
            "session",
            incarnation,
            json(r#"{ "sessionUpdate": "agent_message_chunk", "content": "partial" }"#),
        )
        .unwrap();
    state
        .append_attachment_candidate(
            "epoch",
            "session",
            incarnation,
            json(r#"{ "sessionUpdate": "current_mode_update", "currentModeId": "plan" }"#),
        )
        .unwrap();

    assert_eq!(state.seq(), started_seq);
    let attaching = state.session("session").unwrap();
    assert_eq!(attaching.lifecycle, SessionLifecycle::Attaching);
    assert_eq!(state.live("session").unwrap().attachment_candidate.len(), 1);
    assert!(
        !format!("{:?}", state.live("session").unwrap().attachment_candidate)
            .contains("partial")
    );
    assert!(
        state.snapshot_text()
            .find("partial")
            .is_none()
    );

    state
        .complete_attachment(
            "epoch",
            "session",
            incarnation,
            "load",
            SessionOperationKind::Load,
            json(r#"{ "sessionId": "session" }"#),
        )
        .unwrap();

    assert_eq!(state.seq(), started_seq + 1);
    let loaded = state.session("session").unwrap();
    assert_eq!(loaded.lifecycle, SessionLifecycle::Active);
    assert!(loaded.operation.is_none());
    assert_eq!(
        at(loaded.control_state.get("current_mode_update").unwrap(), "currentModeId"),
        "plan"
    );
    assert!(!wire_text(&loaded).contains("partial"));
}

#[test]
fn attachment_control_updates_commit_to_the_control_plane_not_transcript() {
    for kind in [SessionOperationKind::Load, SessionOperationKind::Resume] {
        let mut state = state();
        let session_id = if kind == SessionOperationKind::Load {
            "loaded"
        } else {
            "resumed"
        };
        let incarnation = state
            .start_attachment("epoch", session_id, "/workspace", "attach", kind)
            .unwrap();
        state
            .append_attachment_candidate(
                "epoch",
                session_id,
                incarnation,
                json(r#"{ "sessionUpdate": "agent_message_chunk", "content": "history" }"#),
            )
            .unwrap();
        state
            .append_attachment_candidate(
                "epoch",
                session_id,
                incarnation,
                json(r#"{ "sessionUpdate": "current_mode_update", "currentModeId": "plan" }"#),
            )
            .unwrap();
        state
            .complete_attachment(
                "epoch",
                session_id,
                incarnation,
                "attach",
                kind,
                json(&format!(r#"{{ "sessionId": "{session_id}" }}"#)),
            )
            .unwrap();

        let session = state.session(session_id).unwrap();
        assert_eq!(
            at(session.control_state.get("current_mode_update").unwrap(), "currentModeId"),
            "plan"
        );
        assert!(!wire_text(&session).contains("history"));
    }
}

#[test]
fn failed_load_discards_candidate_and_resume_never_claims_replayed_history() {
    let mut state = state();
    let failed = state
        .start_attachment(
            "epoch",
            "failed",
            "/workspace",
            "load-failed",
            SessionOperationKind::Load,
        )
        .unwrap();
    state
        .append_attachment_candidate(
            "epoch",
            "failed",
            failed,
            json(r#"{ "content": "must disappear" }"#),
        )
        .unwrap();
    state
        .fail_attachment(
            "epoch",
            "failed",
            failed,
            "load-failed",
            SessionOperationKind::Load,
            json(r#"{ "message": "not found" }"#),
        )
        .unwrap();
    assert!(state.session("failed").is_none());
    assert!(
        !state.snapshot_text()
            .contains("must disappear")
    );

    let resumed = state
        .start_attachment(
            "epoch",
            "resumed",
            "/workspace",
            "resume",
            SessionOperationKind::Resume,
        )
        .unwrap();
    state
        .append_attachment_candidate(
            "epoch",
            "resumed",
            resumed,
            json(r#"{ "content": "compatibility update" }"#),
        )
        .unwrap();
    state
        .complete_attachment(
            "epoch",
            "resumed",
            resumed,
            "resume",
            SessionOperationKind::Resume,
            json(r#"{ "sessionId": "resumed" }"#),
        )
        .unwrap();
    assert!(
        !wire_text(&state.session("resumed").unwrap())
            .contains("compatibility update")
    );
}

#[test]
fn failed_attachment_releases_every_pre_response_live_resource() {
    let mut state = state();
    let incarnation = state
        .start_attachment(
            "epoch",
            "session",
            "/workspace",
            "load",
            SessionOperationKind::Load,
        )
        .unwrap();
    state
        .upsert_permission(
            "epoch",
            "session",
            incarnation,
            "permission",
            json(r#"{ "question": "allow" }"#),
        )
        .unwrap();
    state
        .upsert_elicitation(
            "epoch",
            Some(("session", incarnation)),
            "elicitation",
            json(r#"{ "mode": "url" }"#),
        )
        .unwrap();
    state
        .resolve_elicitation(
            "epoch",
            Some(("session", incarnation)),
            "elicitation",
            Some("url"),
        )
        .unwrap();
    state
        .upsert_terminal(
            "epoch",
            "session",
            incarnation,
            "terminal",
            json(r#"{ "released": false }"#),
        )
        .unwrap();

    state
        .fail_attachment(
            "epoch",
            "session",
            incarnation,
            "load",
            SessionOperationKind::Load,
            json(r#"{ "message": "failed" }"#),
        )
        .unwrap();

    assert!(state.session("session").is_none());
    assert_eq!(
        state.take_effects(),
        vec![
            RuntimeEffect::CancelPermissionResponder {
                session_id: "session".to_string(),
                incarnation: incarnation,
                interaction_id: "permission".to_string(),
            },
            RuntimeEffect::AbortUrlFlow {
                session_id: Some("session".to_string()),
                incarnation: Some(incarnation),
                elicitation_id: "url".to_string(),
                registration_id: "elicitation".to_string(),
            },
            RuntimeEffect::ReleaseTerminal {
                session_id: "session".to_string(),
                terminal_id: "terminal".to_string(),
            },
        ]
    );
}

#[test]
fn accepted_url_elicitation_outlives_turn_and_has_a_monotonic_terminal_state() {
    let mut state = state();
    let incarnation = open(&mut state, "session");
    state
        .start_prompt("epoch", "session", incarnation, "prompt", Vec::new())
        .unwrap();
    state
        .upsert_elicitation(
            "epoch",
            Some(("session", incarnation)),
            "request-id",
            json(r#"{ "mode": "url", "elicitationId": "url-id" }"#),
        )
        .unwrap();
    state
        .resolve_elicitation(
            "epoch",
            Some(("session", incarnation)),
            "request-id",
            Some("url-id"),
        )
        .unwrap();
    let resolved_seq = state.seq();
    assert_eq!(
        state
            .resolve_elicitation(
                "epoch",
                Some(("session", incarnation)),
                "request-id",
                Some("url-id"),
            )
            .unwrap(),
        InteractionResolution::AlreadyResolved,
    );
    assert_eq!(state.seq(), resolved_seq);
    state
        .complete_prompt(
            "epoch",
            "session",
            incarnation,
            "prompt",
            json(r#"{ "stopReason": "end_turn" }"#),
        )
        .unwrap();

    assert_eq!(
        state.session("session").unwrap().url_flows.get("url-id").unwrap().status,
        UrlFlowStatus::Waiting,
    );
    assert_eq!(
        state
            .settle_url_flow(
                "epoch",
                Some(("session", incarnation)),
                "url-id",
                UrlFlowStatus::Completed,
            )
            .unwrap(),
        UrlFlowResolution::Applied,
    );
    let completed_seq = state.seq();
    assert_eq!(
        state
            .settle_url_flow(
                "epoch",
                Some(("session", incarnation)),
                "url-id",
                UrlFlowStatus::Cancelled,
            )
            .unwrap(),
        UrlFlowResolution::AlreadyTerminal,
    );
    assert_eq!(state.seq(), completed_seq);
    assert!(
        !state
            .session("session")
            .unwrap()
            .url_flows
            .contains_key("url-id")
    );
}

#[test]
fn request_scoped_elicitation_is_connection_state_not_session_state() {
    let mut state = state();
    let incarnation = open(&mut state, "session");
    state
        .upsert_elicitation("epoch", None, "request-scope", json(r#"{ "mode": "form" }"#))
        .unwrap();

    assert!(
        state
            .snapshot()
            .request_elicitations
            .contains_key("request-scope")
    );
    state
        .start_operation(
            "epoch",
            "session",
            incarnation,
            "close",
            SessionOperationKind::Close,
            "closing",
        )
        .unwrap();
    state
        .close_session("epoch", "session", incarnation, "close")
        .unwrap();
    assert!(
        state
            .snapshot()
            .request_elicitations
            .contains_key("request-scope")
    );
}

#[test]
fn elicitation_response_is_transactional_for_session_and_request_scopes() {
    let mut state = state();
    let incarnation = open(&mut state, "session");
    let session_response = "session-form-response".to_string();
    state
        .upsert_elicitation(
            "epoch",
            Some(("session", incarnation)),
            "session-form",
            json(r#"{ "mode": "form" }"#),
        )
        .unwrap();
    assert_eq!(
        state
            .begin_elicitation_response(
                "epoch",
                Some(("session", incarnation)),
                "session-form",
                &session_response,
            )
            .unwrap(),
        InteractionResponseStart::Applied,
    );
    assert_eq!(
        state
            .begin_elicitation_response(
                "epoch",
                Some(("session", incarnation)),
                "session-form",
                &session_response,
            )
            .unwrap(),
        InteractionResponseStart::Duplicate,
    );
    assert_eq!(
        state.begin_elicitation_response(
            "epoch",
            Some(("session", incarnation)),
            "session-form",
            "response-2",
        ),
        Err(RuntimeStateError::InteractionCollision),
    );
    assert_eq!(
        state.complete_elicitation_response(
            "epoch",
            Some(("session", incarnation)),
            "session-form",
            "stale-response",
            None,
        ),
        Err(RuntimeStateError::OperationMismatch),
    );
    state
        .complete_elicitation_response(
            "epoch",
            Some(("session", incarnation)),
            "session-form",
            &session_response,
            Some("url-flow"),
        )
        .unwrap();
    let session = state.session("session").unwrap();
    assert!(!session.elicitations.contains_key("session-form"));
    assert_eq!(session.url_flows.get("url-flow").unwrap().status, UrlFlowStatus::Waiting);
    assert!(!state.operation_in_use(&session_response));

    state
        .upsert_elicitation("epoch", None, "request-form", json(r#"{ "mode": "form" }"#))
        .unwrap();
    let request_response = "request-form-response".to_string();
    state
        .begin_elicitation_response("epoch", None, "request-form", &request_response)
        .unwrap();
    assert_eq!(
        state.snapshot().request_elicitations.get("request-form").unwrap()
            .responding_operation_id
            .as_deref(),
        Some(request_response.as_str()),
    );
    state
        .complete_elicitation_response("epoch", None, "request-form", &request_response, None)
        .unwrap();
    assert!(
        !state
            .snapshot()
            .request_elicitations
            .contains_key("request-form")
    );
    assert!(!state.operation_in_use(&request_response));
}

#[test]
fn same_session_reload_success_does_not_create_a_second_business_session() {
    let mut state = state();
    let incarnation = open(&mut state, "session");
    state
        .update_control_state(
            "epoch",
            "session",
            incarnation,
            "current_mode_update",
            json(r#"{ "sessionUpdate": "current_mode_update", "currentModeId": "old" }"#),
        )
        .unwrap();
    state
        .update_control_state(
            "epoch",
            "session",
            incarnation,
            "config_option_update",
            json(r#"{ "sessionUpdate": "config_option_update", "configId": "old-only" }"#),
        )
        .unwrap();
    let operation_id = "reload-intent".to_string();

    state
        .start_reload(
            "epoch",
            "session",
            incarnation,
            &operation_id,
            SessionOperationKind::Load,
        )
        .unwrap();
    state
        .append_attachment_candidate(
            "epoch",
            "session",
            incarnation,
            json(r#"{ "sessionUpdate": "agent_message_chunk", "content": "replacement-history-must-not-be-retained" }"#),
        )
        .unwrap();
    state
        .append_attachment_candidate(
            "epoch",
            "session",
            incarnation,
            json(r#"{ "sessionUpdate": "current_mode_update", "currentModeId": "new" }"#),
        )
        .unwrap();

    let staging = state.session("session").unwrap();
    assert_eq!(staging.incarnation, incarnation);
    assert!(same_json(&staging.session, &json(r#"{ "sessionId": "session" }"#)));
    assert_eq!(
        at(staging.control_state.get("current_mode_update").unwrap(), "currentModeId"),
        "old"
    );
    assert_eq!(state.live("session").unwrap().attachment_candidate.len(), 1);
    let before_complete = state.seq();

    state
        .complete_reload(
            "epoch",
            "session",
            incarnation,
            &operation_id,
            json(r#"{ "modes": { "currentModeId": "new", "availableModes": [{ "id": "new", "name": "New" }] }, "_meta": { "debugPayload": "must-not-survive-reload" } }"#),
        )
        .unwrap();

    let reloaded = state.session("session").unwrap();
    assert_eq!(state.snapshot().sessions.len(), 1);
    assert_eq!(reloaded.incarnation, incarnation);
    assert_eq!(at(&reloaded.session, "modes.currentModeId"), "new");
    assert!(
        !wire_text(&reloaded)
            .contains("must-not-survive-reload")
    );
    assert_eq!(
        at(reloaded.control_state.get("current_mode_update").unwrap(), "currentModeId"),
        "new"
    );
    assert!(!reloaded.control_state.contains_key("config_option_update"));
    assert!(reloaded.operation.is_none());
    assert!(
        state
            .live("session")
            .unwrap()
            .attachment_candidate
            .is_empty()
    );
    assert_eq!(state.live("session").unwrap().attachment_candidate_bytes, 0);
    assert!(!state.operation_in_use(&operation_id));
    assert_eq!(state.seq(), before_complete + 1);
    assert!(
        !state.snapshot_text()
            .contains("replacement-history-must-not-be-retained")
    );
}

#[test]
fn sparse_session_controls_preserve_omitted_fields_in_live_and_replay_snapshots() {
    let updates = vec![
        json(r#"{ "sessionUpdate": "session_info_update", "title": "Keep", "updatedAt": "before" }"#),
        json(r#"{ "sessionUpdate": "usage_update", "used": 1, "size": 100, "cost": { "amount": 2, "currency": "USD" } }"#),
        json(r#"{ "sessionUpdate": "session_info_update", "updatedAt": "after" }"#),
        json(r#"{ "sessionUpdate": "usage_update", "used": 3, "size": 100, "cost": null }"#),
    ];
    let mut state = state();
    let incarnation = open(&mut state, "session");
    for update in &updates {
        state
            .update_control_state(
                "epoch",
                "session",
                incarnation,
                update.text_at("sessionUpdate").unwrap(),
                update.clone(),
            )
            .unwrap();
    }
    let controls = &state.session("session").unwrap().control_state;
    assert_eq!(at(controls.get("session_info_update").unwrap(), "title"), "Keep");
    assert_eq!(at(controls.get("session_info_update").unwrap(), "updatedAt"), "after");
    assert_eq!(at(controls.get("usage_update").unwrap(), "cost.amount"), 2u64);
    let extracted = extract_control_state(&updates);
    assert_eq!(extracted.len(), controls.len());
    for index in 0..controls.len() {
        assert_eq!(extracted.key(index), controls.key(index));
        assert!(same_json(extracted.value(index), controls.value(index)));
    }
    state
        .update_control_state(
            "epoch",
            "session",
            incarnation,
            "session_info_update",
            json(r#"{ "sessionUpdate": "session_info_update", "title": null }"#),
        )
        .unwrap();
    let controls = &state.session("session").unwrap().control_state;
    assert_eq!(at(controls.get("session_info_update").unwrap(), "title"), Json::Null);
    assert_eq!(at(controls.get("session_info_update").unwrap(), "updatedAt"), "after");
}

#[test]
fn same_session_reload_error_remains_actionable_and_does_not_loop() {
    let mut state = state();
    let incarnation = open(&mut state, "session");
    state
        .update_control_state(
            "epoch",
            "session",
            incarnation,
            "current_mode_update",
            json(r#"{ "sessionUpdate": "current_mode_update", "currentModeId": "old" }"#),
        )
        .unwrap();
    let old_session = state.session("session").unwrap().session.clone();
    let old_controls = state.session("session").unwrap().control_state.duplicate();

    state
        .start_reload(
            "epoch",
            "session",
            incarnation,
            "reload",
            SessionOperationKind::Load,
        )
        .unwrap();
    state
        .append_attachment_candidate(
            "epoch",
            "session",
            incarnation,
            json(r#"{ "sessionUpdate": "current_mode_update", "currentModeId": "partial" }"#),
        )
        .unwrap();
    state
        .fail_reload(
            "epoch",
            "session",
            incarnation,
            "reload",
            json(r#"{ "message": "load rejected" }"#),
        )
        .unwrap();

    let session = state.session("session").unwrap();
    assert_eq!(session.incarnation, incarnation);
    assert_eq!(session.lifecycle, SessionLifecycle::Active);
    assert!(same_json(&session.session, &old_session));
    assert_eq!(format!("{:?}", session.control_state), format!("{old_controls:?}"));
    assert!(session.operation.is_none());
    assert!(
        state
            .live("session")
            .unwrap()
            .attachment_candidate
            .is_empty()
    );
    assert_eq!(state.live("session").unwrap().attachment_candidate_bytes, 0);
    assert!(!state.operation_in_use("reload"));
    assert!(
        !state.journal_text()
            .contains("load rejected")
    );
    state
        .start_prompt("epoch", "session", incarnation, "next-turn", Vec::new())
        .unwrap();
}

#[test]
fn same_session_reload_rejects_wrong_kind_busy_collision_and_epoch() {
    let mut state = state();
    let incarnation = open(&mut state, "session");
    let other = open(&mut state, "other");
    let unchanged = state.snapshot();

    assert_eq!(
        state.start_reload(
            "old-epoch",
            "session",
            incarnation,
            "reload",
            SessionOperationKind::Load,
        ),
        Err(RuntimeStateError::EpochMismatch)
    );
    assert_eq!(state.snapshot(), unchanged);
    assert_eq!(
        state.start_reload(
            "epoch",
            "session",
            incarnation,
            "reload",
            SessionOperationKind::Resume,
        ),
        Err(RuntimeStateError::OperationMismatch)
    );

    state
        .start_prompt("epoch", "other", other, "collision", Vec::new())
        .unwrap();
    assert_eq!(
        state.start_reload(
            "epoch",
            "session",
            incarnation,
            "collision",
            SessionOperationKind::Load,
        ),
        Err(RuntimeStateError::OperationCollision)
    );
    state
        .start_prompt("epoch", "session", incarnation, "active", Vec::new())
        .unwrap();
    assert_eq!(
        state.start_reload(
            "epoch",
            "session",
            incarnation,
            "busy",
            SessionOperationKind::Load,
        ),
        Err(RuntimeStateError::BusySession)
    );
}

#[test]
fn same_session_reload_requires_no_operation_interaction_or_live_resource() {
    fn assert_reload_busy(state: &mut RuntimeState, session_id: &str, incarnation: u64) {
        assert_eq!(
            state.start_reload(
                "epoch",
                session_id,
                incarnation,
                &format!("reload-{session_id}"),
                SessionOperationKind::Load,
            ),
            Err(RuntimeStateError::BusySession)
        );
    }

    let mut state = state();

    let operation = open(&mut state, "operation");
    state
        .start_operation(
            "epoch",
            "operation",
            operation,
            "mode",
            SessionOperationKind::SetMode,
            "setting",
        )
        .unwrap();
    assert_reload_busy(&mut state, "operation", operation);

    let permission = open(&mut state, "permission");
    state
        .upsert_permission(
            "epoch",
            "permission",
            permission,
            "permission",
            json(r#"{ "question": "allow" }"#),
        )
        .unwrap();
    assert_reload_busy(&mut state, "permission", permission);

    let elicitation = open(&mut state, "elicitation");
    state
        .upsert_elicitation(
            "epoch",
            Some(("elicitation", elicitation)),
            "elicitation",
            json(r#"{ "mode": "form" }"#),
        )
        .unwrap();
    assert_reload_busy(&mut state, "elicitation", elicitation);

    let url = open(&mut state, "url");
    state
        .upsert_elicitation(
            "epoch",
            Some(("url", url)),
            "url-form",
            json(r#"{ "mode": "url" }"#),
        )
        .unwrap();
    state
        .resolve_elicitation("epoch", Some(("url", url)), "url-form", Some("url-flow"))
        .unwrap();
    assert_reload_busy(&mut state, "url", url);

    let terminal = open(&mut state, "terminal");
    state
        .upsert_terminal(
            "epoch",
            "terminal",
            terminal,
            "terminal",
            json(r#"{ "released": false }"#),
        )
        .unwrap();
    assert_reload_busy(&mut state, "terminal", terminal);
}

#[test]
fn completed_url_identifiers_can_be_reused_in_session_and_request_scopes() {
    let mut state = state();
    let incarnation = open(&mut state, "session");
    for scope in [Some(("session", incarnation)), None] {
        for index in 0..2 {
            let interaction = format!("{scope:?}-{index}");
            state
                .upsert_elicitation("epoch", scope, &interaction, json(r#"{"mode": "url"}"#))
                .unwrap();
            state
                .resolve_elicitation("epoch", scope, &interaction, Some("reusable"))
                .unwrap();
            assert_eq!(
                state
                    .settle_url_flow("epoch", scope, "reusable", UrlFlowStatus::Completed)
                    .unwrap(),
                UrlFlowResolution::Applied
            );
        }
    }
}

#[test]
fn url_registration_fences_reuse_without_exposing_internal_identity() {
    for request_scoped in [false, true] {
        let mut state = state();
        let incarnation = open(&mut state, "session");
        let scope = (!request_scoped).then_some(("session", incarnation));
        for interaction in ["old-registration", "new-registration"] {
            state
                .upsert_elicitation("epoch", scope, interaction, json(r#"{ "mode": "url" }"#))
                .unwrap();
            state
                .resolve_elicitation("epoch", scope, interaction, Some("reusable-url"))
                .unwrap();
            if interaction == "old-registration" {
                assert_eq!(
                    state
                        .settle_url_registration(
                            "epoch",
                            scope,
                            "reusable-url",
                            interaction,
                            UrlFlowStatus::Completed
                        )
                        .unwrap(),
                    UrlFlowResolution::Applied
                );
            }
        }
        let seq = state.seq();
        assert_eq!(
            state
                .settle_url_registration(
                    "epoch",
                    scope,
                    "reusable-url",
                    "old-registration",
                    UrlFlowStatus::Cancelled
                )
                .unwrap(),
            UrlFlowResolution::StaleRegistration
        );
        assert_eq!(state.seq(), seq);
        let flow = if request_scoped {
            state.snapshot().request_url_flows.get("reusable-url").unwrap().duplicate()
        } else {
            state.session("session").unwrap().url_flows.get("reusable-url").unwrap().duplicate()
        };
        assert_eq!(flow.registration_id, "new-registration");
        assert_eq!(
            Found(flow.to_json()),
            json(r#"{ "elicitationId": "reusable-url", "request": { "mode": "url" }, "status": "waiting" }"#)
        );
        assert_eq!(
            state
                .settle_url_registration(
                    "epoch",
                    scope,
                    "reusable-url",
                    "new-registration",
                    UrlFlowStatus::Cancelled
                )
                .unwrap(),
            UrlFlowResolution::Applied
        );
    }
}

#[test]
fn settled_url_flows_are_removed_from_live_state_but_remain_idempotent() {
    let mut state = state();
    let incarnation = open(&mut state, "session");
    state
        .upsert_elicitation(
            "epoch",
            Some(("session", incarnation)),
            "form",
            json(r#"{ "mode": "url" }"#),
        )
        .unwrap();
    state
        .resolve_elicitation("epoch", Some(("session", incarnation)), "form", Some("url"))
        .unwrap();

    assert_eq!(
        state
            .settle_url_flow(
                "epoch",
                Some(("session", incarnation)),
                "url",
                UrlFlowStatus::Completed,
            )
            .unwrap(),
        UrlFlowResolution::Applied
    );
    assert!(
        !state
            .session("session")
            .unwrap()
            .url_flows
            .contains_key("url")
    );
    let settled_seq = state.seq();
    assert_eq!(
        state
            .settle_url_flow(
                "epoch",
                Some(("session", incarnation)),
                "url",
                UrlFlowStatus::Cancelled,
            )
            .unwrap(),
        UrlFlowResolution::AlreadyTerminal
    );
    assert_eq!(state.seq(), settled_seq);

    state
        .upsert_elicitation("epoch", None, "request-form", json(r#"{ "mode": "url" }"#))
        .unwrap();
    state
        .resolve_elicitation("epoch", None, "request-form", Some("request-url"))
        .unwrap();
    assert_eq!(
        state
            .settle_url_flow("epoch", None, "request-url", UrlFlowStatus::Cancelled)
            .unwrap(),
        UrlFlowResolution::Applied
    );
    assert!(!state.snapshot().request_url_flows.contains_key("request-url"));
    let request_settled_seq = state.seq();
    assert_eq!(
        state
            .settle_url_flow("epoch", None, "request-url", UrlFlowStatus::Completed)
            .unwrap(),
        UrlFlowResolution::AlreadyTerminal
    );
    assert_eq!(state.seq(), request_settled_seq);
}

#[test]
fn released_terminal_is_not_retained_or_resurrected() {
    let mut state = state();
    let incarnation = open(&mut state, "session");
    state
        .upsert_terminal(
            "epoch",
            "session",
            incarnation,
            "terminal",
            json(r#"{ "output": "running", "released": false }"#),
        )
        .unwrap();
    state
        .upsert_terminal(
            "epoch",
            "session",
            incarnation,
            "terminal",
            json(r#"{ "output": "released-output", "released": true }"#),
        )
        .unwrap();

    assert!(
        !state
            .session("session")
            .unwrap()
            .terminals
            .contains_key("terminal")
    );
    assert!(
        !state.snapshot_text()
            .contains("released-output")
    );
    let released_seq = state.seq();
    assert_eq!(
        state
            .upsert_terminal(
                "epoch",
                "session",
                incarnation,
                "terminal",
                json(r#"{ "output": "late", "released": false }"#),
            )
            .unwrap(),
        TerminalUpsert::Stale
    );
    assert_eq!(state.seq(), released_seq);
}

#[test]
fn terminal_deltas_are_linear_and_reassemble_split_utf8_before_exit() {
    let mut state = state();
    let incarnation = open(&mut state, "session");
    let start = state.seq();
    let bytes = "中😀tail".as_bytes();
    for (index, byte) in bytes.iter().enumerate() {
        state
            .upsert_terminal(
                "epoch",
                "session",
                incarnation,
                "terminal",
                json(&format!(
                    r#"{{ "sessionId": "session", "terminalId": "terminal", "output": "{}", "outputBytes": "{}", "outputAppend": true, "retainedBytes": {}, "released": false }}"#,
                    String::from_utf8_lossy(&[*byte]),
                    BASE64_STANDARD.encode([*byte]),
                    index + 1
                )),
            )
            .unwrap();
        let live = state.live("session").unwrap();
        let terminal = live.terminals.get("terminal").unwrap();
        let output = terminal.text_at("output").unwrap();
        assert!(
            !output.contains('\u{fffd}'),
            "incomplete UTF-8 must wait for its next byte"
        );
    }
    let session = state.session("session").unwrap();
    let terminal = session.terminals.get("terminal").unwrap();
    assert_eq!(at(terminal, "output"), "中😀tail");
    assert_eq!(
        BASE64_STANDARD
            .decode(terminal.text_at("outputBytes").unwrap())
            .unwrap(),
        bytes
    );
    let deltas = state.deltas_after(start).unwrap();
    assert_eq!(deltas.len(), bytes.len());
    assert_eq!(
        deltas
            .iter()
            .map(|delta| {
                let RuntimeChange::TerminalUpdated { terminal, .. } = &delta.change else {
                    panic!("output must not republish a whole runtime session");
                };
                BASE64_STANDARD
                    .decode(terminal.text_at("outputBytes").unwrap())
                    .unwrap()
                    .len()
            })
            .sum::<usize>(),
        bytes.len()
    );

    state
        .upsert_terminal(
            "epoch",
            "session",
            incarnation,
            "terminal",
            json(&format!(
                r#"{{ "output": "!", "outputBytes": "{}", "outputAppend": true, "retainedBytes": 8, "released": false }}"#,
                BASE64_STANDARD.encode(b"!")
            )),
        )
        .unwrap();
    assert_eq!(
        at(state.session("session").unwrap().terminals.get("terminal").unwrap(), "output"),
        "tail!"
    );
}

#[test]
fn authoritative_load_replaces_controls_without_retiring_live_resources() {
    let mut state = state();
    let incarnation = open(&mut state, "session");
    state
        .upsert_terminal(
            "epoch",
            "session",
            incarnation,
            "terminal",
            json(r#"{ "output": "running", "released": false }"#),
        )
        .unwrap();
    state
        .synchronize_loaded_session(
            "epoch",
            "session",
            incarnation,
            json(r#"{ "modes": { "currentModeId": "plan" } }"#),
            vec![json(r#"{ "sessionUpdate": "available_commands_update", "availableCommands": [{ "name": "inspect" }] }"#)],
        )
        .unwrap();

    let session = state.session("session").unwrap();
    assert!(
        session
            .control_state
            .contains_key("available_commands_update")
    );
    assert!(session.terminals.contains_key("terminal"));
}
