//! Sessions: how they are opened, changed, closed and deleted.
use attyd::fold::{RuntimeStateError};
use attyd::json::{same_json, Json};
use attyd::registry::turns::{StartedTurn, TurnAdmission};
use attyd::registry::SessionRegistry;
use attyd::runtime_types::{InteractionResolution, InteractionResponseStart, InteractionUpsert, MirrorError, MirrorPhase, RuntimeChange, RuntimeDelta, RuntimeEffect, RuntimeSnapshot, SessionAdmission, SessionLifecycle, SessionOperationKind, SessionTurnError, TerminalUpsert, TurnExecution, TurnOverlay};
use attyd::wire::Wire;
use std::ops::{Deref, DerefMut};

fn json(text: &str) -> Json {
    Json::parse(text).unwrap()
}

/// A value inside another one, found by the names on the way to it.
#[derive(Debug)]
struct Found(Json);

fn at(value: &Json, path: &str) -> Found {
    let mut here = value;
    for step in path.split('.') {
        here = match step.parse::<usize>() {
            Ok(index) => &here.as_array().unwrap()[index],
            Err(_) => match here.get(step) {
                Some(next) => next,
                None => &Json::Null,
            },
        };
    }
    Found(here.clone())
}

impl PartialEq<&str> for Found {
    fn eq(&self, other: &&str) -> bool {
        self.0.as_str() == Some(*other)
    }
}

impl PartialEq<Json> for Found {
    fn eq(&self, other: &Json) -> bool {
        same_json(&self.0, other)
    }
}

impl PartialEq<u64> for Found {
    fn eq(&self, other: &u64) -> bool {
        self.0.as_u64() == Some(*other)
    }
}

fn wire_text<T: Wire>(value: &T) -> String {
    value.to_json().to_text()
}

fn deltas_text(deltas: &[RuntimeDelta]) -> String {
    deltas.iter().map(wire_text).collect::<Vec<_>>().join(",")
}

fn texts(values: &[Json]) -> Vec<String> {
    values.iter().map(|value| value.to_text()).collect()
}

/// A snapshot that can be compared.
struct Shown(RuntimeSnapshot);

impl Deref for Shown {
    type Target = RuntimeSnapshot;

    fn deref(&self) -> &RuntimeSnapshot {
        &self.0
    }
}

impl PartialEq for Shown {
    fn eq(&self, other: &Shown) -> bool {
        wire_text(&self.0) == wire_text(&other.0)
    }
}

impl std::fmt::Debug for Shown {
    fn fmt(&self, f: &mut std::fmt::Formatter) -> std::fmt::Result {
        f.write_str(&wire_text(&self.0))
    }
}

/// The registry of one connection, with a history that admits everything.
struct RuntimeState {
    registry: SessionRegistry,
}

impl Deref for RuntimeState {
    type Target = SessionRegistry;

    fn deref(&self) -> &SessionRegistry {
        &self.registry
    }
}

impl DerefMut for RuntimeState {
    fn deref_mut(&mut self) -> &mut SessionRegistry {
        &mut self.registry
    }
}

type Outcome<T> = Result<T, RuntimeStateError>;
type Kind = SessionOperationKind;

#[allow(dead_code)]
impl RuntimeState {
    fn new(epoch: &str) -> Self {
        RuntimeState { registry: SessionRegistry::new(epoch) }
    }

    fn snapshot(&self) -> Shown {
        Shown(self.registry.snapshot())
    }

    fn snapshot_text(&self) -> String {
        wire_text(&self.registry.snapshot())
    }

    fn journal_text(&self) -> String {
        format!("{:?}", self.registry.journal())
    }

    fn owner_text(&self, id: &str) -> String {
        format!("{:?}", self.registry.state(id).unwrap())
    }

    fn open_new(&mut self, epoch: &str, id: &str, cwd: &str, session: Json) -> Outcome<u64> {
        self.registry.open_new(epoch, id, cwd, &session)
    }

    fn open_new_with_replay(
        &mut self,
        epoch: &str,
        id: &str,
        cwd: &str,
        session: Json,
        replay: Vec<Json>,
    ) -> Outcome<u64> {
        self.registry.open_new_with_replay(epoch, id, cwd, &session, &replay)
    }

    fn open_forked(
        &mut self,
        epoch: &str,
        id: &str,
        cwd: &str,
        session: Json,
        source: (&str, u64),
        replay: Option<Vec<Json>>,
    ) -> Outcome<u64> {
        self.registry.open_forked(epoch, id, cwd, &session, source, replay.as_ref())
    }

    fn append_runtime_update(
        &mut self,
        epoch: &str,
        id: &str,
        incarnation: u64,
        update: Json,
    ) -> Outcome<()> {
        self.registry.append_runtime_update(epoch, id, incarnation, &update)
    }

    fn append_attachment_candidate(
        &mut self,
        epoch: &str,
        id: &str,
        incarnation: u64,
        update: Json,
    ) -> Outcome<()> {
        self.registry.append_attachment_candidate(epoch, id, incarnation, &update)
    }

    fn complete_prompt(
        &mut self,
        epoch: &str,
        id: &str,
        incarnation: u64,
        operation: &str,
        result: Json,
    ) -> Outcome<()> {
        self.registry.complete_prompt(epoch, id, incarnation, operation, &result)
    }

    fn fail_prompt(
        &mut self,
        epoch: &str,
        id: &str,
        incarnation: u64,
        operation: &str,
        error: Json,
    ) -> Outcome<()> {
        self.registry.fail_prompt(epoch, id, incarnation, operation, &error)
    }

    fn start_operation(
        &mut self,
        epoch: &str,
        id: &str,
        incarnation: u64,
        operation: &str,
        kind: Kind,
        stage: &str,
    ) -> Outcome<()> {
        self.registry.start_operation(epoch, id, incarnation, operation, kind, stage, true)
    }

    fn start_reload(
        &mut self,
        epoch: &str,
        id: &str,
        incarnation: u64,
        operation: &str,
        kind: Kind,
    ) -> Outcome<()> {
        self.registry.start_reload(epoch, id, incarnation, operation, kind, true)
    }

    fn start_delete(
        &mut self,
        epoch: &str,
        id: &str,
        incarnation: u64,
        operation: &str,
    ) -> Outcome<()> {
        self.registry.start_delete(epoch, id, incarnation, operation, true)
    }

    fn complete_reload(
        &mut self,
        epoch: &str,
        id: &str,
        incarnation: u64,
        operation: &str,
        response: Json,
    ) -> Outcome<()> {
        self.registry.complete_reload(epoch, id, incarnation, operation, &response)
    }

    fn fail_reload(
        &mut self,
        epoch: &str,
        id: &str,
        incarnation: u64,
        operation: &str,
        error: Json,
    ) -> Outcome<()> {
        self.registry.fail_reload(epoch, id, incarnation, operation, &error)
    }

    fn complete_attachment(
        &mut self,
        epoch: &str,
        id: &str,
        incarnation: u64,
        operation: &str,
        kind: Kind,
        response: Json,
    ) -> Outcome<()> {
        self.registry.complete_attachment(epoch, id, incarnation, operation, kind, &response)
    }

    fn fail_attachment(
        &mut self,
        epoch: &str,
        id: &str,
        incarnation: u64,
        operation: &str,
        kind: Kind,
        error: Json,
    ) -> Outcome<()> {
        self.registry.fail_attachment(epoch, id, incarnation, operation, kind, &error)
    }

    fn synchronize_loaded_session(
        &mut self,
        epoch: &str,
        id: &str,
        incarnation: u64,
        response: Json,
        replay: Vec<Json>,
    ) -> Outcome<()> {
        self.registry.synchronize_loaded_session(epoch, id, incarnation, &response, &replay)
    }

    fn upsert_permission(
        &mut self,
        epoch: &str,
        id: &str,
        incarnation: u64,
        interaction: &str,
        request: Json,
    ) -> Outcome<InteractionUpsert> {
        self.registry.upsert_permission(epoch, id, incarnation, interaction, &request)
    }

    fn upsert_elicitation(
        &mut self,
        epoch: &str,
        scope: Option<(&str, u64)>,
        interaction: &str,
        request: Json,
    ) -> Outcome<InteractionUpsert> {
        self.registry.upsert_elicitation(epoch, scope, interaction, &request)
    }

    fn upsert_terminal(
        &mut self,
        epoch: &str,
        id: &str,
        incarnation: u64,
        terminal_id: &str,
        terminal: Json,
    ) -> Outcome<TerminalUpsert> {
        self.registry.upsert_terminal(epoch, id, incarnation, terminal_id, &terminal)
    }

    fn complete_operation(
        &mut self,
        epoch: &str,
        id: &str,
        incarnation: u64,
        operation: &str,
        kind: Kind,
        result: Json,
    ) -> Outcome<()> {
        self.registry.complete_operation(epoch, id, incarnation, operation, kind, &result)
    }

    fn complete_control_operation(
        &mut self,
        epoch: &str,
        id: &str,
        incarnation: u64,
        operation: &str,
        kind: Kind,
        key: &str,
        update: Json,
        result: Json,
    ) -> Outcome<()> {
        self.registry
            .complete_control_operation(epoch, id, incarnation, operation, kind, key, update, &result)
    }

    fn fail_operation(
        &mut self,
        epoch: &str,
        id: &str,
        incarnation: u64,
        operation: &str,
        kind: Kind,
        error: Json,
    ) -> Outcome<()> {
        self.registry.fail_operation(epoch, id, incarnation, operation, kind, &error)
    }

    /// Admits a turn that the history of the session has room for.
    fn admit_session_turn(
        &mut self,
        epoch: &str,
        id: &str,
        incarnation: u64,
        intent: &str,
        prompt: Vec<Json>,
    ) -> Result<TurnAdmission, SessionTurnError> {
        let known = match self.registry.state(id) {
            Some(owner) => match &owner.active_turn {
                Some(turn) if turn.client_intent_id == intent => Some(TurnAdmission::Duplicate {
                    operation_id: turn.operation_id.clone(),
                }),
                _ => None,
            },
            None => None,
        };
        let operation_id = format!("turn-{intent}");
        let started = StartedTurn {
            admission: TurnAdmission::Accepted { operation_id: operation_id.clone() },
            turn: TurnOverlay {
                operation_id,
                client_intent_id: intent.to_string(),
                prompt,
                updates: Vec::new(),
                execution: Some(TurnExecution {
                    rpc_operation_id: intent.to_string(),
                    cancel_requested: false,
                }),
            },
            phase: MirrorPhase::Running,
        };
        self.registry
            .admit_session_turn(epoch, id, incarnation, intent, Ok(known), Ok(started))
    }
}

fn state() -> RuntimeState {
    RuntimeState::new("epoch")
}

fn open(state: &mut RuntimeState, session_id: &str) -> u64 {
    state
        .open_new(
            "epoch",
            session_id,
            &format!("/{session_id}"),
            json(&format!(r#"{{ "sessionId": "{session_id}" }}"#)),
        )
        .unwrap()
}

fn start_prompt_operation(
    state: &mut RuntimeState,
    session_id: &str,
    incarnation: u64,
    operation_id: &str,
    prompt: Vec<Json>,
) -> String {
    state
        .start_prompt("epoch", session_id, incarnation, operation_id, prompt)
        .unwrap();
    operation_id.to_string()
}

#[test]
fn streaming_turn_deltas_do_not_republish_the_full_active_tail() {
    let mut state = RuntimeState::new("epoch");
    let incarnation = open(&mut state, "session");
    state
        .start_prompt("epoch", "session", incarnation, "prompt", Vec::new())
        .unwrap();
    let before = state.seq();
    for index in 0..100 {
        state
            .append_runtime_update(
                "epoch",
                "session",
                incarnation,
                json(&format!(r#"{{ "index": {index}, "text": "{}" }}"#, "x".repeat(128))),
            )
            .unwrap();
    }

    let deltas = state.deltas_after(before).unwrap();
    let sizes = deltas
        .iter()
        .map(|delta| wire_text(delta).len())
        .collect::<Vec<usize>>();
    assert_eq!(sizes.len(), 100);
    assert!(
        sizes.last().unwrap() <= &(sizes[0] * 2),
        "constant-sized chunks must produce constant-sized deltas: {sizes:?}"
    );
    assert!(
        sizes.iter().sum::<usize>() <= sizes[0] * sizes.len() * 2,
        "stream publication must grow linearly with the chunk count"
    );
}

#[test]
fn controls_and_close_coexist_with_an_active_prompt() {
    let mut state = state();
    let incarnation = open(&mut state, "session");
    state
        .start_prompt("epoch", "session", incarnation, "prompt", Vec::new())
        .unwrap();
    for kind in [
        SessionOperationKind::SetMode,
        SessionOperationKind::SetConfig,
    ] {
        state
            .start_operation("epoch", "session", incarnation, "control", kind, "changing")
            .unwrap();
        assert!(state.session("session").unwrap().active_turn.is_some());
        state
            .fail_operation(
                "epoch",
                "session",
                incarnation,
                "control",
                kind,
                json(r#"{"message":"rejected"}"#),
            )
            .unwrap();
    }
    state
        .start_operation(
            "epoch",
            "session",
            incarnation,
            "close",
            SessionOperationKind::Close,
            "closing",
        )
        .unwrap();
    state
        .complete_prompt(
            "epoch",
            "session",
            incarnation,
            "prompt",
            json(r#"{"stopReason":"cancelled"}"#),
        )
        .unwrap();
    assert_eq!(
        state.session("session").unwrap().lifecycle,
        SessionLifecycle::Closing
    );
    state
        .close_session("epoch", "session", incarnation, "close")
        .unwrap();
    assert!(state.session("session").is_none());
}

#[test]
fn different_sessions_progress_independently() {
    let mut state = state();
    let a = open(&mut state, "a");
    let b = open(&mut state, "b");
    state
        .start_prompt("epoch", "a", a, "prompt-a", Vec::new())
        .unwrap();
    state
        .start_prompt("epoch", "b", b, "prompt-b", Vec::new())
        .unwrap();
    assert_eq!(
        state.start_operation(
            "epoch",
            "a",
            a,
            "close-a",
            SessionOperationKind::Close,
            "closing",
        ),
        Ok(()),
    );
    state
        .complete_prompt(
            "epoch",
            "b",
            b,
            "prompt-b",
            json(r#"{ "stopReason": "end_turn" }"#),
        )
        .unwrap();
    assert!(state.session("a").unwrap().active_turn.is_some());
    assert!(state.session("b").unwrap().active_turn.is_none());
}

#[test]
fn possible_agent_commit_is_reported_as_uncertain() {
    let mut state = state();
    let incarnation = open(&mut state, "session");
    state
        .start_prompt("epoch", "session", incarnation, "prompt", Vec::new())
        .unwrap();
    state
        .mark_prompt_uncertain(
            "epoch",
            "session",
            incarnation,
            "prompt",
            "transport lost after dispatch",
        )
        .unwrap();

    let session = state.session("session").unwrap();
    assert_eq!(session.lifecycle, SessionLifecycle::Uncertain);
    assert!(session.active_turn.is_none());
}

#[test]
fn uncertain_prompt_terminal_is_one_atomic_commit() {
    let mut state = state();
    let incarnation = open(&mut state, "session");
    state
        .start_prompt("epoch", "session", incarnation, "prompt", Vec::new())
        .unwrap();
    let before = state.seq();

    state
        .mark_prompt_uncertain(
            "epoch",
            "session",
            incarnation,
            "prompt",
            "response lost after dispatch",
        )
        .unwrap();

    assert_eq!(state.seq(), before + 1);
    let deltas = state.deltas_after(before).unwrap();
    assert_eq!(deltas.len(), 1);
    let RuntimeChange::SessionUpsert { session } = &deltas[0].change else {
        panic!("uncertain prompt did not publish a session update")
    };
    assert_eq!(session.lifecycle, SessionLifecycle::Uncertain);
    assert!(session.active_turn.is_none());
    assert!(
        !deltas_text(&deltas)
            .contains("response lost after dispatch")
    );
}

#[test]
fn prompt_failure_retires_partial_turn_and_operation_payload() {
    let mut state = state();
    let incarnation = open(&mut state, "session");
    let operation_id = "prompt".to_string();
    state
        .start_prompt(
            "epoch",
            "session",
            incarnation,
            &operation_id,
            vec![json(r#""hello""#)],
        )
        .unwrap();
    state
        .append_runtime_update("epoch", "session", incarnation, json(r#""partial""#))
        .unwrap();
    state
        .fail_prompt(
            "epoch",
            "session",
            incarnation,
            &operation_id,
            json(r#"{ "code": -32000 }"#),
        )
        .unwrap();

    assert!(!state.operation_in_use(&operation_id));
    let session = state.session("session").unwrap();
    assert!(session.active_turn.is_none());
    assert_eq!(
        state.append_runtime_update("epoch", "session", incarnation, json(r#""late""#)),
        Err(RuntimeStateError::NoActiveTurn),
    );
}

#[test]
fn cancelled_prompt_response_retires_the_intent_outcome() {
    let mut state = state();
    let incarnation = open(&mut state, "session");
    let operation_id = "prompt".to_string();
    state
        .start_prompt("epoch", "session", incarnation, &operation_id, Vec::new())
        .unwrap();
    state
        .request_cancel("epoch", "session", incarnation)
        .unwrap();
    state
        .complete_prompt(
            "epoch",
            "session",
            incarnation,
            &operation_id,
            json(r#"{ "stopReason": "cancelled" }"#),
        )
        .unwrap();

    assert!(!state.operation_in_use(&operation_id));
    assert!(state.session("session").unwrap().active_turn.is_none());
}

#[test]
fn resolving_an_interaction_twice_is_idempotent() {
    let mut state = state();
    let incarnation = open(&mut state, "session");
    state
        .upsert_permission(
            "epoch",
            "session",
            incarnation,
            "permission",
            json(r#"{ "options": ["allow"] }"#),
        )
        .unwrap();

    assert_eq!(
        state
            .resolve_permission("epoch", "session", incarnation, "permission")
            .unwrap(),
        InteractionResolution::Applied,
    );
    let settled_seq = state.seq();
    assert_eq!(
        state
            .resolve_permission("epoch", "session", incarnation, "permission")
            .unwrap(),
        InteractionResolution::AlreadyResolved,
    );
    assert_eq!(state.seq(), settled_seq);
}

#[test]
fn permission_response_is_visible_and_exactly_correlated() {
    let mut state = state();
    let incarnation = open(&mut state, "session");
    let response_operation = "permission-response".to_string();
    state
        .upsert_permission(
            "epoch",
            "session",
            incarnation,
            "permission",
            json(r#"{ "options": ["allow"] }"#),
        )
        .unwrap();

    assert_eq!(
        state
            .begin_permission_response(
                "epoch",
                "session",
                incarnation,
                "permission",
                &response_operation,
            )
            .unwrap(),
        InteractionResponseStart::Applied,
    );
    let responding_seq = state.seq();
    assert_eq!(
        state.session("session").unwrap().permissions.get("permission").unwrap()
            .responding_operation_id
            .as_deref(),
        Some(response_operation.as_str()),
    );
    assert_eq!(
        state
            .begin_permission_response(
                "epoch",
                "session",
                incarnation,
                "permission",
                &response_operation,
            )
            .unwrap(),
        InteractionResponseStart::Duplicate,
    );
    assert_eq!(state.seq(), responding_seq);
    assert_eq!(
        state.begin_permission_response(
            "epoch",
            "session",
            incarnation,
            "permission",
            "response-2",
        ),
        Err(RuntimeStateError::InteractionCollision),
    );

    let before_stale_completion = state.snapshot();
    assert_eq!(
        state.complete_permission_response(
            "epoch",
            "session",
            incarnation,
            "permission",
            "stale-response",
        ),
        Err(RuntimeStateError::OperationMismatch),
    );
    assert_eq!(state.snapshot(), before_stale_completion);
    assert_eq!(
        state
            .complete_permission_response(
                "epoch",
                "session",
                incarnation,
                "permission",
                &response_operation,
            )
            .unwrap(),
        InteractionResolution::Applied,
    );
    assert!(state.session("session").unwrap().permissions.is_empty());
    assert!(!state.operation_in_use(&response_operation));
}

#[test]
fn delta_resume_rejects_future_sequence_and_preserves_all_deltas() {
    let mut state = RuntimeState::new("epoch");
    open(&mut state, "a");
    open(&mut state, "b");
    open(&mut state, "c");

    assert!(state.deltas_after(state.seq() + 1).is_none());
    assert_eq!(state.deltas_after(0).unwrap().len(), 3);
    assert_eq!(state.deltas_after(1).unwrap().len(), 2);
}

#[test]
fn close_then_delete_is_irreversible_and_partial_failure_stays_closed() {
    let mut state = state();
    let incarnation = open(&mut state, "session");
    state
        .start_delete("epoch", "session", incarnation, "delete-operation")
        .unwrap();
    assert_eq!(
        state.session("session").unwrap().lifecycle,
        SessionLifecycle::ClosingForDelete,
    );

    state
        .delete_close_succeeded("epoch", "session", incarnation, "delete-operation")
        .unwrap();
    assert_eq!(
        state.session("session").unwrap().lifecycle,
        SessionLifecycle::Deleting,
    );

    state
        .fail_operation(
            "epoch",
            "session",
            incarnation,
            "delete-operation",
            SessionOperationKind::Delete,
            json(r#""delete failed""#),
        )
        .unwrap();
    let session = state.session("session").unwrap();
    assert_eq!(session.lifecycle, SessionLifecycle::Closed);
    assert!(session.operation.is_none());
    assert!(!state.operation_in_use("delete-operation"));
    assert_eq!(
        state.start_prompt("epoch", "session", incarnation, "late", Vec::new()),
        Err(RuntimeStateError::SessionNotActive),
    );
}

#[test]
fn reopening_a_closed_session_uses_a_new_incarnation() {
    let mut state = state();
    let first = open(&mut state, "session");
    state
        .start_operation(
            "epoch",
            "session",
            first,
            "close",
            SessionOperationKind::Close,
            "closing",
        )
        .unwrap();
    state
        .close_session("epoch", "session", first, "close")
        .unwrap();
    state
        .finish_session_cleanup("session", first, SessionAdmission::Close, "close")
        .unwrap();
    let second = open(&mut state, "session");

    assert_ne!(first, second);
    assert_eq!(
        state.start_prompt("epoch", "session", first, "stale", Vec::new()),
        Err(RuntimeStateError::StaleIncarnation),
    );
    assert!(state.session("session").unwrap().active_turn.is_none());
}

#[test]
fn canonical_control_accessors_apply_updates_and_preserve_available_choices() {
    let mut state = state();
    let modes = json(r#"{ "currentModeId": "build", "availableModes": [ { "id": "build", "name": "Build" }, { "id": "plan", "name": "Plan" } ] }"#);
    let options = json(r#"[{ "id": "verbose", "name": "Verbose", "type": "boolean", "currentValue": false }]"#);
    let incarnation = state
        .open_new(
            "epoch",
            "session",
            "/workspace",
            json(&format!(r#"{{ "modes": {}, "configOptions": {} }}"#, modes.to_text(), options.to_text())),
        )
        .unwrap();
    assert!(same_json(&state.live("session").unwrap().config_options(), &options));
    state
        .update_control_state(
            "epoch",
            "session",
            incarnation,
            "current_mode_update",
            json(r#"{ "sessionUpdate": "current_mode_update", "currentModeId": "plan" }"#),
        )
        .unwrap();
    state
        .update_control_state(
            "epoch",
            "session",
            incarnation,
            "config_option_update",
            json(r#"{ "sessionUpdate": "config_option_update", "configOptions": [] }"#),
        )
        .unwrap();
    let live = state.live("session").unwrap();
    assert!(same_json(live.modes().unwrap(), &modes));
    assert_eq!(live.current_mode_id(), Some("plan"));
    assert!(same_json(&live.config_options(), &json(r#"[]"#)));
    attyd::semantic::validate_session_mode_reference(live.modes(), "build").unwrap();
    attyd::semantic::validate_session_mode_reference(live.modes(), "plan").unwrap();
    assert!(
        attyd::semantic::validate_session_config_reference(
            &live.config_options(),
            "verbose",
            &json(r#"true"#)
        )
        .is_err()
    );
    // An authoritative response replaces both the baseline and its overlay.
    state
        .start_reload(
            "epoch",
            "session",
            incarnation,
            "reload",
            SessionOperationKind::Load,
        )
        .unwrap();
    state
        .complete_reload(
            "epoch",
            "session",
            incarnation,
            "reload",
            json(&format!(r#"{{ "modes": {}, "configOptions": {} }}"#, modes.to_text(), options.to_text())),
        )
        .unwrap();
    let live = state.live("session").unwrap();
    assert_eq!(live.current_mode_id(), Some("build"));
    assert!(same_json(&live.config_options(), &options));
}

#[test]
fn fork_keeps_only_target_control_metadata() {
    let mut state = state();
    let source = open(&mut state, "source");
    state
        .start_prompt("epoch", "source", source, "prompt", vec![json(r#""Q""#)])
        .unwrap();
    state
        .append_runtime_update("epoch", "source", source, json(r#""A""#))
        .unwrap();
    state
        .complete_prompt(
            "epoch",
            "source",
            source,
            "prompt",
            json(r#"{ "stopReason": "end_turn" }"#),
        )
        .unwrap();
    state
        .upsert_permission(
            "epoch",
            "source",
            source,
            "permission",
            json(r#"{ "question": "allow" }"#),
        )
        .unwrap();
    state
        .upsert_terminal(
            "epoch",
            "source",
            source,
            "terminal",
            json(r#"{ "output": "live" }"#),
        )
        .unwrap();

    state
        .open_forked(
            "epoch",
            "derived",
            "/derived",
            json(r#"{ "sessionId": "derived" }"#),
            ("source", source),
            None,
        )
        .unwrap();
    let derived = state.session("derived").unwrap();
    assert!(derived.permissions.is_empty());
    assert!(derived.terminals.is_empty());
    assert!(derived.active_turn.is_none());
    let derived_payload = wire_text(&derived);
    assert!(!derived_payload.contains("Q"));
    assert!(!derived_payload.contains("A"));

    state
        .open_forked(
            "epoch",
            "replayed",
            "/replayed",
            json(r#"{ "sessionId": "replayed" }"#),
            ("source", source),
            Some(vec![
                json(r#"{ "sessionUpdate": "agent_message_chunk", "content": "target-conversation" }"#),
                json(r#"{ "sessionUpdate": "current_mode_update", "currentModeId": "plan" }"#),
            ]),
        )
        .unwrap();
    let replayed = state.session("replayed").unwrap();
    assert_eq!(
        at(replayed.control_state.get("current_mode_update").unwrap(), "currentModeId"),
        "plan"
    );
    assert!(
        !wire_text(&replayed)
            .contains("target-conversation")
    );
}

#[test]
fn operation_identity_cannot_be_active_in_two_sessions() {
    let mut state = state();
    let a = open(&mut state, "a");
    let b = open(&mut state, "b");
    state
        .start_prompt("epoch", "a", a, "same-operation", Vec::new())
        .unwrap();

    assert_eq!(
        state.start_prompt("epoch", "b", b, "same-operation", Vec::new()),
        Err(RuntimeStateError::OperationCollision),
    );
    assert!(state.session("a").unwrap().active_turn.is_some());
    assert!(state.session("b").unwrap().active_turn.is_none());
}

#[test]
fn retired_operation_identity_can_be_reused() {
    let mut state = state();
    let a = open(&mut state, "a");
    let b = open(&mut state, "b");
    state
        .start_prompt("epoch", "a", a, "same-operation", Vec::new())
        .unwrap();
    state
        .complete_prompt(
            "epoch",
            "a",
            a,
            "same-operation",
            json(r#"{ "stopReason": "end_turn" }"#),
        )
        .unwrap();
    assert_eq!(
        state
            .start_prompt("epoch", "b", b, "same-operation", Vec::new())
            .unwrap(),
        "same-operation"
    );
    assert!(state.session("a").unwrap().active_turn.is_none());
    assert!(state.session("b").unwrap().active_turn.is_some());
}

#[test]
fn duplicate_cancel_request_is_idempotent() {
    let mut state = state();
    let incarnation = open(&mut state, "session");
    state
        .start_prompt("epoch", "session", incarnation, "prompt", Vec::new())
        .unwrap();
    state
        .request_cancel("epoch", "session", incarnation)
        .unwrap();
    let first_cancel_seq = state.seq();

    state
        .request_cancel("epoch", "session", incarnation)
        .unwrap();

    assert_eq!(state.seq(), first_cancel_seq);
    assert!(
        state
            .session("session")
            .unwrap()
            .active_turn
            .as_ref()
            .unwrap()
            .cancel_requested
    );
}

#[test]
fn sealed_turn_drops_cancel_flag_and_cleans_owned_interactions() {
    let mut state = state();
    let incarnation = open(&mut state, "session");
    state
        .start_prompt("epoch", "session", incarnation, "prompt", Vec::new())
        .unwrap();
    state
        .request_cancel("epoch", "session", incarnation)
        .unwrap();
    state
        .upsert_permission(
            "epoch",
            "session",
            incarnation,
            "permission",
            json(r#"{ "question": "allow" }"#),
        )
        .unwrap();
    state
        .upsert_elicitation(
            "epoch",
            Some(("session", incarnation)),
            "elicitation",
            json(r#"{ "mode": "form" }"#),
        )
        .unwrap();

    state
        .complete_prompt(
            "epoch",
            "session",
            incarnation,
            "prompt",
            json(r#"{ "stopReason": "cancelled" }"#),
        )
        .unwrap();

    let session = state.session("session").unwrap();
    assert!(session.active_turn.is_none());
    assert!(session.permissions.is_empty());
    assert!(session.elicitations.is_empty());
    assert_eq!(
        state.take_effects(),
        vec![
            RuntimeEffect::CancelPermissionResponder {
                session_id: "session".to_string(),
                incarnation: incarnation,
                interaction_id: "permission".to_string(),
            },
            RuntimeEffect::CancelElicitationResponder {
                session_id: Some("session".to_string()),
                incarnation: Some(incarnation),
                interaction_id: "elicitation".to_string(),
            },
        ]
    );
    assert!(state.take_effects().is_empty());
}

#[test]
fn duplicate_permission_request_never_overwrites_the_original() {
    let mut state = state();
    let incarnation = open(&mut state, "session");
    assert_eq!(
        state
            .upsert_permission(
                "epoch",
                "session",
                incarnation,
                "permission",
                json(r#"{ "question": "A" }"#),
            )
            .unwrap(),
        InteractionUpsert::Inserted,
    );
    let inserted_seq = state.seq();
    assert_eq!(
        state
            .upsert_permission(
                "epoch",
                "session",
                incarnation,
                "permission",
                json(r#"{ "question": "A" }"#),
            )
            .unwrap(),
        InteractionUpsert::Duplicate,
    );
    assert_eq!(state.seq(), inserted_seq);
    assert_eq!(
        state.upsert_permission(
            "epoch",
            "session",
            incarnation,
            "permission",
            json(r#"{ "question": "B" }"#),
        ),
        Err(RuntimeStateError::InteractionCollision),
    );
    let session = state.session("session").unwrap();
    assert!(same_json(
        &session.permissions.get("permission").unwrap().request,
        &json(r#"{ "question": "A" }"#),
    ));
}

#[test]
fn released_terminal_cannot_be_resurrected_by_late_state() {
    let mut state = state();
    let incarnation = open(&mut state, "session");
    state
        .upsert_terminal(
            "epoch",
            "session",
            incarnation,
            "terminal",
            json(r#"{ "output": "running", "released": false }"#),
        )
        .unwrap();
    state
        .upsert_terminal(
            "epoch",
            "session",
            incarnation,
            "terminal",
            json(r#"{ "output": "done", "released": true }"#),
        )
        .unwrap();
    let released_seq = state.seq();

    assert_eq!(
        state
            .upsert_terminal(
                "epoch",
                "session",
                incarnation,
                "terminal",
                json(r#"{ "output": "late", "released": false }"#),
            )
            .unwrap(),
        TerminalUpsert::Stale,
    );
    assert_eq!(state.seq(), released_seq);
    assert!(
        !state
            .session("session")
            .unwrap()
            .terminals
            .contains_key("terminal")
    );
    assert!(
        !state.snapshot_text()
            .contains("done")
    );
}

#[test]
fn closing_a_session_releases_resources_once() {
    let mut state = state();
    let incarnation = open(&mut state, "session");
    state
        .upsert_terminal(
            "epoch",
            "session",
            incarnation,
            "terminal",
            json(r#"{ "released": false }"#),
        )
        .unwrap();
    state
        .start_operation(
            "epoch",
            "session",
            incarnation,
            "close",
            SessionOperationKind::Close,
            "closing",
        )
        .unwrap();
    let before_close = state.seq();
    state
        .close_session("epoch", "session", incarnation, "close")
        .unwrap();

    assert!(state.operation_in_use("close"));
    let close_delta = &state.deltas_after(before_close).unwrap()[0];
    assert!(matches!(
        close_delta.change,
        RuntimeChange::SessionRemoved { .. }
    ));
    assert_eq!(
        state.take_effects(),
        vec![RuntimeEffect::ReleaseTerminal {
            session_id: "session".to_string(),
            terminal_id: "terminal".to_string(),
        }]
    );
    assert!(state.take_effects().is_empty());
    state
        .finish_session_cleanup("session", incarnation, SessionAdmission::Close, "close")
        .unwrap();
    assert!(!state.operation_in_use("close"));
}

#[test]
fn retrying_delete_from_closed_never_resurrects_the_session() {
    let mut state = state();
    let incarnation = open(&mut state, "session");
    state
        .start_delete("epoch", "session", incarnation, "first-delete")
        .unwrap();
    state
        .delete_close_succeeded("epoch", "session", incarnation, "first-delete")
        .unwrap();
    state
        .fail_operation(
            "epoch",
            "session",
            incarnation,
            "first-delete",
            SessionOperationKind::Delete,
            json(r#""delete failed""#),
        )
        .unwrap();

    state
        .start_delete("epoch", "session", incarnation, "retry-delete")
        .unwrap();
    let retrying = state.session("session").unwrap();
    assert_eq!(retrying.lifecycle, SessionLifecycle::Deleting);
    assert_eq!(retrying.operation.as_ref().unwrap().stage, "deleting");
    state
        .fail_operation(
            "epoch",
            "session",
            incarnation,
            "retry-delete",
            SessionOperationKind::Delete,
            json(r#""delete failed""#),
        )
        .unwrap();

    assert_eq!(
        state.session("session").unwrap().lifecycle,
        SessionLifecycle::Closed,
    );
}

#[test]
fn delete_close_success_releases_resources_before_delete_response() {
    let mut state = state();
    let incarnation = open(&mut state, "session");
    state
        .upsert_permission(
            "epoch",
            "session",
            incarnation,
            "permission",
            json(r#"{ "question": "allow" }"#),
        )
        .unwrap();
    state
        .upsert_terminal(
            "epoch",
            "session",
            incarnation,
            "terminal",
            json(r#"{ "released": false }"#),
        )
        .unwrap();
    state
        .start_delete("epoch", "session", incarnation, "delete")
        .unwrap();

    state
        .delete_close_succeeded("epoch", "session", incarnation, "delete")
        .unwrap();

    let session = state.session("session").unwrap();
    assert!(session.permissions.is_empty());
    assert!(session.terminals.is_empty());
    assert_eq!(
        state.take_effects(),
        vec![
            RuntimeEffect::CancelPermissionResponder {
                session_id: "session".to_string(),
                incarnation: incarnation,
                interaction_id: "permission".to_string(),
            },
            RuntimeEffect::ReleaseTerminal {
                session_id: "session".to_string(),
                terminal_id: "terminal".to_string(),
            },
        ],
    );
}

#[test]
fn delete_success_removes_once_and_old_incarnation_stays_stale_after_reopen() {
    let mut state = state();
    let first = open(&mut state, "session");
    state
        .start_delete("epoch", "session", first, "delete")
        .unwrap();
    state
        .delete_close_succeeded("epoch", "session", first, "delete")
        .unwrap();
    let before = state.seq();

    state
        .complete_delete("epoch", "session", first, "delete")
        .unwrap();

    assert_eq!(state.seq(), before + 1);
    assert!(state.session("session").is_none());
    state
        .finish_session_cleanup("session", first, SessionAdmission::Delete, "delete")
        .unwrap();
    let second = open(&mut state, "session");
    assert_ne!(first, second);
    assert_eq!(
        state.complete_delete("epoch", "session", first, "delete"),
        Err(RuntimeStateError::StaleIncarnation),
    );
}

#[test]
fn uncertain_delete_is_one_terminal_transition_and_blocks_mutation() {
    let mut state = state();
    let incarnation = open(&mut state, "session");
    state
        .start_delete("epoch", "session", incarnation, "delete")
        .unwrap();
    let before = state.seq();

    state
        .mark_operation_uncertain(
            "epoch",
            "session",
            incarnation,
            "delete",
            "close response was lost",
        )
        .unwrap();

    assert_eq!(state.seq(), before + 1);
    let session = state.session("session").unwrap();
    assert_eq!(session.lifecycle, SessionLifecycle::Uncertain);
    assert_eq!(session.operation.as_ref().unwrap().stage, "uncertain");
    assert_eq!(
        state.start_prompt("epoch", "session", incarnation, "prompt", Vec::new()),
        Err(RuntimeStateError::SessionNotActive),
    );
}

#[test]
fn independent_session_transitions_commute() {
    fn run(a_first: bool) -> [String; 2] {
        let mut state = state();
        let a = open(&mut state, "a");
        let b = open(&mut state, "b");
        let update_a = |state: &mut RuntimeState| {
            state
                .start_prompt("epoch", "a", a, "prompt-a", vec![json(r#""A""#)])
                .unwrap();
        };
        let update_b = |state: &mut RuntimeState| {
            state
                .start_prompt("epoch", "b", b, "prompt-b", vec![json(r#""B""#)])
                .unwrap();
        };
        if a_first {
            update_a(&mut state);
            update_b(&mut state);
        } else {
            update_b(&mut state);
            update_a(&mut state);
        }
        let snapshot = state.snapshot();
        assert_eq!(snapshot.sessions.len(), 2);
        ["a", "b"].map(|id| wire_text(snapshot.sessions.get(id).unwrap()))
    }

    assert_eq!(run(true), run(false));
}

#[test]
fn a_reserved_operation_exempts_only_itself_from_global_identity_checks() {
    for kind in [SessionOperationKind::SetMode, SessionOperationKind::Load] {
        let mut state = state();
        let first = open(&mut state, "first");
        let second = open(&mut state, "second");
        state
            .start_prompt("epoch", "first", first, "shared-id", vec![])
            .unwrap();
        state
            .begin_exclusive("second", second, kind, "shared-id", Ok(()))
            .unwrap();
        let before = state.snapshot();
        let result = if kind == SessionOperationKind::Load {
            state.start_reload("epoch", "second", second, "shared-id", kind)
        } else {
            state.start_operation("epoch", "second", second, "shared-id", kind, "request")
        };
        assert_eq!(result, Err(RuntimeStateError::OperationCollision));
        assert_eq!(state.snapshot(), before);
        assert_eq!(
            state
                .state("second")
                .unwrap()
                .operation
                .as_ref()
                .unwrap()
                .stage,
            "reserved"
        );
    }
}

#[test]
fn a_reserved_operation_still_checks_request_response_identities() {
    let mut state = state();
    let incarnation = open(&mut state, "session");
    state
        .upsert_elicitation("epoch", None, "elicitation", json(r#"{}"#))
        .unwrap();
    state
        .begin_elicitation_response("epoch", None, "elicitation", "response-id")
        .unwrap();
    state
        .begin_exclusive(
            "session",
            incarnation,
            SessionOperationKind::SetMode,
            "response-id",
            Ok(()),
        )
        .unwrap();
    assert_eq!(
        state.start_operation(
            "epoch",
            "session",
            incarnation,
            "response-id",
            SessionOperationKind::SetMode,
            "request"
        ),
        Err(RuntimeStateError::OperationCollision)
    );
}

#[test]
fn close_confirmation_keeps_the_unique_owner_until_exact_cleanup_finishes() {
    let mut state = state();
    let incarnation = open(&mut state, "session");
    state
        .begin_exclusive(
            "session",
            incarnation,
            SessionOperationKind::Close,
            "close",
            Ok(()),
        )
        .unwrap();
    state
        .start_operation(
            "epoch",
            "session",
            incarnation,
            "close",
            SessionOperationKind::Close,
            "closing",
        )
        .unwrap();
    assert_eq!(
        state
            .state("session")
            .unwrap()
            .operation
            .as_ref()
            .unwrap()
            .stage,
        "closing"
    );
    state
        .close_session("epoch", "session", incarnation, "close")
        .unwrap();
    assert_eq!(
        state.live("session").unwrap().lifecycle,
        SessionLifecycle::Closed
    );
    assert_eq!(
        state
            .state("session")
            .unwrap()
            .operation
            .as_ref()
            .unwrap()
            .stage,
        "cleanup"
    );
    assert!(state.session("session").is_none());
    assert!(!state.snapshot().sessions.contains_key("session"));
    assert_eq!(
        state.open_new("epoch", "session", "/new", json(r#"{}"#)),
        Err(RuntimeStateError::BusySession)
    );
    assert_eq!(
        state.start_attachment(
            "epoch",
            "session",
            "/new",
            "attach",
            SessionOperationKind::Load
        ),
        Err(RuntimeStateError::BusySession)
    );
    assert_eq!(
        state.finish_session_cleanup("session", incarnation, SessionAdmission::Close, "stale"),
        Err(MirrorError::OperationMismatch)
    );
    assert_eq!(
        state.finish_session_cleanup(
            "session",
            incarnation + 1,
            SessionAdmission::Close,
            "close"
        ),
        Err(MirrorError::StaleIncarnation)
    );
    state
        .finish_session_cleanup("session", incarnation, SessionAdmission::Close, "close")
        .unwrap();
    assert!(state.live("session").is_none());
    assert!(open(&mut state, "session") > incarnation);
}

#[test]
fn uncertain_operation_and_prompt_keep_the_owner_in_either_order() {
    for operation_first in [true, false] {
        let mut state = state();
        let incarnation = open(&mut state, "session");
        state
            .admit_session_turn("epoch", "session", incarnation, "prompt", vec![])
            .unwrap();
        state
            .begin_exclusive(
                "session",
                incarnation,
                SessionOperationKind::SetMode,
                "control",
                Ok(()),
            )
            .unwrap();
        state
            .start_operation(
                "epoch",
                "session",
                incarnation,
                "control",
                SessionOperationKind::SetMode,
                "request",
            )
            .unwrap();
        if operation_first {
            state
                .mark_operation_uncertain("epoch", "session", incarnation, "control", "EOF")
                .unwrap();
            assert!(state.state("session").unwrap().turn_execution().is_some());
        }
        state
            .mark_prompt_uncertain("epoch", "session", incarnation, "prompt", "EOF")
            .unwrap();
        if !operation_first {
            state
                .mark_operation_uncertain("epoch", "session", incarnation, "control", "EOF")
                .unwrap();
        }
        let owner = state.state("session").unwrap();
        assert!(owner.turn_execution().is_none());
        assert_eq!(owner.operation.as_ref().unwrap().stage, "uncertain");
        assert!(state.session("session").unwrap().active_turn.is_none());
    }
}

#[test]
fn a_reservation_needs_its_session_its_incarnation_and_the_grant_of_the_history() {
    let mut state = state();
    let incarnation = open(&mut state, "session");
    let kind = SessionOperationKind::SetMode;
    assert_eq!(
        state.begin_exclusive("other", incarnation, kind, "op", Ok(())),
        Err(MirrorError::UnknownSession)
    );
    assert_eq!(
        state.begin_exclusive("session", incarnation + 1, kind, "op", Ok(())),
        Err(MirrorError::StaleIncarnation)
    );
    assert_eq!(
        state.begin_exclusive("session", incarnation, kind, "op", Err(MirrorError::Busy)),
        Err(MirrorError::Busy)
    );
    assert!(state.state("session").unwrap().operation.is_none());
    state
        .begin_exclusive("session", incarnation, kind, "op", Ok(()))
        .unwrap();
    assert!(state.operation_in_use("op"));
    state
        .start_operation("epoch", "session", incarnation, "op", kind, "request")
        .unwrap();
}

#[test]
fn changes_to_a_copy_of_a_session_stay_in_the_copy() {
    let mut state = state();
    let incarnation = open(&mut state, "session");
    state
        .admit_session_turn("epoch", "session", incarnation, "intent", vec![])
        .unwrap();
    state
        .upsert_permission("epoch", "session", incarnation, "permission", json(r#"{}"#))
        .unwrap();
    let before = state.owner_text("session");
    let mut disposable = state.session("session").unwrap();
    disposable.active_turn.as_mut().unwrap().cancel_requested = true;
    disposable.permissions.remove("permission");
    assert_eq!(state.owner_text("session"), before);
    state
        .complete_prompt("epoch", "session", incarnation, "intent", json(r#"{}"#))
        .unwrap();
    assert_eq!(
        state.take_effects(),
        vec![RuntimeEffect::CancelPermissionResponder {
            session_id: "session".to_string(),
            incarnation,
            interaction_id: "permission".to_string()
        }]
    );
    assert!(state.state("session").unwrap().turn_execution().is_none());
    assert!(state.session("session").unwrap().active_turn.is_none());
}

#[test]
fn only_the_overlay_of_the_running_turn_is_projected() {
    let mut state = state();
    let incarnation = open(&mut state, "session");
    state
        .admit_session_turn(
            "epoch",
            "session",
            incarnation,
            "intent",
            vec![json(r#"{ "type": "text", "text": "hello" }"#)],
        )
        .unwrap();
    let overlay = TurnOverlay {
        operation_id: "turn-intent".to_string(),
        client_intent_id: "intent".to_string(),
        prompt: vec![json(r#"{ "type": "text", "text": "hello" }"#)],
        updates: Vec::new(),
        execution: Some(TurnExecution {
            rpc_operation_id: "intent".to_string(),
            cancel_requested: false,
        }),
    };
    let update = json(
        r#"{ "sessionUpdate": "agent_message_chunk", "content": { "type": "text", "text": "answer" } }"#,
    );
    let before = state.seq();
    state
        .project_turn_update("epoch", "session", incarnation, &overlay, &update)
        .unwrap();
    let deltas = state.deltas_after(before).unwrap();
    assert_eq!(deltas.len(), 1);
    let RuntimeChange::TurnUpdateAppended { operation_id, update: told, .. } = &deltas[0].change
    else {
        panic!("an update of a turn is published as such");
    };
    assert_eq!(operation_id, "intent");
    assert!(same_json(told, &update));

    let stale = TurnOverlay {
        client_intent_id: "another-intent".to_string(),
        ..overlay
    };
    let before = state.snapshot();
    assert_eq!(
        state.project_turn_update("epoch", "session", incarnation, &stale, &json(r#"{}"#)),
        Err(RuntimeStateError::OperationMismatch)
    );
    assert_eq!(state.snapshot(), before);
}
