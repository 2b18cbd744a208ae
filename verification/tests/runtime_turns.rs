//! Turns: how they are folded, published and retired.
use attyd::fold::{RuntimeStateError};
use attyd::json::{same_json, Json};
use attyd::registry::turns::{StartedTurn, TurnAdmission};
use attyd::registry::SessionRegistry;
use attyd::runtime_types::{InteractionUpsert, MirrorPhase, RuntimeChange, RuntimeDelta, RuntimeSnapshot, SessionLifecycle, SessionOperationKind, SessionTurnError, TerminalUpsert, TurnExecution, TurnOverlay, UrlFlowStatus};
use attyd::wire::Wire;
use std::ops::{Deref, DerefMut};

fn json(text: &str) -> Json {
    Json::parse(text).unwrap()
}

/// A value inside another one, found by the names on the way to it.
#[derive(Debug)]
struct Found(Json);

fn at(value: &Json, path: &str) -> Found {
    let mut here = value;
    for step in path.split('.') {
        here = match step.parse::<usize>() {
            Ok(index) => &here.as_array().unwrap()[index],
            Err(_) => match here.get(step) {
                Some(next) => next,
                None => &Json::Null,
            },
        };
    }
    Found(here.clone())
}

impl PartialEq<&str> for Found {
    fn eq(&self, other: &&str) -> bool {
        self.0.as_str() == Some(*other)
    }
}

impl PartialEq<Json> for Found {
    fn eq(&self, other: &Json) -> bool {
        same_json(&self.0, other)
    }
}

impl PartialEq<u64> for Found {
    fn eq(&self, other: &u64) -> bool {
        self.0.as_u64() == Some(*other)
    }
}

fn wire_text<T: Wire>(value: &T) -> String {
    value.to_json().to_text()
}

fn deltas_text(deltas: &[RuntimeDelta]) -> String {
    deltas.iter().map(wire_text).collect::<Vec<_>>().join(",")
}

fn texts(values: &[Json]) -> Vec<String> {
    values.iter().map(|value| value.to_text()).collect()
}

/// A snapshot that can be compared.
struct Shown(RuntimeSnapshot);

impl Deref for Shown {
    type Target = RuntimeSnapshot;

    fn deref(&self) -> &RuntimeSnapshot {
        &self.0
    }
}

impl PartialEq for Shown {
    fn eq(&self, other: &Shown) -> bool {
        wire_text(&self.0) == wire_text(&other.0)
    }
}

impl std::fmt::Debug for Shown {
    fn fmt(&self, f: &mut std::fmt::Formatter) -> std::fmt::Result {
        f.write_str(&wire_text(&self.0))
    }
}

/// The registry of one connection, with a history that admits everything.
struct RuntimeState {
    registry: SessionRegistry,
}

impl Deref for RuntimeState {
    type Target = SessionRegistry;

    fn deref(&self) -> &SessionRegistry {
        &self.registry
    }
}

impl DerefMut for RuntimeState {
    fn deref_mut(&mut self) -> &mut SessionRegistry {
        &mut self.registry
    }
}

type Outcome<T> = Result<T, RuntimeStateError>;
type Kind = SessionOperationKind;

#[allow(dead_code)]
impl RuntimeState {
    fn new(epoch: &str) -> Self {
        RuntimeState { registry: SessionRegistry::new(epoch) }
    }

    fn snapshot(&self) -> Shown {
        Shown(self.registry.snapshot())
    }

    fn snapshot_text(&self) -> String {
        wire_text(&self.registry.snapshot())
    }

    fn journal_text(&self) -> String {
        format!("{:?}", self.registry.journal())
    }

    fn owner_text(&self, id: &str) -> String {
        format!("{:?}", self.registry.state(id).unwrap())
    }

    fn open_new(&mut self, epoch: &str, id: &str, cwd: &str, session: Json) -> Outcome<u64> {
        self.registry.open_new(epoch, id, cwd, &session)
    }

    fn open_new_with_replay(
        &mut self,
        epoch: &str,
        id: &str,
        cwd: &str,
        session: Json,
        replay: Vec<Json>,
    ) -> Outcome<u64> {
        self.registry.open_new_with_replay(epoch, id, cwd, &session, &replay)
    }

    fn open_forked(
        &mut self,
        epoch: &str,
        id: &str,
        cwd: &str,
        session: Json,
        source: (&str, u64),
        replay: Option<Vec<Json>>,
    ) -> Outcome<u64> {
        self.registry.open_forked(epoch, id, cwd, &session, source, replay.as_ref())
    }

    fn append_runtime_update(
        &mut self,
        epoch: &str,
        id: &str,
        incarnation: u64,
        update: Json,
    ) -> Outcome<()> {
        self.registry.append_runtime_update(epoch, id, incarnation, &update)
    }

    fn append_attachment_candidate(
        &mut self,
        epoch: &str,
        id: &str,
        incarnation: u64,
        update: Json,
    ) -> Outcome<()> {
        self.registry.append_attachment_candidate(epoch, id, incarnation, &update)
    }

    fn complete_prompt(
        &mut self,
        epoch: &str,
        id: &str,
        incarnation: u64,
        operation: &str,
        result: Json,
    ) -> Outcome<()> {
        self.registry.complete_prompt(epoch, id, incarnation, operation, &result)
    }

    fn fail_prompt(
        &mut self,
        epoch: &str,
        id: &str,
        incarnation: u64,
        operation: &str,
        error: Json,
    ) -> Outcome<()> {
        self.registry.fail_prompt(epoch, id, incarnation, operation, &error)
    }

    fn start_operation(
        &mut self,
        epoch: &str,
        id: &str,
        incarnation: u64,
        operation: &str,
        kind: Kind,
        stage: &str,
    ) -> Outcome<()> {
        self.registry.start_operation(epoch, id, incarnation, operation, kind, stage, true)
    }

    fn start_reload(
        &mut self,
        epoch: &str,
        id: &str,
        incarnation: u64,
        operation: &str,
        kind: Kind,
    ) -> Outcome<()> {
        self.registry.start_reload(epoch, id, incarnation, operation, kind, true)
    }

    fn start_delete(
        &mut self,
        epoch: &str,
        id: &str,
        incarnation: u64,
        operation: &str,
    ) -> Outcome<()> {
        self.registry.start_delete(epoch, id, incarnation, operation, true)
    }

    fn complete_reload(
        &mut self,
        epoch: &str,
        id: &str,
        incarnation: u64,
        operation: &str,
        response: Json,
    ) -> Outcome<()> {
        self.registry.complete_reload(epoch, id, incarnation, operation, &response)
    }

    fn fail_reload(
        &mut self,
        epoch: &str,
        id: &str,
        incarnation: u64,
        operation: &str,
        error: Json,
    ) -> Outcome<()> {
        self.registry.fail_reload(epoch, id, incarnation, operation, &error)
    }

    fn complete_attachment(
        &mut self,
        epoch: &str,
        id: &str,
        incarnation: u64,
        operation: &str,
        kind: Kind,
        response: Json,
    ) -> Outcome<()> {
        self.registry.complete_attachment(epoch, id, incarnation, operation, kind, &response)
    }

    fn fail_attachment(
        &mut self,
        epoch: &str,
        id: &str,
        incarnation: u64,
        operation: &str,
        kind: Kind,
        error: Json,
    ) -> Outcome<()> {
        self.registry.fail_attachment(epoch, id, incarnation, operation, kind, &error)
    }

    fn synchronize_loaded_session(
        &mut self,
        epoch: &str,
        id: &str,
        incarnation: u64,
        response: Json,
        replay: Vec<Json>,
    ) -> Outcome<()> {
        self.registry.synchronize_loaded_session(epoch, id, incarnation, &response, &replay)
    }

    fn upsert_permission(
        &mut self,
        epoch: &str,
        id: &str,
        incarnation: u64,
        interaction: &str,
        request: Json,
    ) -> Outcome<InteractionUpsert> {
        self.registry.upsert_permission(epoch, id, incarnation, interaction, &request)
    }

    fn upsert_elicitation(
        &mut self,
        epoch: &str,
        scope: Option<(&str, u64)>,
        interaction: &str,
        request: Json,
    ) -> Outcome<InteractionUpsert> {
        self.registry.upsert_elicitation(epoch, scope, interaction, &request)
    }

    fn upsert_terminal(
        &mut self,
        epoch: &str,
        id: &str,
        incarnation: u64,
        terminal_id: &str,
        terminal: Json,
    ) -> Outcome<TerminalUpsert> {
        self.registry.upsert_terminal(epoch, id, incarnation, terminal_id, &terminal)
    }

    fn complete_operation(
        &mut self,
        epoch: &str,
        id: &str,
        incarnation: u64,
        operation: &str,
        kind: Kind,
        result: Json,
    ) -> Outcome<()> {
        self.registry.complete_operation(epoch, id, incarnation, operation, kind, &result)
    }

    fn complete_control_operation(
        &mut self,
        epoch: &str,
        id: &str,
        incarnation: u64,
        operation: &str,
        kind: Kind,
        key: &str,
        update: Json,
        result: Json,
    ) -> Outcome<()> {
        self.registry
            .complete_control_operation(epoch, id, incarnation, operation, kind, key, update, &result)
    }

    fn fail_operation(
        &mut self,
        epoch: &str,
        id: &str,
        incarnation: u64,
        operation: &str,
        kind: Kind,
        error: Json,
    ) -> Outcome<()> {
        self.registry.fail_operation(epoch, id, incarnation, operation, kind, &error)
    }

    /// Admits a turn that the history of the session has room for.
    fn admit_session_turn(
        &mut self,
        epoch: &str,
        id: &str,
        incarnation: u64,
        intent: &str,
        prompt: Vec<Json>,
    ) -> Result<TurnAdmission, SessionTurnError> {
        let known = match self.registry.state(id) {
            Some(owner) => match &owner.active_turn {
                Some(turn) if turn.client_intent_id == intent => Some(TurnAdmission::Duplicate {
                    operation_id: turn.operation_id.clone(),
                }),
                _ => None,
            },
            None => None,
        };
        let operation_id = format!("turn-{intent}");
        let started = StartedTurn {
            admission: TurnAdmission::Accepted { operation_id: operation_id.clone() },
            turn: TurnOverlay {
                operation_id,
                client_intent_id: intent.to_string(),
                prompt,
                updates: Vec::new(),
                execution: Some(TurnExecution {
                    rpc_operation_id: intent.to_string(),
                    cancel_requested: false,
                }),
            },
            phase: MirrorPhase::Running,
        };
        self.registry
            .admit_session_turn(epoch, id, incarnation, intent, Ok(known), Ok(started))
    }
}

fn state() -> RuntimeState {
    RuntimeState::new("epoch")
}

fn open(state: &mut RuntimeState, session_id: &str) -> u64 {
    state
        .open_new(
            "epoch",
            session_id,
            &format!("/{session_id}"),
            json(&format!(r#"{{ "sessionId": "{session_id}" }}"#)),
        )
        .unwrap()
}

fn start_prompt_operation(
    state: &mut RuntimeState,
    session_id: &str,
    incarnation: u64,
    operation_id: &str,
    prompt: Vec<Json>,
) -> String {
    state
        .start_prompt("epoch", session_id, incarnation, operation_id, prompt)
        .unwrap();
    operation_id.to_string()
}

#[test]
fn close_cleanup_rejects_late_live_resources_without_publication_or_resurrection() {
    let mut state = state();
    let incarnation = open(&mut state, "session");
    state
        .start_operation(
            "epoch",
            "session",
            incarnation,
            "close",
            SessionOperationKind::Close,
            "closing",
        )
        .unwrap();
    state
        .close_session("epoch", "session", incarnation, "close")
        .unwrap();
    let before = state.owner_text("session");
    let published = state.snapshot();
    assert_eq!(
        state.upsert_permission("epoch", "session", incarnation, "late", json(r#"{}"#)),
        Err(RuntimeStateError::UnknownSession)
    );
    assert_eq!(
        state.upsert_elicitation("epoch", Some(("session", incarnation)), "late", json(r#"{}"#)),
        Err(RuntimeStateError::UnknownSession)
    );
    assert_eq!(
        state.upsert_terminal(
            "epoch",
            "session",
            incarnation,
            "late",
            json(r#"{ "output": "late" }"#)
        ),
        Err(RuntimeStateError::UnknownSession)
    );
    assert_eq!(state.owner_text("session"), before);
    assert_eq!(state.snapshot(), published);
    assert!(state.take_effects().is_empty());
}

#[test]
fn direct_operation_entry_cannot_bypass_canonical_history_admission() {
    let mut state = state();
    let incarnation = open(&mut state, "session");
    let TurnAdmission::Accepted { operation_id } = state
        .admit_session_turn("epoch", "session", incarnation, "prompt", vec![])
        .unwrap()
    else {
        panic!("accepted");
    };
    state
        .complete_prompt("epoch", "session", incarnation, "prompt", json(r#"{}"#))
        .unwrap();
    assert_eq!(operation_id, "turn-prompt");
    let before = state.snapshot();
    assert_eq!(
        state.registry.start_operation(
            "epoch",
            "session",
            incarnation,
            "control",
            SessionOperationKind::SetMode,
            "request",
            false
        ),
        Err(RuntimeStateError::BusySession)
    );
    assert_eq!(
        state.registry.start_reload(
            "epoch",
            "session",
            incarnation,
            "load",
            SessionOperationKind::Load,
            false
        ),
        Err(RuntimeStateError::BusySession)
    );
    assert_eq!(state.snapshot(), before);
    let before = state.snapshot();
    assert_eq!(
        state.registry.start_operation(
            "epoch",
            "session",
            incarnation,
            "fork",
            SessionOperationKind::Fork,
            "request",
            false
        ),
        Err(RuntimeStateError::BusySession)
    );
    assert_eq!(state.snapshot(), before);
}

#[test]
fn unified_turn_admission_is_atomic_and_duplicate_publication_is_neutral() {
    let mut state = state();
    let closed = open(&mut state, "closed");
    state
        .start_delete("epoch", "closed", closed, "delete")
        .unwrap();
    state
        .delete_close_succeeded("epoch", "closed", closed, "delete")
        .unwrap();
    state
        .fail_operation(
            "epoch",
            "closed",
            closed,
            "delete",
            SessionOperationKind::Delete,
            json(r#""delete failed""#),
        )
        .unwrap();
    assert_eq!(
        state.live("closed").unwrap().lifecycle,
        SessionLifecycle::Closed
    );
    let before = state.owner_text("closed");
    let seq = state.seq();
    assert_eq!(
        state.admit_session_turn(
            "epoch",
            "closed",
            closed,
            "intent",
            vec![json(r#""hello""#)]
        ),
        Err(SessionTurnError::Live(RuntimeStateError::SessionNotActive))
    );
    assert_eq!(state.owner_text("closed"), before);
    assert_eq!(state.seq(), seq);
    let incarnation = open(&mut state, "session");
    let accepted = state
        .admit_session_turn(
            "epoch",
            "session",
            incarnation,
            "intent",
            vec![json(r#""hello""#)],
        )
        .unwrap();
    let TurnAdmission::Accepted { operation_id } = accepted else {
        panic!("first intent is accepted");
    };
    assert_eq!(
        state
            .state("session")
            .unwrap()
            .turn_execution()
            .unwrap()
            .rpc_operation_id,
        "intent"
    );
    let before = state.snapshot();
    assert_eq!(
        state.admit_session_turn(
            "epoch",
            "session",
            incarnation,
            "intent",
            vec![json(r#""hello""#)]
        ),
        Ok(TurnAdmission::Duplicate { operation_id })
    );
    assert_eq!(state.snapshot(), before);
}

#[test]
fn active_turn_folds_only_adjacent_compatible_text_chunks_but_publishes_raw_deltas() {
    let mut state = state();
    let incarnation = open(&mut state, "session");
    state
        .start_prompt("epoch", "session", incarnation, "prompt", Vec::new())
        .unwrap();
    let before = state.seq();
    let updates = [
        json(r#"{ "sessionUpdate": "agent_message_chunk", "messageId": "answer", "content": { "type": "text", "text": "hello " } }"#),
        json(r#"{ "sessionUpdate": "agent_message_chunk", "messageId": "answer", "content": { "type": "text", "text": "world" } }"#),
        json(r#"{ "sessionUpdate": "agent_thought_chunk", "messageId": "thought", "content": { "type": "text", "text": "reason " } }"#),
        json(r#"{ "sessionUpdate": "agent_thought_chunk", "messageId": "thought", "content": { "type": "text", "text": "carefully" } }"#),
        json(r#"{ "sessionUpdate": "user_message_chunk", "messageId": "echo", "content": { "type": "text", "text": "user" } }"#),
        json(r#"{ "sessionUpdate": "agent_message_chunk", "messageId": "answer", "content": { "type": "text", "text": " later" } }"#),
    ];
    for update in updates.clone() {
        state
            .append_runtime_update("epoch", "session", incarnation, update)
            .unwrap();
    }

    let retained = state
        .session("session")
        .unwrap()
        .active_turn
        .unwrap()
        .updates;
    assert_eq!(retained.len(), 4);
    assert_eq!(at(&retained[0], "content.text"), "hello world");
    assert_eq!(at(&retained[1], "content.text"), "reason carefully");
    assert_eq!(at(&retained[2], "content.text"), "user");
    assert_eq!(at(&retained[3], "content.text"), " later");

    let published = state
        .deltas_after(before)
        .unwrap()
        .into_iter()
        .map(|delta| match delta.change {
            RuntimeChange::TurnUpdateAppended { update, .. } => update,
            other => panic!("unexpected retained turn delta: {other:?}"),
        })
        .collect::<Vec<_>>();
    assert_eq!(texts(&published), texts(&updates));
}

#[test]
fn active_turn_replaces_tool_fields_at_the_first_position_without_changing_start_kind() {
    let mut state = state();
    let incarnation = open(&mut state, "session");
    state
        .start_prompt("epoch", "session", incarnation, "prompt", Vec::new())
        .unwrap();
    let before = state.seq();
    let updates = [
        json(r#"{ "sessionUpdate": "tool_call", "toolCallId": "tool", "status": "pending", "rawInput": { "path": "/first", "nested": { "left": 1 } }, "rawOutput": { "obsolete": true }, "locations": [{ "path": "/first" }] }"#),
        json(r#"{ "sessionUpdate": "agent_message_chunk", "messageId": "between", "content": { "type": "text", "text": "between" } }"#),
        json(r#"{ "sessionUpdate": "tool_call_update", "toolCallId": "tool", "status": "in_progress", "rawInput": { "nested": { "right": 2 } }, "rawOutput": { "result": "ok" }, "locations": [] }"#),
        json(r#"{ "sessionUpdate": "tool_call_update", "toolCallId": "tool", "rawInput": { "path": "/last", "nested": { "left": 3 } }, "status": null }"#),
    ];
    for update in updates.clone() {
        state
            .append_runtime_update("epoch", "session", incarnation, update)
            .unwrap();
    }

    let retained = state
        .session("session")
        .unwrap()
        .active_turn
        .unwrap()
        .updates;
    assert_eq!(retained.len(), 2);
    assert_eq!(at(&retained[0], "sessionUpdate"), "tool_call");
    assert_eq!(at(&retained[0], "toolCallId"), "tool");
    assert_eq!(at(&retained[0], "status"), "in_progress");
    assert_eq!(
        at(&retained[0], "rawInput"),
        json(r#"{ "path": "/last", "nested": { "left": 3 } }"#)
    );
    assert_eq!(at(&retained[0], "rawOutput"), json(r#"{ "result": "ok" }"#));
    assert_eq!(at(&retained[0], "locations"), json(r#"[]"#));
    assert_eq!(at(&retained[1], "content.text"), "between");
    let published = state
        .deltas_after(before)
        .unwrap()
        .into_iter()
        .map(|delta| match delta.change {
            RuntimeChange::TurnUpdateAppended { update, .. } => update,
            other => panic!("unexpected retained turn delta: {other:?}"),
        })
        .collect::<Vec<_>>();
    assert_eq!(texts(&published), texts(&updates));
}

#[test]
fn active_turn_replaces_plan_slots_in_place_and_removal_clears_only_its_slot() {
    let mut state = state();
    let incarnation = open(&mut state, "session");
    state
        .start_prompt("epoch", "session", incarnation, "prompt", Vec::new())
        .unwrap();
    for update in [
        json(r#"{ "sessionUpdate": "plan_update", "plan": { "type": "markdown", "planId": "one", "content": "first" } }"#),
        json(r#"{ "sessionUpdate": "agent_message_chunk", "messageId": "between", "content": { "type": "text", "text": "between" } }"#),
        json(r#"{ "sessionUpdate": "plan_update", "plan": { "type": "markdown", "planId": "two", "content": "other" } }"#),
        json(r#"{ "sessionUpdate": "plan_update", "plan": { "type": "markdown", "planId": "one", "content": "latest" } }"#),
    ] {
        state
            .append_runtime_update("epoch", "session", incarnation, update)
            .unwrap();
    }
    let retained = state
        .session("session")
        .unwrap()
        .active_turn
        .unwrap()
        .updates;
    assert_eq!(retained.len(), 3);
    assert_eq!(at(&retained[0], "plan.planId"), "one");
    assert_eq!(at(&retained[0], "plan.content"), "latest");
    assert_eq!(at(&retained[1], "content.text"), "between");
    assert_eq!(at(&retained[2], "plan.planId"), "two");

    for update in [
        json(r#"{ "sessionUpdate": "plan_removed", "planId": "one" }"#),
        json(r#"{ "sessionUpdate": "plan", "entries": [{ "content": "legacy one" }] }"#),
        json(r#"{ "sessionUpdate": "plan", "entries": [{ "content": "legacy latest" }] }"#),
    ] {
        state
            .append_runtime_update("epoch", "session", incarnation, update)
            .unwrap();
    }

    let retained = state
        .session("session")
        .unwrap()
        .active_turn
        .unwrap()
        .updates;
    assert_eq!(retained.len(), 3);
    assert_eq!(at(&retained[0], "content.text"), "between");
    assert_eq!(at(&retained[1], "plan.planId"), "two");
    assert_eq!(at(&retained[2], "sessionUpdate"), "plan");
    assert_eq!(at(&retained[2], "entries.0.content"), "legacy latest");
    assert!(retained.iter().all(|update| {
        update.text_at("planId") != Some("one")
            && update.get("plan").and_then(|plan| plan.text_at("planId")) != Some("one")
    }));
}

#[test]
fn invalid_fold_replacements_are_transactional_and_large_valid_merge_commits() {
    let mut state = state();
    let incarnation = open(&mut state, "session");
    state
        .start_prompt("epoch", "session", incarnation, "prompt", Vec::new())
        .unwrap();
    state
        .append_runtime_update(
            "epoch",
            "session",
            incarnation,
            json(r#"{ "sessionUpdate": "tool_call", "toolCallId": "tool", "details": { "stable": true } }"#),
        )
        .unwrap();
    let before_invalid = state.snapshot();
    assert_eq!(
        state.append_runtime_update(
            "epoch",
            "session",
            incarnation,
            json(r#"{ "sessionUpdate": "tool_call_update", "status": "invalid" }"#),
        ),
        Err(RuntimeStateError::OperationMismatch),
    );
    assert_eq!(state.snapshot(), before_invalid);
    assert!(
        state
            .deltas_after(before_invalid.through_seq)
            .unwrap()
            .is_empty()
    );

    assert_eq!(
        state.append_runtime_update(
            "epoch",
            "session",
            incarnation,
            json(r#"{ "sessionUpdate": "plan_update", "plan": { "type": "markdown", "content": "missing ID" } }"#),
        ),
        Err(RuntimeStateError::OperationMismatch),
    );
    assert_eq!(state.snapshot(), before_invalid);
    assert!(
        state
            .deltas_after(before_invalid.through_seq)
            .unwrap()
            .is_empty()
    );

    let before_large = state.snapshot();
    state
        .append_runtime_update(
            "epoch",
            "session",
            incarnation,
            json(&format!(
                r#"{{ "sessionUpdate": "tool_call_update", "toolCallId": "tool", "details": {{ "oversize": "{}" }} }}"#,
                "x".repeat(1_024)
            )),
        )
        .unwrap();
    assert_ne!(state.snapshot(), before_large);
    assert_eq!(
        state.deltas_after(before_large.through_seq).unwrap().len(),
        1
    );
}

#[test]
fn ten_thousand_terminal_turns_leave_no_folded_updates_or_payload_deltas() {
    let mut state = state();
    let incarnation = open(&mut state, "session");

    for index in 0..10_000 {
        let operation_id = format!("turn-{index}");
        state
            .start_prompt("epoch", "session", incarnation, &operation_id, Vec::new())
            .unwrap();
        state
            .append_runtime_update(
                "epoch",
                "session",
                incarnation,
                json(&format!(
                    r#"{{ "sessionUpdate": "agent_message_chunk", "messageId": "{operation_id}", "content": {{ "type": "text", "text": "turn-payload-{index}" }} }}"#
                )),
            )
            .unwrap();
        state
            .complete_prompt(
                "epoch",
                "session",
                incarnation,
                &format!("turn-{index}"),
                json(r#"{ "stopReason": "end_turn" }"#),
            )
            .unwrap();

        assert!(state.session("session").unwrap().active_turn.is_none());
    }

    assert!(
        !state.journal_text()
            .contains("turn-payload-")
    );
}

fn assert_terminal_turn_payload_was_dropped(
    state: &RuntimeState,
    session_id: &str,
    operation_id: &str,
    markers: &[&str],
) {
    let session = state.session(session_id).unwrap();
    let session_payload = wire_text(&session);
    let active_turn = format!("{:?}", session.active_turn);
    let delta_journal = state.journal_text();
    let mut retained_by = Vec::new();

    assert!(!state.operation_in_use(operation_id));
    if session.active_turn.is_some() {
        retained_by.push("active_turn");
    }
    if markers
        .iter()
        .any(|marker| session_payload.contains(marker))
    {
        retained_by.push("session");
    }
    if markers.iter().any(|marker| active_turn.contains(marker)) {
        retained_by.push("active_turn_payload");
    }
    if markers.iter().any(|marker| delta_journal.contains(marker)) {
        retained_by.push("delta_journal");
    }

    assert!(
        retained_by.is_empty(),
        "terminal turn payload is still retained by: {}",
        retained_by.join(", ")
    );
}

#[test]
fn terminal_response_drops_prompt_updates_indices_and_operation_payload() {
    let mut state = state();
    let incarnation = open(&mut state, "session");
    let operation_id = start_prompt_operation(
        &mut state,
        "session",
        incarnation,
        "success-client-intent",
        vec![json(r#"{ "type": "text", "text": "success-prompt-marker" }"#)],
    );
    state
        .append_runtime_update(
            "epoch",
            "session",
            incarnation,
            json(r#"{ "sessionUpdate": "agent_message_chunk", "messageId": "success-message-id", "content": { "type": "text", "text": "success-update-marker" } }"#),
        )
        .unwrap();
    state
        .complete_prompt(
            "epoch",
            "session",
            incarnation,
            &operation_id,
            json(r#"{ "stopReason": "end_turn", "marker": "success-result-marker" }"#),
        )
        .unwrap();

    assert_terminal_turn_payload_was_dropped(
        &state,
        "session",
        &operation_id,
        &[
            "success-prompt-marker",
            "success-update-marker",
            "success-result-marker",
        ],
    );
}

#[test]
fn prompt_error_drops_all_turn_payload_after_terminal_delivery() {
    let mut state = state();
    let incarnation = open(&mut state, "session");
    let operation_id = start_prompt_operation(
        &mut state,
        "session",
        incarnation,
        "error-client-intent",
        vec![json(r#"{ "type": "text", "text": "error-prompt-marker" }"#)],
    );
    state
        .append_runtime_update(
            "epoch",
            "session",
            incarnation,
            json(r#"{ "sessionUpdate": "agent_thought_chunk", "content": { "type": "text", "text": "error-update-marker" } }"#),
        )
        .unwrap();
    state
        .fail_prompt(
            "epoch",
            "session",
            incarnation,
            &operation_id,
            json(r#"{ "message": "error-result-marker" }"#),
        )
        .unwrap();

    assert_terminal_turn_payload_was_dropped(
        &state,
        "session",
        &operation_id,
        &[
            "error-prompt-marker",
            "error-update-marker",
            "error-result-marker",
        ],
    );
}

#[test]
fn transport_loss_produces_one_uncertain_terminal_then_drops_the_turn() {
    let mut state = state();
    let incarnation = open(&mut state, "session");
    let operation_id = start_prompt_operation(
        &mut state,
        "session",
        incarnation,
        "uncertain-client-intent",
        vec![json(r#"{ "type": "text", "text": "uncertain-prompt-marker" }"#)],
    );
    state
        .append_runtime_update(
            "epoch",
            "session",
            incarnation,
            json(r#"{ "sessionUpdate": "tool_call_update", "toolCallId": "uncertain-tool-id", "marker": "uncertain-update-marker" }"#),
        )
        .unwrap();
    state
        .mark_prompt_uncertain(
            "epoch",
            "session",
            incarnation,
            &operation_id,
            "uncertain-result-marker",
        )
        .unwrap();

    assert_terminal_turn_payload_was_dropped(
        &state,
        "session",
        &operation_id,
        &[
            "uncertain-prompt-marker",
            "uncertain-update-marker",
            "uncertain-result-marker",
        ],
    );
}

#[test]
fn new_turn_can_reuse_prior_message_and_tool_ids() {
    let mut state = state();
    let incarnation = open(&mut state, "session");
    let first_operation_id = start_prompt_operation(
        &mut state,
        "session",
        incarnation,
        "first-client-intent",
        vec![json(r#""first-prompt-marker""#)],
    );
    state
        .append_runtime_update(
            "epoch",
            "session",
            incarnation,
            json(r#"{ "sessionUpdate": "agent_message_chunk", "messageId": "reused-message-id", "content": { "type": "text", "text": "first-message-marker" } }"#),
        )
        .unwrap();
    state
        .append_runtime_update(
            "epoch",
            "session",
            incarnation,
            json(r#"{ "sessionUpdate": "tool_call", "toolCallId": "reused-tool-id", "marker": "first-tool-marker" }"#),
        )
        .unwrap();
    state
        .complete_prompt(
            "epoch",
            "session",
            incarnation,
            &first_operation_id,
            json(r#"{ "stopReason": "end_turn" }"#),
        )
        .unwrap();

    let second_operation_id = start_prompt_operation(
        &mut state,
        "session",
        incarnation,
        "second-client-intent",
        vec![json(r#""second prompt""#)],
    );
    state
        .append_runtime_update(
            "epoch",
            "session",
            incarnation,
            json(r#"{ "sessionUpdate": "agent_message_chunk", "messageId": "reused-message-id", "content": { "type": "text", "text": "second message" } }"#),
        )
        .unwrap();
    state
        .append_runtime_update(
            "epoch",
            "session",
            incarnation,
            json(r#"{ "sessionUpdate": "tool_call", "toolCallId": "reused-tool-id", "marker": "second tool" }"#),
        )
        .unwrap();

    let session = state.session("session").unwrap();
    let active = session.active_turn.as_ref().unwrap();
    assert_eq!(active.operation_id, second_operation_id);
    assert_eq!(active.updates.len(), 2);
    let session_payload = wire_text(&session);
    assert!(!session_payload.contains("first-message-marker"));
    assert!(!session_payload.contains("first-tool-marker"));
}

#[test]
fn turn_retirement_does_not_release_a_live_terminal() {
    let mut state = state();
    let incarnation = open(&mut state, "session");
    let operation_id = start_prompt_operation(
        &mut state,
        "session",
        incarnation,
        "resource-client-intent",
        vec![json(r#""resource-prompt-marker""#)],
    );
    state
        .upsert_terminal(
            "epoch",
            "session",
            incarnation,
            "live-terminal",
            json(r#"{ "terminalId": "live-terminal", "output": "live-terminal-output", "released": false }"#),
        )
        .unwrap();
    state
        .upsert_elicitation(
            "epoch",
            Some(("session", incarnation)),
            "url-elicitation",
            json(r#"{ "mode": "url", "url": "https://example.test/live" }"#),
        )
        .unwrap();
    state
        .resolve_elicitation(
            "epoch",
            Some(("session", incarnation)),
            "url-elicitation",
            Some("live-url-flow"),
        )
        .unwrap();
    state
        .complete_prompt(
            "epoch",
            "session",
            incarnation,
            &operation_id,
            json(r#"{ "stopReason": "end_turn", "marker": "resource-result-marker" }"#),
        )
        .unwrap();

    let session = state.session("session").unwrap();
    assert_eq!(
        at(session.terminals.get("live-terminal").unwrap(), "output"),
        json(r#""live-terminal-output""#)
    );
    assert_eq!(
        session.url_flows.get("live-url-flow").unwrap().status,
        UrlFlowStatus::Waiting
    );
    assert_terminal_turn_payload_was_dropped(
        &state,
        "session",
        &operation_id,
        &["resource-prompt-marker", "resource-result-marker"],
    );
}

#[test]
fn sequential_completed_turns_leave_active_and_completed_payload_bytes_at_zero() {
    let mut state = state();
    let incarnation = open(&mut state, "session");

    for index in 0..32 {
        let marker = format!("sequential-turn-payload-{index}");
        let operation_id = start_prompt_operation(
            &mut state,
            "session",
            incarnation,
            &format!("sequential-intent-{index}"),
            vec![json(&format!(r#"{{ "type": "text", "text": "{marker}" }}"#))],
        );
        state
            .append_runtime_update(
                "epoch",
                "session",
                incarnation,
                json(&format!(
                    r#"{{ "sessionUpdate": "agent_message_chunk", "content": {{ "type": "text", "text": "{marker}" }} }}"#
                )),
            )
            .unwrap();
        state
            .complete_prompt(
                "epoch",
                "session",
                incarnation,
                &operation_id,
                json(&format!(r#"{{ "stopReason": "end_turn", "marker": "{marker}" }}"#)),
            )
            .unwrap();
    }

    let session = state.session("session").unwrap();
    assert!(session.active_turn.is_none());

    assert!(
        !state.journal_text()
            .contains("sequential-turn-payload"),
        "delivery storage must not retain completed turn payloads"
    );
}

#[test]
fn turn_terminal_event_retires_active_exactly_once() {
    let mut state = state();
    let incarnation = open(&mut state, "session");
    state
        .start_prompt(
            "epoch",
            "session",
            incarnation,
            "prompt",
            vec![json(r#""hello""#)],
        )
        .unwrap();
    state
        .append_runtime_update("epoch", "session", incarnation, json(r#""answer""#))
        .unwrap();
    state
        .complete_prompt(
            "epoch",
            "session",
            incarnation,
            "prompt",
            json(r#"{ "stopReason": "end_turn" }"#),
        )
        .unwrap();

    let session = state.session("session").unwrap();
    assert!(session.active_turn.is_none());
    let settled_seq = state.seq();
    assert_eq!(
        state.complete_prompt(
            "epoch",
            "session",
            incarnation,
            "prompt",
            json(r#"{ "stopReason": "end_turn" }"#),
        ),
        Err(RuntimeStateError::NoActiveTurn),
    );
    assert_eq!(state.seq(), settled_seq);
    assert!(state.session("session").unwrap().active_turn.is_none());
}

#[test]
fn new_replay_keeps_control_metadata_without_conversation() {
    let mut state = state();
    state
        .open_new_with_replay(
            "epoch",
            "session",
            "/session",
            json(r#"{ "sessionId": "session", "modes": { "currentModeId": "plan", "availableModes": [{ "id": "plan", "name": "Plan" }] }, "configOptions": [], "_meta": { "debugPayload": "session-meta-must-not-be-retained" } }"#),
            vec![
                json(r#"{ "sessionUpdate": "agent_message_chunk", "content": "conversation-must-not-be-stored" }"#),
                json(r#"{ "sessionUpdate": "current_mode_update", "currentModeId": "plan" }"#),
            ],
        )
        .unwrap();

    let session = state.session("session").unwrap();
    assert_eq!(
        at(session.control_state.get("current_mode_update").unwrap(), "currentModeId"),
        "plan"
    );
    assert_eq!(at(&session.session, "modes.currentModeId"), "plan");
    assert!(
        !wire_text(&session)
            .contains("conversation-must-not-be-stored")
    );
    assert!(
        !wire_text(&session)
            .contains("session-meta-must-not-be-retained")
    );
}

#[test]
fn cancel_request_is_nonterminal_until_prompt_settles() {
    let mut state = state();
    let incarnation = open(&mut state, "session");
    state
        .start_prompt("epoch", "session", incarnation, "prompt", Vec::new())
        .unwrap();
    state
        .request_cancel("epoch", "session", incarnation)
        .unwrap();
    state
        .append_runtime_update("epoch", "session", incarnation, json(r#""after cancel""#))
        .unwrap();

    let active = state.session("session").unwrap().active_turn.unwrap();
    assert!(active.cancel_requested);
    assert_eq!(active.updates[0].as_str(), Some("after cancel"));
}

#[test]
fn epoch_and_incarnation_reject_stale_mutations() {
    let mut state = state();
    let incarnation = open(&mut state, "session");
    assert_eq!(
        state.start_prompt("old", "session", incarnation, "prompt", Vec::new()),
        Err(RuntimeStateError::EpochMismatch),
    );
    assert_eq!(
        state.start_prompt("epoch", "session", incarnation + 1, "prompt", Vec::new(),),
        Err(RuntimeStateError::StaleIncarnation),
    );
    assert!(state.session("session").unwrap().active_turn.is_none());
}

#[test]
fn snapshot_plus_live_deltas_equals_uninterrupted_state() {
    let mut state = state();
    let a = open(&mut state, "a");
    let snapshot = state.snapshot();
    state
        .start_prompt("epoch", "a", a, "prompt-a", vec![json(r#""A""#)])
        .unwrap();
    let b = open(&mut state, "b");
    state
        .start_prompt("epoch", "b", b, "prompt-b", vec![json(r#""B""#)])
        .unwrap();

    let deltas = state.deltas_after(snapshot.through_seq).unwrap();
    let mut projection = snapshot.0.sessions;
    for delta in deltas {
        match delta.change {
            RuntimeChange::ConnectionUpsert { .. } => {}
            RuntimeChange::SessionUpsert { session } => {
                let id = session.session_id.clone();
                projection.insert(&id, *session);
            }
            RuntimeChange::SessionControlUpdated {
                session_id,
                incarnation,
                revision,
                key,
                update,
                history_revision,
                phase,
                sync_error,
            } => {
                let mut session = projection.remove(&session_id).unwrap();
                assert_eq!(session.incarnation, incarnation);
                assert_eq!(session.revision + 1, revision);
                session.control_state.insert(&key, update);
                session.revision = revision;
                session.history_revision = history_revision;
                session.phase = phase;
                session.sync_error = sync_error;
                projection.insert(&session_id, session);
            }
            RuntimeChange::TurnUpdateAppended {
                session_id,
                incarnation,
                revision,
                operation_id,
                update,
            } => {
                let mut session = projection.remove(&session_id).unwrap();
                assert_eq!(session.incarnation, incarnation);
                assert_eq!(session.revision + 1, revision);
                let turn = session.active_turn.as_mut().unwrap();
                assert_eq!(turn.operation_id, operation_id);
                turn.updates.push(update);
                session.revision = revision;
                projection.insert(&session_id, session);
            }
            RuntimeChange::TerminalUpdated { .. } => {
                unreachable!("this case creates no terminals")
            }
            RuntimeChange::SessionRemoved { session_id, .. } => {
                projection.remove(&session_id);
            }
        }
    }
    let mut rebuilt = state.snapshot();
    rebuilt.0.sessions = projection;
    assert_eq!(rebuilt, state.snapshot());
}

#[test]
fn turn_retirement_never_changes_live_resources() {
    let mut state = state();
    let incarnation = open(&mut state, "session");
    state
        .upsert_permission(
            "epoch",
            "session",
            incarnation,
            "permission",
            json(r#"{ "question": "allow" }"#),
        )
        .unwrap();
    state
        .upsert_elicitation(
            "epoch",
            Some(("session", incarnation)),
            "elicitation",
            json(r#"{ "mode": "form" }"#),
        )
        .unwrap();
    state
        .upsert_terminal(
            "epoch",
            "session",
            incarnation,
            "terminal",
            json(r#"{ "output": "running" }"#),
        )
        .unwrap();
    for index in 0..3 {
        let operation_id = format!("prompt-{index}");
        state
            .start_prompt(
                "epoch",
                "session",
                incarnation,
                &operation_id,
                vec![json(&index.to_string())],
            )
            .unwrap();
        state
            .complete_prompt(
                "epoch",
                "session",
                incarnation,
                &operation_id,
                json(r#"{ "stopReason": "end_turn" }"#),
            )
            .unwrap();
    }

    let session = state.session("session").unwrap();
    assert!(session.permissions.contains_key("permission"));
    assert!(session.elicitations.contains_key("elicitation"));
    assert!(session.terminals.contains_key("terminal"));
}

#[test]
fn active_turn_accounting_does_not_reject_a_large_valid_update() {
    let mut state = RuntimeState::new("epoch");
    let incarnation = open(&mut state, "session");
    state
        .start_prompt("epoch", "session", incarnation, "prompt", Vec::new())
        .unwrap();
    state
        .append_runtime_update(
            "epoch",
            "session",
            incarnation,
            json(&format!(r#"{{ "content": "{}" }}"#, "x".repeat(512))),
        )
        .unwrap();
    assert_eq!(
        state
            .session("session")
            .unwrap()
            .active_turn
            .as_ref()
            .unwrap()
            .updates
            .len(),
        1
    );
    state
        .request_cancel("epoch", "session", incarnation)
        .unwrap();
    assert!(
        state
            .session("session")
            .unwrap()
            .active_turn
            .as_ref()
            .unwrap()
            .cancel_requested
    );
}
