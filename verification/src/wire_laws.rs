//! How the state of the sessions is written, field by field.
use crate::json::{Json, JsonModel};
use crate::runtime_types::{
    ActiveTurn, ChangeModel, DeltaModel, InteractionModel, MirrorPhase, OperationModel,
    PendingInteraction, RuntimeChange, RuntimeDelta, RuntimeSnapshot, SessionLifecycle,
    SessionModel, SessionOperationKind, SessionOperationState, SessionRuntime, SnapshotModel,
    TurnModel, UrlFlow, UrlFlowModel, UrlFlowStatus,
};
use crate::wire::Wire;
use vstd::prelude::*;

verus! {

/// A text, or null.
pub open spec fn or_null_text(text: Option<Seq<char>>) -> JsonModel {
    match text {
        Some(text) => JsonModel::String(text),
        None => JsonModel::Null,
    }
}

/// Whether a value is a table, written entry by entry under its keys.
pub open spec fn is_table<V: Wire>(value: Option<JsonModel>, table: Map<Seq<char>, V::V>) -> bool {
    &&& value matches Some(JsonModel::Object(_))
    &&& forall|key: Seq<char>| #[trigger]
        value->0.get(key) == (if table.contains_key(key) {
            Some(V::wire(table[key]))
        } else {
            None
        })
}

/// How the phase of a history is named.
pub open spec fn name_of_phase(phase: MirrorPhase) -> Seq<char> {
    match phase {
        MirrorPhase::Cold => "cold"@,
        MirrorPhase::Ready => "ready"@,
        MirrorPhase::Running => "running"@,
        MirrorPhase::Reconciling => "reconciling"@,
        MirrorPhase::Blocked => "blocked"@,
    }
}

/// How a kind of operation is named.
pub open spec fn name_of_kind(kind: SessionOperationKind) -> Seq<char> {
    match kind {
        SessionOperationKind::Load => "load"@,
        SessionOperationKind::Resume => "resume"@,
        SessionOperationKind::Fork => "fork"@,
        SessionOperationKind::Close => "close"@,
        SessionOperationKind::Delete => "delete"@,
        SessionOperationKind::SetMode => "set_mode"@,
        SessionOperationKind::SetConfig => "set_config"@,
    }
}

/// An operation is written with its identifier, its stage and what is uncertain of it.
pub proof fn law_operation_is_written(model: OperationModel)
    ensures
        <SessionOperationState as Wire>::wire(model).get("operationId"@)
            == Some(JsonModel::String(model.operation_id)),
        <SessionOperationState as Wire>::wire(model).get("stage"@)
            == Some(JsonModel::String(model.stage)),
        <SessionOperationState as Wire>::wire(model).get("uncertaintyReason"@)
            == Some(or_null_text(model.uncertainty_reason)),
        <SessionOperationState as Wire>::wire(model).get("kind"@)
            == Some(JsonModel::String(name_of_kind(model.kind))),
{
    reveal_strlit("operationId");
    reveal_strlit("stage");
    reveal_strlit("uncertaintyReason");
    reveal_strlit("kind");
    assert("operationId"@.len() == 11);
    assert("stage"@.len() == 5);
    assert("uncertaintyReason"@.len() == 17);
    assert("kind"@.len() == 4);
}

/// A question is written with its identifier, its request, the turn that asked it and the
/// operation that answers it.
pub proof fn law_interaction_is_written(model: InteractionModel)
    ensures
        <PendingInteraction as Wire>::wire(model).get("interactionId"@)
            == Some(JsonModel::String(model.interaction_id)),
        <PendingInteraction as Wire>::wire(model).get("request"@) == Some(model.request),
        <PendingInteraction as Wire>::wire(model).get("operationId"@)
            == Some(or_null_text(model.operation_id)),
        <PendingInteraction as Wire>::wire(model).get("respondingOperationId"@)
            == Some(or_null_text(model.responding_operation_id)),
{
    reveal_strlit("interactionId");
    reveal_strlit("request");
    reveal_strlit("operationId");
    reveal_strlit("respondingOperationId");
    assert("interactionId"@.len() == 13);
    assert("request"@.len() == 7);
    assert("operationId"@.len() == 11);
    assert("respondingOperationId"@.len() == 21);
}

/// A flow is written with its identifier and its request; the registration stays inside.
pub proof fn law_flow_is_written(model: UrlFlowModel)
    ensures
        <UrlFlow as Wire>::wire(model).get("elicitationId"@)
            == Some(JsonModel::String(model.elicitation_id)),
        <UrlFlow as Wire>::wire(model).get("request"@) == Some(model.request),
        <UrlFlow as Wire>::wire(model).get("status"@) == Some(
            JsonModel::String(
                match model.status {
                    UrlFlowStatus::Waiting => "waiting"@,
                    UrlFlowStatus::Completed => "completed"@,
                    UrlFlowStatus::Cancelled => "cancelled"@,
                },
            ),
        ),
        <UrlFlow as Wire>::wire(model).get("registrationId"@) is None,
{
    reveal_strlit("elicitationId");
    reveal_strlit("request");
    reveal_strlit("status");
    reveal_strlit("registrationId");
    assert("elicitationId"@.len() == 13);
    assert("request"@.len() == 7);
    assert("status"@.len() == 6);
    assert("registrationId"@.len() == 14);
}

/// A turn is written with what was asked, what it has gathered, and whether it is asked to
/// stop.
pub proof fn law_turn_is_written(model: TurnModel)
    ensures
        <ActiveTurn as Wire>::wire(model).get("operationId"@)
            == Some(JsonModel::String(model.operation_id)),
        <ActiveTurn as Wire>::wire(model).get("turnId"@) == Some(JsonModel::String(model.turn_id)),
        <ActiveTurn as Wire>::wire(model).get("prompt"@) == Some(JsonModel::Array(model.prompt)),
        <ActiveTurn as Wire>::wire(model).get("updates"@) == Some(JsonModel::Array(model.updates)),
        <ActiveTurn as Wire>::wire(model).get("cancelRequested"@)
            == Some(JsonModel::Bool(model.cancel_requested)),
{
    reveal_strlit("operationId");
    reveal_strlit("turnId");
    reveal_strlit("prompt");
    reveal_strlit("updates");
    reveal_strlit("cancelRequested");
    assert("operationId"@.len() == 11);
    assert("turnId"@.len() == 6);
    assert("prompt"@.len() == 6);
    assert("updates"@.len() == 7);
    assert("cancelRequested"@.len() == 15);
    assert("turnId"@[0] == 't');
    assert("prompt"@[0] == 'p');
}

/// A session is written with its identity, its directory, its metadata and where its history
/// stands.
pub proof fn law_session_is_written(model: SessionModel)
    ensures
        <SessionRuntime as Wire>::wire(model).get("sessionId"@)
            == Some(JsonModel::String(model.session_id)),
        <SessionRuntime as Wire>::wire(model).get("incarnation"@)
            == Some(JsonModel::Integer(model.incarnation as int)),
        <SessionRuntime as Wire>::wire(model).get("revision"@)
            == Some(JsonModel::Integer(model.revision as int)),
        <SessionRuntime as Wire>::wire(model).get("cwd"@) == Some(JsonModel::String(model.cwd)),
        <SessionRuntime as Wire>::wire(model).get("session"@) == Some(model.session),
        <SessionRuntime as Wire>::wire(model).get("baselineRevision"@)
            == Some(or_null_text(model.history_revision)),
        <SessionRuntime as Wire>::wire(model).get("syncError"@)
            == Some(or_null_text(model.sync_error)),
        <SessionRuntime as Wire>::wire(model).get("lifecycle"@) == Some(
            JsonModel::String(
                match model.lifecycle {
                    SessionLifecycle::Attaching => "attaching"@,
                    SessionLifecycle::Active => "active"@,
                    SessionLifecycle::Closing => "closing"@,
                    SessionLifecycle::ClosingForDelete => "closing_for_delete"@,
                    SessionLifecycle::Deleting => "deleting"@,
                    SessionLifecycle::Closed => "closed"@,
                    SessionLifecycle::Uncertain => "uncertain"@,
                },
            ),
        ),
        <SessionRuntime as Wire>::wire(model).get("phase"@)
            == Some(JsonModel::String(name_of_phase(model.phase))),
        model.active_turn is None ==> <SessionRuntime as Wire>::wire(model).get("activeTurn"@)
            == Some(JsonModel::Null),
        model.active_turn matches Some(turn)
            ==> <SessionRuntime as Wire>::wire(model).get("activeTurn"@) == Some(
            <ActiveTurn as Wire>::wire(turn),
        ),
        model.operation is None ==> <SessionRuntime as Wire>::wire(model).get("operation"@)
            == Some(JsonModel::Null),
        model.operation matches Some(operation)
            ==> <SessionRuntime as Wire>::wire(model).get("operation"@) == Some(
            <SessionOperationState as Wire>::wire(operation),
        ),
        is_table::<Json>(<SessionRuntime as Wire>::wire(model).get("controlState"@),
            model.control_state),
        is_table::<PendingInteraction>(<SessionRuntime as Wire>::wire(model).get("permissions"@),
            model.permissions),
        is_table::<PendingInteraction>(<SessionRuntime as Wire>::wire(model).get("elicitations"@),
            model.elicitations),
        is_table::<UrlFlow>(<SessionRuntime as Wire>::wire(model).get("urlFlows"@),
            model.url_flows),
        is_table::<Json>(<SessionRuntime as Wire>::wire(model).get("terminals"@), model.terminals),
{
    reveal_strlit("sessionId");
    reveal_strlit("incarnation");
    reveal_strlit("revision");
    reveal_strlit("cwd");
    reveal_strlit("session");
    reveal_strlit("baselineRevision");
    reveal_strlit("syncError");
    reveal_strlit("controlState");
    reveal_strlit("lifecycle");
    reveal_strlit("activeTurn");
    reveal_strlit("operation");
    reveal_strlit("permissions");
    reveal_strlit("elicitations");
    reveal_strlit("urlFlows");
    reveal_strlit("terminals");
    reveal_strlit("phase");
    assert("sessionId"@.len() == 9);
    assert("incarnation"@.len() == 11);
    assert("revision"@.len() == 8);
    assert("cwd"@.len() == 3);
    assert("session"@.len() == 7);
    assert("baselineRevision"@.len() == 16);
    assert("syncError"@.len() == 9);
    assert("controlState"@.len() == 12);
    assert("lifecycle"@.len() == 9);
    assert("activeTurn"@.len() == 10);
    assert("operation"@.len() == 9);
    assert("permissions"@.len() == 11);
    assert("elicitations"@.len() == 12);
    assert("urlFlows"@.len() == 8);
    assert("terminals"@.len() == 9);
    assert("phase"@.len() == 5);
    assert("sessionId"@[1] == 'e');
    assert("syncError"@[1] == 'y');
    assert("sessionId"@[0] == 's');
    assert("lifecycle"@[0] == 'l');
    assert("operation"@[0] == 'o');
    assert("terminals"@[0] == 't');
    assert("incarnation"@[0] == 'i');
    assert("permissions"@[0] == 'p');
    assert("revision"@[0] == 'r');
    assert("urlFlows"@[0] == 'u');
    assert("syncError"@[0] == 's');
    assert("controlState"@[0] == 'c');
    assert("elicitations"@[0] == 'e');
}

/// A state is written with its epoch and the numbers that it has reached.
pub proof fn law_snapshot_is_written(model: SnapshotModel)
    ensures
        <RuntimeSnapshot as Wire>::wire(model).get("epoch"@)
            == Some(JsonModel::String(model.epoch)),
        <RuntimeSnapshot as Wire>::wire(model).get("throughSeq"@)
            == Some(JsonModel::Integer(model.through_seq as int)),
        <RuntimeSnapshot as Wire>::wire(model).get("connectionRevision"@)
            == Some(JsonModel::Integer(model.connection_revision as int)),
        is_table::<SessionRuntime>(<RuntimeSnapshot as Wire>::wire(model).get("sessions"@),
            model.sessions),
        is_table::<PendingInteraction>(
            <RuntimeSnapshot as Wire>::wire(model).get("requestElicitations"@),
            model.request_elicitations,
        ),
        is_table::<UrlFlow>(<RuntimeSnapshot as Wire>::wire(model).get("requestUrlFlows"@),
            model.request_url_flows),
{
    reveal_strlit("epoch");
    reveal_strlit("throughSeq");
    reveal_strlit("connectionRevision");
    reveal_strlit("sessions");
    reveal_strlit("requestElicitations");
    reveal_strlit("requestUrlFlows");
    assert("epoch"@.len() == 5);
    assert("throughSeq"@.len() == 10);
    assert("connectionRevision"@.len() == 18);
    assert("sessions"@.len() == 8);
    assert("requestElicitations"@.len() == 19);
    assert("requestUrlFlows"@.len() == 15);
}

/// A change is written with its epoch and its number.
pub proof fn law_delta_is_written(model: DeltaModel)
    ensures
        <RuntimeDelta as Wire>::wire(model).get("epoch"@) == Some(JsonModel::String(model.epoch)),
        <RuntimeDelta as Wire>::wire(model).get("seq"@)
            == Some(JsonModel::Integer(model.seq as int)),
        model.scope_revision is None ==> <RuntimeDelta as Wire>::wire(model).get("scopeRevision"@)
            == Some(JsonModel::Null),
        model.scope_revision matches Some(revision)
            ==> <RuntimeDelta as Wire>::wire(model).get("scopeRevision"@) == Some(
            JsonModel::Integer(revision as int),
        ),
        <RuntimeDelta as Wire>::wire(model).get("change"@)
            == Some(<RuntimeChange as Wire>::wire(model.change)),
{
    reveal_strlit("epoch");
    reveal_strlit("seq");
    reveal_strlit("scopeRevision");
    reveal_strlit("change");
    assert("epoch"@.len() == 5);
    assert("seq"@.len() == 3);
    assert("scopeRevision"@.len() == 13);
    assert("change"@.len() == 6);
}

/// What a change tells is written under its kind, part by part.
#[verifier::spinoff_prover]
pub proof fn law_change_is_written(model: ChangeModel)
    ensures
        match model {
            ChangeModel::ConnectionUpsert { request_elicitations, request_url_flows } => {
                &&& <RuntimeChange as Wire>::wire(model).get("kind"@) == Some(
                    JsonModel::String("connection_upsert"@),
                )
                &&& is_table::<PendingInteraction>(
                    <RuntimeChange as Wire>::wire(model).get("request_elicitations"@),
                    request_elicitations,
                )
                &&& is_table::<UrlFlow>(
                    <RuntimeChange as Wire>::wire(model).get("request_url_flows"@),
                    request_url_flows,
                )
            },
            ChangeModel::SessionUpsert { session } => {
                &&& <RuntimeChange as Wire>::wire(model).get("kind"@) == Some(
                    JsonModel::String("session_upsert"@),
                )
                &&& <RuntimeChange as Wire>::wire(model).get("session"@)
                    == Some(<SessionRuntime as Wire>::wire(session))
            },
            ChangeModel::SessionControlUpdated { session_id, incarnation, revision, key, update,
                history_revision, phase, sync_error } => {
                &&& <RuntimeChange as Wire>::wire(model).get("kind"@) == Some(
                    JsonModel::String("session_control_updated"@),
                )
                &&& <RuntimeChange as Wire>::wire(model).get("session_id"@)
                    == Some(JsonModel::String(session_id))
                &&& <RuntimeChange as Wire>::wire(model).get("incarnation"@)
                    == Some(JsonModel::Integer(incarnation as int))
                &&& <RuntimeChange as Wire>::wire(model).get("revision"@)
                    == Some(JsonModel::Integer(revision as int))
                &&& <RuntimeChange as Wire>::wire(model).get("key"@) == Some(JsonModel::String(key))
                &&& <RuntimeChange as Wire>::wire(model).get("update"@) == Some(update)
                &&& <RuntimeChange as Wire>::wire(model).get("history_revision"@)
                    == Some(or_null_text(history_revision))
                &&& <RuntimeChange as Wire>::wire(model).get("phase"@)
                    == Some(JsonModel::String(name_of_phase(phase)))
                &&& <RuntimeChange as Wire>::wire(model).get("sync_error"@)
                    == Some(or_null_text(sync_error))
            },
            ChangeModel::TurnUpdateAppended { session_id, incarnation, revision, operation_id,
                update } => {
                &&& <RuntimeChange as Wire>::wire(model).get("kind"@) == Some(
                    JsonModel::String("turn_update_appended"@),
                )
                &&& <RuntimeChange as Wire>::wire(model).get("session_id"@)
                    == Some(JsonModel::String(session_id))
                &&& <RuntimeChange as Wire>::wire(model).get("incarnation"@)
                    == Some(JsonModel::Integer(incarnation as int))
                &&& <RuntimeChange as Wire>::wire(model).get("revision"@)
                    == Some(JsonModel::Integer(revision as int))
                &&& <RuntimeChange as Wire>::wire(model).get("operation_id"@)
                    == Some(JsonModel::String(operation_id))
                &&& <RuntimeChange as Wire>::wire(model).get("update"@) == Some(update)
            },
            ChangeModel::TerminalUpdated { session_id, incarnation, revision, terminal_id,
                terminal } => {
                &&& <RuntimeChange as Wire>::wire(model).get("kind"@) == Some(
                    JsonModel::String("terminal_updated"@),
                )
                &&& <RuntimeChange as Wire>::wire(model).get("session_id"@)
                    == Some(JsonModel::String(session_id))
                &&& <RuntimeChange as Wire>::wire(model).get("incarnation"@)
                    == Some(JsonModel::Integer(incarnation as int))
                &&& <RuntimeChange as Wire>::wire(model).get("revision"@)
                    == Some(JsonModel::Integer(revision as int))
                &&& <RuntimeChange as Wire>::wire(model).get("terminal_id"@)
                    == Some(JsonModel::String(terminal_id))
                &&& <RuntimeChange as Wire>::wire(model).get("terminal"@) == Some(terminal)
            },
            ChangeModel::SessionRemoved { session_id, incarnation } => {
                &&& <RuntimeChange as Wire>::wire(model).get("kind"@) == Some(
                    JsonModel::String("session_removed"@),
                )
                &&& <RuntimeChange as Wire>::wire(model).get("session_id"@)
                    == Some(JsonModel::String(session_id))
                &&& <RuntimeChange as Wire>::wire(model).get("incarnation"@)
                    == Some(JsonModel::Integer(incarnation as int))
            },
        },
{
    reveal_strlit("kind");
    reveal_strlit("request_elicitations");
    reveal_strlit("request_url_flows");
    reveal_strlit("session");
    reveal_strlit("session_id");
    reveal_strlit("incarnation");
    reveal_strlit("revision");
    reveal_strlit("key");
    reveal_strlit("update");
    reveal_strlit("history_revision");
    reveal_strlit("phase");
    reveal_strlit("sync_error");
    reveal_strlit("operation_id");
    reveal_strlit("terminal_id");
    reveal_strlit("terminal");
    assert("kind"@.len() == 4);
    assert("request_elicitations"@.len() == 20);
    assert("request_url_flows"@.len() == 17);
    assert("session"@.len() == 7);
    assert("session_id"@.len() == 10);
    assert("incarnation"@.len() == 11);
    assert("revision"@.len() == 8);
    assert("key"@.len() == 3);
    assert("update"@.len() == 6);
    assert("history_revision"@.len() == 16);
    assert("phase"@.len() == 5);
    assert("sync_error"@.len() == 10);
    assert("operation_id"@.len() == 12);
    assert("terminal_id"@.len() == 11);
    assert("terminal"@.len() == 8);
    assert("session_id"@[1] == 'e');
    assert("sync_error"@[1] == 'y');
    assert("incarnation"@[0] == 'i');
    assert("terminal_id"@[0] == 't');
    assert("revision"@[0] == 'r');
    assert("terminal"@[0] == 't');
}

} // verus!
