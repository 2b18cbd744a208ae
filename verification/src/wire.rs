//! The JSON form of what is published.
use crate::json::{copy_items, entries_model, put_entry, Json, JsonModel};
use crate::runtime_types::{
    optional, ActiveTurn, ChangeModel, DeltaModel, InteractionModel, MirrorPhase, OperationModel,
    PendingInteraction, RuntimeChange, RuntimeDelta, RuntimeSnapshot, SessionLifecycle,
    SessionModel, SessionOperationKind, SessionOperationState, SessionRuntime, SnapshotModel,
    TurnModel, UrlFlow, UrlFlowModel, UrlFlowStatus,
};
use crate::session_update::optional_text;
use crate::table::{sorted_keys, Table};
use vstd::prelude::*;

verus! {

/// A value with a JSON form.
pub trait Wire: View + Sized {
    /// The JSON form of a value.
    spec fn wire(model: Self::V) -> JsonModel;

    /// Gives the JSON form of the value.
    fn to_json(&self) -> (json: Json)
        ensures
            json@ == Self::wire(self@),
    ;
}

/// The object without fields.
pub open spec fn empty_object() -> JsonModel {
    JsonModel::Object(Map::empty())
}

/// A text as JSON, or null.
pub open spec fn text_or_null(text: Option<Seq<char>>) -> JsonModel {
    match text {
        Some(text) => JsonModel::String(text),
        None => JsonModel::Null,
    }
}

/// A text as JSON, or null.
pub fn text_json(text: &Option<String>) -> (json: Json)
    ensures
        json@ == text_or_null(optional_text(*text)),
{
    match text {
        Some(text) => Json::String(text.clone()),
        None => Json::Null,
    }
}

/// A value as JSON, or null.
pub open spec fn wire_or_null<T: Wire>(value: Option<T::V>) -> JsonModel {
    match value {
        Some(value) => T::wire(value),
        None => JsonModel::Null,
    }
}

/// A value as JSON, or null.
pub fn optional_json<T: Wire>(value: &Option<T>) -> (json: Json)
    ensures
        json@ == wire_or_null::<T>(optional(*value)),
{
    match value {
        Some(value) => value.to_json(),
        None => Json::Null,
    }
}

/// A table as JSON: an object with the same keys.
pub open spec fn wire_table<V: Wire>(table: Map<Seq<char>, V::V>) -> JsonModel {
    JsonModel::Object(
        Map::new(|key: Seq<char>| table.contains_key(key), |key: Seq<char>| V::wire(table[key])),
    )
}

/// A table as JSON: an object with the same keys.
pub fn table_json<V: Wire>(table: &Table<V>) -> (json: Json)
    ensures
        json@ == wire_table::<V>(table@),
{
    let mut entries: Vec<(String, Json)> = Vec::new();
    let len = table.len();
    let ghost keys = sorted_keys(table@);
    let mut i: usize = 0;
    while i < len
        invariant
            i <= len,
            keys == sorted_keys(table@),
            len == keys.len(),
            keys.to_set() == table@.dom(),
            forall|key: Seq<char>| #[trigger]
                entries_model(entries@).dom().contains(key) <==> keys.take(i as int).contains(key),
            forall|key: Seq<char>| #[trigger]
                entries_model(entries@).dom().contains(key) ==> entries_model(entries@)[key]
                    == V::wire(table@[key]),
        decreases len - i,
    {
        let key = table.key(i);
        let value = table.value(i);
        proof {
            let before = keys.take(i as int);
            let after = keys.take(i + 1);
            assert(after =~= before.push(key@));
            assert forall|k: Seq<char>| after.contains(k) == (before.contains(k) || k == key@) by {
                if before.contains(k) {
                    let j = choose|j: int| 0 <= j < before.len() && before[j] == k;
                    assert(after[j] == k);
                }
                assert(after[i as int] == key@);
                if after.contains(k) {
                    let j = choose|j: int| 0 <= j < after.len() && after[j] == k;
                    if j < i {
                        assert(before[j] == k);
                    }
                }
            }
        }
        put_entry(&mut entries, key, value.to_json());
        i += 1;
    }
    proof {
        assert(keys.take(i as int) =~= keys);
        let target = Map::new(
            |key: Seq<char>| table@.contains_key(key),
            |key: Seq<char>| V::wire(table@[key]),
        );
        assert forall|key: Seq<char>| #[trigger] entries_model(entries@).dom().contains(key)
            == table@.dom().contains(key) by {
            assert(keys.to_set().contains(key) == keys.contains(key));
        }
        assert(entries_model(entries@) =~= target);
    }
    Json::Object(entries)
}

impl Wire for Json {
    open spec fn wire(model: JsonModel) -> JsonModel {
        model
    }

    fn to_json(&self) -> (json: Json) {
        self.clone()
    }
}

/// The name of a phase.
pub open spec fn phase_name(phase: MirrorPhase) -> Seq<char> {
    match phase {
        MirrorPhase::Cold => "cold"@,
        MirrorPhase::Ready => "ready"@,
        MirrorPhase::Running => "running"@,
        MirrorPhase::Reconciling => "reconciling"@,
        MirrorPhase::Blocked => "blocked"@,
    }
}

/// The name of a phase.
pub fn phase_text(phase: MirrorPhase) -> (name: &'static str)
    ensures
        name@ == phase_name(phase),
{
    match phase {
        MirrorPhase::Cold => "cold",
        MirrorPhase::Ready => "ready",
        MirrorPhase::Running => "running",
        MirrorPhase::Reconciling => "reconciling",
        MirrorPhase::Blocked => "blocked",
    }
}

/// The name of a stage of life.
pub open spec fn lifecycle_name(lifecycle: SessionLifecycle) -> Seq<char> {
    match lifecycle {
        SessionLifecycle::Attaching => "attaching"@,
        SessionLifecycle::Active => "active"@,
        SessionLifecycle::Closing => "closing"@,
        SessionLifecycle::ClosingForDelete => "closing_for_delete"@,
        SessionLifecycle::Deleting => "deleting"@,
        SessionLifecycle::Closed => "closed"@,
        SessionLifecycle::Uncertain => "uncertain"@,
    }
}

/// The name of a stage of life.
pub fn lifecycle_text(lifecycle: SessionLifecycle) -> (name: &'static str)
    ensures
        name@ == lifecycle_name(lifecycle),
{
    match lifecycle {
        SessionLifecycle::Attaching => "attaching",
        SessionLifecycle::Active => "active",
        SessionLifecycle::Closing => "closing",
        SessionLifecycle::ClosingForDelete => "closing_for_delete",
        SessionLifecycle::Deleting => "deleting",
        SessionLifecycle::Closed => "closed",
        SessionLifecycle::Uncertain => "uncertain",
    }
}

/// The name of a kind of operation.
pub open spec fn kind_name(kind: SessionOperationKind) -> Seq<char> {
    match kind {
        SessionOperationKind::Load => "load"@,
        SessionOperationKind::Resume => "resume"@,
        SessionOperationKind::Fork => "fork"@,
        SessionOperationKind::Close => "close"@,
        SessionOperationKind::Delete => "delete"@,
        SessionOperationKind::SetMode => "set_mode"@,
        SessionOperationKind::SetConfig => "set_config"@,
    }
}

/// The name of a kind of operation.
pub fn kind_text(kind: SessionOperationKind) -> (name: &'static str)
    ensures
        name@ == kind_name(kind),
{
    match kind {
        SessionOperationKind::Load => "load",
        SessionOperationKind::Resume => "resume",
        SessionOperationKind::Fork => "fork",
        SessionOperationKind::Close => "close",
        SessionOperationKind::Delete => "delete",
        SessionOperationKind::SetMode => "set_mode",
        SessionOperationKind::SetConfig => "set_config",
    }
}

/// The name of the status of a URL flow.
pub open spec fn status_name(status: UrlFlowStatus) -> Seq<char> {
    match status {
        UrlFlowStatus::Waiting => "waiting"@,
        UrlFlowStatus::Completed => "completed"@,
        UrlFlowStatus::Cancelled => "cancelled"@,
    }
}

/// The name of the status of a URL flow.
pub fn status_text(status: UrlFlowStatus) -> (name: &'static str)
    ensures
        name@ == status_name(status),
{
    match status {
        UrlFlowStatus::Waiting => "waiting",
        UrlFlowStatus::Completed => "completed",
        UrlFlowStatus::Cancelled => "cancelled",
    }
}

impl Wire for SessionOperationState {
    open spec fn wire(model: OperationModel) -> JsonModel {
        empty_object().with_field("operationId"@, JsonModel::String(model.operation_id)).with_field(
            "kind"@,
            JsonModel::String(kind_name(model.kind)),
        ).with_field("stage"@, JsonModel::String(model.stage)).with_field(
            "uncertaintyReason"@,
            text_or_null(model.uncertainty_reason),
        )
    }

    fn to_json(&self) -> (json: Json) {
        let mut json = Json::object();
        json.put("operationId", Json::String(self.operation_id.clone()));
        json.put("kind", Json::text(kind_text(self.kind)));
        json.put("stage", Json::String(self.stage.clone()));
        json.put("uncertaintyReason", text_json(&self.uncertainty_reason));
        json
    }
}

impl Wire for PendingInteraction {
    open spec fn wire(model: InteractionModel) -> JsonModel {
        empty_object().with_field(
            "interactionId"@,
            JsonModel::String(model.interaction_id),
        ).with_field("request"@, model.request).with_field(
            "operationId"@,
            text_or_null(model.operation_id),
        ).with_field("respondingOperationId"@, text_or_null(model.responding_operation_id))
    }

    fn to_json(&self) -> (json: Json) {
        let mut json = Json::object();
        json.put("interactionId", Json::String(self.interaction_id.clone()));
        json.put("request", self.request.clone());
        json.put("operationId", text_json(&self.operation_id));
        json.put("respondingOperationId", text_json(&self.responding_operation_id));
        json
    }
}

impl Wire for UrlFlow {
    open spec fn wire(model: UrlFlowModel) -> JsonModel {
        empty_object().with_field(
            "elicitationId"@,
            JsonModel::String(model.elicitation_id),
        ).with_field("request"@, model.request).with_field(
            "status"@,
            JsonModel::String(status_name(model.status)),
        )
    }

    fn to_json(&self) -> (json: Json) {
        let mut json = Json::object();
        json.put("elicitationId", Json::String(self.elicitation_id.clone()));
        json.put("request", self.request.clone());
        json.put("status", Json::text(status_text(self.status)));
        json
    }
}

impl Wire for ActiveTurn {
    open spec fn wire(model: TurnModel) -> JsonModel {
        empty_object().with_field("operationId"@, JsonModel::String(model.operation_id)).with_field(
            "turnId"@,
            JsonModel::String(model.turn_id),
        ).with_field("prompt"@, JsonModel::Array(model.prompt)).with_field(
            "updates"@,
            JsonModel::Array(model.updates),
        ).with_field("cancelRequested"@, JsonModel::Bool(model.cancel_requested))
    }

    fn to_json(&self) -> (json: Json) {
        let mut json = Json::object();
        json.put("operationId", Json::String(self.operation_id.clone()));
        json.put("turnId", Json::String(self.turn_id.clone()));
        json.put("prompt", Json::Array(copy_items(&self.prompt)));
        json.put("updates", Json::Array(copy_items(&self.updates)));
        json.put("cancelRequested", Json::Bool(self.cancel_requested));
        json
    }
}

impl Wire for SessionRuntime {
    open spec fn wire(model: SessionModel) -> JsonModel {
        empty_object().with_field("sessionId"@, JsonModel::String(model.session_id)).with_field(
            "incarnation"@,
            JsonModel::Integer(model.incarnation as int),
        ).with_field("revision"@, JsonModel::Integer(model.revision as int)).with_field(
            "cwd"@,
            JsonModel::String(model.cwd),
        ).with_field("session"@, model.session).with_field(
            "controlState"@,
            wire_table::<Json>(model.control_state),
        ).with_field(
            "lifecycle"@,
            JsonModel::String(lifecycle_name(model.lifecycle)),
        ).with_field("activeTurn"@, wire_or_null::<ActiveTurn>(model.active_turn)).with_field(
            "operation"@,
            wire_or_null::<SessionOperationState>(model.operation),
        ).with_field(
            "permissions"@,
            wire_table::<PendingInteraction>(model.permissions),
        ).with_field(
            "elicitations"@,
            wire_table::<PendingInteraction>(model.elicitations),
        ).with_field("urlFlows"@, wire_table::<UrlFlow>(model.url_flows)).with_field(
            "terminals"@,
            wire_table::<Json>(model.terminals),
        ).with_field("baselineRevision"@, text_or_null(model.history_revision)).with_field(
            "phase"@,
            JsonModel::String(phase_name(model.phase)),
        ).with_field("syncError"@, text_or_null(model.sync_error))
    }

    fn to_json(&self) -> (json: Json) {
        let mut json = Json::object();
        json.put("sessionId", Json::String(self.session_id.clone()));
        json.put("incarnation", Json::Unsigned(self.incarnation));
        json.put("revision", Json::Unsigned(self.revision));
        json.put("cwd", Json::String(self.cwd.clone()));
        json.put("session", self.session.clone());
        json.put("controlState", table_json(&self.control_state));
        json.put("lifecycle", Json::text(lifecycle_text(self.lifecycle)));
        json.put("activeTurn", optional_json(&self.active_turn));
        json.put("operation", optional_json(&self.operation));
        json.put("permissions", table_json(&self.permissions));
        json.put("elicitations", table_json(&self.elicitations));
        json.put("urlFlows", table_json(&self.url_flows));
        json.put("terminals", table_json(&self.terminals));
        json.put("baselineRevision", text_json(&self.history_revision));
        json.put("phase", Json::text(phase_text(self.phase)));
        json.put("syncError", text_json(&self.sync_error));
        json
    }
}

impl Wire for RuntimeSnapshot {
    open spec fn wire(model: SnapshotModel) -> JsonModel {
        empty_object().with_field("epoch"@, JsonModel::String(model.epoch)).with_field(
            "throughSeq"@,
            JsonModel::Integer(model.through_seq as int),
        ).with_field(
            "connectionRevision"@,
            JsonModel::Integer(model.connection_revision as int),
        ).with_field("sessions"@, wire_table::<SessionRuntime>(model.sessions)).with_field(
            "requestElicitations"@,
            wire_table::<PendingInteraction>(model.request_elicitations),
        ).with_field("requestUrlFlows"@, wire_table::<UrlFlow>(model.request_url_flows))
    }

    fn to_json(&self) -> (json: Json) {
        let mut json = Json::object();
        json.put("epoch", Json::String(self.epoch.clone()));
        json.put("throughSeq", Json::Unsigned(self.through_seq));
        json.put("connectionRevision", Json::Unsigned(self.connection_revision));
        json.put("sessions", table_json(&self.sessions));
        json.put("requestElicitations", table_json(&self.request_elicitations));
        json.put("requestUrlFlows", table_json(&self.request_url_flows));
        json
    }
}

impl Wire for RuntimeChange {
    open spec fn wire(model: ChangeModel) -> JsonModel {
        match model {
            ChangeModel::ConnectionUpsert {
                request_elicitations,
                request_url_flows,
            } => empty_object().with_field(
                "kind"@,
                JsonModel::String("connection_upsert"@),
            ).with_field(
                "request_elicitations"@,
                wire_table::<PendingInteraction>(request_elicitations),
            ).with_field("request_url_flows"@, wire_table::<UrlFlow>(request_url_flows)),
            ChangeModel::SessionUpsert { session } => empty_object().with_field(
                "kind"@,
                JsonModel::String("session_upsert"@),
            ).with_field("session"@, <SessionRuntime as Wire>::wire(session)),
            ChangeModel::SessionControlUpdated {
                session_id,
                incarnation,
                revision,
                key,
                update,
                history_revision,
                phase,
                sync_error,
            } => empty_object().with_field(
                "kind"@,
                JsonModel::String("session_control_updated"@),
            ).with_field("session_id"@, JsonModel::String(session_id)).with_field(
                "incarnation"@,
                JsonModel::Integer(incarnation as int),
            ).with_field("revision"@, JsonModel::Integer(revision as int)).with_field(
                "key"@,
                JsonModel::String(key),
            ).with_field("update"@, update).with_field(
                "history_revision"@,
                text_or_null(history_revision),
            ).with_field("phase"@, JsonModel::String(phase_name(phase))).with_field(
                "sync_error"@,
                text_or_null(sync_error),
            ),
            ChangeModel::TurnUpdateAppended {
                session_id,
                incarnation,
                revision,
                operation_id,
                update,
            } => empty_object().with_field(
                "kind"@,
                JsonModel::String("turn_update_appended"@),
            ).with_field("session_id"@, JsonModel::String(session_id)).with_field(
                "incarnation"@,
                JsonModel::Integer(incarnation as int),
            ).with_field("revision"@, JsonModel::Integer(revision as int)).with_field(
                "operation_id"@,
                JsonModel::String(operation_id),
            ).with_field("update"@, update),
            ChangeModel::TerminalUpdated {
                session_id,
                incarnation,
                revision,
                terminal_id,
                terminal,
            } => empty_object().with_field(
                "kind"@,
                JsonModel::String("terminal_updated"@),
            ).with_field("session_id"@, JsonModel::String(session_id)).with_field(
                "incarnation"@,
                JsonModel::Integer(incarnation as int),
            ).with_field("revision"@, JsonModel::Integer(revision as int)).with_field(
                "terminal_id"@,
                JsonModel::String(terminal_id),
            ).with_field("terminal"@, terminal),
            ChangeModel::SessionRemoved { session_id, incarnation } => empty_object().with_field(
                "kind"@,
                JsonModel::String("session_removed"@),
            ).with_field("session_id"@, JsonModel::String(session_id)).with_field(
                "incarnation"@,
                JsonModel::Integer(incarnation as int),
            ),
        }
    }

    fn to_json(&self) -> (json: Json) {
        let mut json = Json::object();
        match self {
            RuntimeChange::ConnectionUpsert { request_elicitations, request_url_flows } => {
                json.put("kind", Json::text("connection_upsert"));
                json.put("request_elicitations", table_json(request_elicitations));
                json.put("request_url_flows", table_json(request_url_flows));
            },
            RuntimeChange::SessionUpsert { session } => {
                json.put("kind", Json::text("session_upsert"));
                json.put("session", session.to_json());
            },
            RuntimeChange::SessionControlUpdated {
                session_id,
                incarnation,
                revision,
                key,
                update,
                history_revision,
                phase,
                sync_error,
            } => {
                json.put("kind", Json::text("session_control_updated"));
                json.put("session_id", Json::String(session_id.clone()));
                json.put("incarnation", Json::Unsigned(*incarnation));
                json.put("revision", Json::Unsigned(*revision));
                json.put("key", Json::String(key.clone()));
                json.put("update", update.clone());
                json.put("history_revision", text_json(history_revision));
                json.put("phase", Json::text(phase_text(*phase)));
                json.put("sync_error", text_json(sync_error));
            },
            RuntimeChange::TurnUpdateAppended {
                session_id,
                incarnation,
                revision,
                operation_id,
                update,
            } => {
                json.put("kind", Json::text("turn_update_appended"));
                json.put("session_id", Json::String(session_id.clone()));
                json.put("incarnation", Json::Unsigned(*incarnation));
                json.put("revision", Json::Unsigned(*revision));
                json.put("operation_id", Json::String(operation_id.clone()));
                json.put("update", update.clone());
            },
            RuntimeChange::TerminalUpdated {
                session_id,
                incarnation,
                revision,
                terminal_id,
                terminal,
            } => {
                json.put("kind", Json::text("terminal_updated"));
                json.put("session_id", Json::String(session_id.clone()));
                json.put("incarnation", Json::Unsigned(*incarnation));
                json.put("revision", Json::Unsigned(*revision));
                json.put("terminal_id", Json::String(terminal_id.clone()));
                json.put("terminal", terminal.clone());
            },
            RuntimeChange::SessionRemoved { session_id, incarnation } => {
                json.put("kind", Json::text("session_removed"));
                json.put("session_id", Json::String(session_id.clone()));
                json.put("incarnation", Json::Unsigned(*incarnation));
            },
        }
        json
    }
}

impl Wire for RuntimeDelta {
    open spec fn wire(model: DeltaModel) -> JsonModel {
        empty_object().with_field("epoch"@, JsonModel::String(model.epoch)).with_field(
            "seq"@,
            JsonModel::Integer(model.seq as int),
        ).with_field(
            "scopeRevision"@,
            match model.scope_revision {
                Some(revision) => JsonModel::Integer(revision as int),
                None => JsonModel::Null,
            },
        ).with_field("change"@, <RuntimeChange as Wire>::wire(model.change))
    }

    fn to_json(&self) -> (json: Json) {
        let mut json = Json::object();
        json.put("epoch", Json::String(self.epoch.clone()));
        json.put("seq", Json::Unsigned(self.seq));
        json.put(
            "scopeRevision",
            match self.scope_revision {
                Some(revision) => Json::Unsigned(revision),
                None => Json::Null,
            },
        );
        json.put("change", self.change.to_json());
        json
    }
}

} // verus!
