//! The runtime state: what is published of a session, what changes are
//! published, and what the owner of a session keeps to itself.
use crate::fold::RuntimeStateError;
use crate::json::{copy_items, items_model, Json, JsonModel};
use crate::semantic::texts;
use crate::session_update::optional_text;
use crate::table::{Duplicate, Table};
use vstd::prelude::*;

verus! {

/// The phase of the history of a session.
#[derive(Debug, Clone, Copy, PartialEq, Eq, Structural)]
pub enum MirrorPhase {
    Cold,
    Ready,
    Running,
    Reconciling,
    Blocked,
}

/// Why the history of a session refused a transition.
#[derive(Debug, Clone, Copy, PartialEq, Eq, Structural)]
pub enum MirrorError {
    UnknownSession,
    StaleIncarnation,
    OperationMismatch,
    Busy,
    StaleRevision,
}

/// What the history of a session is asked to admit.
#[derive(Debug, Clone, Copy, PartialEq, Eq, Structural)]
pub enum SessionAdmission {
    Attachment,
    Fork,
    Close,
    Delete,
    Control,
}

/// Where a live session stands.
#[derive(Debug, Clone, Copy, PartialEq, Eq, Structural)]
pub enum SessionLifecycle {
    Attaching,
    Active,
    Closing,
    ClosingForDelete,
    Deleting,
    Closed,
    Uncertain,
}

/// What an exclusive operation on a session does.
#[derive(Debug, Clone, Copy, PartialEq, Eq, Structural)]
pub enum SessionOperationKind {
    Load,
    Resume,
    Fork,
    Close,
    Delete,
    SetMode,
    SetConfig,
}

/// What an operation asks of the history of its session.
pub open spec fn admission_of(kind: SessionOperationKind) -> SessionAdmission {
    match kind {
        SessionOperationKind::Load => SessionAdmission::Attachment,
        SessionOperationKind::Resume => SessionAdmission::Attachment,
        SessionOperationKind::Fork => SessionAdmission::Fork,
        SessionOperationKind::Close => SessionAdmission::Close,
        SessionOperationKind::Delete => SessionAdmission::Delete,
        SessionOperationKind::SetMode => SessionAdmission::Control,
        SessionOperationKind::SetConfig => SessionAdmission::Control,
    }
}

impl SessionOperationKind {
    /// What the history has to admit for the operation.
    pub fn admission(self) -> (admission: SessionAdmission)
        ensures
            admission == admission_of(self),
    {
        match self {
            SessionOperationKind::Load | SessionOperationKind::Resume => SessionAdmission::Attachment,
            SessionOperationKind::Fork => SessionAdmission::Fork,
            SessionOperationKind::Close => SessionAdmission::Close,
            SessionOperationKind::Delete => SessionAdmission::Delete,
            SessionOperationKind::SetMode
            | SessionOperationKind::SetConfig => SessionAdmission::Control,
        }
    }
}

/// Where a flow through a web page stands.
#[derive(Debug, Clone, Copy, PartialEq, Eq, Structural)]
pub enum UrlFlowStatus {
    Waiting,
    Completed,
    Cancelled,
}

#[derive(Debug, Clone, Copy, PartialEq, Eq, Structural)]
pub enum InteractionResolution {
    Applied,
    AlreadyResolved,
}

#[derive(Debug, Clone, Copy, PartialEq, Eq, Structural)]
pub enum InteractionResponseStart {
    Applied,
    Duplicate,
}

#[derive(Debug, Clone, Copy, PartialEq, Eq, Structural)]
pub enum UrlFlowResolution {
    Applied,
    AlreadyTerminal,
    StaleRegistration,
}

#[derive(Debug, Clone, Copy, PartialEq, Eq, Structural)]
pub enum InteractionUpsert {
    Inserted,
    Duplicate,
    AlreadyResolved,
}

#[derive(Debug, Clone, Copy, PartialEq, Eq, Structural)]
pub enum TerminalUpsert {
    Inserted,
    Updated,
    Duplicate,
    Stale,
}

/// Why a turn was refused: by the history or by the live session.
#[derive(Debug, Clone, Copy, PartialEq, Eq, Structural)]
pub enum SessionTurnError {
    History(MirrorError),
    Live(RuntimeStateError),
}

/// An exclusive operation on a session.
#[derive(Debug)]
pub struct SessionOperationState {
    pub operation_id: String,
    pub kind: SessionOperationKind,
    pub stage: String,
    pub uncertainty_reason: Option<String>,
}

#[verifier::ext_equal]
pub struct OperationModel {
    pub operation_id: Seq<char>,
    pub kind: SessionOperationKind,
    pub stage: Seq<char>,
    pub uncertainty_reason: Option<Seq<char>>,
}

impl View for SessionOperationState {
    type V = OperationModel;

    open spec fn view(&self) -> OperationModel {
        OperationModel {
            operation_id: self.operation_id@,
            kind: self.kind,
            stage: self.stage@,
            uncertainty_reason: optional_text(self.uncertainty_reason),
        }
    }
}

impl Duplicate for SessionOperationState {
    fn duplicate(&self) -> (copy: Self) {
        SessionOperationState {
            operation_id: self.operation_id.clone(),
            kind: self.kind,
            stage: self.stage.clone(),
            uncertainty_reason: self.uncertainty_reason.clone(),
        }
    }
}

/// The model of an optional value.
pub open spec fn optional<T: View>(value: Option<T>) -> Option<T::V> {
    match value {
        Some(value) => Some(value@),
        None => None,
    }
}

/// Copies an optional value.
pub fn duplicate_optional<T: Duplicate>(value: &Option<T>) -> (copy: Option<T>)
    ensures
        optional(copy) == optional(*value),
{
    match value {
        Some(value) => Some(value.duplicate()),
        None => None,
    }
}

/// A question to the user that waits for an answer.
#[derive(Debug)]
pub struct PendingInteraction {
    pub interaction_id: String,
    pub request: Json,
    pub operation_id: Option<String>,
    pub responding_operation_id: Option<String>,
}

#[verifier::ext_equal]
pub struct InteractionModel {
    pub interaction_id: Seq<char>,
    pub request: JsonModel,
    pub operation_id: Option<Seq<char>>,
    pub responding_operation_id: Option<Seq<char>>,
}

impl View for PendingInteraction {
    type V = InteractionModel;

    open spec fn view(&self) -> InteractionModel {
        InteractionModel {
            interaction_id: self.interaction_id@,
            request: self.request@,
            operation_id: optional_text(self.operation_id),
            responding_operation_id: optional_text(self.responding_operation_id),
        }
    }
}

impl Duplicate for PendingInteraction {
    fn duplicate(&self) -> (copy: Self) {
        PendingInteraction {
            interaction_id: self.interaction_id.clone(),
            request: self.request.clone(),
            operation_id: self.operation_id.clone(),
            responding_operation_id: self.responding_operation_id.clone(),
        }
    }
}

/// A flow through a web page. The registration tells flows apart that use one
/// identifier after the other; it is not published.
#[derive(Debug)]
pub struct UrlFlow {
    pub elicitation_id: String,
    pub registration_id: String,
    pub request: Json,
    pub status: UrlFlowStatus,
}

#[verifier::ext_equal]
pub struct UrlFlowModel {
    pub elicitation_id: Seq<char>,
    pub registration_id: Seq<char>,
    pub request: JsonModel,
    pub status: UrlFlowStatus,
}

impl View for UrlFlow {
    type V = UrlFlowModel;

    open spec fn view(&self) -> UrlFlowModel {
        UrlFlowModel {
            elicitation_id: self.elicitation_id@,
            registration_id: self.registration_id@,
            request: self.request@,
            status: self.status,
        }
    }
}

impl Duplicate for UrlFlow {
    fn duplicate(&self) -> (copy: Self) {
        UrlFlow {
            elicitation_id: self.elicitation_id.clone(),
            registration_id: self.registration_id.clone(),
            request: self.request.clone(),
            status: self.status,
        }
    }
}

/// A turn as it is published.
#[derive(Debug)]
pub struct ActiveTurn {
    pub operation_id: String,
    pub turn_id: String,
    pub prompt: Vec<Json>,
    pub updates: Vec<Json>,
    pub cancel_requested: bool,
}

#[verifier::ext_equal]
pub struct TurnModel {
    pub operation_id: Seq<char>,
    pub turn_id: Seq<char>,
    pub prompt: Seq<JsonModel>,
    pub updates: Seq<JsonModel>,
    pub cancel_requested: bool,
}

impl View for ActiveTurn {
    type V = TurnModel;

    open spec fn view(&self) -> TurnModel {
        TurnModel {
            operation_id: self.operation_id@,
            turn_id: self.turn_id@,
            prompt: items_model(self.prompt@),
            updates: items_model(self.updates@),
            cancel_requested: self.cancel_requested,
        }
    }
}

impl Duplicate for ActiveTurn {
    fn duplicate(&self) -> (copy: Self) {
        ActiveTurn {
            operation_id: self.operation_id.clone(),
            turn_id: self.turn_id.clone(),
            prompt: copy_items(&self.prompt),
            updates: copy_items(&self.updates),
            cancel_requested: self.cancel_requested,
        }
    }
}

/// A session as it is published. The revision of the history, its phase and
/// its error are those of the last publication.
#[derive(Debug)]
pub struct SessionRuntime {
    pub session_id: String,
    pub incarnation: u64,
    pub revision: u64,
    pub cwd: String,
    pub session: Json,
    pub control_state: Table<Json>,
    pub lifecycle: SessionLifecycle,
    pub active_turn: Option<ActiveTurn>,
    pub operation: Option<SessionOperationState>,
    pub permissions: Table<PendingInteraction>,
    pub elicitations: Table<PendingInteraction>,
    pub url_flows: Table<UrlFlow>,
    pub terminals: Table<Json>,
    pub history_revision: Option<String>,
    pub phase: MirrorPhase,
    pub sync_error: Option<String>,
}

#[verifier::ext_equal]
pub struct SessionModel {
    pub session_id: Seq<char>,
    pub incarnation: u64,
    pub revision: u64,
    pub cwd: Seq<char>,
    pub session: JsonModel,
    pub control_state: Map<Seq<char>, JsonModel>,
    pub lifecycle: SessionLifecycle,
    pub active_turn: Option<TurnModel>,
    pub operation: Option<OperationModel>,
    pub permissions: Map<Seq<char>, InteractionModel>,
    pub elicitations: Map<Seq<char>, InteractionModel>,
    pub url_flows: Map<Seq<char>, UrlFlowModel>,
    pub terminals: Map<Seq<char>, JsonModel>,
    pub history_revision: Option<Seq<char>>,
    pub phase: MirrorPhase,
    pub sync_error: Option<Seq<char>>,
}

impl View for SessionRuntime {
    type V = SessionModel;

    open spec fn view(&self) -> SessionModel {
        SessionModel {
            session_id: self.session_id@,
            incarnation: self.incarnation,
            revision: self.revision,
            cwd: self.cwd@,
            session: self.session@,
            control_state: self.control_state@,
            lifecycle: self.lifecycle,
            active_turn: optional(self.active_turn),
            operation: optional(self.operation),
            permissions: self.permissions@,
            elicitations: self.elicitations@,
            url_flows: self.url_flows@,
            terminals: self.terminals@,
            history_revision: optional_text(self.history_revision),
            phase: self.phase,
            sync_error: optional_text(self.sync_error),
        }
    }
}

impl Duplicate for SessionRuntime {
    fn duplicate(&self) -> (copy: Self) {
        SessionRuntime {
            session_id: self.session_id.clone(),
            incarnation: self.incarnation,
            revision: self.revision,
            cwd: self.cwd.clone(),
            session: self.session.clone(),
            control_state: self.control_state.duplicate(),
            lifecycle: self.lifecycle,
            active_turn: duplicate_optional(&self.active_turn),
            operation: duplicate_optional(&self.operation),
            permissions: self.permissions.duplicate(),
            elicitations: self.elicitations.duplicate(),
            url_flows: self.url_flows.duplicate(),
            terminals: self.terminals.duplicate(),
            history_revision: self.history_revision.clone(),
            phase: self.phase,
            sync_error: self.sync_error.clone(),
        }
    }
}

/// All that is published, up to a sequence number.
#[derive(Debug)]
pub struct RuntimeSnapshot {
    pub epoch: String,
    pub through_seq: u64,
    pub connection_revision: u64,
    pub sessions: Table<SessionRuntime>,
    pub request_elicitations: Table<PendingInteraction>,
    pub request_url_flows: Table<UrlFlow>,
}

#[verifier::ext_equal]
pub struct SnapshotModel {
    pub epoch: Seq<char>,
    pub through_seq: u64,
    pub connection_revision: u64,
    pub sessions: Map<Seq<char>, SessionModel>,
    pub request_elicitations: Map<Seq<char>, InteractionModel>,
    pub request_url_flows: Map<Seq<char>, UrlFlowModel>,
}

impl View for RuntimeSnapshot {
    type V = SnapshotModel;

    open spec fn view(&self) -> SnapshotModel {
        SnapshotModel {
            epoch: self.epoch@,
            through_seq: self.through_seq,
            connection_revision: self.connection_revision,
            sessions: self.sessions@,
            request_elicitations: self.request_elicitations@,
            request_url_flows: self.request_url_flows@,
        }
    }
}

impl Duplicate for RuntimeSnapshot {
    fn duplicate(&self) -> (copy: Self) {
        RuntimeSnapshot {
            epoch: self.epoch.clone(),
            through_seq: self.through_seq,
            connection_revision: self.connection_revision,
            sessions: self.sessions.duplicate(),
            request_elicitations: self.request_elicitations.duplicate(),
            request_url_flows: self.request_url_flows.duplicate(),
        }
    }
}

/// One published change.
#[derive(Debug)]
pub enum RuntimeChange {
    ConnectionUpsert {
        request_elicitations: Table<PendingInteraction>,
        request_url_flows: Table<UrlFlow>,
    },
    SessionUpsert { session: Box<SessionRuntime> },
    SessionControlUpdated {
        session_id: String,
        incarnation: u64,
        revision: u64,
        key: String,
        update: Json,
        history_revision: Option<String>,
        phase: MirrorPhase,
        sync_error: Option<String>,
    },
    TurnUpdateAppended {
        session_id: String,
        incarnation: u64,
        revision: u64,
        operation_id: String,
        update: Json,
    },
    TerminalUpdated {
        session_id: String,
        incarnation: u64,
        revision: u64,
        terminal_id: String,
        terminal: Json,
    },
    SessionRemoved { session_id: String, incarnation: u64 },
}

#[verifier::ext_equal]
pub enum ChangeModel {
    ConnectionUpsert {
        request_elicitations: Map<Seq<char>, InteractionModel>,
        request_url_flows: Map<Seq<char>, UrlFlowModel>,
    },
    SessionUpsert { session: SessionModel },
    SessionControlUpdated {
        session_id: Seq<char>,
        incarnation: u64,
        revision: u64,
        key: Seq<char>,
        update: JsonModel,
        history_revision: Option<Seq<char>>,
        phase: MirrorPhase,
        sync_error: Option<Seq<char>>,
    },
    TurnUpdateAppended {
        session_id: Seq<char>,
        incarnation: u64,
        revision: u64,
        operation_id: Seq<char>,
        update: JsonModel,
    },
    TerminalUpdated {
        session_id: Seq<char>,
        incarnation: u64,
        revision: u64,
        terminal_id: Seq<char>,
        terminal: JsonModel,
    },
    SessionRemoved { session_id: Seq<char>, incarnation: u64 },
}

impl View for RuntimeChange {
    type V = ChangeModel;

    open spec fn view(&self) -> ChangeModel {
        match self {
            RuntimeChange::ConnectionUpsert {
                request_elicitations,
                request_url_flows,
            } => ChangeModel::ConnectionUpsert {
                request_elicitations: request_elicitations@,
                request_url_flows: request_url_flows@,
            },
            RuntimeChange::SessionUpsert { session } => ChangeModel::SessionUpsert {
                session: session@,
            },
            RuntimeChange::SessionControlUpdated {
                session_id,
                incarnation,
                revision,
                key,
                update,
                history_revision,
                phase,
                sync_error,
            } => ChangeModel::SessionControlUpdated {
                session_id: session_id@,
                incarnation: *incarnation,
                revision: *revision,
                key: key@,
                update: update@,
                history_revision: optional_text(*history_revision),
                phase: *phase,
                sync_error: optional_text(*sync_error),
            },
            RuntimeChange::TurnUpdateAppended {
                session_id,
                incarnation,
                revision,
                operation_id,
                update,
            } => ChangeModel::TurnUpdateAppended {
                session_id: session_id@,
                incarnation: *incarnation,
                revision: *revision,
                operation_id: operation_id@,
                update: update@,
            },
            RuntimeChange::TerminalUpdated {
                session_id,
                incarnation,
                revision,
                terminal_id,
                terminal,
            } => ChangeModel::TerminalUpdated {
                session_id: session_id@,
                incarnation: *incarnation,
                revision: *revision,
                terminal_id: terminal_id@,
                terminal: terminal@,
            },
            RuntimeChange::SessionRemoved { session_id, incarnation } => ChangeModel::SessionRemoved {
                session_id: session_id@,
                incarnation: *incarnation,
            },
        }
    }
}

impl Duplicate for RuntimeChange {
    fn duplicate(&self) -> (copy: Self) {
        match self {
            RuntimeChange::ConnectionUpsert {
                request_elicitations,
                request_url_flows,
            } => RuntimeChange::ConnectionUpsert {
                request_elicitations: request_elicitations.duplicate(),
                request_url_flows: request_url_flows.duplicate(),
            },
            RuntimeChange::SessionUpsert { session } => RuntimeChange::SessionUpsert {
                session: Box::new(session.duplicate()),
            },
            RuntimeChange::SessionControlUpdated {
                session_id,
                incarnation,
                revision,
                key,
                update,
                history_revision,
                phase,
                sync_error,
            } => RuntimeChange::SessionControlUpdated {
                session_id: session_id.clone(),
                incarnation: *incarnation,
                revision: *revision,
                key: key.clone(),
                update: update.clone(),
                history_revision: history_revision.clone(),
                phase: *phase,
                sync_error: sync_error.clone(),
            },
            RuntimeChange::TurnUpdateAppended {
                session_id,
                incarnation,
                revision,
                operation_id,
                update,
            } => RuntimeChange::TurnUpdateAppended {
                session_id: session_id.clone(),
                incarnation: *incarnation,
                revision: *revision,
                operation_id: operation_id.clone(),
                update: update.clone(),
            },
            RuntimeChange::TerminalUpdated {
                session_id,
                incarnation,
                revision,
                terminal_id,
                terminal,
            } => RuntimeChange::TerminalUpdated {
                session_id: session_id.clone(),
                incarnation: *incarnation,
                revision: *revision,
                terminal_id: terminal_id.clone(),
                terminal: terminal.clone(),
            },
            RuntimeChange::SessionRemoved {
                session_id,
                incarnation,
            } => RuntimeChange::SessionRemoved {
                session_id: session_id.clone(),
                incarnation: *incarnation,
            },
        }
    }
}

/// A published change with its place in the sequence.
#[derive(Debug)]
pub struct RuntimeDelta {
    pub epoch: String,
    pub seq: u64,
    pub scope_revision: Option<u64>,
    pub change: RuntimeChange,
}

#[verifier::ext_equal]
pub struct DeltaModel {
    pub epoch: Seq<char>,
    pub seq: u64,
    pub scope_revision: Option<u64>,
    pub change: ChangeModel,
}

impl View for RuntimeDelta {
    type V = DeltaModel;

    open spec fn view(&self) -> DeltaModel {
        DeltaModel {
            epoch: self.epoch@,
            seq: self.seq,
            scope_revision: self.scope_revision,
            change: self.change@,
        }
    }
}

impl Duplicate for RuntimeDelta {
    fn duplicate(&self) -> (copy: Self) {
        RuntimeDelta {
            epoch: self.epoch.clone(),
            seq: self.seq,
            scope_revision: self.scope_revision,
            change: self.change.duplicate(),
        }
    }
}

/// Work that a transition leaves to be done outside.
#[derive(Debug, PartialEq, Eq)]
pub enum RuntimeEffect {
    CancelPermissionResponder { session_id: String, incarnation: u64, interaction_id: String },
    CancelElicitationResponder {
        session_id: Option<String>,
        incarnation: Option<u64>,
        interaction_id: String,
    },
    AbortUrlFlow {
        session_id: Option<String>,
        incarnation: Option<u64>,
        elicitation_id: String,
        registration_id: String,
    },
    ReleaseTerminal { session_id: String, terminal_id: String },
}

#[verifier::ext_equal]
pub enum EffectModel {
    CancelPermissionResponder {
        session_id: Seq<char>,
        incarnation: u64,
        interaction_id: Seq<char>,
    },
    CancelElicitationResponder {
        session_id: Option<Seq<char>>,
        incarnation: Option<u64>,
        interaction_id: Seq<char>,
    },
    AbortUrlFlow {
        session_id: Option<Seq<char>>,
        incarnation: Option<u64>,
        elicitation_id: Seq<char>,
        registration_id: Seq<char>,
    },
    ReleaseTerminal { session_id: Seq<char>, terminal_id: Seq<char> },
}

impl View for RuntimeEffect {
    type V = EffectModel;

    open spec fn view(&self) -> EffectModel {
        match self {
            RuntimeEffect::CancelPermissionResponder {
                session_id,
                incarnation,
                interaction_id,
            } => EffectModel::CancelPermissionResponder {
                session_id: session_id@,
                incarnation: *incarnation,
                interaction_id: interaction_id@,
            },
            RuntimeEffect::CancelElicitationResponder {
                session_id,
                incarnation,
                interaction_id,
            } => EffectModel::CancelElicitationResponder {
                session_id: optional_text(*session_id),
                incarnation: *incarnation,
                interaction_id: interaction_id@,
            },
            RuntimeEffect::AbortUrlFlow {
                session_id,
                incarnation,
                elicitation_id,
                registration_id,
            } => EffectModel::AbortUrlFlow {
                session_id: optional_text(*session_id),
                incarnation: *incarnation,
                elicitation_id: elicitation_id@,
                registration_id: registration_id@,
            },
            RuntimeEffect::ReleaseTerminal { session_id, terminal_id } => EffectModel::ReleaseTerminal {
                session_id: session_id@,
                terminal_id: terminal_id@,
            },
        }
    }
}

/// The models of a list of effects.
pub open spec fn effects_model(effects: Seq<RuntimeEffect>) -> Seq<EffectModel> {
    Seq::new(effects.len(), |i: int| effects[i]@)
}

/// Mutable live resources and the lifecycle of a session. Its exclusive
/// operation and the execution of its turn belong to its owner.
#[derive(Debug)]
pub struct SessionLiveState {
    pub revision: u64,
    pub cwd: String,
    pub session: Json,
    pub control_state: Table<Json>,
    pub lifecycle: SessionLifecycle,
    pub permissions: Table<PendingInteraction>,
    pub elicitations: Table<PendingInteraction>,
    pub url_flows: Table<UrlFlow>,
    pub terminals: Table<Json>,
    pub history_revision: Option<String>,
    pub phase: MirrorPhase,
    pub sync_error: Option<String>,
    pub resolved_permissions: Vec<String>,
    pub resolved_elicitations: Vec<String>,
    pub resolved_url_flows: Vec<String>,
    pub released_terminals: Vec<String>,
    pub attachment_candidate: Vec<Json>,
    pub attachment_candidate_bytes: usize,
}

#[verifier::ext_equal]
pub struct LiveModel {
    pub revision: u64,
    pub cwd: Seq<char>,
    pub session: JsonModel,
    pub control_state: Map<Seq<char>, JsonModel>,
    pub lifecycle: SessionLifecycle,
    pub permissions: Map<Seq<char>, InteractionModel>,
    pub elicitations: Map<Seq<char>, InteractionModel>,
    pub url_flows: Map<Seq<char>, UrlFlowModel>,
    pub terminals: Map<Seq<char>, JsonModel>,
    pub history_revision: Option<Seq<char>>,
    pub phase: MirrorPhase,
    pub sync_error: Option<Seq<char>>,
    pub resolved_permissions: Seq<Seq<char>>,
    pub resolved_elicitations: Seq<Seq<char>>,
    pub resolved_url_flows: Seq<Seq<char>>,
    pub released_terminals: Seq<Seq<char>>,
    pub attachment_candidate: Seq<JsonModel>,
    pub attachment_candidate_bytes: usize,
}

impl View for SessionLiveState {
    type V = LiveModel;

    open spec fn view(&self) -> LiveModel {
        LiveModel {
            revision: self.revision,
            cwd: self.cwd@,
            session: self.session@,
            control_state: self.control_state@,
            lifecycle: self.lifecycle,
            permissions: self.permissions@,
            elicitations: self.elicitations@,
            url_flows: self.url_flows@,
            terminals: self.terminals@,
            history_revision: optional_text(self.history_revision),
            phase: self.phase,
            sync_error: optional_text(self.sync_error),
            resolved_permissions: texts(self.resolved_permissions@),
            resolved_elicitations: texts(self.resolved_elicitations@),
            resolved_url_flows: texts(self.resolved_url_flows@),
            released_terminals: texts(self.released_terminals@),
            attachment_candidate: items_model(self.attachment_candidate@),
            attachment_candidate_bytes: self.attachment_candidate_bytes,
        }
    }
}

/// The execution of a turn by the Agent.
#[derive(Debug)]
pub struct TurnExecution {
    pub rpc_operation_id: String,
    pub cancel_requested: bool,
}

#[verifier::ext_equal]
pub struct ExecutionModel {
    pub rpc_operation_id: Seq<char>,
    pub cancel_requested: bool,
}

impl View for TurnExecution {
    type V = ExecutionModel;

    open spec fn view(&self) -> ExecutionModel {
        ExecutionModel {
            rpc_operation_id: self.rpc_operation_id@,
            cancel_requested: self.cancel_requested,
        }
    }
}

/// A turn laid over the history of a session.
#[derive(Debug)]
pub struct TurnOverlay {
    pub operation_id: String,
    pub client_intent_id: String,
    pub prompt: Vec<Json>,
    pub updates: Vec<Json>,
    pub execution: Option<TurnExecution>,
}

#[verifier::ext_equal]
pub struct OverlayModel {
    pub operation_id: Seq<char>,
    pub client_intent_id: Seq<char>,
    pub prompt: Seq<JsonModel>,
    pub updates: Seq<JsonModel>,
    pub execution: Option<ExecutionModel>,
}

impl View for TurnOverlay {
    type V = OverlayModel;

    open spec fn view(&self) -> OverlayModel {
        OverlayModel {
            operation_id: self.operation_id@,
            client_intent_id: self.client_intent_id@,
            prompt: items_model(self.prompt@),
            updates: items_model(self.updates@),
            execution: optional(self.execution),
        }
    }
}

/// The one owner of the state of a session.
#[derive(Debug)]
pub struct SessionState {
    pub session_id: String,
    pub incarnation: u64,
    pub live: Option<SessionLiveState>,
    pub operation: Option<SessionOperationState>,
    pub active_turn: Option<TurnOverlay>,
    pub history_revision: Option<String>,
    pub phase: MirrorPhase,
    pub sync_error: Option<String>,
}

#[verifier::ext_equal]
pub struct OwnerModel {
    pub session_id: Seq<char>,
    pub incarnation: u64,
    pub live: Option<LiveModel>,
    pub operation: Option<OperationModel>,
    pub active_turn: Option<OverlayModel>,
    pub history_revision: Option<Seq<char>>,
    pub phase: MirrorPhase,
    pub sync_error: Option<Seq<char>>,
}

impl View for SessionState {
    type V = OwnerModel;

    open spec fn view(&self) -> OwnerModel {
        OwnerModel {
            session_id: self.session_id@,
            incarnation: self.incarnation,
            live: optional(self.live),
            operation: optional(self.operation),
            active_turn: optional(self.active_turn),
            history_revision: optional_text(self.history_revision),
            phase: self.phase,
            sync_error: optional_text(self.sync_error),
        }
    }
}

/// The owner of a session of which nothing is known yet.
pub open spec fn cold_owner(session_id: Seq<char>, incarnation: u64) -> OwnerModel {
    OwnerModel {
        session_id,
        incarnation,
        live: None,
        operation: None,
        active_turn: None,
        history_revision: None,
        phase: MirrorPhase::Cold,
        sync_error: None,
    }
}

impl OwnerModel {
    /// The execution of the turn of the session.
    pub open spec fn execution(self) -> Option<ExecutionModel> {
        match self.active_turn {
            Some(turn) => turn.execution,
            None => None,
        }
    }

    /// Whether the session has an operation in a stage.
    pub open spec fn in_stage(self, stage: Seq<char>) -> bool {
        self.operation matches Some(operation) && operation.stage == stage
    }

    /// Whether transitions of the live session are admitted.
    pub open spec fn is_live(self) -> bool {
        self.live is Some && !self.in_stage("cleanup"@)
    }
}

impl SessionState {
    /// An owner of which nothing is live.
    pub fn cold(session_id: &str, incarnation: u64) -> (owner: Self)
        ensures
            owner@ == cold_owner(session_id@, incarnation),
    {
        SessionState {
            session_id: session_id.to_string(),
            incarnation,
            live: None,
            operation: None,
            active_turn: None,
            history_revision: None,
            phase: MirrorPhase::Cold,
            sync_error: None,
        }
    }

    /// The execution of the turn of the session.
    pub fn turn_execution(&self) -> (execution: Option<&TurnExecution>)
        ensures
            match execution {
                Some(execution) => self@.execution() == Some(execution@),
                None => self@.execution() is None,
            },
    {
        match &self.active_turn {
            Some(turn) => match &turn.execution {
                Some(execution) => Some(execution),
                None => None,
            },
            None => None,
        }
    }
}

} // verus!
