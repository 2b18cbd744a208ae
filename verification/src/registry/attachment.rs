//! How sessions are opened, attached and loaded again.
use crate::fold::{
    controls_of, extract_control_state, retain_control_update, retain_session_metadata,
    retained_control, retained_metadata, RuntimeStateError,
};
use crate::journal::{bump, bumped};
use crate::json::{items_model, Json, JsonModel};
use crate::registry::{
    accepted, admitted, in_use, lemma_put_back, live_owner, refused, removal_published,
    session_published, with_effects, with_owner, without_owner, RegistryModel, Reservation,
    SessionRegistry, Step,
};
use crate::runtime_types::{
    cold_owner, InteractionModel, LiveModel, MirrorPhase, OperationModel, OwnerModel,
    SessionLifecycle, SessionLiveState, SessionOperationKind, SessionOperationState, SessionState,
    UrlFlowModel,
};
use crate::semantic::json_size;
use crate::session_live::{blocks, drain_effects, drain_session_liveness, is_blocked};
use crate::session_update::saturating_sum;
use crate::table::Table;
use crate::text::same_text;
use vstd::prelude::*;

verus! {

broadcast use lemma_put_back;

/// The live state of a session that has just been opened.
pub open spec fn fresh_live(
    cwd: Seq<char>,
    session: JsonModel,
    control_state: Map<Seq<char>, JsonModel>,
    lifecycle: SessionLifecycle,
) -> LiveModel {
    LiveModel {
        revision: 0,
        cwd,
        session,
        control_state,
        lifecycle,
        permissions: Map::empty(),
        elicitations: Map::empty(),
        url_flows: Map::empty(),
        terminals: Map::empty(),
        history_revision: None,
        phase: MirrorPhase::Ready,
        sync_error: None,
        resolved_permissions: Seq::empty(),
        resolved_elicitations: Seq::empty(),
        resolved_url_flows: Seq::empty(),
        released_terminals: Seq::empty(),
        attachment_candidate: Seq::empty(),
        attachment_candidate_bytes: 0,
    }
}

fn new_live(
    cwd: &str,
    session: Json,
    control_state: Table<Json>,
    lifecycle: SessionLifecycle,
) -> (live: SessionLiveState)
    ensures
        live@ == fresh_live(cwd@, session@, control_state@, lifecycle),
{
    let live = SessionLiveState {
        revision: 0,
        cwd: cwd.to_string(),
        session,
        control_state,
        lifecycle,
        permissions: Table::new(),
        elicitations: Table::new(),
        url_flows: Table::new(),
        terminals: Table::new(),
        history_revision: None,
        phase: MirrorPhase::Ready,
        sync_error: None,
        resolved_permissions: Vec::new(),
        resolved_elicitations: Vec::new(),
        resolved_url_flows: Vec::new(),
        released_terminals: Vec::new(),
        attachment_candidate: Vec::new(),
        attachment_candidate_bytes: 0,
    };
    assert(live@ =~= fresh_live(cwd@, session@, control_state@, lifecycle));
    live
}

/// Whether a session may be opened: it has no owner, or one without an
/// operation whose session is closed or gone.
pub open spec fn can_open(r: RegistryModel, session_id: Seq<char>) -> bool {
    r.sessions.contains_key(session_id) ==> {
        let owner = r.sessions[session_id];
        owner.operation is None && (owner.live matches Some(live) ==> live.lifecycle
            == SessionLifecycle::Closed)
    }
}

/// The owner of a session that is opened. The owner of another incarnation is
/// replaced.
pub open spec fn installed(
    r: RegistryModel,
    session_id: Seq<char>,
    incarnation: u64,
    live: LiveModel,
) -> OwnerModel {
    let base = if r.sessions.contains_key(session_id) && r.sessions[session_id].incarnation
        == incarnation {
        r.sessions[session_id]
    } else {
        cold_owner(session_id, incarnation)
    };
    OwnerModel { live: Some(live), ..base }
}

/// Opens a session.
pub open spec fn opened(
    r: RegistryModel,
    epoch: Seq<char>,
    session_id: Seq<char>,
    cwd: Seq<char>,
    session: JsonModel,
    control_state: Map<Seq<char>, JsonModel>,
) -> Step<u64> {
    if epoch != r.epoch {
        refused(r, RuntimeStateError::EpochMismatch)
    } else if !can_open(r, session_id) {
        refused(r, RuntimeStateError::BusySession)
    } else {
        let incarnation = bumped(r.next_incarnation);
        let live = fresh_live(
            cwd,
            retained_metadata(session_id, session),
            control_state,
            SessionLifecycle::Active,
        );
        accepted(
            session_published(
                RegistryModel { next_incarnation: incarnation, ..r },
                session_id,
                installed(r, session_id, incarnation, live),
            ),
            incarnation,
        )
    }
}

/// Opens a session that is derived from a live one.
pub open spec fn forked(
    r: RegistryModel,
    epoch: Seq<char>,
    session_id: Seq<char>,
    cwd: Seq<char>,
    session: JsonModel,
    source_id: Seq<char>,
    source_incarnation: u64,
    replay: Option<Seq<JsonModel>>,
) -> Step<u64> {
    match admitted(r, epoch, source_id, source_incarnation) {
        Err(error) => refused(r, error),
        Ok(source) => if source.live->0.lifecycle != SessionLifecycle::Active {
            refused(r, RuntimeStateError::SessionNotActive)
        } else {
            opened(
                r,
                epoch,
                session_id,
                cwd,
                session,
                match replay {
                    Some(replay) => controls_of(replay),
                    None => Map::empty(),
                },
            )
        },
    }
}

/// Starts to attach a session.
pub open spec fn attachment_started(
    r: RegistryModel,
    epoch: Seq<char>,
    session_id: Seq<char>,
    cwd: Seq<char>,
    operation_id: Seq<char>,
    kind: SessionOperationKind,
) -> Step<u64> {
    if epoch != r.epoch {
        refused(r, RuntimeStateError::EpochMismatch)
    } else if !(kind == SessionOperationKind::Load || kind == SessionOperationKind::Resume) {
        refused(r, RuntimeStateError::OperationMismatch)
    } else if in_use(r, operation_id, None) {
        refused(r, RuntimeStateError::OperationCollision)
    } else if !can_open(r, session_id) {
        refused(r, RuntimeStateError::BusySession)
    } else {
        let incarnation = bumped(r.next_incarnation);
        let live = fresh_live(cwd, JsonModel::Null, Map::empty(), SessionLifecycle::Attaching);
        let owner = OwnerModel {
            operation: Some(
                OperationModel {
                    operation_id,
                    kind,
                    stage: "attaching"@,
                    uncertainty_reason: None,
                },
            ),
            ..installed(r, session_id, incarnation, live)
        };
        accepted(
            session_published(
                RegistryModel { next_incarnation: incarnation, ..r },
                session_id,
                owner,
            ),
            incarnation,
        )
    }
}

/// Whether a live session holds something that a reload would lose.
pub open spec fn holds_resources(live: LiveModel) -> bool {
    ||| live.permissions != Map::<Seq<char>, InteractionModel>::empty()
    ||| live.elicitations != Map::<Seq<char>, InteractionModel>::empty()
    ||| live.url_flows != Map::<Seq<char>, UrlFlowModel>::empty()
    ||| live.terminals != Map::<Seq<char>, JsonModel>::empty()
    ||| live.attachment_candidate.len() > 0
}

/// Starts to load an active session again.
pub open spec fn reload_started(
    r: RegistryModel,
    epoch: Seq<char>,
    session_id: Seq<char>,
    incarnation: u64,
    operation_id: Seq<char>,
    kind: SessionOperationKind,
    history_admits: bool,
) -> Step<()> {
    if epoch != r.epoch {
        refused(r, RuntimeStateError::EpochMismatch)
    } else if kind != SessionOperationKind::Load {
        refused(r, RuntimeStateError::OperationMismatch)
    } else if in_use(r, operation_id, Some(Reservation { session_id, incarnation, kind })) {
        refused(r, RuntimeStateError::OperationCollision)
    } else {
        match live_owner(r, session_id, incarnation) {
            Err(error) => refused(r, error),
            Ok(owner) => if owner.operation is None && !history_admits {
                refused(r, RuntimeStateError::BusySession)
            } else if owner.live->0.lifecycle != SessionLifecycle::Active {
                refused(r, RuntimeStateError::SessionNotActive)
            } else if owner.execution() is Some || blocks(owner.operation, operation_id, kind)
                || holds_resources(owner.live->0) {
                refused(r, RuntimeStateError::BusySession)
            } else {
                accepted(
                    session_published(
                        r,
                        session_id,
                        OwnerModel {
                            operation: Some(
                                OperationModel {
                                    operation_id,
                                    kind,
                                    stage: "reloading"@,
                                    uncertainty_reason: None,
                                },
                            ),
                            live: Some(
                                LiveModel { attachment_candidate_bytes: 0, ..owner.live->0 },
                            ),
                            ..owner
                        },
                    ),
                    (),
                )
            },
        }
    }
}

/// Whether a session collects what it will hold once it is attached or loaded
/// again.
pub open spec fn collects(owner: OwnerModel) -> bool {
    owner.operation matches Some(operation) && {
        ||| owner.live->0.lifecycle == SessionLifecycle::Attaching && operation.stage
            == "attaching"@ && (operation.kind == SessionOperationKind::Load || operation.kind
            == SessionOperationKind::Resume)
        ||| owner.live->0.lifecycle == SessionLifecycle::Active && operation.stage
            == "reloading"@ && operation.kind == SessionOperationKind::Load
    }
}

/// Collects an update. Of the conversation nothing is collected, and nothing
/// is published yet.
pub open spec fn candidate_appended(
    r: RegistryModel,
    epoch: Seq<char>,
    session_id: Seq<char>,
    incarnation: u64,
    update: JsonModel,
) -> Step<()> {
    match admitted(r, epoch, session_id, incarnation) {
        Err(error) => refused(r, error),
        Ok(owner) => if !collects(owner) {
            refused(r, RuntimeStateError::OperationMismatch)
        } else {
            match retained_control(update) {
                None => accepted(r, ()),
                Some(control) => accepted(
                    with_owner(
                        r,
                        session_id,
                        OwnerModel {
                            live: Some(
                                LiveModel {
                                    attachment_candidate: owner.live->0.attachment_candidate.push(
                                        control,
                                    ),
                                    attachment_candidate_bytes: saturating_sum(
                                        owner.live->0.attachment_candidate_bytes,
                                        json_size(control),
                                    ),
                                    ..owner.live->0
                                },
                            ),
                            ..owner
                        },
                    ),
                    (),
                ),
            }
        },
    }
}

/// Whether an operation loads an active session again.
pub open spec fn reloads(owner: OwnerModel, operation_id: Seq<char>) -> bool {
    &&& owner.live->0.lifecycle == SessionLifecycle::Active
    &&& owner.operation matches Some(operation)
    &&& operation.operation_id == operation_id
    &&& operation.kind == SessionOperationKind::Load
    &&& operation.stage == "reloading"@
}

/// Ends the loading of a session: with a response, what was collected and the
/// response replace what the session held; without one, the session stays.
pub open spec fn reload_ended(
    r: RegistryModel,
    epoch: Seq<char>,
    session_id: Seq<char>,
    incarnation: u64,
    operation_id: Seq<char>,
    response: Option<JsonModel>,
) -> Step<()> {
    match admitted(r, epoch, session_id, incarnation) {
        Err(error) => refused(r, error),
        Ok(owner) => if !reloads(owner, operation_id) {
            refused(r, RuntimeStateError::OperationMismatch)
        } else {
            let live = LiveModel {
                attachment_candidate: Seq::empty(),
                attachment_candidate_bytes: 0,
                ..owner.live->0
            };
            let next = match response {
                Some(response) => LiveModel {
                    control_state: controls_of(owner.live->0.attachment_candidate),
                    session: retained_metadata(session_id, response),
                    ..live
                },
                None => live,
            };
            accepted(
                session_published(
                    r,
                    session_id,
                    OwnerModel { operation: None, live: Some(next), ..owner },
                ),
                (),
            )
        },
    }
}

/// Whether an operation of a kind attaches a session.
pub open spec fn attaches(
    owner: OwnerModel,
    operation_id: Seq<char>,
    kind: SessionOperationKind,
) -> bool {
    &&& owner.live->0.lifecycle == SessionLifecycle::Attaching
    &&& owner.operation matches Some(operation)
    &&& operation.operation_id == operation_id
    &&& operation.kind == kind
}

/// Ends the attachment of a session with success.
pub open spec fn attachment_completed(
    r: RegistryModel,
    epoch: Seq<char>,
    session_id: Seq<char>,
    incarnation: u64,
    operation_id: Seq<char>,
    kind: SessionOperationKind,
    response: JsonModel,
) -> Step<()> {
    match admitted(r, epoch, session_id, incarnation) {
        Err(error) => refused(r, error),
        Ok(owner) => if !attaches(owner, operation_id, kind) || !(kind == SessionOperationKind::Load
            || kind == SessionOperationKind::Resume) {
            refused(r, RuntimeStateError::OperationMismatch)
        } else {
            let live = owner.live->0;
            accepted(
                session_published(
                    r,
                    session_id,
                    OwnerModel {
                        operation: None,
                        live: Some(
                            LiveModel {
                                attachment_candidate: Seq::empty(),
                                attachment_candidate_bytes: 0,
                                control_state: live.control_state.union_prefer_right(
                                    controls_of(live.attachment_candidate),
                                ),
                                session: retained_metadata(session_id, response),
                                lifecycle: SessionLifecycle::Active,
                                ..live
                            },
                        ),
                        ..owner
                    },
                ),
                (),
            )
        },
    }
}

/// Ends the attachment of a session without success: the session is gone.
pub open spec fn attachment_failed(
    r: RegistryModel,
    epoch: Seq<char>,
    session_id: Seq<char>,
    incarnation: u64,
    operation_id: Seq<char>,
    kind: SessionOperationKind,
) -> Step<()> {
    match admitted(r, epoch, session_id, incarnation) {
        Err(error) => refused(r, error),
        Ok(owner) => if !attaches(owner, operation_id, kind) {
            refused(r, RuntimeStateError::OperationMismatch)
        } else {
            accepted(
                removal_published(
                    with_effects(
                        with_owner(
                            r,
                            session_id,
                            OwnerModel { operation: None, live: None, ..owner },
                        ),
                        drain_effects(session_id, incarnation, owner.live->0),
                    ),
                    session_id,
                    incarnation,
                ),
                (),
            )
        },
    }
}

/// Replaces what an idle session holds by what was loaded.
pub open spec fn synchronized(
    r: RegistryModel,
    epoch: Seq<char>,
    session_id: Seq<char>,
    incarnation: u64,
    response: JsonModel,
    replay: Seq<JsonModel>,
) -> Step<()> {
    match admitted(r, epoch, session_id, incarnation) {
        Err(error) => refused(r, error),
        Ok(owner) => if owner.live->0.lifecycle != SessionLifecycle::Active || owner.execution()
            is Some {
            refused(r, RuntimeStateError::BusySession)
        } else {
            accepted(
                session_published(
                    r,
                    session_id,
                    OwnerModel {
                        live: Some(
                            LiveModel {
                                session: retained_metadata(session_id, response),
                                control_state: controls_of(replay),
                                ..owner.live->0
                            },
                        ),
                        ..owner
                    },
                ),
                (),
            )
        },
    }
}

/// Whether an operation of a kind attaches a session.
fn is_attaching(owner: &SessionState, operation_id: &str, kind: SessionOperationKind) -> (found:
    bool)
    requires
        owner.live is Some,
    ensures
        found == attaches(owner@, operation_id@, kind),
{
    match (&owner.live, &owner.operation) {
        (Some(live), Some(operation)) => live.lifecycle == SessionLifecycle::Attaching
            && operation.kind == kind && same_text(operation.operation_id.as_str(), operation_id),
        _ => false,
    }
}

fn is_reloading(owner: &SessionState, operation_id: &str) -> (found: bool)
    requires
        owner.live is Some,
    ensures
        found == reloads(owner@, operation_id@),
{
    match (&owner.live, &owner.operation) {
        (Some(live), Some(operation)) => live.lifecycle == SessionLifecycle::Active
            && operation.kind == SessionOperationKind::Load && same_text(
            operation.operation_id.as_str(),
            operation_id,
        ) && same_text(operation.stage.as_str(), "reloading"),
        _ => false,
    }
}

fn is_collecting(owner: &SessionState) -> (found: bool)
    requires
        owner.live is Some,
    ensures
        found == collects(owner@),
{
    match (&owner.live, &owner.operation) {
        (Some(live), Some(operation)) => (live.lifecycle == SessionLifecycle::Attaching
            && same_text(operation.stage.as_str(), "attaching") && (operation.kind
            == SessionOperationKind::Load || operation.kind == SessionOperationKind::Resume)) || (
        live.lifecycle == SessionLifecycle::Active && operation.kind == SessionOperationKind::Load
            && same_text(operation.stage.as_str(), "reloading")),
        _ => false,
    }
}

impl SessionRegistry {
    fn is_openable(&self, session_id: &str) -> (openable: bool)
        ensures
            openable == can_open(self@, session_id@),
    {
        match self.sessions.get(session_id) {
            Some(owner) => owner.operation.is_none() && match &owner.live {
                Some(live) => live.lifecycle == SessionLifecycle::Closed,
                None => true,
            },
            None => true,
        }
    }

    /// The owner of a session that is opened, taken out of the registry.
    fn install_live(&mut self, session_id: &str, incarnation: u64, live: SessionLiveState) -> (owner:
        SessionState)
        ensures
            owner@ == installed(old(self)@, session_id@, incarnation, live@),
            final(self)@ == without_owner(old(self)@, session_id@),
    {
        let previous = self.sessions.remove(session_id);
        let mut owner = match previous {
            Some(owner) => if owner.incarnation == incarnation {
                owner
            } else {
                SessionState::cold(session_id, incarnation)
            },
            None => SessionState::cold(session_id, incarnation),
        };
        owner.live = Some(live);
        owner
    }

    fn open_session(
        &mut self,
        expected_epoch: &str,
        session_id: &str,
        cwd: &str,
        session: &Json,
        control_state: Table<Json>,
    ) -> (result: Result<u64, RuntimeStateError>)
        ensures
            (Step { state: final(self)@, result }) == opened(
                old(self)@,
                expected_epoch@,
                session_id@,
                cwd@,
                session@,
                control_state@,
            ),
    {
        match self.require_epoch(expected_epoch) {
            Ok(_) => {},
            Err(error) => {
                return Err(error);
            },
        }
        if !self.is_openable(session_id) {
            return Err(RuntimeStateError::BusySession);
        }
        self.next_incarnation = bump(self.next_incarnation);
        let incarnation = self.next_incarnation;
        let session = retain_session_metadata(session_id, session);
        let live = new_live(cwd, session, control_state, SessionLifecycle::Active);
        let owner = self.install_live(session_id, incarnation, live);
        self.commit_session(session_id, owner);
        Ok(incarnation)
    }

    /// Opens a session.
    pub fn open_new(
        &mut self,
        expected_epoch: &str,
        session_id: &str,
        cwd: &str,
        session: &Json,
    ) -> (result: Result<u64, RuntimeStateError>)
        ensures
            (Step { state: final(self)@, result }) == opened(
                old(self)@,
                expected_epoch@,
                session_id@,
                cwd@,
                session@,
                Map::empty(),
            ),
    {
        self.open_session(expected_epoch, session_id, cwd, session, Table::new())
    }

    /// Opens a session with what its replay holds besides the conversation.
    pub fn open_new_with_replay(
        &mut self,
        expected_epoch: &str,
        session_id: &str,
        cwd: &str,
        session: &Json,
        replay: &Vec<Json>,
    ) -> (result: Result<u64, RuntimeStateError>)
        ensures
            (Step { state: final(self)@, result }) == opened(
                old(self)@,
                expected_epoch@,
                session_id@,
                cwd@,
                session@,
                controls_of(items_model(replay@)),
            ),
    {
        let control_state = extract_control_state(replay);
        self.open_session(expected_epoch, session_id, cwd, session, control_state)
    }

    /// Opens a session that is derived from a live one.
    pub fn open_forked(
        &mut self,
        expected_epoch: &str,
        session_id: &str,
        cwd: &str,
        session: &Json,
        source: (&str, u64),
        target_replay: Option<&Vec<Json>>,
    ) -> (result: Result<u64, RuntimeStateError>)
        ensures
            (Step { state: final(self)@, result }) == forked(
                old(self)@,
                expected_epoch@,
                session_id@,
                cwd@,
                session@,
                source.0@,
                source.1,
                match target_replay {
                    Some(replay) => Some(items_model(replay@)),
                    None => None,
                },
            ),
    {
        match self.require_owner(expected_epoch, source.0, source.1) {
            Ok(owner) => match &owner.live {
                Some(live) => {
                    if live.lifecycle != SessionLifecycle::Active {
                        return Err(RuntimeStateError::SessionNotActive);
                    }
                },
                None => {},
            },
            Err(error) => {
                return Err(error);
            },
        }
        let control_state = match target_replay {
            Some(replay) => extract_control_state(replay),
            None => Table::new(),
        };
        self.open_session(expected_epoch, session_id, cwd, session, control_state)
    }

    /// Starts to attach a session.
    pub fn start_attachment(
        &mut self,
        expected_epoch: &str,
        session_id: &str,
        cwd: &str,
        operation_id: &str,
        kind: SessionOperationKind,
    ) -> (result: Result<u64, RuntimeStateError>)
        ensures
            (Step { state: final(self)@, result }) == attachment_started(
                old(self)@,
                expected_epoch@,
                session_id@,
                cwd@,
                operation_id@,
                kind,
            ),
    {
        match self.require_epoch(expected_epoch) {
            Ok(_) => {},
            Err(error) => {
                return Err(error);
            },
        }
        if !(kind == SessionOperationKind::Load || kind == SessionOperationKind::Resume) {
            return Err(RuntimeStateError::OperationMismatch);
        }
        if self.operation_in_use(operation_id) {
            return Err(RuntimeStateError::OperationCollision);
        }
        if !self.is_openable(session_id) {
            return Err(RuntimeStateError::BusySession);
        }
        self.next_incarnation = bump(self.next_incarnation);
        let incarnation = self.next_incarnation;
        let live = new_live(cwd, Json::Null, Table::new(), SessionLifecycle::Attaching);
        let mut owner = self.install_live(session_id, incarnation, live);
        owner.operation = Some(
            SessionOperationState {
                operation_id: operation_id.to_string(),
                kind,
                stage: "attaching".to_string(),
                uncertainty_reason: None,
            },
        );
        self.commit_session(session_id, owner);
        Ok(incarnation)
    }

    /// Starts to load an active session again. Whether the history of the
    /// session admits it is decided before.
    pub fn start_reload(
        &mut self,
        expected_epoch: &str,
        session_id: &str,
        incarnation: u64,
        operation_id: &str,
        kind: SessionOperationKind,
        history_admits: bool,
    ) -> (result: Result<(), RuntimeStateError>)
        ensures
            (Step { state: final(self)@, result }) == reload_started(
                old(self)@,
                expected_epoch@,
                session_id@,
                incarnation,
                operation_id@,
                kind,
                history_admits,
            ),
    {
        match self.require_epoch(expected_epoch) {
            Ok(_) => {},
            Err(error) => {
                return Err(error);
            },
        }
        if kind != SessionOperationKind::Load {
            return Err(RuntimeStateError::OperationMismatch);
        }
        if self.operation_in_use_except_reserved(
            operation_id,
            Some((session_id, incarnation, kind)),
        ) {
            return Err(RuntimeStateError::OperationCollision);
        }
        match self.require_live_owner(session_id, incarnation) {
            Ok(owner) => {
                if owner.operation.is_none() && !history_admits {
                    return Err(RuntimeStateError::BusySession);
                }
                match &owner.live {
                    Some(live) => {
                        if live.lifecycle != SessionLifecycle::Active {
                            return Err(RuntimeStateError::SessionNotActive);
                        }
                        if owner.turn_execution().is_some() || is_blocked(
                            &owner.operation,
                            operation_id,
                            kind,
                        ) || !live.permissions.is_empty() || !live.elicitations.is_empty()
                            || !live.url_flows.is_empty() || !live.terminals.is_empty()
                            || live.attachment_candidate.len() > 0 {
                            return Err(RuntimeStateError::BusySession);
                        }
                    },
                    None => {},
                }
            },
            Err(error) => {
                return Err(error);
            },
        }
        let mut owner = self.take_owner(session_id);
        owner.operation = Some(
            SessionOperationState {
                operation_id: operation_id.to_string(),
                kind,
                stage: "reloading".to_string(),
                uncertainty_reason: None,
            },
        );
        match owner.live.take() {
            Some(mut live) => {
                live.attachment_candidate_bytes = 0;
                owner.live = Some(live);
            },
            None => {},
        }
        self.commit_session(session_id, owner);
        Ok(())
    }

    /// Collects an update for a session that is attached or loaded again.
    pub fn append_attachment_candidate(
        &mut self,
        expected_epoch: &str,
        session_id: &str,
        incarnation: u64,
        update: &Json,
    ) -> (result: Result<(), RuntimeStateError>)
        ensures
            (Step { state: final(self)@, result }) == candidate_appended(
                old(self)@,
                expected_epoch@,
                session_id@,
                incarnation,
                update@,
            ),
    {
        match self.require_owner(expected_epoch, session_id, incarnation) {
            Ok(owner) => {
                if !is_collecting(owner) {
                    return Err(RuntimeStateError::OperationMismatch);
                }
            },
            Err(error) => {
                return Err(error);
            },
        }
        let control = match retain_control_update(update) {
            Some(control) => control,
            None => {
                return Ok(());
            },
        };
        let mut owner = self.take_owner(session_id);
        match owner.live.take() {
            Some(mut live) => {
                let bytes: usize = control.to_text().as_str().as_bytes().len();
                let ghost before = items_model(live.attachment_candidate@);
                live.attachment_candidate.push(control);
                assert(items_model(live.attachment_candidate@) =~= before.push(control@));
                live.attachment_candidate_bytes = live.attachment_candidate_bytes.saturating_add(
                    bytes,
                );
                owner.live = Some(live);
            },
            None => {},
        }
        self.put_owner(session_id, owner);
        Ok(())
    }

    fn end_reload(
        &mut self,
        expected_epoch: &str,
        session_id: &str,
        incarnation: u64,
        operation_id: &str,
        response: Option<&Json>,
    ) -> (result: Result<(), RuntimeStateError>)
        ensures
            (Step { state: final(self)@, result }) == reload_ended(
                old(self)@,
                expected_epoch@,
                session_id@,
                incarnation,
                operation_id@,
                match response {
                    Some(response) => Some(response@),
                    None => None,
                },
            ),
    {
        match self.require_owner(expected_epoch, session_id, incarnation) {
            Ok(owner) => {
                if !is_reloading(owner, operation_id) {
                    return Err(RuntimeStateError::OperationMismatch);
                }
            },
            Err(error) => {
                return Err(error);
            },
        }
        let mut owner = self.take_owner(session_id);
        owner.operation = None;
        match owner.live.take() {
            Some(mut live) => {
                match response {
                    Some(response) => {
                        live.control_state = extract_control_state(&live.attachment_candidate);
                        live.session = retain_session_metadata(session_id, response);
                    },
                    None => {},
                }
                live.attachment_candidate = Vec::new();
                live.attachment_candidate_bytes = 0;
                assert(items_model(live.attachment_candidate@) =~= Seq::<JsonModel>::empty());
                owner.live = Some(live);
            },
            None => {},
        }
        self.commit_session(session_id, owner);
        Ok(())
    }

    /// Ends the loading of a session with a response.
    pub fn complete_reload(
        &mut self,
        expected_epoch: &str,
        session_id: &str,
        incarnation: u64,
        operation_id: &str,
        response: &Json,
    ) -> (result: Result<(), RuntimeStateError>)
        ensures
            (Step { state: final(self)@, result }) == reload_ended(
                old(self)@,
                expected_epoch@,
                session_id@,
                incarnation,
                operation_id@,
                Some(response@),
            ),
    {
        self.end_reload(expected_epoch, session_id, incarnation, operation_id, Some(response))
    }

    /// Ends the loading of a session with an error.
    pub fn fail_reload(
        &mut self,
        expected_epoch: &str,
        session_id: &str,
        incarnation: u64,
        operation_id: &str,
        _error: &Json,
    ) -> (result: Result<(), RuntimeStateError>)
        ensures
            (Step { state: final(self)@, result }) == reload_ended(
                old(self)@,
                expected_epoch@,
                session_id@,
                incarnation,
                operation_id@,
                None,
            ),
    {
        self.end_reload(expected_epoch, session_id, incarnation, operation_id, None)
    }

    /// Ends the attachment of a session with a response.
    pub fn complete_attachment(
        &mut self,
        expected_epoch: &str,
        session_id: &str,
        incarnation: u64,
        operation_id: &str,
        kind: SessionOperationKind,
        response: &Json,
    ) -> (result: Result<(), RuntimeStateError>)
        ensures
            (Step { state: final(self)@, result }) == attachment_completed(
                old(self)@,
                expected_epoch@,
                session_id@,
                incarnation,
                operation_id@,
                kind,
                response@,
            ),
    {
        match self.require_owner(expected_epoch, session_id, incarnation) {
            Ok(owner) => {
                if !is_attaching(owner, operation_id, kind) || !(kind == SessionOperationKind::Load
                    || kind == SessionOperationKind::Resume) {
                    return Err(RuntimeStateError::OperationMismatch);
                }
            },
            Err(error) => {
                return Err(error);
            },
        }
        let mut owner = self.take_owner(session_id);
        owner.operation = None;
        match owner.live.take() {
            Some(mut live) => {
                let controls = extract_control_state(&live.attachment_candidate);
                live.attachment_candidate = Vec::new();
                live.attachment_candidate_bytes = 0;
                assert(items_model(live.attachment_candidate@) =~= Seq::<JsonModel>::empty());
                live.control_state.extend(&controls);
                live.session = retain_session_metadata(session_id, response);
                live.lifecycle = SessionLifecycle::Active;
                owner.live = Some(live);
            },
            None => {},
        }
        self.commit_session(session_id, owner);
        Ok(())
    }

    /// Ends the attachment of a session with an error.
    pub fn fail_attachment(
        &mut self,
        expected_epoch: &str,
        session_id: &str,
        incarnation: u64,
        operation_id: &str,
        kind: SessionOperationKind,
        _error: &Json,
    ) -> (result: Result<(), RuntimeStateError>)
        ensures
            (Step { state: final(self)@, result }) == attachment_failed(
                old(self)@,
                expected_epoch@,
                session_id@,
                incarnation,
                operation_id@,
                kind,
            ),
    {
        match self.require_owner(expected_epoch, session_id, incarnation) {
            Ok(owner) => {
                if !is_attaching(owner, operation_id, kind) {
                    return Err(RuntimeStateError::OperationMismatch);
                }
            },
            Err(error) => {
                return Err(error);
            },
        }
        let mut owner = self.take_owner(session_id);
        owner.operation = None;
        match owner.live.take() {
            Some(mut live) => {
                drain_session_liveness(session_id, incarnation, &mut live, &mut self.effects);
            },
            None => {},
        }
        self.put_owner(session_id, owner);
        self.commit_removal(session_id, incarnation);
        Ok(())
    }

    /// Replaces what an idle session holds by what was loaded.
    pub fn synchronize_loaded_session(
        &mut self,
        expected_epoch: &str,
        session_id: &str,
        incarnation: u64,
        response: &Json,
        replay: &Vec<Json>,
    ) -> (result: Result<(), RuntimeStateError>)
        ensures
            (Step { state: final(self)@, result }) == synchronized(
                old(self)@,
                expected_epoch@,
                session_id@,
                incarnation,
                response@,
                items_model(replay@),
            ),
    {
        match self.require_owner(expected_epoch, session_id, incarnation) {
            Ok(owner) => {
                match &owner.live {
                    Some(live) => {
                        if live.lifecycle != SessionLifecycle::Active
                            || owner.turn_execution().is_some() {
                            return Err(RuntimeStateError::BusySession);
                        }
                    },
                    None => {},
                }
            },
            Err(error) => {
                return Err(error);
            },
        }
        let mut owner = self.take_owner(session_id);
        match owner.live.take() {
            Some(mut live) => {
                live.session = retain_session_metadata(session_id, response);
                live.control_state = extract_control_state(replay);
                owner.live = Some(live);
            },
            None => {},
        }
        self.commit_session(session_id, owner);
        Ok(())
    }
}

} // verus!
