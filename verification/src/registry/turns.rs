//! The turns of a session and what is published while they run.
use crate::fold::{
    fold_active_turn_update, fold_control_update, folded_control, folded_turn, RuntimeStateError,
};
use crate::journal::{bump, bumped, journal_retired};
use crate::json::{items_model, json_equal, same_json, shown, Json, JsonModel};
use crate::registry::{
    accepted, admitted, in_use, lemma_put_back, lemma_put_back_unchanged, live_owner, refused,
    session_published, stamped, with_change, with_owner, RegistryModel, SessionRegistry, Step,
};
use crate::runtime_types::{
    ChangeModel, ExecutionModel, LiveModel, MirrorError, MirrorPhase, OverlayModel, OwnerModel,
    RuntimeChange, SessionLifecycle, SessionLiveState, SessionState, SessionTurnError,
    TurnExecution, TurnOverlay,
};
use crate::session_live::{
    elicitation_effects, permission_effects, push_elicitation_effects, push_permission_effects,
    seal_turn, turn_sealed,
};
use crate::text::same_text;
use vstd::prelude::*;

verus! {

broadcast use {lemma_put_back, lemma_put_back_unchanged};

/// How a turn was admitted: as a new one, or as one that runs already.
#[derive(Debug, PartialEq, Eq)]
pub enum TurnAdmission {
    Accepted { operation_id: String },
    Duplicate { operation_id: String },
}

#[verifier::ext_equal]
pub enum AdmissionModel {
    Accepted { operation_id: Seq<char> },
    Duplicate { operation_id: Seq<char> },
}

impl View for TurnAdmission {
    type V = AdmissionModel;

    open spec fn view(&self) -> AdmissionModel {
        match self {
            TurnAdmission::Accepted { operation_id } => AdmissionModel::Accepted {
                operation_id: operation_id@,
            },
            TurnAdmission::Duplicate { operation_id } => AdmissionModel::Duplicate {
                operation_id: operation_id@,
            },
        }
    }
}

/// A turn that the history of a session has started.
#[derive(Debug)]
pub struct StartedTurn {
    pub admission: TurnAdmission,
    pub turn: TurnOverlay,
    pub phase: MirrorPhase,
}

#[verifier::ext_equal]
pub struct StartedModel {
    pub admission: AdmissionModel,
    pub turn: OverlayModel,
    pub phase: MirrorPhase,
}

impl View for StartedTurn {
    type V = StartedModel;

    open spec fn view(&self) -> StartedModel {
        StartedModel { admission: self.admission@, turn: self.turn@, phase: self.phase }
    }
}

/// What the history of a session says of a turn before it is started.
pub open spec fn checked_model(checked: Result<Option<TurnAdmission>, MirrorError>) -> Result<
    Option<AdmissionModel>,
    MirrorError,
> {
    match checked {
        Ok(Some(admission)) => Ok(Some(admission@)),
        Ok(None) => Ok(None),
        Err(error) => Err(error),
    }
}

/// What the history of a session makes of a turn.
pub open spec fn started_model(started: Result<StartedTurn, MirrorError>) -> Result<
    StartedModel,
    MirrorError,
> {
    match started {
        Ok(turn) => Ok(turn@),
        Err(error) => Err(error),
    }
}

/// The admission of a turn: the state after it and its result.
#[verifier::ext_equal]
pub struct TurnStep {
    pub state: RegistryModel,
    pub result: Result<AdmissionModel, SessionTurnError>,
}

/// The step that a result stands for.
pub open spec fn turn_step(
    state: RegistryModel,
    result: Result<TurnAdmission, SessionTurnError>,
) -> TurnStep {
    TurnStep {
        state,
        result: match result {
            Ok(admission) => Ok(admission@),
            Err(error) => Err(error),
        },
    }
}

/// Admits a turn. The history is heard first on whether the turn runs already;
/// only an active, idle session starts a turn, and only under an identifier
/// that is not in use.
pub open spec fn turn_admitted(
    r: RegistryModel,
    epoch: Seq<char>,
    session_id: Seq<char>,
    incarnation: u64,
    client_intent_id: Seq<char>,
    checked: Result<Option<AdmissionModel>, MirrorError>,
    started: Result<StartedModel, MirrorError>,
) -> TurnStep {
    match admitted(r, epoch, session_id, incarnation) {
        Err(error) => TurnStep { state: r, result: Err(SessionTurnError::Live(error)) },
        Ok(owner) => match checked {
            Err(error) => TurnStep { state: r, result: Err(SessionTurnError::History(error)) },
            Ok(Some(duplicate)) => TurnStep { state: r, result: Ok(duplicate) },
            Ok(None) => if owner.live->0.lifecycle != SessionLifecycle::Active {
                TurnStep {
                    state: r,
                    result: Err(SessionTurnError::Live(RuntimeStateError::SessionNotActive)),
                }
            } else if owner.execution() is Some || owner.operation is Some {
                TurnStep {
                    state: r,
                    result: Err(SessionTurnError::Live(RuntimeStateError::BusySession)),
                }
            } else if in_use(r, client_intent_id, None) {
                TurnStep {
                    state: r,
                    result: Err(SessionTurnError::Live(RuntimeStateError::OperationCollision)),
                }
            } else {
                match started {
                    Err(error) => TurnStep {
                        state: r,
                        result: Err(SessionTurnError::History(error)),
                    },
                    Ok(started) => TurnStep {
                        state: session_published(
                            r,
                            session_id,
                            OwnerModel {
                                active_turn: Some(started.turn),
                                phase: started.phase,
                                ..owner
                            },
                        ),
                        result: Ok(started.admission),
                    },
                }
            },
        },
    }
}

/// Starts a turn in a session whose history has no baseline.
pub open spec fn prompt_started(
    r: RegistryModel,
    epoch: Seq<char>,
    session_id: Seq<char>,
    incarnation: u64,
    operation_id: Seq<char>,
    prompt: Seq<JsonModel>,
) -> Step<Seq<char>> {
    if epoch != r.epoch {
        refused(r, RuntimeStateError::EpochMismatch)
    } else if in_use(r, operation_id, None) {
        refused(r, RuntimeStateError::OperationCollision)
    } else {
        match live_owner(r, session_id, incarnation) {
            Err(error) => refused(r, error),
            Ok(owner) => if owner.live->0.lifecycle != SessionLifecycle::Active {
                refused(r, RuntimeStateError::SessionNotActive)
            } else if owner.execution() is Some || owner.operation is Some {
                refused(r, RuntimeStateError::BusySession)
            } else {
                accepted(
                    session_published(
                        r,
                        session_id,
                        OwnerModel {
                            active_turn: Some(
                                OverlayModel {
                                    operation_id,
                                    client_intent_id: operation_id,
                                    prompt,
                                    updates: Seq::empty(),
                                    execution: Some(
                                        ExecutionModel {
                                            rpc_operation_id: operation_id,
                                            cancel_requested: false,
                                        },
                                    ),
                                },
                            ),
                            phase: MirrorPhase::Running,
                            history_revision: match owner.history_revision {
                                Some(revision) => Some(revision),
                                None => Some("runtime-fixture"@),
                            },
                            ..owner
                        },
                    ),
                    operation_id,
                )
            },
        }
    }
}

/// The registry after one update of a turn has been published, without the
/// rest of the session.
pub open spec fn turn_update_published(
    r: RegistryModel,
    session_id: Seq<char>,
    owner: OwnerModel,
    operation_id: Seq<char>,
    update: JsonModel,
) -> RegistryModel {
    let revision = bumped(owner.live->0.revision);
    with_change(
        with_owner(
            r,
            session_id,
            OwnerModel { live: Some(LiveModel { revision, ..owner.live->0 }), ..owner },
        ),
        Some(revision),
        ChangeModel::TurnUpdateAppended {
            session_id,
            incarnation: owner.incarnation,
            revision,
            operation_id,
            update,
        },
    )
}

/// Folds an update into the running turn and publishes the update as it came.
pub open spec fn update_appended(
    r: RegistryModel,
    epoch: Seq<char>,
    session_id: Seq<char>,
    incarnation: u64,
    update: JsonModel,
) -> Step<()> {
    match admitted(r, epoch, session_id, incarnation) {
        Err(error) => refused(r, error),
        Ok(owner) => match owner.execution() {
            None => refused(r, RuntimeStateError::NoActiveTurn),
            Some(execution) => match folded_turn(owner.active_turn->0.updates, update) {
                Err(error) => refused(r, error),
                Ok(updates) => accepted(
                    turn_update_published(
                        r,
                        session_id,
                        OwnerModel {
                            active_turn: Some(
                                OverlayModel { updates, ..owner.active_turn->0 },
                            ),
                            ..owner
                        },
                        execution.rpc_operation_id,
                        update,
                    ),
                    (),
                ),
            },
        },
    }
}

/// Publishes an update that the history has taken into the running turn.
pub open spec fn update_projected(
    r: RegistryModel,
    epoch: Seq<char>,
    session_id: Seq<char>,
    incarnation: u64,
    overlay: OverlayModel,
    update: JsonModel,
) -> Step<()> {
    match admitted(r, epoch, session_id, incarnation) {
        Err(error) => refused(r, error),
        Ok(owner) => match owner.execution() {
            None => refused(r, RuntimeStateError::NoActiveTurn),
            Some(execution) => if owner.active_turn->0.operation_id != overlay.operation_id
                || execution.rpc_operation_id != overlay.client_intent_id {
                refused(r, RuntimeStateError::OperationMismatch)
            } else {
                accepted(
                    turn_update_published(
                        r,
                        session_id,
                        owner,
                        execution.rpc_operation_id,
                        update,
                    ),
                    (),
                )
            },
        },
    }
}

/// The control under a key of a live session.
pub open spec fn control_at(live: LiveModel, key: Seq<char>) -> Option<JsonModel> {
    if live.control_state.contains_key(key) {
        Some(live.control_state[key])
    } else {
        None
    }
}

/// Updates a control. A control that stays as it was is not published.
pub open spec fn control_updated(
    r: RegistryModel,
    epoch: Seq<char>,
    session_id: Seq<char>,
    incarnation: u64,
    key: Seq<char>,
    update: JsonModel,
) -> Step<()> {
    match admitted(r, epoch, session_id, incarnation) {
        Err(error) => refused(r, error),
        Ok(owner) => {
            let live = owner.live->0;
            let folded = folded_control(control_at(live, key), update);
            if !(live.lifecycle == SessionLifecycle::Active || live.lifecycle
                == SessionLifecycle::Closing || live.lifecycle
                == SessionLifecycle::ClosingForDelete) {
                refused(r, RuntimeStateError::SessionNotActive)
            } else if control_at(live, key) matches Some(present) && json_equal(present, folded) {
                accepted(r, ())
            } else {
                let next = stamped(
                    OwnerModel {
                        live: Some(
                            LiveModel {
                                control_state: live.control_state.insert(key, folded),
                                ..live
                            },
                        ),
                        ..owner
                    },
                );
                accepted(
                    with_change(
                        with_owner(r, session_id, next),
                        Some(next.live->0.revision),
                        ChangeModel::SessionControlUpdated {
                            session_id,
                            incarnation,
                            revision: next.live->0.revision,
                            key,
                            update: folded,
                            history_revision: next.live->0.history_revision,
                            phase: next.live->0.phase,
                            sync_error: next.live->0.sync_error,
                        },
                    ),
                    (),
                )
            }
        },
    }
}

/// Asks the running turn to stop. To ask twice changes nothing.
pub open spec fn cancel_requested(
    r: RegistryModel,
    epoch: Seq<char>,
    session_id: Seq<char>,
    incarnation: u64,
) -> Step<()> {
    match admitted(r, epoch, session_id, incarnation) {
        Err(error) => refused(r, error),
        Ok(owner) => match owner.execution() {
            None => refused(r, RuntimeStateError::NoActiveTurn),
            Some(execution) => if execution.cancel_requested {
                accepted(r, ())
            } else {
                accepted(
                    session_published(
                        r,
                        session_id,
                        OwnerModel {
                            active_turn: Some(
                                OverlayModel {
                                    execution: Some(
                                        ExecutionModel { cancel_requested: true, ..execution },
                                    ),
                                    ..owner.active_turn->0
                                },
                            ),
                            ..owner
                        },
                    ),
                    (),
                )
            },
        },
    }
}

/// Ends a turn: its execution and its questions go, their responders are
/// cancelled, and what the journal held of the turn is dropped.
pub open spec fn turn_ended(
    r: RegistryModel,
    epoch: Seq<char>,
    session_id: Seq<char>,
    incarnation: u64,
    operation_id: Seq<char>,
    lifecycle: Option<SessionLifecycle>,
) -> Step<()> {
    match admitted(r, epoch, session_id, incarnation) {
        Err(error) => refused(r, error),
        Ok(owner) => match turn_sealed(owner, operation_id, lifecycle) {
            Err(error) => refused(r, error),
            Ok(sealed) => accepted(
                session_published(
                    RegistryModel {
                        effects: r.effects + permission_effects(
                            session_id,
                            incarnation,
                            sealed.permissions,
                        ) + elicitation_effects(session_id, incarnation, sealed.elicitations),
                        journal: journal_retired(
                            r.journal,
                            session_id,
                            incarnation,
                            operation_id,
                        ),
                        ..r
                    },
                    session_id,
                    sealed.owner,
                ),
                (),
            ),
        },
    }
}

/// The modes that a live session offers.
pub open spec fn modes_of(live: LiveModel) -> Option<JsonModel> {
    live.session.some_at("modes"@)
}

/// The field of a control of a live session.
pub open spec fn control_field(live: LiveModel, key: Seq<char>, field: Seq<char>) -> Option<
    JsonModel,
> {
    match control_at(live, key) {
        Some(update) => update.get(field),
        None => None,
    }
}

/// The current mode of a live session: the one of the last update, or the one
/// that the session was opened with.
pub open spec fn current_mode_of(live: LiveModel) -> Option<Seq<char>> {
    let value = match control_field(live, "current_mode_update"@, "currentModeId"@) {
        Some(value) => Some(value),
        None => match modes_of(live) {
            Some(modes) => modes.get("currentModeId"@),
            None => None,
        },
    };
    match value {
        Some(value) => value.as_str(),
        None => None,
    }
}

/// The configuration options of a live session: those of the last update, or
/// those that the session was opened with.
pub open spec fn config_options_of(live: LiveModel) -> JsonModel {
    let value = match control_field(live, "config_option_update"@, "configOptions"@) {
        Some(value) => Some(value),
        None => live.session.get("configOptions"@),
    };
    match value {
        Some(JsonModel::Array(items)) => JsonModel::Array(items),
        _ => JsonModel::Array(Seq::empty()),
    }
}

impl SessionLiveState {
    fn control_field(&self, key: &str, field: &str) -> (value: Option<&Json>)
        ensures
            shown(value) == control_field(self@, key@, field@),
    {
        match self.control_state.get(key) {
            Some(update) => update.get(field),
            None => None,
        }
    }

    /// The modes that the session offers.
    pub fn modes(&self) -> (modes: Option<&Json>)
        ensures
            shown(modes) == modes_of(self@),
    {
        self.session.some_at("modes")
    }

    /// The current mode of the session.
    pub fn current_mode_id(&self) -> (mode: Option<&str>)
        ensures
            match mode {
                Some(mode) => current_mode_of(self@) == Some(mode@),
                None => current_mode_of(self@) is None,
            },
    {
        let value = match self.control_field("current_mode_update", "currentModeId") {
            Some(value) => Some(value),
            None => match self.modes() {
                Some(modes) => modes.get("currentModeId"),
                None => None,
            },
        };
        match value {
            Some(value) => value.as_str(),
            None => None,
        }
    }

    /// The configuration options of the session.
    pub fn config_options(&self) -> (options: Json)
        ensures
            options@ == config_options_of(self@),
    {
        let value = match self.control_field("config_option_update", "configOptions") {
            Some(value) => Some(value),
            None => self.session.get("configOptions"),
        };
        match value {
            Some(value) => {
                if value.is_array() {
                    return value.clone();
                }
            },
            None => {},
        }
        let empty = Json::Array(Vec::new());
        assert(items_model(Seq::<Json>::empty()) =~= Seq::<JsonModel>::empty());
        empty
    }
}

impl SessionRegistry {
    /// Admits a turn and publishes it before it is handed to the Agent. What
    /// the history of the session says of the turn is decided before.
    pub fn admit_session_turn(
        &mut self,
        expected_epoch: &str,
        session_id: &str,
        incarnation: u64,
        client_intent_id: &str,
        checked: Result<Option<TurnAdmission>, MirrorError>,
        started: Result<StartedTurn, MirrorError>,
    ) -> (result: Result<TurnAdmission, SessionTurnError>)
        ensures
            turn_step(final(self)@, result) == turn_admitted(
                old(self)@,
                expected_epoch@,
                session_id@,
                incarnation,
                client_intent_id@,
                checked_model(checked),
                started_model(started),
            ),
    {
        match self.require_owner(expected_epoch, session_id, incarnation) {
            Ok(owner) => {
                match checked {
                    Ok(None) => {},
                    Ok(Some(duplicate)) => {
                        return Ok(duplicate);
                    },
                    Err(error) => {
                        return Err(SessionTurnError::History(error));
                    },
                }
                match &owner.live {
                    Some(live) => {
                        if live.lifecycle != SessionLifecycle::Active {
                            return Err(
                                SessionTurnError::Live(RuntimeStateError::SessionNotActive),
                            );
                        }
                    },
                    None => {},
                }
                if owner.turn_execution().is_some() || owner.operation.is_some() {
                    return Err(SessionTurnError::Live(RuntimeStateError::BusySession));
                }
            },
            Err(error) => {
                return Err(SessionTurnError::Live(error));
            },
        }
        if self.operation_in_use(client_intent_id) {
            return Err(SessionTurnError::Live(RuntimeStateError::OperationCollision));
        }
        let started = match started {
            Ok(started) => started,
            Err(error) => {
                return Err(SessionTurnError::History(error));
            },
        };
        let mut owner = self.take_owner(session_id);
        owner.active_turn = Some(started.turn);
        owner.phase = started.phase;
        self.commit_session(session_id, owner);
        Ok(started.admission)
    }

    /// Starts a turn in a session whose history has no baseline.
    pub fn start_prompt(
        &mut self,
        expected_epoch: &str,
        session_id: &str,
        incarnation: u64,
        operation_id: &str,
        prompt: Vec<Json>,
    ) -> (result: Result<String, RuntimeStateError>)
        ensures
            (Step {
                state: final(self)@,
                result: match result {
                    Ok(operation) => Ok(operation@),
                    Err(error) => Err(error),
                },
            }) == prompt_started(
                old(self)@,
                expected_epoch@,
                session_id@,
                incarnation,
                operation_id@,
                items_model(prompt@),
            ),
    {
        match self.require_epoch(expected_epoch) {
            Ok(_) => {},
            Err(error) => {
                return Err(error);
            },
        }
        if self.operation_in_use(operation_id) {
            return Err(RuntimeStateError::OperationCollision);
        }
        match self.require_live_owner(session_id, incarnation) {
            Ok(owner) => {
                match &owner.live {
                    Some(live) => {
                        if live.lifecycle != SessionLifecycle::Active {
                            return Err(RuntimeStateError::SessionNotActive);
                        }
                    },
                    None => {},
                }
                if owner.turn_execution().is_some() || owner.operation.is_some() {
                    return Err(RuntimeStateError::BusySession);
                }
            },
            Err(error) => {
                return Err(error);
            },
        }
        let mut owner = self.take_owner(session_id);
        let updates: Vec<Json> = Vec::new();
        assert(items_model(updates@) =~= Seq::<JsonModel>::empty());
        owner.active_turn = Some(
            TurnOverlay {
                operation_id: operation_id.to_string(),
                client_intent_id: operation_id.to_string(),
                prompt,
                updates,
                execution: Some(
                    TurnExecution {
                        rpc_operation_id: operation_id.to_string(),
                        cancel_requested: false,
                    },
                ),
            },
        );
        owner.phase = MirrorPhase::Running;
        if owner.history_revision.is_none() {
            owner.history_revision = Some("runtime-fixture".to_string());
        }
        self.commit_session(session_id, owner);
        Ok(operation_id.to_string())
    }

    /// Puts the next state of a session in and publishes one update of its turn.
    fn commit_turn_update(
        &mut self,
        session_id: &str,
        owner: SessionState,
        operation_id: String,
        update: &Json,
    )
        requires
            owner.live is Some,
        ensures
            final(self)@ == turn_update_published(
                old(self)@,
                session_id@,
                owner@,
                operation_id@,
                update@,
            ),
    {
        let mut owner = owner;
        let incarnation = owner.incarnation;
        let mut revision: u64 = 0;
        match owner.live.take() {
            Some(mut live) => {
                live.revision = bump(live.revision);
                revision = live.revision;
                owner.live = Some(live);
            },
            None => {},
        }
        self.put_owner(session_id, owner);
        self.commit_delta(
            Some(revision),
            RuntimeChange::TurnUpdateAppended {
                session_id: session_id.to_string(),
                incarnation,
                revision,
                operation_id,
                update: update.clone(),
            },
        );
    }

    /// Folds an update into the running turn and publishes the update.
    pub fn append_runtime_update(
        &mut self,
        expected_epoch: &str,
        session_id: &str,
        incarnation: u64,
        update: &Json,
    ) -> (result: Result<(), RuntimeStateError>)
        ensures
            (Step { state: final(self)@, result }) == update_appended(
                old(self)@,
                expected_epoch@,
                session_id@,
                incarnation,
                update@,
            ),
    {
        let (operation_id, updates) = match self.require_owner(
            expected_epoch,
            session_id,
            incarnation,
        ) {
            Ok(owner) => match &owner.active_turn {
                Some(turn) => match &turn.execution {
                    Some(execution) => match fold_active_turn_update(&turn.updates, update) {
                        Ok(updates) => (execution.rpc_operation_id.clone(), updates),
                        Err(error) => {
                            return Err(error);
                        },
                    },
                    None => {
                        return Err(RuntimeStateError::NoActiveTurn);
                    },
                },
                None => {
                    return Err(RuntimeStateError::NoActiveTurn);
                },
            },
            Err(error) => {
                return Err(error);
            },
        };
        let mut owner = self.take_owner(session_id);
        match owner.active_turn.take() {
            Some(mut turn) => {
                turn.updates = updates;
                owner.active_turn = Some(turn);
            },
            None => {},
        }
        self.commit_turn_update(session_id, owner, operation_id, update);
        Ok(())
    }

    /// Publishes an update that the history has taken into the running turn.
    pub fn project_turn_update(
        &mut self,
        expected_epoch: &str,
        session_id: &str,
        incarnation: u64,
        overlay: &TurnOverlay,
        update: &Json,
    ) -> (result: Result<(), RuntimeStateError>)
        ensures
            (Step { state: final(self)@, result }) == update_projected(
                old(self)@,
                expected_epoch@,
                session_id@,
                incarnation,
                overlay@,
                update@,
            ),
    {
        let operation_id = match self.require_owner(expected_epoch, session_id, incarnation) {
            Ok(owner) => match &owner.active_turn {
                Some(turn) => match &turn.execution {
                    Some(execution) => {
                        if !same_text(turn.operation_id.as_str(), overlay.operation_id.as_str())
                            || !same_text(
                            execution.rpc_operation_id.as_str(),
                            overlay.client_intent_id.as_str(),
                        ) {
                            return Err(RuntimeStateError::OperationMismatch);
                        }
                        execution.rpc_operation_id.clone()
                    },
                    None => {
                        return Err(RuntimeStateError::NoActiveTurn);
                    },
                },
                None => {
                    return Err(RuntimeStateError::NoActiveTurn);
                },
            },
            Err(error) => {
                return Err(error);
            },
        };
        let owner = self.take_owner(session_id);
        self.commit_turn_update(session_id, owner, operation_id, update);
        Ok(())
    }

    /// Updates a control of a session.
    pub fn update_control_state(
        &mut self,
        expected_epoch: &str,
        session_id: &str,
        incarnation: u64,
        key: &str,
        update: Json,
    ) -> (result: Result<(), RuntimeStateError>)
        ensures
            (Step { state: final(self)@, result }) == control_updated(
                old(self)@,
                expected_epoch@,
                session_id@,
                incarnation,
                key@,
                update@,
            ),
    {
        let folded = match self.require_owner(expected_epoch, session_id, incarnation) {
            Ok(owner) => match &owner.live {
                Some(live) => {
                    if !(live.lifecycle == SessionLifecycle::Active || live.lifecycle
                        == SessionLifecycle::Closing || live.lifecycle
                        == SessionLifecycle::ClosingForDelete) {
                        return Err(RuntimeStateError::SessionNotActive);
                    }
                    let present = live.control_state.get(key);
                    let folded = fold_control_update(present, update);
                    match present {
                        Some(present) => {
                            if same_json(present, &folded) {
                                return Ok(());
                            }
                        },
                        None => {},
                    }
                    folded
                },
                None => {
                    return Err(RuntimeStateError::UnknownSession);
                },
            },
            Err(error) => {
                return Err(error);
            },
        };
        let mut owner = self.take_owner(session_id);
        let mut revision: u64 = 0;
        let history_revision = owner.history_revision.clone();
        let phase = owner.phase;
        let sync_error = owner.sync_error.clone();
        match owner.live.take() {
            Some(mut live) => {
                live.control_state.insert(key, folded.clone());
                live.revision = bump(live.revision);
                live.history_revision = owner.history_revision.clone();
                live.phase = owner.phase;
                live.sync_error = owner.sync_error.clone();
                revision = live.revision;
                owner.live = Some(live);
            },
            None => {},
        }
        self.put_owner(session_id, owner);
        self.commit_delta(
            Some(revision),
            RuntimeChange::SessionControlUpdated {
                session_id: session_id.to_string(),
                incarnation,
                revision,
                key: key.to_string(),
                update: folded,
                history_revision,
                phase,
                sync_error,
            },
        );
        Ok(())
    }

    /// Asks the running turn to stop.
    pub fn request_cancel(&mut self, expected_epoch: &str, session_id: &str, incarnation: u64) -> (result:
        Result<(), RuntimeStateError>)
        ensures
            (Step { state: final(self)@, result }) == cancel_requested(
                old(self)@,
                expected_epoch@,
                session_id@,
                incarnation,
            ),
    {
        match self.require_owner(expected_epoch, session_id, incarnation) {
            Ok(owner) => match owner.turn_execution() {
                Some(execution) => {
                    if execution.cancel_requested {
                        return Ok(());
                    }
                },
                None => {
                    return Err(RuntimeStateError::NoActiveTurn);
                },
            },
            Err(error) => {
                return Err(error);
            },
        }
        let mut owner = self.take_owner(session_id);
        match owner.active_turn.take() {
            Some(mut turn) => {
                match turn.execution.take() {
                    Some(mut execution) => {
                        execution.cancel_requested = true;
                        turn.execution = Some(execution);
                    },
                    None => {},
                }
                owner.active_turn = Some(turn);
            },
            None => {},
        }
        self.commit_session(session_id, owner);
        Ok(())
    }

    fn seal_turn(
        &mut self,
        expected_epoch: &str,
        session_id: &str,
        incarnation: u64,
        operation_id: &str,
        lifecycle: Option<SessionLifecycle>,
    ) -> (result: Result<(), RuntimeStateError>)
        ensures
            (Step { state: final(self)@, result }) == turn_ended(
                old(self)@,
                expected_epoch@,
                session_id@,
                incarnation,
                operation_id@,
                lifecycle,
            ),
    {
        match self.require_owner(expected_epoch, session_id, incarnation) {
            Ok(_) => {},
            Err(error) => {
                return Err(error);
            },
        }
        let mut owner = self.take_owner(session_id);
        match seal_turn(&mut owner, operation_id, lifecycle) {
            Ok(retired) => {
                push_permission_effects(
                    &mut self.effects,
                    session_id,
                    incarnation,
                    &retired.permissions,
                );
                push_elicitation_effects(
                    &mut self.effects,
                    session_id,
                    incarnation,
                    &retired.elicitations,
                );
                self.drop_turn_delivery_payload(session_id, incarnation, operation_id);
                self.commit_session(session_id, owner);
                Ok(())
            },
            Err(error) => {
                self.put_owner(session_id, owner);
                Err(error)
            },
        }
    }

    fn drop_turn_delivery_payload(
        &mut self,
        session_id: &str,
        incarnation: u64,
        operation_id: &str,
    )
        ensures
            final(self)@ == (RegistryModel {
                journal: journal_retired(
                    old(self)@.journal,
                    session_id@,
                    incarnation,
                    operation_id@,
                ),
                ..old(self)@
            }),
    {
        self.journal.retire_turn_payload(session_id, incarnation, operation_id);
    }

    /// Ends a turn that was answered. The answer is not kept.
    pub fn complete_prompt(
        &mut self,
        expected_epoch: &str,
        session_id: &str,
        incarnation: u64,
        operation_id: &str,
        _response: &Json,
    ) -> (result: Result<(), RuntimeStateError>)
        ensures
            (Step { state: final(self)@, result }) == turn_ended(
                old(self)@,
                expected_epoch@,
                session_id@,
                incarnation,
                operation_id@,
                None,
            ),
    {
        self.seal_turn(expected_epoch, session_id, incarnation, operation_id, None)
    }

    /// Ends a turn that failed. The error is not kept.
    pub fn fail_prompt(
        &mut self,
        expected_epoch: &str,
        session_id: &str,
        incarnation: u64,
        operation_id: &str,
        _error: &Json,
    ) -> (result: Result<(), RuntimeStateError>)
        ensures
            (Step { state: final(self)@, result }) == turn_ended(
                old(self)@,
                expected_epoch@,
                session_id@,
                incarnation,
                operation_id@,
                None,
            ),
    {
        self.seal_turn(expected_epoch, session_id, incarnation, operation_id, None)
    }

    /// Ends a turn of which it is not known what the Agent did with it.
    pub fn mark_prompt_uncertain(
        &mut self,
        expected_epoch: &str,
        session_id: &str,
        incarnation: u64,
        operation_id: &str,
        _reason: &str,
    ) -> (result: Result<(), RuntimeStateError>)
        ensures
            (Step { state: final(self)@, result }) == turn_ended(
                old(self)@,
                expected_epoch@,
                session_id@,
                incarnation,
                operation_id@,
                Some(SessionLifecycle::Uncertain),
            ),
    {
        self.seal_turn(
            expected_epoch,
            session_id,
            incarnation,
            operation_id,
            Some(SessionLifecycle::Uncertain),
        )
    }
}

} // verus!
