//! Exclusive operations on a session: closing, deleting, changing controls.
use crate::fold::RuntimeStateError;
use crate::json::{Json, JsonModel};
use crate::registry::interactions::with_live;
use crate::registry::{
    accepted, admitted, in_use, is_in_stage, lemma_put_back, lemma_put_back_unchanged, live_owner,
    refused, removal_published, session_published, uses_operation, with_effects, with_owner,
    RegistryModel, Reservation, SessionRegistry, Step,
};
use crate::runtime_types::{
    admission_of, LiveModel, MirrorError, OperationModel, OverlayModel, OwnerModel,
    SessionAdmission, SessionLifecycle, SessionOperationKind, SessionOperationState, SessionState,
};
use crate::session_live::{
    drain_effects, drain_session_liveness, live_drained, operation_started, responds,
    start_operation,
};
use crate::text::same_text;
use vstd::prelude::*;

verus! {

broadcast use {lemma_put_back, lemma_put_back_unchanged};

/// Starts an exclusive operation.
pub open spec fn exclusive_started(
    r: RegistryModel,
    epoch: Seq<char>,
    session_id: Seq<char>,
    incarnation: u64,
    operation_id: Seq<char>,
    kind: SessionOperationKind,
    stage: Seq<char>,
    history_admits: bool,
) -> Step<()> {
    if epoch != r.epoch {
        refused(r, RuntimeStateError::EpochMismatch)
    } else if in_use(r, operation_id, Some(Reservation { session_id, incarnation, kind })) {
        refused(r, RuntimeStateError::OperationCollision)
    } else {
        match live_owner(r, session_id, incarnation) {
            Err(error) => refused(r, error),
            Ok(owner) => match operation_started(owner, operation_id, kind, stage, history_admits) {
                Err(error) => refused(r, error),
                Ok(next) => accepted(session_published(r, session_id, next), ()),
            },
        }
    }
}

/// Starts to delete a session: an active one is closed first.
pub open spec fn delete_started(
    r: RegistryModel,
    epoch: Seq<char>,
    session_id: Seq<char>,
    incarnation: u64,
    operation_id: Seq<char>,
    history_admits: bool,
) -> Step<()> {
    match live_owner(r, session_id, incarnation) {
        Err(error) => refused(r, error),
        Ok(owner) => match owner.live->0.lifecycle {
            SessionLifecycle::Active => exclusive_started(
                r,
                epoch,
                session_id,
                incarnation,
                operation_id,
                SessionOperationKind::Delete,
                "closing"@,
                history_admits,
            ),
            SessionLifecycle::Closed => exclusive_started(
                r,
                epoch,
                session_id,
                incarnation,
                operation_id,
                SessionOperationKind::Delete,
                "deleting"@,
                history_admits,
            ),
            _ => refused(r, RuntimeStateError::SessionNotActive),
        },
    }
}

/// Starts to delete an active session without closing it first.
pub open spec fn direct_delete_started(
    r: RegistryModel,
    epoch: Seq<char>,
    session_id: Seq<char>,
    incarnation: u64,
    operation_id: Seq<char>,
    history_admits: bool,
) -> Step<()> {
    match live_owner(r, session_id, incarnation) {
        Err(error) => refused(r, error),
        Ok(owner) => if owner.live->0.lifecycle != SessionLifecycle::Active {
            refused(r, RuntimeStateError::SessionNotActive)
        } else {
            exclusive_started(
                r,
                epoch,
                session_id,
                incarnation,
                operation_id,
                SessionOperationKind::Delete,
                "deleting_active"@,
                history_admits,
            )
        },
    }
}

/// Whether a session has an operation under an identifier.
pub open spec fn has_operation(owner: OwnerModel, operation_id: Seq<char>) -> bool {
    owner.operation matches Some(operation) && operation.operation_id == operation_id
}

/// Whether a session has an operation of a kind under an identifier.
pub open spec fn runs_operation(
    owner: OwnerModel,
    operation_id: Seq<char>,
    kind: SessionOperationKind,
) -> bool {
    has_operation(owner, operation_id) && owner.operation->0.kind == kind
}

/// The owner with its operation in another stage.
pub open spec fn at_stage(owner: OwnerModel, stage: Seq<char>) -> OwnerModel {
    OwnerModel {
        operation: Some(OperationModel { stage, ..owner.operation->0 }),
        ..owner
    }
}

/// The owner whose turn does not run any more.
pub open spec fn without_execution(owner: OwnerModel) -> OwnerModel {
    OwnerModel {
        active_turn: match owner.active_turn {
            Some(turn) => Some(OverlayModel { execution: None, ..turn }),
            None => None,
        },
        ..owner
    }
}

/// The live session without its resources, in another lifecycle.
pub open spec fn drained_as(live: LiveModel, lifecycle: SessionLifecycle) -> LiveModel {
    LiveModel { lifecycle, ..live_drained(live) }
}

/// Goes on with a deletion once the session is closed. All its resources are
/// released.
pub open spec fn delete_closed(
    r: RegistryModel,
    epoch: Seq<char>,
    session_id: Seq<char>,
    incarnation: u64,
    operation_id: Seq<char>,
) -> Step<()> {
    match admitted(r, epoch, session_id, incarnation) {
        Err(error) => refused(r, error),
        Ok(owner) => if !runs_operation(owner, operation_id, SessionOperationKind::Delete)
            || !owner.in_stage("closing"@) || owner.live->0.lifecycle
            != SessionLifecycle::ClosingForDelete {
            refused(r, RuntimeStateError::OperationMismatch)
        } else {
            accepted(
                session_published(
                    with_effects(r, drain_effects(session_id, incarnation, owner.live->0)),
                    session_id,
                    with_live(
                        without_execution(at_stage(owner, "deleting"@)),
                        drained_as(owner.live->0, SessionLifecycle::Deleting),
                    ),
                ),
                (),
            )
        },
    }
}

/// Ends a deletion: the session is gone, and its owner waits for the cleanup.
pub open spec fn delete_completed(
    r: RegistryModel,
    epoch: Seq<char>,
    session_id: Seq<char>,
    incarnation: u64,
    operation_id: Seq<char>,
) -> Step<()> {
    match admitted(r, epoch, session_id, incarnation) {
        Err(error) => refused(r, error),
        Ok(owner) => if owner.live->0.lifecycle != SessionLifecycle::Deleting || !runs_operation(
            owner,
            operation_id,
            SessionOperationKind::Delete,
        ) || !(owner.in_stage("deleting"@) || owner.in_stage("deleting_active"@)) {
            refused(r, RuntimeStateError::OperationMismatch)
        } else {
            accepted(
                removal_published(
                    with_effects(
                        with_owner(
                            r,
                            session_id,
                            OwnerModel {
                                live: None,
                                ..without_execution(at_stage(owner, "cleanup"@))
                            },
                        ),
                        drain_effects(session_id, incarnation, owner.live->0),
                    ),
                    session_id,
                    incarnation,
                ),
                (),
            )
        },
    }
}

/// Marks an operation of which it is not known what the Agent did with it.
pub open spec fn operation_uncertain(
    r: RegistryModel,
    epoch: Seq<char>,
    session_id: Seq<char>,
    incarnation: u64,
    operation_id: Seq<char>,
    reason: Seq<char>,
) -> Step<()> {
    match admitted(r, epoch, session_id, incarnation) {
        Err(error) => refused(r, error),
        Ok(owner) => if !has_operation(owner, operation_id) {
            refused(r, RuntimeStateError::OperationMismatch)
        } else {
            accepted(
                session_published(
                    with_effects(r, drain_effects(session_id, incarnation, owner.live->0)),
                    session_id,
                    OwnerModel {
                        operation: Some(
                            OperationModel {
                                stage: "uncertain"@,
                                uncertainty_reason: Some(reason),
                                ..owner.operation->0
                            },
                        ),
                        live: Some(drained_as(owner.live->0, SessionLifecycle::Uncertain)),
                        ..owner
                    },
                ),
                (),
            )
        },
    }
}

/// Ends an operation that leaves its session in place.
pub open spec fn operation_completed(
    r: RegistryModel,
    epoch: Seq<char>,
    session_id: Seq<char>,
    incarnation: u64,
    operation_id: Seq<char>,
    kind: SessionOperationKind,
) -> Step<()> {
    match admitted(r, epoch, session_id, incarnation) {
        Err(error) => refused(r, error),
        Ok(owner) => if kind == SessionOperationKind::Close || kind == SessionOperationKind::Delete
            || !runs_operation(owner, operation_id, kind) {
            refused(r, RuntimeStateError::OperationMismatch)
        } else {
            accepted(session_published(r, session_id, OwnerModel { operation: None, ..owner }), ())
        },
    }
}

/// Ends a change of a control: the control takes its new value.
pub open spec fn control_completed(
    r: RegistryModel,
    epoch: Seq<char>,
    session_id: Seq<char>,
    incarnation: u64,
    operation_id: Seq<char>,
    kind: SessionOperationKind,
    key: Seq<char>,
    update: JsonModel,
) -> Step<()> {
    if epoch != r.epoch {
        refused(r, RuntimeStateError::EpochMismatch)
    } else if !(kind == SessionOperationKind::SetMode || kind == SessionOperationKind::SetConfig) {
        refused(r, RuntimeStateError::OperationMismatch)
    } else {
        match live_owner(r, session_id, incarnation) {
            Err(error) => refused(r, error),
            Ok(owner) => if !runs_operation(owner, operation_id, kind) {
                refused(r, RuntimeStateError::OperationMismatch)
            } else {
                accepted(
                    session_published(
                        r,
                        session_id,
                        OwnerModel {
                            operation: None,
                            live: Some(
                                LiveModel {
                                    control_state: owner.live->0.control_state.insert(key, update),
                                    ..owner.live->0
                                },
                            ),
                            ..owner
                        },
                    ),
                    (),
                )
            },
        }
    }
}

/// The lifecycle of a session whose operation failed. A session that was
/// closed before it was to be deleted stays closed.
pub open spec fn failed_lifecycle(
    owner: OwnerModel,
    kind: SessionOperationKind,
) -> SessionLifecycle {
    match kind {
        SessionOperationKind::Close => SessionLifecycle::Active,
        SessionOperationKind::Delete => if owner.in_stage("deleting"@) {
            SessionLifecycle::Closed
        } else {
            SessionLifecycle::Active
        },
        _ => owner.live->0.lifecycle,
    }
}

/// Ends an operation that failed.
pub open spec fn operation_failed(
    r: RegistryModel,
    epoch: Seq<char>,
    session_id: Seq<char>,
    incarnation: u64,
    operation_id: Seq<char>,
    kind: SessionOperationKind,
) -> Step<()> {
    match admitted(r, epoch, session_id, incarnation) {
        Err(error) => refused(r, error),
        Ok(owner) => if !runs_operation(owner, operation_id, kind) {
            refused(r, RuntimeStateError::OperationMismatch)
        } else {
            accepted(
                session_published(
                    r,
                    session_id,
                    OwnerModel {
                        operation: None,
                        live: Some(
                            LiveModel {
                                lifecycle: failed_lifecycle(owner, kind),
                                ..owner.live->0
                            },
                        ),
                        ..owner
                    },
                ),
                (),
            )
        },
    }
}

/// Closes a session: all its resources are released, and its owner waits for
/// the cleanup.
pub open spec fn session_closed(
    r: RegistryModel,
    epoch: Seq<char>,
    session_id: Seq<char>,
    incarnation: u64,
    operation_id: Seq<char>,
) -> Step<()> {
    match admitted(r, epoch, session_id, incarnation) {
        Err(error) => refused(r, error),
        Ok(owner) => if !runs_operation(owner, operation_id, SessionOperationKind::Close) {
            refused(r, RuntimeStateError::OperationMismatch)
        } else {
            accepted(
                removal_published(
                    with_effects(
                        with_owner(
                            r,
                            session_id,
                            with_live(
                                without_execution(at_stage(owner, "cleanup"@)),
                                drained_as(owner.live->0, SessionLifecycle::Closed),
                            ),
                        ),
                        drain_effects(session_id, incarnation, owner.live->0),
                    ),
                    session_id,
                    incarnation,
                ),
                (),
            )
        },
    }
}

/// What becomes of a cleanup: only the owner that waits for it may finish.
pub open spec fn cleanup_result(
    r: RegistryModel,
    session_id: Seq<char>,
    incarnation: u64,
    kind: SessionAdmission,
    operation_id: Seq<char>,
) -> Result<(), MirrorError> {
    if !r.sessions.contains_key(session_id) {
        Err(MirrorError::UnknownSession)
    } else {
        let owner = r.sessions[session_id];
        if owner.incarnation != incarnation {
            Err(MirrorError::StaleIncarnation)
        } else if !has_operation(owner, operation_id) || admission_of(owner.operation->0.kind)
            != kind || (owner.live matches Some(live) && live.lifecycle
            != SessionLifecycle::Closed) {
            Err(MirrorError::OperationMismatch)
        } else {
            Ok(())
        }
    }
}

fn is_operation(owner: &SessionState, operation_id: &str) -> (found: bool)
    ensures
        found == has_operation(owner@, operation_id@),
{
    match &owner.operation {
        Some(operation) => same_text(operation.operation_id.as_str(), operation_id),
        None => false,
    }
}

fn is_running(owner: &SessionState, operation_id: &str, kind: SessionOperationKind) -> (found: bool)
    ensures
        found == runs_operation(owner@, operation_id@, kind),
{
    match &owner.operation {
        Some(operation) => operation.kind == kind && same_text(
            operation.operation_id.as_str(),
            operation_id,
        ),
        None => false,
    }
}

fn lifecycle_of(owner: &SessionState) -> (lifecycle: SessionLifecycle)
    requires
        owner.live is Some,
    ensures
        lifecycle == owner@.live->0.lifecycle,
{
    match &owner.live {
        Some(live) => live.lifecycle,
        None => SessionLifecycle::Closed,
    }
}

fn move_to_stage(owner: &mut SessionState, stage: &str)
    requires
        old(owner).operation is Some,
    ensures
        final(owner)@ == at_stage(old(owner)@, stage@),
        final(owner).live == old(owner).live,
{
    match owner.operation.take() {
        Some(mut operation) => {
            operation.stage = stage.to_string();
            owner.operation = Some(operation);
        },
        None => {},
    }
}

fn stop_execution(owner: &mut SessionState)
    ensures
        final(owner)@ == without_execution(old(owner)@),
        final(owner).live == old(owner).live,
{
    match owner.active_turn.take() {
        Some(mut turn) => {
            turn.execution = None;
            owner.active_turn = Some(turn);
        },
        None => {},
    }
}

impl SessionRegistry {
    /// Starts an exclusive operation. Whether the history of the session
    /// admits it is decided before.
    pub fn start_operation(
        &mut self,
        expected_epoch: &str,
        session_id: &str,
        incarnation: u64,
        operation_id: &str,
        kind: SessionOperationKind,
        stage: &str,
        history_admits: bool,
    ) -> (result: Result<(), RuntimeStateError>)
        ensures
            (Step { state: final(self)@, result }) == exclusive_started(
                old(self)@,
                expected_epoch@,
                session_id@,
                incarnation,
                operation_id@,
                kind,
                stage@,
                history_admits,
            ),
    {
        match self.require_epoch(expected_epoch) {
            Ok(_) => {},
            Err(error) => {
                return Err(error);
            },
        }
        if self.operation_in_use_except_reserved(
            operation_id,
            Some((session_id, incarnation, kind)),
        ) {
            return Err(RuntimeStateError::OperationCollision);
        }
        match self.require_live_owner(session_id, incarnation) {
            Ok(_) => {},
            Err(error) => {
                return Err(error);
            },
        }
        let mut owner = self.take_owner(session_id);
        match start_operation(&mut owner, operation_id, kind, stage, history_admits) {
            Ok(_) => {
                self.commit_session(session_id, owner);
                Ok(())
            },
            Err(error) => {
                self.put_owner(session_id, owner);
                Err(error)
            },
        }
    }

    /// Starts to delete a session.
    pub fn start_delete(
        &mut self,
        expected_epoch: &str,
        session_id: &str,
        incarnation: u64,
        operation_id: &str,
        history_admits: bool,
    ) -> (result: Result<(), RuntimeStateError>)
        ensures
            (Step { state: final(self)@, result }) == delete_started(
                old(self)@,
                expected_epoch@,
                session_id@,
                incarnation,
                operation_id@,
                history_admits,
            ),
    {
        let stage = match self.require_live_owner(session_id, incarnation) {
            Ok(owner) => match lifecycle_of(owner) {
                SessionLifecycle::Active => "closing",
                SessionLifecycle::Closed => "deleting",
                _ => {
                    return Err(RuntimeStateError::SessionNotActive);
                },
            },
            Err(error) => {
                return Err(error);
            },
        };
        self.start_operation(
            expected_epoch,
            session_id,
            incarnation,
            operation_id,
            SessionOperationKind::Delete,
            stage,
            history_admits,
        )
    }

    /// Starts to delete an active session without closing it first.
    pub fn start_direct_delete(
        &mut self,
        expected_epoch: &str,
        session_id: &str,
        incarnation: u64,
        operation_id: &str,
        history_admits: bool,
    ) -> (result: Result<(), RuntimeStateError>)
        ensures
            (Step { state: final(self)@, result }) == direct_delete_started(
                old(self)@,
                expected_epoch@,
                session_id@,
                incarnation,
                operation_id@,
                history_admits,
            ),
    {
        match self.require_live_owner(session_id, incarnation) {
            Ok(owner) => {
                if lifecycle_of(owner) != SessionLifecycle::Active {
                    return Err(RuntimeStateError::SessionNotActive);
                }
            },
            Err(error) => {
                return Err(error);
            },
        }
        self.start_operation(
            expected_epoch,
            session_id,
            incarnation,
            operation_id,
            SessionOperationKind::Delete,
            "deleting_active",
            history_admits,
        )
    }

    /// Goes on with a deletion once the session is closed.
    pub fn delete_close_succeeded(
        &mut self,
        expected_epoch: &str,
        session_id: &str,
        incarnation: u64,
        operation_id: &str,
    ) -> (result: Result<(), RuntimeStateError>)
        ensures
            (Step { state: final(self)@, result }) == delete_closed(
                old(self)@,
                expected_epoch@,
                session_id@,
                incarnation,
                operation_id@,
            ),
    {
        match self.require_owner(expected_epoch, session_id, incarnation) {
            Ok(owner) => {
                if !is_running(owner, operation_id, SessionOperationKind::Delete) || !is_in_stage(
                    owner,
                    "closing",
                ) || lifecycle_of(owner) != SessionLifecycle::ClosingForDelete {
                    return Err(RuntimeStateError::OperationMismatch);
                }
            },
            Err(error) => {
                return Err(error);
            },
        }
        let mut owner = self.take_owner(session_id);
        move_to_stage(&mut owner, "deleting");
        stop_execution(&mut owner);
        match owner.live.take() {
            Some(mut live) => {
                drain_session_liveness(session_id, incarnation, &mut live, &mut self.effects);
                live.lifecycle = SessionLifecycle::Deleting;
                owner.live = Some(live);
            },
            None => {},
        }
        self.commit_session(session_id, owner);
        Ok(())
    }

    /// Ends a deletion.
    pub fn complete_delete(
        &mut self,
        expected_epoch: &str,
        session_id: &str,
        incarnation: u64,
        operation_id: &str,
    ) -> (result: Result<(), RuntimeStateError>)
        ensures
            (Step { state: final(self)@, result }) == delete_completed(
                old(self)@,
                expected_epoch@,
                session_id@,
                incarnation,
                operation_id@,
            ),
    {
        match self.require_owner(expected_epoch, session_id, incarnation) {
            Ok(owner) => {
                if lifecycle_of(owner) != SessionLifecycle::Deleting || !is_running(
                    owner,
                    operation_id,
                    SessionOperationKind::Delete,
                ) || !(is_in_stage(owner, "deleting") || is_in_stage(owner, "deleting_active")) {
                    return Err(RuntimeStateError::OperationMismatch);
                }
            },
            Err(error) => {
                return Err(error);
            },
        }
        let mut owner = self.take_owner(session_id);
        move_to_stage(&mut owner, "cleanup");
        stop_execution(&mut owner);
        match owner.live.take() {
            Some(mut live) => {
                drain_session_liveness(session_id, incarnation, &mut live, &mut self.effects);
            },
            None => {},
        }
        self.put_owner(session_id, owner);
        self.commit_removal(session_id, incarnation);
        Ok(())
    }

    /// Marks an operation of which it is not known what the Agent did with it.
    pub fn mark_operation_uncertain(
        &mut self,
        expected_epoch: &str,
        session_id: &str,
        incarnation: u64,
        operation_id: &str,
        reason: &str,
    ) -> (result: Result<(), RuntimeStateError>)
        ensures
            (Step { state: final(self)@, result }) == operation_uncertain(
                old(self)@,
                expected_epoch@,
                session_id@,
                incarnation,
                operation_id@,
                reason@,
            ),
    {
        match self.require_owner(expected_epoch, session_id, incarnation) {
            Ok(owner) => {
                if !is_operation(owner, operation_id) {
                    return Err(RuntimeStateError::OperationMismatch);
                }
            },
            Err(error) => {
                return Err(error);
            },
        }
        let mut owner = self.take_owner(session_id);
        match owner.operation.take() {
            Some(mut operation) => {
                operation.stage = "uncertain".to_string();
                operation.uncertainty_reason = Some(reason.to_string());
                owner.operation = Some(operation);
            },
            None => {},
        }
        match owner.live.take() {
            Some(mut live) => {
                drain_session_liveness(session_id, incarnation, &mut live, &mut self.effects);
                live.lifecycle = SessionLifecycle::Uncertain;
                owner.live = Some(live);
            },
            None => {},
        }
        self.commit_session(session_id, owner);
        Ok(())
    }

    /// Ends an operation that leaves its session in place.
    pub fn complete_operation(
        &mut self,
        expected_epoch: &str,
        session_id: &str,
        incarnation: u64,
        operation_id: &str,
        kind: SessionOperationKind,
        _result: &Json,
    ) -> (result: Result<(), RuntimeStateError>)
        ensures
            (Step { state: final(self)@, result }) == operation_completed(
                old(self)@,
                expected_epoch@,
                session_id@,
                incarnation,
                operation_id@,
                kind,
            ),
    {
        match self.require_owner(expected_epoch, session_id, incarnation) {
            Ok(owner) => {
                if kind == SessionOperationKind::Close || kind == SessionOperationKind::Delete
                    || !is_running(owner, operation_id, kind) {
                    return Err(RuntimeStateError::OperationMismatch);
                }
            },
            Err(error) => {
                return Err(error);
            },
        }
        let mut owner = self.take_owner(session_id);
        owner.operation = None;
        self.commit_session(session_id, owner);
        Ok(())
    }

    /// Ends a change of a control.
    pub fn complete_control_operation(
        &mut self,
        expected_epoch: &str,
        session_id: &str,
        incarnation: u64,
        operation_id: &str,
        kind: SessionOperationKind,
        control_key: &str,
        control_update: Json,
        _result: &Json,
    ) -> (result: Result<(), RuntimeStateError>)
        ensures
            (Step { state: final(self)@, result }) == control_completed(
                old(self)@,
                expected_epoch@,
                session_id@,
                incarnation,
                operation_id@,
                kind,
                control_key@,
                control_update@,
            ),
    {
        match self.require_epoch(expected_epoch) {
            Ok(_) => {},
            Err(error) => {
                return Err(error);
            },
        }
        if !(kind == SessionOperationKind::SetMode || kind == SessionOperationKind::SetConfig) {
            return Err(RuntimeStateError::OperationMismatch);
        }
        match self.require_live_owner(session_id, incarnation) {
            Ok(owner) => {
                if !is_running(owner, operation_id, kind) {
                    return Err(RuntimeStateError::OperationMismatch);
                }
            },
            Err(error) => {
                return Err(error);
            },
        }
        let mut owner = self.take_owner(session_id);
        owner.operation = None;
        match owner.live.take() {
            Some(mut live) => {
                live.control_state.insert(control_key, control_update);
                owner.live = Some(live);
            },
            None => {},
        }
        self.commit_session(session_id, owner);
        Ok(())
    }

    /// Ends an operation that failed.
    pub fn fail_operation(
        &mut self,
        expected_epoch: &str,
        session_id: &str,
        incarnation: u64,
        operation_id: &str,
        kind: SessionOperationKind,
        _error: &Json,
    ) -> (result: Result<(), RuntimeStateError>)
        ensures
            (Step { state: final(self)@, result }) == operation_failed(
                old(self)@,
                expected_epoch@,
                session_id@,
                incarnation,
                operation_id@,
                kind,
            ),
    {
        let lifecycle = match self.require_owner(expected_epoch, session_id, incarnation) {
            Ok(owner) => {
                if !is_running(owner, operation_id, kind) {
                    return Err(RuntimeStateError::OperationMismatch);
                }
                match kind {
                    SessionOperationKind::Close => SessionLifecycle::Active,
                    SessionOperationKind::Delete => if is_in_stage(owner, "deleting") {
                        SessionLifecycle::Closed
                    } else {
                        SessionLifecycle::Active
                    },
                    _ => lifecycle_of(owner),
                }
            },
            Err(error) => {
                return Err(error);
            },
        };
        let mut owner = self.take_owner(session_id);
        owner.operation = None;
        match owner.live.take() {
            Some(mut live) => {
                live.lifecycle = lifecycle;
                owner.live = Some(live);
            },
            None => {},
        }
        self.commit_session(session_id, owner);
        Ok(())
    }

    /// Closes a session.
    pub fn close_session(
        &mut self,
        expected_epoch: &str,
        session_id: &str,
        incarnation: u64,
        operation_id: &str,
    ) -> (result: Result<(), RuntimeStateError>)
        ensures
            (Step { state: final(self)@, result }) == session_closed(
                old(self)@,
                expected_epoch@,
                session_id@,
                incarnation,
                operation_id@,
            ),
    {
        match self.require_owner(expected_epoch, session_id, incarnation) {
            Ok(owner) => {
                if !is_running(owner, operation_id, SessionOperationKind::Close) {
                    return Err(RuntimeStateError::OperationMismatch);
                }
            },
            Err(error) => {
                return Err(error);
            },
        }
        let mut owner = self.take_owner(session_id);
        move_to_stage(&mut owner, "cleanup");
        stop_execution(&mut owner);
        match owner.live.take() {
            Some(mut live) => {
                drain_session_liveness(session_id, incarnation, &mut live, &mut self.effects);
                live.lifecycle = SessionLifecycle::Closed;
                owner.live = Some(live);
            },
            None => {},
        }
        self.put_owner(session_id, owner);
        self.commit_removal(session_id, incarnation);
        Ok(())
    }

    /// Ends a closing or a deletion once all that the session held outside is
    /// cleaned up. Late calls of another owner are refused.
    pub fn finish_session_cleanup(
        &mut self,
        session_id: &str,
        incarnation: u64,
        kind: SessionAdmission,
        operation_id: &str,
    ) -> (result: Result<(), MirrorError>)
        ensures
            result == cleanup_result(
                old(self)@,
                session_id@,
                incarnation,
                kind,
                operation_id@,
            ),
            final(self)@ == if result is Ok {
                with_owner(
                    old(self)@,
                    session_id@,
                    OwnerModel { operation: None, live: None, ..old(self)@.sessions[session_id@] },
                )
            } else {
                old(self)@
            },
    {
        match self.sessions.get(session_id) {
            Some(owner) => {
                if owner.incarnation != incarnation {
                    return Err(MirrorError::StaleIncarnation);
                }
                match &owner.operation {
                    Some(operation) => {
                        if !same_text(operation.operation_id.as_str(), operation_id)
                            || operation.kind.admission() != kind {
                            return Err(MirrorError::OperationMismatch);
                        }
                    },
                    None => {
                        return Err(MirrorError::OperationMismatch);
                    },
                }
                match &owner.live {
                    Some(live) => {
                        if live.lifecycle != SessionLifecycle::Closed {
                            return Err(MirrorError::OperationMismatch);
                        }
                    },
                    None => {},
                }
            },
            None => {
                return Err(MirrorError::UnknownSession);
            },
        }
        let mut owner = self.take_owner(session_id);
        owner.operation = None;
        owner.live = None;
        self.put_owner(session_id, owner);
        Ok(())
    }
}

/// Reserves an exclusive operation in a session, where the history of the
/// session grants it. No change is published of it before the operation starts.
pub open spec fn reserve_result(
    r: RegistryModel,
    session_id: Seq<char>,
    incarnation: u64,
    granted: Result<(), MirrorError>,
) -> Result<(), MirrorError> {
    if !r.sessions.contains_key(session_id) {
        Err(MirrorError::UnknownSession)
    } else if r.sessions[session_id].incarnation != incarnation {
        Err(MirrorError::StaleIncarnation)
    } else {
        granted
    }
}

/// The registry with a reservation.
pub open spec fn with_reservation(
    r: RegistryModel,
    session_id: Seq<char>,
    kind: SessionOperationKind,
    operation_id: Seq<char>,
) -> RegistryModel {
    with_owner(
        r,
        session_id,
        OwnerModel {
            operation: Some(
                OperationModel {
                    operation_id,
                    kind,
                    stage: "reserved"@,
                    uncertainty_reason: None,
                },
            ),
            ..r.sessions[session_id]
        },
    )
}

impl SessionRegistry {
    /// Reserves an exclusive operation in a session. Whether the history of
    /// the session grants it is decided before.
    pub fn begin_exclusive(
        &mut self,
        session_id: &str,
        incarnation: u64,
        kind: SessionOperationKind,
        operation_id: &str,
        granted: Result<(), MirrorError>,
    ) -> (result: Result<(), MirrorError>)
        ensures
            result == reserve_result(old(self)@, session_id@, incarnation, granted),
            final(self)@ == if result is Ok {
                with_reservation(old(self)@, session_id@, kind, operation_id@)
            } else {
                old(self)@
            },
    {
        match self.sessions.get(session_id) {
            Some(owner) => {
                if owner.incarnation != incarnation {
                    return Err(MirrorError::StaleIncarnation);
                }
            },
            None => {
                return Err(MirrorError::UnknownSession);
            },
        }
        match granted {
            Ok(_) => {},
            Err(error) => {
                return Err(error);
            },
        }
        let mut owner = self.take_owner(session_id);
        owner.operation = Some(
            SessionOperationState {
                operation_id: operation_id.to_string(),
                kind,
                stage: "reserved".to_string(),
                uncertainty_reason: None,
            },
        );
        self.put_owner(session_id, owner);
        granted
    }
}

/// A reservation counts for everybody but for the operation that it was made
/// for: that one finds its identifier as free as it was before.
pub proof fn law_reservation_exempts_only_itself(
    r: RegistryModel,
    session_id: Seq<char>,
    kind: SessionOperationKind,
    operation_id: Seq<char>,
)
    requires
        r.sessions.contains_key(session_id),
        forall|id: Seq<char>| #[trigger]
            r.sessions.contains_key(id) ==> r.sessions[id].session_id == id,
        r.sessions[session_id].operation is None,
    ensures
        ({
            let reserved = with_reservation(r, session_id, kind, operation_id);
            let own = Reservation {
                session_id,
                incarnation: r.sessions[session_id].incarnation,
                kind,
            };
            &&& in_use(reserved, operation_id, None)
            &&& in_use(reserved, operation_id, Some(own)) == in_use(r, operation_id, None)
        }),
{
    let reserved = with_reservation(r, session_id, kind, operation_id);
    let own = Reservation { session_id, incarnation: r.sessions[session_id].incarnation, kind };
    assert(reserved.sessions.contains_key(session_id));
    assert(uses_operation(reserved.sessions[session_id], operation_id, None));
    if in_use(r, operation_id, None) && !responds(r.request_elicitations, operation_id) {
        let id = choose|id: Seq<char>| #[trigger]
            r.sessions.contains_key(id) && uses_operation(r.sessions[id], operation_id, None);
        assert(reserved.sessions.contains_key(id));
        if id == session_id {
            assert(uses_operation(reserved.sessions[id], operation_id, Some(own)));
        } else if !uses_operation(r.sessions[id], operation_id, Some(own)) {
            assert(r.sessions[id].session_id == session_id);
        }
    }
    if in_use(reserved, operation_id, Some(own)) && !responds(
        r.request_elicitations,
        operation_id,
    ) {
        let id = choose|id: Seq<char>| #[trigger]
            reserved.sessions.contains_key(id) && uses_operation(
                reserved.sessions[id],
                operation_id,
                Some(own),
            );
        assert(r.sessions.contains_key(id));
        assert(uses_operation(r.sessions[id], operation_id, None));
    }
}

} // verus!
