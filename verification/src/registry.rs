//! The registry of sessions: who owns each session, and what is published of
//! its transitions. A transition that is refused changes nothing.
use crate::fold::RuntimeStateError;
use crate::journal::{
    bump, bumped, deltas_model, empty_journal, journal_committed, journal_released, journal_suffix,
    JournalModel, RuntimeJournal,
};
use crate::json::copy_items;
use crate::runtime_types::{
    duplicate_optional, effects_model, ActiveTurn, ChangeModel, EffectModel, InteractionModel,
    LiveModel, OwnerModel, PendingInteraction, RuntimeChange, RuntimeDelta, RuntimeEffect,
    RuntimeSnapshot, SessionLifecycle, SessionLiveState, SessionModel, SessionOperationKind,
    SessionRuntime, SessionState, SnapshotModel, TurnModel, UrlFlow, UrlFlowModel,
};
use crate::semantic::texts;
use crate::session_live::{is_responding, responds};
use crate::table::{lemma_take_contains, sorted_keys, Duplicate, Table};
use crate::text::same_text;
use vstd::prelude::*;

pub mod attachment;
pub mod interactions;
pub mod operations;
pub mod turns;

verus! {

/// All sessions of one connection, the questions that belong to no session,
/// and the journal of what was published.
#[derive(Debug)]
pub struct SessionRegistry {
    epoch: String,
    journal: RuntimeJournal,
    connection_revision: u64,
    sessions: Table<SessionState>,
    request_elicitations: Table<PendingInteraction>,
    request_url_flows: Table<UrlFlow>,
    resolved_request_elicitations: Vec<String>,
    resolved_request_url_flows: Vec<String>,
    effects: Vec<RuntimeEffect>,
    next_incarnation: u64,
}

#[verifier::ext_equal]
pub struct RegistryModel {
    pub epoch: Seq<char>,
    pub journal: JournalModel,
    pub connection_revision: u64,
    pub sessions: Map<Seq<char>, OwnerModel>,
    pub request_elicitations: Map<Seq<char>, InteractionModel>,
    pub request_url_flows: Map<Seq<char>, UrlFlowModel>,
    pub resolved_request_elicitations: Seq<Seq<char>>,
    pub resolved_request_url_flows: Seq<Seq<char>>,
    pub effects: Seq<EffectModel>,
    pub next_incarnation: u64,
}

impl View for SessionRegistry {
    type V = RegistryModel;

    closed spec fn view(&self) -> RegistryModel {
        RegistryModel {
            epoch: self.epoch@,
            journal: self.journal@,
            connection_revision: self.connection_revision,
            sessions: self.sessions@,
            request_elicitations: self.request_elicitations@,
            request_url_flows: self.request_url_flows@,
            resolved_request_elicitations: texts(self.resolved_request_elicitations@),
            resolved_request_url_flows: texts(self.resolved_request_url_flows@),
            effects: effects_model(self.effects@),
            next_incarnation: self.next_incarnation,
        }
    }
}

/// The registry of a new connection.
pub open spec fn empty_registry(epoch: Seq<char>) -> RegistryModel {
    RegistryModel {
        epoch,
        journal: empty_journal(),
        connection_revision: 0,
        sessions: Map::empty(),
        request_elicitations: Map::empty(),
        request_url_flows: Map::empty(),
        resolved_request_elicitations: Seq::empty(),
        resolved_request_url_flows: Seq::empty(),
        effects: Seq::empty(),
        next_incarnation: 0,
    }
}

/// A transition: the state after it and its result.
#[verifier::ext_equal]
pub struct Step<T> {
    pub state: RegistryModel,
    pub result: Result<T, RuntimeStateError>,
}

/// A transition that is refused.
pub open spec fn refused<T>(state: RegistryModel, error: RuntimeStateError) -> Step<T> {
    Step { state, result: Err(error) }
}

/// A transition that is accepted.
pub open spec fn accepted<T>(state: RegistryModel, value: T) -> Step<T> {
    Step { state, result: Ok(value) }
}

/// The owner of a live session of a given incarnation.
pub open spec fn live_owner(r: RegistryModel, session_id: Seq<char>, incarnation: u64) -> Result<
    OwnerModel,
    RuntimeStateError,
> {
    if !r.sessions.contains_key(session_id) {
        Err(RuntimeStateError::UnknownSession)
    } else if r.sessions[session_id].incarnation != incarnation {
        Err(RuntimeStateError::StaleIncarnation)
    } else if !r.sessions[session_id].is_live() {
        Err(RuntimeStateError::UnknownSession)
    } else {
        Ok(r.sessions[session_id])
    }
}

/// The owner of a live session, asked for in the epoch of the connection.
pub open spec fn admitted(
    r: RegistryModel,
    epoch: Seq<char>,
    session_id: Seq<char>,
    incarnation: u64,
) -> Result<OwnerModel, RuntimeStateError> {
    if epoch != r.epoch {
        Err(RuntimeStateError::EpochMismatch)
    } else {
        live_owner(r, session_id, incarnation)
    }
}

/// Whether a session is published: a session that is closed and waits for its
/// cleanup is not.
pub open spec fn is_published(owner: OwnerModel) -> bool {
    owner.live matches Some(live) && !(live.lifecycle == SessionLifecycle::Closed
        && owner.in_stage("cleanup"@))
}

/// The turn that is published of a session.
pub open spec fn published_turn(owner: OwnerModel) -> Option<TurnModel> {
    match owner.execution() {
        Some(execution) => Some(
            TurnModel {
                operation_id: execution.rpc_operation_id,
                turn_id: execution.rpc_operation_id,
                prompt: owner.active_turn->0.prompt,
                updates: owner.active_turn->0.updates,
                cancel_requested: execution.cancel_requested,
            },
        ),
        None => None,
    }
}

/// What is published of a live session.
pub open spec fn published_session(owner: OwnerModel) -> SessionModel {
    let live = owner.live->0;
    SessionModel {
        session_id: owner.session_id,
        incarnation: owner.incarnation,
        revision: live.revision,
        cwd: live.cwd,
        session: live.session,
        control_state: live.control_state,
        lifecycle: live.lifecycle,
        active_turn: published_turn(owner),
        operation: owner.operation,
        permissions: live.permissions,
        elicitations: live.elicitations,
        url_flows: live.url_flows,
        terminals: live.terminals,
        history_revision: live.history_revision,
        phase: live.phase,
        sync_error: live.sync_error,
    }
}

/// All that is published.
pub open spec fn published(r: RegistryModel) -> SnapshotModel {
    SnapshotModel {
        epoch: r.epoch,
        through_seq: r.journal.seq,
        connection_revision: r.connection_revision,
        sessions: Map::new(
            |id: Seq<char>| r.sessions.contains_key(id) && is_published(r.sessions[id]),
            |id: Seq<char>| published_session(r.sessions[id]),
        ),
        request_elicitations: r.request_elicitations,
        request_url_flows: r.request_url_flows,
    }
}

/// The registry with an owner under a session identifier.
pub open spec fn with_owner(r: RegistryModel, session_id: Seq<char>, owner: OwnerModel) -> RegistryModel {
    RegistryModel { sessions: r.sessions.insert(session_id, owner), ..r }
}

/// The registry without the owner of a session.
pub open spec fn without_owner(r: RegistryModel, session_id: Seq<char>) -> RegistryModel {
    RegistryModel { sessions: r.sessions.remove(session_id), ..r }
}

/// The registry with more effects to be done.
pub open spec fn with_effects(r: RegistryModel, effects: Seq<EffectModel>) -> RegistryModel {
    RegistryModel { effects: r.effects + effects, ..r }
}

/// The registry after a change has been published.
pub open spec fn with_change(
    r: RegistryModel,
    scope_revision: Option<u64>,
    change: ChangeModel,
) -> RegistryModel {
    RegistryModel {
        journal: journal_committed(r.journal, r.epoch, scope_revision, change),
        ..r
    }
}

/// The owner with its next revision. What it publishes of its history is what
/// the history is now.
pub open spec fn stamped(owner: OwnerModel) -> OwnerModel {
    OwnerModel {
        live: Some(
            LiveModel {
                revision: bumped(owner.live->0.revision),
                history_revision: owner.history_revision,
                phase: owner.phase,
                sync_error: owner.sync_error,
                ..owner.live->0
            },
        ),
        ..owner
    }
}

/// The registry after the owner of a session has changed and the whole session
/// has been published.
pub open spec fn session_published(
    r: RegistryModel,
    session_id: Seq<char>,
    owner: OwnerModel,
) -> RegistryModel {
    let next = stamped(owner);
    with_change(
        with_owner(r, session_id, next),
        Some(next.live->0.revision),
        ChangeModel::SessionUpsert { session: published_session(next) },
    )
}

/// The registry after the questions that belong to no session have changed and
/// have been published.
pub open spec fn connection_published(r: RegistryModel) -> RegistryModel {
    let next = RegistryModel { connection_revision: bumped(r.connection_revision), ..r };
    with_change(
        next,
        Some(next.connection_revision),
        ChangeModel::ConnectionUpsert {
            request_elicitations: next.request_elicitations,
            request_url_flows: next.request_url_flows,
        },
    )
}

/// The registry after the removal of a session has been published.
pub open spec fn removal_published(
    r: RegistryModel,
    session_id: Seq<char>,
    incarnation: u64,
) -> RegistryModel {
    with_change(r, None, ChangeModel::SessionRemoved { session_id, incarnation })
}

/// Taking an owner out before putting one in makes no difference.
pub broadcast proof fn lemma_put_back(r: RegistryModel, session_id: Seq<char>, owner: OwnerModel)
    ensures
        #[trigger] with_owner(without_owner(r, session_id), session_id, owner) == with_owner(
            r,
            session_id,
            owner,
        ),
{
    assert(with_owner(without_owner(r, session_id), session_id, owner).sessions =~= with_owner(
        r,
        session_id,
        owner,
    ).sessions);
}

/// Putting an owner back as it was changes nothing.
pub broadcast proof fn lemma_put_back_unchanged(r: RegistryModel, session_id: Seq<char>)
    requires
        r.sessions.contains_key(session_id),
    ensures
        #[trigger] with_owner(r, session_id, r.sessions[session_id]) == r,
{
    assert(with_owner(r, session_id, r.sessions[session_id]).sessions =~= r.sessions);
}

/// An operation that holds a reservation: a session, its incarnation, and the
/// kind of the operation.
pub struct Reservation {
    pub session_id: Seq<char>,
    pub incarnation: u64,
    pub kind: SessionOperationKind,
}

/// Whether a session uses an operation identifier: for its turn, for its
/// exclusive operation unless that is the reservation itself, or for a
/// response to a question.
pub open spec fn uses_operation(
    owner: OwnerModel,
    operation_id: Seq<char>,
    reservation: Option<Reservation>,
) -> bool {
    ||| (owner.execution() matches Some(execution) && execution.rpc_operation_id == operation_id)
    ||| (owner.operation matches Some(operation) && operation.operation_id == operation_id && !(
    reservation matches Some(reserved) && owner.session_id == reserved.session_id
        && owner.incarnation == reserved.incarnation && operation.kind == reserved.kind
        && operation.stage == "reserved"@))
    ||| (owner.live matches Some(live) && (responds(live.permissions, operation_id) || responds(
        live.elicitations,
        operation_id,
    )))
}

/// Whether an operation identifier is in use anywhere.
pub open spec fn in_use(
    r: RegistryModel,
    operation_id: Seq<char>,
    reservation: Option<Reservation>,
) -> bool {
    ||| exists|id: Seq<char>| #[trigger]
        r.sessions.contains_key(id) && uses_operation(r.sessions[id], operation_id, reservation)
    ||| responds(r.request_elicitations, operation_id)
}

/// Whether a flow identifier is in use anywhere.
pub open spec fn flow_in_use(r: RegistryModel, elicitation_id: Seq<char>) -> bool {
    ||| r.request_url_flows.contains_key(elicitation_id)
    ||| exists|id: Seq<char>| #[trigger]
        r.sessions.contains_key(id) && (r.sessions[id].live matches Some(live)
            && live.url_flows.contains_key(elicitation_id))
}

/// Whether the owner of a session has an operation in a stage.
pub fn is_in_stage(owner: &SessionState, stage: &str) -> (found: bool)
    ensures
        found == owner@.in_stage(stage@),
{
    match &owner.operation {
        Some(operation) => same_text(operation.stage.as_str(), stage),
        None => false,
    }
}

/// What is published of a session, if it is published.
pub fn project_session(owner: &SessionState) -> (session: Option<SessionRuntime>)
    ensures
        match session {
            Some(session) => is_published(owner@) && session@ == published_session(owner@),
            None => !is_published(owner@),
        },
{
    let live = match &owner.live {
        Some(live) => live,
        None => {
            return None;
        },
    };
    if live.lifecycle == SessionLifecycle::Closed && is_in_stage(owner, "cleanup") {
        return None;
    }
    let active_turn = match &owner.active_turn {
        Some(turn) => match &turn.execution {
            Some(execution) => Some(
                ActiveTurn {
                    operation_id: execution.rpc_operation_id.clone(),
                    turn_id: execution.rpc_operation_id.clone(),
                    prompt: copy_items(&turn.prompt),
                    updates: copy_items(&turn.updates),
                    cancel_requested: execution.cancel_requested,
                },
            ),
            None => None,
        },
        None => None,
    };
    Some(
        SessionRuntime {
            session_id: owner.session_id.clone(),
            incarnation: owner.incarnation,
            revision: live.revision,
            cwd: live.cwd.clone(),
            session: live.session.clone(),
            control_state: live.control_state.duplicate(),
            lifecycle: live.lifecycle,
            active_turn,
            operation: duplicate_optional(&owner.operation),
            permissions: live.permissions.duplicate(),
            elicitations: live.elicitations.duplicate(),
            url_flows: live.url_flows.duplicate(),
            terminals: live.terminals.duplicate(),
            history_revision: live.history_revision.clone(),
            phase: live.phase,
            sync_error: live.sync_error.clone(),
        },
    )
}

/// Whether a session uses an operation identifier.
fn owner_uses(
    owner: &SessionState,
    operation_id: &str,
    reservation: Option<(&str, u64, SessionOperationKind)>,
) -> (used: bool)
    ensures
        used == uses_operation(owner@, operation_id@, reservation_model(reservation)),
{
    match owner.turn_execution() {
        Some(execution) => {
            if same_text(execution.rpc_operation_id.as_str(), operation_id) {
                return true;
            }
        },
        None => {},
    }
    match &owner.operation {
        Some(operation) => {
            if same_text(operation.operation_id.as_str(), operation_id) {
                let reserved = match reservation {
                    Some((session_id, incarnation, kind)) => owner.incarnation == incarnation
                        && operation.kind == kind && same_text(
                        owner.session_id.as_str(),
                        session_id,
                    ) && same_text(operation.stage.as_str(), "reserved"),
                    None => false,
                };
                if !reserved {
                    return true;
                }
            }
        },
        None => {},
    }
    match &owner.live {
        Some(live) => is_responding(&live.permissions, operation_id) || is_responding(
            &live.elicitations,
            operation_id,
        ),
        None => false,
    }
}

/// The model of a reservation.
pub open spec fn reservation_model(
    reservation: Option<(&str, u64, SessionOperationKind)>,
) -> Option<Reservation> {
    match reservation {
        Some((session_id, incarnation, kind)) => Some(
            Reservation { session_id: session_id@, incarnation, kind },
        ),
        None => None,
    }
}

impl SessionRegistry {
    /// The registry of a new connection.
    pub fn new(epoch: &str) -> (registry: Self)
        ensures
            registry@ == empty_registry(epoch@),
    {
        let registry = SessionRegistry {
            epoch: epoch.to_string(),
            journal: RuntimeJournal::new(),
            connection_revision: 0,
            sessions: Table::new(),
            request_elicitations: Table::new(),
            request_url_flows: Table::new(),
            resolved_request_elicitations: Vec::new(),
            resolved_request_url_flows: Vec::new(),
            effects: Vec::new(),
            next_incarnation: 0,
        };
        assert(registry@ =~= empty_registry(epoch@));
        registry
    }

    /// The epoch of the connection.
    pub fn epoch(&self) -> (epoch: &str)
        ensures
            epoch@ == self@.epoch,
    {
        self.epoch.as_str()
    }

    /// The sequence number of the last published change.
    pub fn seq(&self) -> (seq: u64)
        ensures
            seq == self@.journal.seq,
    {
        self.journal.through_seq()
    }

    /// The journal of published changes.
    pub fn journal(&self) -> (journal: &RuntimeJournal)
        ensures
            journal@ == self@.journal,
    {
        &self.journal
    }

    /// All that is published.
    pub fn snapshot(&self) -> (snapshot: RuntimeSnapshot)
        ensures
            snapshot@ == published(self@),
    {
        let ghost r = self@;
        let ghost keys = sorted_keys(r.sessions);
        let mut sessions: Table<SessionRuntime> = Table::new();
        let len = self.sessions.len();
        let mut i: usize = 0;
        while i < len
            invariant
                i <= len,
                r == self@,
                keys == sorted_keys(r.sessions),
                len == keys.len(),
                keys.to_set() == r.sessions.dom(),
                forall|key: Seq<char>| #[trigger]
                    sessions@.dom().contains(key) <==> keys.take(i as int).contains(key)
                        && is_published(r.sessions[key]),
                forall|key: Seq<char>| #[trigger]
                    sessions@.dom().contains(key) ==> sessions@[key] == published_session(
                        r.sessions[key],
                    ),
            decreases len - i,
        {
            proof {
                lemma_take_contains(keys, i as int);
            }
            let key = self.sessions.key(i);
            match project_session(self.sessions.value(i)) {
                Some(session) => {
                    sessions.insert(key, session);
                },
                None => {},
            }
            i += 1;
        }
        proof {
            assert(keys.take(i as int) =~= keys);
            assert forall|key: Seq<char>| keys.contains(key) == r.sessions.dom().contains(key) by {
                assert(keys.to_set().contains(key) == keys.contains(key));
            }
            assert(sessions@ =~= published(r).sessions);
        }
        RuntimeSnapshot {
            epoch: self.epoch.clone(),
            through_seq: self.journal.through_seq(),
            connection_revision: self.connection_revision,
            sessions,
            request_elicitations: self.request_elicitations.duplicate(),
            request_url_flows: self.request_url_flows.duplicate(),
        }
    }

    /// The published changes after a sequence number.
    pub fn deltas_after(&self, seq: u64) -> (deltas: Option<Vec<RuntimeDelta>>)
        requires
            self@.journal.seq < u64::MAX || self@.journal.deltas.len() > 0,
        ensures
            match deltas {
                Some(deltas) => journal_suffix(self@.journal, seq) == Some(deltas_model(deltas@)),
                None => journal_suffix(self@.journal, seq) is None,
            },
    {
        self.journal.deltas_after(seq)
    }

    /// Forgets the changes that have been delivered.
    pub fn release_published_runtime(&mut self, seq: u64)
        ensures
            final(self)@ == (RegistryModel {
                journal: journal_released(old(self)@.journal, seq),
                ..old(self)@
            }),
    {
        self.journal.release_through(seq);
    }

    /// What is published of a session.
    pub fn session(&self, session_id: &str) -> (session: Option<SessionRuntime>)
        ensures
            match session {
                Some(session) => self@.sessions.contains_key(session_id@) && is_published(
                    self@.sessions[session_id@],
                ) && session@ == published_session(self@.sessions[session_id@]),
                None => !(self@.sessions.contains_key(session_id@) && is_published(
                    self@.sessions[session_id@],
                )),
            },
    {
        match self.sessions.get(session_id) {
            Some(owner) => project_session(owner),
            None => None,
        }
    }

    /// The owner of a session.
    pub fn state(&self, session_id: &str) -> (owner: Option<&SessionState>)
        ensures
            match owner {
                Some(owner) => self@.sessions.contains_key(session_id@) && owner@
                    == self@.sessions[session_id@],
                None => !self@.sessions.contains_key(session_id@),
            },
    {
        self.sessions.get(session_id)
    }

    /// The live state of a session.
    pub fn live(&self, session_id: &str) -> (live: Option<&SessionLiveState>)
        ensures
            match live {
                Some(live) => self@.sessions.contains_key(session_id@)
                    && self@.sessions[session_id@].live == Some(live@),
                None => !(self@.sessions.contains_key(session_id@)
                    && self@.sessions[session_id@].live is Some),
            },
    {
        match self.sessions.get(session_id) {
            Some(owner) => match &owner.live {
                Some(live) => Some(live),
                None => None,
            },
            None => None,
        }
    }

    /// Hands out the work that is to be done outside.
    pub fn take_effects(&mut self) -> (effects: Vec<RuntimeEffect>)
        ensures
            effects_model(effects@) == old(self)@.effects,
            final(self)@ == (RegistryModel { effects: Seq::empty(), ..old(self)@ }),
    {
        let mut effects: Vec<RuntimeEffect> = Vec::new();
        std::mem::swap(&mut effects, &mut self.effects);
        assert(effects_model(self.effects@) =~= Seq::<EffectModel>::empty());
        effects
    }

    fn require_epoch(&self, expected_epoch: &str) -> (result: Result<(), RuntimeStateError>)
        ensures
            result == if expected_epoch@ == self@.epoch {
                Ok::<(), RuntimeStateError>(())
            } else {
                Err::<(), RuntimeStateError>(RuntimeStateError::EpochMismatch)
            },
    {
        if same_text(expected_epoch, self.epoch.as_str()) {
            Ok(())
        } else {
            Err(RuntimeStateError::EpochMismatch)
        }
    }

    fn require_live_owner(&self, session_id: &str, incarnation: u64) -> (owner: Result<
        &SessionState,
        RuntimeStateError,
    >)
        ensures
            match owner {
                Ok(owner) => live_owner(self@, session_id@, incarnation) == Ok::<
                    OwnerModel,
                    RuntimeStateError,
                >(owner@) && owner.live is Some,
                Err(error) => live_owner(self@, session_id@, incarnation) == Err::<
                    OwnerModel,
                    RuntimeStateError,
                >(error),
            },
    {
        match self.sessions.get(session_id) {
            Some(owner) => {
                if owner.incarnation != incarnation {
                    return Err(RuntimeStateError::StaleIncarnation);
                }
                if owner.live.is_none() || is_in_stage(owner, "cleanup") {
                    return Err(RuntimeStateError::UnknownSession);
                }
                Ok(owner)
            },
            None => Err(RuntimeStateError::UnknownSession),
        }
    }

    /// The owner of a live session, asked for in the epoch of the connection.
    fn require_owner(&self, expected_epoch: &str, session_id: &str, incarnation: u64) -> (owner: Result<
        &SessionState,
        RuntimeStateError,
    >)
        ensures
            match owner {
                Ok(owner) => admitted(self@, expected_epoch@, session_id@, incarnation) == Ok::<
                    OwnerModel,
                    RuntimeStateError,
                >(owner@) && owner.live is Some,
                Err(error) => admitted(self@, expected_epoch@, session_id@, incarnation) == Err::<
                    OwnerModel,
                    RuntimeStateError,
                >(error),
            },
    {
        match self.require_epoch(expected_epoch) {
            Ok(_) => self.require_live_owner(session_id, incarnation),
            Err(error) => Err(error),
        }
    }

    /// Takes the owner of a session out, to put its next state in.
    fn take_owner(&mut self, session_id: &str) -> (owner: SessionState)
        requires
            old(self)@.sessions.contains_key(session_id@),
        ensures
            owner@ == old(self)@.sessions[session_id@],
            final(self)@ == without_owner(old(self)@, session_id@),
    {
        match self.sessions.remove(session_id) {
            Some(owner) => owner,
            None => SessionState::cold(session_id, 0),
        }
    }

    fn put_owner(&mut self, session_id: &str, owner: SessionState)
        ensures
            final(self)@ == with_owner(old(self)@, session_id@, owner@),
    {
        self.sessions.insert(session_id, owner);
    }

    /// Whether an operation identifier is in use.
    pub fn operation_in_use(&self, operation_id: &str) -> (used: bool)
        ensures
            used == in_use(self@, operation_id@, None),
    {
        self.operation_in_use_except_reserved(operation_id, None)
    }

    /// Whether an operation identifier is in use, but for a reservation.
    fn operation_in_use_except_reserved(
        &self,
        operation_id: &str,
        reservation: Option<(&str, u64, SessionOperationKind)>,
    ) -> (used: bool)
        ensures
            used == in_use(self@, operation_id@, reservation_model(reservation)),
    {
        let ghost r = self@;
        let ghost keys = sorted_keys(r.sessions);
        let ghost reserved = reservation_model(reservation);
        let len = self.sessions.len();
        let mut i: usize = 0;
        while i < len
            invariant
                i <= len,
                r == self@,
                keys == sorted_keys(r.sessions),
                len == keys.len(),
                keys.to_set() == r.sessions.dom(),
                reserved == reservation_model(reservation),
                forall|j: int|
                    0 <= j < i ==> !uses_operation(
                        r.sessions[#[trigger] keys[j]],
                        operation_id@,
                        reserved,
                    ),
            decreases len - i,
        {
            if owner_uses(self.sessions.value(i), operation_id, reservation) {
                assert(r.sessions.contains_key(keys[i as int]));
                return true;
            }
            i += 1;
        }
        proof {
            assert forall|id: Seq<char>| #[trigger] r.sessions.contains_key(id) implies !uses_operation(
                r.sessions[id],
                operation_id@,
                reserved,
            ) by {
                assert(keys.to_set().contains(id));
                let j = choose|j: int| 0 <= j < keys.len() && keys[j] == id;
                assert(!uses_operation(r.sessions[keys[j]], operation_id@, reserved));
            }
        }
        is_responding(&self.request_elicitations, operation_id)
    }

    /// Whether a flow identifier is in use.
    fn url_flow_in_use(&self, elicitation_id: &str) -> (used: bool)
        ensures
            used == flow_in_use(self@, elicitation_id@),
    {
        if self.request_url_flows.contains_key(elicitation_id) {
            return true;
        }
        let ghost r = self@;
        let ghost keys = sorted_keys(r.sessions);
        let len = self.sessions.len();
        let mut i: usize = 0;
        while i < len
            invariant
                i <= len,
                r == self@,
                keys == sorted_keys(r.sessions),
                len == keys.len(),
                keys.to_set() == r.sessions.dom(),
                forall|j: int|
                    0 <= j < i ==> !(r.sessions[#[trigger] keys[j]].live matches Some(live)
                        && live.url_flows.contains_key(elicitation_id@)),
            decreases len - i,
        {
            match &self.sessions.value(i).live {
                Some(live) => {
                    if live.url_flows.contains_key(elicitation_id) {
                        assert(r.sessions.contains_key(keys[i as int]));
                        return true;
                    }
                },
                None => {},
            }
            i += 1;
        }
        proof {
            assert forall|id: Seq<char>| #[trigger] r.sessions.contains_key(id) implies !(
            r.sessions[id].live matches Some(live) && live.url_flows.contains_key(
                elicitation_id@,
            )) by {
                assert(keys.to_set().contains(id));
                let j = choose|j: int| 0 <= j < keys.len() && keys[j] == id;
                assert(!(r.sessions[keys[j]].live matches Some(live)
                    && live.url_flows.contains_key(elicitation_id@)));
            }
        }
        false
    }

    /// Puts the next state of a session in and publishes the session.
    fn commit_session(&mut self, session_id: &str, owner: SessionState)
        requires
            is_published(owner@),
        ensures
            final(self)@ == session_published(old(self)@, session_id@, owner@),
    {
        let ghost before = owner@;
        let mut owner = owner;
        let mut revision: u64 = 0;
        match owner.live.take() {
            Some(mut live) => {
                live.revision = bump(live.revision);
                live.history_revision = owner.history_revision.clone();
                live.phase = owner.phase;
                live.sync_error = owner.sync_error.clone();
                revision = live.revision;
                owner.live = Some(live);
            },
            None => {},
        }
        assert(owner@ =~= stamped(before));
        let session = project_session(&owner);
        self.sessions.insert(session_id, owner);
        match session {
            Some(session) => {
                self.commit_delta(
                    Some(revision),
                    RuntimeChange::SessionUpsert { session: Box::new(session) },
                );
            },
            None => {},
        }
    }

    /// Publishes the questions that belong to no session.
    fn commit_connection(&mut self)
        ensures
            final(self)@ == connection_published(old(self)@),
    {
        self.connection_revision = bump(self.connection_revision);
        let request_elicitations = self.request_elicitations.duplicate();
        let request_url_flows = self.request_url_flows.duplicate();
        self.commit_delta(
            Some(self.connection_revision),
            RuntimeChange::ConnectionUpsert { request_elicitations, request_url_flows },
        );
    }

    /// Publishes the removal of a session.
    fn commit_removal(&mut self, session_id: &str, incarnation: u64)
        ensures
            final(self)@ == removal_published(old(self)@, session_id@, incarnation),
    {
        self.commit_delta(
            None,
            RuntimeChange::SessionRemoved { session_id: session_id.to_string(), incarnation },
        );
    }

    fn commit_delta(&mut self, scope_revision: Option<u64>, change: RuntimeChange)
        ensures
            final(self)@ == with_change(old(self)@, scope_revision, change@),
    {
        self.journal.commit(self.epoch.as_str(), scope_revision, change);
    }
}

} // verus!
