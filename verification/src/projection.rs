//! The projection of what is published: a snapshot that follows the published
//! changes one by one.
use crate::fold::{
    fold_active_turn_update, fold_terminal_snapshot, folded_terminal, folded_turn,
    terminal_released,
};
use crate::events::kind_of;
use crate::json::{json_of_text, reads_back, text_of_json, Json, JsonModel};
use crate::runtime_types::{
    optional, ChangeModel, DeltaModel, RuntimeChange, RuntimeDelta, RuntimeSnapshot,
    SessionLifecycle, SessionModel, SessionRuntime, SnapshotModel, TurnModel,
};
use crate::semantic::texts;
use crate::session_live::keys_of;
use crate::table::{lemma_take_contains, sorted_keys, Duplicate, Table};
use crate::text::{is_text, same_text};
use crate::wire::Wire;
use vstd::prelude::*;

verus! {

/// The number that has to follow: no number follows the largest one.
pub open spec fn expected_next(number: u64) -> u64 {
    if number == u64::MAX {
        u64::MAX
    } else {
        (number + 1) as u64
    }
}

fn next_number(number: u64) -> (next: u64)
    ensures
        next == expected_next(number),
{
    number.saturating_add(1)
}

/// The session under an identifier, if it is the incarnation and if the
/// revision is the one that has to follow.
pub open spec fn following(
    snapshot: SnapshotModel,
    session_id: Seq<char>,
    incarnation: u64,
    revision: u64,
) -> Option<SessionModel> {
    if snapshot.sessions.contains_key(session_id) && snapshot.sessions[session_id].incarnation
        == incarnation && revision == expected_next(snapshot.sessions[session_id].revision) {
        Some(snapshot.sessions[session_id])
    } else {
        None
    }
}

/// The snapshot with another state of a session.
pub open spec fn with_session(
    snapshot: SnapshotModel,
    session_id: Seq<char>,
    session: SessionModel,
) -> SnapshotModel {
    SnapshotModel { sessions: snapshot.sessions.insert(session_id, session), ..snapshot }
}

/// Whether the full state of a session may follow what is known of it: the
/// next revision of the same incarnation, or the first revision of a session
/// that is not known or that is closed in another incarnation.
pub open spec fn may_follow(snapshot: SnapshotModel, session: SessionModel) -> bool {
    if snapshot.sessions.contains_key(session.session_id) {
        let current = snapshot.sessions[session.session_id];
        if current.incarnation == session.incarnation {
            session.revision == expected_next(current.revision)
        } else {
            current.lifecycle == SessionLifecycle::Closed && session.revision == 1
        }
    } else {
        session.revision == 1
    }
}

/// The terminal that is known of a session under an identifier.
pub open spec fn known_terminal(session: SessionModel, terminal_id: Seq<char>) -> Option<JsonModel> {
    if session.terminals.contains_key(terminal_id) {
        Some(session.terminals[terminal_id])
    } else {
        None
    }
}

/// The snapshot with a change, if the change may follow the snapshot.
pub open spec fn changed(
    snapshot: SnapshotModel,
    scope_revision: Option<u64>,
    change: ChangeModel,
) -> Option<SnapshotModel> {
    match change {
        ChangeModel::ConnectionUpsert { request_elicitations, request_url_flows } => if scope_revision
            == Some(expected_next(snapshot.connection_revision)) {
            Some(
                SnapshotModel {
                    connection_revision: scope_revision->0,
                    request_elicitations,
                    request_url_flows,
                    ..snapshot
                },
            )
        } else {
            None
        },
        ChangeModel::SessionUpsert { session } => if scope_revision == Some(session.revision)
            && may_follow(snapshot, session) {
            Some(with_session(snapshot, session.session_id, session))
        } else {
            None
        },
        ChangeModel::SessionControlUpdated {
            session_id,
            incarnation,
            revision,
            key,
            update,
            history_revision,
            phase,
            sync_error,
        } => match following(snapshot, session_id, incarnation, revision) {
            Some(session) => if scope_revision == Some(revision) {
                Some(
                    with_session(
                        snapshot,
                        session_id,
                        SessionModel {
                            control_state: session.control_state.insert(key, update),
                            revision,
                            history_revision,
                            phase,
                            sync_error,
                            ..session
                        },
                    ),
                )
            } else {
                None
            },
            None => None,
        },
        ChangeModel::TurnUpdateAppended {
            session_id,
            incarnation,
            revision,
            operation_id,
            update,
        } => match following(snapshot, session_id, incarnation, revision) {
            Some(session) => match session.active_turn {
                Some(turn) => if scope_revision == Some(revision) && turn.operation_id
                    == operation_id {
                    match folded_turn(turn.updates, update) {
                        Ok(updates) => Some(
                            with_session(
                                snapshot,
                                session_id,
                                SessionModel {
                                    active_turn: Some(TurnModel { updates, ..turn }),
                                    revision,
                                    ..session
                                },
                            ),
                        ),
                        Err(_) => None,
                    }
                } else {
                    None
                },
                None => None,
            },
            None => None,
        },
        ChangeModel::TerminalUpdated {
            session_id,
            incarnation,
            revision,
            terminal_id,
            terminal,
        } => match following(snapshot, session_id, incarnation, revision) {
            Some(session) => if scope_revision == Some(revision) {
                Some(
                    with_session(
                        snapshot,
                        session_id,
                        SessionModel {
                            terminals: if terminal.true_at("released"@) {
                                session.terminals.remove(terminal_id)
                            } else {
                                session.terminals.insert(
                                    terminal_id,
                                    folded_terminal(known_terminal(session, terminal_id), terminal),
                                )
                            },
                            revision,
                            ..session
                        },
                    ),
                )
            } else {
                None
            },
            None => None,
        },
        ChangeModel::SessionRemoved { session_id, incarnation } => if snapshot.sessions.contains_key(
            session_id,
        ) && snapshot.sessions[session_id].incarnation != incarnation {
            None
        } else {
            Some(
                SnapshotModel { sessions: snapshot.sessions.remove(session_id), ..snapshot },
            )
        },
    }
}

/// The snapshot after a published change, if the change is the next one of the
/// same epoch and may follow the snapshot.
pub open spec fn applied(snapshot: SnapshotModel, delta: DeltaModel) -> Option<SnapshotModel> {
    if delta.epoch != snapshot.epoch || delta.seq != expected_next(snapshot.through_seq) {
        None
    } else {
        match changed(snapshot, delta.scope_revision, delta.change) {
            Some(next) => Some(SnapshotModel { through_seq: delta.seq, ..next }),
            None => None,
        }
    }
}

/// Whether the terminal of a change will be folded into what is known of it.
pub open spec fn takes_terminal(snapshot: SnapshotModel, delta: DeltaModel) -> bool {
    delta.epoch == snapshot.epoch && delta.seq == expected_next(snapshot.through_seq) && (
    delta.change matches ChangeModel::TerminalUpdated { session_id, incarnation, revision, .. }
        && delta.scope_revision == Some(revision) && following(
        snapshot,
        session_id,
        incarnation,
        revision,
    ) is Some)
}

/// Whether the terminal of a change can be folded.
pub open spec fn foldable(delta: DeltaModel) -> bool {
    delta.change matches ChangeModel::TerminalUpdated { terminal, .. } ==> terminal is Object
        || terminal is Null
}

/// The terminals that have not been released.
pub open spec fn unreleased(terminals: Map<Seq<char>, JsonModel>) -> Map<Seq<char>, JsonModel> {
    Map::new(
        |key: Seq<char>| terminals.contains_key(key) && !terminals[key].true_at("released"@),
        |key: Seq<char>| terminals[key],
    )
}

/// The session without its released terminals.
pub open spec fn session_retired(session: SessionModel) -> SessionModel {
    SessionModel { terminals: unreleased(session.terminals), ..session }
}

/// The snapshot without released terminals.
pub open spec fn snapshot_retired(snapshot: SnapshotModel) -> SnapshotModel {
    SnapshotModel {
        sessions: Map::new(
            |key: Seq<char>| snapshot.sessions.contains_key(key),
            |key: Seq<char>| session_retired(snapshot.sessions[key]),
        ),
        ..snapshot
    }
}

fn drop_released(terminals: &mut Table<Json>)
    ensures
        final(terminals)@ == unreleased(old(terminals)@),
{
    let ghost before = terminals@;
    let keys = keys_of(terminals);
    let len = terminals.len();
    let ghost all = sorted_keys(before);
    let mut i: usize = 0;
    while i < len
        invariant
            i <= len,
            len == all.len(),
            texts(keys@) == all,
            all.to_set() == before.dom(),
            forall|key: Seq<char>| #[trigger]
                terminals@.dom().contains(key) <==> before.dom().contains(key) && !(all.take(
                    i as int,
                ).contains(key) && before[key].true_at("released"@)),
            forall|key: Seq<char>| #[trigger]
                terminals@.dom().contains(key) ==> terminals@[key] == before[key],
        decreases len - i,
    {
        proof {
            lemma_take_contains(all, i as int);
            assert(all[i as int] == keys@[i as int]@);
        }
        let key = keys[i].as_str();
        let released = match terminals.get(key) {
            Some(terminal) => terminal_released(terminal),
            None => false,
        };
        if released {
            terminals.remove(key);
        }
        i += 1;
    }
    proof {
        assert(all.take(i as int) =~= all);
        assert forall|key: Seq<char>| all.contains(key) == before.dom().contains(key) by {
            assert(all.to_set().contains(key) == all.contains(key));
        }
        assert(terminals@ =~= unreleased(before));
    }
}

/// Takes released terminals out of a snapshot.
pub fn retire_released_terminals(snapshot: &mut RuntimeSnapshot)
    ensures
        final(snapshot)@ == snapshot_retired(old(snapshot)@),
{
    let ghost before = snapshot.sessions@;
    let keys = keys_of(&snapshot.sessions);
    let len = snapshot.sessions.len();
    let ghost all = sorted_keys(before);
    let ghost start = snapshot@;
    let mut i: usize = 0;
    while i < len
        invariant
            i <= len,
            len == all.len(),
            texts(keys@) == all,
            all.to_set() == before.dom(),
            start.sessions == before,
            snapshot@ == (SnapshotModel { sessions: snapshot.sessions@, ..start }),
            forall|key: Seq<char>| #[trigger]
                snapshot.sessions@.dom().contains(key) <==> before.dom().contains(key),
            forall|key: Seq<char>| #[trigger]
                snapshot.sessions@.dom().contains(key) ==> snapshot.sessions@[key] == if all.take(
                    i as int,
                ).contains(key) {
                    session_retired(before[key])
                } else {
                    before[key]
                },
        decreases len - i,
    {
        proof {
            lemma_take_contains(all, i as int);
            assert(all[i as int] == keys@[i as int]@);
            assert(all.contains(all[i as int]));
            assert(all.to_set().contains(all[i as int]));
            lemma_session_retired_twice(before[all[i as int]]);
        }
        let key = keys[i].as_str();
        match snapshot.sessions.remove(key) {
            Some(mut session) => {
                drop_released(&mut session.terminals);
                snapshot.sessions.insert(key, session);
            },
            None => {},
        }
        i += 1;
    }
    proof {
        assert(all.take(i as int) =~= all);
        assert forall|key: Seq<char>| all.contains(key) == before.dom().contains(key) by {
            assert(all.to_set().contains(key) == all.contains(key));
        }
        assert(snapshot.sessions@ =~= snapshot_retired(start).sessions);
    }
}

proof fn lemma_session_retired_twice(session: SessionModel)
    ensures
        session_retired(session_retired(session)) == session_retired(session),
{
    assert(unreleased(unreleased(session.terminals)) =~= unreleased(session.terminals));
}

/// The session under an identifier, taken out of the snapshot, if it is the
/// incarnation and if the revision is the one that has to follow.
fn take_following(
    snapshot: &mut RuntimeSnapshot,
    session_id: &str,
    incarnation: u64,
    revision: u64,
) -> (session: Option<SessionRuntime>)
    ensures
        match session {
            Some(session) => following(old(snapshot)@, session_id@, incarnation, revision) == Some(
                session@,
            ) && final(snapshot)@ == (SnapshotModel {
                sessions: old(snapshot)@.sessions.remove(session_id@),
                ..old(snapshot)@
            }),
            None => following(old(snapshot)@, session_id@, incarnation, revision) is None
                && final(snapshot)@ == old(snapshot)@,
        },
{
    let follows = match snapshot.sessions.get(session_id) {
        Some(session) => session.incarnation == incarnation && revision == next_number(
            session.revision,
        ),
        None => false,
    };
    if follows {
        snapshot.sessions.remove(session_id)
    } else {
        None
    }
}

fn put_session(snapshot: &mut RuntimeSnapshot, session_id: &str, session: SessionRuntime)
    ensures
        final(snapshot)@ == with_session(old(snapshot)@, session_id@, session@),
{
    snapshot.sessions.insert(session_id, session);
}

proof fn lemma_session_back(snapshot: SnapshotModel, session_id: Seq<char>, session: SessionModel)
    ensures
        with_session(
            SnapshotModel { sessions: snapshot.sessions.remove(session_id), ..snapshot },
            session_id,
            session,
        ) == with_session(snapshot, session_id, session),
        snapshot.sessions.contains_key(session_id) && snapshot.sessions[session_id] == session
            ==> with_session(snapshot, session_id, session) == snapshot,
{
    assert(snapshot.sessions.remove(session_id).insert(session_id, session)
        =~= snapshot.sessions.insert(session_id, session));
    if snapshot.sessions.contains_key(session_id) && snapshot.sessions[session_id] == session {
        assert(snapshot.sessions.insert(session_id, session) =~= snapshot.sessions);
    }
}

/// Applies a published change to a snapshot. A change that may not follow
/// leaves the snapshot as it was.
pub fn apply_change(snapshot: &mut RuntimeSnapshot, delta: &RuntimeDelta) -> (fits: bool)
    requires
        takes_terminal(old(snapshot)@, delta@) ==> foldable(delta@),
    ensures
        match applied(old(snapshot)@, delta@) {
            Some(next) => fits && final(snapshot)@ == next,
            None => !fits && final(snapshot)@ == old(snapshot)@,
        },
{
    let ghost before = snapshot@;
    if !same_text(delta.epoch.as_str(), snapshot.epoch.as_str()) || delta.seq != next_number(
        snapshot.through_seq,
    ) {
        return false;
    }
    match &delta.change {
        RuntimeChange::ConnectionUpsert { request_elicitations, request_url_flows } => {
            match delta.scope_revision {
                Some(revision) => {
                    if revision != next_number(snapshot.connection_revision) {
                        return false;
                    }
                    snapshot.connection_revision = revision;
                    snapshot.request_elicitations = request_elicitations.duplicate();
                    snapshot.request_url_flows = request_url_flows.duplicate();
                },
                None => {
                    return false;
                },
            }
        },
        RuntimeChange::SessionUpsert { session } => {
            match delta.scope_revision {
                Some(revision) => {
                    if revision != session.revision {
                        return false;
                    }
                },
                None => {
                    return false;
                },
            }
            let fits = match snapshot.sessions.get(session.session_id.as_str()) {
                Some(current) => if current.incarnation == session.incarnation {
                    session.revision == next_number(current.revision)
                } else {
                    current.lifecycle == SessionLifecycle::Closed && session.revision == 1
                },
                None => session.revision == 1,
            };
            if !fits {
                return false;
            }
            put_session(snapshot, session.session_id.as_str(), session.duplicate());
        },
        RuntimeChange::SessionControlUpdated {
            session_id,
            incarnation,
            revision,
            key,
            update,
            history_revision,
            phase,
            sync_error,
        } => {
            if delta.scope_revision != Some(*revision) {
                return false;
            }
            match take_following(snapshot, session_id.as_str(), *incarnation, *revision) {
                Some(mut session) => {
                    session.control_state.insert(key.as_str(), update.clone());
                    session.revision = *revision;
                    session.history_revision = history_revision.clone();
                    session.phase = *phase;
                    session.sync_error = sync_error.clone();
                    proof {
                        lemma_session_back(before, session_id@, session@);
                    }
                    put_session(snapshot, session_id.as_str(), session);
                },
                None => {
                    return false;
                },
            }
        },
        RuntimeChange::TurnUpdateAppended {
            session_id,
            incarnation,
            revision,
            operation_id,
            update,
        } => {
            if delta.scope_revision != Some(*revision) {
                return false;
            }
            match take_following(snapshot, session_id.as_str(), *incarnation, *revision) {
                Some(mut session) => {
                    let folded = match &session.active_turn {
                        Some(turn) => if same_text(
                            turn.operation_id.as_str(),
                            operation_id.as_str(),
                        ) {
                            match fold_active_turn_update(&turn.updates, update) {
                                Ok(folded) => Some(folded),
                                Err(_) => None,
                            }
                        } else {
                            None
                        },
                        None => None,
                    };
                    match (folded, session.active_turn.take()) {
                        (Some(folded), Some(mut turn)) => {
                            turn.updates = folded;
                            session.active_turn = Some(turn);
                            session.revision = *revision;
                            proof {
                                lemma_session_back(before, session_id@, session@);
                            }
                            put_session(snapshot, session_id.as_str(), session);
                        },
                        (_, turn) => {
                            session.active_turn = turn;
                            proof {
                                lemma_session_back(before, session_id@, session@);
                            }
                            put_session(snapshot, session_id.as_str(), session);
                            return false;
                        },
                    }
                },
                None => {
                    return false;
                },
            }
        },
        RuntimeChange::TerminalUpdated {
            session_id,
            incarnation,
            revision,
            terminal_id,
            terminal,
        } => {
            if delta.scope_revision != Some(*revision) {
                return false;
            }
            match take_following(snapshot, session_id.as_str(), *incarnation, *revision) {
                Some(mut session) => {
                    if terminal_released(terminal) {
                        session.terminals.remove(terminal_id.as_str());
                    } else {
                        let folded = fold_terminal_snapshot(
                            session.terminals.get(terminal_id.as_str()),
                            terminal,
                        );
                        session.terminals.insert(terminal_id.as_str(), folded);
                    }
                    session.revision = *revision;
                    proof {
                        lemma_session_back(before, session_id@, session@);
                    }
                    put_session(snapshot, session_id.as_str(), session);
                },
                None => {
                    return false;
                },
            }
        },
        RuntimeChange::SessionRemoved { session_id, incarnation } => {
            match snapshot.sessions.get(session_id.as_str()) {
                Some(session) => {
                    if session.incarnation != *incarnation {
                        return false;
                    }
                },
                None => {},
            }
            snapshot.sessions.remove(session_id.as_str());
        },
    }
    snapshot.through_seq = delta.seq;
    true
}

/// What the text of an event carries: the full state, one change, or something
/// else. A state or a change without a value is missing.
#[derive(Debug)]
pub enum RuntimePayload {
    Snapshot(Option<Json>),
    Delta(Option<Json>),
    Other,
}

/// What the text of an event carries, as values.
pub enum PayloadModel {
    Snapshot(Option<JsonModel>),
    Delta(Option<JsonModel>),
    Other,
}

impl View for RuntimePayload {
    type V = PayloadModel;

    open spec fn view(&self) -> PayloadModel {
        match self {
            RuntimePayload::Snapshot(value) => PayloadModel::Snapshot(optional(*value)),
            RuntimePayload::Delta(value) => PayloadModel::Delta(optional(*value)),
            RuntimePayload::Other => PayloadModel::Other,
        }
    }
}

/// What the text of an event carries, by the kind of the event.
pub open spec fn payload_of(event: Seq<char>) -> PayloadModel {
    match json_of_text(event) {
        Some(value) => if kind_of(value) == Some("bridge/internal_runtime_snapshot"@) {
            PayloadModel::Snapshot(value.get("value"@))
        } else if kind_of(value) == Some("bridge/internal_runtime_delta"@) {
            PayloadModel::Delta(value.get("value"@))
        } else {
            PayloadModel::Other
        },
        None => PayloadModel::Other,
    }
}

/// Reads what the text of an event carries.
pub fn read_payload(event: &str) -> (payload: RuntimePayload)
    ensures
        payload@ == payload_of(event@),
{
    match Json::parse(event) {
        Some(value) => {
            let kind = value.text_at("type");
            let carried = match value.get("value") {
                Some(carried) => Some(carried.clone()),
                None => None,
            };
            if is_text(kind, "bridge/internal_runtime_snapshot") {
                RuntimePayload::Snapshot(carried)
            } else if is_text(kind, "bridge/internal_runtime_delta") {
                RuntimePayload::Delta(carried)
            } else {
                RuntimePayload::Other
            }
        },
        None => RuntimePayload::Other,
    }
}

/// What arrives from the Agent connection, as far as the projection reads it:
/// the full state, one change, or something else. A state or a change that
/// could not be read is missing.
#[derive(Debug)]
pub enum RuntimeEvent {
    Snapshot(Option<RuntimeSnapshot>),
    Delta(Option<RuntimeDelta>),
    Other,
}

/// What arrives, as models.
pub enum RuntimeEventModel {
    Snapshot(Option<SnapshotModel>),
    Delta(Option<DeltaModel>),
    Other,
}

impl View for RuntimeEvent {
    type V = RuntimeEventModel;

    open spec fn view(&self) -> RuntimeEventModel {
        match self {
            RuntimeEvent::Snapshot(snapshot) => RuntimeEventModel::Snapshot(optional(*snapshot)),
            RuntimeEvent::Delta(delta) => RuntimeEventModel::Delta(optional(*delta)),
            RuntimeEvent::Other => RuntimeEventModel::Other,
        }
    }
}

/// An event with a type and one field.
pub open spec fn typed_event(kind: Seq<char>, field: Seq<char>, value: JsonModel) -> JsonModel {
    JsonModel::Object(
        Map::empty().insert("type"@, JsonModel::String(kind)).insert(field, value),
    )
}

/// The event that publishes a snapshot.
pub open spec fn snapshot_event(snapshot: SnapshotModel) -> JsonModel {
    typed_event("bridge/runtime_snapshot"@, "snapshot"@, <RuntimeSnapshot as Wire>::wire(snapshot))
}

/// The event that publishes a change.
pub open spec fn delta_event(delta: DeltaModel) -> JsonModel {
    typed_event("bridge/runtime_delta"@, "delta"@, <RuntimeDelta as Wire>::wire(delta))
}

fn write_typed_event(kind: &str, field: &str, value: Json) -> (event: String)
    ensures
        event@ == text_of_json(typed_event(kind@, field@, value@)),
        reads_back(event@, typed_event(kind@, field@, value@)),
{
    let mut event = Json::object();
    event.put("type", Json::text(kind));
    event.put(field, value);
    event.to_text()
}

/// The event that publishes a snapshot, as text.
pub fn write_snapshot_event(snapshot: &RuntimeSnapshot) -> (event: String)
    ensures
        event@ == text_of_json(snapshot_event(snapshot@)),
        reads_back(event@, snapshot_event(snapshot@)),
{
    write_typed_event("bridge/runtime_snapshot", "snapshot", snapshot.to_json())
}

/// The event that publishes a change, as text.
pub fn write_delta_event(delta: &RuntimeDelta) -> (event: String)
    ensures
        event@ == text_of_json(delta_event(delta@)),
        reads_back(event@, delta_event(delta@)),
{
    write_typed_event("bridge/runtime_delta", "delta", delta.to_json())
}

/// The projection of what is published, if it is known.
#[derive(Debug)]
pub struct CanonicalProjection {
    pub snapshot: Option<RuntimeSnapshot>,
}

impl View for CanonicalProjection {
    type V = Option<SnapshotModel>;

    open spec fn view(&self) -> Option<SnapshotModel> {
        optional(self.snapshot)
    }
}

/// What the projection makes of an event: the projection after it, whether it
/// read the event, and what it publishes.
#[verifier::ext_equal]
pub struct Projected {
    pub projection: Option<SnapshotModel>,
    pub recognized: bool,
    pub public_event: Option<Seq<char>>,
}

/// Takes an event into the projection. A state replaces it; a change that may
/// not follow makes it unknown.
pub open spec fn projected(
    projection: Option<SnapshotModel>,
    event: RuntimeEventModel,
) -> Projected {
    match event {
        RuntimeEventModel::Snapshot(Some(snapshot)) => Projected {
            projection: Some(snapshot_retired(snapshot)),
            recognized: true,
            public_event: Some(text_of_json(snapshot_event(snapshot_retired(snapshot)))),
        },
        RuntimeEventModel::Snapshot(None) => Projected {
            projection: None,
            recognized: true,
            public_event: None,
        },
        RuntimeEventModel::Delta(delta) => {
            let next = match (projection, delta) {
                (Some(snapshot), Some(delta)) => applied(snapshot, delta),
                _ => None,
            };
            Projected {
                projection: match next {
                    Some(next) => Some(snapshot_retired(next)),
                    None => None,
                },
                recognized: true,
                public_event: if next is Some {
                    Some(text_of_json(delta_event(delta->0)))
                } else {
                    None
                },
            }
        },
        RuntimeEventModel::Other => Projected {
            projection,
            recognized: false,
            public_event: None,
        },
    }
}

/// What is published of an event that is taken in, as a value.
pub open spec fn public_value(event: RuntimeEventModel) -> JsonModel {
    match event {
        RuntimeEventModel::Snapshot(Some(snapshot)) => snapshot_event(snapshot_retired(snapshot)),
        RuntimeEventModel::Delta(Some(delta)) => delta_event(delta),
        _ => JsonModel::Null,
    }
}

/// Whether an event can be taken in: the terminal that it folds is an object.
pub open spec fn readable(projection: Option<SnapshotModel>, event: RuntimeEventModel) -> bool {
    match (projection, event) {
        (Some(snapshot), RuntimeEventModel::Delta(Some(delta))) => takes_terminal(snapshot, delta)
            ==> foldable(delta),
        _ => true,
    }
}

impl CanonicalProjection {
    /// The projection of which nothing is known.
    pub fn new() -> (projection: Self)
        ensures
            projection@ is None,
    {
        CanonicalProjection { snapshot: None }
    }

    /// Tells whether an event can be taken in.
    pub fn can_take(&self, event: &RuntimeEvent) -> (can: bool)
        ensures
            can == readable(self@, event@),
    {
        match (&self.snapshot, event) {
            (Some(snapshot), RuntimeEvent::Delta(Some(delta))) => match &delta.change {
                RuntimeChange::TerminalUpdated {
                    session_id,
                    incarnation,
                    revision,
                    terminal,
                    ..
                } => {
                    let follows = match snapshot.sessions.get(session_id.as_str()) {
                        Some(session) => session.incarnation == *incarnation && *revision
                            == next_number(session.revision),
                        None => false,
                    };
                    terminal.as_object().is_some() || terminal.is_null() || !follows
                        || delta.scope_revision != Some(*revision) || !same_text(
                        delta.epoch.as_str(),
                        snapshot.epoch.as_str(),
                    ) || delta.seq != next_number(snapshot.through_seq)
                },
                _ => true,
            },
            _ => true,
        }
    }

    /// Applies a published change. A change that may not follow leaves the
    /// projection as it was.
    pub fn apply_delta(&mut self, delta: &RuntimeDelta) -> (fits: bool)
        requires
            readable(old(self)@, RuntimeEventModel::Delta(Some(delta@))),
        ensures
            match old(self)@ {
                Some(snapshot) => match applied(snapshot, delta@) {
                    Some(next) => fits && final(self)@ == Some(next),
                    None => !fits && final(self)@ == old(self)@,
                },
                None => !fits && final(self)@ is None,
            },
    {
        match self.snapshot.take() {
            Some(mut snapshot) => {
                let fits = apply_change(&mut snapshot, delta);
                self.snapshot = Some(snapshot);
                fits
            },
            None => false,
        }
    }

    /// Takes an event into the projection. Gives whether the event was one of
    /// a state or a change, and what is published of it, as a text that reads
    /// back as what it publishes.
    pub fn update_with_public_event(&mut self, event: RuntimeEvent) -> (update: (
        bool,
        Option<String>,
    ))
        requires
            readable(old(self)@, event@),
        ensures
            (Projected {
                projection: final(self)@,
                recognized: update.0,
                public_event: match update.1 {
                    Some(text) => Some(text@),
                    None => None,
                },
            }) == projected(old(self)@, event@),
            update.1 matches Some(text) ==> reads_back(text@, public_value(event@)),
    {
        match event {
            RuntimeEvent::Snapshot(snapshot) => {
                match snapshot {
                    Some(mut snapshot) => {
                        retire_released_terminals(&mut snapshot);
                        let text = write_snapshot_event(&snapshot);
                        self.snapshot = Some(snapshot);
                        (true, Some(text))
                    },
                    None => {
                        self.snapshot = None;
                        (true, None)
                    },
                }
            },
            RuntimeEvent::Delta(delta) => {
                let delta = match delta {
                    Some(delta) => delta,
                    None => {
                        self.snapshot = None;
                        return (true, None);
                    },
                };
                if !self.apply_delta(&delta) {
                    self.snapshot = None;
                    return (true, None);
                }
                let text = write_delta_event(&delta);
                match self.snapshot.take() {
                    Some(mut snapshot) => {
                        retire_released_terminals(&mut snapshot);
                        self.snapshot = Some(snapshot);
                    },
                    None => {},
                }
                (true, Some(text))
            },
            RuntimeEvent::Other => (false, None),
        }
    }
}

/// A state that arrives again changes nothing: the projection is what it was
/// after the first time, and the same is published.
pub proof fn law_state_may_arrive_again(
    projection: Option<SnapshotModel>,
    snapshot: Option<SnapshotModel>,
)
    ensures
        projected(
            projected(projection, RuntimeEventModel::Snapshot(snapshot)).projection,
            RuntimeEventModel::Snapshot(snapshot),
        ) == projected(projection, RuntimeEventModel::Snapshot(snapshot)),
{
}

/// A change that is not the next one of its epoch is never applied in part: the
/// projection is unknown after it, and nothing is published.
pub proof fn law_gap_makes_the_state_unknown(projection: Option<SnapshotModel>, delta: DeltaModel)
    requires
        projection matches Some(snapshot) ==> delta.epoch != snapshot.epoch || delta.seq
            != expected_next(snapshot.through_seq),
    ensures
        projected(projection, RuntimeEventModel::Delta(Some(delta))).projection is None,
        projected(projection, RuntimeEventModel::Delta(Some(delta))).public_event is None,
{
}

} // verus!
