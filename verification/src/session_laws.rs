//! What is published of a session: where each part of it comes from, and what
//! opening, forking, loading and resuming a session show.
use crate::fold::{controls_of, retained_metadata, RuntimeStateError};
use crate::json::JsonModel;
use crate::registry::{admitted, in_use, live_owner, published, RegistryModel, Reservation};
use crate::registry::attachment::{
    attachment_completed, attachment_failed, attachment_started, candidate_appended, forked, opened,
    reload_ended, reload_started, synchronized,
};
use crate::runtime_types::{
    LiveModel, OwnerModel, SessionLifecycle, SessionModel, SessionOperationKind,
};
use vstd::prelude::*;

verus! {

/// Whether a session is alive under an incarnation: somebody owns it, and it is
/// not merely waiting to be cleaned up.
pub open spec fn lives(r: RegistryModel, session_id: Seq<char>, incarnation: u64) -> bool {
    &&& r.sessions.contains_key(session_id)
    &&& r.sessions[session_id].incarnation == incarnation
    &&& r.sessions[session_id].live is Some
    &&& r.sessions[session_id].operation matches Some(operation) ==> operation.stage != "cleanup"@
}

/// Who asks for a session reaches it where the epoch, the identifier and the
/// incarnation are right and the session lives; otherwise it is told what was
/// wrong, the epoch first and then the session.
pub proof fn law_session_is_reached(
    r: RegistryModel,
    epoch: Seq<char>,
    session_id: Seq<char>,
    incarnation: u64,
)
    ensures
        admitted(r, epoch, session_id, incarnation) is Ok <==> epoch == r.epoch && lives(
            r,
            session_id,
            incarnation,
        ),
        admitted(r, epoch, session_id, incarnation) matches Ok(owner) ==> owner
            == r.sessions[session_id],
        epoch != r.epoch ==> admitted(r, epoch, session_id, incarnation) == Err::<
            OwnerModel,
            RuntimeStateError,
        >(RuntimeStateError::EpochMismatch),
        epoch == r.epoch && !lives(r, session_id, incarnation) ==> admitted(
            r,
            epoch,
            session_id,
            incarnation,
        ) == Err::<OwnerModel, RuntimeStateError>(
            if r.sessions.contains_key(session_id) && r.sessions[session_id].incarnation
                != incarnation {
                RuntimeStateError::StaleIncarnation
            } else {
                RuntimeStateError::UnknownSession
            },
        ),
        live_owner(r, session_id, incarnation) == admitted(r, r.epoch, session_id, incarnation),
{
}

/// Whether what is shown of a session is what its owner holds, part by part.
pub open spec fn shows_owner(shown: SessionModel, owner: OwnerModel, live: LiveModel) -> bool {
    &&& shown.session_id == owner.session_id
    &&& shown.incarnation == owner.incarnation
    &&& shown.operation == owner.operation
    &&& shown.revision == live.revision
    &&& shown.cwd == live.cwd
    &&& shown.session == live.session
    &&& shown.control_state == live.control_state
    &&& shown.lifecycle == live.lifecycle
    &&& shown.permissions == live.permissions
    &&& shown.elicitations == live.elicitations
    &&& shown.url_flows == live.url_flows
    &&& shown.terminals == live.terminals
    &&& shown.history_revision == live.history_revision
    &&& shown.phase == live.phase
    &&& shown.sync_error == live.sync_error
    &&& shown.active_turn is Some <==> owner.active_turn is Some
        && owner.active_turn->0.execution is Some
    &&& shown.active_turn matches Some(turn) ==> {
        let running = owner.active_turn->0;
        let execution = running.execution->0;
        &&& turn.operation_id == execution.rpc_operation_id
        &&& turn.turn_id == execution.rpc_operation_id
        &&& turn.prompt == running.prompt
        &&& turn.updates == running.updates
        &&& turn.cancel_requested == execution.cancel_requested
    }
}

/// A session is published as long as it is held, unless it is closed and only
/// waits to be cleaned up; and what is published of it is what its owner holds.
/// The questions outside all sessions are published as they are.
pub proof fn law_published_is_what_is_held(r: RegistryModel, session_id: Seq<char>)
    ensures
        published(r).sessions.contains_key(session_id) <==> r.sessions.contains_key(session_id)
            && r.sessions[session_id].live is Some && !(r.sessions[session_id].live->0.lifecycle
            == SessionLifecycle::Closed && r.sessions[session_id].operation is Some
            && r.sessions[session_id].operation->0.stage == "cleanup"@),
        published(r).sessions.contains_key(session_id) ==> shows_owner(
            published(r).sessions[session_id],
            r.sessions[session_id],
            r.sessions[session_id].live->0,
        ),
        published(r).epoch == r.epoch,
        published(r).through_seq == r.journal.seq,
        published(r).connection_revision == r.connection_revision,
        published(r).request_elicitations == r.request_elicitations,
        published(r).request_url_flows == r.request_url_flows,
{
}

/// Whether the metadata of a session are those of a response: its identifier,
/// and the modes and the config options of the response wherever it has them.
pub open spec fn describes(
    metadata: JsonModel,
    session_id: Seq<char>,
    response: JsonModel,
) -> bool {
    &&& metadata is Object
    &&& metadata.get("sessionId"@) == Some(JsonModel::String(session_id))
    &&& metadata.get("modes"@) == (match response.get("modes"@) {
        Some(JsonModel::Null) => None,
        modes => modes,
    })
    &&& metadata.get("configOptions"@) == (match response.get("configOptions"@) {
        Some(JsonModel::Null) => None,
        options => options,
    })
    &&& forall|key: Seq<char>| #[trigger]
        metadata.get(key) is Some ==> key == "sessionId"@ || key == "modes"@ || key
            == "configOptions"@
}

proof fn lemma_metadata_describe(session_id: Seq<char>, response: JsonModel)
    ensures
        describes(retained_metadata(session_id, response), session_id, response),
{
    reveal_strlit("sessionId");
    reveal_strlit("modes");
    reveal_strlit("configOptions");
    assert("sessionId"@.len() == 9);
    assert("modes"@.len() == 5);
    assert("configOptions"@.len() == 13);
}

/// Whether a session may be opened under an identifier: nobody owns it, or its
/// owner does nothing and its session is closed or gone.
pub open spec fn is_free(r: RegistryModel, session_id: Seq<char>) -> bool {
    r.sessions.contains_key(session_id) ==> r.sessions[session_id].operation is None && (
    r.sessions[session_id].live is None || r.sessions[session_id].live->0.lifecycle
        == SessionLifecycle::Closed)
}

/// Whether a session shows no question, flow or terminal.
pub open spec fn is_bare(shown: SessionModel) -> bool {
    &&& forall|id: Seq<char>| !(#[trigger] shown.permissions.contains_key(id))
    &&& forall|id: Seq<char>| !(#[trigger] shown.elicitations.contains_key(id))
    &&& forall|id: Seq<char>| !(#[trigger] shown.url_flows.contains_key(id))
    &&& forall|id: Seq<char>| !(#[trigger] shown.terminals.contains_key(id))
}

/// A session that is opened is shown as active under its new incarnation, in its
/// directory, with the modes and options of the response and the controls that
/// came with it, and with nothing else. It is opened exactly where the epoch is
/// right and its identifier is free.
pub proof fn law_opened_session_is_shown(
    r: RegistryModel,
    epoch: Seq<char>,
    session_id: Seq<char>,
    cwd: Seq<char>,
    session: JsonModel,
    control_state: Map<Seq<char>, JsonModel>,
)
    requires
        r.next_incarnation < u64::MAX,
        r.sessions.contains_key(session_id) ==> r.sessions[session_id].incarnation
            <= r.next_incarnation,
    ensures
        opened(r, epoch, session_id, cwd, session, control_state).result is Ok <==> epoch
            == r.epoch && is_free(r, session_id),
        epoch != r.epoch ==> opened(r, epoch, session_id, cwd, session, control_state).result
            == Err::<u64, RuntimeStateError>(RuntimeStateError::EpochMismatch),
        epoch == r.epoch && !is_free(r, session_id) ==> opened(
            r,
            epoch,
            session_id,
            cwd,
            session,
            control_state,
        ).result == Err::<u64, RuntimeStateError>(RuntimeStateError::BusySession),
        opened(r, epoch, session_id, cwd, session, control_state).result matches Ok(given) ==> {
            let next = opened(r, epoch, session_id, cwd, session, control_state).state;
            let shown = published(next).sessions[session_id];
            &&& published(next).sessions.contains_key(session_id)
            &&& shown.session_id == session_id
            &&& shown.incarnation == given
            &&& shown.cwd == cwd
            &&& shown.lifecycle == SessionLifecycle::Active
            &&& shown.control_state == control_state
            &&& describes(shown.session, session_id, session)
            &&& shown.operation is None
            &&& shown.active_turn is None
            &&& is_bare(shown)
            &&& shown.revision == 1
            &&& lives(next, session_id, given)
        },
{
    lemma_metadata_describe(session_id, session);
}

/// A session that is derived from another is opened as any other, where the
/// other lives and is active; the other stays as it is, unless it is replaced
/// itself.
pub proof fn law_forked_session_is_shown(
    r: RegistryModel,
    epoch: Seq<char>,
    session_id: Seq<char>,
    cwd: Seq<char>,
    session: JsonModel,
    source_id: Seq<char>,
    source_incarnation: u64,
    replay: Option<Seq<JsonModel>>,
)
    requires
        r.next_incarnation < u64::MAX,
        r.sessions.contains_key(session_id) ==> r.sessions[session_id].incarnation
            <= r.next_incarnation,
    ensures
        ({
            let step = forked(
                r,
                epoch,
                session_id,
                cwd,
                session,
                source_id,
                source_incarnation,
                replay,
            );
            let next = step.state;
            let shown = published(next).sessions[session_id];
            &&& step.result is Ok <==> epoch == r.epoch && lives(r, source_id, source_incarnation)
                && r.sessions[source_id].live->0.lifecycle == SessionLifecycle::Active && is_free(
                r,
                session_id,
            )
            &&& epoch == r.epoch && lives(r, source_id, source_incarnation)
                && r.sessions[source_id].live->0.lifecycle != SessionLifecycle::Active
                ==> step.result == Err::<u64, RuntimeStateError>(
                RuntimeStateError::SessionNotActive,
            )
            &&& step.result matches Ok(given) ==> {
                &&& published(next).sessions.contains_key(session_id)
                &&& shown.session_id == session_id
                &&& shown.incarnation == given
                &&& shown.cwd == cwd
                &&& shown.lifecycle == SessionLifecycle::Active
                &&& describes(shown.session, session_id, session)
                &&& replay is None ==> forall|key: Seq<char>|
                    !(#[trigger] shown.control_state.contains_key(key))
                &&& replay matches Some(updates) ==> shown.control_state == controls_of(updates)
                &&& shown.operation is None
                &&& shown.active_turn is None
                &&& is_bare(shown)
                &&& next.sessions[source_id] == r.sessions[source_id]
            }
        }),
{
    lemma_metadata_describe(session_id, session);
}

/// A session that is being loaded or resumed is shown at once, as attaching, with
/// the operation that attaches it and nothing of its contents.
pub proof fn law_attaching_session_is_shown(
    r: RegistryModel,
    epoch: Seq<char>,
    session_id: Seq<char>,
    cwd: Seq<char>,
    operation_id: Seq<char>,
    kind: SessionOperationKind,
)
    requires
        r.next_incarnation < u64::MAX,
        r.sessions.contains_key(session_id) ==> r.sessions[session_id].incarnation
            <= r.next_incarnation,
    ensures
        ({
            let step = attachment_started(r, epoch, session_id, cwd, operation_id, kind);
            let next = step.state;
            let shown = published(next).sessions[session_id];
            &&& step.result is Ok <==> epoch == r.epoch && (kind == SessionOperationKind::Load
                || kind == SessionOperationKind::Resume) && !in_use(r, operation_id, None)
                && is_free(r, session_id)
            &&& step.result matches Ok(given) ==> {
                &&& published(next).sessions.contains_key(session_id)
                &&& shown.session_id == session_id
                &&& shown.incarnation == given
                &&& shown.cwd == cwd
                &&& shown.lifecycle == SessionLifecycle::Attaching
                &&& shown.session == JsonModel::Null
                &&& shown.operation matches Some(operation) && operation.operation_id
                    == operation_id && operation.kind == kind && operation.stage == "attaching"@
                    && operation.uncertainty_reason is None
                &&& shown.active_turn is None
                &&& is_bare(shown)
                &&& forall|key: Seq<char>| !(#[trigger] shown.control_state.contains_key(key))
                &&& lives(next, session_id, given)
            }
        }),
{
    reveal_strlit("attaching");
    reveal_strlit("cleanup");
    assert("attaching"@.len() == 9);
    assert("cleanup"@.len() == 7);
}

/// Whether two pictures of a session have the same questions, flows and
/// terminals.
pub open spec fn same_resources(was: SessionModel, shown: SessionModel) -> bool {
    &&& shown.permissions == was.permissions
    &&& shown.elicitations == was.elicitations
    &&& shown.url_flows == was.url_flows
    &&& shown.terminals == was.terminals
}

/// Whether two pictures show the same session in the same directory.
pub open spec fn same_identity(was: SessionModel, shown: SessionModel) -> bool {
    &&& shown.session_id == was.session_id
    &&& shown.incarnation == was.incarnation
    &&& shown.cwd == was.cwd
}

/// Whether two pictures of a session have the same modes, options and controls.
pub open spec fn same_settings(was: SessionModel, shown: SessionModel) -> bool {
    &&& shown.session == was.session
    &&& shown.control_state == was.control_state
}

/// Whether two pictures of a session have the same lifecycle, turn and operation.
pub open spec fn same_course(was: SessionModel, shown: SessionModel) -> bool {
    &&& shown.lifecycle == was.lifecycle
    &&& shown.active_turn == was.active_turn
    &&& shown.operation == was.operation
}

/// Whether a picture shows where the history of its session stands now.
pub open spec fn tells_history(owner: OwnerModel, shown: SessionModel) -> bool {
    &&& shown.history_revision == owner.history_revision
    &&& shown.phase == owner.phase
    &&& shown.sync_error == owner.sync_error
}

/// Whether a change shows the session once more, under its next revision.
pub open spec fn shows_next(r: RegistryModel, next: RegistryModel, session_id: Seq<char>) -> bool {
    &&& published(next).sessions.contains_key(session_id)
    &&& published(r).sessions[session_id].revision < u64::MAX ==> published(
        next,
    ).sessions[session_id].revision == published(r).sessions[session_id].revision + 1
    &&& next.epoch == r.epoch
    &&& next.request_elicitations == r.request_elicitations
    &&& next.request_url_flows == r.request_url_flows
    &&& forall|id: Seq<char>|
        id != session_id ==> {
            &&& published(next).sessions.contains_key(id) == #[trigger] published(
                r,
            ).sessions.contains_key(id)
            &&& published(r).sessions.contains_key(id) ==> published(next).sessions[id]
                == published(r).sessions[id]
        }
}

/// After a load or a resume that succeeds, the session is active and does nothing
/// else; the modes and the config options that are shown of it are those of the
/// response, and its controls are those that were collected, over those that it
/// had. The rest stays.
pub proof fn law_attached_session_shows_the_response(
    r: RegistryModel,
    epoch: Seq<char>,
    session_id: Seq<char>,
    incarnation: u64,
    operation_id: Seq<char>,
    kind: SessionOperationKind,
    response: JsonModel,
)
    ensures
        ({
            let step = attachment_completed(
                r,
                epoch,
                session_id,
                incarnation,
                operation_id,
                kind,
                response,
            );
            let next = step.state;
            let owner = r.sessions[session_id];
            let was = published(r).sessions[session_id];
            let shown = published(next).sessions[session_id];
            &&& step.result is Ok <==> epoch == r.epoch && lives(r, session_id, incarnation) && (
            kind == SessionOperationKind::Load || kind == SessionOperationKind::Resume)
                && owner.live->0.lifecycle == SessionLifecycle::Attaching
                && owner.operation is Some && owner.operation->0.operation_id == operation_id
                && owner.operation->0.kind == kind
            &&& step.result is Ok ==> {
                let collected = controls_of(owner.live->0.attachment_candidate);
                &&& shows_next(r, next, session_id)
                &&& describes(shown.session, session_id, response)
                &&& shown.lifecycle == SessionLifecycle::Active
                &&& shown.operation is None
                &&& shown.active_turn == was.active_turn
                &&& forall|key: Seq<char>| #[trigger]
                    shown.control_state.contains_key(key) <==> was.control_state.contains_key(key)
                        || collected.contains_key(key)
                &&& forall|key: Seq<char>| #[trigger]
                    shown.control_state.contains_key(key) ==> shown.control_state[key]
                        == if collected.contains_key(key) {
                        collected[key]
                    } else {
                        was.control_state[key]
                    }
                &&& same_identity(was, shown)
                &&& same_resources(was, shown)
                &&& tells_history(owner, shown)
            }
        }),
{
    lemma_metadata_describe(session_id, response);
}

/// A load or a resume that fails takes the session away again: it is not shown
/// any more, and nothing else changes for the readers.
pub proof fn law_failed_attachment_removes_the_session(
    r: RegistryModel,
    epoch: Seq<char>,
    session_id: Seq<char>,
    incarnation: u64,
    operation_id: Seq<char>,
    kind: SessionOperationKind,
)
    ensures
        ({
            let step = attachment_failed(r, epoch, session_id, incarnation, operation_id, kind);
            let owner = r.sessions[session_id];
            &&& step.result is Ok <==> epoch == r.epoch && lives(r, session_id, incarnation)
                && owner.live->0.lifecycle == SessionLifecycle::Attaching
                && owner.operation is Some && owner.operation->0.operation_id == operation_id
                && owner.operation->0.kind == kind
            &&& step.result is Ok ==> {
                &&& !published(step.state).sessions.contains_key(session_id)
                &&& step.state.sessions[session_id].operation is None
                &&& step.state.sessions[session_id].incarnation == incarnation
                &&& is_free(step.state, session_id)
            }
        }),
{
}

/// While a session is loaded or resumed, an update that tells a control is
/// collected behind those that came before; one of the conversation is not, nor
/// is one that tells no kind. It is collected only then.
pub proof fn law_controls_are_collected(
    r: RegistryModel,
    epoch: Seq<char>,
    session_id: Seq<char>,
    incarnation: u64,
    update: JsonModel,
)
    ensures
        ({
            let step = candidate_appended(r, epoch, session_id, incarnation, update);
            let owner = r.sessions[session_id];
            let told = match update.get("update"@) {
                Some(inner) => inner,
                None => update,
            };
            let before = owner.live->0.attachment_candidate;
            let after = step.state.sessions[session_id].live->0.attachment_candidate;
            &&& step.result is Ok <==> epoch == r.epoch && lives(r, session_id, incarnation)
                && owner.operation is Some && ((owner.live->0.lifecycle
                == SessionLifecycle::Attaching && owner.operation->0.stage == "attaching"@ && (
            owner.operation->0.kind == SessionOperationKind::Load || owner.operation->0.kind
                == SessionOperationKind::Resume)) || (owner.live->0.lifecycle
                == SessionLifecycle::Active && owner.operation->0.stage == "reloading"@
                && owner.operation->0.kind == SessionOperationKind::Load))
            &&& step.result is Ok ==> {
                let collected = told.get("sessionUpdate"@) matches Some(JsonModel::String(kind))
                    && !(
                kind == "user_message_chunk"@ || kind == "agent_message_chunk"@ || kind
                    == "agent_thought_chunk"@ || kind == "tool_call"@ || kind
                    == "tool_call_update"@ || kind == "plan"@ || kind == "plan_update"@ || kind
                    == "plan_removed"@ || kind == "compaction_update"@ || kind
                    == "compaction_summary_chunk"@);
                &&& collected ==> after == before.push(told)
                &&& !collected ==> after == before
                &&& step.state.journal == r.journal
            }
        }),
{
}

/// An active session that does nothing and holds nothing may be loaded again: it
/// is shown as before, with the operation that loads it.
pub proof fn law_reload_starts_on_an_idle_session(
    r: RegistryModel,
    epoch: Seq<char>,
    session_id: Seq<char>,
    incarnation: u64,
    operation_id: Seq<char>,
    kind: SessionOperationKind,
    history_admits: bool,
)
    ensures
        ({
            let step = reload_started(
                r,
                epoch,
                session_id,
                incarnation,
                operation_id,
                kind,
                history_admits,
            );
            let next = step.state;
            let owner = r.sessions[session_id];
            let was = published(r).sessions[session_id];
            let shown = published(next).sessions[session_id];
            let reserved = owner.operation matches Some(operation) && operation.operation_id
                == operation_id && operation.kind == kind && operation.stage == "reserved"@;
            &&& step.result is Ok <==> epoch == r.epoch && kind == SessionOperationKind::Load
                && !in_use(r, operation_id, Some(Reservation { session_id, incarnation, kind }))
                && lives(r, session_id, incarnation) && (reserved || (owner.operation is None
                && history_admits)) && owner.live->0.lifecycle == SessionLifecycle::Active
                && !(owner.active_turn is Some && owner.active_turn->0.execution is Some)
                && is_bare(was)
                && owner.live->0.attachment_candidate.len() == 0
            &&& step.result is Ok ==> {
                &&& shows_next(r, next, session_id)
                &&& same_identity(was, shown)
                &&& same_settings(was, shown)
                &&& same_resources(was, shown)
                &&& shown.lifecycle == was.lifecycle
                &&& shown.active_turn == was.active_turn
                &&& shown.operation matches Some(operation) && operation.operation_id
                    == operation_id && operation.kind == kind && operation.stage == "reloading"@
                    && operation.uncertainty_reason is None
                &&& tells_history(owner, shown)
            }
        }),
{
    reveal_strlit("reserved");
    reveal_strlit("cleanup");
    reveal_strlit("reloading");
    assert("reserved"@.len() == 8);
    assert("cleanup"@.len() == 7);
    assert("reloading"@.len() == 9);
    let was = published(r).sessions[session_id];
    if is_bare(was) {
        assert(was.permissions =~= Map::empty());
        assert(was.elicitations =~= Map::empty());
        assert(was.url_flows =~= Map::empty());
        assert(was.terminals =~= Map::empty());
    }
}

/// A session that has been loaded again shows the modes and options of the
/// response and the controls that were collected, and nothing of the controls
/// before; one that could not be loaded again shows what it showed. Either way
/// the operation is over and nothing is collected any more.
pub proof fn law_reloaded_session_shows_the_response(
    r: RegistryModel,
    epoch: Seq<char>,
    session_id: Seq<char>,
    incarnation: u64,
    operation_id: Seq<char>,
    response: Option<JsonModel>,
)
    ensures
        ({
            let step = reload_ended(r, epoch, session_id, incarnation, operation_id, response);
            let next = step.state;
            let owner = r.sessions[session_id];
            let was = published(r).sessions[session_id];
            let shown = published(next).sessions[session_id];
            &&& step.result is Ok <==> epoch == r.epoch && lives(r, session_id, incarnation)
                && owner.live->0.lifecycle == SessionLifecycle::Active && owner.operation is Some
                && owner.operation->0.operation_id == operation_id && owner.operation->0.kind
                == SessionOperationKind::Load && owner.operation->0.stage == "reloading"@
            &&& step.result is Ok ==> {
                &&& shows_next(r, next, session_id)
                &&& response matches Some(response) ==> describes(
                    shown.session,
                    session_id,
                    response,
                ) && shown.control_state == controls_of(owner.live->0.attachment_candidate)
                &&& response is None ==> same_settings(was, shown)
                &&& shown.operation is None
                &&& shown.lifecycle == SessionLifecycle::Active
                &&& shown.active_turn == was.active_turn
                &&& same_identity(was, shown)
                &&& same_resources(was, shown)
                &&& next.sessions[session_id].live->0.attachment_candidate.len() == 0
                &&& tells_history(owner, shown)
            }
        }),
{
    reveal_strlit("reloading");
    reveal_strlit("cleanup");
    assert("reloading"@.len() == 9);
    assert("cleanup"@.len() == 7);
    match response {
        Some(response) => {
            lemma_metadata_describe(session_id, response);
        },
        None => {},
    }
}

/// An idle session that was loaded elsewhere shows the modes and options of the
/// response and the controls of the replay; the rest stays.
pub proof fn law_synchronized_session_shows_the_response(
    r: RegistryModel,
    epoch: Seq<char>,
    session_id: Seq<char>,
    incarnation: u64,
    response: JsonModel,
    replay: Seq<JsonModel>,
)
    ensures
        ({
            let step = synchronized(r, epoch, session_id, incarnation, response, replay);
            let next = step.state;
            let owner = r.sessions[session_id];
            let was = published(r).sessions[session_id];
            let shown = published(next).sessions[session_id];
            &&& step.result is Ok <==> epoch == r.epoch && lives(r, session_id, incarnation)
                && owner.live->0.lifecycle == SessionLifecycle::Active && !(owner.active_turn
                is Some && owner.active_turn->0.execution is Some)
            &&& step.result is Ok ==> {
                &&& shows_next(r, next, session_id)
                &&& describes(shown.session, session_id, response)
                &&& shown.control_state == controls_of(replay)
                &&& same_identity(was, shown)
                &&& same_resources(was, shown)
                &&& same_course(was, shown)
                &&& tells_history(owner, shown)
            }
        }),
{
    lemma_metadata_describe(session_id, response);
}

} // verus!
