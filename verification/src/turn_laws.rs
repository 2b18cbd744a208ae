//! What is shown of a turn: how it is admitted, what it gathers, how it is asked
//! to stop and how it ends.
use crate::fold::{folded_control, folded_turn, RuntimeStateError};
use crate::json::{json_equal, JsonModel};
use crate::registry::{in_use, published, uses_operation, RegistryModel};
use crate::registry::turns::{
    cancel_requested, config_options_of, control_updated, current_mode_of, modes_of, prompt_started,
    turn_admitted, turn_ended, update_appended, AdmissionModel, StartedModel,
};
use crate::runtime_types::{
    ChangeModel, InteractionModel, LiveModel, MirrorError, MirrorPhase, SessionLifecycle,
    SessionTurnError,
};
use crate::session_laws::{
    lives, same_course, same_identity, same_resources, same_settings, shows_next, tells_history,
};
use crate::session_live::responds;
use vstd::prelude::*;

verus! {

/// Whether a session runs a turn.
pub open spec fn runs(r: RegistryModel, session_id: Seq<char>) -> bool {
    r.sessions[session_id].active_turn is Some
        && r.sessions[session_id].active_turn->0.execution is Some
}

/// An identifier is in use exactly where it names the turn that a session runs,
/// the operation that it performs, or the response to one of its questions, or
/// the response to a question outside all sessions.
pub proof fn law_identifier_is_in_use(r: RegistryModel, operation_id: Seq<char>)
    ensures
        in_use(r, operation_id, None) <==> {
            ||| exists|id: Seq<char>| #[trigger]
                r.sessions.contains_key(id) && {
                    ||| runs(r, id) && r.sessions[id].active_turn->0.execution->0.rpc_operation_id
                        == operation_id
                    ||| r.sessions[id].operation is Some && r.sessions[id].operation->0.operation_id
                        == operation_id
                    ||| r.sessions[id].live is Some && answers(
                        r.sessions[id].live->0.permissions,
                        operation_id,
                    )
                    ||| r.sessions[id].live is Some && answers(
                        r.sessions[id].live->0.elicitations,
                        operation_id,
                    )
                }
            ||| answers(r.request_elicitations, operation_id)
        },
{
    if in_use(r, operation_id, None) {
        if !responds(r.request_elicitations, operation_id) {
            let id = choose|id: Seq<char>| #[trigger]
                r.sessions.contains_key(id) && uses_operation(
                    r.sessions[id],
                    operation_id,
                    None,
                );
            assert(r.sessions.contains_key(id));
        }
    }
}

/// Whether an operation answers one of the questions.
pub open spec fn answers(
    pending: Map<Seq<char>, InteractionModel>,
    operation_id: Seq<char>,
) -> bool {
    exists|key: Seq<char>| #[trigger]
        pending.contains_key(key) && pending[key].responding_operation_id == Some(operation_id)
}

/// A turn that is admitted as a new one is shown as it was started: with what the
/// user asked and what was gathered already, under the identifier under which it
/// runs, and asked to stop only if it was started so; the phase is the one that
/// the history gave. The rest of the session stays. It is admitted exactly where
/// the session lives, is active and idle, the history knows nothing of it and
/// grants it, and its identifier is free.
pub proof fn law_admitted_turn_is_shown(
    r: RegistryModel,
    epoch: Seq<char>,
    session_id: Seq<char>,
    incarnation: u64,
    client_intent_id: Seq<char>,
    started: Result<StartedModel, MirrorError>,
)
    ensures
        ({
            let step = turn_admitted(
                r,
                epoch,
                session_id,
                incarnation,
                client_intent_id,
                Ok(None),
                started,
            );
            let next = step.state;
            let owner = r.sessions[session_id];
            let was = published(r).sessions[session_id];
            let shown = published(next).sessions[session_id];
            let idle = epoch == r.epoch && lives(r, session_id, incarnation)
                && owner.live->0.lifecycle == SessionLifecycle::Active && !runs(r, session_id)
                && owner.operation is None;
            &&& step.result is Ok <==> idle && !in_use(r, client_intent_id, None) && started is Ok
            &&& idle && !in_use(r, client_intent_id, None) ==> (started matches Err(error)
                ==> step.result == Err::<AdmissionModel, SessionTurnError>(
                SessionTurnError::History(error),
            ))
            &&& idle && in_use(r, client_intent_id, None) ==> step.result == Err::<
                AdmissionModel,
                SessionTurnError,
            >(SessionTurnError::Live(RuntimeStateError::OperationCollision))
            &&& step.result is Ok ==> {
                let turn = started->Ok_0.turn;
                &&& step.result == Ok::<AdmissionModel, SessionTurnError>(
                    started->Ok_0.admission,
                )
                &&& shows_next(r, next, session_id)
                &&& shown.active_turn is Some <==> turn.execution is Some
                &&& turn.execution matches Some(execution) ==> {
                    let running = shown.active_turn->0;
                    &&& running.prompt == turn.prompt
                    &&& running.updates == turn.updates
                    &&& running.operation_id == execution.rpc_operation_id
                    &&& running.turn_id == execution.rpc_operation_id
                    &&& running.cancel_requested == execution.cancel_requested
                }
                &&& next.sessions[session_id].active_turn == Some(turn)
                &&& shown.phase == started->Ok_0.phase
                &&& shown.history_revision == owner.history_revision
                &&& shown.sync_error == owner.sync_error
                &&& shown.lifecycle == was.lifecycle
                &&& shown.operation is None
                &&& same_identity(was, shown)
                &&& same_settings(was, shown)
                &&& same_resources(was, shown)
            }
        }),
{
    reveal_strlit("cleanup");
    assert("cleanup"@.len() == 7);
}

/// What the history says of a turn comes first: one that it remembers is answered
/// with what it remembers, one that it refuses is refused with its reason, and
/// neither changes anything.
pub proof fn law_history_speaks_first(
    r: RegistryModel,
    epoch: Seq<char>,
    session_id: Seq<char>,
    incarnation: u64,
    client_intent_id: Seq<char>,
    checked: Result<Option<AdmissionModel>, MirrorError>,
    started: Result<StartedModel, MirrorError>,
)
    requires
        epoch == r.epoch,
        lives(r, session_id, incarnation),
        checked != Ok::<Option<AdmissionModel>, MirrorError>(None),
    ensures
        ({
            let step = turn_admitted(
                r,
                epoch,
                session_id,
                incarnation,
                client_intent_id,
                checked,
                started,
            );
            &&& step.state == r
            &&& checked matches Ok(Some(remembered)) ==> step.result == Ok::<
                AdmissionModel,
                SessionTurnError,
            >(remembered)
            &&& checked matches Err(error) ==> step.result == Err::<
                AdmissionModel,
                SessionTurnError,
            >(SessionTurnError::History(error))
        }),
{
}

/// A prompt that is started is shown as the running turn: with the prompt, with
/// nothing gathered yet, and not asked to stop. The rest of the session stays.
pub proof fn law_started_prompt_is_shown(
    r: RegistryModel,
    epoch: Seq<char>,
    session_id: Seq<char>,
    incarnation: u64,
    operation_id: Seq<char>,
    prompt: Seq<JsonModel>,
)
    ensures
        ({
            let step = prompt_started(r, epoch, session_id, incarnation, operation_id, prompt);
            let next = step.state;
            let owner = r.sessions[session_id];
            let was = published(r).sessions[session_id];
            let shown = published(next).sessions[session_id];
            &&& step.result is Ok <==> epoch == r.epoch && !in_use(r, operation_id, None) && lives(
                r,
                session_id,
                incarnation,
            ) && owner.live->0.lifecycle == SessionLifecycle::Active && !runs(r, session_id)
                && owner.operation is None
            &&& step.result is Ok ==> {
                &&& step.result == Ok::<Seq<char>, RuntimeStateError>(operation_id)
                &&& shows_next(r, next, session_id)
                &&& shown.active_turn matches Some(turn) && turn.prompt == prompt
                    && turn.updates.len() == 0 && turn.operation_id == operation_id && turn.turn_id
                    == operation_id && !turn.cancel_requested
                &&& shown.phase == MirrorPhase::Running
                &&& shown.history_revision is Some
                &&& owner.history_revision is Some ==> shown.history_revision
                    == owner.history_revision
                &&& owner.history_revision is None ==> shown.history_revision == Some(
                    "runtime-fixture"@,
                )
                &&& shown.lifecycle == was.lifecycle
                &&& shown.operation is None
                &&& same_identity(was, shown)
                &&& same_settings(was, shown)
                &&& same_resources(was, shown)
            }
        }),
{
    reveal_strlit("cleanup");
    assert("cleanup"@.len() == 7);
}

/// An update of a running turn shows in the turn as it folds into what the turn
/// has gathered, and is told as it came; the rest of the session stays.
pub proof fn law_update_shows_in_the_turn(
    r: RegistryModel,
    epoch: Seq<char>,
    session_id: Seq<char>,
    incarnation: u64,
    update: JsonModel,
)
    ensures
        ({
            let step = update_appended(r, epoch, session_id, incarnation, update);
            let next = step.state;
            let owner = r.sessions[session_id];
            let was = published(r).sessions[session_id];
            let shown = published(next).sessions[session_id];
            let folded = folded_turn(was.active_turn->0.updates, update);
            let reached = epoch == r.epoch && lives(r, session_id, incarnation);
            &&& reached && !runs(r, session_id) ==> step.result == Err::<(), RuntimeStateError>(
                RuntimeStateError::NoActiveTurn,
            )
            &&& was.lifecycle != SessionLifecycle::Closed ==> (step.result is Ok <==> reached
                && runs(r, session_id) && folded is Ok)
            &&& step.result is Ok && was.lifecycle != SessionLifecycle::Closed ==> {
                &&& shows_next(r, next, session_id)
                &&& shown.active_turn matches Some(turn) && {
                    let before = was.active_turn->0;
                    &&& Ok::<Seq<JsonModel>, RuntimeStateError>(turn.updates) == folded
                    &&& turn.prompt == before.prompt
                    &&& turn.operation_id == before.operation_id
                    &&& turn.turn_id == before.turn_id
                    &&& turn.cancel_requested == before.cancel_requested
                }
                &&& shown.lifecycle == was.lifecycle
                &&& shown.operation == was.operation
                &&& same_identity(was, shown)
                &&& same_settings(was, shown)
                &&& same_resources(was, shown)
                &&& shown.history_revision == was.history_revision
                &&& shown.phase == was.phase
                &&& shown.sync_error == was.sync_error
                &&& next.journal.deltas.len() > 0 ==> (next.journal.deltas.last().delta.change
                    == ChangeModel::TurnUpdateAppended {
                    session_id,
                    incarnation: r.sessions[session_id].incarnation,
                    revision: shown.revision,
                    operation_id: was.active_turn->0.operation_id,
                    update,
                })
            }
        }),
{
    reveal_strlit("cleanup");
    assert("cleanup"@.len() == 7);
}

/// A running turn that is asked to stop is shown so, and as before otherwise.
pub proof fn law_cancelled_turn_is_shown(
    r: RegistryModel,
    epoch: Seq<char>,
    session_id: Seq<char>,
    incarnation: u64,
)
    ensures
        ({
            let step = cancel_requested(r, epoch, session_id, incarnation);
            let next = step.state;
            let owner = r.sessions[session_id];
            let was = published(r).sessions[session_id];
            let shown = published(next).sessions[session_id];
            &&& step.result is Ok <==> epoch == r.epoch && lives(r, session_id, incarnation)
                && runs(r, session_id)
            &&& step.result is Ok ==> {
                &&& shown.active_turn matches Some(turn) && turn.cancel_requested && turn.prompt
                    == was.active_turn->0.prompt && turn.updates == was.active_turn->0.updates
                    && turn.operation_id == was.active_turn->0.operation_id && turn.turn_id
                    == was.active_turn->0.turn_id
                &&& shown.lifecycle == was.lifecycle
                &&& shown.operation == was.operation
                &&& same_identity(was, shown)
                &&& same_settings(was, shown)
                &&& same_resources(was, shown)
                &&& !was.active_turn->0.cancel_requested ==> shows_next(r, next, session_id)
                    && tells_history(owner, shown)
                &&& was.active_turn->0.cancel_requested ==> next == r
            }
        }),
{
    reveal_strlit("cleanup");
    assert("cleanup"@.len() == 7);
}

/// A turn that ends is not shown any more. The questions that it asked are taken
/// back, and each is cancelled; all others stay. The rest of the session stays,
/// but for the lifecycle where the end leaves the session uncertain.
pub proof fn law_ended_turn_takes_its_questions_along(
    r: RegistryModel,
    epoch: Seq<char>,
    session_id: Seq<char>,
    incarnation: u64,
    operation_id: Seq<char>,
    lifecycle: Option<SessionLifecycle>,
    key: Seq<char>,
)
    ensures
        ({
            let step = turn_ended(r, epoch, session_id, incarnation, operation_id, lifecycle);
            let next = step.state;
            let owner = r.sessions[session_id];
            let was = published(r).sessions[session_id];
            let shown = published(next).sessions[session_id];
            let reached = epoch == r.epoch && lives(r, session_id, incarnation);
            &&& step.result is Ok <==> reached && runs(r, session_id)
                && owner.active_turn->0.execution->0.rpc_operation_id == operation_id
            &&& reached && !runs(r, session_id) ==> step.result == Err::<(), RuntimeStateError>(
                RuntimeStateError::NoActiveTurn,
            )
            &&& reached && runs(r, session_id)
                && owner.active_turn->0.execution->0.rpc_operation_id != operation_id
                ==> step.result == Err::<(), RuntimeStateError>(
                RuntimeStateError::OperationMismatch,
            )
            &&& step.result is Ok ==> {
                &&& shows_next(r, next, session_id)
                &&& shown.active_turn is None
                &&& shown.lifecycle == (match lifecycle {
                    Some(lifecycle) => lifecycle,
                    None => was.lifecycle,
                })
                &&& shown.permissions.contains_key(key) <==> was.permissions.contains_key(key)
                    && was.permissions[key].operation_id != Some(operation_id)
                &&& shown.permissions.contains_key(key) ==> shown.permissions[key]
                    == was.permissions[key]
                &&& shown.elicitations.contains_key(key) <==> was.elicitations.contains_key(key)
                    && was.elicitations[key].operation_id != Some(operation_id)
                &&& shown.elicitations.contains_key(key) ==> shown.elicitations[key]
                    == was.elicitations[key]
                &&& shown.url_flows == was.url_flows
                &&& shown.terminals == was.terminals
                &&& shown.operation == was.operation
                &&& same_identity(was, shown)
                &&& same_settings(was, shown)
                &&& tells_history(owner, shown)
            }
        }),
{
    reveal_strlit("cleanup");
    assert("cleanup"@.len() == 7);
}

/// A control that is told stands under its key as it is folded into what stood
/// there, where the session is active or on its way to be closed; the rest of the
/// session stays. Where it says nothing new, nothing is told.
pub proof fn law_told_control_is_shown(
    r: RegistryModel,
    epoch: Seq<char>,
    session_id: Seq<char>,
    incarnation: u64,
    key: Seq<char>,
    update: JsonModel,
)
    ensures
        ({
            let step = control_updated(r, epoch, session_id, incarnation, key, update);
            let next = step.state;
            let owner = r.sessions[session_id];
            let was = published(r).sessions[session_id];
            let shown = published(next).sessions[session_id];
            let before = if was.control_state.contains_key(key) {
                Some(was.control_state[key])
            } else {
                None
            };
            let folded = folded_control(before, update);
            &&& step.result is Ok <==> epoch == r.epoch && lives(r, session_id, incarnation) && (
            owner.live->0.lifecycle == SessionLifecycle::Active || owner.live->0.lifecycle
                == SessionLifecycle::Closing || owner.live->0.lifecycle
                == SessionLifecycle::ClosingForDelete)
            &&& step.result is Ok && before is Some && json_equal(before->0, folded) ==> next == r
            &&& step.result is Ok && !(before is Some && json_equal(before->0, folded)) ==> {
                &&& shows_next(r, next, session_id)
                &&& shown.control_state.contains_key(key)
                &&& shown.control_state[key] == folded
                &&& forall|other: Seq<char>|
                    other != key ==> {
                        &&& #[trigger] shown.control_state.contains_key(other)
                            == was.control_state.contains_key(other)
                        &&& was.control_state.contains_key(other) ==> shown.control_state[other]
                            == was.control_state[other]
                    }
                &&& shown.session == was.session
                &&& same_identity(was, shown)
                &&& same_resources(was, shown)
                &&& same_course(was, shown)
                &&& tells_history(owner, shown)
            }
        }),
{
    reveal_strlit("cleanup");
    assert("cleanup"@.len() == 7);
}

/// A control is folded field by field. Of the title and the times of a session
/// every field that is told replaces the one before, and the others stay; of its
/// usage too, but a cost that is null leaves the one before. Of any other kind
/// the last one that is told stands alone.
pub proof fn law_control_is_folded_field_by_field(
    previous: JsonModel,
    update: JsonModel,
    field: Seq<char>,
)
    requires
        previous is Object,
        update is Object,
    ensures
        ({
            let kind = update.get("sessionUpdate"@);
            let folded = folded_control(Some(previous), update);
            if kind == Some(JsonModel::String("session_info_update"@)) || (kind == Some(
                JsonModel::String("usage_update"@),
            ) && !(field == "cost"@ && update.get(field) == Some(JsonModel::Null))) {
                folded.get(field) == (if update.get(field) is Some {
                    update.get(field)
                } else {
                    previous.get(field)
                })
            } else if kind == Some(JsonModel::String("usage_update"@)) {
                folded.get(field) == previous.get(field)
            } else {
                folded == update
            }
        }),
        folded_control(None, update) == update,
{
    reveal_strlit("session_info_update");
    reveal_strlit("usage_update");
    assert("session_info_update"@.len() == 19);
    assert("usage_update"@.len() == 12);
}

/// The modes that a session offers are those of its response, where they are not
/// null. Its current mode is the one that was told last, and otherwise the one of
/// the response; and its options are those that were told last, and otherwise
/// those of the response.
pub proof fn law_controls_of_a_session(live: LiveModel)
    ensures
        modes_of(live) == (match live.session.get("modes"@) {
            Some(JsonModel::Null) => None,
            modes => modes,
        }),
        live.control_state.contains_key("current_mode_update"@) ==> (
        live.control_state["current_mode_update"@].get("currentModeId"@) matches Some(
            JsonModel::String(mode),
        ) ==> current_mode_of(live) == Some(mode)),
        !live.control_state.contains_key("current_mode_update"@) ==> current_mode_of(live) == (
        match modes_of(live) {
            Some(modes) => match modes.get("currentModeId"@) {
                Some(JsonModel::String(mode)) => Some(mode),
                _ => None,
            },
            None => None,
        }),
        live.control_state.contains_key("config_option_update"@) ==> (
        live.control_state["config_option_update"@].get("configOptions"@) matches Some(
            JsonModel::Array(options),
        ) ==> config_options_of(live) == JsonModel::Array(options)),
        !live.control_state.contains_key("config_option_update"@) ==> config_options_of(live) == (
        match live.session.get("configOptions"@) {
            Some(JsonModel::Array(options)) => JsonModel::Array(options),
            _ => JsonModel::Array(Seq::empty()),
        }),
{
}

} // verus!
