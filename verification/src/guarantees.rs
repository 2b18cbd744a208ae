//! What the transitions of a session promise together.
use crate::fold::{folded_terminal, folded_turn, RuntimeStateError};
use crate::journal::{contiguous, journal_retired, law_retirement_drops_payload, owns_payload};
use crate::json::{json_equal, JsonModel};
use crate::laws::{consistent, has_room, sound};
use crate::projection::{applied, with_session};
use crate::registry::attachment::{attachment_failed, candidate_appended, opened};
use crate::registry::interactions::{
    elicitation_asked, elicitation_resolved, flow_settled, permission_asked, permission_resolved,
    permission_response_begun, permission_response_completed, registration_settled, terminal_at,
    terminal_upserted,
};
use crate::registry::operations::{
    delete_closed, delete_completed, operation_failed, session_closed,
};
use crate::registry::turns::{
    cancel_requested, prompt_started, turn_admitted, turn_ended, update_appended, update_projected,
    AdmissionModel, StartedModel, TurnStep,
};
use crate::registry::{
    accepted, in_use, is_published, published, published_session, refused, uses_operation,
    RegistryModel,
};
use crate::runtime_types::{
    ChangeModel, EffectModel, InteractionResolution, InteractionResponseStart, InteractionUpsert,
    MirrorError, OverlayModel, SessionLifecycle, SessionModel, SessionOperationKind,
    SessionTurnError, TerminalUpsert, TurnModel, UrlFlowResolution, UrlFlowStatus,
};
use crate::series::is_alive;
use crate::session_live::{
    drain_effects, elicitation_effects, flow_effects, held_terminals, permission_effects, responds,
    terminal_effects, waiting_flows,
};
use crate::settlement::all_settle_once;
use crate::table::{chosen, increasing, lemma_chosen, sorted_keys};
use crate::text::{lemma_text_less_irreflexive, text_less};
use vstd::prelude::*;

verus! {

/// A permission request that has been settled stays settled: to settle it
/// again or to ask it again changes nothing.
pub proof fn law_settled_permission_stays_settled(
    r: RegistryModel,
    epoch: Seq<char>,
    session_id: Seq<char>,
    incarnation: u64,
    interaction_id: Seq<char>,
    operation_id: Seq<char>,
    request: JsonModel,
)
    requires
        permission_resolved(r, epoch, session_id, incarnation, interaction_id).result == Ok::<
            InteractionResolution,
            RuntimeStateError,
        >(InteractionResolution::Applied),
    ensures
        ({
            let next = permission_resolved(r, epoch, session_id, incarnation, interaction_id).state;
            &&& permission_resolved(next, epoch, session_id, incarnation, interaction_id)
                == accepted(next, InteractionResolution::AlreadyResolved)
            &&& permission_response_completed(
                next,
                epoch,
                session_id,
                incarnation,
                interaction_id,
                operation_id,
            ) == accepted(next, InteractionResolution::AlreadyResolved)
            &&& permission_asked(next, epoch, session_id, incarnation, interaction_id, request)
                == accepted(next, InteractionUpsert::AlreadyResolved)
        }),
{
    let owner = r.sessions[session_id];
    let resolved = owner.live->0.resolved_permissions;
    assert(resolved.push(interaction_id)[resolved.len() as int] == interaction_id);
}

/// A question that has been settled stays settled.
pub proof fn law_settled_elicitation_stays_settled(
    r: RegistryModel,
    epoch: Seq<char>,
    scope: Option<(Seq<char>, u64)>,
    interaction_id: Seq<char>,
    accepted_url_id: Option<Seq<char>>,
    request: JsonModel,
)
    requires
        elicitation_resolved(r, epoch, scope, interaction_id, accepted_url_id).result == Ok::<
            InteractionResolution,
            RuntimeStateError,
        >(InteractionResolution::Applied),
    ensures
        ({
            let next = elicitation_resolved(
                r,
                epoch,
                scope,
                interaction_id,
                accepted_url_id,
            ).state;
            &&& elicitation_resolved(next, epoch, scope, interaction_id, accepted_url_id)
                == accepted(next, InteractionResolution::AlreadyResolved)
            &&& elicitation_asked(next, epoch, scope, interaction_id, request) == accepted(
                next,
                InteractionUpsert::AlreadyResolved,
            )
        }),
{
    match scope {
        Some((session_id, _)) => {
            let resolved = r.sessions[session_id].live->0.resolved_elicitations;
            assert(resolved.push(interaction_id)[resolved.len() as int] == interaction_id);
        },
        None => {
            let resolved = r.resolved_request_elicitations;
            assert(resolved.push(interaction_id)[resolved.len() as int] == interaction_id);
        },
    }
}

/// A permission request that waits for its answer is not overwritten: to ask it
/// again, in the same words or in others, changes nothing.
pub proof fn law_pending_permission_is_not_overwritten(
    r: RegistryModel,
    epoch: Seq<char>,
    session_id: Seq<char>,
    incarnation: u64,
    interaction_id: Seq<char>,
    first: JsonModel,
    second: JsonModel,
)
    requires
        permission_asked(r, epoch, session_id, incarnation, interaction_id, first).result is Ok,
    ensures
        ({
            let next = permission_asked(
                r,
                epoch,
                session_id,
                incarnation,
                interaction_id,
                first,
            ).state;
            permission_asked(next, epoch, session_id, incarnation, interaction_id, second).state
                == next
        }),
{
}

/// A flow at a URL that has been settled stays settled: to settle it again, with
/// whatever outcome and by whatever registration, changes nothing.
pub proof fn law_settled_flow_stays_settled(
    r: RegistryModel,
    epoch: Seq<char>,
    scope: Option<(Seq<char>, u64)>,
    elicitation_id: Seq<char>,
    registration_id: Seq<char>,
    status: UrlFlowStatus,
    other_registration: Seq<char>,
    other_status: UrlFlowStatus,
)
    requires
        registration_settled(r, epoch, scope, elicitation_id, registration_id, status).result
            == Ok::<UrlFlowResolution, RuntimeStateError>(UrlFlowResolution::Applied),
        other_status != UrlFlowStatus::Waiting,
    ensures
        ({
            let next = registration_settled(
                r,
                epoch,
                scope,
                elicitation_id,
                registration_id,
                status,
            ).state;
            registration_settled(
                next,
                epoch,
                scope,
                elicitation_id,
                other_registration,
                other_status,
            ) == accepted(next, UrlFlowResolution::AlreadyTerminal)
        }),
{
    match scope {
        Some((session_id, _)) => {
            let resolved = r.sessions[session_id].live->0.resolved_url_flows;
            assert(resolved.push(elicitation_id)[resolved.len() as int] == elicitation_id);
        },
        None => {
            let resolved = r.resolved_request_url_flows;
            assert(resolved.push(elicitation_id)[resolved.len() as int] == elicitation_id);
        },
    }
}

/// To settle a flow is to settle the registration under which it waits; a flow
/// that does not wait is settled in the name of any.
pub proof fn law_settling_a_flow_settles_its_registration(
    r: RegistryModel,
    epoch: Seq<char>,
    scope: Option<(Seq<char>, u64)>,
    elicitation_id: Seq<char>,
    registration_id: Seq<char>,
    status: UrlFlowStatus,
)
    requires
        ({
            let flows = match scope {
                Some((session_id, _)) => r.sessions[session_id].live->0.url_flows,
                None => r.request_url_flows,
            };
            flows.contains_key(elicitation_id) ==> flows[elicitation_id].registration_id
                == registration_id
        }),
    ensures
        flow_settled(r, epoch, scope, elicitation_id, status).state == registration_settled(
            r,
            epoch,
            scope,
            elicitation_id,
            registration_id,
            status,
        ).state,
        is_alive(r, scope) ==> flow_settled(r, epoch, scope, elicitation_id, status)
            == registration_settled(r, epoch, scope, elicitation_id, registration_id, status),
{
}

/// A permission request has one responder: the same operation may begin again
/// without effect, any other is refused, and only the responder settles it.
pub proof fn law_permission_has_one_responder(
    r: RegistryModel,
    epoch: Seq<char>,
    session_id: Seq<char>,
    incarnation: u64,
    interaction_id: Seq<char>,
    operation_id: Seq<char>,
    other: Seq<char>,
)
    requires
        permission_response_begun(
            r,
            epoch,
            session_id,
            incarnation,
            interaction_id,
            operation_id,
        ).result == Ok::<InteractionResponseStart, RuntimeStateError>(
            InteractionResponseStart::Applied,
        ),
        all_settle_once(r),
        other != operation_id,
    ensures
        ({
            let next = permission_response_begun(
                r,
                epoch,
                session_id,
                incarnation,
                interaction_id,
                operation_id,
            ).state;
            &&& in_use(next, operation_id, None)
            &&& permission_response_begun(
                next,
                epoch,
                session_id,
                incarnation,
                interaction_id,
                operation_id,
            ) == accepted(next, InteractionResponseStart::Duplicate)
            &&& permission_response_begun(
                next,
                epoch,
                session_id,
                incarnation,
                interaction_id,
                other,
            ) == refused::<InteractionResponseStart>(next, RuntimeStateError::InteractionCollision)
            &&& permission_response_completed(
                next,
                epoch,
                session_id,
                incarnation,
                interaction_id,
                other,
            ) == refused::<InteractionResolution>(next, RuntimeStateError::OperationMismatch)
            &&& permission_response_completed(
                next,
                epoch,
                session_id,
                incarnation,
                interaction_id,
                operation_id,
            ).result == Ok::<InteractionResolution, RuntimeStateError>(
                InteractionResolution::Applied,
            )
        }),
{
    let next = permission_response_begun(
        r,
        epoch,
        session_id,
        incarnation,
        interaction_id,
        operation_id,
    ).state;
    let pending = next.sessions[session_id].live->0.permissions;
    assert(pending.contains_key(interaction_id));
    assert(responds(pending, operation_id));
    assert(next.sessions.contains_key(session_id));
    assert(uses_operation(next.sessions[session_id], operation_id, None));
}

/// A turn is admitted once. An admitted turn that runs is told as one change; to
/// ask for it again is answered with the admission that the history remembers,
/// and finds the session busy where the history remembers none; neither changes
/// anything.
pub proof fn law_turn_is_admitted_once(
    r: RegistryModel,
    epoch: Seq<char>,
    session_id: Seq<char>,
    incarnation: u64,
    client_intent_id: Seq<char>,
    started: StartedModel,
    again: Result<StartedModel, MirrorError>,
    remembered: AdmissionModel,
)
    requires
        consistent(r),
        has_room(r),
        started.turn.execution is Some,
        turn_admitted(
            r,
            epoch,
            session_id,
            incarnation,
            client_intent_id,
            Ok(None),
            Ok(started),
        ).result is Ok,
    ensures
        ({
            let first = turn_admitted(
                r,
                epoch,
                session_id,
                incarnation,
                client_intent_id,
                Ok(None),
                Ok(started),
            );
            let next = first.state;
            &&& first.result == Ok::<AdmissionModel, SessionTurnError>(started.admission)
            &&& next.journal.seq == r.journal.seq + 1
            &&& turn_admitted(
                next,
                epoch,
                session_id,
                incarnation,
                client_intent_id,
                Ok(Some(remembered)),
                again,
            ) == (TurnStep { state: next, result: Ok(remembered) })
            &&& turn_admitted(
                next,
                epoch,
                session_id,
                incarnation,
                client_intent_id,
                Ok(None),
                again,
            ) == (TurnStep {
                state: next,
                result: Err(SessionTurnError::Live(RuntimeStateError::BusySession)),
            })
        }),
{
}

/// To ask a turn to stop twice is to ask it once.
pub proof fn law_cancel_request_is_idempotent(
    r: RegistryModel,
    epoch: Seq<char>,
    session_id: Seq<char>,
    incarnation: u64,
)
    requires
        cancel_requested(r, epoch, session_id, incarnation).result is Ok,
    ensures
        ({
            let next = cancel_requested(r, epoch, session_id, incarnation).state;
            &&& cancel_requested(next, epoch, session_id, incarnation) == accepted(next, ())
            &&& published(next).sessions[session_id].active_turn matches Some(turn)
            &&& turn.cancel_requested
        }),
{
}

/// What is made of a terminal says whether it is released as the terminal does.
pub proof fn lemma_folded_terminal_keeps_release(previous: Option<JsonModel>, terminal: JsonModel)
    requires
        terminal is Object,
    ensures
        folded_terminal(previous, terminal).true_at("released"@) == terminal.true_at("released"@),
{
    reveal_strlit("released");
    reveal_strlit("output");
    reveal_strlit("outputBytes");
    reveal_strlit("outputAppend");
    reveal_strlit("retainedBytes");
    assert("released"@.len() == 8);
    assert("output"@.len() == 6);
    assert("outputBytes"@.len() == 11);
    assert("outputAppend"@.len() == 12);
    assert("retainedBytes"@.len() == 13);
}

proof fn lemma_equal_release(a: JsonModel, b: JsonModel)
    requires
        json_equal(a, b),
    ensures
        a.true_at("released"@) == b.true_at("released"@),
{
    let key = "released"@;
    if let JsonModel::Object(x) = a {
        if let JsonModel::Object(y) = b {
            if x.dom().contains(key) {
                assert(json_equal(x[key], y[key]));
            }
        }
    }
}

/// A terminal that has been released does not come back, whatever arrives
/// late.
pub proof fn law_released_terminal_stays_released(
    r: RegistryModel,
    epoch: Seq<char>,
    session_id: Seq<char>,
    incarnation: u64,
    terminal_id: Seq<char>,
    terminal: JsonModel,
    late: JsonModel,
)
    requires
        consistent(r),
        terminal.true_at("released"@),
        terminal_upserted(r, epoch, session_id, incarnation, terminal_id, terminal).result is Ok,
    ensures
        ({
            let next = terminal_upserted(
                r,
                epoch,
                session_id,
                incarnation,
                terminal_id,
                terminal,
            ).state;
            terminal_upserted(next, epoch, session_id, incarnation, terminal_id, late)
                == accepted(next, TerminalUpsert::Stale)
        }),
{
    let live = r.sessions[session_id].live->0;
    let known = terminal_at(live, terminal_id);
    lemma_folded_terminal_keeps_release(known, terminal);
    if let Some(known) = known {
        assert(sound(r.sessions[session_id], session_id, r.next_incarnation));
        assert(live.terminals.contains_key(terminal_id));
        if json_equal(known, folded_terminal(Some(known), terminal)) {
            lemma_equal_release(known, folded_terminal(Some(known), terminal));
        }
    }
    let released = live.released_terminals;
    assert(released.push(terminal_id)[released.len() as int] == terminal_id);
}

/// A turn ends once: to end it again or to add to it is refused; it is not
/// published any more; and apart from the last change, which shows the session
/// without the turn, the journal holds nothing of it.
pub proof fn law_turn_ends_once(
    r: RegistryModel,
    epoch: Seq<char>,
    session_id: Seq<char>,
    incarnation: u64,
    operation_id: Seq<char>,
    lifecycle: Option<SessionLifecycle>,
    update: JsonModel,
)
    requires
        turn_ended(r, epoch, session_id, incarnation, operation_id, lifecycle).result is Ok,
        contiguous(r.journal),
    ensures
        ({
            let next = turn_ended(
                r,
                epoch,
                session_id,
                incarnation,
                operation_id,
                lifecycle,
            ).state;
            let entries = next.journal.deltas;
            &&& turn_ended(next, epoch, session_id, incarnation, operation_id, lifecycle)
                == refused::<()>(next, RuntimeStateError::NoActiveTurn)
            &&& update_appended(next, epoch, session_id, incarnation, update) == refused::<()>(
                next,
                RuntimeStateError::NoActiveTurn,
            )
            &&& entries.len() > 0
            &&& entries.last().delta.change matches ChangeModel::SessionUpsert { session }
            &&& session.active_turn is None
            &&& forall|i: int|
                0 <= i < entries.len() - 1 ==> !owns_payload(
                    (#[trigger] entries[i]).delta.change,
                    session_id,
                    incarnation,
                    operation_id,
                )
        }),
{
    law_retirement_drops_payload(r.journal, session_id, incarnation, operation_id);
    let rest = journal_retired(r.journal, session_id, incarnation, operation_id).deltas;
    let next = turn_ended(r, epoch, session_id, incarnation, operation_id, lifecycle).state;
    assert forall|i: int| 0 <= i < next.journal.deltas.len() - 1 implies !owns_payload(
        (#[trigger] next.journal.deltas[i]).delta.change,
        session_id,
        incarnation,
        operation_id,
    ) by {
        assert(next.journal.deltas[i] == rest[i]);
    }
}

/// The identifier of a turn is free again once the turn has ended.
pub proof fn law_ended_turn_frees_its_identifier(
    r: RegistryModel,
    epoch: Seq<char>,
    session_id: Seq<char>,
    incarnation: u64,
    operation_id: Seq<char>,
    prompt: Seq<JsonModel>,
)
    requires
        prompt_started(r, epoch, session_id, incarnation, operation_id, prompt).result is Ok,
    ensures
        ({
            let started = prompt_started(
                r,
                epoch,
                session_id,
                incarnation,
                operation_id,
                prompt,
            ).state;
            let ended = turn_ended(started, epoch, session_id, incarnation, operation_id, None);
            &&& in_use(started, operation_id, None)
            &&& ended.result is Ok
            &&& !in_use(ended.state, operation_id, None)
        }),
{
    let started = prompt_started(r, epoch, session_id, incarnation, operation_id, prompt).state;
    let ended = turn_ended(started, epoch, session_id, incarnation, operation_id, None).state;
    assert(started.sessions.contains_key(session_id));
    assert(uses_operation(started.sessions[session_id], operation_id, None));
    let before = r.sessions[session_id].live->0;
    let after = ended.sessions[session_id].live->0;
    assert(r.sessions.contains_key(session_id));
    assert(!uses_operation(r.sessions[session_id], operation_id, None));
    if responds(after.permissions, operation_id) {
        let key = choose|key: Seq<char>| #[trigger]
            after.permissions.contains_key(key) && after.permissions[key].responding_operation_id
                == Some(operation_id);
        assert(before.permissions.contains_key(key));
    }
    if responds(after.elicitations, operation_id) {
        let key = choose|key: Seq<char>| #[trigger]
            after.elicitations.contains_key(key) && after.elicitations[key].responding_operation_id
                == Some(operation_id);
        assert(before.elicitations.contains_key(key));
    }
    assert(!uses_operation(ended.sessions[session_id], operation_id, None));
    assert forall|id: Seq<char>| #[trigger] ended.sessions.contains_key(id) implies !uses_operation(
        ended.sessions[id],
        operation_id,
        None,
    ) by {
        if id != session_id {
            assert(r.sessions.contains_key(id));
            assert(ended.sessions[id] == r.sessions[id]);
        }
    }
}

/// A session that is opened gets an incarnation that no session has.
pub proof fn law_opening_gives_a_new_incarnation(
    r: RegistryModel,
    epoch: Seq<char>,
    session_id: Seq<char>,
    cwd: Seq<char>,
    session: JsonModel,
    control_state: Map<Seq<char>, JsonModel>,
    other: Seq<char>,
)
    requires
        consistent(r),
        r.next_incarnation < u64::MAX,
        r.sessions.contains_key(other),
        opened(r, epoch, session_id, cwd, session, control_state).result is Ok,
    ensures
        opened(r, epoch, session_id, cwd, session, control_state).result->Ok_0
            > r.sessions[other].incarnation,
{
    assert(sound(r.sessions[other], other, r.next_incarnation));
}

/// A deletion that fails after the session was closed leaves it closed: no
/// turn starts in it any more.
pub proof fn law_failed_deletion_leaves_session_closed(
    r: RegistryModel,
    epoch: Seq<char>,
    session_id: Seq<char>,
    incarnation: u64,
    operation_id: Seq<char>,
    prompt: Seq<JsonModel>,
    other: Seq<char>,
)
    requires
        delete_closed(r, epoch, session_id, incarnation, operation_id).result is Ok,
    ensures
        ({
            let closed = delete_closed(r, epoch, session_id, incarnation, operation_id).state;
            let failed = operation_failed(
                closed,
                epoch,
                session_id,
                incarnation,
                operation_id,
                SessionOperationKind::Delete,
            );
            &&& failed.result is Ok
            &&& failed.state.sessions[session_id].live matches Some(live)
            &&& live.lifecycle == SessionLifecycle::Closed
            &&& failed.state.sessions[session_id].operation is None
            &&& prompt_started(failed.state, epoch, session_id, incarnation, other, prompt).result
                is Err
        }),
{
    reveal_strlit("deleting");
    reveal_strlit("cleanup");
    assert("deleting"@[0] != "cleanup"@[0]);
}

/// What a published update of a turn does to a projection: whoever has the
/// turn without the update has it with the update afterwards.
pub proof fn law_projected_update_follows(
    r: RegistryModel,
    epoch: Seq<char>,
    session_id: Seq<char>,
    incarnation: u64,
    overlay: OverlayModel,
    update: JsonModel,
    updates: Seq<JsonModel>,
)
    requires
        update_projected(r, epoch, session_id, incarnation, overlay, update).result is Ok,
        r.journal.seq < u64::MAX,
        r.sessions[session_id].live->0.revision < u64::MAX,
        folded_turn(updates, update) == Ok::<Seq<JsonModel>, RuntimeStateError>(
            r.sessions[session_id].active_turn->0.updates,
        ),
    ensures
        ({
            let next = update_projected(
                r,
                epoch,
                session_id,
                incarnation,
                overlay,
                update,
            ).state;
            let shown = published(r).sessions[session_id];
            let behind = with_session(
                published(r),
                session_id,
                SessionModel {
                    active_turn: Some(TurnModel { updates, ..shown.active_turn->0 }),
                    ..shown
                },
            );
            applied(behind, next.journal.deltas.last().delta) == Some(published(next))
        }),
{
    let next = update_projected(r, epoch, session_id, incarnation, overlay, update).state;
    let shown = published(r).sessions[session_id];
    let behind = with_session(
        published(r),
        session_id,
        SessionModel {
            active_turn: Some(TurnModel { updates, ..shown.active_turn->0 }),
            ..shown
        },
    );
    assert(behind.sessions.insert(session_id, published_session(next.sessions[session_id]))
        =~= published(next).sessions);
}

/// Whether a list of the keys of a map in their order exists, as it does of
/// every table.
pub open spec fn is_listed<V>(map: Map<Seq<char>, V>) -> bool {
    increasing(sorted_keys(map)) && sorted_keys(map).to_set() == map.dom()
}

/// Whether no entry of a list of keys comes twice.
pub open spec fn all_differ<T>(list: Seq<T>) -> bool {
    forall|i: int, j: int| 0 <= i < j < list.len() ==> #[trigger] list[i] != #[trigger] list[j]
}

proof fn lemma_increasing_differ(keys: Seq<Seq<char>>)
    requires
        increasing(keys),
    ensures
        all_differ(keys),
{
    assert forall|i: int, j: int| 0 <= i < j < keys.len() implies #[trigger] keys[i]
        != #[trigger] keys[j] by {
        assert(text_less(keys[i], keys[j]));
        lemma_text_less_irreflexive(keys[i]);
    }
}

proof fn lemma_chosen_differ(keys: Seq<Seq<char>>, wanted: spec_fn(Seq<char>) -> bool)
    requires
        all_differ(keys),
    ensures
        all_differ(chosen(keys, wanted)),
    decreases keys.len(),
{
    if keys.len() > 0 {
        let rest = keys.drop_last();
        assert(all_differ(rest));
        lemma_chosen_differ(rest, wanted);
        lemma_chosen(rest, wanted, keys.last());
        if rest.contains(keys.last()) {
            let i = choose|i: int| 0 <= i < rest.len() && rest[i] == keys.last();
            assert(keys[i] == keys[keys.len() - 1]);
        }
        let before = chosen(rest, wanted);
        let all = chosen(keys, wanted);
        assert forall|i: int, j: int| 0 <= i < j < all.len() implies #[trigger] all[i]
            != #[trigger] all[j] by {
            if j < before.len() {
                assert(before[i] != before[j]);
            } else {
                assert(before.contains(before[i]));
            }
        }
    }
}

/// Closing a session releases all that it holds, each thing once, and leaves
/// nothing; the session is not published any more, and closing it again is
/// refused.
pub proof fn law_closing_releases_everything_once(
    r: RegistryModel,
    epoch: Seq<char>,
    session_id: Seq<char>,
    incarnation: u64,
    operation_id: Seq<char>,
)
    requires
        session_closed(r, epoch, session_id, incarnation, operation_id).result is Ok,
        is_listed(r.sessions[session_id].live->0.permissions),
        is_listed(r.sessions[session_id].live->0.elicitations),
        is_listed(r.sessions[session_id].live->0.url_flows),
        is_listed(r.sessions[session_id].live->0.terminals),
    ensures
        ({
            let next = session_closed(r, epoch, session_id, incarnation, operation_id).state;
            let before = r.sessions[session_id].live->0;
            let effects = drain_effects(session_id, incarnation, before);
            &&& next.effects == r.effects + effects
            &&& all_differ(effects)
            &&& forall|id: Seq<char>| #[trigger]
                before.permissions.contains_key(id) ==> effects.contains(
                    EffectModel::CancelPermissionResponder {
                        session_id,
                        incarnation,
                        interaction_id: id,
                    },
                )
            &&& forall|id: Seq<char>| #[trigger]
                before.terminals.contains_key(id) && !before.terminals[id].true_at("released"@)
                    ==> effects.contains(
                    EffectModel::ReleaseTerminal { session_id, terminal_id: id },
                )
            &&& !is_published(next.sessions[session_id])
            &&& session_closed(next, epoch, session_id, incarnation, operation_id)
                == refused::<()>(next, RuntimeStateError::UnknownSession)
        }),
{
    let live = r.sessions[session_id].live->0;
    let next = session_closed(r, epoch, session_id, incarnation, operation_id).state;
    let effects = drain_effects(session_id, incarnation, live);
    let flow_wanted = |key: Seq<char>| live.url_flows[key].status == UrlFlowStatus::Waiting;
    let terminal_wanted = |key: Seq<char>| !live.terminals[key].true_at("released"@);
    lemma_increasing_differ(sorted_keys(live.permissions));
    lemma_increasing_differ(sorted_keys(live.elicitations));
    lemma_increasing_differ(sorted_keys(live.url_flows));
    lemma_increasing_differ(sorted_keys(live.terminals));
    lemma_chosen_differ(sorted_keys(live.url_flows), flow_wanted);
    lemma_chosen_differ(sorted_keys(live.terminals), terminal_wanted);
    let a = permission_effects(session_id, incarnation, sorted_keys(live.permissions));
    let b = elicitation_effects(session_id, incarnation, sorted_keys(live.elicitations));
    let flows = waiting_flows(live.url_flows);
    let c = flow_effects(session_id, incarnation, live.url_flows, flows);
    let held = held_terminals(live.terminals);
    let d = terminal_effects(session_id, held);
    assert(all_differ(flows));
    assert(all_differ(held));
    assert(effects == a + b + c + d);
    assert forall|i: int, j: int| 0 <= i < j < effects.len() implies #[trigger] effects[i]
        != #[trigger] effects[j] by {
        let x = a.len() as int;
        let y = x + b.len();
        let z = y + c.len();
        if i < x {
            assert(effects[i] == a[i]);
            if j < x {
                assert(effects[j] == a[j]);
                assert(sorted_keys(live.permissions)[i] != sorted_keys(live.permissions)[j]);
            }
        } else if i < y {
            assert(effects[i] == b[i - x]);
            if j < y {
                assert(effects[j] == b[j - x]);
                assert(sorted_keys(live.elicitations)[i - x] != sorted_keys(live.elicitations)[j
                    - x]);
            }
        } else if i < z {
            assert(effects[i] == c[i - y]);
            if j < z {
                assert(effects[j] == c[j - y]);
                assert(flows[i - y] != flows[j - y]);
            }
        } else {
            assert(effects[i] == d[i - z]);
            assert(effects[j] == d[j - z]);
            assert(held[i - z] != held[j - z]);
        }
    }
    assert forall|id: Seq<char>| #[trigger] live.permissions.contains_key(
        id,
    ) implies effects.contains(
        EffectModel::CancelPermissionResponder { session_id, incarnation, interaction_id: id },
    ) by {
        let keys = sorted_keys(live.permissions);
        assert(keys.to_set().contains(id));
        let i = choose|i: int| 0 <= i < keys.len() && keys[i] == id;
        assert(effects[i] == a[i]);
    }
    assert forall|id: Seq<char>| #[trigger]
        live.terminals.contains_key(id) && !live.terminals[id].true_at(
            "released"@,
        ) implies effects.contains(EffectModel::ReleaseTerminal { session_id, terminal_id: id }) by {
        let keys = sorted_keys(live.terminals);
        assert(keys.to_set().contains(id));
        lemma_chosen(keys, terminal_wanted, id);
        assert(held.contains(id));
        let i = choose|i: int| 0 <= i < held.len() && held[i] == id;
        let at = a.len() + b.len() + c.len() + i;
        assert(effects[at] == d[i]);
    }
}

/// What is collected while a session is loaded is seen by nobody before the
/// loading has succeeded: what is published stays as it is, and so does the
/// journal.
pub proof fn law_collected_updates_stay_unseen(
    r: RegistryModel,
    epoch: Seq<char>,
    session_id: Seq<char>,
    incarnation: u64,
    update: JsonModel,
)
    ensures
        ({
            let next = candidate_appended(r, epoch, session_id, incarnation, update).state;
            published(next) == published(r) && next.journal == r.journal && next.effects
                == r.effects
        }),
{
    let next = candidate_appended(r, epoch, session_id, incarnation, update).state;
    assert(published(next).sessions =~= published(r).sessions);
}

/// A loading that fails leaves no trace of what was collected: the session is
/// not published any more.
pub proof fn law_failed_loading_leaves_no_session(
    r: RegistryModel,
    epoch: Seq<char>,
    session_id: Seq<char>,
    incarnation: u64,
    operation_id: Seq<char>,
    kind: SessionOperationKind,
)
    requires
        attachment_failed(r, epoch, session_id, incarnation, operation_id, kind).result is Ok,
    ensures
        !published(
            attachment_failed(r, epoch, session_id, incarnation, operation_id, kind).state,
        ).sessions.contains_key(session_id),
{
}

/// A deletion removes its session once: the session is not published any more,
/// and to complete the deletion again is refused.
pub proof fn law_deletion_removes_once(
    r: RegistryModel,
    epoch: Seq<char>,
    session_id: Seq<char>,
    incarnation: u64,
    operation_id: Seq<char>,
)
    requires
        delete_completed(r, epoch, session_id, incarnation, operation_id).result is Ok,
    ensures
        ({
            let next = delete_completed(r, epoch, session_id, incarnation, operation_id).state;
            &&& !published(next).sessions.contains_key(session_id)
            &&& delete_completed(next, epoch, session_id, incarnation, operation_id).result is Err
            &&& delete_completed(next, epoch, session_id, incarnation, operation_id).state == next
        }),
{
}

} // verus!
