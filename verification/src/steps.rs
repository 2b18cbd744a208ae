//! How each transition moves a registry on.
use crate::catch_up::{brings_object, tells_foldable};
use crate::identity::runs_as_asked;
use crate::json::JsonModel;
use crate::laws::{consistent, outcome, subject_of, Transition};
use crate::places::{begun_by, filled_by, fills, fills_outside, Place};
use crate::registry::attachment::{
    attachment_completed, attachment_failed, attachment_started, candidate_appended, forked, opened,
    reload_ended, reload_started, synchronized,
};
use crate::registry::interactions::{
    elicitation_asked, elicitation_resolved, elicitation_response_begun,
    elicitation_response_completed, permission_asked, permission_resolved,
    permission_response_begun, permission_response_completed, registration_settled,
    terminal_upserted,
};
use crate::registry::operations::{
    control_completed, delete_closed, delete_completed, delete_started, direct_delete_started,
    exclusive_started, operation_completed, operation_failed, operation_uncertain, session_closed,
};
use crate::registry::turns::{
    cancel_requested, control_updated, prompt_started, turn_admitted, turn_ended, update_appended,
    AdmissionModel, StartedModel,
};
use crate::registry::RegistryModel;
use crate::runtime_types::{
    InteractionModel, MirrorError, SessionLifecycle, SessionOperationKind, UrlFlowStatus,
};
use crate::session_live::{not_owned_by, others, owned_by};
use crate::settlement::{all_kept, goes_on, goes_on_outside, is_apart, registered_by};
use crate::table::{lemma_chosen, sorted_keys};
use vstd::prelude::*;

verus! {

/// Whether a session goes on as it should, fills no place but one, and tells
/// nothing that cannot be folded.
pub open spec fn steps(
    r: RegistryModel,
    next: RegistryModel,
    session_id: Seq<char>,
    registered: Option<Seq<char>>,
    filled: Option<Place>,
) -> bool {
    &&& goes_on(r, next, session_id, registered)
    &&& fills(r, next, session_id, filled)
    &&& tells_foldable(r, next)
}

/// Whether what belongs to no session goes on as it should, with one response
/// begun at most, and nothing told that cannot be folded.
pub open spec fn steps_outside(
    r: RegistryModel,
    next: RegistryModel,
    registered: Option<Seq<char>>,
    begun: Option<Seq<char>>,
) -> bool {
    &&& goes_on_outside(r, next, registered)
    &&& fills_outside(r, next, begun)
    &&& tells_foldable(r, next)
}

proof fn lemma_push_contains(list: Seq<Seq<char>>, added: Seq<char>)
    ensures
        forall|id: Seq<char>| #[trigger]
            list.push(added).contains(id) <==> list.contains(id) || id == added,
{
    broadcast use vstd::seq_lib::group_seq_properties;

}

proof fn lemma_others_contain(list: Seq<Seq<char>>, text: Seq<char>)
    ensures
        forall|id: Seq<char>| #[trigger]
            others(list, text).contains(id) <==> list.contains(id) && id != text,
    decreases list.len(),
{
    if list.len() > 0 {
        let rest = list.drop_last();
        lemma_others_contain(rest, text);
        lemma_push_contains(others(rest, text), list.last());
        lemma_push_contains(rest, list.last());
        assert(rest.push(list.last()) =~= list);
    }
}

proof fn lemma_sealed_apart(
    pending: Map<Seq<char>, InteractionModel>,
    resolved: Seq<Seq<char>>,
    operation_id: Seq<char>,
)
    ensures
        all_kept(resolved, resolved + owned_by(pending, operation_id), None),
        is_apart(pending, resolved) ==> is_apart(
            not_owned_by(pending, operation_id),
            resolved + owned_by(pending, operation_id),
        ),
{
    broadcast use vstd::seq_lib::group_seq_properties;

    let after = resolved + owned_by(pending, operation_id);
    if is_apart(pending, resolved) {
        assert forall|id: Seq<char>| #[trigger]
            not_owned_by(pending, operation_id).contains_key(id) implies !after.contains(id) by {
            lemma_chosen(
                sorted_keys(pending),
                |key: Seq<char>| pending[key].operation_id == Some(operation_id),
                id,
            );
            assert(pending.contains_key(id));
        }
    }
}

proof fn lemma_opened_steps(
    r: RegistryModel,
    epoch: Seq<char>,
    session_id: Seq<char>,
    cwd: Seq<char>,
    session: JsonModel,
    control_state: Map<Seq<char>, JsonModel>,
)
    requires
        consistent(r),
        r.next_incarnation < u64::MAX,
    ensures
        steps(
            r,
            opened(r, epoch, session_id, cwd, session, control_state).state,
            session_id,
            None,
            None,
        ),
{
}

proof fn lemma_forked_steps(
    r: RegistryModel,
    epoch: Seq<char>,
    session_id: Seq<char>,
    cwd: Seq<char>,
    session: JsonModel,
    source_id: Seq<char>,
    source_incarnation: u64,
    replay: Option<Seq<JsonModel>>,
)
    requires
        consistent(r),
        r.next_incarnation < u64::MAX,
    ensures
        steps(
            r,
            forked(
                r,
                epoch,
                session_id,
                cwd,
                session,
                source_id,
                source_incarnation,
                replay,
            ).state,
            session_id,
            None,
            None,
        ),
{
}

proof fn lemma_attachment_started_steps(
    r: RegistryModel,
    epoch: Seq<char>,
    session_id: Seq<char>,
    cwd: Seq<char>,
    operation_id: Seq<char>,
    kind: SessionOperationKind,
)
    requires
        consistent(r),
        r.next_incarnation < u64::MAX,
    ensures
        steps(
            r,
            attachment_started(r, epoch, session_id, cwd, operation_id, kind).state,
            session_id,
            None,
            Some(Place::Operation),
        ),
{
}

proof fn lemma_reload_started_steps(
    r: RegistryModel,
    epoch: Seq<char>,
    session_id: Seq<char>,
    incarnation: u64,
    operation_id: Seq<char>,
    kind: SessionOperationKind,
    history_admits: bool,
)
    requires
        consistent(r),
        r.next_incarnation < u64::MAX,
    ensures
        steps(
            r,
            reload_started(
                r,
                epoch,
                session_id,
                incarnation,
                operation_id,
                kind,
                history_admits,
            ).state,
            session_id,
            None,
            Some(Place::Operation),
        ),
{
}

proof fn lemma_candidate_appended_steps(
    r: RegistryModel,
    epoch: Seq<char>,
    session_id: Seq<char>,
    incarnation: u64,
    update: JsonModel,
)
    requires
        consistent(r),
        r.next_incarnation < u64::MAX,
    ensures
        steps(
            r,
            candidate_appended(r, epoch, session_id, incarnation, update).state,
            session_id,
            None,
            None,
        ),
{
}

proof fn lemma_reload_ended_steps(
    r: RegistryModel,
    epoch: Seq<char>,
    session_id: Seq<char>,
    incarnation: u64,
    operation_id: Seq<char>,
    response: Option<JsonModel>,
)
    requires
        consistent(r),
        r.next_incarnation < u64::MAX,
    ensures
        steps(
            r,
            reload_ended(r, epoch, session_id, incarnation, operation_id, response).state,
            session_id,
            None,
            None,
        ),
{
}

proof fn lemma_attachment_completed_steps(
    r: RegistryModel,
    epoch: Seq<char>,
    session_id: Seq<char>,
    incarnation: u64,
    operation_id: Seq<char>,
    kind: SessionOperationKind,
    response: JsonModel,
)
    requires
        consistent(r),
        r.next_incarnation < u64::MAX,
    ensures
        steps(
            r,
            attachment_completed(
                r,
                epoch,
                session_id,
                incarnation,
                operation_id,
                kind,
                response,
            ).state,
            session_id,
            None,
            None,
        ),
{
}

proof fn lemma_attachment_failed_steps(
    r: RegistryModel,
    epoch: Seq<char>,
    session_id: Seq<char>,
    incarnation: u64,
    operation_id: Seq<char>,
    kind: SessionOperationKind,
)
    requires
        consistent(r),
        r.next_incarnation < u64::MAX,
    ensures
        steps(
            r,
            attachment_failed(r, epoch, session_id, incarnation, operation_id, kind).state,
            session_id,
            None,
            None,
        ),
{
}

proof fn lemma_synchronized_steps(
    r: RegistryModel,
    epoch: Seq<char>,
    session_id: Seq<char>,
    incarnation: u64,
    response: JsonModel,
    replay: Seq<JsonModel>,
)
    requires
        consistent(r),
        r.next_incarnation < u64::MAX,
    ensures
        steps(
            r,
            synchronized(r, epoch, session_id, incarnation, response, replay).state,
            session_id,
            None,
            None,
        ),
{
}

proof fn lemma_turn_admitted_steps(
    r: RegistryModel,
    epoch: Seq<char>,
    session_id: Seq<char>,
    incarnation: u64,
    client_intent_id: Seq<char>,
    checked: Result<Option<AdmissionModel>, MirrorError>,
    started: Result<StartedModel, MirrorError>,
)
    requires
        consistent(r),
        r.next_incarnation < u64::MAX,
    ensures
        goes_on(
            r,
            turn_admitted(
                r,
                epoch,
                session_id,
                incarnation,
                client_intent_id,
                checked,
                started,
            ).state,
            session_id,
            None,
        ),
        tells_foldable(
            r,
            turn_admitted(
                r,
                epoch,
                session_id,
                incarnation,
                client_intent_id,
                checked,
                started,
            ).state,
        ),
        runs_as_asked(
            Transition::AdmitTurn {
                epoch,
                session_id,
                incarnation,
                client_intent_id,
                checked,
                started,
            },
        ) ==> fills(
            r,
            turn_admitted(
                r,
                epoch,
                session_id,
                incarnation,
                client_intent_id,
                checked,
                started,
            ).state,
            session_id,
            Some(Place::Turn),
        ),
{
}

proof fn lemma_prompt_started_steps(
    r: RegistryModel,
    epoch: Seq<char>,
    session_id: Seq<char>,
    incarnation: u64,
    operation_id: Seq<char>,
    prompt: Seq<JsonModel>,
)
    requires
        consistent(r),
        r.next_incarnation < u64::MAX,
    ensures
        steps(
            r,
            prompt_started(r, epoch, session_id, incarnation, operation_id, prompt).state,
            session_id,
            None,
            Some(Place::Turn),
        ),
{
}

proof fn lemma_update_appended_steps(
    r: RegistryModel,
    epoch: Seq<char>,
    session_id: Seq<char>,
    incarnation: u64,
    update: JsonModel,
)
    requires
        consistent(r),
        r.next_incarnation < u64::MAX,
    ensures
        steps(
            r,
            update_appended(r, epoch, session_id, incarnation, update).state,
            session_id,
            None,
            None,
        ),
{
}

proof fn lemma_control_updated_steps(
    r: RegistryModel,
    epoch: Seq<char>,
    session_id: Seq<char>,
    incarnation: u64,
    key: Seq<char>,
    update: JsonModel,
)
    requires
        consistent(r),
        r.next_incarnation < u64::MAX,
    ensures
        steps(
            r,
            control_updated(r, epoch, session_id, incarnation, key, update).state,
            session_id,
            None,
            None,
        ),
{
}

proof fn lemma_cancel_requested_steps(
    r: RegistryModel,
    epoch: Seq<char>,
    session_id: Seq<char>,
    incarnation: u64,
)
    requires
        consistent(r),
        r.next_incarnation < u64::MAX,
    ensures
        steps(
            r,
            cancel_requested(r, epoch, session_id, incarnation).state,
            session_id,
            None,
            None,
        ),
{
}

proof fn lemma_turn_ended_steps(
    r: RegistryModel,
    epoch: Seq<char>,
    session_id: Seq<char>,
    incarnation: u64,
    operation_id: Seq<char>,
    lifecycle: Option<SessionLifecycle>,
)
    requires
        consistent(r),
        r.next_incarnation < u64::MAX,
    ensures
        steps(
            r,
            turn_ended(r, epoch, session_id, incarnation, operation_id, lifecycle).state,
            session_id,
            None,
            None,
        ),
{
    let live = r.sessions[session_id].live->0;
    lemma_sealed_apart(live.permissions, live.resolved_permissions, operation_id);
    lemma_sealed_apart(live.elicitations, live.resolved_elicitations, operation_id);
}

proof fn lemma_permission_asked_steps(
    r: RegistryModel,
    epoch: Seq<char>,
    session_id: Seq<char>,
    incarnation: u64,
    interaction_id: Seq<char>,
    request: JsonModel,
)
    requires
        consistent(r),
        r.next_incarnation < u64::MAX,
    ensures
        steps(
            r,
            permission_asked(
                r,
                epoch,
                session_id,
                incarnation,
                interaction_id,
                request,
            ).state,
            session_id,
            None,
            None,
        ),
{
}

proof fn lemma_permission_resolved_steps(
    r: RegistryModel,
    epoch: Seq<char>,
    session_id: Seq<char>,
    incarnation: u64,
    interaction_id: Seq<char>,
)
    requires
        consistent(r),
        r.next_incarnation < u64::MAX,
    ensures
        steps(
            r,
            permission_resolved(r, epoch, session_id, incarnation, interaction_id).state,
            session_id,
            None,
            None,
        ),
{
    let live = r.sessions[session_id].live->0;
    lemma_push_contains(live.resolved_permissions, interaction_id);
}

proof fn lemma_permission_response_begun_steps(
    r: RegistryModel,
    epoch: Seq<char>,
    session_id: Seq<char>,
    incarnation: u64,
    interaction_id: Seq<char>,
    operation_id: Seq<char>,
)
    requires
        consistent(r),
        r.next_incarnation < u64::MAX,
    ensures
        steps(
            r,
            permission_response_begun(
                r,
                epoch,
                session_id,
                incarnation,
                interaction_id,
                operation_id,
            ).state,
            session_id,
            None,
            Some(Place::Permission { interaction_id }),
        ),
{
}

proof fn lemma_permission_response_completed_steps(
    r: RegistryModel,
    epoch: Seq<char>,
    session_id: Seq<char>,
    incarnation: u64,
    interaction_id: Seq<char>,
    operation_id: Seq<char>,
)
    requires
        consistent(r),
        r.next_incarnation < u64::MAX,
    ensures
        steps(
            r,
            permission_response_completed(
                r,
                epoch,
                session_id,
                incarnation,
                interaction_id,
                operation_id,
            ).state,
            session_id,
            None,
            None,
        ),
{
    let live = r.sessions[session_id].live->0;
    lemma_push_contains(live.resolved_permissions, interaction_id);
}

proof fn lemma_elicitation_asked_steps(
    r: RegistryModel,
    epoch: Seq<char>,
    scope: Option<(Seq<char>, u64)>,
    interaction_id: Seq<char>,
    request: JsonModel,
)
    requires
        consistent(r),
        r.next_incarnation < u64::MAX,
    ensures
        match scope {
            Some((session_id, _)) => steps(
                r,
                elicitation_asked(r, epoch, scope, interaction_id, request).state,
                session_id,
                None,
                None,
            ),
            None => steps_outside(
                r,
                elicitation_asked(r, epoch, scope, interaction_id, request).state,
                None,
                None,
            ),
        },
{
}

proof fn lemma_elicitation_resolved_steps(
    r: RegistryModel,
    epoch: Seq<char>,
    scope: Option<(Seq<char>, u64)>,
    interaction_id: Seq<char>,
    accepted_url_id: Option<Seq<char>>,
)
    requires
        consistent(r),
        r.next_incarnation < u64::MAX,
    ensures
        match scope {
            Some((session_id, _)) => steps(
                r,
                elicitation_resolved(
                    r,
                    epoch,
                    scope,
                    interaction_id,
                    accepted_url_id,
                ).state,
                session_id,
                accepted_url_id,
                None,
            ),
            None => steps_outside(
                r,
                elicitation_resolved(
                    r,
                    epoch,
                    scope,
                    interaction_id,
                    accepted_url_id,
                ).state,
                accepted_url_id,
                None,
            ),
        },
{
    match scope {
        Some((session_id, _)) => {
            let live = r.sessions[session_id].live->0;
            lemma_push_contains(live.resolved_elicitations, interaction_id);
            if let Some(url_id) = accepted_url_id {
                lemma_others_contain(live.resolved_url_flows, url_id);
            }
        },
        None => {
            lemma_push_contains(r.resolved_request_elicitations, interaction_id);
            if let Some(url_id) = accepted_url_id {
                lemma_others_contain(r.resolved_request_url_flows, url_id);
            }
        },
    }
}

proof fn lemma_elicitation_response_begun_steps(
    r: RegistryModel,
    epoch: Seq<char>,
    scope: Option<(Seq<char>, u64)>,
    interaction_id: Seq<char>,
    operation_id: Seq<char>,
)
    requires
        consistent(r),
        r.next_incarnation < u64::MAX,
    ensures
        match scope {
            Some((session_id, _)) => steps(
                r,
                elicitation_response_begun(
                    r,
                    epoch,
                    scope,
                    interaction_id,
                    operation_id,
                ).state,
                session_id,
                None,
                Some(Place::Elicitation { interaction_id }),
            ),
            None => steps_outside(
                r,
                elicitation_response_begun(
                    r,
                    epoch,
                    scope,
                    interaction_id,
                    operation_id,
                ).state,
                None,
                Some(interaction_id),
            ),
        },
{
}

proof fn lemma_elicitation_response_completed_steps(
    r: RegistryModel,
    epoch: Seq<char>,
    scope: Option<(Seq<char>, u64)>,
    interaction_id: Seq<char>,
    operation_id: Seq<char>,
    accepted_url_id: Option<Seq<char>>,
)
    requires
        consistent(r),
        r.next_incarnation < u64::MAX,
    ensures
        match scope {
            Some((session_id, _)) => steps(
                r,
                elicitation_response_completed(
                    r,
                    epoch,
                    scope,
                    interaction_id,
                    operation_id,
                    accepted_url_id,
                ).state,
                session_id,
                accepted_url_id,
                None,
            ),
            None => steps_outside(
                r,
                elicitation_response_completed(
                    r,
                    epoch,
                    scope,
                    interaction_id,
                    operation_id,
                    accepted_url_id,
                ).state,
                accepted_url_id,
                None,
            ),
        },
{
    match scope {
        Some((session_id, _)) => {
            let live = r.sessions[session_id].live->0;
            lemma_push_contains(live.resolved_elicitations, interaction_id);
            if let Some(url_id) = accepted_url_id {
                lemma_others_contain(live.resolved_url_flows, url_id);
            }
        },
        None => {
            lemma_push_contains(r.resolved_request_elicitations, interaction_id);
            if let Some(url_id) = accepted_url_id {
                lemma_others_contain(r.resolved_request_url_flows, url_id);
            }
        },
    }
}

proof fn lemma_registration_settled_steps(
    r: RegistryModel,
    epoch: Seq<char>,
    scope: Option<(Seq<char>, u64)>,
    elicitation_id: Seq<char>,
    registration_id: Seq<char>,
    status: UrlFlowStatus,
)
    requires
        consistent(r),
        r.next_incarnation < u64::MAX,
    ensures
        match scope {
            Some((session_id, _)) => steps(
                r,
                registration_settled(
                    r,
                    epoch,
                    scope,
                    elicitation_id,
                    registration_id,
                    status,
                ).state,
                session_id,
                None,
                None,
            ),
            None => steps_outside(
                r,
                registration_settled(
                    r,
                    epoch,
                    scope,
                    elicitation_id,
                    registration_id,
                    status,
                ).state,
                None,
                None,
            ),
        },
{
    match scope {
        Some((session_id, _)) => {
            let live = r.sessions[session_id].live->0;
            lemma_push_contains(live.resolved_url_flows, elicitation_id);
        },
        None => {
            lemma_push_contains(r.resolved_request_url_flows, elicitation_id);
        },
    }
}

proof fn lemma_terminal_upserted_steps(
    r: RegistryModel,
    epoch: Seq<char>,
    session_id: Seq<char>,
    incarnation: u64,
    terminal_id: Seq<char>,
    terminal: JsonModel,
)
    requires
        consistent(r),
        r.next_incarnation < u64::MAX,
    ensures
        goes_on(
            r,
            terminal_upserted(
                r,
                epoch,
                session_id,
                incarnation,
                terminal_id,
                terminal,
            ).state,
            session_id,
            None,
        ),
        fills(
            r,
            terminal_upserted(
                r,
                epoch,
                session_id,
                incarnation,
                terminal_id,
                terminal,
            ).state,
            session_id,
            None,
        ),
        terminal is Object || terminal is Null ==> tells_foldable(
            r,
            terminal_upserted(
                r,
                epoch,
                session_id,
                incarnation,
                terminal_id,
                terminal,
            ).state,
        ),
{
}

proof fn lemma_exclusive_started_steps(
    r: RegistryModel,
    epoch: Seq<char>,
    session_id: Seq<char>,
    incarnation: u64,
    operation_id: Seq<char>,
    kind: SessionOperationKind,
    stage: Seq<char>,
    history_admits: bool,
)
    requires
        consistent(r),
        r.next_incarnation < u64::MAX,
    ensures
        steps(
            r,
            exclusive_started(
                r,
                epoch,
                session_id,
                incarnation,
                operation_id,
                kind,
                stage,
                history_admits,
            ).state,
            session_id,
            None,
            Some(Place::Operation),
        ),
{
}

proof fn lemma_delete_started_steps(
    r: RegistryModel,
    epoch: Seq<char>,
    session_id: Seq<char>,
    incarnation: u64,
    operation_id: Seq<char>,
    history_admits: bool,
)
    requires
        consistent(r),
        r.next_incarnation < u64::MAX,
    ensures
        steps(
            r,
            delete_started(
                r,
                epoch,
                session_id,
                incarnation,
                operation_id,
                history_admits,
            ).state,
            session_id,
            None,
            Some(Place::Operation),
        ),
{
}

proof fn lemma_direct_delete_started_steps(
    r: RegistryModel,
    epoch: Seq<char>,
    session_id: Seq<char>,
    incarnation: u64,
    operation_id: Seq<char>,
    history_admits: bool,
)
    requires
        consistent(r),
        r.next_incarnation < u64::MAX,
    ensures
        steps(
            r,
            direct_delete_started(
                r,
                epoch,
                session_id,
                incarnation,
                operation_id,
                history_admits,
            ).state,
            session_id,
            None,
            Some(Place::Operation),
        ),
{
}

proof fn lemma_delete_closed_steps(
    r: RegistryModel,
    epoch: Seq<char>,
    session_id: Seq<char>,
    incarnation: u64,
    operation_id: Seq<char>,
)
    requires
        consistent(r),
        r.next_incarnation < u64::MAX,
    ensures
        steps(
            r,
            delete_closed(r, epoch, session_id, incarnation, operation_id).state,
            session_id,
            None,
            None,
        ),
{
}

proof fn lemma_delete_completed_steps(
    r: RegistryModel,
    epoch: Seq<char>,
    session_id: Seq<char>,
    incarnation: u64,
    operation_id: Seq<char>,
)
    requires
        consistent(r),
        r.next_incarnation < u64::MAX,
    ensures
        steps(
            r,
            delete_completed(r, epoch, session_id, incarnation, operation_id).state,
            session_id,
            None,
            None,
        ),
{
}

proof fn lemma_operation_uncertain_steps(
    r: RegistryModel,
    epoch: Seq<char>,
    session_id: Seq<char>,
    incarnation: u64,
    operation_id: Seq<char>,
    reason: Seq<char>,
)
    requires
        consistent(r),
        r.next_incarnation < u64::MAX,
    ensures
        steps(
            r,
            operation_uncertain(
                r,
                epoch,
                session_id,
                incarnation,
                operation_id,
                reason,
            ).state,
            session_id,
            None,
            None,
        ),
{
}

proof fn lemma_operation_completed_steps(
    r: RegistryModel,
    epoch: Seq<char>,
    session_id: Seq<char>,
    incarnation: u64,
    operation_id: Seq<char>,
    kind: SessionOperationKind,
)
    requires
        consistent(r),
        r.next_incarnation < u64::MAX,
    ensures
        steps(
            r,
            operation_completed(
                r,
                epoch,
                session_id,
                incarnation,
                operation_id,
                kind,
            ).state,
            session_id,
            None,
            None,
        ),
{
}

proof fn lemma_control_completed_steps(
    r: RegistryModel,
    epoch: Seq<char>,
    session_id: Seq<char>,
    incarnation: u64,
    operation_id: Seq<char>,
    kind: SessionOperationKind,
    key: Seq<char>,
    update: JsonModel,
)
    requires
        consistent(r),
        r.next_incarnation < u64::MAX,
    ensures
        steps(
            r,
            control_completed(
                r,
                epoch,
                session_id,
                incarnation,
                operation_id,
                kind,
                key,
                update,
            ).state,
            session_id,
            None,
            None,
        ),
{
}

proof fn lemma_operation_failed_steps(
    r: RegistryModel,
    epoch: Seq<char>,
    session_id: Seq<char>,
    incarnation: u64,
    operation_id: Seq<char>,
    kind: SessionOperationKind,
)
    requires
        consistent(r),
        r.next_incarnation < u64::MAX,
    ensures
        steps(
            r,
            operation_failed(r, epoch, session_id, incarnation, operation_id, kind).state,
            session_id,
            None,
            None,
        ),
{
}

proof fn lemma_session_closed_steps(
    r: RegistryModel,
    epoch: Seq<char>,
    session_id: Seq<char>,
    incarnation: u64,
    operation_id: Seq<char>,
)
    requires
        consistent(r),
        r.next_incarnation < u64::MAX,
    ensures
        steps(
            r,
            session_closed(r, epoch, session_id, incarnation, operation_id).state,
            session_id,
            None,
            None,
        ),
{
}

/// How a transition moves a registry on.
#[verifier::spinoff_prover]
#[verifier::rlimit(50)]
pub proof fn lemma_transition_steps(r: RegistryModel, t: Transition)
    requires
        consistent(r),
        r.next_incarnation < u64::MAX,
    ensures
        match subject_of(t) {
            Some(session_id) => {
                &&& goes_on(r, outcome(r, t).state, session_id, registered_by(t))
                &&& runs_as_asked(t) ==> fills(r, outcome(r, t).state, session_id, filled_by(t))
            },
            None => {
                &&& goes_on_outside(r, outcome(r, t).state, registered_by(t))
                &&& fills_outside(r, outcome(r, t).state, begun_by(t))
            },
        },
        brings_object(t) && !(t is Release) ==> tells_foldable(r, outcome(r, t).state),
{
    reveal(outcome);
    match t {
        Transition::Open { epoch, session_id, cwd, session, control_state } => {
            lemma_opened_steps(r, epoch, session_id, cwd, session, control_state);
        },
        Transition::Fork {
            epoch,
            session_id,
            cwd,
            session,
            source_id,
            source_incarnation,
            replay,
        } => {
            lemma_forked_steps(
                r,
                epoch,
                session_id,
                cwd,
                session,
                source_id,
                source_incarnation,
                replay,
            );
        },
        Transition::StartAttachment { epoch, session_id, cwd, operation_id, kind } => {
            lemma_attachment_started_steps(
                r,
                epoch,
                session_id,
                cwd,
                operation_id,
                kind,
            );
        },
        Transition::StartReload {
            epoch,
            session_id,
            incarnation,
            operation_id,
            kind,
            history_admits,
        } => {
            lemma_reload_started_steps(
                r,
                epoch,
                session_id,
                incarnation,
                operation_id,
                kind,
                history_admits,
            );
        },
        Transition::AppendCandidate { epoch, session_id, incarnation, update } => {
            lemma_candidate_appended_steps(
                r,
                epoch,
                session_id,
                incarnation,
                update,
            );
        },
        Transition::EndReload { epoch, session_id, incarnation, operation_id, response } => {
            lemma_reload_ended_steps(
                r,
                epoch,
                session_id,
                incarnation,
                operation_id,
                response,
            );
        },
        Transition::CompleteAttachment {
            epoch,
            session_id,
            incarnation,
            operation_id,
            kind,
            response,
        } => {
            lemma_attachment_completed_steps(
                r,
                epoch,
                session_id,
                incarnation,
                operation_id,
                kind,
                response,
            );
        },
        Transition::FailAttachment { epoch, session_id, incarnation, operation_id, kind } => {
            lemma_attachment_failed_steps(
                r,
                epoch,
                session_id,
                incarnation,
                operation_id,
                kind,
            );
        },
        Transition::Synchronize { epoch, session_id, incarnation, response, replay } => {
            lemma_synchronized_steps(
                r,
                epoch,
                session_id,
                incarnation,
                response,
                replay,
            );
        },
        Transition::AdmitTurn {
            epoch,
            session_id,
            incarnation,
            client_intent_id,
            checked,
            started,
        } => {
            lemma_turn_admitted_steps(
                r,
                epoch,
                session_id,
                incarnation,
                client_intent_id,
                checked,
                started,
            );
        },
        Transition::StartPrompt { epoch, session_id, incarnation, operation_id, prompt } => {
            lemma_prompt_started_steps(
                r,
                epoch,
                session_id,
                incarnation,
                operation_id,
                prompt,
            );
        },
        Transition::AppendUpdate { epoch, session_id, incarnation, update } => {
            lemma_update_appended_steps(r, epoch, session_id, incarnation, update);
        },
        Transition::UpdateControl { epoch, session_id, incarnation, key, update } => {
            lemma_control_updated_steps(
                r,
                epoch,
                session_id,
                incarnation,
                key,
                update,
            );
        },
        Transition::RequestCancel { epoch, session_id, incarnation } => {
            lemma_cancel_requested_steps(r, epoch, session_id, incarnation);
        },
        Transition::EndTurn { epoch, session_id, incarnation, operation_id, uncertain } => {
            let lifecycle = if uncertain {
                Some(SessionLifecycle::Uncertain)
            } else {
                None
            };
            lemma_turn_ended_steps(r, epoch, session_id, incarnation, operation_id, lifecycle);
        },
        Transition::AskPermission { epoch, session_id, incarnation, interaction_id, request } => {
            lemma_permission_asked_steps(
                r,
                epoch,
                session_id,
                incarnation,
                interaction_id,
                request,
            );
        },
        Transition::ResolvePermission { epoch, session_id, incarnation, interaction_id } => {
            lemma_permission_resolved_steps(
                r,
                epoch,
                session_id,
                incarnation,
                interaction_id,
            );
        },
        Transition::BeginPermission {
            epoch,
            session_id,
            incarnation,
            interaction_id,
            operation_id,
        } => {
            lemma_permission_response_begun_steps(
                r,
                epoch,
                session_id,
                incarnation,
                interaction_id,
                operation_id,
            );
        },
        Transition::CompletePermission {
            epoch,
            session_id,
            incarnation,
            interaction_id,
            operation_id,
        } => {
            lemma_permission_response_completed_steps(
                r,
                epoch,
                session_id,
                incarnation,
                interaction_id,
                operation_id,
            );
        },
        Transition::AskElicitation { epoch, scope, interaction_id, request } => {
            lemma_elicitation_asked_steps(r, epoch, scope, interaction_id, request);
        },
        Transition::ResolveElicitation { epoch, scope, interaction_id, accepted_url_id } => {
            lemma_elicitation_resolved_steps(
                r,
                epoch,
                scope,
                interaction_id,
                accepted_url_id,
            );
        },
        Transition::BeginElicitation { epoch, scope, interaction_id, operation_id } => {
            lemma_elicitation_response_begun_steps(
                r,
                epoch,
                scope,
                interaction_id,
                operation_id,
            );
        },
        Transition::CompleteElicitation {
            epoch,
            scope,
            interaction_id,
            operation_id,
            accepted_url_id,
        } => {
            lemma_elicitation_response_completed_steps(
                r,
                epoch,
                scope,
                interaction_id,
                operation_id,
                accepted_url_id,
            );
        },
        Transition::SettleFlow { epoch, scope, elicitation_id, registration_id, status } => {
            lemma_registration_settled_steps(
                r,
                epoch,
                scope,
                elicitation_id,
                registration_id,
                status,
            );
        },
        Transition::UpsertTerminal { epoch, session_id, incarnation, terminal_id, terminal } => {
            lemma_terminal_upserted_steps(
                r,
                epoch,
                session_id,
                incarnation,
                terminal_id,
                terminal,
            );
        },
        Transition::StartOperation {
            epoch,
            session_id,
            incarnation,
            operation_id,
            kind,
            stage,
            history_admits,
        } => {
            lemma_exclusive_started_steps(
                r,
                epoch,
                session_id,
                incarnation,
                operation_id,
                kind,
                stage,
                history_admits,
            );
        },
        Transition::StartDelete {
            epoch,
            session_id,
            incarnation,
            operation_id,
            history_admits,
        } => {
            lemma_delete_started_steps(
                r,
                epoch,
                session_id,
                incarnation,
                operation_id,
                history_admits,
            );
        },
        Transition::StartDirectDelete {
            epoch,
            session_id,
            incarnation,
            operation_id,
            history_admits,
        } => {
            lemma_direct_delete_started_steps(
                r,
                epoch,
                session_id,
                incarnation,
                operation_id,
                history_admits,
            );
        },
        Transition::DeleteClosed { epoch, session_id, incarnation, operation_id } => {
            lemma_delete_closed_steps(
                r,
                epoch,
                session_id,
                incarnation,
                operation_id,
            );
        },
        Transition::CompleteDelete { epoch, session_id, incarnation, operation_id } => {
            lemma_delete_completed_steps(
                r,
                epoch,
                session_id,
                incarnation,
                operation_id,
            );
        },
        Transition::MarkUncertain { epoch, session_id, incarnation, operation_id, reason } => {
            lemma_operation_uncertain_steps(
                r,
                epoch,
                session_id,
                incarnation,
                operation_id,
                reason,
            );
        },
        Transition::CompleteOperation { epoch, session_id, incarnation, operation_id, kind } => {
            lemma_operation_completed_steps(
                r,
                epoch,
                session_id,
                incarnation,
                operation_id,
                kind,
            );
        },
        Transition::CompleteControl {
            epoch,
            session_id,
            incarnation,
            operation_id,
            kind,
            key,
            update,
        } => {
            lemma_control_completed_steps(
                r,
                epoch,
                session_id,
                incarnation,
                operation_id,
                kind,
                key,
                update,
            );
        },
        Transition::FailOperation { epoch, session_id, incarnation, operation_id, kind } => {
            lemma_operation_failed_steps(
                r,
                epoch,
                session_id,
                incarnation,
                operation_id,
                kind,
            );
        },
        Transition::Close { epoch, session_id, incarnation, operation_id } => {
            lemma_session_closed_steps(
                r,
                epoch,
                session_id,
                incarnation,
                operation_id,
            );
        },
        _ => {},
    }
}

} // verus!
