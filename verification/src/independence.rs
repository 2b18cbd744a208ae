//! Sessions go their own ways: what becomes of one depends on no other.
use crate::json::JsonModel;
use crate::laws::{law_other_sessions_stay, lemma_transition_moves, outcome, owner_of, Transition};
use crate::registry::attachment::{
    attachment_completed, attachment_failed, candidate_appended, reload_ended, reload_started,
    synchronized,
};
use crate::registry::interactions::{
    elicitation_asked, elicitation_resolved, elicitation_response_begun,
    elicitation_response_completed, permission_asked, permission_resolved,
    permission_response_begun, permission_response_completed, registration_settled,
    terminal_upserted,
};
use crate::registry::operations::{
    control_completed, delete_closed, delete_completed, delete_started, direct_delete_started,
    exclusive_started, operation_completed, operation_failed, operation_uncertain, session_closed,
};
use crate::registry::turns::{
    cancel_requested, control_updated, prompt_started, turn_admitted, turn_ended, update_appended,
    AdmissionModel, StartedModel,
};
use crate::registry::RegistryModel;
use crate::runtime_types::{MirrorError, SessionLifecycle, SessionOperationKind, UrlFlowStatus};
use vstd::prelude::*;

verus! {

/// Whether two registries of one epoch have the same owner of a session.
pub open spec fn agree_on(r: RegistryModel, s: RegistryModel, session_id: Seq<char>) -> bool {
    &&& r.epoch == s.epoch
    &&& r.sessions.contains_key(session_id) == s.sessions.contains_key(session_id)
    &&& r.sessions.contains_key(session_id) ==> r.sessions[session_id] == s.sessions[session_id]
}

proof fn lemma_reload_started_alone(
    r: RegistryModel,
    s: RegistryModel,
    epoch: Seq<char>,
    session_id: Seq<char>,
    incarnation: u64,
    operation_id: Seq<char>,
    kind: SessionOperationKind,
    history_admits: bool,
)
    requires
        agree_on(r, s, session_id),
        reload_started(
            r,
            epoch,
            session_id,
            incarnation,
            operation_id,
            kind,
            history_admits,
        ).result is Ok,
        reload_started(
            s,
            epoch,
            session_id,
            incarnation,
            operation_id,
            kind,
            history_admits,
        ).result is Ok,
    ensures
        agree_on(
            reload_started(
                r,
                epoch,
                session_id,
                incarnation,
                operation_id,
                kind,
                history_admits,
            ).state,
            reload_started(
                s,
                epoch,
                session_id,
                incarnation,
                operation_id,
                kind,
                history_admits,
            ).state,
            session_id,
        ),
{
}

proof fn lemma_candidate_appended_alone(
    r: RegistryModel,
    s: RegistryModel,
    epoch: Seq<char>,
    session_id: Seq<char>,
    incarnation: u64,
    update: JsonModel,
)
    requires
        agree_on(r, s, session_id),
        candidate_appended(r, epoch, session_id, incarnation, update).result is Ok,
        candidate_appended(s, epoch, session_id, incarnation, update).result is Ok,
    ensures
        agree_on(
            candidate_appended(r, epoch, session_id, incarnation, update).state,
            candidate_appended(s, epoch, session_id, incarnation, update).state,
            session_id,
        ),
{
}

proof fn lemma_reload_ended_alone(
    r: RegistryModel,
    s: RegistryModel,
    epoch: Seq<char>,
    session_id: Seq<char>,
    incarnation: u64,
    operation_id: Seq<char>,
    response: Option<JsonModel>,
)
    requires
        agree_on(r, s, session_id),
        reload_ended(r, epoch, session_id, incarnation, operation_id, response).result is Ok,
        reload_ended(s, epoch, session_id, incarnation, operation_id, response).result is Ok,
    ensures
        agree_on(
            reload_ended(r, epoch, session_id, incarnation, operation_id, response).state,
            reload_ended(s, epoch, session_id, incarnation, operation_id, response).state,
            session_id,
        ),
{
}

proof fn lemma_attachment_completed_alone(
    r: RegistryModel,
    s: RegistryModel,
    epoch: Seq<char>,
    session_id: Seq<char>,
    incarnation: u64,
    operation_id: Seq<char>,
    kind: SessionOperationKind,
    response: JsonModel,
)
    requires
        agree_on(r, s, session_id),
        attachment_completed(
            r,
            epoch,
            session_id,
            incarnation,
            operation_id,
            kind,
            response,
        ).result is Ok,
        attachment_completed(
            s,
            epoch,
            session_id,
            incarnation,
            operation_id,
            kind,
            response,
        ).result is Ok,
    ensures
        agree_on(
            attachment_completed(
                r,
                epoch,
                session_id,
                incarnation,
                operation_id,
                kind,
                response,
            ).state,
            attachment_completed(
                s,
                epoch,
                session_id,
                incarnation,
                operation_id,
                kind,
                response,
            ).state,
            session_id,
        ),
{
}

proof fn lemma_attachment_failed_alone(
    r: RegistryModel,
    s: RegistryModel,
    epoch: Seq<char>,
    session_id: Seq<char>,
    incarnation: u64,
    operation_id: Seq<char>,
    kind: SessionOperationKind,
)
    requires
        agree_on(r, s, session_id),
        attachment_failed(r, epoch, session_id, incarnation, operation_id, kind).result is Ok,
        attachment_failed(s, epoch, session_id, incarnation, operation_id, kind).result is Ok,
    ensures
        agree_on(
            attachment_failed(r, epoch, session_id, incarnation, operation_id, kind).state,
            attachment_failed(s, epoch, session_id, incarnation, operation_id, kind).state,
            session_id,
        ),
{
}

proof fn lemma_synchronized_alone(
    r: RegistryModel,
    s: RegistryModel,
    epoch: Seq<char>,
    session_id: Seq<char>,
    incarnation: u64,
    response: JsonModel,
    replay: Seq<JsonModel>,
)
    requires
        agree_on(r, s, session_id),
        synchronized(r, epoch, session_id, incarnation, response, replay).result is Ok,
        synchronized(s, epoch, session_id, incarnation, response, replay).result is Ok,
    ensures
        agree_on(
            synchronized(r, epoch, session_id, incarnation, response, replay).state,
            synchronized(s, epoch, session_id, incarnation, response, replay).state,
            session_id,
        ),
{
}

proof fn lemma_turn_admitted_alone(
    r: RegistryModel,
    s: RegistryModel,
    epoch: Seq<char>,
    session_id: Seq<char>,
    incarnation: u64,
    client_intent_id: Seq<char>,
    checked: Result<Option<AdmissionModel>, MirrorError>,
    started: Result<StartedModel, MirrorError>,
)
    requires
        agree_on(r, s, session_id),
        turn_admitted(
            r,
            epoch,
            session_id,
            incarnation,
            client_intent_id,
            checked,
            started,
        ).result is Ok,
        turn_admitted(
            s,
            epoch,
            session_id,
            incarnation,
            client_intent_id,
            checked,
            started,
        ).result is Ok,
    ensures
        agree_on(
            turn_admitted(
                r,
                epoch,
                session_id,
                incarnation,
                client_intent_id,
                checked,
                started,
            ).state,
            turn_admitted(
                s,
                epoch,
                session_id,
                incarnation,
                client_intent_id,
                checked,
                started,
            ).state,
            session_id,
        ),
{
}

proof fn lemma_prompt_started_alone(
    r: RegistryModel,
    s: RegistryModel,
    epoch: Seq<char>,
    session_id: Seq<char>,
    incarnation: u64,
    operation_id: Seq<char>,
    prompt: Seq<JsonModel>,
)
    requires
        agree_on(r, s, session_id),
        prompt_started(r, epoch, session_id, incarnation, operation_id, prompt).result is Ok,
        prompt_started(s, epoch, session_id, incarnation, operation_id, prompt).result is Ok,
    ensures
        agree_on(
            prompt_started(r, epoch, session_id, incarnation, operation_id, prompt).state,
            prompt_started(s, epoch, session_id, incarnation, operation_id, prompt).state,
            session_id,
        ),
{
}

proof fn lemma_update_appended_alone(
    r: RegistryModel,
    s: RegistryModel,
    epoch: Seq<char>,
    session_id: Seq<char>,
    incarnation: u64,
    update: JsonModel,
)
    requires
        agree_on(r, s, session_id),
        update_appended(r, epoch, session_id, incarnation, update).result is Ok,
        update_appended(s, epoch, session_id, incarnation, update).result is Ok,
    ensures
        agree_on(
            update_appended(r, epoch, session_id, incarnation, update).state,
            update_appended(s, epoch, session_id, incarnation, update).state,
            session_id,
        ),
{
}

proof fn lemma_control_updated_alone(
    r: RegistryModel,
    s: RegistryModel,
    epoch: Seq<char>,
    session_id: Seq<char>,
    incarnation: u64,
    key: Seq<char>,
    update: JsonModel,
)
    requires
        agree_on(r, s, session_id),
        control_updated(r, epoch, session_id, incarnation, key, update).result is Ok,
        control_updated(s, epoch, session_id, incarnation, key, update).result is Ok,
    ensures
        agree_on(
            control_updated(r, epoch, session_id, incarnation, key, update).state,
            control_updated(s, epoch, session_id, incarnation, key, update).state,
            session_id,
        ),
{
}

proof fn lemma_cancel_requested_alone(
    r: RegistryModel,
    s: RegistryModel,
    epoch: Seq<char>,
    session_id: Seq<char>,
    incarnation: u64,
)
    requires
        agree_on(r, s, session_id),
        cancel_requested(r, epoch, session_id, incarnation).result is Ok,
        cancel_requested(s, epoch, session_id, incarnation).result is Ok,
    ensures
        agree_on(
            cancel_requested(r, epoch, session_id, incarnation).state,
            cancel_requested(s, epoch, session_id, incarnation).state,
            session_id,
        ),
{
}

proof fn lemma_turn_ended_alone(
    r: RegistryModel,
    s: RegistryModel,
    epoch: Seq<char>,
    session_id: Seq<char>,
    incarnation: u64,
    operation_id: Seq<char>,
    lifecycle: Option<SessionLifecycle>,
)
    requires
        agree_on(r, s, session_id),
        turn_ended(r, epoch, session_id, incarnation, operation_id, lifecycle).result is Ok,
        turn_ended(s, epoch, session_id, incarnation, operation_id, lifecycle).result is Ok,
    ensures
        agree_on(
            turn_ended(r, epoch, session_id, incarnation, operation_id, lifecycle).state,
            turn_ended(s, epoch, session_id, incarnation, operation_id, lifecycle).state,
            session_id,
        ),
{
}

proof fn lemma_permission_asked_alone(
    r: RegistryModel,
    s: RegistryModel,
    epoch: Seq<char>,
    session_id: Seq<char>,
    incarnation: u64,
    interaction_id: Seq<char>,
    request: JsonModel,
)
    requires
        agree_on(r, s, session_id),
        permission_asked(r, epoch, session_id, incarnation, interaction_id, request).result is Ok,
        permission_asked(s, epoch, session_id, incarnation, interaction_id, request).result is Ok,
    ensures
        agree_on(
            permission_asked(r, epoch, session_id, incarnation, interaction_id, request).state,
            permission_asked(s, epoch, session_id, incarnation, interaction_id, request).state,
            session_id,
        ),
{
}

proof fn lemma_permission_resolved_alone(
    r: RegistryModel,
    s: RegistryModel,
    epoch: Seq<char>,
    session_id: Seq<char>,
    incarnation: u64,
    interaction_id: Seq<char>,
)
    requires
        agree_on(r, s, session_id),
        permission_resolved(r, epoch, session_id, incarnation, interaction_id).result is Ok,
        permission_resolved(s, epoch, session_id, incarnation, interaction_id).result is Ok,
    ensures
        agree_on(
            permission_resolved(r, epoch, session_id, incarnation, interaction_id).state,
            permission_resolved(s, epoch, session_id, incarnation, interaction_id).state,
            session_id,
        ),
{
}

proof fn lemma_permission_response_begun_alone(
    r: RegistryModel,
    s: RegistryModel,
    epoch: Seq<char>,
    session_id: Seq<char>,
    incarnation: u64,
    interaction_id: Seq<char>,
    operation_id: Seq<char>,
)
    requires
        agree_on(r, s, session_id),
        permission_response_begun(
            r,
            epoch,
            session_id,
            incarnation,
            interaction_id,
            operation_id,
        ).result is Ok,
        permission_response_begun(
            s,
            epoch,
            session_id,
            incarnation,
            interaction_id,
            operation_id,
        ).result is Ok,
    ensures
        agree_on(
            permission_response_begun(
                r,
                epoch,
                session_id,
                incarnation,
                interaction_id,
                operation_id,
            ).state,
            permission_response_begun(
                s,
                epoch,
                session_id,
                incarnation,
                interaction_id,
                operation_id,
            ).state,
            session_id,
        ),
{
}

proof fn lemma_permission_response_completed_alone(
    r: RegistryModel,
    s: RegistryModel,
    epoch: Seq<char>,
    session_id: Seq<char>,
    incarnation: u64,
    interaction_id: Seq<char>,
    operation_id: Seq<char>,
)
    requires
        agree_on(r, s, session_id),
        permission_response_completed(
            r,
            epoch,
            session_id,
            incarnation,
            interaction_id,
            operation_id,
        ).result is Ok,
        permission_response_completed(
            s,
            epoch,
            session_id,
            incarnation,
            interaction_id,
            operation_id,
        ).result is Ok,
    ensures
        agree_on(
            permission_response_completed(
                r,
                epoch,
                session_id,
                incarnation,
                interaction_id,
                operation_id,
            ).state,
            permission_response_completed(
                s,
                epoch,
                session_id,
                incarnation,
                interaction_id,
                operation_id,
            ).state,
            session_id,
        ),
{
}

proof fn lemma_elicitation_asked_alone(
    r: RegistryModel,
    s: RegistryModel,
    epoch: Seq<char>,
    scope: Option<(Seq<char>, u64)>,
    interaction_id: Seq<char>,
    request: JsonModel,
)
    requires
        scope is Some,
        agree_on(r, s, (scope->0).0),
        elicitation_asked(r, epoch, scope, interaction_id, request).result is Ok,
        elicitation_asked(s, epoch, scope, interaction_id, request).result is Ok,
    ensures
        agree_on(
            elicitation_asked(r, epoch, scope, interaction_id, request).state,
            elicitation_asked(s, epoch, scope, interaction_id, request).state,
            (scope->0).0,
        ),
{
}

proof fn lemma_elicitation_resolved_alone(
    r: RegistryModel,
    s: RegistryModel,
    epoch: Seq<char>,
    scope: Option<(Seq<char>, u64)>,
    interaction_id: Seq<char>,
    accepted_url_id: Option<Seq<char>>,
)
    requires
        scope is Some,
        agree_on(r, s, (scope->0).0),
        elicitation_resolved(r, epoch, scope, interaction_id, accepted_url_id).result is Ok,
        elicitation_resolved(s, epoch, scope, interaction_id, accepted_url_id).result is Ok,
    ensures
        agree_on(
            elicitation_resolved(r, epoch, scope, interaction_id, accepted_url_id).state,
            elicitation_resolved(s, epoch, scope, interaction_id, accepted_url_id).state,
            (scope->0).0,
        ),
{
}

proof fn lemma_elicitation_response_begun_alone(
    r: RegistryModel,
    s: RegistryModel,
    epoch: Seq<char>,
    scope: Option<(Seq<char>, u64)>,
    interaction_id: Seq<char>,
    operation_id: Seq<char>,
)
    requires
        scope is Some,
        agree_on(r, s, (scope->0).0),
        elicitation_response_begun(r, epoch, scope, interaction_id, operation_id).result is Ok,
        elicitation_response_begun(s, epoch, scope, interaction_id, operation_id).result is Ok,
    ensures
        agree_on(
            elicitation_response_begun(r, epoch, scope, interaction_id, operation_id).state,
            elicitation_response_begun(s, epoch, scope, interaction_id, operation_id).state,
            (scope->0).0,
        ),
{
}

proof fn lemma_elicitation_response_completed_alone(
    r: RegistryModel,
    s: RegistryModel,
    epoch: Seq<char>,
    scope: Option<(Seq<char>, u64)>,
    interaction_id: Seq<char>,
    operation_id: Seq<char>,
    accepted_url_id: Option<Seq<char>>,
)
    requires
        scope is Some,
        agree_on(r, s, (scope->0).0),
        elicitation_response_completed(
            r,
            epoch,
            scope,
            interaction_id,
            operation_id,
            accepted_url_id,
        ).result is Ok,
        elicitation_response_completed(
            s,
            epoch,
            scope,
            interaction_id,
            operation_id,
            accepted_url_id,
        ).result is Ok,
    ensures
        agree_on(
            elicitation_response_completed(
                r,
                epoch,
                scope,
                interaction_id,
                operation_id,
                accepted_url_id,
            ).state,
            elicitation_response_completed(
                s,
                epoch,
                scope,
                interaction_id,
                operation_id,
                accepted_url_id,
            ).state,
            (scope->0).0,
        ),
{
}

proof fn lemma_registration_settled_alone(
    r: RegistryModel,
    s: RegistryModel,
    epoch: Seq<char>,
    scope: Option<(Seq<char>, u64)>,
    elicitation_id: Seq<char>,
    registration_id: Seq<char>,
    status: UrlFlowStatus,
)
    requires
        scope is Some,
        agree_on(r, s, (scope->0).0),
        registration_settled(r, epoch, scope, elicitation_id, registration_id, status).result is Ok,
        registration_settled(s, epoch, scope, elicitation_id, registration_id, status).result is Ok,
    ensures
        agree_on(
            registration_settled(r, epoch, scope, elicitation_id, registration_id, status).state,
            registration_settled(s, epoch, scope, elicitation_id, registration_id, status).state,
            (scope->0).0,
        ),
{
}

proof fn lemma_terminal_upserted_alone(
    r: RegistryModel,
    s: RegistryModel,
    epoch: Seq<char>,
    session_id: Seq<char>,
    incarnation: u64,
    terminal_id: Seq<char>,
    terminal: JsonModel,
)
    requires
        agree_on(r, s, session_id),
        terminal_upserted(r, epoch, session_id, incarnation, terminal_id, terminal).result is Ok,
        terminal_upserted(s, epoch, session_id, incarnation, terminal_id, terminal).result is Ok,
    ensures
        agree_on(
            terminal_upserted(r, epoch, session_id, incarnation, terminal_id, terminal).state,
            terminal_upserted(s, epoch, session_id, incarnation, terminal_id, terminal).state,
            session_id,
        ),
{
}

proof fn lemma_exclusive_started_alone(
    r: RegistryModel,
    s: RegistryModel,
    epoch: Seq<char>,
    session_id: Seq<char>,
    incarnation: u64,
    operation_id: Seq<char>,
    kind: SessionOperationKind,
    stage: Seq<char>,
    history_admits: bool,
)
    requires
        agree_on(r, s, session_id),
        exclusive_started(
            r,
            epoch,
            session_id,
            incarnation,
            operation_id,
            kind,
            stage,
            history_admits,
        ).result is Ok,
        exclusive_started(
            s,
            epoch,
            session_id,
            incarnation,
            operation_id,
            kind,
            stage,
            history_admits,
        ).result is Ok,
    ensures
        agree_on(
            exclusive_started(
                r,
                epoch,
                session_id,
                incarnation,
                operation_id,
                kind,
                stage,
                history_admits,
            ).state,
            exclusive_started(
                s,
                epoch,
                session_id,
                incarnation,
                operation_id,
                kind,
                stage,
                history_admits,
            ).state,
            session_id,
        ),
{
}

proof fn lemma_delete_started_alone(
    r: RegistryModel,
    s: RegistryModel,
    epoch: Seq<char>,
    session_id: Seq<char>,
    incarnation: u64,
    operation_id: Seq<char>,
    history_admits: bool,
)
    requires
        agree_on(r, s, session_id),
        delete_started(
            r,
            epoch,
            session_id,
            incarnation,
            operation_id,
            history_admits,
        ).result is Ok,
        delete_started(
            s,
            epoch,
            session_id,
            incarnation,
            operation_id,
            history_admits,
        ).result is Ok,
    ensures
        agree_on(
            delete_started(r, epoch, session_id, incarnation, operation_id, history_admits).state,
            delete_started(s, epoch, session_id, incarnation, operation_id, history_admits).state,
            session_id,
        ),
{
}

proof fn lemma_direct_delete_started_alone(
    r: RegistryModel,
    s: RegistryModel,
    epoch: Seq<char>,
    session_id: Seq<char>,
    incarnation: u64,
    operation_id: Seq<char>,
    history_admits: bool,
)
    requires
        agree_on(r, s, session_id),
        direct_delete_started(
            r,
            epoch,
            session_id,
            incarnation,
            operation_id,
            history_admits,
        ).result is Ok,
        direct_delete_started(
            s,
            epoch,
            session_id,
            incarnation,
            operation_id,
            history_admits,
        ).result is Ok,
    ensures
        agree_on(
            direct_delete_started(
                r,
                epoch,
                session_id,
                incarnation,
                operation_id,
                history_admits,
            ).state,
            direct_delete_started(
                s,
                epoch,
                session_id,
                incarnation,
                operation_id,
                history_admits,
            ).state,
            session_id,
        ),
{
}

proof fn lemma_delete_closed_alone(
    r: RegistryModel,
    s: RegistryModel,
    epoch: Seq<char>,
    session_id: Seq<char>,
    incarnation: u64,
    operation_id: Seq<char>,
)
    requires
        agree_on(r, s, session_id),
        delete_closed(r, epoch, session_id, incarnation, operation_id).result is Ok,
        delete_closed(s, epoch, session_id, incarnation, operation_id).result is Ok,
    ensures
        agree_on(
            delete_closed(r, epoch, session_id, incarnation, operation_id).state,
            delete_closed(s, epoch, session_id, incarnation, operation_id).state,
            session_id,
        ),
{
}

proof fn lemma_delete_completed_alone(
    r: RegistryModel,
    s: RegistryModel,
    epoch: Seq<char>,
    session_id: Seq<char>,
    incarnation: u64,
    operation_id: Seq<char>,
)
    requires
        agree_on(r, s, session_id),
        delete_completed(r, epoch, session_id, incarnation, operation_id).result is Ok,
        delete_completed(s, epoch, session_id, incarnation, operation_id).result is Ok,
    ensures
        agree_on(
            delete_completed(r, epoch, session_id, incarnation, operation_id).state,
            delete_completed(s, epoch, session_id, incarnation, operation_id).state,
            session_id,
        ),
{
}

proof fn lemma_operation_uncertain_alone(
    r: RegistryModel,
    s: RegistryModel,
    epoch: Seq<char>,
    session_id: Seq<char>,
    incarnation: u64,
    operation_id: Seq<char>,
    reason: Seq<char>,
)
    requires
        agree_on(r, s, session_id),
        operation_uncertain(r, epoch, session_id, incarnation, operation_id, reason).result is Ok,
        operation_uncertain(s, epoch, session_id, incarnation, operation_id, reason).result is Ok,
    ensures
        agree_on(
            operation_uncertain(r, epoch, session_id, incarnation, operation_id, reason).state,
            operation_uncertain(s, epoch, session_id, incarnation, operation_id, reason).state,
            session_id,
        ),
{
}

proof fn lemma_operation_completed_alone(
    r: RegistryModel,
    s: RegistryModel,
    epoch: Seq<char>,
    session_id: Seq<char>,
    incarnation: u64,
    operation_id: Seq<char>,
    kind: SessionOperationKind,
)
    requires
        agree_on(r, s, session_id),
        operation_completed(r, epoch, session_id, incarnation, operation_id, kind).result is Ok,
        operation_completed(s, epoch, session_id, incarnation, operation_id, kind).result is Ok,
    ensures
        agree_on(
            operation_completed(r, epoch, session_id, incarnation, operation_id, kind).state,
            operation_completed(s, epoch, session_id, incarnation, operation_id, kind).state,
            session_id,
        ),
{
}

proof fn lemma_control_completed_alone(
    r: RegistryModel,
    s: RegistryModel,
    epoch: Seq<char>,
    session_id: Seq<char>,
    incarnation: u64,
    operation_id: Seq<char>,
    kind: SessionOperationKind,
    key: Seq<char>,
    update: JsonModel,
)
    requires
        agree_on(r, s, session_id),
        control_completed(
            r,
            epoch,
            session_id,
            incarnation,
            operation_id,
            kind,
            key,
            update,
        ).result is Ok,
        control_completed(
            s,
            epoch,
            session_id,
            incarnation,
            operation_id,
            kind,
            key,
            update,
        ).result is Ok,
    ensures
        agree_on(
            control_completed(
                r,
                epoch,
                session_id,
                incarnation,
                operation_id,
                kind,
                key,
                update,
            ).state,
            control_completed(
                s,
                epoch,
                session_id,
                incarnation,
                operation_id,
                kind,
                key,
                update,
            ).state,
            session_id,
        ),
{
}

proof fn lemma_operation_failed_alone(
    r: RegistryModel,
    s: RegistryModel,
    epoch: Seq<char>,
    session_id: Seq<char>,
    incarnation: u64,
    operation_id: Seq<char>,
    kind: SessionOperationKind,
)
    requires
        agree_on(r, s, session_id),
        operation_failed(r, epoch, session_id, incarnation, operation_id, kind).result is Ok,
        operation_failed(s, epoch, session_id, incarnation, operation_id, kind).result is Ok,
    ensures
        agree_on(
            operation_failed(r, epoch, session_id, incarnation, operation_id, kind).state,
            operation_failed(s, epoch, session_id, incarnation, operation_id, kind).state,
            session_id,
        ),
{
}

proof fn lemma_session_closed_alone(
    r: RegistryModel,
    s: RegistryModel,
    epoch: Seq<char>,
    session_id: Seq<char>,
    incarnation: u64,
    operation_id: Seq<char>,
)
    requires
        agree_on(r, s, session_id),
        session_closed(r, epoch, session_id, incarnation, operation_id).result is Ok,
        session_closed(s, epoch, session_id, incarnation, operation_id).result is Ok,
    ensures
        agree_on(
            session_closed(r, epoch, session_id, incarnation, operation_id).state,
            session_closed(s, epoch, session_id, incarnation, operation_id).state,
            session_id,
        ),
{
}

/// What a transition makes of its session depends on that session alone, as
/// long as the transition is not refused.
#[verifier::spinoff_prover]
#[verifier::rlimit(50)]
pub proof fn law_session_decides_for_itself(
    r: RegistryModel,
    s: RegistryModel,
    t: Transition,
    session_id: Seq<char>,
)
    requires
        owner_of(t) matches Some((id, _)) && id == session_id,
        agree_on(r, s, session_id),
        !outcome(r, t).refused,
        !outcome(s, t).refused,
    ensures
        agree_on(outcome(r, t).state, outcome(s, t).state, session_id),
{
    reveal(outcome);
    match t {
        Transition::StartReload {
            epoch,
            session_id,
            incarnation,
            operation_id,
            kind,
            history_admits,
        } => {
            lemma_reload_started_alone(
                r,
                s,
                epoch,
                session_id,
                incarnation,
                operation_id,
                kind,
                history_admits,
            );
        },
        Transition::AppendCandidate { epoch, session_id, incarnation, update } => {
            lemma_candidate_appended_alone(r, s, epoch, session_id, incarnation, update);
        },
        Transition::EndReload { epoch, session_id, incarnation, operation_id, response } => {
            lemma_reload_ended_alone(r, s, epoch, session_id, incarnation, operation_id, response);
        },
        Transition::CompleteAttachment {
            epoch,
            session_id,
            incarnation,
            operation_id,
            kind,
            response,
        } => {
            lemma_attachment_completed_alone(
                r,
                s,
                epoch,
                session_id,
                incarnation,
                operation_id,
                kind,
                response,
            );
        },
        Transition::FailAttachment { epoch, session_id, incarnation, operation_id, kind } => {
            lemma_attachment_failed_alone(r, s, epoch, session_id, incarnation, operation_id, kind);
        },
        Transition::Synchronize { epoch, session_id, incarnation, response, replay } => {
            lemma_synchronized_alone(r, s, epoch, session_id, incarnation, response, replay);
        },
        Transition::AdmitTurn {
            epoch,
            session_id,
            incarnation,
            client_intent_id,
            checked,
            started,
        } => {
            lemma_turn_admitted_alone(
                r,
                s,
                epoch,
                session_id,
                incarnation,
                client_intent_id,
                checked,
                started,
            );
        },
        Transition::StartPrompt { epoch, session_id, incarnation, operation_id, prompt } => {
            lemma_prompt_started_alone(r, s, epoch, session_id, incarnation, operation_id, prompt);
        },
        Transition::AppendUpdate { epoch, session_id, incarnation, update } => {
            lemma_update_appended_alone(r, s, epoch, session_id, incarnation, update);
        },
        Transition::UpdateControl { epoch, session_id, incarnation, key, update } => {
            lemma_control_updated_alone(r, s, epoch, session_id, incarnation, key, update);
        },
        Transition::RequestCancel { epoch, session_id, incarnation } => {
            lemma_cancel_requested_alone(r, s, epoch, session_id, incarnation);
        },
        Transition::EndTurn { epoch, session_id, incarnation, operation_id, uncertain } => {
            let lifecycle = if uncertain {
                Some(SessionLifecycle::Uncertain)
            } else {
                None
            };
            lemma_turn_ended_alone(r, s, epoch, session_id, incarnation, operation_id, lifecycle);
        },
        Transition::AskPermission { epoch, session_id, incarnation, interaction_id, request } => {
            lemma_permission_asked_alone(
                r,
                s,
                epoch,
                session_id,
                incarnation,
                interaction_id,
                request,
            );
        },
        Transition::ResolvePermission { epoch, session_id, incarnation, interaction_id } => {
            lemma_permission_resolved_alone(r, s, epoch, session_id, incarnation, interaction_id);
        },
        Transition::BeginPermission {
            epoch,
            session_id,
            incarnation,
            interaction_id,
            operation_id,
        } => {
            lemma_permission_response_begun_alone(
                r,
                s,
                epoch,
                session_id,
                incarnation,
                interaction_id,
                operation_id,
            );
        },
        Transition::CompletePermission {
            epoch,
            session_id,
            incarnation,
            interaction_id,
            operation_id,
        } => {
            lemma_permission_response_completed_alone(
                r,
                s,
                epoch,
                session_id,
                incarnation,
                interaction_id,
                operation_id,
            );
        },
        Transition::AskElicitation { epoch, scope, interaction_id, request } => {
            lemma_elicitation_asked_alone(r, s, epoch, scope, interaction_id, request);
        },
        Transition::ResolveElicitation { epoch, scope, interaction_id, accepted_url_id } => {
            lemma_elicitation_resolved_alone(r, s, epoch, scope, interaction_id, accepted_url_id);
        },
        Transition::BeginElicitation { epoch, scope, interaction_id, operation_id } => {
            lemma_elicitation_response_begun_alone(
                r,
                s,
                epoch,
                scope,
                interaction_id,
                operation_id,
            );
        },
        Transition::CompleteElicitation {
            epoch,
            scope,
            interaction_id,
            operation_id,
            accepted_url_id,
        } => {
            lemma_elicitation_response_completed_alone(
                r,
                s,
                epoch,
                scope,
                interaction_id,
                operation_id,
                accepted_url_id,
            );
        },
        Transition::SettleFlow { epoch, scope, elicitation_id, registration_id, status } => {
            lemma_registration_settled_alone(
                r,
                s,
                epoch,
                scope,
                elicitation_id,
                registration_id,
                status,
            );
        },
        Transition::UpsertTerminal { epoch, session_id, incarnation, terminal_id, terminal } => {
            lemma_terminal_upserted_alone(
                r,
                s,
                epoch,
                session_id,
                incarnation,
                terminal_id,
                terminal,
            );
        },
        Transition::StartOperation {
            epoch,
            session_id,
            incarnation,
            operation_id,
            kind,
            stage,
            history_admits,
        } => {
            lemma_exclusive_started_alone(
                r,
                s,
                epoch,
                session_id,
                incarnation,
                operation_id,
                kind,
                stage,
                history_admits,
            );
        },
        Transition::StartDelete {
            epoch,
            session_id,
            incarnation,
            operation_id,
            history_admits,
        } => {
            lemma_delete_started_alone(
                r,
                s,
                epoch,
                session_id,
                incarnation,
                operation_id,
                history_admits,
            );
        },
        Transition::StartDirectDelete {
            epoch,
            session_id,
            incarnation,
            operation_id,
            history_admits,
        } => {
            lemma_direct_delete_started_alone(
                r,
                s,
                epoch,
                session_id,
                incarnation,
                operation_id,
                history_admits,
            );
        },
        Transition::DeleteClosed { epoch, session_id, incarnation, operation_id } => {
            lemma_delete_closed_alone(r, s, epoch, session_id, incarnation, operation_id);
        },
        Transition::CompleteDelete { epoch, session_id, incarnation, operation_id } => {
            lemma_delete_completed_alone(r, s, epoch, session_id, incarnation, operation_id);
        },
        Transition::MarkUncertain { epoch, session_id, incarnation, operation_id, reason } => {
            lemma_operation_uncertain_alone(
                r,
                s,
                epoch,
                session_id,
                incarnation,
                operation_id,
                reason,
            );
        },
        Transition::CompleteOperation { epoch, session_id, incarnation, operation_id, kind } => {
            lemma_operation_completed_alone(
                r,
                s,
                epoch,
                session_id,
                incarnation,
                operation_id,
                kind,
            );
        },
        Transition::CompleteControl {
            epoch,
            session_id,
            incarnation,
            operation_id,
            kind,
            key,
            update,
        } => {
            lemma_control_completed_alone(
                r,
                s,
                epoch,
                session_id,
                incarnation,
                operation_id,
                kind,
                key,
                update,
            );
        },
        Transition::FailOperation { epoch, session_id, incarnation, operation_id, kind } => {
            lemma_operation_failed_alone(r, s, epoch, session_id, incarnation, operation_id, kind);
        },
        Transition::Close { epoch, session_id, incarnation, operation_id } => {
            lemma_session_closed_alone(r, s, epoch, session_id, incarnation, operation_id);
        },
        _ => {},
    }
}

/// Transitions of two sessions that are there may come in either order, as long
/// as none of them is refused: every session is the same afterwards.
pub proof fn law_sessions_may_move_in_either_order(r: RegistryModel, a: Transition, b: Transition)
    requires
        owner_of(a) is Some,
        owner_of(b) is Some,
        (owner_of(a)->0).0 != (owner_of(b)->0).0,
        !outcome(r, a).refused,
        !outcome(r, b).refused,
        !outcome(outcome(r, a).state, b).refused,
        !outcome(outcome(r, b).state, a).refused,
    ensures
        outcome(outcome(r, a).state, b).state.sessions == outcome(
            outcome(r, b).state,
            a,
        ).state.sessions,
{
    let first = outcome(r, a).state;
    let second = outcome(r, b).state;
    let left = outcome(first, b).state;
    let right = outcome(second, a).state;
    let one = (owner_of(a)->0).0;
    let two = (owner_of(b)->0).0;
    law_other_sessions_stay(r, a, two);
    law_other_sessions_stay(r, b, one);
    law_other_sessions_stay(first, b, one);
    law_other_sessions_stay(second, a, two);
    lemma_transition_moves(r, a);
    lemma_transition_moves(r, b);
    law_session_decides_for_itself(r, second, a, one);
    law_session_decides_for_itself(r, first, b, two);
    assert forall|id: Seq<char>|
        #[trigger] left.sessions.contains_key(id) == right.sessions.contains_key(id) && (
        left.sessions.contains_key(id) ==> left.sessions[id] == right.sessions[id]) by {
        if id != one && id != two {
            law_other_sessions_stay(r, a, id);
            law_other_sessions_stay(r, b, id);
            law_other_sessions_stay(first, b, id);
            law_other_sessions_stay(second, a, id);
        }
    }
    assert(left.sessions =~= right.sessions);
}

} // verus!
