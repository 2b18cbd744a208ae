//! No operation identifier is in use in two places.
use crate::fold::controls_of;
use crate::json::JsonModel;
use crate::laws::{
    consistent, lemma_release, lemma_transition_moves, outcome, subject_of, Transition,
};
use crate::registry::attachment::{
    attachment_completed, attachment_failed, attachment_started, candidate_appended, opened,
    reload_ended, reload_started, synchronized,
};
use crate::registry::interactions::{
    elicitation_asked, elicitation_resolved, elicitation_response_begun, permission_asked,
    permission_resolved, permission_response_begun, permission_response_completed,
    registration_settled, terminal_upserted,
};
use crate::registry::operations::{
    control_completed, delete_closed, delete_completed, exclusive_started, operation_completed,
    operation_failed, operation_uncertain, session_closed,
};
use crate::registry::turns::{
    cancel_requested, control_updated, prompt_started, turn_admitted, turn_ended, update_appended,
    AdmissionModel, StartedModel,
};
use crate::registry::{empty_registry, uses_operation, RegistryModel};
use crate::runtime_types::{MirrorError, SessionLifecycle, SessionOperationKind, UrlFlowStatus};
use crate::session_live::responds;
use vstd::prelude::*;

verus! {

/// Whether an identifier is used neither by another session nor by a response
/// outside all sessions.
pub open spec fn free_elsewhere(
    r: RegistryModel,
    operation_id: Seq<char>,
    session_id: Seq<char>,
) -> bool {
    &&& forall|other: Seq<char>|
        other != session_id && #[trigger] r.sessions.contains_key(other) ==> !uses_operation(
            r.sessions[other],
            operation_id,
            None,
        )
    &&& !responds(r.request_elicitations, operation_id)
}

/// Whether the responses outside all sessions have taken up no identifier but
/// such that no session uses.
pub open spec fn claims_free_outside(r: RegistryModel, next: RegistryModel) -> bool {
    forall|operation_id: Seq<char>| #[trigger]
        responds(next.request_elicitations, operation_id) ==> responds(
            r.request_elicitations,
            operation_id,
        ) || forall|other: Seq<char>| #[trigger]
            r.sessions.contains_key(other) ==> !uses_operation(
                r.sessions[other],
                operation_id,
                None,
            )
}

/// Whether a session has taken up no identifier but such that were free.
pub open spec fn claims_free(
    r: RegistryModel,
    next: RegistryModel,
    session_id: Seq<char>,
) -> bool {
    forall|operation_id: Seq<char>| #[trigger]
        uses_operation(next.sessions[session_id], operation_id, None) ==> (r.sessions.contains_key(
            session_id,
        ) && uses_operation(r.sessions[session_id], operation_id, None)) || free_elsewhere(
            r,
            operation_id,
            session_id,
        )
}

/// Whether nothing happened, or a session has taken up no identifier but such
/// that were free.
pub open spec fn stays_or_claims(
    r: RegistryModel,
    next: RegistryModel,
    session_id: Seq<char>,
) -> bool {
    next == r || claims_free(r, next, session_id)
}

proof fn lemma_opened_claims(
    r: RegistryModel,
    epoch: Seq<char>,
    session_id: Seq<char>,
    cwd: Seq<char>,
    session: JsonModel,
    control_state: Map<Seq<char>, JsonModel>,
)
    requires
        consistent(r),
    ensures
        stays_or_claims(
            r,
            opened(r, epoch, session_id, cwd, session, control_state).state,
            session_id,
        ),
{
}

proof fn lemma_attachment_started_claims(
    r: RegistryModel,
    epoch: Seq<char>,
    session_id: Seq<char>,
    cwd: Seq<char>,
    operation_id: Seq<char>,
    kind: SessionOperationKind,
)
    requires
        consistent(r),
    ensures
        stays_or_claims(
            r,
            attachment_started(r, epoch, session_id, cwd, operation_id, kind).state,
            session_id,
        ),
{
}

proof fn lemma_reload_started_claims(
    r: RegistryModel,
    epoch: Seq<char>,
    session_id: Seq<char>,
    incarnation: u64,
    operation_id: Seq<char>,
    kind: SessionOperationKind,
    history_admits: bool,
)
    requires
        consistent(r),
    ensures
        stays_or_claims(
            r,
            reload_started(
                r,
                epoch,
                session_id,
                incarnation,
                operation_id,
                kind,
                history_admits,
            ).state,
            session_id,
        ),
{
}

proof fn lemma_candidate_appended_claims(
    r: RegistryModel,
    epoch: Seq<char>,
    session_id: Seq<char>,
    incarnation: u64,
    update: JsonModel,
)
    requires
        consistent(r),
    ensures
        stays_or_claims(
            r,
            candidate_appended(r, epoch, session_id, incarnation, update).state,
            session_id,
        ),
{
}

proof fn lemma_reload_ended_claims(
    r: RegistryModel,
    epoch: Seq<char>,
    session_id: Seq<char>,
    incarnation: u64,
    operation_id: Seq<char>,
    response: Option<JsonModel>,
)
    requires
        consistent(r),
    ensures
        stays_or_claims(
            r,
            reload_ended(r, epoch, session_id, incarnation, operation_id, response).state,
            session_id,
        ),
{
}

proof fn lemma_attachment_completed_claims(
    r: RegistryModel,
    epoch: Seq<char>,
    session_id: Seq<char>,
    incarnation: u64,
    operation_id: Seq<char>,
    kind: SessionOperationKind,
    response: JsonModel,
)
    requires
        consistent(r),
    ensures
        stays_or_claims(
            r,
            attachment_completed(
                r,
                epoch,
                session_id,
                incarnation,
                operation_id,
                kind,
                response,
            ).state,
            session_id,
        ),
{
}

proof fn lemma_attachment_failed_claims(
    r: RegistryModel,
    epoch: Seq<char>,
    session_id: Seq<char>,
    incarnation: u64,
    operation_id: Seq<char>,
    kind: SessionOperationKind,
)
    requires
        consistent(r),
    ensures
        stays_or_claims(
            r,
            attachment_failed(r, epoch, session_id, incarnation, operation_id, kind).state,
            session_id,
        ),
{
}

proof fn lemma_synchronized_claims(
    r: RegistryModel,
    epoch: Seq<char>,
    session_id: Seq<char>,
    incarnation: u64,
    response: JsonModel,
    replay: Seq<JsonModel>,
)
    requires
        consistent(r),
    ensures
        stays_or_claims(
            r,
            synchronized(r, epoch, session_id, incarnation, response, replay).state,
            session_id,
        ),
{
}

proof fn lemma_turn_admitted_claims(
    r: RegistryModel,
    epoch: Seq<char>,
    session_id: Seq<char>,
    incarnation: u64,
    client_intent_id: Seq<char>,
    checked: Result<Option<AdmissionModel>, MirrorError>,
    started: Result<StartedModel, MirrorError>,
)
    requires
        consistent(r),
        started matches Ok(turn) ==> (turn.turn.execution matches Some(execution)
            ==> execution.rpc_operation_id == client_intent_id),
    ensures
        stays_or_claims(
            r,
            turn_admitted(
                r,
                epoch,
                session_id,
                incarnation,
                client_intent_id,
                checked,
                started,
            ).state,
            session_id,
        ),
{
}

proof fn lemma_prompt_started_claims(
    r: RegistryModel,
    epoch: Seq<char>,
    session_id: Seq<char>,
    incarnation: u64,
    operation_id: Seq<char>,
    prompt: Seq<JsonModel>,
)
    requires
        consistent(r),
    ensures
        stays_or_claims(
            r,
            prompt_started(r, epoch, session_id, incarnation, operation_id, prompt).state,
            session_id,
        ),
{
}

proof fn lemma_update_appended_claims(
    r: RegistryModel,
    epoch: Seq<char>,
    session_id: Seq<char>,
    incarnation: u64,
    update: JsonModel,
)
    requires
        consistent(r),
    ensures
        stays_or_claims(
            r,
            update_appended(r, epoch, session_id, incarnation, update).state,
            session_id,
        ),
{
}

proof fn lemma_control_updated_claims(
    r: RegistryModel,
    epoch: Seq<char>,
    session_id: Seq<char>,
    incarnation: u64,
    key: Seq<char>,
    update: JsonModel,
)
    requires
        consistent(r),
    ensures
        stays_or_claims(
            r,
            control_updated(r, epoch, session_id, incarnation, key, update).state,
            session_id,
        ),
{
}

proof fn lemma_cancel_requested_claims(
    r: RegistryModel,
    epoch: Seq<char>,
    session_id: Seq<char>,
    incarnation: u64,
)
    requires
        consistent(r),
    ensures
        stays_or_claims(r, cancel_requested(r, epoch, session_id, incarnation).state, session_id),
{
}

proof fn lemma_turn_ended_claims(
    r: RegistryModel,
    epoch: Seq<char>,
    session_id: Seq<char>,
    incarnation: u64,
    operation_id: Seq<char>,
    lifecycle: Option<SessionLifecycle>,
)
    requires
        consistent(r),
    ensures
        stays_or_claims(
            r,
            turn_ended(r, epoch, session_id, incarnation, operation_id, lifecycle).state,
            session_id,
        ),
{
}

proof fn lemma_permission_asked_claims(
    r: RegistryModel,
    epoch: Seq<char>,
    session_id: Seq<char>,
    incarnation: u64,
    interaction_id: Seq<char>,
    request: JsonModel,
)
    requires
        consistent(r),
    ensures
        stays_or_claims(
            r,
            permission_asked(r, epoch, session_id, incarnation, interaction_id, request).state,
            session_id,
        ),
{
}

proof fn lemma_permission_resolved_claims(
    r: RegistryModel,
    epoch: Seq<char>,
    session_id: Seq<char>,
    incarnation: u64,
    interaction_id: Seq<char>,
)
    requires
        consistent(r),
    ensures
        stays_or_claims(
            r,
            permission_resolved(r, epoch, session_id, incarnation, interaction_id).state,
            session_id,
        ),
{
}

proof fn lemma_permission_response_begun_claims(
    r: RegistryModel,
    epoch: Seq<char>,
    session_id: Seq<char>,
    incarnation: u64,
    interaction_id: Seq<char>,
    operation_id: Seq<char>,
)
    requires
        consistent(r),
    ensures
        stays_or_claims(
            r,
            permission_response_begun(
                r,
                epoch,
                session_id,
                incarnation,
                interaction_id,
                operation_id,
            ).state,
            session_id,
        ),
{
}

proof fn lemma_permission_response_completed_claims(
    r: RegistryModel,
    epoch: Seq<char>,
    session_id: Seq<char>,
    incarnation: u64,
    interaction_id: Seq<char>,
    operation_id: Seq<char>,
)
    requires
        consistent(r),
    ensures
        stays_or_claims(
            r,
            permission_response_completed(
                r,
                epoch,
                session_id,
                incarnation,
                interaction_id,
                operation_id,
            ).state,
            session_id,
        ),
{
}

proof fn lemma_elicitation_asked_claims(
    r: RegistryModel,
    epoch: Seq<char>,
    scope: Option<(Seq<char>, u64)>,
    interaction_id: Seq<char>,
    request: JsonModel,
)
    requires
        consistent(r),
    ensures
        match scope {
            Some((session_id, _)) => stays_or_claims(
                r,
                elicitation_asked(r, epoch, scope, interaction_id, request).state,
                session_id,
            ),
            None => claims_free_outside(
                r,
                elicitation_asked(r, epoch, scope, interaction_id, request).state,
            ),
        },
{
}

proof fn lemma_elicitation_resolved_claims(
    r: RegistryModel,
    epoch: Seq<char>,
    scope: Option<(Seq<char>, u64)>,
    interaction_id: Seq<char>,
    accepted_url_id: Option<Seq<char>>,
)
    requires
        consistent(r),
    ensures
        match scope {
            Some((session_id, _)) => stays_or_claims(
                r,
                elicitation_resolved(r, epoch, scope, interaction_id, accepted_url_id).state,
                session_id,
            ),
            None => claims_free_outside(
                r,
                elicitation_resolved(r, epoch, scope, interaction_id, accepted_url_id).state,
            ),
        },
{
}

proof fn lemma_elicitation_response_begun_claims(
    r: RegistryModel,
    epoch: Seq<char>,
    scope: Option<(Seq<char>, u64)>,
    interaction_id: Seq<char>,
    operation_id: Seq<char>,
)
    requires
        consistent(r),
    ensures
        match scope {
            Some((session_id, _)) => stays_or_claims(
                r,
                elicitation_response_begun(r, epoch, scope, interaction_id, operation_id).state,
                session_id,
            ),
            None => claims_free_outside(
                r,
                elicitation_response_begun(r, epoch, scope, interaction_id, operation_id).state,
            ),
        },
{
}

proof fn lemma_registration_settled_claims(
    r: RegistryModel,
    epoch: Seq<char>,
    scope: Option<(Seq<char>, u64)>,
    elicitation_id: Seq<char>,
    registration_id: Seq<char>,
    status: UrlFlowStatus,
)
    requires
        consistent(r),
    ensures
        match scope {
            Some((session_id, _)) => stays_or_claims(
                r,
                registration_settled(
                    r,
                    epoch,
                    scope,
                    elicitation_id,
                    registration_id,
                    status,
                ).state,
                session_id,
            ),
            None => claims_free_outside(
                r,
                registration_settled(
                    r,
                    epoch,
                    scope,
                    elicitation_id,
                    registration_id,
                    status,
                ).state,
            ),
        },
{
}

proof fn lemma_terminal_upserted_claims(
    r: RegistryModel,
    epoch: Seq<char>,
    session_id: Seq<char>,
    incarnation: u64,
    terminal_id: Seq<char>,
    terminal: JsonModel,
)
    requires
        consistent(r),
    ensures
        stays_or_claims(
            r,
            terminal_upserted(r, epoch, session_id, incarnation, terminal_id, terminal).state,
            session_id,
        ),
{
}

proof fn lemma_exclusive_started_claims(
    r: RegistryModel,
    epoch: Seq<char>,
    session_id: Seq<char>,
    incarnation: u64,
    operation_id: Seq<char>,
    kind: SessionOperationKind,
    stage: Seq<char>,
    history_admits: bool,
)
    requires
        consistent(r),
    ensures
        stays_or_claims(
            r,
            exclusive_started(
                r,
                epoch,
                session_id,
                incarnation,
                operation_id,
                kind,
                stage,
                history_admits,
            ).state,
            session_id,
        ),
{
}

proof fn lemma_delete_closed_claims(
    r: RegistryModel,
    epoch: Seq<char>,
    session_id: Seq<char>,
    incarnation: u64,
    operation_id: Seq<char>,
)
    requires
        consistent(r),
    ensures
        stays_or_claims(
            r,
            delete_closed(r, epoch, session_id, incarnation, operation_id).state,
            session_id,
        ),
{
}

proof fn lemma_delete_completed_claims(
    r: RegistryModel,
    epoch: Seq<char>,
    session_id: Seq<char>,
    incarnation: u64,
    operation_id: Seq<char>,
)
    requires
        consistent(r),
    ensures
        stays_or_claims(
            r,
            delete_completed(r, epoch, session_id, incarnation, operation_id).state,
            session_id,
        ),
{
}

proof fn lemma_operation_uncertain_claims(
    r: RegistryModel,
    epoch: Seq<char>,
    session_id: Seq<char>,
    incarnation: u64,
    operation_id: Seq<char>,
    reason: Seq<char>,
)
    requires
        consistent(r),
    ensures
        stays_or_claims(
            r,
            operation_uncertain(r, epoch, session_id, incarnation, operation_id, reason).state,
            session_id,
        ),
{
}

proof fn lemma_operation_completed_claims(
    r: RegistryModel,
    epoch: Seq<char>,
    session_id: Seq<char>,
    incarnation: u64,
    operation_id: Seq<char>,
    kind: SessionOperationKind,
)
    requires
        consistent(r),
    ensures
        stays_or_claims(
            r,
            operation_completed(r, epoch, session_id, incarnation, operation_id, kind).state,
            session_id,
        ),
{
}

proof fn lemma_control_completed_claims(
    r: RegistryModel,
    epoch: Seq<char>,
    session_id: Seq<char>,
    incarnation: u64,
    operation_id: Seq<char>,
    kind: SessionOperationKind,
    key: Seq<char>,
    update: JsonModel,
)
    requires
        consistent(r),
    ensures
        stays_or_claims(
            r,
            control_completed(
                r,
                epoch,
                session_id,
                incarnation,
                operation_id,
                kind,
                key,
                update,
            ).state,
            session_id,
        ),
{
}

proof fn lemma_operation_failed_claims(
    r: RegistryModel,
    epoch: Seq<char>,
    session_id: Seq<char>,
    incarnation: u64,
    operation_id: Seq<char>,
    kind: SessionOperationKind,
)
    requires
        consistent(r),
    ensures
        stays_or_claims(
            r,
            operation_failed(r, epoch, session_id, incarnation, operation_id, kind).state,
            session_id,
        ),
{
}

proof fn lemma_session_closed_claims(
    r: RegistryModel,
    epoch: Seq<char>,
    session_id: Seq<char>,
    incarnation: u64,
    operation_id: Seq<char>,
)
    requires
        consistent(r),
    ensures
        stays_or_claims(
            r,
            session_closed(r, epoch, session_id, incarnation, operation_id).state,
            session_id,
        ),
{
}

/// Whether a turn that is admitted runs under the identifier that it was asked
/// for with.
pub open spec fn runs_as_asked(t: Transition) -> bool {
    t matches Transition::AdmitTurn { client_intent_id, started, .. } ==> (started matches Ok(turn)
        ==> (turn.turn.execution matches Some(execution) ==> execution.rpc_operation_id
        == client_intent_id))
}

#[verifier::spinoff_prover]
#[verifier::rlimit(50)]
proof fn lemma_transition_claims(r: RegistryModel, t: Transition)
    requires
        consistent(r),
        runs_as_asked(t),
        !(t is Release),
    ensures
        match subject_of(t) {
            Some(session_id) => stays_or_claims(r, outcome(r, t).state, session_id),
            None => claims_free_outside(r, outcome(r, t).state),
        },
{
    reveal(outcome);
    match t {
        Transition::Open { epoch, session_id, cwd, session, control_state } => {
            lemma_opened_claims(r, epoch, session_id, cwd, session, control_state);
        },
        Transition::Fork {
            epoch,
            session_id,
            cwd,
            session,
            source_id,
            source_incarnation,
            replay,
        } => {
            let control_state = match replay {
                Some(replay) => controls_of(replay),
                None => Map::empty(),
            };
            lemma_opened_claims(r, epoch, session_id, cwd, session, control_state);
        },
        Transition::StartAttachment { epoch, session_id, cwd, operation_id, kind } => {
            lemma_attachment_started_claims(r, epoch, session_id, cwd, operation_id, kind);
        },
        Transition::StartReload {
            epoch,
            session_id,
            incarnation,
            operation_id,
            kind,
            history_admits,
        } => {
            lemma_reload_started_claims(
                r,
                epoch,
                session_id,
                incarnation,
                operation_id,
                kind,
                history_admits,
            );
        },
        Transition::AppendCandidate { epoch, session_id, incarnation, update } => {
            lemma_candidate_appended_claims(r, epoch, session_id, incarnation, update);
        },
        Transition::EndReload { epoch, session_id, incarnation, operation_id, response } => {
            lemma_reload_ended_claims(r, epoch, session_id, incarnation, operation_id, response);
        },
        Transition::CompleteAttachment {
            epoch,
            session_id,
            incarnation,
            operation_id,
            kind,
            response,
        } => {
            lemma_attachment_completed_claims(
                r,
                epoch,
                session_id,
                incarnation,
                operation_id,
                kind,
                response,
            );
        },
        Transition::FailAttachment { epoch, session_id, incarnation, operation_id, kind } => {
            lemma_attachment_failed_claims(r, epoch, session_id, incarnation, operation_id, kind);
        },
        Transition::Synchronize { epoch, session_id, incarnation, response, replay } => {
            lemma_synchronized_claims(r, epoch, session_id, incarnation, response, replay);
        },
        Transition::AdmitTurn {
            epoch,
            session_id,
            incarnation,
            client_intent_id,
            checked,
            started,
        } => {
            lemma_turn_admitted_claims(
                r,
                epoch,
                session_id,
                incarnation,
                client_intent_id,
                checked,
                started,
            );
        },
        Transition::StartPrompt { epoch, session_id, incarnation, operation_id, prompt } => {
            lemma_prompt_started_claims(r, epoch, session_id, incarnation, operation_id, prompt);
        },
        Transition::AppendUpdate { epoch, session_id, incarnation, update } => {
            lemma_update_appended_claims(r, epoch, session_id, incarnation, update);
        },
        Transition::UpdateControl { epoch, session_id, incarnation, key, update } => {
            lemma_control_updated_claims(r, epoch, session_id, incarnation, key, update);
        },
        Transition::RequestCancel { epoch, session_id, incarnation } => {
            lemma_cancel_requested_claims(r, epoch, session_id, incarnation);
        },
        Transition::EndTurn { epoch, session_id, incarnation, operation_id, uncertain } => {
            lemma_turn_ended_claims(
                r,
                epoch,
                session_id,
                incarnation,
                operation_id,
                if uncertain {
                    Some(SessionLifecycle::Uncertain)
                } else {
                    None
                },
            );
        },
        Transition::AskPermission { epoch, session_id, incarnation, interaction_id, request } => {
            lemma_permission_asked_claims(
                r,
                epoch,
                session_id,
                incarnation,
                interaction_id,
                request,
            );
        },
        Transition::ResolvePermission { epoch, session_id, incarnation, interaction_id } => {
            lemma_permission_resolved_claims(r, epoch, session_id, incarnation, interaction_id);
        },
        Transition::BeginPermission {
            epoch,
            session_id,
            incarnation,
            interaction_id,
            operation_id,
        } => {
            lemma_permission_response_begun_claims(
                r,
                epoch,
                session_id,
                incarnation,
                interaction_id,
                operation_id,
            );
        },
        Transition::CompletePermission {
            epoch,
            session_id,
            incarnation,
            interaction_id,
            operation_id,
        } => {
            lemma_permission_response_completed_claims(
                r,
                epoch,
                session_id,
                incarnation,
                interaction_id,
                operation_id,
            );
        },
        Transition::AskElicitation { epoch, scope, interaction_id, request } => {
            lemma_elicitation_asked_claims(r, epoch, scope, interaction_id, request);
        },
        Transition::ResolveElicitation { epoch, scope, interaction_id, accepted_url_id } => {
            lemma_elicitation_resolved_claims(r, epoch, scope, interaction_id, accepted_url_id);
        },
        Transition::BeginElicitation { epoch, scope, interaction_id, operation_id } => {
            lemma_elicitation_response_begun_claims(
                r,
                epoch,
                scope,
                interaction_id,
                operation_id,
            );
        },
        Transition::CompleteElicitation { epoch, scope, interaction_id, accepted_url_id, .. } => {
            lemma_elicitation_resolved_claims(r, epoch, scope, interaction_id, accepted_url_id);
        },
        Transition::SettleFlow { epoch, scope, elicitation_id, registration_id, status } => {
            lemma_registration_settled_claims(
                r,
                epoch,
                scope,
                elicitation_id,
                registration_id,
                status,
            );
        },
        Transition::UpsertTerminal { epoch, session_id, incarnation, terminal_id, terminal } => {
            lemma_terminal_upserted_claims(
                r,
                epoch,
                session_id,
                incarnation,
                terminal_id,
                terminal,
            );
        },
        Transition::StartOperation {
            epoch,
            session_id,
            incarnation,
            operation_id,
            kind,
            stage,
            history_admits,
        } => {
            lemma_exclusive_started_claims(
                r,
                epoch,
                session_id,
                incarnation,
                operation_id,
                kind,
                stage,
                history_admits,
            );
        },
        Transition::StartDelete { epoch, session_id, incarnation, operation_id, history_admits } => {
            let kind = SessionOperationKind::Delete;
            lemma_exclusive_started_claims(
                r,
                epoch,
                session_id,
                incarnation,
                operation_id,
                kind,
                "closing"@,
                history_admits,
            );
            lemma_exclusive_started_claims(
                r,
                epoch,
                session_id,
                incarnation,
                operation_id,
                kind,
                "deleting"@,
                history_admits,
            );
        },
        Transition::StartDirectDelete {
            epoch,
            session_id,
            incarnation,
            operation_id,
            history_admits,
        } => {
            lemma_exclusive_started_claims(
                r,
                epoch,
                session_id,
                incarnation,
                operation_id,
                SessionOperationKind::Delete,
                "deleting_active"@,
                history_admits,
            );
        },
        Transition::DeleteClosed { epoch, session_id, incarnation, operation_id } => {
            lemma_delete_closed_claims(r, epoch, session_id, incarnation, operation_id);
        },
        Transition::CompleteDelete { epoch, session_id, incarnation, operation_id } => {
            lemma_delete_completed_claims(r, epoch, session_id, incarnation, operation_id);
        },
        Transition::MarkUncertain { epoch, session_id, incarnation, operation_id, reason } => {
            lemma_operation_uncertain_claims(
                r,
                epoch,
                session_id,
                incarnation,
                operation_id,
                reason,
            );
        },
        Transition::CompleteOperation { epoch, session_id, incarnation, operation_id, kind } => {
            lemma_operation_completed_claims(
                r,
                epoch,
                session_id,
                incarnation,
                operation_id,
                kind,
            );
        },
        Transition::CompleteControl {
            epoch,
            session_id,
            incarnation,
            operation_id,
            kind,
            key,
            update,
        } => {
            lemma_control_completed_claims(
                r,
                epoch,
                session_id,
                incarnation,
                operation_id,
                kind,
                key,
                update,
            );
        },
        Transition::FailOperation { epoch, session_id, incarnation, operation_id, kind } => {
            lemma_operation_failed_claims(r, epoch, session_id, incarnation, operation_id, kind);
        },
        Transition::Close { epoch, session_id, incarnation, operation_id } => {
            lemma_session_closed_claims(r, epoch, session_id, incarnation, operation_id);
        },
        Transition::FinishCleanup { .. } => {},
        Transition::Release { .. } => {},
    }
}

/// Whether no operation identifier is in use in two places: in two sessions,
/// or in a session and for a response outside all sessions.
pub open spec fn identities_unique(r: RegistryModel) -> bool {
    &&& forall|a: Seq<char>, b: Seq<char>, operation_id: Seq<char>|
        a != b && r.sessions.contains_key(a) && r.sessions.contains_key(b) ==> !(
        #[trigger] uses_operation(r.sessions[a], operation_id, None) && #[trigger] uses_operation(
            r.sessions[b],
            operation_id,
            None,
        ))
    &&& forall|a: Seq<char>, operation_id: Seq<char>|
        r.sessions.contains_key(a) ==> !(#[trigger] uses_operation(
            r.sessions[a],
            operation_id,
            None,
        ) && responds(r.request_elicitations, operation_id))
}

/// No operation identifier is in use in two places: none is in an empty registry,
/// and no transition brings one to that.
pub proof fn law_operation_identities_stay_unique(r: RegistryModel, t: Transition)
    requires
        consistent(r),
        identities_unique(r),
        runs_as_asked(t),
    ensures
        identities_unique(outcome(r, t).state),
        forall|epoch: Seq<char>| identities_unique(#[trigger] empty_registry(epoch)),
{
    let next = outcome(r, t).state;
    if t is Release {
        lemma_release(r, t);
    } else {
        lemma_transition_claims(r, t);
        lemma_transition_moves(r, t);
        if next != r {
            assert forall|a: Seq<char>, b: Seq<char>, operation_id: Seq<char>|
                a != b && next.sessions.contains_key(a) && next.sessions.contains_key(
                    b,
                ) implies !(#[trigger] uses_operation(next.sessions[a], operation_id, None)
                && #[trigger] uses_operation(next.sessions[b], operation_id, None)) by {
                if uses_operation(next.sessions[a], operation_id, None) && uses_operation(
                    next.sessions[b],
                    operation_id,
                    None,
                ) {
                    if let Some(id) = subject_of(t) {
                        if a != id {
                            assert(r.sessions.contains_key(a));
                            assert(next.sessions[a] == r.sessions[a]);
                        }
                        if b != id {
                            assert(r.sessions.contains_key(b));
                            assert(next.sessions[b] == r.sessions[b]);
                        }
                    }
                }
            }
            assert forall|a: Seq<char>, operation_id: Seq<char>|
                next.sessions.contains_key(a) implies !(#[trigger] uses_operation(
                next.sessions[a],
                operation_id,
                None,
            ) && responds(next.request_elicitations, operation_id)) by {
                if uses_operation(next.sessions[a], operation_id, None) && responds(
                    next.request_elicitations,
                    operation_id,
                ) {
                    if let Some(id) = subject_of(t) {
                        if a != id {
                            assert(r.sessions.contains_key(a));
                            assert(next.sessions[a] == r.sessions[a]);
                        }
                    } else {
                        assert(r.sessions.contains_key(a));
                    }
                }
            }
        }
    }
}

} // verus!
