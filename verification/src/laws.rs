//! What holds of every transition of the registry.
use crate::fold::controls_of;
use crate::journal::{
    bumped, contiguous, journal_released, journal_suffix,
    law_release_and_retirement_keep_contiguous, lemma_covered_bound, lemma_suffix_content,
    last_payload, EntryModel,
};
use crate::json::JsonModel;
use crate::projection::{applied, changed, with_session};
use crate::registry::attachment::{
    attachment_completed, attachment_failed, attachment_started, candidate_appended, forked, opened,
    reload_ended, reload_started, synchronized,
};
use crate::registry::interactions::{
    elicitation_asked, elicitation_resolved, elicitation_response_begun,
    elicitation_response_completed, permission_asked, permission_resolved,
    permission_response_begun, permission_response_completed, registration_settled,
    terminal_upserted,
};
use crate::registry::operations::{
    cleanup_result, control_completed, delete_closed, delete_completed, delete_started,
    direct_delete_started, exclusive_started, operation_completed, operation_failed,
    operation_uncertain, session_closed,
};
use crate::registry::turns::{
    cancel_requested, control_updated, prompt_started, turn_admitted, turn_ended, update_appended,
    AdmissionModel, StartedModel,
};
use crate::registry::{
    empty_registry, is_published, published, published_session, with_owner, RegistryModel, Step,
};
use crate::runtime_types::{
    ChangeModel, DeltaModel, MirrorError, OwnerModel, SessionAdmission, SessionLifecycle,
    SessionOperationKind, SnapshotModel, UrlFlowModel, UrlFlowStatus,
};
use vstd::prelude::*;

verus! {

/// A transition of the registry with what it is given. A reservation is none:
/// it shows in a session before a change tells of it.
pub enum Transition {
    Open {
        epoch: Seq<char>,
        session_id: Seq<char>,
        cwd: Seq<char>,
        session: JsonModel,
        control_state: Map<Seq<char>, JsonModel>,
    },
    Fork {
        epoch: Seq<char>,
        session_id: Seq<char>,
        cwd: Seq<char>,
        session: JsonModel,
        source_id: Seq<char>,
        source_incarnation: u64,
        replay: Option<Seq<JsonModel>>,
    },
    StartAttachment {
        epoch: Seq<char>,
        session_id: Seq<char>,
        cwd: Seq<char>,
        operation_id: Seq<char>,
        kind: SessionOperationKind,
    },
    StartReload {
        epoch: Seq<char>,
        session_id: Seq<char>,
        incarnation: u64,
        operation_id: Seq<char>,
        kind: SessionOperationKind,
        history_admits: bool,
    },
    AppendCandidate { epoch: Seq<char>, session_id: Seq<char>, incarnation: u64, update: JsonModel },
    EndReload {
        epoch: Seq<char>,
        session_id: Seq<char>,
        incarnation: u64,
        operation_id: Seq<char>,
        response: Option<JsonModel>,
    },
    CompleteAttachment {
        epoch: Seq<char>,
        session_id: Seq<char>,
        incarnation: u64,
        operation_id: Seq<char>,
        kind: SessionOperationKind,
        response: JsonModel,
    },
    FailAttachment {
        epoch: Seq<char>,
        session_id: Seq<char>,
        incarnation: u64,
        operation_id: Seq<char>,
        kind: SessionOperationKind,
    },
    Synchronize {
        epoch: Seq<char>,
        session_id: Seq<char>,
        incarnation: u64,
        response: JsonModel,
        replay: Seq<JsonModel>,
    },
    AdmitTurn {
        epoch: Seq<char>,
        session_id: Seq<char>,
        incarnation: u64,
        client_intent_id: Seq<char>,
        checked: Result<Option<AdmissionModel>, MirrorError>,
        started: Result<StartedModel, MirrorError>,
    },
    StartPrompt {
        epoch: Seq<char>,
        session_id: Seq<char>,
        incarnation: u64,
        operation_id: Seq<char>,
        prompt: Seq<JsonModel>,
    },
    AppendUpdate { epoch: Seq<char>, session_id: Seq<char>, incarnation: u64, update: JsonModel },
    UpdateControl {
        epoch: Seq<char>,
        session_id: Seq<char>,
        incarnation: u64,
        key: Seq<char>,
        update: JsonModel,
    },
    RequestCancel { epoch: Seq<char>, session_id: Seq<char>, incarnation: u64 },
    EndTurn {
        epoch: Seq<char>,
        session_id: Seq<char>,
        incarnation: u64,
        operation_id: Seq<char>,
        uncertain: bool,
    },
    AskPermission {
        epoch: Seq<char>,
        session_id: Seq<char>,
        incarnation: u64,
        interaction_id: Seq<char>,
        request: JsonModel,
    },
    ResolvePermission {
        epoch: Seq<char>,
        session_id: Seq<char>,
        incarnation: u64,
        interaction_id: Seq<char>,
    },
    BeginPermission {
        epoch: Seq<char>,
        session_id: Seq<char>,
        incarnation: u64,
        interaction_id: Seq<char>,
        operation_id: Seq<char>,
    },
    CompletePermission {
        epoch: Seq<char>,
        session_id: Seq<char>,
        incarnation: u64,
        interaction_id: Seq<char>,
        operation_id: Seq<char>,
    },
    AskElicitation {
        epoch: Seq<char>,
        scope: Option<(Seq<char>, u64)>,
        interaction_id: Seq<char>,
        request: JsonModel,
    },
    ResolveElicitation {
        epoch: Seq<char>,
        scope: Option<(Seq<char>, u64)>,
        interaction_id: Seq<char>,
        accepted_url_id: Option<Seq<char>>,
    },
    BeginElicitation {
        epoch: Seq<char>,
        scope: Option<(Seq<char>, u64)>,
        interaction_id: Seq<char>,
        operation_id: Seq<char>,
    },
    CompleteElicitation {
        epoch: Seq<char>,
        scope: Option<(Seq<char>, u64)>,
        interaction_id: Seq<char>,
        operation_id: Seq<char>,
        accepted_url_id: Option<Seq<char>>,
    },
    SettleFlow {
        epoch: Seq<char>,
        scope: Option<(Seq<char>, u64)>,
        elicitation_id: Seq<char>,
        registration_id: Seq<char>,
        status: UrlFlowStatus,
    },
    UpsertTerminal {
        epoch: Seq<char>,
        session_id: Seq<char>,
        incarnation: u64,
        terminal_id: Seq<char>,
        terminal: JsonModel,
    },
    StartOperation {
        epoch: Seq<char>,
        session_id: Seq<char>,
        incarnation: u64,
        operation_id: Seq<char>,
        kind: SessionOperationKind,
        stage: Seq<char>,
        history_admits: bool,
    },
    StartDelete {
        epoch: Seq<char>,
        session_id: Seq<char>,
        incarnation: u64,
        operation_id: Seq<char>,
        history_admits: bool,
    },
    StartDirectDelete {
        epoch: Seq<char>,
        session_id: Seq<char>,
        incarnation: u64,
        operation_id: Seq<char>,
        history_admits: bool,
    },
    DeleteClosed {
        epoch: Seq<char>,
        session_id: Seq<char>,
        incarnation: u64,
        operation_id: Seq<char>,
    },
    CompleteDelete {
        epoch: Seq<char>,
        session_id: Seq<char>,
        incarnation: u64,
        operation_id: Seq<char>,
    },
    MarkUncertain {
        epoch: Seq<char>,
        session_id: Seq<char>,
        incarnation: u64,
        operation_id: Seq<char>,
        reason: Seq<char>,
    },
    CompleteOperation {
        epoch: Seq<char>,
        session_id: Seq<char>,
        incarnation: u64,
        operation_id: Seq<char>,
        kind: SessionOperationKind,
    },
    CompleteControl {
        epoch: Seq<char>,
        session_id: Seq<char>,
        incarnation: u64,
        operation_id: Seq<char>,
        kind: SessionOperationKind,
        key: Seq<char>,
        update: JsonModel,
    },
    FailOperation {
        epoch: Seq<char>,
        session_id: Seq<char>,
        incarnation: u64,
        operation_id: Seq<char>,
        kind: SessionOperationKind,
    },
    Close { epoch: Seq<char>, session_id: Seq<char>, incarnation: u64, operation_id: Seq<char> },
    FinishCleanup {
        session_id: Seq<char>,
        incarnation: u64,
        kind: SessionAdmission,
        operation_id: Seq<char>,
    },
    Release { seq: u64 },
}

/// What a transition leads to.
#[verifier::ext_equal]
pub struct Outcome {
    pub state: RegistryModel,
    pub refused: bool,
}

/// The outcome of a step.
pub open spec fn outcome_of<T>(step: Step<T>) -> Outcome {
    Outcome { state: step.state, refused: step.result is Err }
}

/// What a transition leads to.
#[verifier::opaque]
pub open spec fn outcome(r: RegistryModel, t: Transition) -> Outcome {
    match t {
        Transition::Open { epoch, session_id, cwd, session, control_state } => outcome_of(
            opened(r, epoch, session_id, cwd, session, control_state),
        ),
        Transition::Fork {
            epoch,
            session_id,
            cwd,
            session,
            source_id,
            source_incarnation,
            replay,
        } => outcome_of(
            forked(r, epoch, session_id, cwd, session, source_id, source_incarnation, replay),
        ),
        Transition::StartAttachment { epoch, session_id, cwd, operation_id, kind } => outcome_of(
            attachment_started(r, epoch, session_id, cwd, operation_id, kind),
        ),
        Transition::StartReload {
            epoch,
            session_id,
            incarnation,
            operation_id,
            kind,
            history_admits,
        } => outcome_of(
            reload_started(r, epoch, session_id, incarnation, operation_id, kind, history_admits),
        ),
        Transition::AppendCandidate { epoch, session_id, incarnation, update } => outcome_of(
            candidate_appended(r, epoch, session_id, incarnation, update),
        ),
        Transition::EndReload { epoch, session_id, incarnation, operation_id, response } => outcome_of(
            reload_ended(r, epoch, session_id, incarnation, operation_id, response),
        ),
        Transition::CompleteAttachment {
            epoch,
            session_id,
            incarnation,
            operation_id,
            kind,
            response,
        } => outcome_of(
            attachment_completed(r, epoch, session_id, incarnation, operation_id, kind, response),
        ),
        Transition::FailAttachment { epoch, session_id, incarnation, operation_id, kind } => outcome_of(
            attachment_failed(r, epoch, session_id, incarnation, operation_id, kind),
        ),
        Transition::Synchronize { epoch, session_id, incarnation, response, replay } => outcome_of(
            synchronized(r, epoch, session_id, incarnation, response, replay),
        ),
        Transition::AdmitTurn {
            epoch,
            session_id,
            incarnation,
            client_intent_id,
            checked,
            started,
        } => {
            let step = turn_admitted(
                r,
                epoch,
                session_id,
                incarnation,
                client_intent_id,
                checked,
                started,
            );
            Outcome { state: step.state, refused: step.result is Err }
        },
        Transition::StartPrompt { epoch, session_id, incarnation, operation_id, prompt } => outcome_of(
            prompt_started(r, epoch, session_id, incarnation, operation_id, prompt),
        ),
        Transition::AppendUpdate { epoch, session_id, incarnation, update } => outcome_of(
            update_appended(r, epoch, session_id, incarnation, update),
        ),
        Transition::UpdateControl { epoch, session_id, incarnation, key, update } => outcome_of(
            control_updated(r, epoch, session_id, incarnation, key, update),
        ),
        Transition::RequestCancel { epoch, session_id, incarnation } => outcome_of(
            cancel_requested(r, epoch, session_id, incarnation),
        ),
        Transition::EndTurn { epoch, session_id, incarnation, operation_id, uncertain } => outcome_of(
            turn_ended(
                r,
                epoch,
                session_id,
                incarnation,
                operation_id,
                if uncertain {
                    Some(SessionLifecycle::Uncertain)
                } else {
                    None
                },
            ),
        ),
        Transition::AskPermission { epoch, session_id, incarnation, interaction_id, request } => outcome_of(
            permission_asked(r, epoch, session_id, incarnation, interaction_id, request),
        ),
        Transition::ResolvePermission { epoch, session_id, incarnation, interaction_id } => outcome_of(
            permission_resolved(r, epoch, session_id, incarnation, interaction_id),
        ),
        Transition::BeginPermission {
            epoch,
            session_id,
            incarnation,
            interaction_id,
            operation_id,
        } => outcome_of(
            permission_response_begun(
                r,
                epoch,
                session_id,
                incarnation,
                interaction_id,
                operation_id,
            ),
        ),
        Transition::CompletePermission {
            epoch,
            session_id,
            incarnation,
            interaction_id,
            operation_id,
        } => outcome_of(
            permission_response_completed(
                r,
                epoch,
                session_id,
                incarnation,
                interaction_id,
                operation_id,
            ),
        ),
        Transition::AskElicitation { epoch, scope, interaction_id, request } => outcome_of(
            elicitation_asked(r, epoch, scope, interaction_id, request),
        ),
        Transition::ResolveElicitation { epoch, scope, interaction_id, accepted_url_id } => outcome_of(
            elicitation_resolved(r, epoch, scope, interaction_id, accepted_url_id),
        ),
        Transition::BeginElicitation { epoch, scope, interaction_id, operation_id } => outcome_of(
            elicitation_response_begun(r, epoch, scope, interaction_id, operation_id),
        ),
        Transition::CompleteElicitation {
            epoch,
            scope,
            interaction_id,
            operation_id,
            accepted_url_id,
        } => outcome_of(
            elicitation_response_completed(
                r,
                epoch,
                scope,
                interaction_id,
                operation_id,
                accepted_url_id,
            ),
        ),
        Transition::SettleFlow { epoch, scope, elicitation_id, registration_id, status } => outcome_of(
            registration_settled(r, epoch, scope, elicitation_id, registration_id, status),
        ),
        Transition::UpsertTerminal { epoch, session_id, incarnation, terminal_id, terminal } => outcome_of(
            terminal_upserted(r, epoch, session_id, incarnation, terminal_id, terminal),
        ),
        Transition::StartOperation {
            epoch,
            session_id,
            incarnation,
            operation_id,
            kind,
            stage,
            history_admits,
        } => outcome_of(
            exclusive_started(
                r,
                epoch,
                session_id,
                incarnation,
                operation_id,
                kind,
                stage,
                history_admits,
            ),
        ),
        Transition::StartDelete { epoch, session_id, incarnation, operation_id, history_admits } => outcome_of(
            delete_started(r, epoch, session_id, incarnation, operation_id, history_admits),
        ),
        Transition::StartDirectDelete {
            epoch,
            session_id,
            incarnation,
            operation_id,
            history_admits,
        } => outcome_of(
            direct_delete_started(r, epoch, session_id, incarnation, operation_id, history_admits),
        ),
        Transition::DeleteClosed { epoch, session_id, incarnation, operation_id } => outcome_of(
            delete_closed(r, epoch, session_id, incarnation, operation_id),
        ),
        Transition::CompleteDelete { epoch, session_id, incarnation, operation_id } => outcome_of(
            delete_completed(r, epoch, session_id, incarnation, operation_id),
        ),
        Transition::MarkUncertain { epoch, session_id, incarnation, operation_id, reason } => outcome_of(
            operation_uncertain(r, epoch, session_id, incarnation, operation_id, reason),
        ),
        Transition::CompleteOperation { epoch, session_id, incarnation, operation_id, kind } => outcome_of(
            operation_completed(r, epoch, session_id, incarnation, operation_id, kind),
        ),
        Transition::CompleteControl {
            epoch,
            session_id,
            incarnation,
            operation_id,
            kind,
            key,
            update,
        } => outcome_of(
            control_completed(r, epoch, session_id, incarnation, operation_id, kind, key, update),
        ),
        Transition::FailOperation { epoch, session_id, incarnation, operation_id, kind } => outcome_of(
            operation_failed(r, epoch, session_id, incarnation, operation_id, kind),
        ),
        Transition::Close { epoch, session_id, incarnation, operation_id } => outcome_of(
            session_closed(r, epoch, session_id, incarnation, operation_id),
        ),
        Transition::FinishCleanup { session_id, incarnation, kind, operation_id } => {
            let result = cleanup_result(r, session_id, incarnation, kind, operation_id);
            Outcome {
                state: if result is Ok {
                    with_owner(
                        r,
                        session_id,
                        OwnerModel { operation: None, live: None, ..r.sessions[session_id] },
                    )
                } else {
                    r
                },
                refused: result is Err,
            }
        },
        Transition::Release { seq } => Outcome {
            state: RegistryModel { journal: journal_released(r.journal, seq), ..r },
            refused: false,
        },
    }
}

/// The epoch in which a transition is asked for.
pub open spec fn epoch_of(t: Transition) -> Option<Seq<char>> {
    match t {
        Transition::Open { epoch, .. } => Some(epoch),
        Transition::Fork { epoch, .. } => Some(epoch),
        Transition::StartAttachment { epoch, .. } => Some(epoch),
        Transition::StartReload { epoch, .. } => Some(epoch),
        Transition::AppendCandidate { epoch, .. } => Some(epoch),
        Transition::EndReload { epoch, .. } => Some(epoch),
        Transition::CompleteAttachment { epoch, .. } => Some(epoch),
        Transition::FailAttachment { epoch, .. } => Some(epoch),
        Transition::Synchronize { epoch, .. } => Some(epoch),
        Transition::AdmitTurn { epoch, .. } => Some(epoch),
        Transition::StartPrompt { epoch, .. } => Some(epoch),
        Transition::AppendUpdate { epoch, .. } => Some(epoch),
        Transition::UpdateControl { epoch, .. } => Some(epoch),
        Transition::RequestCancel { epoch, .. } => Some(epoch),
        Transition::EndTurn { epoch, .. } => Some(epoch),
        Transition::AskPermission { epoch, .. } => Some(epoch),
        Transition::ResolvePermission { epoch, .. } => Some(epoch),
        Transition::BeginPermission { epoch, .. } => Some(epoch),
        Transition::CompletePermission { epoch, .. } => Some(epoch),
        Transition::AskElicitation { epoch, .. } => Some(epoch),
        Transition::ResolveElicitation { epoch, .. } => Some(epoch),
        Transition::BeginElicitation { epoch, .. } => Some(epoch),
        Transition::CompleteElicitation { epoch, .. } => Some(epoch),
        Transition::SettleFlow { epoch, .. } => Some(epoch),
        Transition::UpsertTerminal { epoch, .. } => Some(epoch),
        Transition::StartOperation { epoch, .. } => Some(epoch),
        Transition::StartDelete { epoch, .. } => Some(epoch),
        Transition::StartDirectDelete { epoch, .. } => Some(epoch),
        Transition::DeleteClosed { epoch, .. } => Some(epoch),
        Transition::CompleteDelete { epoch, .. } => Some(epoch),
        Transition::MarkUncertain { epoch, .. } => Some(epoch),
        Transition::CompleteOperation { epoch, .. } => Some(epoch),
        Transition::CompleteControl { epoch, .. } => Some(epoch),
        Transition::FailOperation { epoch, .. } => Some(epoch),
        Transition::Close { epoch, .. } => Some(epoch),
        Transition::FinishCleanup { .. } => None,
        Transition::Release { .. } => None,
    }
}

/// The session that a transition may change.
pub open spec fn subject_of(t: Transition) -> Option<Seq<char>> {
    match t {
        Transition::Open { session_id, .. } => Some(session_id),
        Transition::Fork { session_id, .. } => Some(session_id),
        Transition::StartAttachment { session_id, .. } => Some(session_id),
        _ => match owner_of(t) {
            Some((session_id, _)) => Some(session_id),
            None => None,
        },
    }
}

/// The session and its incarnation for which a transition is asked for.
pub open spec fn owner_of(t: Transition) -> Option<(Seq<char>, u64)> {
    match t {
        Transition::Open { .. } => None,
        Transition::Fork { .. } => None,
        Transition::StartAttachment { .. } => None,
        Transition::StartReload { session_id, incarnation, .. } => Some((session_id, incarnation)),
        Transition::AppendCandidate { session_id, incarnation, .. } => Some(
            (session_id, incarnation),
        ),
        Transition::EndReload { session_id, incarnation, .. } => Some((session_id, incarnation)),
        Transition::CompleteAttachment { session_id, incarnation, .. } => Some(
            (session_id, incarnation),
        ),
        Transition::FailAttachment { session_id, incarnation, .. } => Some(
            (session_id, incarnation),
        ),
        Transition::Synchronize { session_id, incarnation, .. } => Some((session_id, incarnation)),
        Transition::AdmitTurn { session_id, incarnation, .. } => Some((session_id, incarnation)),
        Transition::StartPrompt { session_id, incarnation, .. } => Some((session_id, incarnation)),
        Transition::AppendUpdate { session_id, incarnation, .. } => Some((session_id, incarnation)),
        Transition::UpdateControl { session_id, incarnation, .. } => Some(
            (session_id, incarnation),
        ),
        Transition::RequestCancel { session_id, incarnation, .. } => Some(
            (session_id, incarnation),
        ),
        Transition::EndTurn { session_id, incarnation, .. } => Some((session_id, incarnation)),
        Transition::AskPermission { session_id, incarnation, .. } => Some(
            (session_id, incarnation),
        ),
        Transition::ResolvePermission { session_id, incarnation, .. } => Some(
            (session_id, incarnation),
        ),
        Transition::BeginPermission { session_id, incarnation, .. } => Some(
            (session_id, incarnation),
        ),
        Transition::CompletePermission { session_id, incarnation, .. } => Some(
            (session_id, incarnation),
        ),
        Transition::AskElicitation { scope, .. } => scope,
        Transition::ResolveElicitation { scope, .. } => scope,
        Transition::BeginElicitation { scope, .. } => scope,
        Transition::CompleteElicitation { scope, .. } => scope,
        Transition::SettleFlow { scope, .. } => scope,
        Transition::UpsertTerminal { session_id, incarnation, .. } => Some(
            (session_id, incarnation),
        ),
        Transition::StartOperation { session_id, incarnation, .. } => Some(
            (session_id, incarnation),
        ),
        Transition::StartDelete { session_id, incarnation, .. } => Some((session_id, incarnation)),
        Transition::StartDirectDelete { session_id, incarnation, .. } => Some(
            (session_id, incarnation),
        ),
        Transition::DeleteClosed { session_id, incarnation, .. } => Some((session_id, incarnation)),
        Transition::CompleteDelete { session_id, incarnation, .. } => Some(
            (session_id, incarnation),
        ),
        Transition::MarkUncertain { session_id, incarnation, .. } => Some(
            (session_id, incarnation),
        ),
        Transition::CompleteOperation { session_id, incarnation, .. } => Some(
            (session_id, incarnation),
        ),
        Transition::CompleteControl { session_id, incarnation, .. } => Some(
            (session_id, incarnation),
        ),
        Transition::FailOperation { session_id, incarnation, .. } => Some(
            (session_id, incarnation),
        ),
        Transition::Close { session_id, incarnation, .. } => Some((session_id, incarnation)),
        Transition::FinishCleanup { session_id, incarnation, .. } => Some(
            (session_id, incarnation),
        ),
        Transition::Release { .. } => None,
    }
}

/// A transition that is refused changes nothing: no session, no revision, no
/// published change, no effect.
#[verifier::spinoff_prover]
#[verifier::rlimit(50)]
pub proof fn law_refusal_is_neutral(r: RegistryModel, t: Transition)
    requires
        outcome(r, t).refused,
    ensures
        outcome(r, t).state == r,
{
    reveal(outcome);
}

/// A transition of another epoch is refused.
#[verifier::spinoff_prover]
#[verifier::rlimit(50)]
pub proof fn law_other_epoch_is_refused(r: RegistryModel, t: Transition)
    requires
        epoch_of(t) matches Some(epoch) && epoch != r.epoch,
    ensures
        outcome(r, t).refused,
{
    reveal(outcome);
}

/// A transition for another incarnation of a session is refused.
#[verifier::spinoff_prover]
#[verifier::rlimit(50)]
pub proof fn law_other_incarnation_is_refused(r: RegistryModel, t: Transition)
    requires
        owner_of(t) matches Some((session_id, incarnation)) && r.sessions.contains_key(session_id)
            && r.sessions[session_id].incarnation != incarnation,
    ensures
        outcome(r, t).refused,
{
    reveal(outcome);
}

/// Whether all flows wait.
pub open spec fn all_wait(flows: Map<Seq<char>, UrlFlowModel>) -> bool {
    forall|key: Seq<char>| #[trigger]
        flows.contains_key(key) ==> flows[key].status == UrlFlowStatus::Waiting
}

/// Whether no terminal has been released.
pub open spec fn all_held(terminals: Map<Seq<char>, JsonModel>) -> bool {
    forall|key: Seq<char>| #[trigger]
        terminals.contains_key(key) ==> !terminals[key].true_at("released"@)
}

/// Whether the owner under a session identifier is sound: it owns that
/// session, its incarnation has been given out, what it holds is alive, and a
/// closed session with an operation waits for its cleanup.
pub open spec fn sound(owner: OwnerModel, session_id: Seq<char>, last_incarnation: u64) -> bool {
    &&& owner.session_id == session_id
    &&& owner.incarnation <= last_incarnation
    &&& owner.live matches Some(live) ==> all_wait(live.url_flows) && all_held(live.terminals) && (
    live.lifecycle == SessionLifecycle::Closed && owner.operation is Some ==> owner.in_stage(
        "cleanup"@,
    ))
}

/// Whether all owners of a registry are sound.
pub open spec fn consistent(r: RegistryModel) -> bool {
    &&& forall|id: Seq<char>| #[trigger]
        r.sessions.contains_key(id) ==> sound(r.sessions[id], id, r.next_incarnation)
    &&& all_wait(r.request_url_flows)
}

/// Whether no number of a registry is about to start over.
pub open spec fn has_room(r: RegistryModel) -> bool {
    &&& r.journal.seq < u64::MAX
    &&& r.connection_revision < u64::MAX
    &&& r.next_incarnation < u64::MAX
    &&& forall|id: Seq<char>| #[trigger]
        r.sessions.contains_key(id) ==> (r.sessions[id].live matches Some(live) ==> live.revision
            < u64::MAX)
}

/// Whether entries are the last ones of a list.
pub open spec fn is_end(entries: Seq<EntryModel>, of: Seq<EntryModel>) -> bool {
    entries.len() <= of.len() && entries =~= of.skip(of.len() - entries.len())
}

/// Whether the last published change of a registry is the one after another
/// registry, and the entries before it are the last ones of the other.
pub open spec fn tells(r: RegistryModel, next: RegistryModel, delta: DeltaModel) -> bool {
    &&& next.journal.deltas.len() > 0
    &&& next.journal.deltas.last().delta == delta
    &&& is_end(next.journal.deltas.drop_last(), r.journal.deltas)
    &&& delta.epoch == r.epoch
    &&& delta.seq == bumped(r.journal.seq)
    &&& next.journal.seq == delta.seq
}

/// Whether a session is published in a registry.
pub open spec fn shows(r: RegistryModel, session_id: Seq<char>) -> bool {
    r.sessions.contains_key(session_id) && is_published(r.sessions[session_id])
}

/// Whether a registry has changed in nothing but one session.
pub open spec fn alone(r: RegistryModel, next: RegistryModel, session_id: Seq<char>) -> bool {
    &&& next.epoch == r.epoch
    &&& next.connection_revision == r.connection_revision
    &&& next.request_elicitations == r.request_elicitations
    &&& next.request_url_flows == r.request_url_flows
    &&& next.sessions == r.sessions.insert(session_id, next.sessions[session_id])
}

/// Whether a registry tells how a session has changed: it tells nothing and
/// shows the session as before, or it tells the change of the session, or it
/// tells that the session is gone.
pub open spec fn announces(r: RegistryModel, next: RegistryModel, session_id: Seq<char>) -> bool {
    let owner = next.sessions[session_id];
    let delta = next.journal.deltas.last().delta;
    ||| {
        &&& next.journal == r.journal
        &&& shows(r, session_id) == is_published(owner)
        &&& is_published(owner) ==> published_session(owner) == published_session(
            r.sessions[session_id],
        )
    }
    ||| {
        &&& tells(r, next, delta)
        &&& is_published(owner)
        &&& changed(published(r), delta.scope_revision, delta.change) == Some(
            with_session(published(r), session_id, published_session(owner)),
        )
    }
    ||| {
        &&& tells(r, next, delta)
        &&& !is_published(owner)
        &&& delta.change == (ChangeModel::SessionRemoved {
            session_id,
            incarnation: owner.incarnation,
        })
        &&& shows(r, session_id) ==> r.sessions[session_id].incarnation == owner.incarnation
    }
}

/// Whether a registry has stayed as it was, or has changed in one session
/// alone, soundly and with an announcement.
pub open spec fn moved(r: RegistryModel, next: RegistryModel, session_id: Seq<char>) -> bool {
    ||| next == r
    ||| {
        &&& alone(r, next, session_id)
        &&& consistent(r) && r.next_incarnation < u64::MAX ==> {
            &&& r.next_incarnation <= next.next_incarnation
            &&& sound(next.sessions[session_id], session_id, next.next_incarnation)
        }
        &&& consistent(r) && has_room(r) ==> announces(r, next, session_id)
    }
}

/// Whether a registry has stayed as it was, or has changed outside all
/// sessions, with an announcement.
pub open spec fn moved_outside(r: RegistryModel, next: RegistryModel) -> bool {
    ||| next == r
    ||| {
        &&& next.epoch == r.epoch
        &&& next.sessions == r.sessions
        &&& next.next_incarnation == r.next_incarnation
        &&& consistent(r) ==> all_wait(next.request_url_flows)
        &&& consistent(r) ==> {
            &&& next.connection_revision == bumped(r.connection_revision)
            &&& tells(r, next, next.journal.deltas.last().delta)
            &&& next.journal.deltas.last().delta.scope_revision == Some(next.connection_revision)
            &&& next.journal.deltas.last().delta.change == (ChangeModel::ConnectionUpsert {
                request_elicitations: next.request_elicitations,
                request_url_flows: next.request_url_flows,
            })
        }
    }
}

proof fn lemma_opened_moves(
    r: RegistryModel,
    epoch: Seq<char>,
    session_id: Seq<char>,
    cwd: Seq<char>,
    session: JsonModel,
    control_state: Map<Seq<char>, JsonModel>,
)
    ensures
        moved(r, opened(r, epoch, session_id, cwd, session, control_state).state, session_id),
{
}

proof fn lemma_attachment_started_moves(
    r: RegistryModel,
    epoch: Seq<char>,
    session_id: Seq<char>,
    cwd: Seq<char>,
    operation_id: Seq<char>,
    kind: SessionOperationKind,
)
    ensures
        moved(
            r,
            attachment_started(r, epoch, session_id, cwd, operation_id, kind).state,
            session_id,
        ),
{
}

proof fn lemma_reload_started_moves(
    r: RegistryModel,
    epoch: Seq<char>,
    session_id: Seq<char>,
    incarnation: u64,
    operation_id: Seq<char>,
    kind: SessionOperationKind,
    history_admits: bool,
)
    ensures
        moved(
            r,
            reload_started(
                r,
                epoch,
                session_id,
                incarnation,
                operation_id,
                kind,
                history_admits,
            ).state,
            session_id,
        ),
{
}

proof fn lemma_candidate_appended_moves(
    r: RegistryModel,
    epoch: Seq<char>,
    session_id: Seq<char>,
    incarnation: u64,
    update: JsonModel,
)
    ensures
        moved(r, candidate_appended(r, epoch, session_id, incarnation, update).state, session_id),
{
}

proof fn lemma_reload_ended_moves(
    r: RegistryModel,
    epoch: Seq<char>,
    session_id: Seq<char>,
    incarnation: u64,
    operation_id: Seq<char>,
    response: Option<JsonModel>,
)
    ensures
        moved(
            r,
            reload_ended(r, epoch, session_id, incarnation, operation_id, response).state,
            session_id,
        ),
{
}

proof fn lemma_attachment_completed_moves(
    r: RegistryModel,
    epoch: Seq<char>,
    session_id: Seq<char>,
    incarnation: u64,
    operation_id: Seq<char>,
    kind: SessionOperationKind,
    response: JsonModel,
)
    ensures
        moved(
            r,
            attachment_completed(
                r,
                epoch,
                session_id,
                incarnation,
                operation_id,
                kind,
                response,
            ).state,
            session_id,
        ),
{
}

proof fn lemma_attachment_failed_moves(
    r: RegistryModel,
    epoch: Seq<char>,
    session_id: Seq<char>,
    incarnation: u64,
    operation_id: Seq<char>,
    kind: SessionOperationKind,
)
    ensures
        moved(
            r,
            attachment_failed(r, epoch, session_id, incarnation, operation_id, kind).state,
            session_id,
        ),
{
}

proof fn lemma_synchronized_moves(
    r: RegistryModel,
    epoch: Seq<char>,
    session_id: Seq<char>,
    incarnation: u64,
    response: JsonModel,
    replay: Seq<JsonModel>,
)
    ensures
        moved(
            r,
            synchronized(r, epoch, session_id, incarnation, response, replay).state,
            session_id,
        ),
{
}

proof fn lemma_turn_admitted_moves(
    r: RegistryModel,
    epoch: Seq<char>,
    session_id: Seq<char>,
    incarnation: u64,
    client_intent_id: Seq<char>,
    checked: Result<Option<AdmissionModel>, MirrorError>,
    started: Result<StartedModel, MirrorError>,
)
    ensures
        moved(
            r,
            turn_admitted(
                r,
                epoch,
                session_id,
                incarnation,
                client_intent_id,
                checked,
                started,
            ).state,
            session_id,
        ),
{
}

proof fn lemma_prompt_started_moves(
    r: RegistryModel,
    epoch: Seq<char>,
    session_id: Seq<char>,
    incarnation: u64,
    operation_id: Seq<char>,
    prompt: Seq<JsonModel>,
)
    ensures
        moved(
            r,
            prompt_started(r, epoch, session_id, incarnation, operation_id, prompt).state,
            session_id,
        ),
{
}

proof fn lemma_update_appended_moves(
    r: RegistryModel,
    epoch: Seq<char>,
    session_id: Seq<char>,
    incarnation: u64,
    update: JsonModel,
)
    ensures
        moved(r, update_appended(r, epoch, session_id, incarnation, update).state, session_id),
{
}

proof fn lemma_control_updated_moves(
    r: RegistryModel,
    epoch: Seq<char>,
    session_id: Seq<char>,
    incarnation: u64,
    key: Seq<char>,
    update: JsonModel,
)
    ensures
        moved(r, control_updated(r, epoch, session_id, incarnation, key, update).state, session_id),
{
}

proof fn lemma_cancel_requested_moves(
    r: RegistryModel,
    epoch: Seq<char>,
    session_id: Seq<char>,
    incarnation: u64,
)
    ensures
        moved(r, cancel_requested(r, epoch, session_id, incarnation).state, session_id),
{
}

proof fn lemma_turn_ended_moves(
    r: RegistryModel,
    epoch: Seq<char>,
    session_id: Seq<char>,
    incarnation: u64,
    operation_id: Seq<char>,
    lifecycle: Option<SessionLifecycle>,
)
    requires
        lifecycle != Some(SessionLifecycle::Closed),
    ensures
        moved(
            r,
            turn_ended(r, epoch, session_id, incarnation, operation_id, lifecycle).state,
            session_id,
        ),
{
    match last_payload(r.journal.deltas, session_id, incarnation, operation_id) {
        Some(seq) => {
            lemma_covered_bound(r.journal.deltas, seq);
        },
        None => {},
    }
}

proof fn lemma_permission_asked_moves(
    r: RegistryModel,
    epoch: Seq<char>,
    session_id: Seq<char>,
    incarnation: u64,
    interaction_id: Seq<char>,
    request: JsonModel,
)
    ensures
        moved(
            r,
            permission_asked(r, epoch, session_id, incarnation, interaction_id, request).state,
            session_id,
        ),
{
}

proof fn lemma_permission_resolved_moves(
    r: RegistryModel,
    epoch: Seq<char>,
    session_id: Seq<char>,
    incarnation: u64,
    interaction_id: Seq<char>,
)
    ensures
        moved(
            r,
            permission_resolved(r, epoch, session_id, incarnation, interaction_id).state,
            session_id,
        ),
{
}

proof fn lemma_permission_response_begun_moves(
    r: RegistryModel,
    epoch: Seq<char>,
    session_id: Seq<char>,
    incarnation: u64,
    interaction_id: Seq<char>,
    operation_id: Seq<char>,
)
    ensures
        moved(
            r,
            permission_response_begun(
                r,
                epoch,
                session_id,
                incarnation,
                interaction_id,
                operation_id,
            ).state,
            session_id,
        ),
{
}

proof fn lemma_permission_response_completed_moves(
    r: RegistryModel,
    epoch: Seq<char>,
    session_id: Seq<char>,
    incarnation: u64,
    interaction_id: Seq<char>,
    operation_id: Seq<char>,
)
    ensures
        moved(
            r,
            permission_response_completed(
                r,
                epoch,
                session_id,
                incarnation,
                interaction_id,
                operation_id,
            ).state,
            session_id,
        ),
{
}

proof fn lemma_elicitation_asked_moves(
    r: RegistryModel,
    epoch: Seq<char>,
    scope: Option<(Seq<char>, u64)>,
    interaction_id: Seq<char>,
    request: JsonModel,
)
    ensures
        match scope {
            Some((session_id, _)) => moved(
                r,
                elicitation_asked(r, epoch, scope, interaction_id, request).state,
                session_id,
            ),
            None => moved_outside(
                r,
                elicitation_asked(r, epoch, scope, interaction_id, request).state,
            ),
        },
{
}

proof fn lemma_elicitation_resolved_moves(
    r: RegistryModel,
    epoch: Seq<char>,
    scope: Option<(Seq<char>, u64)>,
    interaction_id: Seq<char>,
    accepted_url_id: Option<Seq<char>>,
)
    ensures
        match scope {
            Some((session_id, _)) => moved(
                r,
                elicitation_resolved(r, epoch, scope, interaction_id, accepted_url_id).state,
                session_id,
            ),
            None => moved_outside(
                r,
                elicitation_resolved(r, epoch, scope, interaction_id, accepted_url_id).state,
            ),
        },
{
}

proof fn lemma_elicitation_response_begun_moves(
    r: RegistryModel,
    epoch: Seq<char>,
    scope: Option<(Seq<char>, u64)>,
    interaction_id: Seq<char>,
    operation_id: Seq<char>,
)
    ensures
        match scope {
            Some((session_id, _)) => moved(
                r,
                elicitation_response_begun(r, epoch, scope, interaction_id, operation_id).state,
                session_id,
            ),
            None => moved_outside(
                r,
                elicitation_response_begun(r, epoch, scope, interaction_id, operation_id).state,
            ),
        },
{
}

proof fn lemma_registration_settled_moves(
    r: RegistryModel,
    epoch: Seq<char>,
    scope: Option<(Seq<char>, u64)>,
    elicitation_id: Seq<char>,
    registration_id: Seq<char>,
    status: UrlFlowStatus,
)
    ensures
        match scope {
            Some((session_id, _)) => moved(
                r,
                registration_settled(
                    r,
                    epoch,
                    scope,
                    elicitation_id,
                    registration_id,
                    status,
                ).state,
                session_id,
            ),
            None => moved_outside(
                r,
                registration_settled(
                    r,
                    epoch,
                    scope,
                    elicitation_id,
                    registration_id,
                    status,
                ).state,
            ),
        },
{
}

proof fn lemma_terminal_upserted_moves(
    r: RegistryModel,
    epoch: Seq<char>,
    session_id: Seq<char>,
    incarnation: u64,
    terminal_id: Seq<char>,
    terminal: JsonModel,
)
    ensures
        moved(
            r,
            terminal_upserted(r, epoch, session_id, incarnation, terminal_id, terminal).state,
            session_id,
        ),
{
}

proof fn lemma_exclusive_started_moves(
    r: RegistryModel,
    epoch: Seq<char>,
    session_id: Seq<char>,
    incarnation: u64,
    operation_id: Seq<char>,
    kind: SessionOperationKind,
    stage: Seq<char>,
    history_admits: bool,
)
    ensures
        moved(
            r,
            exclusive_started(
                r,
                epoch,
                session_id,
                incarnation,
                operation_id,
                kind,
                stage,
                history_admits,
            ).state,
            session_id,
        ),
{
}

proof fn lemma_delete_closed_moves(
    r: RegistryModel,
    epoch: Seq<char>,
    session_id: Seq<char>,
    incarnation: u64,
    operation_id: Seq<char>,
)
    ensures
        moved(r, delete_closed(r, epoch, session_id, incarnation, operation_id).state, session_id),
{
}

proof fn lemma_delete_completed_moves(
    r: RegistryModel,
    epoch: Seq<char>,
    session_id: Seq<char>,
    incarnation: u64,
    operation_id: Seq<char>,
)
    ensures
        moved(
            r,
            delete_completed(r, epoch, session_id, incarnation, operation_id).state,
            session_id,
        ),
{
}

proof fn lemma_operation_uncertain_moves(
    r: RegistryModel,
    epoch: Seq<char>,
    session_id: Seq<char>,
    incarnation: u64,
    operation_id: Seq<char>,
    reason: Seq<char>,
)
    ensures
        moved(
            r,
            operation_uncertain(r, epoch, session_id, incarnation, operation_id, reason).state,
            session_id,
        ),
{
}

proof fn lemma_operation_completed_moves(
    r: RegistryModel,
    epoch: Seq<char>,
    session_id: Seq<char>,
    incarnation: u64,
    operation_id: Seq<char>,
    kind: SessionOperationKind,
)
    ensures
        moved(
            r,
            operation_completed(r, epoch, session_id, incarnation, operation_id, kind).state,
            session_id,
        ),
{
}

proof fn lemma_control_completed_moves(
    r: RegistryModel,
    epoch: Seq<char>,
    session_id: Seq<char>,
    incarnation: u64,
    operation_id: Seq<char>,
    kind: SessionOperationKind,
    key: Seq<char>,
    update: JsonModel,
)
    ensures
        moved(
            r,
            control_completed(
                r,
                epoch,
                session_id,
                incarnation,
                operation_id,
                kind,
                key,
                update,
            ).state,
            session_id,
        ),
{
}

proof fn lemma_operation_failed_moves(
    r: RegistryModel,
    epoch: Seq<char>,
    session_id: Seq<char>,
    incarnation: u64,
    operation_id: Seq<char>,
    kind: SessionOperationKind,
)
    ensures
        moved(
            r,
            operation_failed(r, epoch, session_id, incarnation, operation_id, kind).state,
            session_id,
        ),
{
}

proof fn lemma_session_closed_moves(
    r: RegistryModel,
    epoch: Seq<char>,
    session_id: Seq<char>,
    incarnation: u64,
    operation_id: Seq<char>,
)
    ensures
        moved(r, session_closed(r, epoch, session_id, incarnation, operation_id).state, session_id),
{
}

/// What a transition does, whatever it is.
#[verifier::spinoff_prover]
#[verifier::rlimit(50)]
pub proof fn lemma_transition_moves(r: RegistryModel, t: Transition)
    requires
        !(t is Release),
    ensures
        match subject_of(t) {
            Some(session_id) => moved(r, outcome(r, t).state, session_id),
            None => moved_outside(r, outcome(r, t).state),
        },
{
    reveal(outcome);
    match t {
        Transition::Open { epoch, session_id, cwd, session, control_state } => {
            lemma_opened_moves(r, epoch, session_id, cwd, session, control_state);
        },
        Transition::Fork {
            epoch,
            session_id,
            cwd,
            session,
            source_id,
            source_incarnation,
            replay,
        } => {
            let control_state = match replay {
                Some(replay) => controls_of(replay),
                None => Map::empty(),
            };
            lemma_opened_moves(r, epoch, session_id, cwd, session, control_state);
        },
        Transition::StartAttachment { epoch, session_id, cwd, operation_id, kind } => {
            lemma_attachment_started_moves(r, epoch, session_id, cwd, operation_id, kind);
        },
        Transition::StartReload {
            epoch,
            session_id,
            incarnation,
            operation_id,
            kind,
            history_admits,
        } => {
            lemma_reload_started_moves(
                r,
                epoch,
                session_id,
                incarnation,
                operation_id,
                kind,
                history_admits,
            );
        },
        Transition::AppendCandidate { epoch, session_id, incarnation, update } => {
            lemma_candidate_appended_moves(r, epoch, session_id, incarnation, update);
        },
        Transition::EndReload { epoch, session_id, incarnation, operation_id, response } => {
            lemma_reload_ended_moves(r, epoch, session_id, incarnation, operation_id, response);
        },
        Transition::CompleteAttachment {
            epoch,
            session_id,
            incarnation,
            operation_id,
            kind,
            response,
        } => {
            lemma_attachment_completed_moves(
                r,
                epoch,
                session_id,
                incarnation,
                operation_id,
                kind,
                response,
            );
        },
        Transition::FailAttachment { epoch, session_id, incarnation, operation_id, kind } => {
            lemma_attachment_failed_moves(r, epoch, session_id, incarnation, operation_id, kind);
        },
        Transition::Synchronize { epoch, session_id, incarnation, response, replay } => {
            lemma_synchronized_moves(r, epoch, session_id, incarnation, response, replay);
        },
        Transition::AdmitTurn {
            epoch,
            session_id,
            incarnation,
            client_intent_id,
            checked,
            started,
        } => {
            lemma_turn_admitted_moves(
                r,
                epoch,
                session_id,
                incarnation,
                client_intent_id,
                checked,
                started,
            );
        },
        Transition::StartPrompt { epoch, session_id, incarnation, operation_id, prompt } => {
            lemma_prompt_started_moves(r, epoch, session_id, incarnation, operation_id, prompt);
        },
        Transition::AppendUpdate { epoch, session_id, incarnation, update } => {
            lemma_update_appended_moves(r, epoch, session_id, incarnation, update);
        },
        Transition::UpdateControl { epoch, session_id, incarnation, key, update } => {
            lemma_control_updated_moves(r, epoch, session_id, incarnation, key, update);
        },
        Transition::RequestCancel { epoch, session_id, incarnation } => {
            lemma_cancel_requested_moves(r, epoch, session_id, incarnation);
        },
        Transition::EndTurn { epoch, session_id, incarnation, operation_id, uncertain } => {
            lemma_turn_ended_moves(
                r,
                epoch,
                session_id,
                incarnation,
                operation_id,
                if uncertain {
                    Some(SessionLifecycle::Uncertain)
                } else {
                    None
                },
            );
        },
        Transition::AskPermission { epoch, session_id, incarnation, interaction_id, request } => {
            lemma_permission_asked_moves(
                r,
                epoch,
                session_id,
                incarnation,
                interaction_id,
                request,
            );
        },
        Transition::ResolvePermission { epoch, session_id, incarnation, interaction_id } => {
            lemma_permission_resolved_moves(r, epoch, session_id, incarnation, interaction_id);
        },
        Transition::BeginPermission {
            epoch,
            session_id,
            incarnation,
            interaction_id,
            operation_id,
        } => {
            lemma_permission_response_begun_moves(
                r,
                epoch,
                session_id,
                incarnation,
                interaction_id,
                operation_id,
            );
        },
        Transition::CompletePermission {
            epoch,
            session_id,
            incarnation,
            interaction_id,
            operation_id,
        } => {
            lemma_permission_response_completed_moves(
                r,
                epoch,
                session_id,
                incarnation,
                interaction_id,
                operation_id,
            );
        },
        Transition::AskElicitation { epoch, scope, interaction_id, request } => {
            lemma_elicitation_asked_moves(r, epoch, scope, interaction_id, request);
        },
        Transition::ResolveElicitation { epoch, scope, interaction_id, accepted_url_id } => {
            lemma_elicitation_resolved_moves(r, epoch, scope, interaction_id, accepted_url_id);
        },
        Transition::BeginElicitation { epoch, scope, interaction_id, operation_id } => {
            lemma_elicitation_response_begun_moves(
                r,
                epoch,
                scope,
                interaction_id,
                operation_id,
            );
        },
        Transition::CompleteElicitation { epoch, scope, interaction_id, accepted_url_id, .. } => {
            lemma_elicitation_resolved_moves(r, epoch, scope, interaction_id, accepted_url_id);
        },
        Transition::SettleFlow { epoch, scope, elicitation_id, registration_id, status } => {
            lemma_registration_settled_moves(
                r,
                epoch,
                scope,
                elicitation_id,
                registration_id,
                status,
            );
        },
        Transition::UpsertTerminal { epoch, session_id, incarnation, terminal_id, terminal } => {
            lemma_terminal_upserted_moves(
                r,
                epoch,
                session_id,
                incarnation,
                terminal_id,
                terminal,
            );
        },
        Transition::StartOperation {
            epoch,
            session_id,
            incarnation,
            operation_id,
            kind,
            stage,
            history_admits,
        } => {
            lemma_exclusive_started_moves(
                r,
                epoch,
                session_id,
                incarnation,
                operation_id,
                kind,
                stage,
                history_admits,
            );
        },
        Transition::StartDelete { epoch, session_id, incarnation, operation_id, history_admits } => {
            let kind = SessionOperationKind::Delete;
            lemma_exclusive_started_moves(
                r,
                epoch,
                session_id,
                incarnation,
                operation_id,
                kind,
                "closing"@,
                history_admits,
            );
            lemma_exclusive_started_moves(
                r,
                epoch,
                session_id,
                incarnation,
                operation_id,
                kind,
                "deleting"@,
                history_admits,
            );
        },
        Transition::StartDirectDelete {
            epoch,
            session_id,
            incarnation,
            operation_id,
            history_admits,
        } => {
            lemma_exclusive_started_moves(
                r,
                epoch,
                session_id,
                incarnation,
                operation_id,
                SessionOperationKind::Delete,
                "deleting_active"@,
                history_admits,
            );
        },
        Transition::DeleteClosed { epoch, session_id, incarnation, operation_id } => {
            lemma_delete_closed_moves(r, epoch, session_id, incarnation, operation_id);
        },
        Transition::CompleteDelete { epoch, session_id, incarnation, operation_id } => {
            lemma_delete_completed_moves(r, epoch, session_id, incarnation, operation_id);
        },
        Transition::MarkUncertain { epoch, session_id, incarnation, operation_id, reason } => {
            lemma_operation_uncertain_moves(
                r,
                epoch,
                session_id,
                incarnation,
                operation_id,
                reason,
            );
        },
        Transition::CompleteOperation { epoch, session_id, incarnation, operation_id, kind } => {
            lemma_operation_completed_moves(
                r,
                epoch,
                session_id,
                incarnation,
                operation_id,
                kind,
            );
        },
        Transition::CompleteControl {
            epoch,
            session_id,
            incarnation,
            operation_id,
            kind,
            key,
            update,
        } => {
            lemma_control_completed_moves(
                r,
                epoch,
                session_id,
                incarnation,
                operation_id,
                kind,
                key,
                update,
            );
        },
        Transition::FailOperation { epoch, session_id, incarnation, operation_id, kind } => {
            lemma_operation_failed_moves(r, epoch, session_id, incarnation, operation_id, kind);
        },
        Transition::Close { epoch, session_id, incarnation, operation_id } => {
            lemma_session_closed_moves(r, epoch, session_id, incarnation, operation_id);
        },
        Transition::FinishCleanup { .. } => {},
        Transition::Release { .. } => {},
    }
}

/// What releasing published changes leads to.
pub proof fn lemma_release(r: RegistryModel, t: Transition)
    requires
        t is Release,
    ensures
        outcome(r, t).state == (RegistryModel {
            journal: journal_released(r.journal, t->Release_seq),
            ..r
        }),
        !outcome(r, t).refused,
{
    reveal(outcome);
}

/// A transition of one session leaves all others as they were.
pub proof fn law_other_sessions_stay(r: RegistryModel, t: Transition, other: Seq<char>)
    requires
        subject_of(t) != Some(other),
    ensures
        outcome(r, t).state.sessions.contains_key(other) == r.sessions.contains_key(other),
        r.sessions.contains_key(other) ==> outcome(r, t).state.sessions[other]
            == r.sessions[other],
{
    if t is Release {
        lemma_release(r, t);
    } else {
        lemma_transition_moves(r, t);
    }
}

/// The registry of a new connection is consistent, and every transition keeps
/// it so.
pub proof fn law_transitions_keep_consistency(r: RegistryModel, t: Transition)
    requires
        consistent(r),
        r.next_incarnation < u64::MAX,
    ensures
        consistent(outcome(r, t).state),
        forall|epoch: Seq<char>| consistent(#[trigger] empty_registry(epoch)),
{
    let next = outcome(r, t).state;
    if t is Release {
        lemma_release(r, t);
    } else {
        lemma_transition_moves(r, t);
    }
    assert forall|id: Seq<char>| #[trigger] next.sessions.contains_key(id) implies sound(
        next.sessions[id],
        id,
        next.next_incarnation,
    ) by {
        match subject_of(t) {
            Some(session_id) => {
                if id != session_id && next != r && !(t is Release) {
                    assert(r.sessions.contains_key(id));
                    assert(next.sessions[id] == r.sessions[id]);
                    assert(sound(r.sessions[id], id, r.next_incarnation));
                }
            },
            None => {
                assert(r.sessions.contains_key(id));
            },
        }
    }
}

/// A published change follows from a registry to the next one: applied to what
/// was published before, it gives what is published after.
pub open spec fn follows(r: RegistryModel, next: RegistryModel, delta: DeltaModel) -> bool {
    tells(r, next, delta) && applied(published(r), delta) == Some(published(next))
}

proof fn lemma_move_follows(r: RegistryModel, next: RegistryModel, session_id: Seq<char>)
    requires
        consistent(r),
        has_room(r),
        next != r,
        moved(r, next, session_id),
    ensures
        (next.journal == r.journal && published(next) == published(r)) || follows(
            r,
            next,
            next.journal.deltas.last().delta,
        ),
{
    let owner = next.sessions[session_id];
    let before = published(r).sessions;
    let after = published(next).sessions;
    if is_published(owner) {
        assert(after =~= before.insert(session_id, published_session(owner)));
        if next.journal == r.journal {
            assert(before.insert(session_id, published_session(owner)) =~= before);
        }
    } else {
        assert(after =~= before.remove(session_id));
        if next.journal == r.journal {
            assert(before.remove(session_id) =~= before);
        }
    }
}

/// A transition either publishes one change that follows, or it leaves what is
/// published as it was.
pub proof fn law_projection_follows(r: RegistryModel, t: Transition)
    requires
        consistent(r),
        has_room(r),
    ensures
        ({
            let next = outcome(r, t).state;
            ||| next.journal.seq == r.journal.seq && published(next) == published(r)
            ||| follows(r, next, next.journal.deltas.last().delta)
        }),
{
    let next = outcome(r, t).state;
    if t is Release {
        lemma_release(r, t);
        assert(published(next).sessions =~= published(r).sessions);
    } else {
        lemma_transition_moves(r, t);
        if next != r {
            match subject_of(t) {
                Some(session_id) => {
                    lemma_move_follows(r, next, session_id);
                },
                None => {
                    assert(published(next).sessions =~= published(r).sessions);
                },
            }
        }
    }
}

/// The registry after a series of transitions.
pub open spec fn run(r: RegistryModel, ts: Seq<Transition>) -> RegistryModel
    decreases ts.len(),
{
    if ts.len() == 0 {
        r
    } else {
        outcome(run(r, ts.drop_last()), ts.last()).state
    }
}

/// Whether no number starts over during a series of transitions.
pub open spec fn stays_in_room(r: RegistryModel, ts: Seq<Transition>) -> bool
    decreases ts.len(),
{
    ts.len() > 0 ==> stays_in_room(r, ts.drop_last()) && has_room(run(r, ts.drop_last()))
}

/// A snapshot after a series of published changes, if each may follow.
pub open spec fn replayed(snapshot: SnapshotModel, deltas: Seq<DeltaModel>) -> Option<SnapshotModel>
    decreases deltas.len(),
{
    if deltas.len() == 0 {
        Some(snapshot)
    } else {
        match replayed(snapshot, deltas.drop_last()) {
            Some(before) => applied(before, deltas.last()),
            None => None,
        }
    }
}

proof fn lemma_tells_keeps_contiguous(r: RegistryModel, next: RegistryModel, delta: DeltaModel)
    requires
        r.journal.seq < u64::MAX,
        contiguous(r.journal),
        tells(r, next, delta),
    ensures
        contiguous(next.journal),
{
    let before = r.journal.deltas;
    let after = next.journal.deltas;
    let kept = after.drop_last();
    assert forall|i: int| 0 <= i < after.len() implies (#[trigger] after[i]).delta.seq + (
    after.len() - 1 - i) == next.journal.seq by {
        if i < kept.len() {
            assert(after[i] == kept[i]);
            assert(kept[i] == before[before.len() - kept.len() + i]);
        }
    }
}

/// A transition leaves no hole in the journal.
pub proof fn law_transitions_keep_contiguous(r: RegistryModel, t: Transition)
    requires
        consistent(r),
        has_room(r),
        contiguous(r.journal),
    ensures
        contiguous(outcome(r, t).state.journal),
{
    let next = outcome(r, t).state;
    if let Transition::Release { seq } = t {
        lemma_release(r, t);
        law_release_and_retirement_keep_contiguous(
            r.journal,
            seq,
            Seq::empty(),
            0,
            Seq::empty(),
        );
    } else {
        lemma_transition_moves(r, t);
        if next.journal != r.journal {
            lemma_tells_keeps_contiguous(r, next, next.journal.deltas.last().delta);
        }
    }
}

proof fn lemma_series(r: RegistryModel, ts: Seq<Transition>)
    requires
        consistent(r),
        contiguous(r.journal),
        stays_in_room(r, ts),
    ensures
        consistent(run(r, ts)),
        contiguous(run(r, ts).journal),
        run(r, ts).journal.seq >= r.journal.seq,
    decreases ts.len(),
{
    if ts.len() > 0 {
        lemma_series(r, ts.drop_last());
        let before = run(r, ts.drop_last());
        law_transitions_keep_consistency(before, ts.last());
        law_transitions_keep_contiguous(before, ts.last());
        law_projection_follows(before, ts.last());
    }
}

/// Whoever holds what was published and resumes from there gets, after any
/// series of transitions, either no answer or exactly the changes that lead to
/// what is published then.
pub proof fn law_snapshot_plus_changes_is_state(r: RegistryModel, ts: Seq<Transition>)
    requires
        consistent(r),
        contiguous(r.journal),
        stays_in_room(r, ts),
    ensures
        journal_suffix(run(r, ts).journal, r.journal.seq) matches Some(changes) ==> replayed(
            published(r),
            changes,
        ) == Some(published(run(r, ts))),
    decreases ts.len(),
{
    let now = run(r, ts);
    let seq = r.journal.seq;
    lemma_series(r, ts);
    lemma_suffix_content(now.journal, seq);
    if ts.len() == 0 {
        if let Some(changes) = journal_suffix(now.journal, seq) {
            assert(changes.len() == 0);
        }
    } else {
        let before = run(r, ts.drop_last());
        lemma_series(r, ts.drop_last());
        lemma_suffix_content(before.journal, seq);
        law_snapshot_plus_changes_is_state(r, ts.drop_last());
        law_projection_follows(before, ts.last());
        if let Some(changes) = journal_suffix(now.journal, seq) {
            let a = before.journal.deltas;
            let b = now.journal.deltas;
            if follows(before, now, b.last().delta) {
                let kept = b.drop_last();
                let known = journal_suffix(before.journal, seq)->0;
                assert(journal_suffix(before.journal, seq) is Some);
                assert forall|i: int| 0 <= i < known.len() implies known[i] == changes[i] by {
                    let n = before.journal.seq - seq;
                    assert(known[i] == a[a.len() - n + i].delta);
                    assert(changes[i] == b[b.len() - (n + 1) + i].delta);
                    assert(b[b.len() - (n + 1) + i] == kept[kept.len() - n + i]);
                    assert(kept[kept.len() - n + i] == a[a.len() - kept.len() + (kept.len() - n
                        + i)]);
                }
                assert(changes.drop_last() =~= known);
                assert(changes.last() == b.last().delta);
            } else {
                lemma_quiet_suffix(before, ts.last(), seq);
            }
        }
    }
}

/// A transition that publishes nothing leaves the answer as it was, if it
/// leaves one.
proof fn lemma_quiet_suffix(r: RegistryModel, t: Transition, seq: u64)
    requires
        consistent(r),
        has_room(r),
        contiguous(r.journal),
        seq <= r.journal.seq,
        outcome(r, t).state.journal.seq == r.journal.seq,
        journal_suffix(outcome(r, t).state.journal, seq) is Some,
    ensures
        journal_suffix(r.journal, seq) == journal_suffix(outcome(r, t).state.journal, seq),
{
    let next = outcome(r, t).state;
    law_transitions_keep_contiguous(r, t);
    lemma_suffix_content(r.journal, seq);
    lemma_suffix_content(next.journal, seq);
    if let Transition::Release { seq: through } = t {
        lemma_release(r, t);
        lemma_covered_bound(r.journal.deltas, through);
        let a = r.journal.deltas;
        let b = next.journal.deltas;
        let known = journal_suffix(r.journal, seq)->0;
        let answer = journal_suffix(next.journal, seq)->0;
        assert forall|i: int| 0 <= i < known.len() implies known[i] == answer[i] by {
            let n = r.journal.seq - seq;
            assert(b[b.len() - n + i] == a[a.len() - n + i]);
        }
        assert(known =~= answer);
    } else {
        lemma_transition_moves(r, t);
    }
}

} // verus!
