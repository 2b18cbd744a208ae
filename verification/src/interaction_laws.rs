//! What is shown of permission requests, questions, flows at a URL and terminals.
use crate::fold::{folded_terminal, RuntimeStateError};
use crate::json::{json_equal, JsonModel};
use crate::registry::{flow_in_use, in_use, published, RegistryModel};
use crate::registry::interactions::{
    elicitation_asked, elicitation_resolved, elicitation_response_begun,
    elicitation_response_completed, flow_settled, permission_asked, permission_resolved,
    permission_response_begun, permission_response_completed, registration_settled,
    terminal_upserted,
};
use crate::runtime_types::{
    InteractionModel, InteractionResolution, InteractionResponseStart, InteractionUpsert,
    TerminalUpsert, UrlFlowModel, UrlFlowResolution, UrlFlowStatus,
};
use crate::session_laws::{
    lives, same_course, same_identity, same_settings, shows_next, tells_history,
};
use crate::turn_laws::runs;
use vstd::prelude::*;

verus! {

/// Whether a table has got an entry, and is as before otherwise.
pub open spec fn gains<V>(
    before: Map<Seq<char>, V>,
    after: Map<Seq<char>, V>,
    key: Seq<char>,
    value: V,
) -> bool {
    &&& after.contains_key(key)
    &&& after[key] == value
    &&& forall|other: Seq<char>|
        other != key ==> {
            &&& #[trigger] after.contains_key(other) == before.contains_key(other)
            &&& before.contains_key(other) ==> after[other] == before[other]
        }
}

/// Whether a table has lost an entry, and is as before otherwise.
pub open spec fn loses<V>(
    before: Map<Seq<char>, V>,
    after: Map<Seq<char>, V>,
    key: Seq<char>,
) -> bool {
    &&& !after.contains_key(key)
    &&& forall|other: Seq<char>|
        other != key ==> {
            &&& #[trigger] after.contains_key(other) == before.contains_key(other)
            &&& before.contains_key(other) ==> after[other] == before[other]
        }
}

/// The turn that a session runs.
pub open spec fn turn_of(r: RegistryModel, session_id: Seq<char>) -> Option<Seq<char>> {
    if runs(r, session_id) {
        Some(r.sessions[session_id].active_turn->0.execution->0.rpc_operation_id)
    } else {
        None
    }
}

/// Whether a question is the one that was asked: with its request, on behalf of
/// the turn that ran then, and answered by nobody yet.
pub open spec fn is_as_asked(
    question: InteractionModel,
    interaction_id: Seq<char>,
    request: JsonModel,
    turn: Option<Seq<char>>,
) -> bool {
    &&& question.interaction_id == interaction_id
    &&& question.request == request
    &&& question.operation_id == turn
    &&& question.responding_operation_id is None
}

/// What comes of asking, by what is settled and what waits: a question that was
/// settled is not asked again; one that waits is the same question where request
/// and turn are the same, and clashes otherwise; any other is asked.
pub open spec fn is_answer_to_asking(
    result: Result<InteractionUpsert, RuntimeStateError>,
    waiting: Option<InteractionModel>,
    settled: bool,
    request: JsonModel,
    turn: Option<Seq<char>>,
) -> bool {
    &&& settled ==> result == Ok::<InteractionUpsert, RuntimeStateError>(
        InteractionUpsert::AlreadyResolved,
    )
    &&& !settled && waiting is None ==> result == Ok::<InteractionUpsert, RuntimeStateError>(
        InteractionUpsert::Inserted,
    )
    &&& !settled ==> (waiting matches Some(question) ==> result == (if json_equal(
        question.request,
        request,
    ) && question.operation_id == turn {
        Ok::<InteractionUpsert, RuntimeStateError>(InteractionUpsert::Duplicate)
    } else {
        Err(RuntimeStateError::InteractionCollision)
    }))
}

/// What is under a key, if anything.
pub open spec fn entry<V>(table: Map<Seq<char>, V>, key: Seq<char>) -> Option<V> {
    if table.contains_key(key) {
        Some(table[key])
    } else {
        None
    }
}

/// A permission that is asked for is shown among the permissions of its session,
/// as it was asked and on behalf of the turn that runs; the rest of the session
/// stays.
pub proof fn law_asked_permission_is_shown(
    r: RegistryModel,
    epoch: Seq<char>,
    session_id: Seq<char>,
    incarnation: u64,
    interaction_id: Seq<char>,
    request: JsonModel,
)
    requires
        epoch == r.epoch,
        lives(r, session_id, incarnation),
    ensures
        ({
            let step = permission_asked(
                r,
                epoch,
                session_id,
                incarnation,
                interaction_id,
                request,
            );
            let next = step.state;
            let live = r.sessions[session_id].live->0;
            let was = published(r).sessions[session_id];
            let shown = published(next).sessions[session_id];
            &&& is_answer_to_asking(
                step.result,
                entry(live.permissions, interaction_id),
                live.resolved_permissions.contains(interaction_id),
                request,
                turn_of(r, session_id),
            )
            &&& step.result != Ok::<InteractionUpsert, RuntimeStateError>(
                InteractionUpsert::Inserted,
            ) ==> next == r
            &&& step.result == Ok::<InteractionUpsert, RuntimeStateError>(
                InteractionUpsert::Inserted,
            ) ==> {
                &&& shows_next(r, next, session_id)
                &&& gains(
                    was.permissions,
                    shown.permissions,
                    interaction_id,
                    shown.permissions[interaction_id],
                )
                &&& is_as_asked(
                    shown.permissions[interaction_id],
                    interaction_id,
                    request,
                    turn_of(r, session_id),
                )
                &&& shown.elicitations == was.elicitations
                &&& shown.url_flows == was.url_flows
                &&& shown.terminals == was.terminals
                &&& same_identity(was, shown)
                &&& same_settings(was, shown)
                &&& same_course(was, shown)
                &&& tells_history(r.sessions[session_id], shown)
            }
        }),
{
    reveal_strlit("cleanup");
    assert("cleanup"@.len() == 7);
}

/// What comes of settling, by what is settled and what waits.
pub open spec fn is_answer_to_settling(
    result: Result<InteractionResolution, RuntimeStateError>,
    waiting: bool,
    settled: bool,
) -> bool {
    &&& settled ==> result == Ok::<InteractionResolution, RuntimeStateError>(
        InteractionResolution::AlreadyResolved,
    )
    &&& !settled && !waiting ==> result == Err::<InteractionResolution, RuntimeStateError>(
        RuntimeStateError::UnknownInteraction,
    )
    &&& !settled && waiting ==> result == Ok::<InteractionResolution, RuntimeStateError>(
        InteractionResolution::Applied,
    )
}

/// Whether of a session nothing but a permission request is gone, which is
/// settled from now on.
pub open spec fn shows_settled_permission(
    r: RegistryModel,
    next: RegistryModel,
    session_id: Seq<char>,
    interaction_id: Seq<char>,
) -> bool {
    let was = published(r).sessions[session_id];
    let shown = published(next).sessions[session_id];
    &&& shows_next(r, next, session_id)
    &&& loses(was.permissions, shown.permissions, interaction_id)
    &&& next.sessions[session_id].live->0.resolved_permissions
        == r.sessions[session_id].live->0.resolved_permissions.push(interaction_id)
    &&& shown.elicitations == was.elicitations
    &&& shown.url_flows == was.url_flows
    &&& shown.terminals == was.terminals
    &&& same_identity(was, shown)
    &&& same_settings(was, shown)
    &&& same_course(was, shown)
    &&& tells_history(r.sessions[session_id], shown)
}

/// A permission request that is settled is gone from its session; the rest stays.
/// Only its responder settles it with a response.
pub proof fn law_settled_permission_is_gone(
    r: RegistryModel,
    epoch: Seq<char>,
    session_id: Seq<char>,
    incarnation: u64,
    interaction_id: Seq<char>,
    operation_id: Seq<char>,
)
    requires
        epoch == r.epoch,
        lives(r, session_id, incarnation),
    ensures
        ({
            let plain = permission_resolved(r, epoch, session_id, incarnation, interaction_id);
            let answered = permission_response_completed(
                r,
                epoch,
                session_id,
                incarnation,
                interaction_id,
                operation_id,
            );
            let live = r.sessions[session_id].live->0;
            let waits = live.permissions.contains_key(interaction_id);
            let settled = live.resolved_permissions.contains(interaction_id);
            &&& is_answer_to_settling(plain.result, waits, settled)
            &&& !settled && waits ==> shows_settled_permission(
                r,
                plain.state,
                session_id,
                interaction_id,
            )
            &&& settled || !waits ==> plain.state == r && answered.state == r
                && is_answer_to_settling(answered.result, waits, settled)
            &&& !settled && waits
                && live.permissions[interaction_id].responding_operation_id == Some(operation_id)
                ==> answered.result == Ok::<InteractionResolution, RuntimeStateError>(
                InteractionResolution::Applied,
            ) && shows_settled_permission(r, answered.state, session_id, interaction_id)
            &&& !settled && waits
                && live.permissions[interaction_id].responding_operation_id != Some(operation_id)
                ==> answered.result == Err::<InteractionResolution, RuntimeStateError>(
                RuntimeStateError::OperationMismatch,
            ) && answered.state == r
        }),
{
    reveal_strlit("cleanup");
    assert("cleanup"@.len() == 7);
}

/// Whether a question has got a responder and is as before otherwise.
pub open spec fn is_answered_by(
    before: InteractionModel,
    after: InteractionModel,
    operation_id: Seq<char>,
) -> bool {
    &&& after.interaction_id == before.interaction_id
    &&& after.request == before.request
    &&& after.operation_id == before.operation_id
    &&& after.responding_operation_id == Some(operation_id)
}

/// What comes of beginning a response: only a question that waits is answered,
/// by one operation, whose identifier must be free.
pub open spec fn is_answer_to_beginning(
    result: Result<InteractionResponseStart, RuntimeStateError>,
    waiting: Option<InteractionModel>,
    operation_id: Seq<char>,
    used: bool,
) -> bool {
    match waiting {
        None => result == Err::<InteractionResponseStart, RuntimeStateError>(
            RuntimeStateError::UnknownInteraction,
        ),
        Some(question) => match question.responding_operation_id {
            Some(responder) => result == (if responder == operation_id {
                Ok::<InteractionResponseStart, RuntimeStateError>(
                    InteractionResponseStart::Duplicate,
                )
            } else {
                Err(RuntimeStateError::InteractionCollision)
            }),
            None => result == (if used {
                Err::<InteractionResponseStart, RuntimeStateError>(
                    RuntimeStateError::OperationCollision,
                )
            } else {
                Ok(InteractionResponseStart::Applied)
            }),
        },
    }
}

/// A permission request whose response is begun is shown with its responder, and
/// as before otherwise; the rest of the session stays.
pub proof fn law_begun_permission_shows_its_responder(
    r: RegistryModel,
    epoch: Seq<char>,
    session_id: Seq<char>,
    incarnation: u64,
    interaction_id: Seq<char>,
    operation_id: Seq<char>,
)
    requires
        epoch == r.epoch,
        lives(r, session_id, incarnation),
    ensures
        ({
            let step = permission_response_begun(
                r,
                epoch,
                session_id,
                incarnation,
                interaction_id,
                operation_id,
            );
            let next = step.state;
            let live = r.sessions[session_id].live->0;
            let was = published(r).sessions[session_id];
            let shown = published(next).sessions[session_id];
            let applied = step.result == Ok::<InteractionResponseStart, RuntimeStateError>(
                InteractionResponseStart::Applied,
            );
            &&& is_answer_to_beginning(
                step.result,
                entry(live.permissions, interaction_id),
                operation_id,
                in_use(r, operation_id, None),
            )
            &&& !applied ==> next == r
            &&& applied ==> {
                &&& shows_next(r, next, session_id)
                &&& gains(
                    was.permissions,
                    shown.permissions,
                    interaction_id,
                    shown.permissions[interaction_id],
                )
                &&& is_answered_by(
                    was.permissions[interaction_id],
                    shown.permissions[interaction_id],
                    operation_id,
                )
                &&& shown.elicitations == was.elicitations
                &&& shown.url_flows == was.url_flows
                &&& shown.terminals == was.terminals
                &&& same_identity(was, shown)
                &&& same_settings(was, shown)
                &&& same_course(was, shown)
                &&& tells_history(r.sessions[session_id], shown)
            }
        }),
{
    reveal_strlit("cleanup");
    assert("cleanup"@.len() == 7);
}

/// Whether the questions and flows outside all sessions are shown once more,
/// under their next revision, and no session has changed.
pub open spec fn shows_connection_next(r: RegistryModel, next: RegistryModel) -> bool {
    &&& r.connection_revision < u64::MAX ==> published(next).connection_revision == published(
        r,
    ).connection_revision + 1
    &&& next.epoch == r.epoch
    &&& next.sessions == r.sessions
    &&& next.effects == r.effects
    &&& next.next_incarnation == r.next_incarnation
}

/// A question is shown among the questions of its session, as it was asked and on
/// behalf of the turn that runs. One outside all sessions belongs to no turn and
/// is shown with the connection. The rest stays.
pub proof fn law_asked_question_is_shown(
    r: RegistryModel,
    epoch: Seq<char>,
    scope: Option<(Seq<char>, u64)>,
    interaction_id: Seq<char>,
    request: JsonModel,
)
    requires
        epoch == r.epoch,
        scope matches Some((session_id, incarnation)) ==> lives(r, session_id, incarnation),
    ensures
        ({
            let step = elicitation_asked(r, epoch, scope, interaction_id, request);
            let next = step.state;
            let inserted = step.result == Ok::<InteractionUpsert, RuntimeStateError>(
                InteractionUpsert::Inserted,
            );
            &&& !inserted ==> next == r
            &&& match scope {
                Some((session_id, _)) => {
                    let live = r.sessions[session_id].live->0;
                    let was = published(r).sessions[session_id];
                    let shown = published(next).sessions[session_id];
                    &&& is_answer_to_asking(
                        step.result,
                        entry(live.elicitations, interaction_id),
                        live.resolved_elicitations.contains(interaction_id),
                        request,
                        turn_of(r, session_id),
                    )
                    &&& inserted ==> {
                        &&& shows_next(r, next, session_id)
                        &&& gains(
                            was.elicitations,
                            shown.elicitations,
                            interaction_id,
                            shown.elicitations[interaction_id],
                        )
                        &&& is_as_asked(
                            shown.elicitations[interaction_id],
                            interaction_id,
                            request,
                            turn_of(r, session_id),
                        )
                        &&& shown.permissions == was.permissions
                        &&& shown.url_flows == was.url_flows
                        &&& shown.terminals == was.terminals
                        &&& same_identity(was, shown)
                        &&& same_settings(was, shown)
                        &&& same_course(was, shown)
                        &&& tells_history(r.sessions[session_id], shown)
                    }
                },
                None => {
                    let was = published(r).request_elicitations;
                    let shown = published(next).request_elicitations;
                    &&& entry(r.request_elicitations, interaction_id) is None
                        ==> is_answer_to_asking(
                        step.result,
                        None,
                        r.resolved_request_elicitations.contains(interaction_id),
                        request,
                        None,
                    )
                    &&& inserted ==> {
                        &&& shows_connection_next(r, next)
                        &&& gains(was, shown, interaction_id, shown[interaction_id])
                        &&& is_as_asked(shown[interaction_id], interaction_id, request, None)
                        &&& published(next).request_url_flows == published(r).request_url_flows
                    }
                },
            }
        }),
{
    reveal_strlit("cleanup");
    assert("cleanup"@.len() == 7);
}

/// Whether the flows are as before, but for one that waits from now on where one
/// was accepted.
pub open spec fn opens_flow(
    before: Map<Seq<char>, UrlFlowModel>,
    after: Map<Seq<char>, UrlFlowModel>,
    accepted_url_id: Option<Seq<char>>,
    interaction_id: Seq<char>,
    request: JsonModel,
) -> bool {
    match accepted_url_id {
        None => after == before,
        Some(url_id) => {
            &&& gains(before, after, url_id, after[url_id])
            &&& after[url_id].elicitation_id == url_id
            &&& after[url_id].registration_id == interaction_id
            &&& after[url_id].request == request
            &&& after[url_id].status == UrlFlowStatus::Waiting
        },
    }
}

/// A question that is settled is gone; where it was accepted with a flow, the
/// flow waits from now on, with the request of the question. The rest stays. A
/// flow whose identifier is in use is not opened again.
pub proof fn law_settled_question_is_gone(
    r: RegistryModel,
    epoch: Seq<char>,
    scope: Option<(Seq<char>, u64)>,
    interaction_id: Seq<char>,
    accepted_url_id: Option<Seq<char>>,
)
    requires
        epoch == r.epoch,
        scope matches Some((session_id, incarnation)) ==> lives(r, session_id, incarnation),
    ensures
        ({
            let step = elicitation_resolved(r, epoch, scope, interaction_id, accepted_url_id);
            let next = step.state;
            let taken = accepted_url_id matches Some(url_id) && flow_in_use(r, url_id);
            let settled = match scope {
                Some((session_id, _)) =>
                    r.sessions[session_id].live->0.resolved_elicitations.contains(interaction_id),
                None => r.resolved_request_elicitations.contains(interaction_id),
            };
            let waits = match scope {
                Some((session_id, _)) =>
                    r.sessions[session_id].live->0.elicitations.contains_key(interaction_id),
                None => r.request_elicitations.contains_key(interaction_id),
            };
            &&& settled || !taken ==> is_answer_to_settling(step.result, waits, settled)
            &&& !settled && taken ==> step.result == Err::<
                InteractionResolution,
                RuntimeStateError,
            >(RuntimeStateError::InteractionCollision)
            &&& settled || taken || !waits ==> next == r
            &&& !settled && !taken && waits ==> match scope {
                Some((session_id, _)) => {
                    let was = published(r).sessions[session_id];
                    let shown = published(next).sessions[session_id];
                    &&& shows_next(r, next, session_id)
                    &&& loses(was.elicitations, shown.elicitations, interaction_id)
                    &&& next.sessions[session_id].live->0.resolved_elicitations
                        == r.sessions[session_id].live->0.resolved_elicitations.push(interaction_id)
                    &&& opens_flow(
                        was.url_flows,
                        shown.url_flows,
                        accepted_url_id,
                        interaction_id,
                        was.elicitations[interaction_id].request,
                    )
                    &&& shown.permissions == was.permissions
                    &&& shown.terminals == was.terminals
                    &&& same_identity(was, shown)
                    &&& same_settings(was, shown)
                    &&& same_course(was, shown)
                    &&& tells_history(r.sessions[session_id], shown)
                },
                None => {
                    let was = published(r);
                    let shown = published(next);
                    &&& shows_connection_next(r, next)
                    &&& loses(
                        was.request_elicitations,
                        shown.request_elicitations,
                        interaction_id,
                    )
                    &&& next.resolved_request_elicitations == r.resolved_request_elicitations.push(
                        interaction_id,
                    )
                    &&& opens_flow(
                        was.request_url_flows,
                        shown.request_url_flows,
                        accepted_url_id,
                        interaction_id,
                        was.request_elicitations[interaction_id].request,
                    )
                },
            }
        }),
{
    reveal_strlit("cleanup");
    assert("cleanup"@.len() == 7);
}

/// A question whose response is begun is shown with its responder, and as before
/// otherwise; the rest stays.
pub proof fn law_begun_question_shows_its_responder(
    r: RegistryModel,
    epoch: Seq<char>,
    scope: Option<(Seq<char>, u64)>,
    interaction_id: Seq<char>,
    operation_id: Seq<char>,
)
    requires
        epoch == r.epoch,
        scope matches Some((session_id, incarnation)) ==> lives(r, session_id, incarnation),
    ensures
        ({
            let step = elicitation_response_begun(r, epoch, scope, interaction_id, operation_id);
            let next = step.state;
            let applied = step.result == Ok::<InteractionResponseStart, RuntimeStateError>(
                InteractionResponseStart::Applied,
            );
            let waiting = match scope {
                Some((session_id, _)) => entry(
                    r.sessions[session_id].live->0.elicitations,
                    interaction_id,
                ),
                None => entry(r.request_elicitations, interaction_id),
            };
            &&& is_answer_to_beginning(
                step.result,
                waiting,
                operation_id,
                in_use(r, operation_id, None),
            )
            &&& !applied ==> next == r
            &&& applied ==> match scope {
                Some((session_id, _)) => {
                    let was = published(r).sessions[session_id];
                    let shown = published(next).sessions[session_id];
                    &&& shows_next(r, next, session_id)
                    &&& gains(
                        was.elicitations,
                        shown.elicitations,
                        interaction_id,
                        shown.elicitations[interaction_id],
                    )
                    &&& is_answered_by(
                        was.elicitations[interaction_id],
                        shown.elicitations[interaction_id],
                        operation_id,
                    )
                    &&& shown.permissions == was.permissions
                    &&& shown.url_flows == was.url_flows
                    &&& shown.terminals == was.terminals
                    &&& same_identity(was, shown)
                    &&& same_settings(was, shown)
                    &&& same_course(was, shown)
                    &&& tells_history(r.sessions[session_id], shown)
                },
                None => {
                    let was = published(r).request_elicitations;
                    let shown = published(next).request_elicitations;
                    &&& shows_connection_next(r, next)
                    &&& gains(was, shown, interaction_id, shown[interaction_id])
                    &&& is_answered_by(was[interaction_id], shown[interaction_id], operation_id)
                    &&& published(next).request_url_flows == published(r).request_url_flows
                },
            }
        }),
{
    reveal_strlit("cleanup");
    assert("cleanup"@.len() == 7);
}

/// A response to a question settles it exactly where it comes from its responder:
/// it is then settled as any other, and otherwise nothing changes.
pub proof fn law_response_settles_its_question(
    r: RegistryModel,
    epoch: Seq<char>,
    scope: Option<(Seq<char>, u64)>,
    interaction_id: Seq<char>,
    operation_id: Seq<char>,
    accepted_url_id: Option<Seq<char>>,
)
    requires
        epoch == r.epoch,
        scope matches Some((session_id, incarnation)) ==> lives(r, session_id, incarnation),
    ensures
        ({
            let step = elicitation_response_completed(
                r,
                epoch,
                scope,
                interaction_id,
                operation_id,
                accepted_url_id,
            );
            let settled = match scope {
                Some((session_id, _)) =>
                    r.sessions[session_id].live->0.resolved_elicitations.contains(interaction_id),
                None => r.resolved_request_elicitations.contains(interaction_id),
            };
            let waiting = match scope {
                Some((session_id, _)) => entry(
                    r.sessions[session_id].live->0.elicitations,
                    interaction_id,
                ),
                None => entry(r.request_elicitations, interaction_id),
            };
            &&& settled || waiting is None ==> step.state == r && is_answer_to_settling(
                step.result,
                waiting is Some,
                settled,
            )
            &&& !settled ==> (waiting matches Some(question) ==> if question.responding_operation_id
                == Some(operation_id) {
                step == elicitation_resolved(r, epoch, scope, interaction_id, accepted_url_id)
            } else {
                step.state == r && step.result == Err::<InteractionResolution, RuntimeStateError>(
                    RuntimeStateError::OperationMismatch,
                )
            })
        }),
{
}

/// A flow that waits and is settled is gone; the rest stays. To set one back to
/// waiting is refused, and so is to settle one that nobody knows; and one that is
/// settled in the name of another registration stays.
pub proof fn law_settled_flow_is_gone(
    r: RegistryModel,
    epoch: Seq<char>,
    scope: Option<(Seq<char>, u64)>,
    elicitation_id: Seq<char>,
    registration_id: Seq<char>,
    status: UrlFlowStatus,
)
    requires
        epoch == r.epoch,
        scope matches Some((session_id, incarnation)) ==> lives(r, session_id, incarnation),
    ensures
        ({
            let step = registration_settled(
                r,
                epoch,
                scope,
                elicitation_id,
                registration_id,
                status,
            );
            let next = step.state;
            let flow = match scope {
                Some((session_id, _)) => entry(
                    r.sessions[session_id].live->0.url_flows,
                    elicitation_id,
                ),
                None => entry(r.request_url_flows, elicitation_id),
            };
            let settled = match scope {
                Some((session_id, _)) =>
                    r.sessions[session_id].live->0.resolved_url_flows.contains(elicitation_id),
                None => r.resolved_request_url_flows.contains(elicitation_id),
            };
            let foreign = flow is Some && flow->0.registration_id != registration_id;
            &&& foreign ==> next == r && step.result == Ok::<UrlFlowResolution, RuntimeStateError>(
                UrlFlowResolution::StaleRegistration,
            )
            &&& !foreign && status == UrlFlowStatus::Waiting ==> next == r && step.result == Err::<
                UrlFlowResolution,
                RuntimeStateError,
            >(RuntimeStateError::OperationMismatch)
            &&& !foreign && status != UrlFlowStatus::Waiting && settled ==> next == r
                && step.result == Ok::<UrlFlowResolution, RuntimeStateError>(
                UrlFlowResolution::AlreadyTerminal,
            )
            &&& status != UrlFlowStatus::Waiting && !settled && flow is None ==> next == r
                && step.result == Err::<UrlFlowResolution, RuntimeStateError>(
                RuntimeStateError::UnknownInteraction,
            )
            &&& !foreign && status != UrlFlowStatus::Waiting && !settled && flow is Some
                && flow->0.status == UrlFlowStatus::Waiting ==> {
                &&& step.result == Ok::<UrlFlowResolution, RuntimeStateError>(
                    UrlFlowResolution::Applied,
                )
                &&& match scope {
                    Some((session_id, _)) => {
                        let was = published(r).sessions[session_id];
                        let shown = published(next).sessions[session_id];
                        &&& shows_next(r, next, session_id)
                        &&& loses(was.url_flows, shown.url_flows, elicitation_id)
                        &&& next.sessions[session_id].live->0.resolved_url_flows
                            == r.sessions[session_id].live->0.resolved_url_flows.push(
                            elicitation_id,
                        )
                        &&& shown.permissions == was.permissions
                        &&& shown.elicitations == was.elicitations
                        &&& shown.terminals == was.terminals
                        &&& same_identity(was, shown)
                        &&& same_settings(was, shown)
                        &&& same_course(was, shown)
                        &&& tells_history(r.sessions[session_id], shown)
                    },
                    None => {
                        let was = published(r);
                        let shown = published(next);
                        &&& shows_connection_next(r, next)
                        &&& loses(was.request_url_flows, shown.request_url_flows, elicitation_id)
                        &&& shown.request_elicitations == was.request_elicitations
                        &&& next.resolved_request_url_flows == r.resolved_request_url_flows.push(
                            elicitation_id,
                        )
                    },
                }
            }
            &&& !foreign ==> step == flow_settled(r, epoch, scope, elicitation_id, status)
        }),
{
    reveal_strlit("cleanup");
    assert("cleanup"@.len() == 7);
}

/// A terminal is shown among the terminals of its session as it is folded into
/// what was known of it; once it is released it is gone. The rest of the session
/// stays.
pub proof fn law_terminal_is_shown(
    r: RegistryModel,
    epoch: Seq<char>,
    session_id: Seq<char>,
    incarnation: u64,
    terminal_id: Seq<char>,
    terminal: JsonModel,
)
    requires
        epoch == r.epoch,
        lives(r, session_id, incarnation),
    ensures
        ({
            let step = terminal_upserted(
                r,
                epoch,
                session_id,
                incarnation,
                terminal_id,
                terminal,
            );
            let next = step.state;
            let live = r.sessions[session_id].live->0;
            let known = entry(live.terminals, terminal_id);
            let folded = folded_terminal(known, terminal);
            let was = published(r).sessions[session_id];
            let shown = published(next).sessions[session_id];
            let gone = live.released_terminals.contains(terminal_id);
            let same = known is Some && json_equal(known->0, folded);
            &&& gone ==> next == r && step.result == Ok::<TerminalUpsert, RuntimeStateError>(
                TerminalUpsert::Stale,
            )
            &&& !gone && same ==> next == r && step.result == Ok::<
                TerminalUpsert,
                RuntimeStateError,
            >(TerminalUpsert::Duplicate)
            &&& !gone && !same ==> {
                &&& step.result == Ok::<TerminalUpsert, RuntimeStateError>(
                    if known is Some {
                        TerminalUpsert::Updated
                    } else {
                        TerminalUpsert::Inserted
                    },
                )
                &&& shows_next(r, next, session_id)
                &&& terminal.get("released"@) == Some(JsonModel::Bool(true)) ==> loses(
                    was.terminals,
                    shown.terminals,
                    terminal_id,
                )
                &&& terminal.get("released"@) != Some(JsonModel::Bool(true)) ==> gains(
                    was.terminals,
                    shown.terminals,
                    terminal_id,
                    folded,
                )
                &&& shown.permissions == was.permissions
                &&& shown.elicitations == was.elicitations
                &&& shown.url_flows == was.url_flows
                &&& same_identity(was, shown)
                &&& same_settings(was, shown)
                &&& same_course(was, shown)
            }
        }),
{
    reveal_strlit("cleanup");
    assert("cleanup"@.len() == 7);
}

} // verus!
