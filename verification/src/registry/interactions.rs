//! Questions to the user, flows through web pages, and terminals.
use crate::fold::{fold_terminal_snapshot, folded_terminal, terminal_released, RuntimeStateError};
use crate::journal::{bump, bumped};
use crate::json::{json_equal, same_json, Json, JsonModel};
use crate::registry::{
    accepted, admitted, connection_published, flow_in_use, in_use, lemma_put_back,
    lemma_put_back_unchanged, live_owner, refused, session_published, with_change, with_owner,
    RegistryModel, SessionRegistry, Step,
};
use crate::runtime_types::{
    ChangeModel, InteractionModel, InteractionResolution, InteractionResponseStart,
    InteractionUpsert, LiveModel, OwnerModel, PendingInteraction, RuntimeChange, SessionState,
    TerminalUpsert, UrlFlow, UrlFlowModel, UrlFlowResolution, UrlFlowStatus,
};
use crate::semantic::{has_text, texts};
use crate::session_live::{
    ask_interaction, begin_response, check_resolution, check_response, forget_text,
    interaction_asked, others, remember_resolved_interaction, resolution, response_begun,
    response_completed, settle_interaction, upsert_result, with_responder, UpsertModel,
};
use crate::session_update::optional_text;
use crate::table::Table;
use crate::text::same_text;
use vstd::prelude::*;

verus! {

broadcast use {lemma_put_back, lemma_put_back_unchanged};

/// The identifier of the running operation of a session.
pub open spec fn running_operation(owner: OwnerModel) -> Option<Seq<char>> {
    match owner.execution() {
        Some(execution) => Some(execution.rpc_operation_id),
        None => None,
    }
}

/// The owner with another live state.
pub open spec fn with_live(owner: OwnerModel, live: LiveModel) -> OwnerModel {
    OwnerModel { live: Some(live), ..owner }
}

/// Where a question stands: in a session of an incarnation, or outside.
pub open spec fn scope_model(scope: Option<(&str, u64)>) -> Option<(Seq<char>, u64)> {
    match scope {
        Some((session_id, incarnation)) => Some((session_id@, incarnation)),
        None => None,
    }
}

/// An optional text.
pub open spec fn text_model(text: Option<&str>) -> Option<Seq<char>> {
    match text {
        Some(text) => Some(text@),
        None => None,
    }
}

/// Asks for a permission.
pub open spec fn permission_asked(
    r: RegistryModel,
    epoch: Seq<char>,
    session_id: Seq<char>,
    incarnation: u64,
    interaction_id: Seq<char>,
    request: JsonModel,
) -> Step<InteractionUpsert> {
    match admitted(r, epoch, session_id, incarnation) {
        Err(error) => refused(r, error),
        Ok(owner) => {
            let live = owner.live->0;
            let outcome = interaction_asked(
                live.permissions,
                live.resolved_permissions,
                interaction_id,
                request,
                running_operation(owner),
            );
            Step {
                state: match outcome {
                    UpsertModel::Inserted { table } => session_published(
                        r,
                        session_id,
                        with_live(owner, LiveModel { permissions: table, ..live }),
                    ),
                    _ => r,
                },
                result: upsert_result(outcome),
            }
        },
    }
}

/// The session in which a permission request has been settled.
pub open spec fn permission_settled(owner: OwnerModel, interaction_id: Seq<char>) -> OwnerModel {
    with_live(
        owner,
        LiveModel {
            permissions: owner.live->0.permissions.remove(interaction_id),
            resolved_permissions: owner.live->0.resolved_permissions.push(interaction_id),
            ..owner.live->0
        },
    )
}

/// Settles a permission request.
pub open spec fn permission_resolved(
    r: RegistryModel,
    epoch: Seq<char>,
    session_id: Seq<char>,
    incarnation: u64,
    interaction_id: Seq<char>,
) -> Step<InteractionResolution> {
    match admitted(r, epoch, session_id, incarnation) {
        Err(error) => refused(r, error),
        Ok(owner) => {
            let result = resolution(
                owner.live->0.permissions,
                owner.live->0.resolved_permissions,
                interaction_id,
            );
            Step {
                state: if result == Ok::<_, RuntimeStateError>(InteractionResolution::Applied) {
                    session_published(r, session_id, permission_settled(owner, interaction_id))
                } else {
                    r
                },
                result,
            }
        },
    }
}

/// Begins the response to a permission request.
pub open spec fn permission_response_begun(
    r: RegistryModel,
    epoch: Seq<char>,
    session_id: Seq<char>,
    incarnation: u64,
    interaction_id: Seq<char>,
    operation_id: Seq<char>,
) -> Step<InteractionResponseStart> {
    match admitted(r, epoch, session_id, incarnation) {
        Err(error) => refused(r, error),
        Ok(owner) => {
            let live = owner.live->0;
            let result = response_begun(
                live.permissions,
                interaction_id,
                operation_id,
                in_use(r, operation_id, None),
            );
            Step {
                state: if result == Ok::<_, RuntimeStateError>(InteractionResponseStart::Applied) {
                    session_published(
                        r,
                        session_id,
                        with_live(
                            owner,
                            LiveModel {
                                permissions: with_responder(
                                    live.permissions,
                                    interaction_id,
                                    operation_id,
                                ),
                                ..live
                            },
                        ),
                    )
                } else {
                    r
                },
                result,
            }
        },
    }
}

/// Settles a permission request whose response has been delivered.
pub open spec fn permission_response_completed(
    r: RegistryModel,
    epoch: Seq<char>,
    session_id: Seq<char>,
    incarnation: u64,
    interaction_id: Seq<char>,
    operation_id: Seq<char>,
) -> Step<InteractionResolution> {
    match admitted(r, epoch, session_id, incarnation) {
        Err(error) => refused(r, error),
        Ok(owner) => {
            let result = response_completed(
                owner.live->0.permissions,
                owner.live->0.resolved_permissions,
                interaction_id,
                operation_id,
            );
            Step {
                state: if result == Ok::<_, RuntimeStateError>(InteractionResolution::Applied) {
                    session_published(r, session_id, permission_settled(owner, interaction_id))
                } else {
                    r
                },
                result,
            }
        },
    }
}

/// Asks a question that belongs to no session and so to no operation.
pub open spec fn request_asked(
    pending: Map<Seq<char>, InteractionModel>,
    resolved: Seq<Seq<char>>,
    interaction_id: Seq<char>,
    request: JsonModel,
) -> UpsertModel<InteractionModel> {
    if resolved.contains(interaction_id) {
        UpsertModel::AlreadyResolved
    } else if pending.contains_key(interaction_id) {
        if json_equal(pending[interaction_id].request, request) {
            UpsertModel::Duplicate
        } else {
            UpsertModel::Collision
        }
    } else {
        UpsertModel::Inserted {
            table: pending.insert(
                interaction_id,
                InteractionModel {
                    interaction_id,
                    request,
                    operation_id: None,
                    responding_operation_id: None,
                },
            ),
        }
    }
}

/// Asks a question.
pub open spec fn elicitation_asked(
    r: RegistryModel,
    epoch: Seq<char>,
    scope: Option<(Seq<char>, u64)>,
    interaction_id: Seq<char>,
    request: JsonModel,
) -> Step<InteractionUpsert> {
    match scope {
        Some((session_id, incarnation)) => match admitted(r, epoch, session_id, incarnation) {
            Err(error) => refused(r, error),
            Ok(owner) => {
                let live = owner.live->0;
                let outcome = interaction_asked(
                    live.elicitations,
                    live.resolved_elicitations,
                    interaction_id,
                    request,
                    running_operation(owner),
                );
                Step {
                    state: match outcome {
                        UpsertModel::Inserted { table } => session_published(
                            r,
                            session_id,
                            with_live(owner, LiveModel { elicitations: table, ..live }),
                        ),
                        _ => r,
                    },
                    result: upsert_result(outcome),
                }
            },
        },
        None => if epoch != r.epoch {
            refused(r, RuntimeStateError::EpochMismatch)
        } else {
            let outcome = request_asked(
                r.request_elicitations,
                r.resolved_request_elicitations,
                interaction_id,
                request,
            );
            Step {
                state: match outcome {
                    UpsertModel::Inserted { table } => connection_published(
                        RegistryModel { request_elicitations: table, ..r },
                    ),
                    _ => r,
                },
                result: upsert_result(outcome),
            }
        },
    }
}

/// The flow that an accepted question opens.
pub open spec fn opened_flow(
    elicitation_id: Seq<char>,
    registration_id: Seq<char>,
    request: JsonModel,
) -> UrlFlowModel {
    UrlFlowModel { elicitation_id, registration_id, request, status: UrlFlowStatus::Waiting }
}

/// The session in which a question has been settled. An accepted flow waits
/// from then on, even where a flow of that identifier was settled before.
pub open spec fn elicitation_settled(
    owner: OwnerModel,
    interaction_id: Seq<char>,
    accepted_url_id: Option<Seq<char>>,
) -> OwnerModel {
    let live = owner.live->0;
    let settled = LiveModel {
        elicitations: live.elicitations.remove(interaction_id),
        resolved_elicitations: live.resolved_elicitations.push(interaction_id),
        ..live
    };
    with_live(
        owner,
        match accepted_url_id {
            Some(url_id) => LiveModel {
                resolved_url_flows: others(live.resolved_url_flows, url_id),
                url_flows: live.url_flows.insert(
                    url_id,
                    opened_flow(url_id, interaction_id, live.elicitations[interaction_id].request),
                ),
                ..settled
            },
            None => settled,
        },
    )
}

/// The registry in which a question outside all sessions has been settled.
pub open spec fn request_settled(
    r: RegistryModel,
    interaction_id: Seq<char>,
    accepted_url_id: Option<Seq<char>>,
) -> RegistryModel {
    let settled = RegistryModel {
        request_elicitations: r.request_elicitations.remove(interaction_id),
        resolved_request_elicitations: r.resolved_request_elicitations.push(interaction_id),
        ..r
    };
    match accepted_url_id {
        Some(url_id) => RegistryModel {
            resolved_request_url_flows: others(r.resolved_request_url_flows, url_id),
            request_url_flows: r.request_url_flows.insert(
                url_id,
                opened_flow(
                    url_id,
                    interaction_id,
                    r.request_elicitations[interaction_id].request,
                ),
            ),
            ..settled
        },
        None => settled,
    }
}

/// What becomes of a question that is settled with a flow or without one.
pub open spec fn elicitation_resolution(
    r: RegistryModel,
    pending: Map<Seq<char>, InteractionModel>,
    resolved: Seq<Seq<char>>,
    interaction_id: Seq<char>,
    accepted_url_id: Option<Seq<char>>,
) -> Result<InteractionResolution, RuntimeStateError> {
    if resolved.contains(interaction_id) {
        Ok(InteractionResolution::AlreadyResolved)
    } else if accepted_url_id matches Some(url_id) && flow_in_use(r, url_id) {
        Err(RuntimeStateError::InteractionCollision)
    } else {
        resolution(pending, resolved, interaction_id)
    }
}

/// Settles a question.
pub open spec fn elicitation_resolved(
    r: RegistryModel,
    epoch: Seq<char>,
    scope: Option<(Seq<char>, u64)>,
    interaction_id: Seq<char>,
    accepted_url_id: Option<Seq<char>>,
) -> Step<InteractionResolution> {
    match scope {
        Some((session_id, incarnation)) => match admitted(r, epoch, session_id, incarnation) {
            Err(error) => refused(r, error),
            Ok(owner) => {
                let result = elicitation_resolution(
                    r,
                    owner.live->0.elicitations,
                    owner.live->0.resolved_elicitations,
                    interaction_id,
                    accepted_url_id,
                );
                Step {
                    state: if result == Ok::<_, RuntimeStateError>(
                        InteractionResolution::Applied,
                    ) {
                        session_published(
                            r,
                            session_id,
                            elicitation_settled(owner, interaction_id, accepted_url_id),
                        )
                    } else {
                        r
                    },
                    result,
                }
            },
        },
        None => if epoch != r.epoch {
            refused(r, RuntimeStateError::EpochMismatch)
        } else {
            let result = elicitation_resolution(
                r,
                r.request_elicitations,
                r.resolved_request_elicitations,
                interaction_id,
                accepted_url_id,
            );
            Step {
                state: if result == Ok::<_, RuntimeStateError>(InteractionResolution::Applied) {
                    connection_published(request_settled(r, interaction_id, accepted_url_id))
                } else {
                    r
                },
                result,
            }
        },
    }
}

/// Begins the response to a question.
pub open spec fn elicitation_response_begun(
    r: RegistryModel,
    epoch: Seq<char>,
    scope: Option<(Seq<char>, u64)>,
    interaction_id: Seq<char>,
    operation_id: Seq<char>,
) -> Step<InteractionResponseStart> {
    match scope {
        Some((session_id, incarnation)) => match admitted(r, epoch, session_id, incarnation) {
            Err(error) => refused(r, error),
            Ok(owner) => {
                let live = owner.live->0;
                let result = response_begun(
                    live.elicitations,
                    interaction_id,
                    operation_id,
                    in_use(r, operation_id, None),
                );
                Step {
                    state: if result == Ok::<_, RuntimeStateError>(
                        InteractionResponseStart::Applied,
                    ) {
                        session_published(
                            r,
                            session_id,
                            with_live(
                                owner,
                                LiveModel {
                                    elicitations: with_responder(
                                        live.elicitations,
                                        interaction_id,
                                        operation_id,
                                    ),
                                    ..live
                                },
                            ),
                        )
                    } else {
                        r
                    },
                    result,
                }
            },
        },
        None => if epoch != r.epoch {
            refused(r, RuntimeStateError::EpochMismatch)
        } else {
            let result = response_begun(
                r.request_elicitations,
                interaction_id,
                operation_id,
                in_use(r, operation_id, None),
            );
            Step {
                state: if result == Ok::<_, RuntimeStateError>(InteractionResponseStart::Applied) {
                    connection_published(
                        RegistryModel {
                            request_elicitations: with_responder(
                                r.request_elicitations,
                                interaction_id,
                                operation_id,
                            ),
                            ..r
                        },
                    )
                } else {
                    r
                },
                result,
            }
        },
    }
}

/// Settles a question whose response has been delivered.
pub open spec fn elicitation_response_completed(
    r: RegistryModel,
    epoch: Seq<char>,
    scope: Option<(Seq<char>, u64)>,
    interaction_id: Seq<char>,
    operation_id: Seq<char>,
    accepted_url_id: Option<Seq<char>>,
) -> Step<InteractionResolution> {
    let checked = match scope {
        Some((session_id, incarnation)) => match admitted(r, epoch, session_id, incarnation) {
            Err(error) => Err(error),
            Ok(owner) => response_completed(
                owner.live->0.elicitations,
                owner.live->0.resolved_elicitations,
                interaction_id,
                operation_id,
            ),
        },
        None => if epoch != r.epoch {
            Err(RuntimeStateError::EpochMismatch)
        } else {
            response_completed(
                r.request_elicitations,
                r.resolved_request_elicitations,
                interaction_id,
                operation_id,
            )
        },
    };
    if checked == Ok::<_, RuntimeStateError>(InteractionResolution::Applied) {
        elicitation_resolved(r, epoch, scope, interaction_id, accepted_url_id)
    } else {
        Step { state: r, result: checked }
    }
}

/// What becomes of a flow that is settled.
pub open spec fn flow_resolution(
    flows: Map<Seq<char>, UrlFlowModel>,
    resolved: Seq<Seq<char>>,
    elicitation_id: Seq<char>,
) -> Result<UrlFlowResolution, RuntimeStateError> {
    if resolved.contains(elicitation_id) {
        Ok(UrlFlowResolution::AlreadyTerminal)
    } else if !flows.contains_key(elicitation_id) {
        Err(RuntimeStateError::UnknownInteraction)
    } else if flows[elicitation_id].status != UrlFlowStatus::Waiting {
        Ok(UrlFlowResolution::AlreadyTerminal)
    } else {
        Ok(UrlFlowResolution::Applied)
    }
}

/// Settles a flow. A flow that does not wait any more is forgotten without a
/// publication.
pub open spec fn flow_settled(
    r: RegistryModel,
    epoch: Seq<char>,
    scope: Option<(Seq<char>, u64)>,
    elicitation_id: Seq<char>,
    status: UrlFlowStatus,
) -> Step<UrlFlowResolution> {
    if epoch != r.epoch {
        refused(r, RuntimeStateError::EpochMismatch)
    } else if status == UrlFlowStatus::Waiting {
        refused(r, RuntimeStateError::OperationMismatch)
    } else {
        match scope {
            Some((session_id, incarnation)) => match live_owner(r, session_id, incarnation) {
                Err(error) => refused(r, error),
                Ok(owner) => {
                    let live = owner.live->0;
                    let result = flow_resolution(
                        live.url_flows,
                        live.resolved_url_flows,
                        elicitation_id,
                    );
                    let without = LiveModel {
                        url_flows: live.url_flows.remove(elicitation_id),
                        ..live
                    };
                    Step {
                        state: if result == Ok::<_, RuntimeStateError>(
                            UrlFlowResolution::Applied,
                        ) {
                            session_published(
                                r,
                                session_id,
                                with_live(
                                    owner,
                                    LiveModel {
                                        resolved_url_flows: live.resolved_url_flows.push(
                                            elicitation_id,
                                        ),
                                        ..without
                                    },
                                ),
                            )
                        } else if result is Ok && !live.resolved_url_flows.contains(
                            elicitation_id,
                        ) {
                            with_owner(r, session_id, with_live(owner, without))
                        } else {
                            r
                        },
                        result,
                    }
                },
            },
            None => {
                let result = flow_resolution(
                    r.request_url_flows,
                    r.resolved_request_url_flows,
                    elicitation_id,
                );
                let without = RegistryModel {
                    request_url_flows: r.request_url_flows.remove(elicitation_id),
                    ..r
                };
                Step {
                    state: if result == Ok::<_, RuntimeStateError>(UrlFlowResolution::Applied) {
                        connection_published(
                            RegistryModel {
                                resolved_request_url_flows: r.resolved_request_url_flows.push(
                                    elicitation_id,
                                ),
                                ..without
                            },
                        )
                    } else if result is Ok && !r.resolved_request_url_flows.contains(
                        elicitation_id,
                    ) {
                        without
                    } else {
                        r
                    },
                    result,
                }
            },
        }
    }
}

/// Whether a flow stands under an identifier for another registration.
pub open spec fn is_stale_registration(
    flows: Map<Seq<char>, UrlFlowModel>,
    elicitation_id: Seq<char>,
    registration_id: Seq<char>,
) -> bool {
    flows.contains_key(elicitation_id) && flows[elicitation_id].registration_id != registration_id
}

/// Settles a flow of a registration. A flow that was registered anew is left
/// alone.
pub open spec fn registration_settled(
    r: RegistryModel,
    epoch: Seq<char>,
    scope: Option<(Seq<char>, u64)>,
    elicitation_id: Seq<char>,
    registration_id: Seq<char>,
    status: UrlFlowStatus,
) -> Step<UrlFlowResolution> {
    match scope {
        Some((session_id, incarnation)) => match admitted(r, epoch, session_id, incarnation) {
            Err(error) => refused(r, error),
            Ok(owner) => if is_stale_registration(
                owner.live->0.url_flows,
                elicitation_id,
                registration_id,
            ) {
                accepted(r, UrlFlowResolution::StaleRegistration)
            } else {
                flow_settled(r, epoch, scope, elicitation_id, status)
            },
        },
        None => if epoch == r.epoch && is_stale_registration(
            r.request_url_flows,
            elicitation_id,
            registration_id,
        ) {
            accepted(r, UrlFlowResolution::StaleRegistration)
        } else {
            flow_settled(r, epoch, scope, elicitation_id, status)
        },
    }
}

/// Whether a terminal will be folded into what is known of it.
pub open spec fn folds_terminal(
    r: RegistryModel,
    epoch: Seq<char>,
    session_id: Seq<char>,
    incarnation: u64,
    terminal_id: Seq<char>,
) -> bool {
    admitted(r, epoch, session_id, incarnation) matches Ok(owner)
        && !owner.live->0.released_terminals.contains(terminal_id)
}

/// The terminal that is known under an identifier.
pub open spec fn terminal_at(live: LiveModel, terminal_id: Seq<char>) -> Option<JsonModel> {
    if live.terminals.contains_key(terminal_id) {
        Some(live.terminals[terminal_id])
    } else {
        None
    }
}

/// Takes the state of a terminal in. A released terminal does not come back;
/// a state that says nothing new is not published; what is published is the
/// state as it came.
pub open spec fn terminal_upserted(
    r: RegistryModel,
    epoch: Seq<char>,
    session_id: Seq<char>,
    incarnation: u64,
    terminal_id: Seq<char>,
    terminal: JsonModel,
) -> Step<TerminalUpsert> {
    match admitted(r, epoch, session_id, incarnation) {
        Err(error) => refused(r, error),
        Ok(owner) => {
            let live = owner.live->0;
            let present = terminal_at(live, terminal_id);
            let folded = folded_terminal(present, terminal);
            if live.released_terminals.contains(terminal_id) {
                accepted(r, TerminalUpsert::Stale)
            } else if present matches Some(known) && json_equal(known, folded) {
                accepted(r, TerminalUpsert::Duplicate)
            } else {
                let revision = bumped(live.revision);
                let next = if terminal.true_at("released"@) {
                    LiveModel {
                        terminals: live.terminals.remove(terminal_id),
                        released_terminals: live.released_terminals.push(terminal_id),
                        revision,
                        ..live
                    }
                } else {
                    LiveModel {
                        terminals: live.terminals.insert(terminal_id, folded),
                        revision,
                        ..live
                    }
                };
                accepted(
                    with_change(
                        with_owner(r, session_id, with_live(owner, next)),
                        Some(revision),
                        ChangeModel::TerminalUpdated {
                            session_id,
                            incarnation,
                            revision,
                            terminal_id,
                            terminal,
                        },
                    ),
                    if present is Some {
                        TerminalUpsert::Updated
                    } else {
                        TerminalUpsert::Inserted
                    },
                )
            }
        },
    }
}

/// The identifier of the running operation of a session.
fn operation_of(owner: &SessionState) -> (operation: Option<String>)
    ensures
        optional_text(operation) == running_operation(owner@),
{
    match owner.turn_execution() {
        Some(execution) => Some(execution.rpc_operation_id.clone()),
        None => None,
    }
}

/// Opens a flow for a question that was accepted.
fn open_flow(
    flows: &mut Table<UrlFlow>,
    resolved: &mut Vec<String>,
    elicitation_id: &str,
    registration_id: &str,
    request: Json,
)
    ensures
        final(flows)@ == old(flows)@.insert(
            elicitation_id@,
            opened_flow(elicitation_id@, registration_id@, request@),
        ),
        texts(final(resolved)@) == others(texts(old(resolved)@), elicitation_id@),
{
    forget_text(resolved, elicitation_id);
    flows.insert(
        elicitation_id,
        UrlFlow {
            elicitation_id: elicitation_id.to_string(),
            registration_id: registration_id.to_string(),
            request,
            status: UrlFlowStatus::Waiting,
        },
    );
}

/// What would become of a flow that is settled.
fn check_flow(flows: &Table<UrlFlow>, resolved: &Vec<String>, elicitation_id: &str) -> (result:
    Result<UrlFlowResolution, RuntimeStateError>)
    ensures
        result == flow_resolution(flows@, texts(resolved@), elicitation_id@),
{
    if has_text(resolved, elicitation_id) {
        return Ok(UrlFlowResolution::AlreadyTerminal);
    }
    match flows.get(elicitation_id) {
        Some(flow) => if flow.status != UrlFlowStatus::Waiting {
            Ok(UrlFlowResolution::AlreadyTerminal)
        } else {
            Ok(UrlFlowResolution::Applied)
        },
        None => Err(RuntimeStateError::UnknownInteraction),
    }
}

fn is_registered_anew(flows: &Table<UrlFlow>, elicitation_id: &str, registration_id: &str) -> (stale:
    bool)
    ensures
        stale == is_stale_registration(flows@, elicitation_id@, registration_id@),
{
    match flows.get(elicitation_id) {
        Some(flow) => !same_text(flow.registration_id.as_str(), registration_id),
        None => false,
    }
}

impl SessionRegistry {
    /// Asks for a permission.
    pub fn upsert_permission(
        &mut self,
        expected_epoch: &str,
        session_id: &str,
        incarnation: u64,
        interaction_id: &str,
        request: &Json,
    ) -> (result: Result<InteractionUpsert, RuntimeStateError>)
        ensures
            (Step { state: final(self)@, result }) == permission_asked(
                old(self)@,
                expected_epoch@,
                session_id@,
                incarnation,
                interaction_id@,
                request@,
            ),
    {
        match self.require_owner(expected_epoch, session_id, incarnation) {
            Ok(_) => {},
            Err(error) => {
                return Err(error);
            },
        }
        let mut owner = self.take_owner(session_id);
        let operation = operation_of(&owner);
        match owner.live.take() {
            Some(mut live) => {
                let outcome = ask_interaction(
                    &mut live.permissions,
                    &live.resolved_permissions,
                    interaction_id,
                    request,
                    &operation,
                );
                owner.live = Some(live);
                match outcome {
                    Ok(InteractionUpsert::Inserted) => {
                        self.commit_session(session_id, owner);
                    },
                    _ => {
                        self.put_owner(session_id, owner);
                    },
                }
                outcome
            },
            None => Err(RuntimeStateError::UnknownSession),
        }
    }

    /// Settles a permission request.
    pub fn resolve_permission(
        &mut self,
        expected_epoch: &str,
        session_id: &str,
        incarnation: u64,
        interaction_id: &str,
    ) -> (result: Result<InteractionResolution, RuntimeStateError>)
        ensures
            (Step { state: final(self)@, result }) == permission_resolved(
                old(self)@,
                expected_epoch@,
                session_id@,
                incarnation,
                interaction_id@,
            ),
    {
        let outcome = match self.require_owner(expected_epoch, session_id, incarnation) {
            Ok(owner) => match &owner.live {
                Some(live) => check_resolution(
                    &live.permissions,
                    &live.resolved_permissions,
                    interaction_id,
                ),
                None => Err(RuntimeStateError::UnknownSession),
            },
            Err(error) => Err(error),
        };
        match outcome {
            Ok(InteractionResolution::Applied) => {
                self.settle_permission(session_id, interaction_id);
            },
            _ => {},
        }
        outcome
    }

    fn settle_permission(&mut self, session_id: &str, interaction_id: &str)
        requires
            old(self)@.sessions.contains_key(session_id@),
            old(self)@.sessions[session_id@].is_live(),
        ensures
            final(self)@ == session_published(
                old(self)@,
                session_id@,
                permission_settled(old(self)@.sessions[session_id@], interaction_id@),
            ),
    {
        let mut owner = self.take_owner(session_id);
        match owner.live.take() {
            Some(mut live) => {
                settle_interaction(
                    &mut live.permissions,
                    &mut live.resolved_permissions,
                    interaction_id,
                );
                owner.live = Some(live);
            },
            None => {},
        }
        self.commit_session(session_id, owner);
    }

    /// Begins the response to a permission request.
    pub fn begin_permission_response(
        &mut self,
        expected_epoch: &str,
        session_id: &str,
        incarnation: u64,
        interaction_id: &str,
        operation_id: &str,
    ) -> (result: Result<InteractionResponseStart, RuntimeStateError>)
        ensures
            (Step { state: final(self)@, result }) == permission_response_begun(
                old(self)@,
                expected_epoch@,
                session_id@,
                incarnation,
                interaction_id@,
                operation_id@,
            ),
    {
        match self.require_owner(expected_epoch, session_id, incarnation) {
            Ok(_) => {},
            Err(error) => {
                return Err(error);
            },
        }
        let used = self.operation_in_use(operation_id);
        let mut owner = self.take_owner(session_id);
        match owner.live.take() {
            Some(mut live) => {
                let outcome = begin_response(
                    &mut live.permissions,
                    interaction_id,
                    operation_id,
                    used,
                );
                owner.live = Some(live);
                match outcome {
                    Ok(InteractionResponseStart::Applied) => {
                        self.commit_session(session_id, owner);
                    },
                    _ => {
                        self.put_owner(session_id, owner);
                    },
                }
                outcome
            },
            None => Err(RuntimeStateError::UnknownSession),
        }
    }

    /// Settles a permission request whose response has been delivered.
    pub fn complete_permission_response(
        &mut self,
        expected_epoch: &str,
        session_id: &str,
        incarnation: u64,
        interaction_id: &str,
        operation_id: &str,
    ) -> (result: Result<InteractionResolution, RuntimeStateError>)
        ensures
            (Step { state: final(self)@, result }) == permission_response_completed(
                old(self)@,
                expected_epoch@,
                session_id@,
                incarnation,
                interaction_id@,
                operation_id@,
            ),
    {
        let outcome = match self.require_owner(expected_epoch, session_id, incarnation) {
            Ok(owner) => match &owner.live {
                Some(live) => check_response(
                    &live.permissions,
                    &live.resolved_permissions,
                    interaction_id,
                    operation_id,
                ),
                None => Err(RuntimeStateError::UnknownSession),
            },
            Err(error) => Err(error),
        };
        match outcome {
            Ok(InteractionResolution::Applied) => {
                self.settle_permission(session_id, interaction_id);
            },
            _ => {},
        }
        outcome
    }

    /// Asks a question, in a session or outside.
    pub fn upsert_elicitation(
        &mut self,
        expected_epoch: &str,
        scope: Option<(&str, u64)>,
        interaction_id: &str,
        request: &Json,
    ) -> (result: Result<InteractionUpsert, RuntimeStateError>)
        ensures
            (Step { state: final(self)@, result }) == elicitation_asked(
                old(self)@,
                expected_epoch@,
                scope_model(scope),
                interaction_id@,
                request@,
            ),
    {
        match scope {
            Some((session_id, incarnation)) => {
                match self.require_owner(expected_epoch, session_id, incarnation) {
                    Ok(_) => {},
                    Err(error) => {
                        return Err(error);
                    },
                }
                let mut owner = self.take_owner(session_id);
                let operation = operation_of(&owner);
                match owner.live.take() {
                    Some(mut live) => {
                        let outcome = ask_interaction(
                            &mut live.elicitations,
                            &live.resolved_elicitations,
                            interaction_id,
                            request,
                            &operation,
                        );
                        owner.live = Some(live);
                        match outcome {
                            Ok(InteractionUpsert::Inserted) => {
                                self.commit_session(session_id, owner);
                            },
                            _ => {
                                self.put_owner(session_id, owner);
                            },
                        }
                        outcome
                    },
                    None => Err(RuntimeStateError::UnknownSession),
                }
            },
            None => {
                match self.require_epoch(expected_epoch) {
                    Ok(_) => {},
                    Err(error) => {
                        return Err(error);
                    },
                }
                if has_text(&self.resolved_request_elicitations, interaction_id) {
                    return Ok(InteractionUpsert::AlreadyResolved);
                }
                match self.request_elicitations.get(interaction_id) {
                    Some(existing) => {
                        if same_json(&existing.request, request) {
                            return Ok(InteractionUpsert::Duplicate);
                        } else {
                            return Err(RuntimeStateError::InteractionCollision);
                        }
                    },
                    None => {},
                }
                self.request_elicitations.insert(
                    interaction_id,
                    PendingInteraction {
                        interaction_id: interaction_id.to_string(),
                        request: request.clone(),
                        operation_id: None,
                        responding_operation_id: None,
                    },
                );
                self.commit_connection();
                Ok(InteractionUpsert::Inserted)
            },
        }
    }

    /// What would become of a question that is settled.
    fn check_elicitation(
        &self,
        pending: &Table<PendingInteraction>,
        resolved: &Vec<String>,
        interaction_id: &str,
        accepted_url_id: Option<&str>,
    ) -> (result: Result<InteractionResolution, RuntimeStateError>)
        ensures
            result == elicitation_resolution(
                self@,
                pending@,
                texts(resolved@),
                interaction_id@,
                text_model(accepted_url_id),
            ),
    {
        if has_text(resolved, interaction_id) {
            return Ok(InteractionResolution::AlreadyResolved);
        }
        match accepted_url_id {
            Some(url_id) => {
                if self.url_flow_in_use(url_id) {
                    return Err(RuntimeStateError::InteractionCollision);
                }
            },
            None => {},
        }
        check_resolution(pending, resolved, interaction_id)
    }

    /// Settles a question. Where it was accepted with a flow, the flow waits
    /// from then on.
    pub fn resolve_elicitation(
        &mut self,
        expected_epoch: &str,
        scope: Option<(&str, u64)>,
        interaction_id: &str,
        accepted_url_id: Option<&str>,
    ) -> (result: Result<InteractionResolution, RuntimeStateError>)
        ensures
            (Step { state: final(self)@, result }) == elicitation_resolved(
                old(self)@,
                expected_epoch@,
                scope_model(scope),
                interaction_id@,
                text_model(accepted_url_id),
            ),
    {
        match scope {
            Some((session_id, incarnation)) => {
                let outcome = match self.require_owner(expected_epoch, session_id, incarnation) {
                    Ok(owner) => match &owner.live {
                        Some(live) => self.check_elicitation(
                            &live.elicitations,
                            &live.resolved_elicitations,
                            interaction_id,
                            accepted_url_id,
                        ),
                        None => Err(RuntimeStateError::UnknownSession),
                    },
                    Err(error) => Err(error),
                };
                match outcome {
                    Ok(InteractionResolution::Applied) => {},
                    _ => {
                        return outcome;
                    },
                }
                let mut owner = self.take_owner(session_id);
                match owner.live.take() {
                    Some(mut live) => {
                        let settled = settle_interaction(
                            &mut live.elicitations,
                            &mut live.resolved_elicitations,
                            interaction_id,
                        );
                        match (settled, accepted_url_id) {
                            (Some(interaction), Some(url_id)) => {
                                open_flow(
                                    &mut live.url_flows,
                                    &mut live.resolved_url_flows,
                                    url_id,
                                    interaction_id,
                                    interaction.request,
                                );
                            },
                            _ => {},
                        }
                        owner.live = Some(live);
                    },
                    None => {},
                }
                self.commit_session(session_id, owner);
                outcome
            },
            None => {
                match self.require_epoch(expected_epoch) {
                    Ok(_) => {},
                    Err(error) => {
                        return Err(error);
                    },
                }
                let outcome = self.check_elicitation(
                    &self.request_elicitations,
                    &self.resolved_request_elicitations,
                    interaction_id,
                    accepted_url_id,
                );
                match outcome {
                    Ok(InteractionResolution::Applied) => {},
                    _ => {
                        return outcome;
                    },
                }
                let settled = settle_interaction(
                    &mut self.request_elicitations,
                    &mut self.resolved_request_elicitations,
                    interaction_id,
                );
                match (settled, accepted_url_id) {
                    (Some(interaction), Some(url_id)) => {
                        open_flow(
                            &mut self.request_url_flows,
                            &mut self.resolved_request_url_flows,
                            url_id,
                            interaction_id,
                            interaction.request,
                        );
                    },
                    _ => {},
                }
                self.commit_connection();
                outcome
            },
        }
    }

    /// Begins the response to a question.
    pub fn begin_elicitation_response(
        &mut self,
        expected_epoch: &str,
        scope: Option<(&str, u64)>,
        interaction_id: &str,
        operation_id: &str,
    ) -> (result: Result<InteractionResponseStart, RuntimeStateError>)
        ensures
            (Step { state: final(self)@, result }) == elicitation_response_begun(
                old(self)@,
                expected_epoch@,
                scope_model(scope),
                interaction_id@,
                operation_id@,
            ),
    {
        match scope {
            Some((session_id, incarnation)) => {
                match self.require_owner(expected_epoch, session_id, incarnation) {
                    Ok(_) => {},
                    Err(error) => {
                        return Err(error);
                    },
                }
                let used = self.operation_in_use(operation_id);
                let mut owner = self.take_owner(session_id);
                match owner.live.take() {
                    Some(mut live) => {
                        let outcome = begin_response(
                            &mut live.elicitations,
                            interaction_id,
                            operation_id,
                            used,
                        );
                        owner.live = Some(live);
                        match outcome {
                            Ok(InteractionResponseStart::Applied) => {
                                self.commit_session(session_id, owner);
                            },
                            _ => {
                                self.put_owner(session_id, owner);
                            },
                        }
                        outcome
                    },
                    None => Err(RuntimeStateError::UnknownSession),
                }
            },
            None => {
                match self.require_epoch(expected_epoch) {
                    Ok(_) => {},
                    Err(error) => {
                        return Err(error);
                    },
                }
                let used = self.operation_in_use(operation_id);
                let outcome = begin_response(
                    &mut self.request_elicitations,
                    interaction_id,
                    operation_id,
                    used,
                );
                match outcome {
                    Ok(InteractionResponseStart::Applied) => {
                        self.commit_connection();
                    },
                    _ => {},
                }
                outcome
            },
        }
    }

    /// Settles a question whose response has been delivered.
    pub fn complete_elicitation_response(
        &mut self,
        expected_epoch: &str,
        scope: Option<(&str, u64)>,
        interaction_id: &str,
        operation_id: &str,
        accepted_url_id: Option<&str>,
    ) -> (result: Result<InteractionResolution, RuntimeStateError>)
        ensures
            (Step { state: final(self)@, result }) == elicitation_response_completed(
                old(self)@,
                expected_epoch@,
                scope_model(scope),
                interaction_id@,
                operation_id@,
                text_model(accepted_url_id),
            ),
    {
        let checked = match scope {
            Some((session_id, incarnation)) => match self.require_owner(
                expected_epoch,
                session_id,
                incarnation,
            ) {
                Ok(owner) => match &owner.live {
                    Some(live) => check_response(
                        &live.elicitations,
                        &live.resolved_elicitations,
                        interaction_id,
                        operation_id,
                    ),
                    None => Err(RuntimeStateError::UnknownSession),
                },
                Err(error) => Err(error),
            },
            None => match self.require_epoch(expected_epoch) {
                Ok(_) => check_response(
                    &self.request_elicitations,
                    &self.resolved_request_elicitations,
                    interaction_id,
                    operation_id,
                ),
                Err(error) => Err(error),
            },
        };
        match checked {
            Ok(InteractionResolution::Applied) => self.resolve_elicitation(
                expected_epoch,
                scope,
                interaction_id,
                accepted_url_id,
            ),
            _ => checked,
        }
    }

    /// Settles a flow of a registration.
    pub fn settle_url_registration(
        &mut self,
        expected_epoch: &str,
        scope: Option<(&str, u64)>,
        elicitation_id: &str,
        registration_id: &str,
        status: UrlFlowStatus,
    ) -> (result: Result<UrlFlowResolution, RuntimeStateError>)
        ensures
            (Step { state: final(self)@, result }) == registration_settled(
                old(self)@,
                expected_epoch@,
                scope_model(scope),
                elicitation_id@,
                registration_id@,
                status,
            ),
    {
        let stale = match scope {
            Some((session_id, incarnation)) => match self.require_owner(
                expected_epoch,
                session_id,
                incarnation,
            ) {
                Ok(owner) => match &owner.live {
                    Some(live) => is_registered_anew(
                        &live.url_flows,
                        elicitation_id,
                        registration_id,
                    ),
                    None => false,
                },
                Err(error) => {
                    return Err(error);
                },
            },
            None => match self.require_epoch(expected_epoch) {
                Ok(_) => is_registered_anew(
                    &self.request_url_flows,
                    elicitation_id,
                    registration_id,
                ),
                Err(error) => {
                    return Err(error);
                },
            },
        };
        if stale {
            return Ok(UrlFlowResolution::StaleRegistration);
        }
        self.settle_url_flow(expected_epoch, scope, elicitation_id, status)
    }

    /// Ends a flow through a web page, whichever registration it has.
    pub fn settle_url_flow(
        &mut self,
        expected_epoch: &str,
        scope: Option<(&str, u64)>,
        elicitation_id: &str,
        status: UrlFlowStatus,
    ) -> (result: Result<UrlFlowResolution, RuntimeStateError>)
        ensures
            (Step { state: final(self)@, result }) == flow_settled(
                old(self)@,
                expected_epoch@,
                scope_model(scope),
                elicitation_id@,
                status,
            ),
    {
        match self.require_epoch(expected_epoch) {
            Ok(_) => {},
            Err(error) => {
                return Err(error);
            },
        }
        if status == UrlFlowStatus::Waiting {
            return Err(RuntimeStateError::OperationMismatch);
        }
        match scope {
            Some((session_id, incarnation)) => {
                match self.require_live_owner(session_id, incarnation) {
                    Ok(_) => {},
                    Err(error) => {
                        return Err(error);
                    },
                }
                let mut owner = self.take_owner(session_id);
                match owner.live.take() {
                    Some(mut live) => {
                        let settled = has_text(&live.resolved_url_flows, elicitation_id);
                        let outcome = check_flow(
                            &live.url_flows,
                            &live.resolved_url_flows,
                            elicitation_id,
                        );
                        match outcome {
                            Ok(UrlFlowResolution::Applied) => {
                                live.url_flows.remove(elicitation_id);
                                remember_resolved_interaction(
                                    &mut live.resolved_url_flows,
                                    elicitation_id,
                                );
                                owner.live = Some(live);
                                self.commit_session(session_id, owner);
                            },
                            Ok(_) => {
                                if !settled {
                                    live.url_flows.remove(elicitation_id);
                                }
                                owner.live = Some(live);
                                self.put_owner(session_id, owner);
                            },
                            Err(_) => {
                                owner.live = Some(live);
                                self.put_owner(session_id, owner);
                            },
                        }
                        outcome
                    },
                    None => Err(RuntimeStateError::UnknownSession),
                }
            },
            None => {
                let settled = has_text(&self.resolved_request_url_flows, elicitation_id);
                let outcome = check_flow(
                    &self.request_url_flows,
                    &self.resolved_request_url_flows,
                    elicitation_id,
                );
                match outcome {
                    Ok(UrlFlowResolution::Applied) => {
                        self.request_url_flows.remove(elicitation_id);
                        remember_resolved_interaction(
                            &mut self.resolved_request_url_flows,
                            elicitation_id,
                        );
                        self.commit_connection();
                    },
                    Ok(_) => {
                        if !settled {
                            self.request_url_flows.remove(elicitation_id);
                        }
                    },
                    Err(_) => {},
                }
                outcome
            },
        }
    }

    /// Takes the state of a terminal in.
    pub fn upsert_terminal(
        &mut self,
        expected_epoch: &str,
        session_id: &str,
        incarnation: u64,
        terminal_id: &str,
        terminal: &Json,
    ) -> (result: Result<TerminalUpsert, RuntimeStateError>)
        requires
            folds_terminal(
                old(self)@,
                expected_epoch@,
                session_id@,
                incarnation,
                terminal_id@,
            ) ==> terminal@ is Object || terminal@ is Null,
        ensures
            (Step { state: final(self)@, result }) == terminal_upserted(
                old(self)@,
                expected_epoch@,
                session_id@,
                incarnation,
                terminal_id@,
                terminal@,
            ),
    {
        let (folded, known) = match self.require_owner(expected_epoch, session_id, incarnation) {
            Ok(owner) => match &owner.live {
                Some(live) => {
                    if has_text(&live.released_terminals, terminal_id) {
                        return Ok(TerminalUpsert::Stale);
                    }
                    let present = live.terminals.get(terminal_id);
                    let folded = fold_terminal_snapshot(present, terminal);
                    match present {
                        Some(present) => {
                            if same_json(present, &folded) {
                                return Ok(TerminalUpsert::Duplicate);
                            }
                            (folded, true)
                        },
                        None => (folded, false),
                    }
                },
                None => {
                    return Err(RuntimeStateError::UnknownSession);
                },
            },
            Err(error) => {
                return Err(error);
            },
        };
        let mut owner = self.take_owner(session_id);
        let mut revision: u64 = 0;
        match owner.live.take() {
            Some(mut live) => {
                if terminal_released(terminal) {
                    live.terminals.remove(terminal_id);
                    remember_resolved_interaction(&mut live.released_terminals, terminal_id);
                } else {
                    live.terminals.insert(terminal_id, folded);
                }
                live.revision = bump(live.revision);
                revision = live.revision;
                owner.live = Some(live);
            },
            None => {},
        }
        self.put_owner(session_id, owner);
        self.commit_delta(
            Some(revision),
            RuntimeChange::TerminalUpdated {
                session_id: session_id.to_string(),
                incarnation,
                revision,
                terminal_id: terminal_id.to_string(),
                terminal: terminal.clone(),
            },
        );
        if known {
            Ok(TerminalUpsert::Updated)
        } else {
            Ok(TerminalUpsert::Inserted)
        }
    }
}

} // verus!
