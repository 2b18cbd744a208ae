//! What is shown of the operations of a session: how it is closed and deleted,
//! how its controls are set, and what is let go of with it.
use crate::fold::RuntimeStateError;
use crate::guarantees::is_listed;
use crate::interaction_laws::gains;
use crate::json::JsonModel;
use crate::registry::{in_use, published, RegistryModel, Reservation};
use crate::registry::operations::{
    cleanup_result, control_completed, delete_closed, delete_completed, delete_started,
    direct_delete_started, exclusive_started, operation_completed, operation_failed,
    operation_uncertain, session_closed,
};
use crate::registry::turns::turn_ended;
use crate::runtime_types::{
    EffectModel, InteractionModel, LiveModel, MirrorError, OwnerModel, SessionAdmission,
    SessionLifecycle, SessionModel, SessionOperationKind, UrlFlowModel, UrlFlowStatus,
};
use crate::session_laws::{
    is_bare, lives, same_identity, same_resources, same_settings, shows_next, tells_history,
};
use crate::session_live::{
    drain_effects, elicitation_effects, flow_effects, held_terminals, owned_by, permission_effects,
    terminal_effects, waiting_flows,
};
use crate::table::{lemma_chosen, sorted_keys};
use crate::turn_laws::runs;
use vstd::prelude::*;

verus! {

/// Whether a session performs an operation, of a kind, at a stage.
pub open spec fn performs(
    shown: SessionModel,
    operation_id: Seq<char>,
    kind: SessionOperationKind,
    stage: Seq<char>,
) -> bool {
    shown.operation matches Some(operation) && operation.operation_id == operation_id
        && operation.kind == kind && operation.stage == stage && operation.uncertainty_reason
        is None
}

/// Whether an owner is free for an operation: it performs none and the history
/// grants it, or it has reserved this very one.
pub open spec fn may_start(
    owner: OwnerModel,
    operation_id: Seq<char>,
    kind: SessionOperationKind,
    history_admits: bool,
) -> bool {
    match owner.operation {
        None => history_admits,
        Some(operation) => operation.operation_id == operation_id && operation.kind == kind
            && operation.stage == "reserved"@,
    }
}

/// An operation starts on a session that lives, is active and is free for it,
/// and only closing and setting a control go along with a running turn; a closed
/// session may only be deleted. The session is then shown with the operation; it
/// is on its way to be closed where it is to be closed or deleted, and is being
/// deleted where it is closed already or is deleted as it is. The rest stays.
pub proof fn law_started_operation_is_shown(
    r: RegistryModel,
    epoch: Seq<char>,
    session_id: Seq<char>,
    incarnation: u64,
    operation_id: Seq<char>,
    kind: SessionOperationKind,
    stage: Seq<char>,
    history_admits: bool,
)
    requires
        stage != "cleanup"@,
    ensures
        ({
            let step = exclusive_started(
                r,
                epoch,
                session_id,
                incarnation,
                operation_id,
                kind,
                stage,
                history_admits,
            );
            let next = step.state;
            let owner = r.sessions[session_id];
            let lifecycle = owner.live->0.lifecycle;
            let was = published(r).sessions[session_id];
            let shown = published(next).sessions[session_id];
            &&& step.result is Ok <==> epoch == r.epoch && !in_use(
                r,
                operation_id,
                Some(Reservation { session_id, incarnation, kind }),
            ) && lives(r, session_id, incarnation) && may_start(
                owner,
                operation_id,
                kind,
                history_admits,
            ) && (lifecycle == SessionLifecycle::Active || (kind == SessionOperationKind::Delete
                && lifecycle == SessionLifecycle::Closed)) && (runs(r, session_id) ==> kind
                == SessionOperationKind::Close || kind == SessionOperationKind::SetMode || kind
                == SessionOperationKind::SetConfig)
            &&& step.result is Ok ==> {
                &&& shows_next(r, next, session_id)
                &&& performs(shown, operation_id, kind, stage)
                &&& kind == SessionOperationKind::Close ==> shown.lifecycle
                    == SessionLifecycle::Closing
                &&& kind == SessionOperationKind::Delete ==> shown.lifecycle == (if was.lifecycle
                    == SessionLifecycle::Closed || stage == "deleting_active"@ {
                    SessionLifecycle::Deleting
                } else {
                    SessionLifecycle::ClosingForDelete
                })
                &&& kind != SessionOperationKind::Close && kind != SessionOperationKind::Delete
                    ==> shown.lifecycle == was.lifecycle
                &&& shown.active_turn == was.active_turn
                &&& same_identity(was, shown)
                &&& same_settings(was, shown)
                &&& same_resources(was, shown)
                &&& tells_history(owner, shown)
                &&& next.effects == r.effects
            }
        }),
{
    reveal_strlit("cleanup");
    reveal_strlit("reserved");
    assert("cleanup"@.len() == 7);
    assert("reserved"@.len() == 8);
}

/// A session that is to be deleted is closed first where it is active, unless it
/// is deleted as it is; one that is closed is deleted at once; any other is not
/// deleted.
pub proof fn law_deletion_starts_by_closing(
    r: RegistryModel,
    epoch: Seq<char>,
    session_id: Seq<char>,
    incarnation: u64,
    operation_id: Seq<char>,
    history_admits: bool,
)
    requires
        lives(r, session_id, incarnation),
    ensures
        ({
            let step = delete_started(
                r,
                epoch,
                session_id,
                incarnation,
                operation_id,
                history_admits,
            );
            let direct = direct_delete_started(
                r,
                epoch,
                session_id,
                incarnation,
                operation_id,
                history_admits,
            );
            let lifecycle = r.sessions[session_id].live->0.lifecycle;
            let shown = published(step.state).sessions[session_id];
            let at_once = published(direct.state).sessions[session_id];
            let kind = SessionOperationKind::Delete;
            &&& lifecycle != SessionLifecycle::Active && lifecycle != SessionLifecycle::Closed
                ==> step.result == Err::<(), RuntimeStateError>(RuntimeStateError::SessionNotActive)
            &&& lifecycle != SessionLifecycle::Active ==> direct.result == Err::<
                (),
                RuntimeStateError,
            >(RuntimeStateError::SessionNotActive)
            &&& step.result is Ok && lifecycle == SessionLifecycle::Active ==> performs(
                shown,
                operation_id,
                kind,
                "closing"@,
            ) && shown.lifecycle == SessionLifecycle::ClosingForDelete
            &&& step.result is Ok && lifecycle == SessionLifecycle::Closed ==> performs(
                shown,
                operation_id,
                kind,
                "deleting"@,
            ) && shown.lifecycle == SessionLifecycle::Deleting
            &&& direct.result is Ok ==> performs(at_once, operation_id, kind, "deleting_active"@)
                && at_once.lifecycle == SessionLifecycle::Deleting
            &&& lifecycle == SessionLifecycle::Active ==> (step.result is Ok <==> direct.result
                is Ok)
            &&& lifecycle == SessionLifecycle::Active || lifecycle == SessionLifecycle::Closed
                ==> (step.result is Ok <==> epoch == r.epoch && !in_use(
                r,
                operation_id,
                Some(Reservation { session_id, incarnation, kind }),
            ) && may_start(r.sessions[session_id], operation_id, kind, history_admits) && !runs(
                r,
                session_id,
            ))
        }),
{
    reveal_strlit("cleanup");
    reveal_strlit("closing");
    reveal_strlit("deleting");
    reveal_strlit("deleting_active");
    reveal_strlit("reserved");
    assert("cleanup"@.len() == 7);
    assert("closing"@.len() == 7);
    assert("deleting"@.len() == 8);
    assert("deleting_active"@.len() == 15);
    assert("reserved"@.len() == 8);
    assert("cleanup"@[2] == 'e');
    assert("closing"@[2] == 'o');
    assert("deleting"@[0] == 'd');
    assert("reserved"@[0] == 'r');
}

/// Whether a session performs an operation of a kind.
pub open spec fn is_at(
    r: RegistryModel,
    session_id: Seq<char>,
    operation_id: Seq<char>,
    kind: SessionOperationKind,
) -> bool {
    r.sessions[session_id].operation matches Some(operation) && operation.operation_id
        == operation_id && operation.kind == kind
}

/// A session that was closed on its way to be deleted is shown as being deleted:
/// it holds nothing any more and runs no turn, and all that it held is let go.
pub proof fn law_closing_for_deletion_empties_the_session(
    r: RegistryModel,
    epoch: Seq<char>,
    session_id: Seq<char>,
    incarnation: u64,
    operation_id: Seq<char>,
)
    ensures
        ({
            let step = delete_closed(r, epoch, session_id, incarnation, operation_id);
            let next = step.state;
            let owner = r.sessions[session_id];
            let was = published(r).sessions[session_id];
            let shown = published(next).sessions[session_id];
            &&& step.result is Ok <==> epoch == r.epoch && lives(r, session_id, incarnation)
                && is_at(r, session_id, operation_id, SessionOperationKind::Delete)
                && owner.operation->0.stage == "closing"@ && owner.live->0.lifecycle
                == SessionLifecycle::ClosingForDelete
            &&& step.result is Ok ==> {
                &&& shows_next(r, next, session_id)
                &&& shown.lifecycle == SessionLifecycle::Deleting
                &&& shown.operation matches Some(operation) && operation.operation_id
                    == operation_id && operation.kind == SessionOperationKind::Delete
                    && operation.stage == "deleting"@
                &&& shown.active_turn is None
                &&& is_bare(shown)
                &&& same_identity(was, shown)
                &&& same_settings(was, shown)
                &&& tells_history(owner, shown)
                &&& next.effects == r.effects + drain_effects(
                    session_id,
                    incarnation,
                    owner.live->0,
                )
            }
        }),
{
    reveal_strlit("cleanup");
    reveal_strlit("closing");
    reveal_strlit("deleting");
    assert("cleanup"@.len() == 7);
    assert("closing"@.len() == 7);
    assert("deleting"@.len() == 8);
    assert("cleanup"@[2] == 'e');
    assert("closing"@[2] == 'o');
}

/// A session that has been deleted, or closed for good, is not shown any more;
/// nothing of it is left to be reached, all that it held is let go, and its
/// operation waits only for the cleanup.
pub proof fn law_removed_session_is_not_shown(
    r: RegistryModel,
    epoch: Seq<char>,
    session_id: Seq<char>,
    incarnation: u64,
    operation_id: Seq<char>,
)
    ensures
        ({
            let deleted = delete_completed(r, epoch, session_id, incarnation, operation_id);
            let closed = session_closed(r, epoch, session_id, incarnation, operation_id);
            let owner = r.sessions[session_id];
            let effects = r.effects + drain_effects(session_id, incarnation, owner.live->0);
            &&& deleted.result is Ok <==> epoch == r.epoch && lives(r, session_id, incarnation)
                && owner.live->0.lifecycle == SessionLifecycle::Deleting && is_at(
                r,
                session_id,
                operation_id,
                SessionOperationKind::Delete,
            ) && (owner.operation->0.stage == "deleting"@ || owner.operation->0.stage
                == "deleting_active"@)
            &&& closed.result is Ok <==> epoch == r.epoch && lives(r, session_id, incarnation)
                && is_at(r, session_id, operation_id, SessionOperationKind::Close)
            &&& deleted.result is Ok ==> {
                &&& !published(deleted.state).sessions.contains_key(session_id)
                &&& !lives(deleted.state, session_id, incarnation)
                &&& deleted.state.sessions[session_id].live is None
                &&& is_at(
                    deleted.state,
                    session_id,
                    operation_id,
                    SessionOperationKind::Delete,
                )
                &&& deleted.state.sessions[session_id].operation->0.stage == "cleanup"@
                &&& !runs(deleted.state, session_id)
                &&& deleted.state.effects == effects
            }
            &&& closed.result is Ok ==> {
                &&& !published(closed.state).sessions.contains_key(session_id)
                &&& !lives(closed.state, session_id, incarnation)
                &&& closed.state.sessions[session_id].live matches Some(live) && live.lifecycle
                    == SessionLifecycle::Closed && live.permissions == Map::<
                    Seq<char>,
                    InteractionModel,
                >::empty() && live.elicitations == Map::<Seq<char>, InteractionModel>::empty()
                    && live.url_flows == Map::<Seq<char>, UrlFlowModel>::empty()
                    && live.terminals == Map::<Seq<char>, JsonModel>::empty()
                &&& is_at(closed.state, session_id, operation_id, SessionOperationKind::Close)
                &&& closed.state.sessions[session_id].operation->0.stage == "cleanup"@
                &&& !runs(closed.state, session_id)
                &&& closed.state.effects == effects
            }
        }),
{
    reveal_strlit("cleanup");
    reveal_strlit("deleting");
    reveal_strlit("deleting_active");
    assert("cleanup"@.len() == 7);
    assert("deleting"@.len() == 8);
    assert("deleting_active"@.len() == 15);
}

/// Whether something is let go of: a responder, a flow or a terminal.
pub open spec fn lets_go(effects: Seq<EffectModel>, effect: EffectModel) -> bool {
    effects.contains(effect)
}

/// What is let go of with a session is all that it holds and nothing else: the
/// responder of each permission request and of each question, each flow that
/// waits, under its registration, and each terminal that is not released.
pub proof fn law_everything_held_is_let_go(
    session_id: Seq<char>,
    incarnation: u64,
    live: LiveModel,
    key: Seq<char>,
)
    requires
        is_listed(live.permissions),
        is_listed(live.elicitations),
        is_listed(live.url_flows),
        is_listed(live.terminals),
    ensures
        ({
            let effects = drain_effects(session_id, incarnation, live);
            &&& lets_go(
                effects,
                EffectModel::CancelPermissionResponder {
                    session_id,
                    incarnation,
                    interaction_id: key,
                },
            ) <==> live.permissions.contains_key(key)
            &&& lets_go(
                effects,
                EffectModel::CancelElicitationResponder {
                    session_id: Some(session_id),
                    incarnation: Some(incarnation),
                    interaction_id: key,
                },
            ) <==> live.elicitations.contains_key(key)
            &&& live.url_flows.contains_key(key) && live.url_flows[key].status
                == UrlFlowStatus::Waiting ==> lets_go(
                effects,
                EffectModel::AbortUrlFlow {
                    session_id: Some(session_id),
                    incarnation: Some(incarnation),
                    elicitation_id: key,
                    registration_id: live.url_flows[key].registration_id,
                },
            )
            &&& lets_go(effects, EffectModel::ReleaseTerminal { session_id, terminal_id: key })
                <==> live.terminals.contains_key(key) && live.terminals[key].get("released"@)
                != Some(JsonModel::Bool(true))
        }),
{
    let permissions = sorted_keys(live.permissions);
    let elicitations = sorted_keys(live.elicitations);
    let flows = waiting_flows(live.url_flows);
    let held = held_terminals(live.terminals);
    let a = permission_effects(session_id, incarnation, permissions);
    let b = elicitation_effects(session_id, incarnation, elicitations);
    let c = flow_effects(session_id, incarnation, live.url_flows, flows);
    let d = terminal_effects(session_id, held);
    let effects = drain_effects(session_id, incarnation, live);
    assert(effects == a + b + c + d);
    lemma_chosen(
        sorted_keys(live.url_flows),
        |k: Seq<char>| live.url_flows[k].status == UrlFlowStatus::Waiting,
        key,
    );
    lemma_chosen(
        sorted_keys(live.terminals),
        |k: Seq<char>| !live.terminals[k].true_at("released"@),
        key,
    );
    assert(permissions.to_set().contains(key) == live.permissions.contains_key(key));
    assert(elicitations.to_set().contains(key) == live.elicitations.contains_key(key));
    assert(sorted_keys(live.url_flows).to_set().contains(key) == live.url_flows.contains_key(key));
    assert(sorted_keys(live.terminals).to_set().contains(key) == live.terminals.contains_key(key));
    let x = a.len() as int;
    let y = x + b.len();
    let z = y + c.len();
    assert forall|i: int| 0 <= i < effects.len() implies #[trigger] effects[i] == (if i < x {
        a[i]
    } else if i < y {
        b[i - x]
    } else if i < z {
        c[i - y]
    } else {
        d[i - z]
    }) by {
    }
    if live.permissions.contains_key(key) {
        let i = choose|i: int| 0 <= i < permissions.len() && permissions[i] == key;
        assert(effects[i] == a[i]);
    }
    if live.elicitations.contains_key(key) {
        let i = choose|i: int| 0 <= i < elicitations.len() && elicitations[i] == key;
        assert(effects[x + i] == b[i]);
    }
    if flows.contains(key) {
        let i = choose|i: int| 0 <= i < flows.len() && flows[i] == key;
        assert(effects[y + i] == c[i]);
    }
    if held.contains(key) {
        let i = choose|i: int| 0 <= i < held.len() && held[i] == key;
        assert(effects[z + i] == d[i]);
    }
    let p = EffectModel::CancelPermissionResponder {
        session_id,
        incarnation,
        interaction_id: key,
    };
    if effects.contains(p) {
        let i = choose|i: int| 0 <= i < effects.len() && effects[i] == p;
        assert(permissions[i] == key);
    }
    let q = EffectModel::CancelElicitationResponder {
        session_id: Some(session_id),
        incarnation: Some(incarnation),
        interaction_id: key,
    };
    if effects.contains(q) {
        let i = choose|i: int| 0 <= i < effects.len() && effects[i] == q;
        assert(elicitations[i - x] == key);
    }
    let t = EffectModel::ReleaseTerminal { session_id, terminal_id: key };
    if effects.contains(t) {
        let i = choose|i: int| 0 <= i < effects.len() && effects[i] == t;
        assert(held[i - z] == key);
    }
}

/// A turn that ends cancels the responder of each question that it asked, and of
/// no other.
pub proof fn law_ended_turn_cancels_its_questions(
    r: RegistryModel,
    epoch: Seq<char>,
    session_id: Seq<char>,
    incarnation: u64,
    operation_id: Seq<char>,
    lifecycle: Option<SessionLifecycle>,
    key: Seq<char>,
)
    requires
        turn_ended(r, epoch, session_id, incarnation, operation_id, lifecycle).result is Ok,
        is_listed(r.sessions[session_id].live->0.permissions),
        is_listed(r.sessions[session_id].live->0.elicitations),
    ensures
        ({
            let next = turn_ended(r, epoch, session_id, incarnation, operation_id, lifecycle).state;
            let live = r.sessions[session_id].live->0;
            let more = next.effects.skip(r.effects.len() as int);
            &&& r.effects.len() <= next.effects.len()
            &&& next.effects.take(r.effects.len() as int) == r.effects
            &&& lets_go(
                more,
                EffectModel::CancelPermissionResponder {
                    session_id,
                    incarnation,
                    interaction_id: key,
                },
            ) <==> live.permissions.contains_key(key) && live.permissions[key].operation_id
                == Some(operation_id)
            &&& lets_go(
                more,
                EffectModel::CancelElicitationResponder {
                    session_id: Some(session_id),
                    incarnation: Some(incarnation),
                    interaction_id: key,
                },
            ) <==> live.elicitations.contains_key(key) && live.elicitations[key].operation_id
                == Some(operation_id)
        }),
{
    let live = r.sessions[session_id].live->0;
    let next = turn_ended(r, epoch, session_id, incarnation, operation_id, lifecycle).state;
    let permissions = owned_by(live.permissions, operation_id);
    let elicitations = owned_by(live.elicitations, operation_id);
    let a = permission_effects(session_id, incarnation, permissions);
    let b = elicitation_effects(session_id, incarnation, elicitations);
    assert(next.effects == r.effects + a + b);
    let more = next.effects.skip(r.effects.len() as int);
    assert(more =~= a + b);
    assert(next.effects.take(r.effects.len() as int) =~= r.effects);
    lemma_chosen(
        sorted_keys(live.permissions),
        |k: Seq<char>| live.permissions[k].operation_id == Some(operation_id),
        key,
    );
    lemma_chosen(
        sorted_keys(live.elicitations),
        |k: Seq<char>| live.elicitations[k].operation_id == Some(operation_id),
        key,
    );
    assert(sorted_keys(live.permissions).to_set().contains(key) == live.permissions.contains_key(
        key,
    ));
    assert(sorted_keys(live.elicitations).to_set().contains(key)
        == live.elicitations.contains_key(key));
    let x = a.len() as int;
    if permissions.contains(key) {
        let i = choose|i: int| 0 <= i < permissions.len() && permissions[i] == key;
        assert(more[i] == a[i]);
    }
    if elicitations.contains(key) {
        let i = choose|i: int| 0 <= i < elicitations.len() && elicitations[i] == key;
        assert(more[x + i] == b[i]);
    }
    let p = EffectModel::CancelPermissionResponder {
        session_id,
        incarnation,
        interaction_id: key,
    };
    if more.contains(p) {
        let i = choose|i: int| 0 <= i < more.len() && more[i] == p;
        assert(permissions[i] == key);
    }
    let q = EffectModel::CancelElicitationResponder {
        session_id: Some(session_id),
        incarnation: Some(incarnation),
        interaction_id: key,
    };
    if more.contains(q) {
        let i = choose|i: int| 0 <= i < more.len() && more[i] == q;
        assert(elicitations[i - x] == key);
    }
}

/// An operation of which nobody knows how it ended leaves its session uncertain:
/// it is shown with the operation and the reason, and holds nothing any more.
pub proof fn law_uncertain_operation_is_shown(
    r: RegistryModel,
    epoch: Seq<char>,
    session_id: Seq<char>,
    incarnation: u64,
    operation_id: Seq<char>,
    reason: Seq<char>,
)
    ensures
        ({
            let step = operation_uncertain(
                r,
                epoch,
                session_id,
                incarnation,
                operation_id,
                reason,
            );
            let next = step.state;
            let owner = r.sessions[session_id];
            let was = published(r).sessions[session_id];
            let shown = published(next).sessions[session_id];
            &&& step.result is Ok <==> epoch == r.epoch && lives(r, session_id, incarnation)
                && owner.operation is Some && owner.operation->0.operation_id == operation_id
            &&& step.result is Ok ==> {
                &&& shows_next(r, next, session_id)
                &&& shown.lifecycle == SessionLifecycle::Uncertain
                &&& shown.operation matches Some(operation) && operation.operation_id
                    == operation_id && operation.kind == owner.operation->0.kind
                    && operation.stage == "uncertain"@ && operation.uncertainty_reason == Some(
                    reason,
                )
                &&& shown.active_turn == was.active_turn
                &&& is_bare(shown)
                &&& same_identity(was, shown)
                &&& same_settings(was, shown)
                &&& tells_history(owner, shown)
                &&& next.effects == r.effects + drain_effects(
                    session_id,
                    incarnation,
                    owner.live->0,
                )
            }
        }),
{
    reveal_strlit("cleanup");
    reveal_strlit("uncertain");
    assert("cleanup"@.len() == 7);
    assert("uncertain"@.len() == 9);
}

/// An operation that is done is not shown any more; a control that was set stands
/// under its key. An operation that failed is not shown any more either; a session
/// that was to be closed or deleted is active again, or closed where it was closed
/// already. The rest stays.
pub proof fn law_ended_operation_is_not_shown(
    r: RegistryModel,
    epoch: Seq<char>,
    session_id: Seq<char>,
    incarnation: u64,
    operation_id: Seq<char>,
    kind: SessionOperationKind,
    key: Seq<char>,
    update: JsonModel,
)
    ensures
        ({
            let done = operation_completed(r, epoch, session_id, incarnation, operation_id, kind);
            let set = control_completed(
                r,
                epoch,
                session_id,
                incarnation,
                operation_id,
                kind,
                key,
                update,
            );
            let failed = operation_failed(r, epoch, session_id, incarnation, operation_id, kind);
            let owner = r.sessions[session_id];
            let was = published(r).sessions[session_id];
            let running = epoch == r.epoch && lives(r, session_id, incarnation) && is_at(
                r,
                session_id,
                operation_id,
                kind,
            );
            &&& done.result is Ok <==> running && kind != SessionOperationKind::Close && kind
                != SessionOperationKind::Delete
            &&& set.result is Ok <==> running && (kind == SessionOperationKind::SetMode || kind
                == SessionOperationKind::SetConfig)
            &&& failed.result is Ok <==> running
            &&& done.result is Ok ==> {
                let shown = published(done.state).sessions[session_id];
                &&& shows_next(r, done.state, session_id)
                &&& shown.operation is None
                &&& shown.lifecycle == was.lifecycle
                &&& shown.active_turn == was.active_turn
                &&& same_identity(was, shown)
                &&& same_settings(was, shown)
                &&& same_resources(was, shown)
                &&& tells_history(owner, shown)
            }
            &&& set.result is Ok ==> {
                let shown = published(set.state).sessions[session_id];
                &&& shows_next(r, set.state, session_id)
                &&& gains(was.control_state, shown.control_state, key, update)
                &&& shown.session == was.session
                &&& shown.operation is None
                &&& shown.lifecycle == was.lifecycle
                &&& shown.active_turn == was.active_turn
                &&& same_identity(was, shown)
                &&& same_resources(was, shown)
                &&& tells_history(owner, shown)
            }
            &&& failed.result is Ok ==> {
                let shown = published(failed.state).sessions[session_id];
                &&& shows_next(r, failed.state, session_id)
                &&& shown.operation is None
                &&& shown.lifecycle == (if kind == SessionOperationKind::Close {
                    SessionLifecycle::Active
                } else if kind == SessionOperationKind::Delete {
                    if owner.operation->0.stage == "deleting"@ {
                        SessionLifecycle::Closed
                    } else {
                        SessionLifecycle::Active
                    }
                } else {
                    was.lifecycle
                })
                &&& shown.active_turn == was.active_turn
                &&& same_identity(was, shown)
                &&& same_settings(was, shown)
                &&& same_resources(was, shown)
                &&& tells_history(owner, shown)
                &&& failed.state.effects == r.effects
            }
        }),
{
    reveal_strlit("cleanup");
    reveal_strlit("deleting");
    assert("cleanup"@.len() == 7);
    assert("deleting"@.len() == 8);
}

/// A session is cleaned up after it was closed, deleted, or could not be attached,
/// by the operation that did it and by no other.
pub proof fn law_cleanup_follows_its_operation(
    r: RegistryModel,
    session_id: Seq<char>,
    incarnation: u64,
    kind: SessionAdmission,
    operation_id: Seq<char>,
)
    ensures
        cleanup_result(r, session_id, incarnation, kind, operation_id) is Ok <==> {
            let owner = r.sessions[session_id];
            &&& r.sessions.contains_key(session_id)
            &&& owner.incarnation == incarnation
            &&& owner.operation matches Some(operation) && operation.operation_id == operation_id
                && match operation.kind {
                SessionOperationKind::Load => kind == SessionAdmission::Attachment,
                SessionOperationKind::Resume => kind == SessionAdmission::Attachment,
                SessionOperationKind::Fork => kind == SessionAdmission::Fork,
                SessionOperationKind::Close => kind == SessionAdmission::Close,
                SessionOperationKind::Delete => kind == SessionAdmission::Delete,
                SessionOperationKind::SetMode => kind == SessionAdmission::Control,
                SessionOperationKind::SetConfig => kind == SessionAdmission::Control,
            }
            &&& owner.live is Some ==> owner.live->0.lifecycle == SessionLifecycle::Closed
        },
        !r.sessions.contains_key(session_id) ==> cleanup_result(
            r,
            session_id,
            incarnation,
            kind,
            operation_id,
        ) == Err::<(), MirrorError>(MirrorError::UnknownSession),
        r.sessions.contains_key(session_id) && r.sessions[session_id].incarnation != incarnation
            ==> cleanup_result(r, session_id, incarnation, kind, operation_id) == Err::<
            (),
            MirrorError,
        >(MirrorError::StaleIncarnation),
{
}

} // verus!
