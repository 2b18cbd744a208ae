//! What holds over any series of transitions.
use crate::fold::RuntimeStateError;
use crate::json::JsonModel;
use crate::laws::{
    consistent, has_room, law_transitions_keep_consistency, lemma_release, lemma_transition_moves,
    outcome, run, sound, stays_in_room, subject_of, Transition,
};
use crate::registry::attachment::{attachment_started, forked, opened};
use crate::registry::interactions::{
    elicitation_asked, elicitation_resolved, elicitation_response_completed, flow_settled,
    permission_asked, permission_resolved, permission_response_completed, registration_settled,
};
use crate::registry::{accepted, live_owner, refused, RegistryModel};
use crate::runtime_types::{
    InteractionResolution, InteractionUpsert, UrlFlowResolution, UrlFlowStatus,
};
use crate::settlement::{all_kept, all_settle_once, law_nothing_waits_and_is_settled, registered_by};
use crate::steps::lemma_transition_steps;
use vstd::prelude::*;

verus! {

/// The incarnation that a transition gives to the session that it opens.
pub open spec fn given_incarnation(r: RegistryModel, t: Transition) -> Option<u64> {
    let result = match t {
        Transition::Open { epoch, session_id, cwd, session, control_state } => opened(
            r,
            epoch,
            session_id,
            cwd,
            session,
            control_state,
        ).result,
        Transition::Fork {
            epoch,
            session_id,
            cwd,
            session,
            source_id,
            source_incarnation,
            replay,
        } => forked(
            r,
            epoch,
            session_id,
            cwd,
            session,
            source_id,
            source_incarnation,
            replay,
        ).result,
        Transition::StartAttachment { epoch, session_id, cwd, operation_id, kind } => {
            attachment_started(r, epoch, session_id, cwd, operation_id, kind).result
        },
        _ => Err(RuntimeStateError::UnknownSession),
    };
    match result {
        Ok(incarnation) => Some(incarnation),
        Err(_) => None,
    }
}

proof fn lemma_given_is_next(r: RegistryModel, t: Transition)
    requires
        r.next_incarnation < u64::MAX,
        given_incarnation(r, t) is Some,
    ensures
        given_incarnation(r, t) == Some((r.next_incarnation + 1) as u64),
        outcome(r, t).state.next_incarnation == r.next_incarnation + 1,
        subject_of(t) matches Some(session_id) && outcome(r, t).state.sessions.contains_key(
            session_id,
        ) && outcome(r, t).state.sessions[session_id].incarnation == r.next_incarnation + 1,
{
    reveal(outcome);
}

/// Whether every session of a registry is still there, with an incarnation that
/// is no older.
pub open spec fn goes_forward(r: RegistryModel, next: RegistryModel) -> bool {
    &&& next.epoch == r.epoch
    &&& next.next_incarnation >= r.next_incarnation
    &&& forall|id: Seq<char>| #[trigger]
        r.sessions.contains_key(id) ==> next.sessions.contains_key(id)
            && next.sessions[id].incarnation >= r.sessions[id].incarnation
}

proof fn lemma_transition_goes_forward(r: RegistryModel, t: Transition)
    requires
        consistent(r),
        r.next_incarnation < u64::MAX,
    ensures
        goes_forward(r, outcome(r, t).state),
{
    let next = outcome(r, t).state;
    lemma_transition_steps(r, t);
    if t is Release {
        lemma_release(r, t);
    } else {
        lemma_transition_moves(r, t);
    }
    assert forall|id: Seq<char>| #[trigger] r.sessions.contains_key(id) implies {
        &&& next.sessions.contains_key(id)
        &&& next.sessions[id].incarnation >= r.sessions[id].incarnation
    } by {
        if subject_of(t) != Some(id) {
            assert(next.sessions.contains_key(id) && next.sessions[id] == r.sessions[id]);
        }
    }
}

proof fn lemma_take_is_series(ts: Seq<Transition>, count: int)
    requires
        0 < count <= ts.len(),
    ensures
        ts.take(count).drop_last() == ts.take(count - 1),
        ts.take(count).last() == ts[count - 1],
        ts.take(ts.len() as int) == ts,
{
    assert(ts.take(count).drop_last() =~= ts.take(count - 1));
    assert(ts.take(ts.len() as int) =~= ts);
}

proof fn lemma_part_stays_in_room(r: RegistryModel, ts: Seq<Transition>, count: int)
    requires
        stays_in_room(r, ts),
        0 <= count <= ts.len(),
    ensures
        stays_in_room(r, ts.take(count)),
        count < ts.len() ==> has_room(run(r, ts.take(count))),
    decreases ts.len(),
{
    if ts.len() > 0 {
        lemma_take_is_series(ts, ts.len() as int);
        if count < ts.len() {
            lemma_part_stays_in_room(r, ts.drop_last(), count);
            assert(ts.drop_last().take(count) =~= ts.take(count));
        }
    } else {
        assert(ts.take(count) =~= ts);
    }
}

proof fn lemma_series_is_consistent(r: RegistryModel, ts: Seq<Transition>)
    requires
        consistent(r),
        stays_in_room(r, ts),
    ensures
        consistent(run(r, ts)),
    decreases ts.len(),
{
    if ts.len() > 0 {
        lemma_series_is_consistent(r, ts.drop_last());
        law_transitions_keep_consistency(run(r, ts.drop_last()), ts.last());
    }
}

proof fn lemma_series_goes_forward(r: RegistryModel, ts: Seq<Transition>, from: int, to: int)
    requires
        consistent(r),
        stays_in_room(r, ts),
        0 <= from <= to <= ts.len(),
    ensures
        goes_forward(run(r, ts.take(from)), run(r, ts.take(to))),
    decreases to - from,
{
    if from < to {
        lemma_series_goes_forward(r, ts, from, to - 1);
        lemma_take_is_series(ts, to);
        lemma_part_stays_in_room(r, ts, to - 1);
        let before = run(r, ts.take(to - 1));
        lemma_series_is_consistent(r, ts.take(to - 1));
        lemma_transition_goes_forward(before, ts[to - 1]);
        let first = run(r, ts.take(from));
        let next = run(r, ts.take(to));
        assert forall|id: Seq<char>| #[trigger] first.sessions.contains_key(id) implies {
            &&& next.sessions.contains_key(id)
            &&& next.sessions[id].incarnation >= first.sessions[id].incarnation
        } by {
            assert(before.sessions.contains_key(id));
        }
    }
}

/// Over any series of transitions no incarnation is given twice: of two that
/// are given the later one is greater, and the least is one.
pub proof fn law_no_incarnation_is_given_twice(
    r: RegistryModel,
    ts: Seq<Transition>,
    first: int,
    second: int,
)
    requires
        consistent(r),
        stays_in_room(r, ts),
        0 <= first < second < ts.len(),
        given_incarnation(run(r, ts.take(first)), ts[first]) is Some,
        given_incarnation(run(r, ts.take(second)), ts[second]) is Some,
    ensures
        1 <= given_incarnation(run(r, ts.take(first)), ts[first])->0,
        given_incarnation(run(r, ts.take(first)), ts[first])->0 < given_incarnation(
            run(r, ts.take(second)),
            ts[second],
        )->0,
{
    lemma_part_stays_in_room(r, ts, first);
    lemma_part_stays_in_room(r, ts, second);
    lemma_given_is_next(run(r, ts.take(first)), ts[first]);
    lemma_given_is_next(run(r, ts.take(second)), ts[second]);
    lemma_take_is_series(ts, first + 1);
    lemma_series_goes_forward(r, ts, first + 1, second);
}

/// Once a session has been opened anew, its earlier incarnation is stale for
/// good.
pub proof fn law_earlier_incarnation_stays_stale(
    r: RegistryModel,
    ts: Seq<Transition>,
    first: int,
    second: int,
    session_id: Seq<char>,
)
    requires
        consistent(r),
        stays_in_room(r, ts),
        0 <= first < second < ts.len(),
        subject_of(ts[second]) == Some(session_id),
        given_incarnation(run(r, ts.take(first)), ts[first]) is Some,
        given_incarnation(run(r, ts.take(second)), ts[second]) is Some,
    ensures
        live_owner(
            run(r, ts),
            session_id,
            given_incarnation(run(r, ts.take(first)), ts[first])->0,
        ) is Err,
        live_owner(
            run(r, ts),
            session_id,
            given_incarnation(run(r, ts.take(first)), ts[first])->0,
        )->Err_0 == RuntimeStateError::StaleIncarnation,
{
    law_no_incarnation_is_given_twice(r, ts, first, second);
    lemma_part_stays_in_room(r, ts, second);
    lemma_given_is_next(run(r, ts.take(second)), ts[second]);
    lemma_take_is_series(ts, second + 1);
    lemma_series_goes_forward(r, ts, second + 1, ts.len() as int);
}

/// Whether one of a series of transitions registers a flow.
pub open spec fn is_registered(ts: Seq<Transition>, elicitation_id: Seq<char>) -> bool {
    exists|i: int| 0 <= i < ts.len() && #[trigger] registered_by(ts[i]) == Some(elicitation_id)
}

/// Whether all flows that were settled before are settled after a series of
/// transitions, but for those that were registered anew.
pub open spec fn flows_kept(
    before: Seq<Seq<char>>,
    after: Seq<Seq<char>>,
    ts: Seq<Transition>,
) -> bool {
    forall|id: Seq<char>| #[trigger]
        before.contains(id) && !is_registered(ts, id) ==> after.contains(id)
}

proof fn lemma_registered_in_part(ts: Seq<Transition>)
    requires
        ts.len() > 0,
    ensures
        forall|id: Seq<char>| #[trigger] is_registered(ts.drop_last(), id) ==> is_registered(ts, id),
        forall|id: Seq<char>| registered_by(ts.last()) == Some(id) ==> #[trigger] is_registered(
            ts,
            id,
        ),
{
    assert forall|id: Seq<char>| #[trigger] is_registered(ts.drop_last(), id) implies is_registered(
        ts,
        id,
    ) by {
        let rest = ts.drop_last();
        let i = choose|i: int|
            0 <= i < rest.len() && #[trigger] registered_by(rest[i]) == Some(id);
        assert(registered_by(ts[i]) == Some(id));
    }
    assert(ts.last() == ts[ts.len() - 1]);
}

/// Whatever happens to a session, what was settled in it stays settled as long
/// as its incarnation lives. Only a flow that is registered anew is not.
pub proof fn law_settled_stays_settled(
    r: RegistryModel,
    ts: Seq<Transition>,
    session_id: Seq<char>,
    incarnation: u64,
)
    requires
        consistent(r),
        stays_in_room(r, ts),
        r.sessions.contains_key(session_id),
        r.sessions[session_id].incarnation == incarnation,
        run(r, ts).sessions[session_id].incarnation == incarnation,
        run(r, ts).sessions[session_id].live is Some,
    ensures
        r.sessions[session_id].live matches Some(before) && run(r, ts).sessions[session_id].live
            matches Some(after) && {
            &&& all_kept(before.resolved_permissions, after.resolved_permissions, None)
            &&& all_kept(before.resolved_elicitations, after.resolved_elicitations, None)
            &&& flows_kept(before.resolved_url_flows, after.resolved_url_flows, ts)
        },
    decreases ts.len(),
{
    if ts.len() > 0 {
        let rest = ts.drop_last();
        let middle = run(r, rest);
        let next = run(r, ts);
        lemma_take_is_series(ts, ts.len() as int);
        lemma_part_stays_in_room(r, ts, rest.len() as int);
        lemma_series_is_consistent(r, rest);
        lemma_series_goes_forward(r, ts, 0, rest.len() as int);
        assert(ts.take(0).len() == 0);
        assert(run(r, ts.take(0)) == r);
        assert(sound(r.sessions[session_id], session_id, r.next_incarnation));
        assert(middle.sessions.contains_key(session_id));
        assert(incarnation <= middle.next_incarnation);
        lemma_transition_steps(middle, ts.last());
        if ts.last() is Release {
            lemma_release(middle, ts.last());
        } else {
            lemma_transition_moves(middle, ts.last());
        }
        if subject_of(ts.last()) != Some(session_id) {
            assert(next.sessions[session_id] == middle.sessions[session_id]);
        }
        law_settled_stays_settled(r, rest, session_id, incarnation);
        lemma_registered_in_part(ts);
    }
}

/// Whatever happens, a question outside all sessions that was settled stays
/// settled, and so does a flow unless it is registered anew.
pub proof fn law_settled_request_stays_settled(r: RegistryModel, ts: Seq<Transition>)
    requires
        consistent(r),
        stays_in_room(r, ts),
    ensures
        all_kept(r.resolved_request_elicitations, run(r, ts).resolved_request_elicitations, None),
        flows_kept(r.resolved_request_url_flows, run(r, ts).resolved_request_url_flows, ts),
    decreases ts.len(),
{
    if ts.len() > 0 {
        law_settled_request_stays_settled(r, ts.drop_last());
        lemma_series_is_consistent(r, ts.drop_last());
        lemma_transition_steps(run(r, ts.drop_last()), ts.last());
        lemma_registered_in_part(ts);
    }
}

proof fn lemma_series_settles_once(r: RegistryModel, ts: Seq<Transition>)
    requires
        consistent(r),
        stays_in_room(r, ts),
        all_settle_once(r),
    ensures
        all_settle_once(run(r, ts)),
    decreases ts.len(),
{
    if ts.len() > 0 {
        lemma_series_settles_once(r, ts.drop_last());
        lemma_series_is_consistent(r, ts.drop_last());
        law_nothing_waits_and_is_settled(run(r, ts.drop_last()), ts.last());
    }
}

/// A permission request that was settled is never asked or settled again, with
/// whatever in between, as long as the incarnation lives: each attempt finds it
/// settled and changes nothing.
pub proof fn law_permission_is_settled_for_good(
    r: RegistryModel,
    ts: Seq<Transition>,
    epoch: Seq<char>,
    session_id: Seq<char>,
    incarnation: u64,
    interaction_id: Seq<char>,
    operation_id: Seq<char>,
    request: JsonModel,
)
    requires
        consistent(r),
        all_settle_once(r),
        stays_in_room(r, ts),
        permission_resolved(r, epoch, session_id, incarnation, interaction_id) == accepted(
            r,
            InteractionResolution::AlreadyResolved,
        ),
        live_owner(run(r, ts), session_id, incarnation) is Ok,
    ensures
        ({
            let next = run(r, ts);
            &&& !next.sessions[session_id].live->0.permissions.contains_key(interaction_id)
            &&& permission_asked(next, epoch, session_id, incarnation, interaction_id, request)
                == accepted(next, InteractionUpsert::AlreadyResolved)
            &&& permission_resolved(next, epoch, session_id, incarnation, interaction_id)
                == accepted(next, InteractionResolution::AlreadyResolved)
            &&& permission_response_completed(
                next,
                epoch,
                session_id,
                incarnation,
                interaction_id,
                operation_id,
            ) == accepted(next, InteractionResolution::AlreadyResolved)
        }),
{
    law_settled_stays_settled(r, ts, session_id, incarnation);
    lemma_series_settles_once(r, ts);
    lemma_whole_goes_forward(r, ts);
}

proof fn lemma_whole_goes_forward(r: RegistryModel, ts: Seq<Transition>)
    requires
        consistent(r),
        stays_in_room(r, ts),
    ensures
        goes_forward(r, run(r, ts)),
{
    assert(ts.take(ts.len() as int) =~= ts);
    lemma_series_goes_forward(r, ts, 0, ts.len() as int);
    assert(ts.take(0).len() == 0);
    assert(run(r, ts.take(0)) == r);
}

/// Whether the owner of what a scope names is alive: that session in that
/// incarnation, or the connection.
pub open spec fn is_alive(r: RegistryModel, scope: Option<(Seq<char>, u64)>) -> bool {
    scope matches Some((session_id, incarnation)) ==> live_owner(r, session_id, incarnation) is Ok
}

/// A question that was settled is never asked or settled again, with whatever in
/// between, as long as its owner lives: each attempt finds it settled and
/// changes nothing.
pub proof fn law_elicitation_is_settled_for_good(
    r: RegistryModel,
    ts: Seq<Transition>,
    epoch: Seq<char>,
    scope: Option<(Seq<char>, u64)>,
    interaction_id: Seq<char>,
    operation_id: Seq<char>,
    accepted_url_id: Option<Seq<char>>,
    request: JsonModel,
)
    requires
        consistent(r),
        all_settle_once(r),
        stays_in_room(r, ts),
        elicitation_resolved(r, epoch, scope, interaction_id, None) == accepted(
            r,
            InteractionResolution::AlreadyResolved,
        ),
        is_alive(run(r, ts), scope),
    ensures
        ({
            let next = run(r, ts);
            &&& match scope {
                Some((session_id, _)) =>
                    !next.sessions[session_id].live->0.elicitations.contains_key(interaction_id),
                None => !next.request_elicitations.contains_key(interaction_id),
            }
            &&& elicitation_asked(next, epoch, scope, interaction_id, request) == accepted(
                next,
                InteractionUpsert::AlreadyResolved,
            )
            &&& elicitation_resolved(next, epoch, scope, interaction_id, accepted_url_id)
                == accepted(next, InteractionResolution::AlreadyResolved)
            &&& elicitation_response_completed(
                next,
                epoch,
                scope,
                interaction_id,
                operation_id,
                accepted_url_id,
            ) == accepted(next, InteractionResolution::AlreadyResolved)
        }),
{
    match scope {
        Some((session_id, incarnation)) => {
            law_settled_stays_settled(r, ts, session_id, incarnation);
        },
        None => {
            law_settled_request_stays_settled(r, ts);
        },
    }
    lemma_series_settles_once(r, ts);
    lemma_whole_goes_forward(r, ts);
}

/// A flow that was settled stays so, with whatever in between, as long as its
/// owner lives and nobody registers it anew: it does not wait, to settle it once
/// more finds it settled and changes nothing, and it is not set back to waiting.
pub proof fn law_flow_is_settled_for_good(
    r: RegistryModel,
    ts: Seq<Transition>,
    epoch: Seq<char>,
    scope: Option<(Seq<char>, u64)>,
    elicitation_id: Seq<char>,
    registration_id: Seq<char>,
    status: UrlFlowStatus,
)
    requires
        consistent(r),
        all_settle_once(r),
        stays_in_room(r, ts),
        !is_registered(ts, elicitation_id),
        flow_settled(r, epoch, scope, elicitation_id, UrlFlowStatus::Completed) == accepted(
            r,
            UrlFlowResolution::AlreadyTerminal,
        ),
        is_alive(run(r, ts), scope),
    ensures
        ({
            let next = run(r, ts);
            &&& match scope {
                Some((session_id, _)) =>
                    !next.sessions[session_id].live->0.url_flows.contains_key(elicitation_id),
                None => !next.request_url_flows.contains_key(elicitation_id),
            }
            &&& registration_settled(next, epoch, scope, elicitation_id, registration_id, status)
                == flow_settled(next, epoch, scope, elicitation_id, status)
            &&& flow_settled(next, epoch, scope, elicitation_id, status) == (if status
                == UrlFlowStatus::Waiting {
                refused::<UrlFlowResolution>(next, RuntimeStateError::OperationMismatch)
            } else {
                accepted(next, UrlFlowResolution::AlreadyTerminal)
            })
        }),
{
    match scope {
        Some((session_id, incarnation)) => {
            law_settled_stays_settled(r, ts, session_id, incarnation);
        },
        None => {
            law_settled_request_stays_settled(r, ts);
        },
    }
    lemma_series_settles_once(r, ts);
    lemma_whole_goes_forward(r, ts);
}

} // verus!
