//! What waits is not settled, and what is settled is not forgotten.
use crate::laws::{
    consistent, lemma_release, lemma_transition_moves, outcome, subject_of, Transition,
};
use crate::registry::{empty_registry, RegistryModel};
use crate::runtime_types::{LiveModel, OwnerModel};
use crate::steps::lemma_transition_steps;
use vstd::prelude::*;

verus! {

/// Whether nothing that waits is among what is settled.
pub open spec fn is_apart<V>(pending: Map<Seq<char>, V>, resolved: Seq<Seq<char>>) -> bool {
    forall|id: Seq<char>| #[trigger] pending.contains_key(id) ==> !resolved.contains(id)
}

/// Whether in a session nothing both waits and is settled.
pub open spec fn settles_once(owner: OwnerModel) -> bool {
    owner.live matches Some(live) ==> is_apart(live.permissions, live.resolved_permissions)
        && is_apart(live.elicitations, live.resolved_elicitations) && is_apart(
        live.url_flows,
        live.resolved_url_flows,
    )
}

/// Whether nothing both waits and is settled: no permission request, no
/// question and no flow at a URL, in no session and outside of them.
pub open spec fn all_settle_once(r: RegistryModel) -> bool {
    &&& forall|id: Seq<char>| #[trigger]
        r.sessions.contains_key(id) ==> settles_once(r.sessions[id])
    &&& is_apart(r.request_elicitations, r.resolved_request_elicitations)
    &&& is_apart(r.request_url_flows, r.resolved_request_url_flows)
}

/// Whether all that was settled before is settled after, but for one.
pub open spec fn all_kept(
    before: Seq<Seq<char>>,
    after: Seq<Seq<char>>,
    but: Option<Seq<char>>,
) -> bool {
    forall|id: Seq<char>| #[trigger]
        before.contains(id) && but != Some(id) ==> after.contains(id)
}

/// Whether a session remembers what was settled in it. A flow that is registered
/// anew is not settled any more.
pub open spec fn remembers(before: LiveModel, after: LiveModel, fresh: Option<Seq<char>>) -> bool {
    &&& all_kept(before.resolved_permissions, after.resolved_permissions, None)
    &&& all_kept(before.resolved_elicitations, after.resolved_elicitations, None)
    &&& all_kept(before.resolved_url_flows, after.resolved_url_flows, fresh)
}

/// Whether a session goes on as it should: its incarnation stays or is a new
/// one, nothing that was settled is forgotten as long as the incarnation lives,
/// none comes back to life, and nothing both waits and is settled.
pub open spec fn goes_on(
    r: RegistryModel,
    next: RegistryModel,
    session_id: Seq<char>,
    fresh: Option<Seq<char>>,
) -> bool {
    ||| next == r
    ||| {
        let after = next.sessions[session_id];
        &&& next.resolved_request_elicitations == r.resolved_request_elicitations
        &&& next.resolved_request_url_flows == r.resolved_request_url_flows
        &&& {
            ||| after.incarnation > r.next_incarnation
            ||| {
                &&& r.sessions.contains_key(session_id)
                &&& r.sessions[session_id].incarnation == after.incarnation
                &&& after.live matches Some(live) ==> (r.sessions[session_id].live matches Some(
                    before,
                ) && remembers(before, live, fresh))
            }
        }
        &&& (r.sessions.contains_key(session_id) ==> settles_once(r.sessions[session_id]))
            ==> settles_once(after)
    }
}

/// Whether what belongs to no session goes on as it should.
pub open spec fn goes_on_outside(
    r: RegistryModel,
    next: RegistryModel,
    fresh: Option<Seq<char>>,
) -> bool {
    ||| next == r
    ||| {
        &&& all_kept(r.resolved_request_elicitations, next.resolved_request_elicitations, None)
        &&& all_kept(r.resolved_request_url_flows, next.resolved_request_url_flows, fresh)
        &&& is_apart(r.request_elicitations, r.resolved_request_elicitations) ==> is_apart(
            next.request_elicitations,
            next.resolved_request_elicitations,
        )
        &&& is_apart(r.request_url_flows, r.resolved_request_url_flows) ==> is_apart(
            next.request_url_flows,
            next.resolved_request_url_flows,
        )
    }
}

/// The flow that a transition registers.
pub open spec fn registered_by(t: Transition) -> Option<Seq<char>> {
    match t {
        Transition::ResolveElicitation { accepted_url_id, .. } => accepted_url_id,
        Transition::CompleteElicitation { accepted_url_id, .. } => accepted_url_id,
        _ => None,
    }
}

/// Nothing both waits and is settled: it does not in an empty registry, and no
/// transition lets it come to that.
pub proof fn law_nothing_waits_and_is_settled(r: RegistryModel, t: Transition)
    requires
        consistent(r),
        r.next_incarnation < u64::MAX,
        all_settle_once(r),
    ensures
        all_settle_once(outcome(r, t).state),
        forall|epoch: Seq<char>| all_settle_once(#[trigger] empty_registry(epoch)),
{
    let next = outcome(r, t).state;
    lemma_transition_steps(r, t);
    if t is Release {
        lemma_release(r, t);
    } else {
        lemma_transition_moves(r, t);
    }
    assert forall|id: Seq<char>| #[trigger] next.sessions.contains_key(id) implies settles_once(
        next.sessions[id],
    ) by {
        if subject_of(t) != Some(id) || next == r {
            assert(r.sessions.contains_key(id));
            assert(next.sessions[id] == r.sessions[id]);
        }
    }
}

} // verus!
