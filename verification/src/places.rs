//! In one session an operation identifier stands at one place at most.
use crate::identity::runs_as_asked;
use crate::laws::{
    consistent, lemma_release, lemma_transition_moves, outcome, subject_of, Transition,
};
use crate::registry::{empty_registry, uses_operation, RegistryModel};
use crate::runtime_types::{InteractionModel, OwnerModel};
use crate::session_live::responds;
use crate::steps::lemma_transition_steps;
use vstd::prelude::*;

verus! {

/// A place at which a session holds an operation identifier.
pub enum Place {
    /// The turn that runs.
    Turn,
    /// The exclusive operation.
    Operation,
    /// The response to a permission request.
    Permission { interaction_id: Seq<char> },
    /// The response to a question.
    Elicitation { interaction_id: Seq<char> },
}

/// The identifier of the operation that answers a question.
pub open spec fn responder(
    pending: Map<Seq<char>, InteractionModel>,
    interaction_id: Seq<char>,
) -> Option<Seq<char>> {
    if pending.contains_key(interaction_id) {
        pending[interaction_id].responding_operation_id
    } else {
        None
    }
}

/// The operation identifier that stands at a place.
pub open spec fn held_at(owner: OwnerModel, place: Place) -> Option<Seq<char>> {
    match place {
        Place::Turn => match owner.execution() {
            Some(execution) => Some(execution.rpc_operation_id),
            None => None,
        },
        Place::Operation => match owner.operation {
            Some(operation) => Some(operation.operation_id),
            None => None,
        },
        Place::Permission { interaction_id } => match owner.live {
            Some(live) => responder(live.permissions, interaction_id),
            None => None,
        },
        Place::Elicitation { interaction_id } => match owner.live {
            Some(live) => responder(live.elicitations, interaction_id),
            None => None,
        },
    }
}

/// Whether no operation identifier stands at two places of a session.
pub open spec fn places_differ(owner: OwnerModel) -> bool {
    forall|a: Place, b: Place|
        a != b && #[trigger] held_at(owner, a) is Some ==> held_at(owner, a) != #[trigger] held_at(
            owner,
            b,
        )
}

/// Whether two responses to questions outside all sessions never have one
/// operation identifier.
pub open spec fn responders_differ(pending: Map<Seq<char>, InteractionModel>) -> bool {
    forall|a: Seq<char>, b: Seq<char>|
        a != b && #[trigger] responder(pending, a) is Some ==> responder(pending, a)
            != #[trigger] responder(pending, b)
}

/// Whether in no session an operation identifier stands at two places, nor does
/// it outside of them.
pub open spec fn all_places_differ(r: RegistryModel) -> bool {
    &&& forall|id: Seq<char>| #[trigger]
        r.sessions.contains_key(id) ==> places_differ(r.sessions[id])
    &&& responders_differ(r.request_elicitations)
}

/// Whether nothing happened, or a session has filled one place at most, with an
/// identifier that it did not use before.
pub open spec fn fills(
    r: RegistryModel,
    next: RegistryModel,
    session_id: Seq<char>,
    filled: Option<Place>,
) -> bool {
    ||| next == r
    ||| forall|place: Place|
        (#[trigger] held_at(next.sessions[session_id], place)) is Some ==> {
            let held = held_at(next.sessions[session_id], place);
            ||| r.sessions.contains_key(session_id) && held_at(r.sessions[session_id], place) == held
            ||| filled == Some(place) && !(r.sessions.contains_key(session_id) && uses_operation(
                r.sessions[session_id],
                held->0,
                None,
            ))
        }
}

/// Whether outside all sessions one response at most has been begun, by an
/// operation that answered nothing before.
pub open spec fn fills_outside(
    r: RegistryModel,
    next: RegistryModel,
    begun: Option<Seq<char>>,
) -> bool {
    forall|id: Seq<char>|
        (#[trigger] responder(next.request_elicitations, id)) is Some ==> {
            let held = responder(next.request_elicitations, id);
            ||| responder(r.request_elicitations, id) == held
            ||| begun == Some(id) && !responds(r.request_elicitations, held->0)
        }
}

/// The place of a session that a transition fills.
pub open spec fn filled_by(t: Transition) -> Option<Place> {
    match t {
        Transition::StartAttachment { .. } => Some(Place::Operation),
        Transition::StartReload { .. } => Some(Place::Operation),
        Transition::StartOperation { .. } => Some(Place::Operation),
        Transition::StartDelete { .. } => Some(Place::Operation),
        Transition::StartDirectDelete { .. } => Some(Place::Operation),
        Transition::AdmitTurn { .. } => Some(Place::Turn),
        Transition::StartPrompt { .. } => Some(Place::Turn),
        Transition::BeginPermission { interaction_id, .. } => Some(
            Place::Permission { interaction_id },
        ),
        Transition::BeginElicitation { interaction_id, .. } => Some(
            Place::Elicitation { interaction_id },
        ),
        _ => None,
    }
}

/// The question outside all sessions to which a transition begins the response.
pub open spec fn begun_by(t: Transition) -> Option<Seq<char>> {
    match t {
        Transition::BeginElicitation { interaction_id, .. } => Some(interaction_id),
        _ => None,
    }
}

proof fn lemma_held_is_used(owner: OwnerModel, place: Place)
    ensures
        held_at(owner, place) matches Some(operation_id) ==> uses_operation(
            owner,
            operation_id,
            None,
        ),
{
}

/// In one session an operation identifier stands at one place at most: as its
/// turn, as its exclusive operation, or as one response. It does in an empty
/// registry, and no transition changes that.
pub proof fn law_operation_stands_at_one_place(r: RegistryModel, t: Transition)
    requires
        consistent(r),
        r.next_incarnation < u64::MAX,
        runs_as_asked(t),
        all_places_differ(r),
    ensures
        all_places_differ(outcome(r, t).state),
        forall|epoch: Seq<char>| all_places_differ(#[trigger] empty_registry(epoch)),
{
    let next = outcome(r, t).state;
    lemma_transition_steps(r, t);
    if t is Release {
        lemma_release(r, t);
    } else {
        lemma_transition_moves(r, t);
    }
    assert forall|id: Seq<char>| #[trigger] next.sessions.contains_key(id) implies places_differ(
        next.sessions[id],
    ) by {
        if subject_of(t) != Some(id) || next == r {
            assert(r.sessions.contains_key(id));
            assert(next.sessions[id] == r.sessions[id]);
        } else {
            assert forall|a: Place, b: Place|
                a != b && #[trigger] held_at(next.sessions[id], a) is Some implies held_at(
                next.sessions[id],
                a,
            ) != #[trigger] held_at(next.sessions[id], b) by {
                lemma_held_is_used(r.sessions[id], a);
                lemma_held_is_used(r.sessions[id], b);
            }
        }
    }
    assert forall|a: Seq<char>, b: Seq<char>|
        a != b && #[trigger] responder(next.request_elicitations, a) is Some implies responder(
        next.request_elicitations,
        a,
    ) != #[trigger] responder(next.request_elicitations, b) by {
        assert(responder(r.request_elicitations, a) is Some || begun_by(t) == Some(a));
        assert(responder(r.request_elicitations, b) is Some || responder(
            next.request_elicitations,
            b,
        ) is None || begun_by(t) == Some(b));
    }
}

} // verus!
