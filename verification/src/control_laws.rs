//! What holds of the controls of a session, live and replayed.
use crate::fold::{controls_of, controls_upto, folded_control, is_conversation_kind};
use crate::json::{json_equal, merged_fields, JsonModel, MergeRule};
use crate::registry::{admitted, RegistryModel};
use crate::registry::turns::{control_at, control_updated};
use crate::runtime_types::SessionLifecycle;
use vstd::prelude::*;

verus! {

/// The registry after control updates have arrived one by one. Updates of the
/// conversation are none.
pub open spec fn controls_updated(
    r: RegistryModel,
    epoch: Seq<char>,
    session_id: Seq<char>,
    incarnation: u64,
    updates: Seq<JsonModel>,
    count: nat,
) -> RegistryModel
    decreases count,
{
    if count == 0 {
        r
    } else {
        let before = controls_updated(
            r,
            epoch,
            session_id,
            incarnation,
            updates,
            (count - 1) as nat,
        );
        let update = updates[count - 1];
        let kind = update.text_at("sessionUpdate"@)->0;
        if is_conversation_kind(kind) {
            before
        } else {
            control_updated(before, epoch, session_id, incarnation, kind, update).state
        }
    }
}

/// A value is equal to itself.
pub proof fn lemma_equal_is_reflexive(a: JsonModel)
    ensures
        json_equal(a, a),
    decreases a,
{
    match a {
        JsonModel::Array(items) => {
            assert forall|i: int| 0 <= i < items.len() implies json_equal(
                #[trigger] items[i],
                items[i],
            ) by {
                lemma_equal_is_reflexive(items[i]);
            }
        },
        JsonModel::Object(fields) => {
            assert forall|key: Seq<char>| fields.contains_key(key) implies json_equal(
                #[trigger] fields[key],
                fields[key],
            ) by {
                assert(fields.dom().contains(key));
                lemma_equal_is_reflexive(fields[key]);
            }
        },
        _ => {},
    }
}

/// Whether two controls are equal; either may be missing.
pub open spec fn control_equal(a: Option<JsonModel>, b: Option<JsonModel>) -> bool {
    match (a, b) {
        (Some(a), Some(b)) => json_equal(a, b),
        (None, None) => true,
        _ => false,
    }
}

/// The control under a key.
pub open spec fn control_in(controls: Map<Seq<char>, JsonModel>, key: Seq<char>) -> Option<
    JsonModel,
> {
    if controls.contains_key(key) {
        Some(controls[key])
    } else {
        None
    }
}

/// Whether two sets of controls are equal, key by key.
pub open spec fn controls_equal(
    a: Map<Seq<char>, JsonModel>,
    b: Map<Seq<char>, JsonModel>,
) -> bool {
    forall|key: Seq<char>| control_equal(#[trigger] control_in(a, key), control_in(b, key))
}

/// Equal controls are equal after the same update.
proof fn lemma_fold_keeps_equal(a: Option<JsonModel>, b: Option<JsonModel>, update: JsonModel)
    requires
        control_equal(a, b),
        update.text_at("sessionUpdate"@) is Some,
    ensures
        json_equal(folded_control(a, update), folded_control(b, update)),
{
    lemma_equal_is_reflexive(update);
    if let (Some(JsonModel::Object(x)), Some(JsonModel::Object(y))) = (a, b) {
        let patch = update.as_object()->0;
        let rule = if update.text_at("sessionUpdate"@) == Some("usage_update"@) {
            MergeRule::SkipNullCost
        } else {
            MergeRule::TakeAll
        };
        let left = merged_fields(x, patch, rule);
        let right = merged_fields(y, patch, rule);
        assert(x.dom() == y.dom());
        assert forall|key: Seq<char>| #[trigger] left.dom().contains(key) == right.dom().contains(
            key,
        ) by {
            assert(x.dom().contains(key) == y.dom().contains(key));
        }
        assert(left.dom() =~= right.dom());
        assert forall|key: Seq<char>| left.contains_key(key) implies json_equal(
            #[trigger] left[key],
            right[key],
        ) by {
            assert(right.dom().contains(key));
            if patch.contains_key(key) && rule.takes(key, patch[key]) {
                lemma_equal_is_reflexive(patch[key]);
            } else {
                assert(x.contains_key(key));
                assert(json_equal(x[key], y[key]));
            }
        }
        assert(json_equal(JsonModel::Object(left), JsonModel::Object(right)));
    }
}

proof fn lemma_controls_updated(
    r: RegistryModel,
    epoch: Seq<char>,
    session_id: Seq<char>,
    incarnation: u64,
    updates: Seq<JsonModel>,
    count: nat,
)
    requires
        count <= updates.len(),
        admitted(r, epoch, session_id, incarnation) matches Ok(owner) && owner.live->0.lifecycle
            == SessionLifecycle::Active && owner.live->0.control_state == Map::<
            Seq<char>,
            JsonModel,
        >::empty(),
        forall|i: int|
            0 <= i < updates.len() ==> (#[trigger] updates[i]).get("update"@) is None
                && updates[i].text_at("sessionUpdate"@) is Some,
    ensures
        ({
            let next = controls_updated(r, epoch, session_id, incarnation, updates, count);
            &&& admitted(next, epoch, session_id, incarnation) matches Ok(owner)
                && owner.live->0.lifecycle == SessionLifecycle::Active
            &&& controls_equal(
                next.sessions[session_id].live->0.control_state,
                controls_upto(updates, count),
            )
        }),
    decreases count,
{
    if count > 0 {
        let last = (count - 1) as nat;
        lemma_controls_updated(r, epoch, session_id, incarnation, updates, last);
        let before = controls_updated(r, epoch, session_id, incarnation, updates, last);
        let update = updates[count - 1];
        let kind = update.text_at("sessionUpdate"@)->0;
        assert(update.get("update"@) is None);
        if !is_conversation_kind(kind) {
            let live = before.sessions[session_id].live->0;
            let replayed = controls_upto(updates, last);
            let next = controls_updated(r, epoch, session_id, incarnation, updates, count);
            let folded = folded_control(control_at(live, kind), update);
            let other = folded_control(control_in(replayed, kind), update);
            assert(control_in(live.control_state, kind) == control_at(live, kind));
            lemma_fold_keeps_equal(control_at(live, kind), control_in(replayed, kind), update);
            assert(controls_upto(updates, count) == replayed.insert(kind, other));
            let now = next.sessions[session_id].live->0.control_state;
            if control_at(live, kind) matches Some(present) && json_equal(present, folded) {
                crate::conversation_laws::lemma_equal_is_transitive(
                    control_at(live, kind)->0,
                    folded,
                    other,
                );
            }
            assert forall|key: Seq<char>| control_equal(
                #[trigger] control_in(now, key),
                control_in(replayed.insert(kind, other), key),
            ) by {
                assert(control_equal(
                    control_in(live.control_state, key),
                    control_in(replayed, key),
                ));
            }
        }
    }
}

/// A replay of updates and the same updates one by one leave the same controls.
pub proof fn law_replay_leaves_the_same_controls(
    r: RegistryModel,
    epoch: Seq<char>,
    session_id: Seq<char>,
    incarnation: u64,
    updates: Seq<JsonModel>,
)
    requires
        admitted(r, epoch, session_id, incarnation) matches Ok(owner) && owner.live->0.lifecycle
            == SessionLifecycle::Active && owner.live->0.control_state == Map::<
            Seq<char>,
            JsonModel,
        >::empty(),
        forall|i: int|
            0 <= i < updates.len() ==> (#[trigger] updates[i]).get("update"@) is None
                && updates[i].text_at("sessionUpdate"@) is Some,
    ensures
        controls_equal(
            controls_updated(
                r,
                epoch,
                session_id,
                incarnation,
                updates,
                updates.len(),
            ).sessions[session_id].live->0.control_state,
            controls_of(updates),
        ),
{
    lemma_controls_updated(r, epoch, session_id, incarnation, updates, updates.len());
}

proof fn lemma_controls_by_kind(updates: Seq<JsonModel>, count: nat)
    requires
        count <= updates.len(),
        forall|i: int|
            0 <= i < updates.len() ==> (#[trigger] updates[i]).get("update"@) is None
                && updates[i].text_at("sessionUpdate"@) is Some,
    ensures
        forall|key: Seq<char>| #[trigger]
            controls_upto(updates, count).contains_key(key) == (exists|i: int|
                0 <= i < count && (#[trigger] updates[i]).text_at("sessionUpdate"@) == Some(key)
                    && !is_conversation_kind(key)),
        forall|key: Seq<char>|
            controls_upto(updates, count).contains_key(key) ==> (#[trigger] controls_upto(
                updates,
                count,
            )[key]).text_at("sessionUpdate"@) == Some(key),
    decreases count,
{
    if count > 0 {
        let last = (count - 1) as nat;
        lemma_controls_by_kind(updates, last);
        let before = controls_upto(updates, last);
        let update = updates[count - 1];
        let kind = update.text_at("sessionUpdate"@)->0;
        let next = controls_upto(updates, count);
        assert(update.get("update"@) is None);
        assert forall|key: Seq<char>| #[trigger] next.contains_key(key) == (exists|i: int|
            0 <= i < count && (#[trigger] updates[i]).text_at("sessionUpdate"@) == Some(key)
                && !is_conversation_kind(key)) by {
            if before.contains_key(key) {
                let i = choose|i: int|
                    0 <= i < last && (#[trigger] updates[i]).text_at("sessionUpdate"@) == Some(key)
                        && !is_conversation_kind(key);
                assert(0 <= i < count && updates[i].text_at("sessionUpdate"@) == Some(key));
            }
        }
        reveal_strlit("sessionUpdate");
        reveal_strlit("cost");
        assert("sessionUpdate"@.len() == 13 && "cost"@.len() == 4);
    }
}

/// The controls that a replay leaves are those of the kinds that it tells of,
/// each under its kind, and never one of the conversation.
pub proof fn law_replayed_controls_stand_under_their_kinds(updates: Seq<JsonModel>)
    requires
        forall|i: int|
            0 <= i < updates.len() ==> (#[trigger] updates[i]).get("update"@) is None
                && updates[i].text_at("sessionUpdate"@) is Some,
    ensures
        forall|key: Seq<char>| #[trigger]
            controls_of(updates).contains_key(key) == (exists|i: int|
                0 <= i < updates.len() && (#[trigger] updates[i]).text_at("sessionUpdate"@)
                    == Some(key) && !is_conversation_kind(key)),
        forall|key: Seq<char>|
            controls_of(updates).contains_key(key) ==> (#[trigger] controls_of(
                updates,
            )[key]).text_at("sessionUpdate"@) == Some(key),
{
    lemma_controls_by_kind(updates, updates.len());
}

} // verus!
