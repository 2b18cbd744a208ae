//! What a reader sees of the updates that are folded into a turn.
use crate::control_laws::lemma_equal_is_reflexive;
use crate::fold::{
    first_position, folded_turn, occupies, slot_position, text_chunk, RuntimeStateError, SlotModel,
};
use crate::json::{json_equal, JsonModel};
use vstd::prelude::*;

verus! {

proof fn lemma_first_is_found(values: Seq<JsonModel>, wanted: spec_fn(JsonModel) -> bool, at: int)
    requires
        0 <= at < values.len(),
        wanted(values[at]),
        forall|j: int| 0 <= j < at ==> !wanted(#[trigger] values[j]),
    ensures
        first_position(values, wanted) == at,
    decreases values.len(),
{
    if at > 0 {
        assert(!wanted(values[0]));
        let rest = values.drop_first();
        assert forall|j: int| 0 <= j < at - 1 implies !wanted(#[trigger] rest[j]) by {
            assert(!wanted(values[j + 1]));
        }
        lemma_first_is_found(rest, wanted, at - 1);
    }
}

proof fn lemma_none_is_found(values: Seq<JsonModel>, wanted: spec_fn(JsonModel) -> bool)
    requires
        forall|j: int| 0 <= j < values.len() ==> !wanted(#[trigger] values[j]),
    ensures
        first_position(values, wanted) == values.len(),
    decreases values.len(),
{
    if values.len() > 0 {
        assert(!wanted(values[0]));
        let rest = values.drop_first();
        assert forall|j: int| 0 <= j < rest.len() implies !wanted(#[trigger] rest[j]) by {
            assert(!wanted(values[j + 1]));
        }
        lemma_none_is_found(rest, wanted);
    }
}

/// Whether a value tells of a tool call: it is a tool call or an update of one,
/// and has that identifier.
pub open spec fn tells_of_tool(value: JsonModel, id: Seq<char>) -> bool {
    &&& value.get("sessionUpdate"@) == Some(JsonModel::String("tool_call"@)) || value.get(
        "sessionUpdate"@,
    ) == Some(JsonModel::String("tool_call_update"@))
    &&& value.get("toolCallId"@) == Some(JsonModel::String(id))
}

/// An update of a tool call that is retained shows in its entry, field by field:
/// what the update says and is not null stands with the value of the update, and
/// what it leaves out or gives as null stands with the retained value. Only the
/// kind goes its own way: a call that is told again in full is a call, and an
/// update leaves what was retained. All other entries stay.
pub proof fn law_tool_fields_are_replaced(
    retained: Seq<JsonModel>,
    update: JsonModel,
    id: Seq<char>,
    at: int,
)
    requires
        tells_of_tool(update, id),
        id.len() > 0,
        0 <= at < retained.len(),
        tells_of_tool(retained[at], id),
        forall|j: int| 0 <= j < at ==> !tells_of_tool(#[trigger] retained[j], id),
    ensures
        folded_turn(retained, update) matches Ok(shown) && {
            &&& shown.len() == retained.len()
            &&& forall|j: int| 0 <= j < retained.len() && j != at
                ==> #[trigger] shown[j] == retained[j]
            &&& forall|key: Seq<char>| #[trigger]
                shown[at].get(key) == (if key == "sessionUpdate"@ {
                    if update.get(key) == Some(JsonModel::String("tool_call"@)) {
                        update.get(key)
                    } else {
                        retained[at].get(key)
                    }
                } else {
                    match update.get(key) {
                        Some(JsonModel::Null) => retained[at].get(key),
                        None => retained[at].get(key),
                        Some(value) => Some(value),
                    }
                })
        },
{
    reveal_strlit("tool_call");
    reveal_strlit("tool_call_update");
    reveal_strlit("user_message_chunk");
    reveal_strlit("agent_message_chunk");
    reveal_strlit("agent_thought_chunk");
    reveal_strlit("sessionUpdate");
    reveal_strlit("toolCallId");
    assert("tool_call"@.len() == 9);
    assert("tool_call_update"@.len() == 16);
    assert("user_message_chunk"@.len() == 18);
    assert("agent_message_chunk"@.len() == 19);
    assert("agent_thought_chunk"@.len() == 19);
    assert("sessionUpdate"@.len() == 13);
    assert("toolCallId"@.len() == 10);
    assert("agent_message_chunk"@[6] == 'm');
    assert("agent_thought_chunk"@[6] == 't');
    let wanted = |value: JsonModel| occupies(SlotModel::Tool(id), value);
    assert forall|j: int| 0 <= j < at implies !wanted(#[trigger] retained[j]) by {
        assert(!tells_of_tool(retained[j], id));
    }
    lemma_first_is_found(retained, wanted, at);
    let shown = folded_turn(retained, update)->Ok_0;
    assert(slot_position(retained, SlotModel::Tool(id)) == at);
    assert forall|key: Seq<char>| #[trigger]
        shown[at].get(key) == (if key == "sessionUpdate"@ {
            if update.get(key) == Some(JsonModel::String("tool_call"@)) {
                update.get(key)
            } else {
                retained[at].get(key)
            }
        } else {
            match update.get(key) {
                Some(JsonModel::Null) => retained[at].get(key),
                None => retained[at].get(key),
                Some(value) => Some(value),
            }
        }) by {
    }
}

/// A tool call that is not retained yet is added at the end, as it is told.
pub proof fn law_new_tool_call_is_added(retained: Seq<JsonModel>, update: JsonModel, id: Seq<char>)
    requires
        tells_of_tool(update, id),
        id.len() > 0,
        forall|j: int| 0 <= j < retained.len() ==> !tells_of_tool(#[trigger] retained[j], id),
    ensures
        folded_turn(retained, update) matches Ok(shown) && shown.len() == retained.len() + 1
            && shown.last() == update && shown.drop_last() == retained,
{
    reveal_strlit("tool_call");
    reveal_strlit("tool_call_update");
    reveal_strlit("user_message_chunk");
    reveal_strlit("agent_message_chunk");
    reveal_strlit("agent_thought_chunk");
    assert("tool_call"@.len() == 9);
    assert("tool_call_update"@.len() == 16);
    assert("user_message_chunk"@.len() == 18);
    assert("agent_message_chunk"@.len() == 19);
    assert("agent_thought_chunk"@.len() == 19);
    assert("agent_message_chunk"@[6] == 'm');
    assert("agent_thought_chunk"@[6] == 't');
    let wanted = |value: JsonModel| occupies(SlotModel::Tool(id), value);
    assert forall|j: int| 0 <= j < retained.len() implies !wanted(#[trigger] retained[j]) by {
        assert(!tells_of_tool(retained[j], id));
    }
    lemma_none_is_found(retained, wanted);
    assert(folded_turn(retained, update)->Ok_0.drop_last() =~= retained);
}

/// A tool call without an identifier is refused.
pub proof fn law_nameless_tool_call_is_refused(retained: Seq<JsonModel>, update: JsonModel)
    requires
        update.get("sessionUpdate"@) == Some(JsonModel::String("tool_call"@)) || update.get(
            "sessionUpdate"@,
        ) == Some(JsonModel::String("tool_call_update"@)),
        update.get("toolCallId"@) matches Some(JsonModel::String(id)) ==> id.len() == 0,
    ensures
        folded_turn(retained, update) == Err::<Seq<JsonModel>, RuntimeStateError>(
            RuntimeStateError::OperationMismatch,
        ),
{
    reveal_strlit("tool_call");
    reveal_strlit("tool_call_update");
    reveal_strlit("user_message_chunk");
    reveal_strlit("agent_message_chunk");
    reveal_strlit("agent_thought_chunk");
    assert("tool_call"@.len() == 9);
    assert("tool_call_update"@.len() == 16);
    assert("user_message_chunk"@.len() == 18);
    assert("agent_message_chunk"@.len() == 19);
    assert("agent_thought_chunk"@.len() == 19);
    assert("agent_message_chunk"@[6] == 'm');
    assert("agent_thought_chunk"@[6] == 't');
}

/// Whether a value is a piece of text of one of the three kinds that are spoken:
/// by the user, by the Agent, or in its thoughts.
pub open spec fn speaks(value: JsonModel, text: Seq<char>) -> bool {
    &&& {
        ||| value.get("sessionUpdate"@) == Some(JsonModel::String("user_message_chunk"@))
        ||| value.get("sessionUpdate"@) == Some(JsonModel::String("agent_message_chunk"@))
        ||| value.get("sessionUpdate"@) == Some(JsonModel::String("agent_thought_chunk"@))
    }
    &&& {
        ||| value.get("messageId"@) is None
        ||| value.get("messageId"@) == Some(JsonModel::Null)
        ||| value.get("messageId"@)->0 is String
    }
    &&& value.get("content"@) matches Some(content) && content.get("type"@) == Some(
        JsonModel::String("text"@),
    ) && content.get("text"@) == Some(JsonModel::String(text))
}

/// Whether two pieces of text say everything but their text alike.
pub open spec fn speak_alike(a: JsonModel, b: JsonModel) -> bool {
    &&& a.get("content"@)->0.as_object()->0.remove("text"@) == b.get(
        "content"@,
    )->0.as_object()->0.remove("text"@)
    &&& a.as_object()->0.remove("content"@) == b.as_object()->0.remove("content"@)
}

/// A piece of text after one of the same message continues it: the last entry
/// has both texts, one after the other, and all else that it had; nothing else
/// changes.
pub proof fn law_text_continues_its_message(
    retained: Seq<JsonModel>,
    update: JsonModel,
    before: Seq<char>,
    more: Seq<char>,
)
    requires
        retained.len() > 0,
        speaks(retained.last(), before),
        speaks(update, more),
        speak_alike(retained.last(), update),
    ensures
        folded_turn(retained, update) matches Ok(shown) && {
            &&& shown.len() == retained.len()
            &&& shown.drop_last() == retained.drop_last()
            &&& shown.last().get("content"@)->0.get("text"@) == Some(
                JsonModel::String(before + more),
            )
            &&& forall|key: Seq<char>|
                key != "content"@ ==> #[trigger] shown.last().get(key) == retained.last().get(key)
            &&& forall|key: Seq<char>|
                key != "text"@ ==> #[trigger] shown.last().get("content"@)->0.get(key)
                    == retained.last().get("content"@)->0.get(key)
        },
{
    reveal_strlit("user_message_chunk");
    reveal_strlit("agent_message_chunk");
    reveal_strlit("agent_thought_chunk");
    reveal_strlit("sessionUpdate");
    reveal_strlit("messageId");
    reveal_strlit("content");
    reveal_strlit("type");
    reveal_strlit("text");
    assert("user_message_chunk"@.len() == 18);
    assert("agent_message_chunk"@.len() == 19);
    assert("agent_thought_chunk"@.len() == 19);
    assert("sessionUpdate"@.len() == 13);
    assert("messageId"@.len() == 9);
    assert("content"@.len() == 7);
    assert("type"@.len() == 4);
    assert("text"@.len() == 4);
    assert("agent_message_chunk"@[6] == 'm');
    assert("agent_thought_chunk"@[6] == 't');
    assert("type"@[1] == 'y');
    assert("text"@[1] == 'e');
    let last = retained.last();
    let a = text_chunk(last)->Ok_0->0;
    let b = text_chunk(update)->Ok_0->0;
    let x = last.as_object()->0;
    let y = update.as_object()->0;
    let cx = last.get("content"@)->0.as_object()->0;
    let cy = update.get("content"@)->0.as_object()->0;
    let none = JsonModel::String(Seq::empty());
    assert(cx.insert("text"@, none) =~= cx.remove("text"@).insert("text"@, none));
    assert(cy.insert("text"@, none) =~= cy.remove("text"@).insert("text"@, none));
    let content = JsonModel::Object(cx.insert("text"@, none));
    assert(x.remove("content"@).contains_key("messageId"@) == x.contains_key("messageId"@));
    assert(y.remove("content"@).contains_key("messageId"@) == y.contains_key("messageId"@));
    assert(x.contains_key("messageId"@) ==> x.remove("content"@)["messageId"@] == x["messageId"@]);
    assert(y.contains_key("messageId"@) ==> y.remove("content"@)["messageId"@] == y["messageId"@]);
    assert(last.get("messageId"@) == update.get("messageId"@));
    assert(x.insert("content"@, content) =~= x.remove("content"@).insert("content"@, content));
    assert(y.insert("content"@, content) =~= y.remove("content"@).insert("content"@, content));
    assert(x.remove("messageId"@).insert("content"@, content) =~= x.remove("content"@).remove(
        "messageId"@,
    ).insert("content"@, content));
    assert(y.remove("messageId"@).insert("content"@, content) =~= y.remove("content"@).remove(
        "messageId"@,
    ).insert("content"@, content));
    assert(a.shape == b.shape);
    lemma_equal_is_reflexive(a.shape);
    assert(folded_turn(retained, update)->Ok_0.drop_last() =~= retained.drop_last());
}

/// A piece of text of another kind or of another message than the last entry
/// begins an entry of its own.
pub proof fn law_text_of_another_message_begins_an_entry(
    retained: Seq<JsonModel>,
    update: JsonModel,
    before: Seq<char>,
    more: Seq<char>,
)
    requires
        retained.len() > 0,
        speaks(retained.last(), before),
        speaks(update, more),
        retained.last().get("sessionUpdate"@) != update.get("sessionUpdate"@) || (update.get(
            "messageId"@,
        ) matches Some(id) && id is String && retained.last().get("messageId"@) != Some(id)),
    ensures
        folded_turn(retained, update) == Ok::<Seq<JsonModel>, RuntimeStateError>(
            retained.push(update),
        ),
{
    reveal_strlit("user_message_chunk");
    reveal_strlit("agent_message_chunk");
    reveal_strlit("agent_thought_chunk");
    reveal_strlit("sessionUpdate");
    reveal_strlit("messageId");
    reveal_strlit("content");
    reveal_strlit("type");
    reveal_strlit("text");
    assert("user_message_chunk"@.len() == 18);
    assert("agent_message_chunk"@.len() == 19);
    assert("agent_thought_chunk"@.len() == 19);
    assert("sessionUpdate"@.len() == 13);
    assert("messageId"@.len() == 9);
    assert("content"@.len() == 7);
    assert("type"@.len() == 4);
    assert("text"@.len() == 4);
    assert("agent_message_chunk"@[6] == 'm');
    assert("agent_thought_chunk"@[6] == 't');
    assert("type"@[1] == 'y');
    assert("text"@[1] == 'e');
    let last = retained.last();
    let a = text_chunk(last)->Ok_0->0;
    let b = text_chunk(update)->Ok_0->0;
    assert(a.shape.get("sessionUpdate"@) == last.get("sessionUpdate"@));
    assert(b.shape.get("sessionUpdate"@) == update.get("sessionUpdate"@));
    assert(b.shape.get("messageId"@) == (if update.get("messageId"@) == Some(JsonModel::Null) {
        None
    } else {
        update.get("messageId"@)
    }));
    assert(a.shape.get("messageId"@) == (if last.get("messageId"@) == Some(JsonModel::Null) {
        None
    } else {
        last.get("messageId"@)
    }));
    if json_equal(a.shape, b.shape) {
        let x = a.shape.as_object()->0;
        let y = b.shape.as_object()->0;
        assert(x.dom().contains("sessionUpdate"@));
        assert(json_equal(x["sessionUpdate"@], y["sessionUpdate"@]));
        if y.contains_key("messageId"@) {
            assert(y.dom().contains("messageId"@));
            assert(x.dom().contains("messageId"@));
            assert(json_equal(x["messageId"@], y["messageId"@]));
        }
    }
}

/// The first piece of text of a turn is retained as it is.
pub proof fn law_first_text_is_retained(update: JsonModel, text: Seq<char>)
    requires
        speaks(update, text),
    ensures
        folded_turn(Seq::empty(), update) == Ok::<Seq<JsonModel>, RuntimeStateError>(seq![update]),
{
    reveal_strlit("user_message_chunk");
    reveal_strlit("agent_message_chunk");
    reveal_strlit("agent_thought_chunk");
    reveal_strlit("content");
    reveal_strlit("type");
    reveal_strlit("text");
    assert("user_message_chunk"@.len() == 18);
    assert("agent_message_chunk"@.len() == 19);
    assert("agent_thought_chunk"@.len() == 19);
    assert("content"@.len() == 7);
    assert("type"@.len() == 4);
    assert("text"@.len() == 4);
    assert("agent_message_chunk"@[6] == 'm');
    assert("agent_thought_chunk"@[6] == 't');
    assert("type"@[1] == 'y');
    assert("text"@[1] == 'e');
    assert(Seq::<JsonModel>::empty().push(update) =~= seq![update]);
}

/// Whether a value is the plan that has no name.
pub open spec fn tells_of_plan(value: JsonModel) -> bool {
    value.get("sessionUpdate"@) == Some(JsonModel::String("plan"@))
}

/// Whether a value is the plan of a name.
pub open spec fn tells_of_named_plan(value: JsonModel, id: Seq<char>) -> bool {
    &&& value.get("sessionUpdate"@) == Some(JsonModel::String("plan_update"@))
    &&& value.get("plan"@) matches Some(plan) && plan.get("planId"@) == Some(JsonModel::String(id))
}

/// A plan that is told again stands as it is told now, at the place where it
/// stood; nothing else changes. A plan that did not stand is added at the end.
pub proof fn law_plan_stands_as_last_told(retained: Seq<JsonModel>, update: JsonModel, at: int)
    requires
        tells_of_plan(update),
        update.get("entries"@) matches Some(entries) && entries is Array,
        0 <= at <= retained.len(),
        at < retained.len() ==> tells_of_plan(retained[at]),
        forall|j: int| 0 <= j < at ==> !tells_of_plan(#[trigger] retained[j]),
    ensures
        folded_turn(retained, update) matches Ok(shown) && {
            &&& shown.len() == (if at < retained.len() {
                retained.len()
            } else {
                retained.len() + 1
            })
            &&& shown[at] == update
            &&& forall|j: int| 0 <= j < retained.len() && j != at
                ==> #[trigger] shown[j] == retained[j]
        },
{
    reveal_strlit("user_message_chunk");
    reveal_strlit("agent_message_chunk");
    reveal_strlit("agent_thought_chunk");
    reveal_strlit("tool_call");
    reveal_strlit("tool_call_update");
    reveal_strlit("plan");
    reveal_strlit("plan_update");
    reveal_strlit("plan_removed");
    assert("user_message_chunk"@.len() == 18);
    assert("agent_message_chunk"@.len() == 19);
    assert("agent_thought_chunk"@.len() == 19);
    assert("tool_call"@.len() == 9);
    assert("tool_call_update"@.len() == 16);
    assert("plan"@.len() == 4);
    assert("plan_update"@.len() == 11);
    assert("plan_removed"@.len() == 12);
    assert("agent_message_chunk"@[6] == 'm');
    assert("agent_thought_chunk"@[6] == 't');
    let wanted = |value: JsonModel| occupies(SlotModel::Plan, value);
    assert forall|j: int| 0 <= j < at implies !wanted(#[trigger] retained[j]) by {
        assert(!tells_of_plan(retained[j]));
    }
    if at < retained.len() {
        lemma_first_is_found(retained, wanted, at);
    } else {
        lemma_none_is_found(retained, wanted);
    }
}

/// A named plan that is told again stands as it is told now, at the place where
/// it stood; nothing else changes. A plan that did not stand is added at the end.
pub proof fn law_named_plan_stands_as_last_told(
    retained: Seq<JsonModel>,
    update: JsonModel,
    id: Seq<char>,
    at: int,
)
    requires
        tells_of_named_plan(update, id),
        id.len() > 0,
        update.get("plan"@)->0.get("entries"@) matches Some(entries) && entries is Array,
        0 <= at <= retained.len(),
        at < retained.len() ==> tells_of_named_plan(retained[at], id),
        forall|j: int| 0 <= j < at ==> !tells_of_named_plan(#[trigger] retained[j], id),
    ensures
        folded_turn(retained, update) matches Ok(shown) && {
            &&& shown.len() == (if at < retained.len() {
                retained.len()
            } else {
                retained.len() + 1
            })
            &&& shown[at] == update
            &&& forall|j: int| 0 <= j < retained.len() && j != at
                ==> #[trigger] shown[j] == retained[j]
        },
{
    reveal_strlit("user_message_chunk");
    reveal_strlit("agent_message_chunk");
    reveal_strlit("agent_thought_chunk");
    reveal_strlit("tool_call");
    reveal_strlit("tool_call_update");
    reveal_strlit("plan");
    reveal_strlit("plan_update");
    reveal_strlit("plan_removed");
    assert("user_message_chunk"@.len() == 18);
    assert("agent_message_chunk"@.len() == 19);
    assert("agent_thought_chunk"@.len() == 19);
    assert("tool_call"@.len() == 9);
    assert("tool_call_update"@.len() == 16);
    assert("plan"@.len() == 4);
    assert("plan_update"@.len() == 11);
    assert("plan_removed"@.len() == 12);
    assert("agent_message_chunk"@[6] == 'm');
    assert("agent_thought_chunk"@[6] == 't');
    let wanted = |value: JsonModel| occupies(SlotModel::NamedPlan(id), value);
    assert forall|j: int| 0 <= j < at implies !wanted(#[trigger] retained[j]) by {
        assert(!tells_of_named_plan(retained[j], id));
    }
    if at < retained.len() {
        lemma_first_is_found(retained, wanted, at);
    } else {
        lemma_none_is_found(retained, wanted);
    }
}

/// A named plan that is removed is gone, and what stood after it moves up.
pub proof fn law_removed_plan_is_gone(
    retained: Seq<JsonModel>,
    update: JsonModel,
    id: Seq<char>,
    at: int,
)
    requires
        update.get("sessionUpdate"@) == Some(JsonModel::String("plan_removed"@)),
        update.get("planId"@) == Some(JsonModel::String(id)),
        id.len() > 0,
        0 <= at <= retained.len(),
        at < retained.len() ==> tells_of_named_plan(retained[at], id),
        forall|j: int| 0 <= j < at ==> !tells_of_named_plan(#[trigger] retained[j], id),
    ensures
        folded_turn(retained, update) matches Ok(shown) && {
            &&& at == retained.len() ==> shown == retained
            &&& at < retained.len() ==> shown == retained.take(at) + retained.skip(at + 1)
        },
{
    reveal_strlit("user_message_chunk");
    reveal_strlit("agent_message_chunk");
    reveal_strlit("agent_thought_chunk");
    reveal_strlit("tool_call");
    reveal_strlit("tool_call_update");
    reveal_strlit("plan");
    reveal_strlit("plan_update");
    reveal_strlit("plan_removed");
    assert("user_message_chunk"@.len() == 18);
    assert("agent_message_chunk"@.len() == 19);
    assert("agent_thought_chunk"@.len() == 19);
    assert("tool_call"@.len() == 9);
    assert("tool_call_update"@.len() == 16);
    assert("plan"@.len() == 4);
    assert("plan_update"@.len() == 11);
    assert("plan_removed"@.len() == 12);
    assert("agent_message_chunk"@[6] == 'm');
    assert("agent_thought_chunk"@[6] == 't');
    let wanted = |value: JsonModel| occupies(SlotModel::NamedPlan(id), value);
    assert forall|j: int| 0 <= j < at implies !wanted(#[trigger] retained[j]) by {
        assert(!tells_of_named_plan(retained[j], id));
    }
    if at < retained.len() {
        lemma_first_is_found(retained, wanted, at);
        assert(retained.remove(at) =~= retained.take(at) + retained.skip(at + 1));
    } else {
        lemma_none_is_found(retained, wanted);
    }
}

/// An update of a kind that gathers nowhere is added at the end, as it is told,
/// and so is one that tells no kind.
pub proof fn law_other_updates_are_added(retained: Seq<JsonModel>, update: JsonModel)
    requires
        update.get("sessionUpdate"@) matches Some(JsonModel::String(kind)) ==> kind
            != "user_message_chunk"@ && kind != "agent_message_chunk"@ && kind
            != "agent_thought_chunk"@ && kind != "tool_call"@ && kind != "tool_call_update"@ && kind
            != "plan"@ && kind != "plan_update"@ && kind != "plan_removed"@,
    ensures
        folded_turn(retained, update) == Ok::<Seq<JsonModel>, RuntimeStateError>(
            retained.push(update),
        ),
{
}

} // verus!
