//! What holds of every conversation: of the updates that are accepted, of the
//! turns that they are folded into, and of the controls that are offered.
use crate::fold::{
    first_position, fold_text, folded_terminal, folded_turn, is_picture, joined_output, merged_tool,
    occupies, retained_output, slot_position, terminal_output, text_chunk, with_content_text,
    without_torn_start, RuntimeStateError, SlotModel, TextChunk,
};
use crate::json::{json_equal, JsonModel};
use crate::semantic::{
    add_items, add_values, config_option_problem, config_options_problem, config_reference_problem,
    first_of, mode_offered, offers, option_with_id, prompt_usage_problem, seen_before,
    session_modes_problem, the_text, token_count, tokens_or_zero, Selectable,
};
use crate::session_update::{
    is_message_kind, is_terminal_status, turn_retired, update_counted, update_problem,
    SemanticModel,
};
use vstd::prelude::*;

verus! {

/// A compaction that has come to its end stays as it is, whatever updates are
/// accepted afterwards.
pub proof fn law_ended_compaction_is_final(state: SemanticModel, update: JsonModel, id: Seq<char>)
    requires
        state.compactions.contains_key(id),
        is_terminal_status(state.compactions[id].status),
        update_problem(state, update) is None,
    ensures
        update_counted(state, update).compactions.contains_key(id),
        update_counted(state, update).compactions[id] == state.compactions[id],
{
    reveal_strlit("in_progress");
    reveal_strlit("completed");
    reveal_strlit("failed");
    reveal_strlit("cancelled");
    assert("in_progress"@.len() == 11);
    assert("completed"@.len() == 9);
    assert("failed"@.len() == 6);
    assert("cancelled"@.len() == 9);
    reveal_strlit("available_commands_update");
    reveal_strlit("config_option_update");
    reveal_strlit("session_info_update");
    reveal_strlit("usage_update");
    reveal_strlit("compaction_update");
    reveal_strlit("compaction_summary_chunk");
    assert("available_commands_update"@.len() == 25);
    assert("config_option_update"@.len() == 20);
    assert("session_info_update"@.len() == 19);
    assert("usage_update"@.len() == 12);
    assert("compaction_update"@.len() == 17);
    assert("compaction_summary_chunk"@.len() == 24);
}

/// An update of a compaction that has come to its end is refused, whatever
/// status, summary or error it carries, and so is one more piece of its summary.
pub proof fn law_ended_compaction_takes_no_update(
    state: SemanticModel,
    update: JsonModel,
    id: Seq<char>,
)
    requires
        state.compactions.contains_key(id),
        is_terminal_status(state.compactions[id].status),
        update.text_at("sessionUpdate"@) == Some("compaction_update"@) || update.text_at(
            "sessionUpdate"@,
        ) == Some("compaction_summary_chunk"@),
        update.text_at("compactionId"@) == Some(id),
    ensures
        update_problem(state, update) is Some,
{
    reveal_strlit("in_progress");
    reveal_strlit("completed");
    reveal_strlit("failed");
    reveal_strlit("cancelled");
    assert("in_progress"@.len() == 11);
    assert("completed"@.len() == 9);
    assert("failed"@.len() == 6);
    assert("cancelled"@.len() == 9);
    reveal_strlit("user_message_chunk");
    reveal_strlit("agent_message_chunk");
    reveal_strlit("agent_thought_chunk");
    reveal_strlit("tool_call");
    reveal_strlit("tool_call_update");
    reveal_strlit("plan");
    reveal_strlit("plan_update");
    reveal_strlit("plan_removed");
    reveal_strlit("current_mode_update");
    assert("user_message_chunk"@.len() == 18);
    assert("agent_message_chunk"@.len() == 19);
    assert("agent_thought_chunk"@.len() == 19);
    assert("tool_call"@.len() == 9);
    assert("tool_call_update"@.len() == 16);
    assert("plan"@.len() == 4);
    assert("plan_update"@.len() == 11);
    assert("plan_removed"@.len() == 12);
    assert("current_mode_update"@.len() == 19);
    reveal_strlit("available_commands_update");
    reveal_strlit("config_option_update");
    reveal_strlit("session_info_update");
    reveal_strlit("usage_update");
    reveal_strlit("compaction_update");
    reveal_strlit("compaction_summary_chunk");
    assert("available_commands_update"@.len() == 25);
    assert("config_option_update"@.len() == 20);
    assert("session_info_update"@.len() == 19);
    assert("usage_update"@.len() == 12);
    assert("compaction_update"@.len() == 17);
    assert("compaction_summary_chunk"@.len() == 24);
}

/// When a turn is retired, all that is known of the conversation stays known;
/// only the counts of the turn start over.
pub proof fn law_retired_turn_keeps_the_conversation(state: SemanticModel)
    ensures
        turn_retired(state).compactions == state.compactions,
        turn_retired(state).tool_calls == state.tool_calls,
        turn_retired(state).messages == state.messages,
        turn_retired(state).plans == state.plans,
        turn_retired(state).current_mode_id == state.current_mode_id,
        turn_retired(state).update_count == 0,
        turn_retired(state).update_bytes == 0,
        turn_retired(state).invalid_reason is None,
{
}

/// The current mode of a session whose modes are accepted is one of those that
/// it offers.
pub proof fn law_current_mode_is_offered(modes: JsonModel)
    requires
        session_modes_problem(modes) is None,
    ensures
        mode_offered(Some(modes), the_text(modes, "currentModeId"@)),
{
}

/// Of a usage that is accepted, no part is larger than the whole, and what went
/// in and what came out fit into the whole together.
pub proof fn law_accepted_usage_adds_up(usage: JsonModel)
    requires
        prompt_usage_problem(usage) is None,
    ensures
        token_count(usage, "totalTokens"@) matches Some(total) && tokens_or_zero(
            usage,
            "inputTokens"@,
        ) + tokens_or_zero(usage, "outputTokens"@) <= total && tokens_or_zero(
            usage,
            "thoughtTokens"@,
        ) <= total && tokens_or_zero(usage, "cachedReadTokens"@) <= total && tokens_or_zero(
            usage,
            "cachedWriteTokens"@,
        ) <= total,
{
}

proof fn lemma_no_problem_at(count: nat, check: spec_fn(int) -> Option<Seq<char>>, at: int)
    requires
        first_of(count, check) is None,
        0 <= at < count,
    ensures
        check(at) is None,
    decreases count,
{
    if at < count - 1 {
        lemma_no_problem_at((count - 1) as nat, check, at);
    }
}

/// The values of some options are those that were known before and those of
/// the options.
proof fn lemma_added_values(
    config_id: Seq<char>,
    before: Selectable,
    options: Seq<JsonModel>,
    count: nat,
    value: Seq<char>,
)
    requires
        count <= options.len(),
        add_values(config_id, before, options, count) matches Selectable::Known { values, .. }
            && values.contains(value),
    ensures
        (before matches Selectable::Known { values, .. } && values.contains(value))
            || seen_before(options, count as int, "value"@, value),
    decreases count,
{
    if count > 0 {
        let less = (count - 1) as nat;
        let earlier = add_values(config_id, before, options, less);
        if let Selectable::Known { values, .. } = earlier {
            let added = the_text(options[count - 1], "value"@);
            let all = values.push(added);
            let i = choose|i: int| 0 <= i < all.len() && all[i] == value;
            if i < values.len() {
                assert(values[i] == value);
                lemma_added_values(config_id, before, options, less, value);
            } else {
                assert(options[count - 1].text_at("value"@) == Some(value));
            }
        }
    }
}

/// The values of some items are offered by one of them.
proof fn lemma_item_values(
    config_id: Seq<char>,
    items: Seq<JsonModel>,
    count: nat,
    value: Seq<char>,
)
    requires
        count <= items.len(),
        add_items(config_id, items, count) matches Selectable::Known { values, .. }
            && values.contains(value),
    ensures
        exists|i: int|
            0 <= i < count && ((#[trigger] items[i]).text_at("value"@) == Some(value) || (
            items[i].array_at("options"@) matches Some(nested) && offers(
                nested,
                "value"@,
                value,
            ))),
    decreases count,
{
    if count > 0 {
        let less = (count - 1) as nat;
        let earlier = add_items(config_id, items, less);
        let item = items[count - 1];
        if let Selectable::Known { values, groups } = earlier {
            match item.array_at("options"@) {
                Some(nested) => {
                    let start = Selectable::Known {
                        values,
                        groups: groups.push(the_text(item, "group"@)),
                    };
                    lemma_added_values(config_id, start, nested, nested.len(), value);
                },
                None => {
                    lemma_added_values(config_id, earlier, seq![item], 1, value);
                    if seen_before(seq![item], 1, "value"@, value) {
                        let j = choose|j: int|
                            0 <= j < 1 && (#[trigger] seq![item][j]).text_at("value"@) == Some(
                                value,
                            );
                        assert(seq![item][j] == item);
                    }
                },
            }
            if values.contains(value) {
                lemma_item_values(config_id, items, less, value);
            } else {
                assert(items[count - 1] == item);
            }
        }
    }
}

proof fn lemma_option_found(options: Seq<JsonModel>, at: int, id: Seq<char>)
    requires
        0 <= at < options.len(),
        options[at].text_at("id"@) == Some(id),
        !seen_before(options, at, "id"@, id),
    ensures
        option_with_id(options, id) == Some(options[at]),
    decreases at,
{
    if at > 0 {
        assert(options[0].text_at("id"@) != Some(id));
        let rest = options.drop_first();
        assert(rest[at - 1] == options[at]);
        if seen_before(rest, at - 1, "id"@, id) {
            let j = choose|j: int| 0 <= j < at - 1 && (#[trigger] rest[j]).text_at("id"@) == Some(
                id,
            );
            assert(options[j + 1].text_at("id"@) == Some(id));
        }
        lemma_option_found(rest, at - 1, id);
    }
}

/// Of configuration options that are accepted, each one to select from takes
/// its own current value.
pub proof fn law_current_value_is_accepted(options: Seq<JsonModel>, at: int)
    requires
        config_options_problem(JsonModel::Array(options)) is None,
        0 <= at < options.len(),
        options[at].text_at("type"@) == Some("select"@),
    ensures
        config_reference_problem(
            JsonModel::Array(options),
            the_text(options[at], "id"@),
            JsonModel::String(the_text(options[at], "currentValue"@)),
        ) is None,
{
    let check = |i: int| config_option_problem(options, i);
    lemma_no_problem_at(options.len(), check, at);
    assert(config_option_problem(options, at) is None);
    let id = the_text(options[at], "id"@);
    lemma_option_found(options, at, id);
    let items = options[at].array_at("options"@)->0;
    lemma_item_values(id, items, items.len(), the_text(options[at], "currentValue"@));
    reveal_strlit("boolean");
    reveal_strlit("select");
    assert("boolean"@.len() == 7);
    assert("select"@.len() == 6);
}

/// One more text chunk of the same shape is joined to the last one, and
/// nothing else changes.
pub proof fn law_adjacent_text_is_joined(
    retained: Seq<JsonModel>,
    last: JsonModel,
    update: JsonModel,
)
    requires
        text_chunk(last) matches Ok(Some(a)) && (text_chunk(update) matches Ok(Some(b))
            && json_equal(a.shape, b.shape)),
    ensures
        folded_turn(retained.push(last), update) == Ok::<Seq<JsonModel>, RuntimeStateError>(
            retained.push(
                with_content_text(
                    last,
                    text_chunk(last)->Ok_0->0.text + text_chunk(update)->Ok_0->0.text,
                ),
            ),
        ),
{
    let all = retained.push(last);
    let joined = with_content_text(
        last,
        text_chunk(last)->Ok_0->0.text + text_chunk(update)->Ok_0->0.text,
    );
    assert(all.update(all.len() - 1, joined) =~= retained.push(joined));
}

proof fn lemma_position_bound(values: Seq<JsonModel>, wanted: spec_fn(JsonModel) -> bool)
    ensures
        0 <= first_position(values, wanted) <= values.len(),
        first_position(values, wanted) < values.len() ==> wanted(
            values[first_position(values, wanted)],
        ),
    decreases values.len(),
{
    if values.len() > 0 && !wanted(values[0]) {
        lemma_position_bound(values.drop_first(), wanted);
    }
}

/// An update that is folded in adds at most one to what is retained, and takes
/// at most one away.
pub proof fn law_fold_changes_length_by_one(retained: Seq<JsonModel>, update: JsonModel)
    ensures
        folded_turn(retained, update) matches Ok(folded) ==> retained.len() - 1 <= folded.len()
            <= retained.len() + 1,
{
    assert forall|wanted: spec_fn(JsonModel) -> bool|
        0 <= #[trigger] first_position(retained, wanted) <= retained.len() by {
        lemma_position_bound(retained, wanted);
    }
}

/// The updates of a tool call gather at its first position: all others stay
/// where they are.
pub proof fn law_tool_call_keeps_its_position(
    retained: Seq<JsonModel>,
    update: JsonModel,
    id: Seq<char>,
    at: int,
)
    requires
        update.text_at("sessionUpdate"@) == Some("tool_call"@) || update.text_at("sessionUpdate"@)
            == Some("tool_call_update"@),
        update.text_at("toolCallId"@) == Some(id),
        id.len() > 0,
        slot_position(retained, SlotModel::Tool(id)) < retained.len(),
        0 <= at < retained.len(),
        at != slot_position(retained, SlotModel::Tool(id)),
    ensures
        folded_turn(retained, update) matches Ok(folded) && folded.len() == retained.len()
            && folded[at] == retained[at],
{
    reveal_strlit("tool_call");
    reveal_strlit("tool_call_update");
    reveal_strlit("user_message_chunk");
    reveal_strlit("agent_message_chunk");
    reveal_strlit("agent_thought_chunk");
    assert("tool_call"@.len() == 9);
    assert("tool_call_update"@.len() == 16);
    assert("user_message_chunk"@.len() == 18);
    assert("agent_message_chunk"@.len() == 19);
    assert("agent_thought_chunk"@.len() == 19);
    let slot = SlotModel::Tool(id);
    lemma_position_bound(retained, |value: JsonModel| occupies(slot, value));
}

/// A list of updates in which every tool call and every plan stands once at most.
pub open spec fn has_single_slots(values: Seq<JsonModel>) -> bool {
    forall|slot: SlotModel, i: int, j: int|
        0 <= i < j < values.len() && #[trigger] occupies(slot, values[i]) ==> !#[trigger] occupies(
            slot,
            values[j],
        )
}

/// What folding an update into a list may do to the list: add one, put one in the
/// place of another, take one out, or nothing.
pub open spec fn is_one_step(before: Seq<JsonModel>, after: Seq<JsonModel>) -> bool {
    ||| after == before
    ||| after.len() == before.len() + 1 && after == before.push(after.last())
    ||| exists|at: int|
        0 <= at < before.len() && after.len() == before.len() && after == before.update(
            at,
            #[trigger] after[at],
        )
    ||| exists|at: int| 0 <= at < before.len() && after == #[trigger] before.remove(at)
}

/// The names of the kinds of updates differ.
proof fn lemma_kinds()
    ensures
        "tool_call"@.len() == 9,
        "tool_call_update"@.len() == 16,
        "plan"@.len() == 4,
        "plan_update"@.len() == 11,
        "plan_removed"@.len() == 12,
        "user_message_chunk"@.len() == 18,
        "agent_message_chunk"@.len() == 19,
        "agent_thought_chunk"@.len() == 19,
        "sessionUpdate"@.len() == 13,
        "toolCallId"@.len() == 10,
        "content"@.len() == 7,
        "messageId"@.len() == 9,
        "type"@ != "text"@,
{
    reveal_strlit("tool_call");
    reveal_strlit("tool_call_update");
    reveal_strlit("plan");
    reveal_strlit("plan_update");
    reveal_strlit("plan_removed");
    reveal_strlit("user_message_chunk");
    reveal_strlit("agent_message_chunk");
    reveal_strlit("agent_thought_chunk");
    reveal_strlit("sessionUpdate");
    reveal_strlit("toolCallId");
    reveal_strlit("content");
    reveal_strlit("messageId");
    reveal_strlit("type");
    reveal_strlit("text");
    assert("type"@[1] == 'y' && "text"@[1] == 'e');
}

proof fn lemma_first_is_first(values: Seq<JsonModel>, wanted: spec_fn(JsonModel) -> bool, i: int)
    requires
        0 <= i < first_position(values, wanted),
        i < values.len(),
    ensures
        !wanted(values[i]),
    decreases values.len(),
{
    if values.len() > 0 && !wanted(values[0]) && i > 0 {
        lemma_first_is_first(values.drop_first(), wanted, i - 1);
    }
}

/// A value that occupies no other slots than one that stands in a list may take
/// its place.
proof fn lemma_put_keeps_single(values: Seq<JsonModel>, at: int, value: JsonModel)
    requires
        has_single_slots(values),
        0 <= at < values.len(),
        forall|slot: SlotModel| #[trigger] occupies(slot, value) ==> occupies(slot, values[at]),
    ensures
        has_single_slots(values.update(at, value)),
{
    let next = values.update(at, value);
    assert forall|slot: SlotModel, i: int, j: int|
        0 <= i < j < next.len() && #[trigger] occupies(slot, next[i]) implies !#[trigger] occupies(
        slot,
        next[j],
    ) by {
        if occupies(slot, next[j]) {
            assert(occupies(slot, values[i]));
            assert(occupies(slot, values[j]));
        }
    }
}

proof fn lemma_push_keeps_single(values: Seq<JsonModel>, value: JsonModel)
    requires
        has_single_slots(values),
        forall|slot: SlotModel, i: int|
            0 <= i < values.len() && #[trigger] occupies(slot, values[i])
                ==> !occupies(slot, value),
    ensures
        has_single_slots(values.push(value)),
{
    let next = values.push(value);
    assert forall|slot: SlotModel, i: int, j: int|
        0 <= i < j < next.len() && #[trigger] occupies(slot, next[i]) implies !#[trigger] occupies(
        slot,
        next[j],
    ) by {
        assert(occupies(slot, values[i]));
        if j < values.len() {
            assert(next[j] == values[j]);
        }
    }
}

proof fn lemma_replaced_keeps_single(values: Seq<JsonModel>, slot: SlotModel, value: JsonModel)
    requires
        has_single_slots(values),
        forall|other: SlotModel| #[trigger] occupies(other, value) ==> other == slot,
    ensures
        ({
            let at = slot_position(values, slot);
            let next = if at < values.len() {
                values.update(at, value)
            } else {
                values.push(value)
            };
            has_single_slots(next) && is_one_step(values, next)
        }),
{
    let wanted = |value: JsonModel| occupies(slot, value);
    let at = slot_position(values, slot);
    lemma_position_bound(values, wanted);
    if at < values.len() {
        lemma_put_keeps_single(values, at, value);
        assert(values.update(at, value)[at] == value);
    } else {
        assert forall|other: SlotModel, i: int|
            0 <= i < values.len() && #[trigger] occupies(other, values[i]) implies !occupies(
            other,
            value,
        ) by {
            lemma_first_is_first(values, wanted, i);
        }
        lemma_push_keeps_single(values, value);
    }
}

/// Every tool call and every plan keeps one entry at most, however many updates
/// are folded in, and an update touches one entry at most.
pub proof fn law_fold_keeps_one_entry_each(retained: Seq<JsonModel>, update: JsonModel)
    requires
        has_single_slots(retained),
    ensures
        match folded_turn(retained, update) {
            Ok(folded) => has_single_slots(folded) && is_one_step(retained, folded),
            Err(error) => error == RuntimeStateError::OperationMismatch,
        },
{
    lemma_kinds();
    match update.text_at("sessionUpdate"@) {
        None => {
            lemma_push_keeps_single(retained, update);
        },
        Some(kind) => {
            if kind == "tool_call"@ || kind == "tool_call_update"@ {
                if let Some(id) = fold_text(update, "toolCallId"@) {
                    let slot = SlotModel::Tool(id);
                    let at = slot_position(retained, slot);
                    lemma_position_bound(retained, |value: JsonModel| occupies(slot, value));
                    let value = if at < retained.len() {
                        merged_tool(retained[at], update, kind, id)
                    } else {
                        update
                    };
                    lemma_replaced_keeps_single(retained, slot, value);
                }
            } else if kind == "plan"@ {
                lemma_replaced_keeps_single(retained, SlotModel::Plan, update);
            } else if kind == "plan_update"@ {
                if let Some(JsonModel::Object(fields)) = update.get("plan"@) {
                    if let Some(id) = fold_text(JsonModel::Object(fields), "planId"@) {
                        lemma_replaced_keeps_single(retained, SlotModel::NamedPlan(id), update);
                    }
                }
            } else if kind == "plan_removed"@ {
                if let Some(id) = fold_text(update, "planId"@) {
                    let slot = SlotModel::NamedPlan(id);
                    let at = slot_position(retained, slot);
                    lemma_position_bound(retained, |value: JsonModel| occupies(slot, value));
                    if at < retained.len() {
                        let next = retained.remove(at);
                        assert forall|other: SlotModel, i: int, j: int|
                            0 <= i < j < next.len() && #[trigger] occupies(
                                other,
                                next[i],
                            ) implies !#[trigger] occupies(other, next[j]) by {
                            let a = if i < at {
                                i
                            } else {
                                i + 1
                            };
                            let b = if j < at {
                                j
                            } else {
                                j + 1
                            };
                            assert(next[i] == retained[a] && next[j] == retained[b]);
                            assert(occupies(other, retained[a]));
                        }
                    }
                }
            } else {
                lemma_push_keeps_single(retained, update);
                if is_message_kind(kind) && retained.len() > 0 {
                    let last = retained.len() - 1;
                    if let (Ok(Some(chunk)), Ok(Some(previous))) = (
                        text_chunk(update),
                        text_chunk(retained[last]),
                    ) {
                        let joined = with_content_text(
                            retained[last],
                            previous.text + chunk.text,
                        );
                        lemma_put_keeps_single(retained, last, joined);
                        assert(retained.update(last, joined)[last] == joined);
                    }
                }
            }
        },
    }
}

/// Values that are equal to one value are equal.
pub proof fn lemma_equal_is_transitive(a: JsonModel, b: JsonModel, c: JsonModel)
    requires
        json_equal(a, b),
        json_equal(b, c),
    ensures
        json_equal(a, c),
    decreases a,
{
    match (a, b, c) {
        (JsonModel::Array(x), JsonModel::Array(y), JsonModel::Array(z)) => {
            assert forall|i: int| 0 <= i < x.len() implies json_equal(#[trigger] x[i], z[i]) by {
                assert(json_equal(x[i], y[i]));
                assert(json_equal(y[i], z[i]));
                lemma_equal_is_transitive(x[i], y[i], z[i]);
            }
        },
        (JsonModel::Object(x), JsonModel::Object(y), JsonModel::Object(z)) => {
            assert(x.dom() =~= z.dom());
            assert forall|key: Seq<char>| x.contains_key(key) implies json_equal(
                #[trigger] x[key],
                z[key],
            ) by {
                assert(x.dom().contains(key) && y.dom().contains(key));
                assert(json_equal(x[key], y[key]));
                assert(json_equal(y[key], z[key]));
                lemma_equal_is_transitive(x[key], y[key], z[key]);
            }
        },
        _ => {},
    }
}

/// A text chunk with another text has the same shape.
proof fn lemma_chunk_with_text(update: JsonModel, text: Seq<char>)
    requires
        text_chunk(update) matches Ok(Some(_)),
    ensures
        text_chunk(with_content_text(update, text)) == Ok::<Option<TextChunk>, RuntimeStateError>(
            Some(TextChunk { shape: text_chunk(update)->Ok_0->0.shape, text }),
        ),
        forall|other: Seq<char>|
            with_content_text(#[trigger] with_content_text(update, text), other)
                == with_content_text(update, other),
{
    lemma_kinds();
    let fields = update->Object_0;
    let content = fields["content"@]->Object_0;
    assert forall|other: Seq<char>|
        with_content_text(#[trigger] with_content_text(update, text), other) == with_content_text(
            update,
            other,
        ) by {
        assert(content.insert("text"@, JsonModel::String(text)).insert(
            "text"@,
            JsonModel::String(other),
        ) =~= content.insert("text"@, JsonModel::String(other)));
        let a = with_content_text(with_content_text(update, text), other)->Object_0;
        let b = with_content_text(update, other)->Object_0;
        assert(a =~= b);
    }
    let changed = with_content_text(update, text);
    assert(changed.get("messageId"@) == update.get("messageId"@));
    assert(changed.get("sessionUpdate"@) == update.get("sessionUpdate"@));
    if update.get("messageId"@) == Some(JsonModel::Null) {
        let a = with_content_text(changed.without_field("messageId"@), Seq::empty());
        let b = with_content_text(update.without_field("messageId"@), Seq::empty());
        assert(content.insert("text"@, JsonModel::String(text)).insert(
            "text"@,
            JsonModel::String(Seq::empty()),
        ) =~= content.insert("text"@, JsonModel::String(Seq::empty())));
        assert(a->Object_0 =~= b->Object_0);
    } else {
        assert(with_content_text(changed, Seq::empty()) == with_content_text(
            update,
            Seq::empty(),
        ));
    }
}

/// Two text chunks of one shape, one after the other, leave what one chunk with
/// both texts leaves.
pub proof fn law_two_chunks_are_one(
    retained: Seq<JsonModel>,
    first: JsonModel,
    second: JsonModel,
)
    requires
        text_chunk(first) matches Ok(Some(a)) && (text_chunk(second) matches Ok(Some(b))
            && json_equal(a.shape, b.shape)),
        folded_turn(retained, first) is Ok,
    ensures
        folded_turn(folded_turn(retained, first)->Ok_0, second) == folded_turn(
            retained,
            with_content_text(
                first,
                text_chunk(first)->Ok_0->0.text + text_chunk(second)->Ok_0->0.text,
            ),
        ),
{
    lemma_kinds();
    let a = text_chunk(first)->Ok_0->0;
    let b = text_chunk(second)->Ok_0->0;
    let both = with_content_text(first, a.text + b.text);
    lemma_chunk_with_text(first, a.text + b.text);
    assert(both.text_at("sessionUpdate"@) == first.text_at("sessionUpdate"@));
    let once = folded_turn(retained, first)->Ok_0;
    let joins = retained.len() > 0 && (text_chunk(retained.last()) matches Ok(Some(previous))
        && json_equal(previous.shape, a.shape));
    if joins {
        let last = retained.last();
        let previous = text_chunk(last)->Ok_0->0;
        lemma_chunk_with_text(last, previous.text + a.text);
        lemma_equal_is_transitive(previous.shape, a.shape, b.shape);
        assert(once.last() == with_content_text(last, previous.text + a.text));
        assert(previous.text + a.text + b.text =~= previous.text + (a.text + b.text));
        let end = with_content_text(last, previous.text + (a.text + b.text));
        assert(once.update(once.len() - 1, end) =~= retained.update(retained.len() - 1, end));
    } else {
        assert(once == retained.push(first));
        assert(once.update(once.len() - 1, both) =~= retained.push(both));
    }
}

proof fn lemma_torn_start(a: Seq<u8>, b: Seq<u8>)
    ensures
        without_torn_start(without_torn_start(a) + b) == without_torn_start(a + b),
    decreases a.len(),
{
    if a.len() == 0 {
        assert(without_torn_start(a) + b =~= a + b);
    } else if 0x80 <= a[0] < 0xc0 {
        lemma_torn_start(a.drop_first(), b);
        assert((a + b).drop_first() =~= a.drop_first() + b);
    }
}

/// The output of a terminal may be cut at any byte, even inside a character: two
/// pieces, one after the other, leave what the whole leaves. The picture is the
/// one that the first piece is folded into, and nothing limits what is retained.
pub proof fn law_split_output_is_reassembled(
    previous: Option<JsonModel>,
    first: JsonModel,
    picture: JsonModel,
    second: JsonModel,
    whole: JsonModel,
)
    requires
        is_picture(previous, first, picture),
        first is Object,
        second is Object,
        whole is Object,
        first.true_at("outputAppend"@),
        first.get("retainedBytes"@) is None,
        second.true_at("outputAppend"@),
        second.get("retainedBytes"@) is None,
        whole.without_field("outputBytes"@) == second.without_field("outputBytes"@),
        terminal_output(whole) == terminal_output(first) + terminal_output(second),
    ensures
        folded_terminal(Some(picture), second) == folded_terminal(previous, whole),
{
    reveal_strlit("output");
    reveal_strlit("outputBytes");
    reveal_strlit("outputAppend");
    reveal_strlit("retainedBytes");
    reveal_strlit("exitStatus");
    reveal_strlit("released");
    assert("output"@.len() == 6 && "outputBytes"@.len() == 11 && "outputAppend"@.len() == 12);
    assert("retainedBytes"@.len() == 13 && "exitStatus"@.len() == 10 && "released"@.len() == 8);
    let rest = second.without_field("outputBytes"@);
    assert(rest == whole.without_field("outputBytes"@));
    assert forall|key: Seq<char>| key != "outputBytes"@ implies #[trigger] second.get(key)
        == whole.get(key) by {
        assert(rest.get(key) == second.get(key));
        assert(rest.get(key) == whole.get(key));
    }
    assert(second.get("retainedBytes"@) == whole.get("retainedBytes"@));
    assert(second.get("outputAppend"@) == whole.get("outputAppend"@));
    assert(second.get("exitStatus"@) == whole.get("exitStatus"@));
    assert(second.get("released"@) == whole.get("released"@));
    let before = if previous is Some {
        terminal_output(previous->0)
    } else {
        Seq::empty()
    };
    let a = terminal_output(first);
    let b = terminal_output(second);
    assert(joined_output(previous, first) =~= before + a);
    assert(joined_output(previous, whole) =~= before + a + b);
    lemma_torn_start(before + a, b);
    assert(retained_output(Some(picture), second) == retained_output(previous, whole));
    let left = folded_terminal(Some(picture), second);
    let right = folded_terminal(previous, whole);
    assert forall|key: Seq<char>| #[trigger] left.get(key) == right.get(key) by {
        assert(key == "outputBytes"@ || second.get(key) == whole.get(key));
    }
    assert forall|key: Seq<char>| #[trigger] left->Object_0.dom().contains(key)
        == right->Object_0.dom().contains(key) && (left->Object_0.dom().contains(key)
        ==> left->Object_0[key] == right->Object_0[key]) by {
        assert(left.get(key) == right.get(key));
    }
    assert(left->Object_0 =~= right->Object_0);
}

} // verus!
