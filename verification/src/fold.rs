//! Folding: how updates accumulate in a turn, in the controls of a session and
//! in the picture of a terminal.
use crate::codec::{
    base64_bytes, base64_text, check_utf8, decode_base64, decode_lossy, encode_base64, lossy_text,
    utf8_stop,
};
use crate::json::{
    copy_items, items_model, json_equal, json_model, merge_entries, merged_fields, same_json, shown,
    Json, JsonModel, MergeRule,
};
use crate::session_update::is_message_kind;
use crate::table::Table;
use crate::text::{is_text, join2, same_text};
use vstd::prelude::*;
use vstd::slice::slice_to_vec;
use vstd::string::*;
use vstd::utf8::*;

verus! {

/// Why a transition of the runtime state was refused.
#[derive(Debug, Clone, Copy, PartialEq, Eq, Structural)]
pub enum RuntimeStateError {
    EpochMismatch,
    UnknownSession,
    StaleIncarnation,
    BusySession,
    NoActiveTurn,
    OperationMismatch,
    UnknownInteraction,
    SessionNotActive,
    OperationCollision,
    InteractionCollision,
}

/// The shape of a text chunk and its text. Two chunks with equal shapes may be
/// joined.
#[verifier::ext_equal]
pub struct TextChunk {
    pub shape: JsonModel,
    pub text: Seq<char>,
}

/// The content of an update with another text.
pub open spec fn with_content_text(update: JsonModel, text: Seq<char>) -> JsonModel {
    update.with_field(
        "content"@,
        update.get("content"@)->0.with_field("text"@, JsonModel::String(text)),
    )
}

/// The text chunk that an update is, if it is one. A message chunk without a
/// typed content, with an odd message identifier or with a text block that has
/// no text is refused.
pub open spec fn text_chunk(update: JsonModel) -> Result<Option<TextChunk>, RuntimeStateError> {
    if !(update.text_at("sessionUpdate"@) matches Some(kind) && is_message_kind(kind)) {
        Ok(None)
    } else {
        match update.get("content"@) {
            Some(JsonModel::Object(fields)) => {
                let content = JsonModel::Object(fields);
                if content.text_at("type"@) is None {
                    Err(RuntimeStateError::OperationMismatch)
                } else if update.some_at("messageId"@) matches Some(id) && !(id is String) {
                    Err(RuntimeStateError::OperationMismatch)
                } else if content.text_at("type"@) != Some("text"@) {
                    Ok(None)
                } else {
                    match content.text_at("text"@) {
                        None => Err(RuntimeStateError::OperationMismatch),
                        Some(text) => Ok(
                            Some(
                                TextChunk {
                                    shape: with_content_text(
                                        if update.get("messageId"@) == Some(JsonModel::Null) {
                                            update.without_field("messageId"@)
                                        } else {
                                            update
                                        },
                                        Seq::empty(),
                                    ),
                                    text,
                                },
                            ),
                        ),
                    }
                }
            },
            _ => Err(RuntimeStateError::OperationMismatch),
        }
    }
}

/// What a reading of a text chunk means.
pub open spec fn chunk_view(chunk: Result<Option<(Json, &str)>, RuntimeStateError>) -> Result<
    Option<TextChunk>,
    RuntimeStateError,
> {
    match chunk {
        Ok(Some((shape, text))) => Ok(Some(TextChunk { shape: shape@, text: text@ })),
        Ok(None) => Ok(None),
        Err(error) => Err(error),
    }
}

/// Puts a text into the content of an update.
fn put_content_text(update: Json, text: String) -> (changed: Json)
    requires
        update@.get("content"@) matches Some(content) && content is Object,
    ensures
        changed@ == with_content_text(update@, text@),
{
    let mut changed = update;
    let mut content = match changed.get("content") {
        Some(content) => content.clone(),
        None => Json::Null,
    };
    content.put("text", Json::String(text));
    changed.put("content", content);
    changed
}

fn text_chunk_shape(update: &Json) -> (chunk: Result<Option<(Json, &str)>, RuntimeStateError>)
    ensures
        chunk_view(chunk) == text_chunk(update@),
{
    let kind = match update.text_at("sessionUpdate") {
        Some(kind) => kind,
        None => {
            return Ok(None);
        },
    };
    if !(same_text(kind, "user_message_chunk") || same_text(kind, "agent_message_chunk")
        || same_text(kind, "agent_thought_chunk")) {
        return Ok(None);
    }
    let content = match update.get("content") {
        Some(content) => content,
        None => {
            return Err(RuntimeStateError::OperationMismatch);
        },
    };
    if content.as_object().is_none() {
        return Err(RuntimeStateError::OperationMismatch);
    }
    let content_type = match content.text_at("type") {
        Some(content_type) => content_type,
        None => {
            return Err(RuntimeStateError::OperationMismatch);
        },
    };
    match update.some_at("messageId") {
        Some(id) => {
            if !id.is_string() {
                return Err(RuntimeStateError::OperationMismatch);
            }
        },
        None => {},
    }
    if !same_text(content_type, "text") {
        return Ok(None);
    }
    let text = match content.text_at("text") {
        Some(text) => text,
        None => {
            return Err(RuntimeStateError::OperationMismatch);
        },
    };
    let null_id = match update.get("messageId") {
        Some(id) => id.is_null(),
        None => false,
    };
    proof {
        reveal_strlit("messageId");
        reveal_strlit("content");
        assert("messageId"@.len() != "content"@.len());
    }
    let base = if null_id {
        update.clone().without("messageId")
    } else {
        update.clone()
    };
    Ok(Some((put_content_text(base, String::new()), text)))
}

/// The position of the first value of which a condition holds, or the length
/// of the list where there is none.
pub open spec fn first_position(values: Seq<JsonModel>, wanted: spec_fn(JsonModel) -> bool) -> int
    decreases values.len(),
{
    if values.len() == 0 {
        0
    } else if wanted(values[0]) {
        0
    } else {
        1 + first_position(values.drop_first(), wanted)
    }
}

proof fn lemma_first_position(values: Seq<JsonModel>, wanted: spec_fn(JsonModel) -> bool, at: int)
    requires
        0 <= at <= values.len(),
        forall|j: int| 0 <= j < at ==> !wanted(#[trigger] values[j]),
        at < values.len() ==> wanted(values[at]),
    ensures
        first_position(values, wanted) == at,
    decreases values.len(),
{
    if values.len() > 0 && at > 0 {
        assert(!wanted(values[0]));
        let rest = values.drop_first();
        assert forall|j: int| 0 <= j < at - 1 implies !wanted(#[trigger] rest[j]) by {
            assert(!wanted(values[j + 1]));
        }
        lemma_first_position(rest, wanted, at - 1);
    }
}

/// Puts a value in place of the first one of which a condition holds, or at the
/// end.
pub open spec fn replaced_slot(
    values: Seq<JsonModel>,
    wanted: spec_fn(JsonModel) -> bool,
    value: JsonModel,
) -> Seq<JsonModel> {
    let at = first_position(values, wanted);
    if at < values.len() {
        values.update(at, value)
    } else {
        values.push(value)
    }
}

/// What occupies one slot of a folded turn.
pub enum Slot<'a> {
    /// The update of a tool call.
    Tool(&'a str),
    /// The plan without a name.
    Plan,
    /// A named plan.
    NamedPlan(&'a str),
}

/// What occupies one slot of a folded turn.
pub enum SlotModel {
    Tool(Seq<char>),
    Plan,
    NamedPlan(Seq<char>),
}

impl<'a> Slot<'a> {
    pub open spec fn model(self) -> SlotModel {
        match self {
            Slot::Tool(id) => SlotModel::Tool(id@),
            Slot::Plan => SlotModel::Plan,
            Slot::NamedPlan(id) => SlotModel::NamedPlan(id@),
        }
    }
}

/// Whether an update kind speaks of a tool call.
pub open spec fn is_tool_kind(kind: Option<Seq<char>>) -> bool {
    kind == Some("tool_call"@) || kind == Some("tool_call_update"@)
}

/// Whether a retained update occupies a slot.
pub open spec fn occupies(slot: SlotModel, update: JsonModel) -> bool {
    match slot {
        SlotModel::Tool(id) => is_tool_kind(update.text_at("sessionUpdate"@)) && update.text_at(
            "toolCallId"@,
        ) == Some(id),
        SlotModel::Plan => update.text_at("sessionUpdate"@) == Some("plan"@),
        SlotModel::NamedPlan(id) => update.text_at("sessionUpdate"@) == Some("plan_update"@) && (
        update.get("plan"@) matches Some(plan) && plan.text_at("planId"@) == Some(id)),
    }
}

/// The position of the update that occupies a slot.
pub open spec fn slot_position(values: Seq<JsonModel>, slot: SlotModel) -> int {
    first_position(values, |value: JsonModel| occupies(slot, value))
}

fn is_occupied(slot: &Slot, update: &Json) -> (occupied: bool)
    ensures
        occupied == occupies(slot.model(), update@),
{
    match slot {
        Slot::Tool(id) => {
            let kind = update.text_at("sessionUpdate");
            (is_text(kind, "tool_call") || is_text(kind, "tool_call_update")) && is_text(
                update.text_at("toolCallId"),
                id,
            )
        },
        Slot::Plan => is_text(update.text_at("sessionUpdate"), "plan"),
        Slot::NamedPlan(id) => is_text(update.text_at("sessionUpdate"), "plan_update") && match update.get(
            "plan",
        ) {
            Some(plan) => is_text(plan.text_at("planId"), id),
            None => false,
        },
    }
}

fn find_slot(values: &Vec<Json>, slot: &Slot) -> (at: usize)
    ensures
        at == slot_position(items_model(values@), slot.model()),
        at <= values@.len(),
        at < values@.len() ==> occupies(slot.model(), items_model(values@)[at as int]),
{
    let ghost models = items_model(values@);
    let ghost wanted = |value: JsonModel| occupies(slot.model(), value);
    let mut i: usize = 0;
    while i < values.len()
        invariant
            i <= values@.len(),
            models == items_model(values@),
            wanted == (|value: JsonModel| occupies(slot.model(), value)),
            forall|j: int| 0 <= j < i ==> !wanted(#[trigger] models[j]),
        decreases values.len() - i,
    {
        assert(models[i as int] == json_model(values@[i as int]));
        if is_occupied(slot, &values[i]) {
            proof {
                lemma_first_position(models, wanted, i as int);
            }
            return i;
        }
        i += 1;
    }
    proof {
        lemma_first_position(models, wanted, i as int);
    }
    i
}

/// The retained update of a tool call with the fields of a newer one put over
/// it. A null field changes nothing, and an update of a started call leaves it
/// a started call.
pub open spec fn merged_tool(
    retained: JsonModel,
    update: JsonModel,
    kind: Seq<char>,
    id: Seq<char>,
) -> JsonModel {
    JsonModel::Object(
        merged_fields(
            retained.as_object()->0,
            update.as_object()->0,
            MergeRule::SkipNull,
        ),
    ).with_field(
        "sessionUpdate"@,
        if kind == "tool_call"@ {
            JsonModel::String("tool_call"@)
        } else {
            retained.get("sessionUpdate"@)->0
        },
    ).with_field("toolCallId"@, JsonModel::String(id))
}

/// The non-empty text that a field must hold.
pub open spec fn fold_text(value: JsonModel, field: Seq<char>) -> Option<Seq<char>> {
    match value.text_at(field) {
        Some(text) => if text.len() > 0 {
            Some(text)
        } else {
            None
        },
        None => None,
    }
}

/// The retained updates of a turn after one more. Adjacent text chunks of one
/// shape are joined; the updates of a tool call gather at its first position;
/// a plan keeps its slot; anything else is added at the end.
pub open spec fn folded_turn(retained: Seq<JsonModel>, update: JsonModel) -> Result<
    Seq<JsonModel>,
    RuntimeStateError,
> {
    match update.text_at("sessionUpdate"@) {
        None => Ok(retained.push(update)),
        Some(kind) => if is_message_kind(kind) {
            folded_chunk(retained, update)
        } else if kind == "tool_call"@ || kind == "tool_call_update"@ {
            match fold_text(update, "toolCallId"@) {
                None => Err(RuntimeStateError::OperationMismatch),
                Some(id) => {
                    let at = slot_position(retained, SlotModel::Tool(id));
                    if at < retained.len() {
                        Ok(retained.update(at, merged_tool(retained[at], update, kind, id)))
                    } else {
                        Ok(retained.push(update))
                    }
                },
            }
        } else if kind == "plan"@ {
            if update.array_at("entries"@) is Some {
                Ok(
                    replaced_slot(
                        retained,
                        |value: JsonModel| occupies(SlotModel::Plan, value),
                        update,
                    ),
                )
            } else {
                Err(RuntimeStateError::OperationMismatch)
            }
        } else if kind == "plan_update"@ {
            match update.get("plan"@) {
                Some(JsonModel::Object(fields)) => {
                    let plan = JsonModel::Object(fields);
                    match fold_text(plan, "planId"@) {
                        Some(id) => if plan.text_at("type"@) == Some("items"@) && plan.array_at(
                            "entries"@,
                        ) is None {
                            Err(RuntimeStateError::OperationMismatch)
                        } else {
                            Ok(
                                replaced_slot(
                                    retained,
                                    |value: JsonModel| occupies(SlotModel::NamedPlan(id), value),
                                    update,
                                ),
                            )
                        },
                        None => Err(RuntimeStateError::OperationMismatch),
                    }
                },
                _ => Err(RuntimeStateError::OperationMismatch),
            }
        } else if kind == "plan_removed"@ {
            match fold_text(update, "planId"@) {
                None => Err(RuntimeStateError::OperationMismatch),
                Some(id) => {
                    let at = slot_position(retained, SlotModel::NamedPlan(id));
                    if at < retained.len() {
                        Ok(retained.remove(at))
                    } else {
                        Ok(retained)
                    }
                },
            }
        } else {
            Ok(retained.push(update))
        },
    }
}

/// The retained updates of a turn after one more message chunk.
pub open spec fn folded_chunk(retained: Seq<JsonModel>, update: JsonModel) -> Result<
    Seq<JsonModel>,
    RuntimeStateError,
> {
    match text_chunk(update) {
        Err(error) => Err(error),
        Ok(None) => Ok(retained.push(update)),
        Ok(Some(chunk)) => if retained.len() == 0 {
            Ok(retained.push(update))
        } else {
            match text_chunk(retained.last()) {
                Err(error) => Err(error),
                Ok(None) => Ok(retained.push(update)),
                Ok(Some(previous)) => if json_equal(previous.shape, chunk.shape) {
                    Ok(
                        retained.update(
                            retained.len() - 1,
                            with_content_text(retained.last(), previous.text + chunk.text),
                        ),
                    )
                } else {
                    Ok(retained.push(update))
                },
            }
        },
    }
}

/// What the outcome of a fold means.
pub open spec fn fold_view(folded: Result<Vec<Json>, RuntimeStateError>) -> Result<
    Seq<JsonModel>,
    RuntimeStateError,
> {
    match folded {
        Ok(values) => Ok(items_model(values@)),
        Err(error) => Err(error),
    }
}

fn push_copy(retained: &Vec<Json>, update: &Json) -> (folded: Vec<Json>)
    ensures
        items_model(folded@) == items_model(retained@).push(update@),
{
    let mut folded = copy_items(retained);
    folded.push(update.clone());
    assert(items_model(folded@) =~= items_model(retained@).push(update@));
    folded
}

fn put_copy(retained: &Vec<Json>, at: usize, value: Json) -> (folded: Vec<Json>)
    requires
        at < retained@.len(),
    ensures
        items_model(folded@) == items_model(retained@).update(at as int, value@),
{
    let mut folded = copy_items(retained);
    assert(items_model(folded@).len() == items_model(retained@).len());
    let ghost before = folded@;
    folded[at] = value;
    proof {
        let target = items_model(retained@).update(at as int, value@);
        assert forall|j: int| 0 <= j < target.len() implies items_model(folded@)[j] == target[j] by {
            assert(items_model(before)[j] == items_model(retained@)[j]);
        }
        assert(items_model(folded@) =~= target);
    }
    folded
}

fn fold_message_chunk(retained: &Vec<Json>, update: &Json) -> (folded: Result<
    Vec<Json>,
    RuntimeStateError,
>)
    ensures
        fold_view(folded) == folded_chunk(items_model(retained@), update@),
{
    let (shape, text) = match text_chunk_shape(update) {
        Ok(Some(chunk)) => chunk,
        Ok(None) => {
            return Ok(push_copy(retained, update));
        },
        Err(error) => {
            return Err(error);
        },
    };
    if retained.len() == 0 {
        return Ok(push_copy(retained, update));
    }
    let last: usize = retained.len() - 1;
    assert(items_model(retained@).last() == json_model(retained@[last as int]));
    match text_chunk_shape(&retained[last]) {
        Ok(Some((previous_shape, previous_text))) => {
            if same_json(&previous_shape, &shape) {
                let merged = put_content_text(retained[last].clone(), join2(previous_text, text));
                Ok(put_copy(retained, last, merged))
            } else {
                Ok(push_copy(retained, update))
            }
        },
        Ok(None) => Ok(push_copy(retained, update)),
        Err(error) => Err(error),
    }
}

fn required_fold_string<'a>(value: &'a Json, field: &str) -> (text: Option<&'a str>)
    ensures
        fold_text(value@, field@) == match text {
            Some(text) => Some(text@),
            None => None,
        },
{
    match value.text_at(field) {
        Some(text) => if text.is_empty() {
            None
        } else {
            Some(text)
        },
        None => None,
    }
}

fn replace_fold_slot(retained: &Vec<Json>, slot: Slot, update: &Json) -> (folded: Vec<Json>)
    ensures
        items_model(folded@) == replaced_slot(
            items_model(retained@),
            |value: JsonModel| occupies(slot.model(), value),
            update@,
        ),
{
    let at = find_slot(retained, &slot);
    if at < retained.len() {
        put_copy(retained, at, update.clone())
    } else {
        push_copy(retained, update)
    }
}

fn replace_tool_fields(target: &Json, update: &Json, kind: &str, id: &str) -> (merged: Json)
    requires
        target@ is Object,
        update@ is Object,
        target@.text_at("sessionUpdate"@) is Some,
    ensures
        merged@ == merged_tool(target@, update@, kind@, id@),
{
    let retained_kind = match target.get("sessionUpdate") {
        Some(kind) => kind.clone(),
        None => Json::Null,
    };
    let mut fields = match target.clone() {
        Json::Object(fields) => fields,
        _ => Vec::new(),
    };
    match update {
        Json::Object(patch) => {
            merge_entries(&mut fields, patch, MergeRule::SkipNull);
        },
        _ => {},
    }
    let mut merged = Json::Object(fields);
    merged.put(
        "sessionUpdate",
        if same_text(kind, "tool_call") {
            Json::text("tool_call")
        } else {
            retained_kind
        },
    );
    merged.put("toolCallId", Json::text(id));
    merged
}

/// Folds one more update into the retained updates of a turn.
pub fn fold_active_turn_update(retained: &Vec<Json>, update: &Json) -> (folded: Result<
    Vec<Json>,
    RuntimeStateError,
>)
    ensures
        fold_view(folded) == folded_turn(items_model(retained@), update@),
{
    let kind = match update.text_at("sessionUpdate") {
        Some(kind) => kind,
        None => {
            return Ok(push_copy(retained, update));
        },
    };
    if same_text(kind, "user_message_chunk") || same_text(kind, "agent_message_chunk") || same_text(
        kind,
        "agent_thought_chunk",
    ) {
        fold_message_chunk(retained, update)
    } else if same_text(kind, "tool_call") || same_text(kind, "tool_call_update") {
        let id = match required_fold_string(update, "toolCallId") {
            Some(id) => id,
            None => {
                return Err(RuntimeStateError::OperationMismatch);
            },
        };
        let at = find_slot(retained, &Slot::Tool(id));
        if at < retained.len() {
            assert(items_model(retained@)[at as int] == json_model(retained@[at as int]));
            let merged = replace_tool_fields(&retained[at], update, kind, id);
            Ok(put_copy(retained, at, merged))
        } else {
            Ok(push_copy(retained, update))
        }
    } else if same_text(kind, "plan") {
        if update.array_at("entries").is_none() {
            return Err(RuntimeStateError::OperationMismatch);
        }
        Ok(replace_fold_slot(retained, Slot::Plan, update))
    } else if same_text(kind, "plan_update") {
        let plan = match update.get("plan") {
            Some(plan) => plan,
            None => {
                return Err(RuntimeStateError::OperationMismatch);
            },
        };
        if plan.as_object().is_none() {
            return Err(RuntimeStateError::OperationMismatch);
        }
        let id = match required_fold_string(plan, "planId") {
            Some(id) => id,
            None => {
                return Err(RuntimeStateError::OperationMismatch);
            },
        };
        if is_text(plan.text_at("type"), "items") && plan.array_at("entries").is_none() {
            return Err(RuntimeStateError::OperationMismatch);
        }
        Ok(replace_fold_slot(retained, Slot::NamedPlan(id), update))
    } else if same_text(kind, "plan_removed") {
        let id = match required_fold_string(update, "planId") {
            Some(id) => id,
            None => {
                return Err(RuntimeStateError::OperationMismatch);
            },
        };
        let at = find_slot(retained, &Slot::NamedPlan(id));
        let mut folded = copy_items(retained);
        assert(items_model(folded@).len() == items_model(retained@).len());
        if at < retained.len() {
            let ghost before = folded@;
            folded.remove(at);
            proof {
                let target = items_model(retained@).remove(at as int);
                assert forall|j: int| 0 <= j < target.len() implies items_model(folded@)[j]
                    == target[j] by {
                    let k = if j < at {
                        j
                    } else {
                        j + 1
                    };
                    assert(items_model(before)[k] == items_model(retained@)[k]);
                }
                assert(items_model(folded@) =~= target);
            }
        }
        Ok(folded)
    } else {
        Ok(push_copy(retained, update))
    }
}

/// The output of a terminal as bytes: the encoded bytes where they can be
/// decoded, and the text otherwise.
pub open spec fn terminal_output(terminal: JsonModel) -> Seq<u8> {
    match terminal.text_at("outputBytes"@) {
        Some(encoded) => match base64_bytes(encoded) {
            Some(bytes) => bytes,
            None => output_text_bytes(terminal),
        },
        None => output_text_bytes(terminal),
    }
}

/// The output text of a terminal as bytes.
pub open spec fn output_text_bytes(terminal: JsonModel) -> Seq<u8> {
    match terminal.text_at("output"@) {
        Some(text) => encode_utf8(text),
        None => Seq::empty(),
    }
}

/// The bytes after a run of UTF-8 continuation bytes at the start.
pub open spec fn without_torn_start(bytes: Seq<u8>) -> Seq<u8>
    decreases bytes.len(),
{
    if bytes.len() > 0 && 0x80 <= bytes[0] < 0xc0 {
        without_torn_start(bytes.drop_first())
    } else {
        bytes
    }
}

/// The output of a terminal before it is cut to size.
pub open spec fn joined_output(previous: Option<JsonModel>, incoming: JsonModel) -> Seq<u8> {
    if incoming.true_at("outputAppend"@) && previous is Some {
        terminal_output(previous->0) + terminal_output(incoming)
    } else {
        terminal_output(incoming)
    }
}

/// The last bytes of an output, as many as a terminal may retain.
pub open spec fn cut_output(output: Seq<u8>, incoming: JsonModel) -> Seq<u8> {
    match incoming.get("retainedBytes"@) {
        Some(value) => match value.as_u64() {
            Some(limit) => if limit <= usize::MAX && output.len() > limit {
                output.skip(output.len() - limit)
            } else {
                output
            },
            None => output,
        },
        None => output,
    }
}

/// The output that a terminal retains after an update: the last bytes, not
/// starting in the middle of a character.
pub open spec fn retained_output(previous: Option<JsonModel>, incoming: JsonModel) -> Seq<u8> {
    without_torn_start(cut_output(joined_output(previous, incoming), incoming))
}

/// The bytes that are shown as text. While a terminal runs, a character that
/// has not arrived in full is held back.
pub open spec fn visible_output(output: Seq<u8>, incoming: JsonModel) -> Seq<u8> {
    if incoming.some_at("exitStatus"@) is None && !incoming.true_at("released"@) {
        match utf8_stop(output) {
            Some((good, true)) => output.take(good as int),
            _ => output,
        }
    } else {
        output
    }
}

/// The picture of a terminal after an update.
pub open spec fn folded_terminal(previous: Option<JsonModel>, incoming: JsonModel) -> JsonModel {
    let output = retained_output(previous, incoming);
    incoming.with_field(
        "output"@,
        JsonModel::String(lossy_text(visible_output(output, incoming))),
    ).with_field("outputBytes"@, JsonModel::String(base64_text(output))).without_field(
        "outputAppend"@,
    ).without_field("retainedBytes"@)
}

fn output_bytes(terminal: &Json) -> (bytes: Vec<u8>)
    ensures
        bytes@ == terminal_output(terminal@),
{
    match terminal.text_at("outputBytes") {
        Some(encoded) => match decode_base64(encoded) {
            Some(bytes) => {
                return bytes;
            },
            None => {},
        },
        None => {},
    }
    match terminal.text_at("output") {
        Some(text) => slice_to_vec(text.as_bytes()),
        None => Vec::new(),
    }
}

fn cut_to_size(output: Vec<u8>, incoming: &Json) -> (cut: Vec<u8>)
    ensures
        cut@ == cut_output(output@, incoming@),
{
    let limit: u64 = match incoming.get("retainedBytes") {
        Some(value) => match value.as_u64() {
            Some(limit) => limit,
            None => {
                return output;
            },
        },
        None => {
            return output;
        },
    };
    if limit <= usize::MAX as u64 && output.len() > limit as usize {
        let mut output = output;
        let ghost all = output@;
        let start: usize = output.len() - limit as usize;
        let cut = output.split_off(start);
        assert(cut@ =~= all.skip(all.len() - limit));
        cut
    } else {
        output
    }
}

fn drop_torn_start(output: Vec<u8>) -> (whole: Vec<u8>)
    ensures
        whole@ == without_torn_start(output@),
{
    let mut i: usize = 0;
    assert(output@.skip(0) =~= output@);
    while i < output.len() && output[i] >= 0x80 && output[i] < 0xc0
        invariant
            i <= output@.len(),
            without_torn_start(output@) == without_torn_start(output@.skip(i as int)),
        decreases output.len() - i,
    {
        assert(output@.skip(i as int).drop_first() =~= output@.skip(i + 1));
        i += 1;
    }
    let mut output = output;
    let ghost all = output@;
    let whole = output.split_off(i);
    assert(whole@ =~= all.skip(i as int));
    whole
}

/// Whether a picture of a terminal is what an update is folded into: the bytes
/// that it holds can be read back from it.
pub open spec fn is_picture(
    previous: Option<JsonModel>,
    incoming: JsonModel,
    picture: JsonModel,
) -> bool {
    &&& picture == folded_terminal(previous, incoming)
    &&& terminal_output(picture) == retained_output(previous, incoming)
}

/// Folds an update of a terminal into its picture. The bytes that the picture
/// holds can be read back from it, its text shows those that are UTF-8 as they
/// are, and no more than three of them are held back.
pub fn fold_terminal_snapshot(previous: Option<&Json>, incoming: &Json) -> (snapshot: Json)
    requires
        incoming@ is Object || incoming@ is Null,
    ensures
        snapshot@ == folded_terminal(shown(previous), incoming@),
        is_picture(shown(previous), incoming@, snapshot@),
        ({
            let output = retained_output(shown(previous), incoming@);
            let visible = visible_output(output, incoming@);
            &&& output.len() - 3 <= visible.len() <= output.len()
            &&& valid_utf8(visible) ==> output_text_bytes(snapshot@) == visible
        }),
{
    let mut output: Vec<u8> = Vec::new();
    if incoming.true_at("outputAppend") {
        match previous {
            Some(previous) => {
                output = output_bytes(previous);
            },
            None => {},
        }
    }
    let mut addition = output_bytes(incoming);
    output.append(&mut addition);
    assert(output@ =~= joined_output(shown(previous), incoming@));
    let output = drop_torn_start(cut_to_size(output, incoming));
    let running = incoming.some_at("exitStatus").is_none() && !incoming.true_at("released");
    let text = if running {
        match check_utf8(output.as_slice()) {
            Some((good, true)) => {
                let visible = vstd::slice::slice_subrange(output.as_slice(), 0, good);
                assert(visible@ =~= output@.take(good as int));
                decode_lossy(visible)
            },
            _ => decode_lossy(output.as_slice()),
        }
    } else {
        decode_lossy(output.as_slice())
    };
    let encoded = encode_base64(output.as_slice());
    proof {
        reveal_strlit("output");
        reveal_strlit("outputBytes");
        reveal_strlit("outputAppend");
        reveal_strlit("retainedBytes");
        assert("output"@.len() == 6);
        assert("outputBytes"@.len() == 11);
        assert("outputAppend"@.len() == 12);
        assert("retainedBytes"@.len() == 13);
    }
    let mut snapshot = incoming.clone();
    snapshot.put("output", Json::String(text));
    snapshot.put("outputBytes", Json::String(encoded));
    snapshot.without("outputAppend").without("retainedBytes")
}

/// Whether an update kind belongs to the conversation and not to the controls.
pub open spec fn is_conversation_kind(kind: Seq<char>) -> bool {
    kind == "user_message_chunk"@ || kind == "agent_message_chunk"@ || kind
        == "agent_thought_chunk"@ || kind == "tool_call"@ || kind == "tool_call_update"@ || kind
        == "plan"@ || kind == "plan_update"@ || kind == "plan_removed"@ || kind
        == "compaction_update"@ || kind == "compaction_summary_chunk"@
}

/// Tells whether a kind of update belongs to the conversation.
pub fn is_conversation_update_kind(kind: &str) -> (conversation: bool)
    ensures
        conversation == is_conversation_kind(kind@),
{
    same_text(kind, "user_message_chunk") || same_text(kind, "agent_message_chunk") || same_text(
        kind,
        "agent_thought_chunk",
    ) || same_text(kind, "tool_call") || same_text(kind, "tool_call_update") || same_text(
        kind,
        "plan",
    ) || same_text(kind, "plan_update") || same_text(kind, "plan_removed") || same_text(
        kind,
        "compaction_update",
    ) || same_text(kind, "compaction_summary_chunk")
}

/// The control update that an entry of a replay holds, if it holds one: the
/// entry itself or the update inside it.
pub open spec fn retained_control(entry: JsonModel) -> Option<JsonModel> {
    let update = match entry.get("update"@) {
        Some(update) => update,
        None => entry,
    };
    match update.text_at("sessionUpdate"@) {
        Some(kind) => if is_conversation_kind(kind) {
            None
        } else {
            Some(update)
        },
        None => None,
    }
}

/// What of an entry of a replay is kept as control state.
pub fn retain_control_update(entry: &Json) -> (update: Option<Json>)
    ensures
        match update {
            Some(update) => retained_control(entry@) == Some(update@),
            None => retained_control(entry@) is None,
        },
{
    let update = match entry.get("update") {
        Some(update) => update,
        None => entry,
    };
    match update.text_at("sessionUpdate") {
        Some(kind) => if is_conversation_update_kind(kind) {
            None
        } else {
            Some(update.clone())
        },
        None => None,
    }
}

/// A control after an update. Session information and usage are patched: what
/// an update leaves out stays, and a usage without a cost keeps the last cost.
/// Any other update replaces the control.
pub open spec fn folded_control(previous: Option<JsonModel>, update: JsonModel) -> JsonModel {
    let kind = update.text_at("sessionUpdate"@);
    if kind != Some("session_info_update"@) && kind != Some("usage_update"@) {
        update
    } else {
        match previous {
            Some(JsonModel::Object(fields)) => JsonModel::Object(
                merged_fields(
                    fields,
                    update.as_object()->0,
                    if kind == Some("usage_update"@) {
                        MergeRule::SkipNullCost
                    } else {
                        MergeRule::TakeAll
                    },
                ),
            ),
            _ => update,
        }
    }
}

/// Folds an update into a control.
pub fn fold_control_update(previous: Option<&Json>, update: Json) -> (folded: Json)
    ensures
        folded@ == folded_control(shown(previous), update@),
{
    let kind = update.text_at("sessionUpdate");
    let usage = is_text(kind, "usage_update");
    if !usage && !is_text(kind, "session_info_update") {
        return update;
    }
    let mut merged = match previous {
        Some(previous) => match previous.clone() {
            Json::Object(fields) => fields,
            _ => {
                return update;
            },
        },
        None => {
            return update;
        },
    };
    match &update {
        Json::Object(fields) => {
            merge_entries(
                &mut merged,
                fields,
                if usage {
                    MergeRule::SkipNullCost
                } else {
                    MergeRule::TakeAll
                },
            );
        },
        _ => {},
    }
    Json::Object(merged)
}

/// The controls after the first entries of a replay.
pub open spec fn controls_upto(entries: Seq<JsonModel>, count: nat) -> Map<Seq<char>, JsonModel>
    decreases count,
{
    if count == 0 {
        Map::empty()
    } else {
        let before = controls_upto(entries, (count - 1) as nat);
        match retained_control(entries[count - 1]) {
            Some(update) => {
                let kind = update.text_at("sessionUpdate"@)->0;
                before.insert(
                    kind,
                    folded_control(
                        if before.contains_key(kind) {
                            Some(before[kind])
                        } else {
                            None
                        },
                        update,
                    ),
                )
            },
            None => before,
        }
    }
}

/// The control state that entries leave behind, later ones folded into earlier
/// ones of the same kind.
pub open spec fn controls_of(entries: Seq<JsonModel>) -> Map<Seq<char>, JsonModel> {
    controls_upto(entries, entries.len())
}

/// The controls that the entries of a replay leave behind.
pub fn extract_control_state(entries: &Vec<Json>) -> (controls: Table<Json>)
    ensures
        controls@ == controls_of(items_model(entries@)),
{
    let ghost models = items_model(entries@);
    let mut controls: Table<Json> = Table::new();
    let mut i: usize = 0;
    while i < entries.len()
        invariant
            i <= entries@.len(),
            models == items_model(entries@),
            controls@ == controls_upto(models, i as nat),
        decreases entries.len() - i,
    {
        assert(models[i as int] == json_model(entries@[i as int]));
        match retain_control_update(&entries[i]) {
            Some(update) => {
                let kind = match update.text_at("sessionUpdate") {
                    Some(kind) => kind.to_string(),
                    None => String::new(),
                };
                let folded = fold_control_update(controls.get(kind.as_str()), update);
                controls.insert(kind.as_str(), folded);
            },
            None => {},
        }
        i += 1;
    }
    controls
}

/// What is kept of the response that opened a session: its identifier, its
/// modes and its config options.
pub open spec fn retained_metadata(session_id: Seq<char>, response: JsonModel) -> JsonModel {
    let start = JsonModel::Object(
        Map::empty().insert("sessionId"@, JsonModel::String(session_id)),
    );
    let modes = match response.some_at("modes"@) {
        Some(value) => start.with_field("modes"@, value),
        None => start,
    };
    match response.some_at("configOptions"@) {
        Some(value) => modes.with_field("configOptions"@, value),
        None => modes,
    }
}

/// What of a response that opens a session is kept as its metadata.
pub fn retain_session_metadata(session_id: &str, response: &Json) -> (retained: Json)
    ensures
        retained@ == retained_metadata(session_id@, response@),
{
    let mut retained = Json::object();
    retained.put("sessionId", Json::text(session_id));
    match response.some_at("modes") {
        Some(value) => {
            retained.put("modes", value.clone());
        },
        None => {},
    }
    match response.some_at("configOptions") {
        Some(value) => {
            retained.put("configOptions", value.clone());
        },
        None => {},
    }
    retained
}

/// Whether a terminal has been released.
pub fn terminal_released(terminal: &Json) -> (released: bool)
    ensures
        released == terminal@.true_at("released"@),
{
    terminal.true_at("released")
}

} // verus!
