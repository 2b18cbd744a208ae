//! Session updates: their validation and the entities that they leave behind.
use crate::json::{items_model, json_model, shown, Json, JsonModel};
use crate::semantic::{
    bad_optional_text, content_block_problem, first, first_of, identifier_problem, json_size,
    lemma_first_of_stays, missing_text, optional_string, path_problem, problem_of, required_string,
    seen_before, serialized_bytes, session_controls_problem, texts, the_text,
    validate_absolute_path, validate_content_block, validate_identifier, validate_session_controls,
    was_seen, ValidationResult, MAX_TOOL_LOCATION_LINE,
};
use crate::table::{Duplicate, Table};
use crate::text::{is_text, join2, js_len, same_text, utf16_len};
use vstd::prelude::*;
use vstd::string::*;

verus! {

/// A compaction that is being followed.
#[derive(Debug)]
pub struct TrackedCompaction {
    pub status: String,
    pub summary_bytes: usize,
}

/// What a followed compaction means.
#[verifier::ext_equal]
pub struct CompactionModel {
    pub status: Seq<char>,
    pub summary_bytes: usize,
}

impl View for TrackedCompaction {
    type V = CompactionModel;

    open spec fn view(&self) -> CompactionModel {
        CompactionModel { status: self.status@, summary_bytes: self.summary_bytes }
    }
}

impl Duplicate for TrackedCompaction {
    fn duplicate(&self) -> (copy: Self) {
        TrackedCompaction { status: self.status.clone(), summary_bytes: self.summary_bytes }
    }
}

impl Duplicate for String {
    fn duplicate(&self) -> (copy: Self) {
        self.clone()
    }
}

/// The last status that was reported of a tool call.
#[derive(Debug)]
pub struct ToolStatus {
    pub status: Option<String>,
}

/// An optional text as a value.
pub open spec fn optional_text(text: Option<String>) -> Option<Seq<char>> {
    match text {
        Some(text) => Some(text@),
        None => None,
    }
}

impl View for ToolStatus {
    type V = Option<Seq<char>>;

    open spec fn view(&self) -> Option<Seq<char>> {
        optional_text(self.status)
    }
}

impl Duplicate for ToolStatus {
    fn duplicate(&self) -> (copy: Self) {
        ToolStatus { status: self.status.clone() }
    }
}

/// The entities of a session that its updates speak of, and the account of the
/// updates of the current turn.
#[derive(Debug)]
pub struct SessionUpdateSemanticState {
    pub compactions: Table<TrackedCompaction>,
    pub tool_calls: Table<ToolStatus>,
    pub messages: Table<String>,
    pub plans: Table<String>,
    pub update_count: usize,
    pub update_bytes: usize,
    pub current_mode_id: Option<String>,
    pub invalid_reason: Option<String>,
}

/// What the state of a session's updates means.
#[verifier::ext_equal]
pub struct SemanticModel {
    pub compactions: Map<Seq<char>, CompactionModel>,
    pub tool_calls: Map<Seq<char>, Option<Seq<char>>>,
    pub messages: Map<Seq<char>, Seq<char>>,
    pub plans: Map<Seq<char>, Seq<char>>,
    pub update_count: usize,
    pub update_bytes: usize,
    pub current_mode_id: Option<Seq<char>>,
    pub invalid_reason: Option<Seq<char>>,
}

impl View for SessionUpdateSemanticState {
    type V = SemanticModel;

    open spec fn view(&self) -> SemanticModel {
        SemanticModel {
            compactions: self.compactions@,
            tool_calls: self.tool_calls@,
            messages: self.messages@,
            plans: self.plans@,
            update_count: self.update_count,
            update_bytes: self.update_bytes,
            current_mode_id: optional_text(self.current_mode_id),
            invalid_reason: optional_text(self.invalid_reason),
        }
    }
}

/// The state in which no update has been seen.
pub open spec fn fresh_semantics() -> SemanticModel {
    SemanticModel {
        compactions: Map::empty(),
        tool_calls: Map::empty(),
        messages: Map::empty(),
        plans: Map::empty(),
        update_count: 0,
        update_bytes: 0,
        current_mode_id: None,
        invalid_reason: None,
    }
}

impl Default for SessionUpdateSemanticState {
    fn default() -> (state: Self)
        ensures
            state@ == fresh_semantics(),
    {
        SessionUpdateSemanticState {
            compactions: Table::new(),
            tool_calls: Table::new(),
            messages: Table::new(),
            plans: Table::new(),
            update_count: 0,
            update_bytes: 0,
            current_mode_id: None,
            invalid_reason: None,
        }
    }
}

impl Clone for SessionUpdateSemanticState {
    fn clone(&self) -> (copy: Self)
        ensures
            copy@ == self@,
    {
        SessionUpdateSemanticState {
            compactions: self.compactions.duplicate(),
            tool_calls: self.tool_calls.duplicate(),
            messages: self.messages.duplicate(),
            plans: self.plans.duplicate(),
            update_count: self.update_count,
            update_bytes: self.update_bytes,
            current_mode_id: self.current_mode_id.clone(),
            invalid_reason: self.invalid_reason.clone(),
        }
    }
}

/// The state after its turn has been retired.
pub open spec fn turn_retired(state: SemanticModel) -> SemanticModel {
    SemanticModel { update_count: 0, update_bytes: 0, invalid_reason: None, ..state }
}

impl SessionUpdateSemanticState {
    /// Resets the account of the turn. The entities of the session stay: tool
    /// calls and compactions can go on outside the lifetime of a prompt.
    pub fn retire_turn(&mut self)
        ensures
            final(self)@ == turn_retired(old(self)@),
    {
        self.update_count = 0;
        self.update_bytes = 0;
        self.invalid_reason = None;
    }
}

/// What is wrong with one piece of tool content.
pub open spec fn tool_content_problem(item: JsonModel) -> Option<Seq<char>> {
    match item.text_at("type"@) {
        Some(kind) => if kind == "content"@ {
            match item.get("content"@) {
                Some(block) => content_block_problem(block, "Agent tool content"@),
                None => Some("Agent tool content block is missing"@),
            }
        } else if kind == "diff"@ {
            first(
                missing_text(item, "path"@, "tool diff"@),
                path_problem(the_text(item, "path"@), "Agent tool diff path"@),
            )
        } else if kind == "terminal"@ {
            first(
                missing_text(item, "terminalId"@, "tool terminal"@),
                identifier_problem(
                    the_text(item, "terminalId"@),
                    "Agent terminal reference ID"@,
                ),
            )
        } else {
            Some("unsupported Agent tool content: "@ + kind)
        },
        None => Some("Agent tool content type is missing"@),
    }
}

fn validate_tool_content(item: &Json) -> (result: ValidationResult)
    ensures
        problem_of(result) == tool_content_problem(item@),
{
    match item.text_at("type") {
        Some(kind) => if same_text(kind, "content") {
            match item.get("content") {
                Some(block) => validate_content_block(block, "Agent tool content"),
                None => Err("Agent tool content block is missing".to_string()),
            }
        } else if same_text(kind, "diff") {
            match required_string(item, "path", "tool diff") {
                Ok(path) => validate_absolute_path(path, "Agent tool diff path"),
                Err(message) => Err(message),
            }
        } else if same_text(kind, "terminal") {
            match required_string(item, "terminalId", "tool terminal") {
                Ok(id) => validate_identifier(id, "Agent terminal reference ID"),
                Err(message) => Err(message),
            }
        } else {
            Err(join2("unsupported Agent tool content: ", kind))
        },
        None => Err("Agent tool content type is missing".to_string()),
    }
}

/// What is wrong with a tool location.
pub open spec fn location_problem(location: JsonModel) -> Option<Seq<char>> {
    first(
        missing_text(location, "path"@, "tool location"@),
        first(
            path_problem(the_text(location, "path"@), "Agent tool location path"@),
            if location.some_at("line"@) matches Some(line) && !(line.as_u64() matches Some(number)
                && number <= MAX_TOOL_LOCATION_LINE) {
                Some(
                    "Agent tool location line must be an integer between 0 and 4294967295"@,
                )
            } else {
                None
            },
        ),
    )
}

fn validate_location(location: &Json) -> (result: ValidationResult)
    ensures
        problem_of(result) == location_problem(location@),
{
    match required_string(location, "path", "tool location") {
        Ok(path) => {
            match validate_absolute_path(path, "Agent tool location path") {
                Ok(_) => {},
                Err(message) => {
                    return Err(message);
                },
            }
        },
        Err(message) => {
            return Err(message);
        },
    }
    match location.some_at("line") {
        Some(line) => {
            let good = match line.as_u64() {
                Some(number) => number <= MAX_TOOL_LOCATION_LINE,
                None => false,
            };
            if !good {
                return Err(
                    "Agent tool location line must be an integer between 0 and 4294967295".to_string(),
                );
            }
        },
        None => {},
    }
    Ok(())
}

/// What is wrong with the content of a tool update.
pub open spec fn tool_contents_problem(update: JsonModel) -> Option<Seq<char>> {
    match update.some_at("content"@) {
        Some(JsonModel::Array(items)) => first_of(
            items.len(),
            |i: int| tool_content_problem(items[i]),
        ),
        Some(_) => Some("Agent tool content must be an array"@),
        None => None,
    }
}

fn validate_tool_contents(update: &Json) -> (result: ValidationResult)
    ensures
        problem_of(result) == tool_contents_problem(update@),
{
    let content = match update.some_at("content") {
        Some(content) => content,
        None => {
            return Ok(());
        },
    };
    let items = match content.as_array() {
        Some(items) => items,
        None => {
            return Err("Agent tool content must be an array".to_string());
        },
    };
    let ghost models = items_model(items@);
    let ghost check = |i: int| tool_content_problem(models[i]);
    let mut i: usize = 0;
    while i < items.len()
        invariant
            i <= items@.len(),
            models == items_model(items@),
            update@.some_at("content"@) == Some(JsonModel::Array(models)),
            check == (|i: int| tool_content_problem(models[i])),
            first_of(i as nat, check) is None,
        decreases items.len() - i,
    {
        assert(models[i as int] == json_model(items@[i as int]));
        match validate_tool_content(&items[i]) {
            Ok(_) => {},
            Err(message) => {
                proof {
                    assert(first_of((i + 1) as nat, check) == Some(message@));
                    lemma_first_of_stays((i + 1) as nat, models.len(), check);
                }
                return Err(message);
            },
        }
        i += 1;
    }
    Ok(())
}

/// What is wrong with the locations of a tool update.
pub open spec fn locations_problem(update: JsonModel) -> Option<Seq<char>> {
    match update.some_at("locations"@) {
        Some(JsonModel::Array(items)) => first_of(items.len(), |i: int| location_problem(items[i])),
        Some(_) => Some("Agent tool locations must be an array"@),
        None => None,
    }
}

fn validate_locations(update: &Json) -> (result: ValidationResult)
    ensures
        problem_of(result) == locations_problem(update@),
{
    let locations = match update.some_at("locations") {
        Some(locations) => locations,
        None => {
            return Ok(());
        },
    };
    let items = match locations.as_array() {
        Some(items) => items,
        None => {
            return Err("Agent tool locations must be an array".to_string());
        },
    };
    let ghost models = items_model(items@);
    let ghost check = |i: int| location_problem(models[i]);
    let mut i: usize = 0;
    while i < items.len()
        invariant
            i <= items@.len(),
            models == items_model(items@),
            update@.some_at("locations"@) == Some(JsonModel::Array(models)),
            check == (|i: int| location_problem(models[i])),
            first_of(i as nat, check) is None,
        decreases items.len() - i,
    {
        assert(models[i as int] == json_model(items@[i as int]));
        match validate_location(&items[i]) {
            Ok(_) => {},
            Err(message) => {
                proof {
                    assert(first_of((i + 1) as nat, check) == Some(message@));
                    lemma_first_of_stays((i + 1) as nat, models.len(), check);
                }
                return Err(message);
            },
        }
        i += 1;
    }
    Ok(())
}

/// What is wrong with a tool update.
pub open spec fn tool_update_problem(update: JsonModel) -> Option<Seq<char>> {
    first(
        missing_text(update, "toolCallId"@, "tool update"@),
        first(
            identifier_problem(the_text(update, "toolCallId"@), "Agent tool call ID"@),
            first(
                bad_optional_text(update, "title"@, "tool update"@),
                first(
                    bad_optional_text(update, "name"@, "tool update"@),
                    first(
                        tool_contents_problem(update),
                        first(
                            locations_problem(update),
                            bad_optional_text(update, "status"@, "tool update"@),
                        ),
                    ),
                ),
            ),
        ),
    )
}

/// The state after a good tool update: the call takes the reported status, and
/// keeps its last one where the update reports none.
pub open spec fn tool_tracked(state: SemanticModel, update: JsonModel) -> SemanticModel {
    let id = the_text(update, "toolCallId"@);
    let status = match update.text_at("status"@) {
        Some(status) => Some(status),
        None => if state.tool_calls.contains_key(id) {
            state.tool_calls[id]
        } else {
            None
        },
    };
    SemanticModel { tool_calls: state.tool_calls.insert(id, status), ..state }
}

fn validate_tool_update(state: &mut SessionUpdateSemanticState, update: &Json) -> (result:
    ValidationResult)
    ensures
        problem_of(result) == tool_update_problem(update@),
        final(state)@ == if result is Ok {
            tool_tracked(old(state)@, update@)
        } else {
            old(state)@
        },
{
    let tool_id = match required_string(update, "toolCallId", "tool update") {
        Ok(tool_id) => tool_id,
        Err(message) => {
            return Err(message);
        },
    };
    match validate_identifier(tool_id, "Agent tool call ID") {
        Ok(_) => {},
        Err(message) => {
            return Err(message);
        },
    }
    match optional_string(update, "title", "tool update") {
        Ok(_) => {},
        Err(message) => {
            return Err(message);
        },
    }
    match optional_string(update, "name", "tool update") {
        Ok(_) => {},
        Err(message) => {
            return Err(message);
        },
    }
    match validate_tool_contents(update) {
        Ok(_) => {},
        Err(message) => {
            return Err(message);
        },
    }
    match validate_locations(update) {
        Ok(_) => {},
        Err(message) => {
            return Err(message);
        },
    }
    let status = match optional_string(update, "status", "tool update") {
        Ok(Some(status)) => Some(status.to_string()),
        Ok(None) => match state.tool_calls.get(tool_id) {
            Some(previous) => previous.status.clone(),
            None => None,
        },
        Err(message) => {
            return Err(message);
        },
    };
    state.tool_calls.insert(tool_id, ToolStatus { status });
    Ok(())
}

/// What is wrong with the command at a position.
pub open spec fn command_problem(commands: Seq<JsonModel>, at: int) -> Option<Seq<char>> {
    first(
        missing_text(commands[at], "name"@, "available command"@),
        first(
            identifier_problem(the_text(commands[at], "name"@), "Agent available command name"@),
            if seen_before(commands, at, "name"@, the_text(commands[at], "name"@)) {
                Some(
                    "Agent returned duplicate available command: "@ + the_text(
                        commands[at],
                        "name"@,
                    ),
                )
            } else {
                missing_text(commands[at], "description"@, "available command"@)
            },
        ),
    )
}

/// What is wrong with the commands that an update makes available.
pub open spec fn commands_problem(update: JsonModel) -> Option<Seq<char>> {
    match update.array_at("availableCommands"@) {
        Some(commands) => first_of(commands.len(), |i: int| command_problem(commands, i)),
        None => Some("Agent available commands must be an array"@),
    }
}

fn validate_command(commands: &Vec<Json>, at: usize) -> (result: ValidationResult)
    requires
        at < commands@.len(),
    ensures
        problem_of(result) == command_problem(items_model(commands@), at as int),
{
    assert(items_model(commands@)[at as int] == json_model(commands@[at as int]));
    let command = &commands[at];
    let name = match required_string(command, "name", "available command") {
        Ok(name) => name,
        Err(message) => {
            return Err(message);
        },
    };
    match validate_identifier(name, "Agent available command name") {
        Ok(_) => {},
        Err(message) => {
            return Err(message);
        },
    }
    if was_seen(commands, at, "name", name) {
        return Err(join2("Agent returned duplicate available command: ", name));
    }
    match required_string(command, "description", "available command") {
        Ok(_) => Ok(()),
        Err(message) => Err(message),
    }
}

fn validate_available_commands(update: &Json) -> (result: ValidationResult)
    ensures
        problem_of(result) == commands_problem(update@),
{
    let commands = match update.array_at("availableCommands") {
        Some(commands) => commands,
        None => {
            return Err("Agent available commands must be an array".to_string());
        },
    };
    let ghost models = items_model(commands@);
    let ghost check = |i: int| command_problem(models, i);
    let mut i: usize = 0;
    while i < commands.len()
        invariant
            i <= commands@.len(),
            models == items_model(commands@),
            update@.array_at("availableCommands"@) == Some(models),
            check == (|i: int| command_problem(models, i)),
            first_of(i as nat, check) is None,
        decreases commands.len() - i,
    {
        match validate_command(commands, i) {
            Ok(_) => {},
            Err(message) => {
                proof {
                    assert(first_of((i + 1) as nat, check) == Some(message@));
                    lemma_first_of_stays((i + 1) as nat, models.len(), check);
                }
                return Err(message);
            },
        }
        i += 1;
    }
    Ok(())
}

/// What is wrong with plan entries.
pub open spec fn plan_entries_problem(entries: Option<JsonModel>) -> Option<Seq<char>> {
    match entries {
        Some(JsonModel::Array(_)) => None,
        _ => Some("Agent plan entries must be an array"@),
    }
}

fn validate_plan_entries(entries: Option<&Json>) -> (result: ValidationResult)
    ensures
        problem_of(result) == plan_entries_problem(shown(entries)),
{
    match entries {
        Some(entries) => if entries.is_array() {
            Ok(())
        } else {
            Err("Agent plan entries must be an array".to_string())
        },
        None => Err("Agent plan entries must be an array".to_string()),
    }
}

/// Whether a field holds a number that is zero or greater.
pub open spec fn non_negative_at(value: JsonModel, field: Seq<char>) -> bool {
    value.get(field) matches Some(number) && number.is_non_negative()
}

fn is_non_negative_at(value: &Json, field: &str) -> (good: bool)
    ensures
        good == non_negative_at(value@, field@),
{
    match value.get(field) {
        Some(number) => number.is_non_negative(),
        None => false,
    }
}

/// What is wrong with a usage update.
pub open spec fn usage_problem(update: JsonModel) -> Option<Seq<char>> {
    if !non_negative_at(update, "used"@) || !non_negative_at(update, "size"@) {
        Some("Agent returned invalid context usage values"@)
    } else {
        match update.some_at("cost"@) {
            Some(cost) => if !non_negative_at(cost, "amount"@) {
                Some("Agent returned an invalid cumulative cost"@)
            } else if the_text(cost, "currency"@).len() == 0 || utf16_len(
                the_text(cost, "currency"@),
            ) > 32 {
                Some("Agent returned an invalid cost currency label"@)
            } else {
                None
            },
            None => None,
        }
    }
}

fn validate_usage_update(update: &Json) -> (result: ValidationResult)
    ensures
        problem_of(result) == usage_problem(update@),
{
    if !is_non_negative_at(update, "used") || !is_non_negative_at(update, "size") {
        return Err("Agent returned invalid context usage values".to_string());
    }
    match update.some_at("cost") {
        Some(cost) => {
            if !is_non_negative_at(cost, "amount") {
                return Err("Agent returned an invalid cumulative cost".to_string());
            }
            match cost.text_at("currency") {
                Some(currency) => {
                    if currency.is_empty() || js_len(currency) > 32 {
                        return Err("Agent returned an invalid cost currency label".to_string());
                    }
                },
                None => {
                    return Err("Agent returned an invalid cost currency label".to_string());
                },
            }
        },
        None => {},
    }
    Ok(())
}

/// Whether an optional value is missing, null or a string.
pub open spec fn string_or_null(value: Option<JsonModel>) -> bool {
    value matches Some(held) ==> held is Null || held is String
}

/// What is wrong with the metadata of a session.
pub open spec fn metadata_problem(
    title: Option<JsonModel>,
    updated_at: Option<JsonModel>,
    subject: Seq<char>,
) -> Option<Seq<char>> {
    if !string_or_null(title) {
        Some(subject + " title must be a string or null"@)
    } else if !string_or_null(updated_at) {
        Some(subject + " updatedAt must be a string or null"@)
    } else {
        None
    }
}

/// Validates the title and the time stamp of a session.
pub fn validate_session_metadata(
    title: Option<&Json>,
    updated_at: Option<&Json>,
    subject: &str,
) -> (result: ValidationResult)
    ensures
        problem_of(result) == metadata_problem(shown(title), shown(updated_at), subject@),
{
    match title {
        Some(title) => {
            if !title.is_null() && !title.is_string() {
                return Err(join2(subject, " title must be a string or null"));
            }
        },
        None => {},
    }
    match updated_at {
        Some(updated_at) => {
            if !updated_at.is_null() && !updated_at.is_string() {
                return Err(join2(subject, " updatedAt must be a string or null"));
            }
        },
        None => {},
    }
    Ok(())
}

/// Whether a compaction with a status is over.
pub open spec fn is_terminal_status(status: Seq<char>) -> bool {
    status == "completed"@ || status == "failed"@ || status == "cancelled"@
}

/// Tells whether a status ends a compaction.
pub fn is_terminal_compaction_status(status: &str) -> (terminal: bool)
    ensures
        terminal == is_terminal_status(status@),
{
    same_text(status, "completed") || same_text(status, "failed") || same_text(status, "cancelled")
}

/// What is wrong with the blocks of a compaction summary.
pub open spec fn summary_problem(summary: JsonModel) -> Option<Seq<char>> {
    match summary {
        JsonModel::Array(blocks) => first_of(
            blocks.len(),
            |i: int| content_block_problem(blocks[i], "Agent compaction summary content"@),
        ),
        _ => Some("Agent compaction summary must be an array"@),
    }
}

fn validate_summary(summary: &Json) -> (result: ValidationResult)
    ensures
        problem_of(result) == summary_problem(summary@),
{
    let blocks = match summary.as_array() {
        Some(blocks) => blocks,
        None => {
            return Err("Agent compaction summary must be an array".to_string());
        },
    };
    let ghost models = items_model(blocks@);
    let ghost check = |i: int| content_block_problem(models[i], "Agent compaction summary content"@);
    let mut i: usize = 0;
    while i < blocks.len()
        invariant
            i <= blocks@.len(),
            models == items_model(blocks@),
            summary@ == JsonModel::Array(models),
            check == (|i: int|
                content_block_problem(models[i], "Agent compaction summary content"@)),
            first_of(i as nat, check) is None,
        decreases blocks.len() - i,
    {
        assert(models[i as int] == json_model(blocks@[i as int]));
        match validate_content_block(&blocks[i], "Agent compaction summary content") {
            Ok(_) => {},
            Err(message) => {
                proof {
                    assert(first_of((i + 1) as nat, check) == Some(message@));
                    lemma_first_of_stays((i + 1) as nat, models.len(), check);
                }
                return Err(message);
            },
        }
        i += 1;
    }
    Ok(())
}

/// What is wrong with a compaction update.
pub open spec fn compaction_problem(state: SemanticModel, update: JsonModel) -> Option<Seq<char>> {
    let id = the_text(update, "compactionId"@);
    let status = the_text(update, "status"@);
    first(
        missing_text(update, "compactionId"@, "compaction update"@),
        first(
            identifier_problem(id, "Agent compaction ID"@),
            first(
                missing_text(update, "status"@, "compaction update"@),
                if update.some_at("summary"@) matches Some(JsonModel::Array(blocks)) && blocks.len()
                    > 0 && status != "completed"@ {
                    Some("A non-empty compaction summary is only valid with completed status"@)
                } else if update.some_at("error"@) is Some && status != "failed"@ {
                    Some("A compaction error is only valid with failed status"@)
                } else {
                    first(
                        match update.some_at("summary"@) {
                            Some(summary) => summary_problem(summary),
                            None => None,
                        },
                        if state.compactions.contains_key(id) && is_terminal_status(
                            state.compactions[id].status,
                        ) {
                            Some("Compaction is already terminal: "@ + id)
                        } else {
                            None
                        },
                    )
                },
            ),
        ),
    )
}

/// The state after a good compaction update. A summary sets the size of the
/// summary; without one the size stays.
pub open spec fn compaction_tracked(state: SemanticModel, update: JsonModel) -> SemanticModel {
    let id = the_text(update, "compactionId"@);
    let summary_bytes = match update.some_at("summary"@) {
        Some(summary) => json_size(summary) as usize,
        None => if state.compactions.contains_key(id) {
            state.compactions[id].summary_bytes
        } else {
            0
        },
    };
    SemanticModel {
        compactions: state.compactions.insert(
            id,
            CompactionModel { status: the_text(update, "status"@), summary_bytes },
        ),
        ..state
    }
}

fn validate_compaction_update(state: &mut SessionUpdateSemanticState, update: &Json) -> (result:
    ValidationResult)
    ensures
        problem_of(result) == compaction_problem(old(state)@, update@),
        final(state)@ == if result is Ok {
            compaction_tracked(old(state)@, update@)
        } else {
            old(state)@
        },
{
    let id = match required_string(update, "compactionId", "compaction update") {
        Ok(id) => id,
        Err(message) => {
            return Err(message);
        },
    };
    match validate_identifier(id, "Agent compaction ID") {
        Ok(_) => {},
        Err(message) => {
            return Err(message);
        },
    }
    let status = match required_string(update, "status", "compaction update") {
        Ok(status) => status,
        Err(message) => {
            return Err(message);
        },
    };
    let summary = update.some_at("summary");
    match summary {
        Some(summary) => match summary.as_array() {
            Some(blocks) => {
                if blocks.len() > 0 && !same_text(status, "completed") {
                    return Err(
                        "A non-empty compaction summary is only valid with completed status".to_string(),
                    );
                }
            },
            None => {},
        },
        None => {},
    }
    if update.some_at("error").is_some() && !same_text(status, "failed") {
        return Err("A compaction error is only valid with failed status".to_string());
    }
    let summary_bytes: usize = match summary {
        Some(summary) => {
            let bytes = match serialized_bytes(summary) {
                Ok(bytes) => bytes,
                Err(message) => {
                    return Err(message);
                },
            };
            match validate_summary(summary) {
                Ok(_) => {},
                Err(message) => {
                    return Err(message);
                },
            }
            bytes
        },
        None => match state.compactions.get(id) {
            Some(followed) => followed.summary_bytes,
            None => 0,
        },
    };
    match state.compactions.get(id) {
        Some(followed) => {
            if is_terminal_compaction_status(followed.status.as_str()) {
                return Err(join2("Compaction is already terminal: ", id));
            }
        },
        None => {},
    }
    state.compactions.insert(id, TrackedCompaction { status: status.to_string(), summary_bytes });
    Ok(())
}

/// What is wrong with a chunk of a compaction summary.
pub open spec fn chunk_problem(state: SemanticModel, update: JsonModel) -> Option<Seq<char>> {
    let id = the_text(update, "compactionId"@);
    first(
        missing_text(update, "compactionId"@, "compaction chunk"@),
        first(
            identifier_problem(id, "Agent compaction ID"@),
            match update.get("content"@) {
                None => Some("Agent compaction chunk content is missing"@),
                Some(content) => first(
                    content_block_problem(content, "Agent compaction summary content"@),
                    if state.compactions.contains_key(id) && state.compactions[id].status
                        == "in_progress"@ {
                        None
                    } else {
                        Some(
                            "Compaction summary chunks require an in-progress compaction: "@ + id,
                        )
                    },
                ),
            },
        ),
    )
}

/// A sum that stops at the largest machine integer.
pub open spec fn saturating_sum(a: usize, b: nat) -> usize {
    if a + b <= usize::MAX {
        (a + b) as usize
    } else {
        usize::MAX
    }
}

/// The state after a good chunk: the summary has grown by the chunk.
pub open spec fn chunk_tracked(state: SemanticModel, update: JsonModel) -> SemanticModel {
    let id = the_text(update, "compactionId"@);
    let followed = state.compactions[id];
    let content = update.get("content"@)->0;
    SemanticModel {
        compactions: state.compactions.insert(
            id,
            CompactionModel {
                summary_bytes: saturating_sum(followed.summary_bytes, json_size(content)),
                ..followed
            },
        ),
        ..state
    }
}

fn validate_compaction_chunk(state: &mut SessionUpdateSemanticState, update: &Json) -> (result:
    ValidationResult)
    ensures
        problem_of(result) == chunk_problem(old(state)@, update@),
        final(state)@ == if result is Ok {
            chunk_tracked(old(state)@, update@)
        } else {
            old(state)@
        },
{
    let id = match required_string(update, "compactionId", "compaction chunk") {
        Ok(id) => id,
        Err(message) => {
            return Err(message);
        },
    };
    match validate_identifier(id, "Agent compaction ID") {
        Ok(_) => {},
        Err(message) => {
            return Err(message);
        },
    }
    let content = match update.get("content") {
        Some(content) => content,
        None => {
            return Err("Agent compaction chunk content is missing".to_string());
        },
    };
    match validate_content_block(content, "Agent compaction summary content") {
        Ok(_) => {},
        Err(message) => {
            return Err(message);
        },
    }
    let (status, before) = match state.compactions.get(id) {
        Some(followed) => (followed.status.clone(), followed.summary_bytes),
        None => {
            return Err(
                join2("Compaction summary chunks require an in-progress compaction: ", id),
            );
        },
    };
    if !same_text(status.as_str(), "in_progress") {
        return Err(join2("Compaction summary chunks require an in-progress compaction: ", id));
    }
    let bytes = match serialized_bytes(content) {
        Ok(bytes) => bytes,
        Err(message) => {
            return Err(message);
        },
    };
    let summary_bytes: usize = before.saturating_add(bytes);
    state.compactions.insert(id, TrackedCompaction { status, summary_bytes });
    Ok(())
}

/// Sets the state of a named entity.
fn track_named_state(ids: &mut Table<String>, id: &str, value: &str)
    ensures
        final(ids)@ == old(ids)@.insert(id@, value@),
{
    ids.insert(id, value.to_string());
}

/// Whether an update kind is a chunk of a message.
pub open spec fn is_message_kind(kind: Seq<char>) -> bool {
    kind == "user_message_chunk"@ || kind == "agent_message_chunk"@ || kind
        == "agent_thought_chunk"@
}

/// What is wrong with a chunk of a message.
pub open spec fn message_problem(update: JsonModel) -> Option<Seq<char>> {
    match update.get("content"@) {
        None => Some("Agent message content is missing"@),
        Some(content) => first(
            content_block_problem(content, "Agent message content"@),
            first(
                bad_optional_text(update, "messageId"@, "session update"@),
                match update.text_at("messageId"@) {
                    Some(id) => identifier_problem(id, "Agent message ID"@),
                    None => None,
                },
            ),
        ),
    }
}

/// What is wrong with an update of a plan.
pub open spec fn plan_update_problem(update: JsonModel) -> Option<Seq<char>> {
    match update.get("plan"@) {
        None => Some("Agent plan update is missing plan"@),
        Some(plan) => first(
            missing_text(plan, "planId"@, "plan update"@),
            first(
                identifier_problem(the_text(plan, "planId"@), "Agent plan ID"@),
                if plan.text_at("type"@) == Some("items"@) {
                    plan_entries_problem(plan.get("entries"@))
                } else {
                    None
                },
            ),
        ),
    }
}

/// What is wrong with a session update.
pub open spec fn update_problem(state: SemanticModel, update: JsonModel) -> Option<Seq<char>> {
    match update.text_at("sessionUpdate"@) {
        None => missing_text(update, "sessionUpdate"@, "session update"@),
        Some(kind) => if is_message_kind(kind) {
            message_problem(update)
        } else if kind == "tool_call"@ || kind == "tool_call_update"@ {
            tool_update_problem(update)
        } else if kind == "plan"@ {
            plan_entries_problem(update.get("entries"@))
        } else if kind == "plan_update"@ {
            plan_update_problem(update)
        } else if kind == "plan_removed"@ {
            first(
                missing_text(update, "planId"@, "plan removal"@),
                identifier_problem(the_text(update, "planId"@), "Agent plan ID"@),
            )
        } else if kind == "available_commands_update"@ {
            commands_problem(update)
        } else if kind == "current_mode_update"@ {
            first(
                missing_text(update, "currentModeId"@, "mode update"@),
                identifier_problem(the_text(update, "currentModeId"@), "Agent mode ID"@),
            )
        } else if kind == "config_option_update"@ {
            session_controls_problem(None, update.get("configOptions"@))
        } else if kind == "session_info_update"@ {
            metadata_problem(update.get("title"@), update.get("updatedAt"@), "Agent session"@)
        } else if kind == "usage_update"@ {
            usage_problem(update)
        } else if kind == "compaction_update"@ {
            compaction_problem(state, update)
        } else if kind == "compaction_summary_chunk"@ {
            chunk_problem(state, update)
        } else {
            Some("unsupported ACP session update: "@ + kind)
        },
    }
}

/// The entities after a good session update.
pub open spec fn update_tracked(state: SemanticModel, update: JsonModel) -> SemanticModel {
    match update.text_at("sessionUpdate"@) {
        None => state,
        Some(kind) => if is_message_kind(kind) {
            match update.text_at("messageId"@) {
                Some(id) => SemanticModel { messages: state.messages.insert(id, kind), ..state },
                None => state,
            }
        } else if kind == "tool_call"@ || kind == "tool_call_update"@ {
            tool_tracked(state, update)
        } else if kind == "plan"@ {
            state
        } else if kind == "plan_update"@ {
            SemanticModel {
                plans: state.plans.insert(
                    the_text(update.get("plan"@)->0, "planId"@),
                    "active"@,
                ),
                ..state
            }
        } else if kind == "plan_removed"@ {
            SemanticModel {
                plans: state.plans.insert(the_text(update, "planId"@), "removed"@),
                ..state
            }
        } else if kind == "current_mode_update"@ {
            SemanticModel {
                current_mode_id: Some(the_text(update, "currentModeId"@)),
                ..state
            }
        } else if kind == "compaction_update"@ {
            compaction_tracked(state, update)
        } else if kind == "compaction_summary_chunk"@ {
            chunk_tracked(state, update)
        } else {
            state
        },
    }
}

fn validate_message(state: &mut SessionUpdateSemanticState, update: &Json, kind: &str) -> (result:
    ValidationResult)
    ensures
        problem_of(result) == message_problem(update@),
        final(state)@ == if result is Ok && update@.text_at("messageId"@) is Some {
            (SemanticModel {
                messages: old(state)@.messages.insert(the_text(update@, "messageId"@), kind@),
                ..old(state)@
            })
        } else {
            old(state)@
        },
{
    let content = match update.get("content") {
        Some(content) => content,
        None => {
            return Err("Agent message content is missing".to_string());
        },
    };
    match validate_content_block(content, "Agent message content") {
        Ok(_) => {},
        Err(message) => {
            return Err(message);
        },
    }
    match optional_string(update, "messageId", "session update") {
        Ok(Some(id)) => {
            match validate_identifier(id, "Agent message ID") {
                Ok(_) => {},
                Err(message) => {
                    return Err(message);
                },
            }
            state.messages.insert(id, kind.to_string());
            Ok(())
        },
        Ok(None) => Ok(()),
        Err(message) => Err(message),
    }
}

fn validate_plan_update(state: &mut SessionUpdateSemanticState, update: &Json) -> (result:
    ValidationResult)
    ensures
        problem_of(result) == plan_update_problem(update@),
        final(state)@ == if result is Ok {
            (SemanticModel {
                plans: old(state)@.plans.insert(
                    the_text(update@.get("plan"@)->0, "planId"@),
                    "active"@,
                ),
                ..old(state)@
            })
        } else {
            old(state)@
        },
{
    let plan = match update.get("plan") {
        Some(plan) => plan,
        None => {
            return Err("Agent plan update is missing plan".to_string());
        },
    };
    let plan_id = match required_string(plan, "planId", "plan update") {
        Ok(plan_id) => plan_id,
        Err(message) => {
            return Err(message);
        },
    };
    match validate_identifier(plan_id, "Agent plan ID") {
        Ok(_) => {},
        Err(message) => {
            return Err(message);
        },
    }
    if is_text(plan.text_at("type"), "items") {
        match validate_plan_entries(plan.get("entries")) {
            Ok(_) => {},
            Err(message) => {
                return Err(message);
            },
        }
    }
    track_named_state(&mut state.plans, plan_id, "active");
    Ok(())
}

#[verifier::rlimit(40)]
fn validate_session_update_payload(
    state: &mut SessionUpdateSemanticState,
    update: &Json,
) -> (result: ValidationResult)
    ensures
        problem_of(result) == update_problem(old(state)@, update@),
        final(state)@ == if result is Ok {
            update_tracked(old(state)@, update@)
        } else {
            old(state)@
        },
{
    proof {
        lemma_update_kinds_differ();
    }
    let kind = match required_string(update, "sessionUpdate", "session update") {
        Ok(kind) => kind,
        Err(message) => {
            return Err(message);
        },
    };
    if same_text(kind, "user_message_chunk") || same_text(kind, "agent_message_chunk") || same_text(
        kind,
        "agent_thought_chunk",
    ) {
        validate_message(state, update, kind)
    } else if same_text(kind, "tool_call") || same_text(kind, "tool_call_update") {
        validate_tool_update(state, update)
    } else if same_text(kind, "plan") {
        validate_plan_entries(update.get("entries"))
    } else if same_text(kind, "plan_update") {
        validate_plan_update(state, update)
    } else if same_text(kind, "plan_removed") {
        let plan_id = match required_string(update, "planId", "plan removal") {
            Ok(plan_id) => plan_id,
            Err(message) => {
                return Err(message);
            },
        };
        match validate_identifier(plan_id, "Agent plan ID") {
            Ok(_) => {},
            Err(message) => {
                return Err(message);
            },
        }
        track_named_state(&mut state.plans, plan_id, "removed");
        Ok(())
    } else if same_text(kind, "available_commands_update") {
        validate_available_commands(update)
    } else if same_text(kind, "current_mode_update") {
        let mode_id = match required_string(update, "currentModeId", "mode update") {
            Ok(mode_id) => mode_id,
            Err(message) => {
                return Err(message);
            },
        };
        match validate_identifier(mode_id, "Agent mode ID") {
            Ok(_) => {},
            Err(message) => {
                return Err(message);
            },
        }
        state.current_mode_id = Some(mode_id.to_string());
        Ok(())
    } else if same_text(kind, "config_option_update") {
        validate_session_controls(None, update.get("configOptions"))
    } else if same_text(kind, "session_info_update") {
        validate_session_metadata(update.get("title"), update.get("updatedAt"), "Agent session")
    } else if same_text(kind, "usage_update") {
        validate_usage_update(update)
    } else if same_text(kind, "compaction_update") {
        validate_compaction_update(state, update)
    } else if same_text(kind, "compaction_summary_chunk") {
        validate_compaction_chunk(state, update)
    } else {
        Err(join2("unsupported ACP session update: ", kind))
    }
}

/// The names of the kinds that leave no entity behind differ from those that
/// do.
proof fn lemma_update_kinds_differ()
    ensures
        "available_commands_update"@ != "current_mode_update"@,
        "available_commands_update"@ != "compaction_update"@,
        "available_commands_update"@ != "compaction_summary_chunk"@,
        "config_option_update"@ != "compaction_update"@,
        "config_option_update"@ != "compaction_summary_chunk"@,
        "session_info_update"@ != "compaction_update"@,
        "session_info_update"@ != "compaction_summary_chunk"@,
        "usage_update"@ != "compaction_update"@,
        "usage_update"@ != "compaction_summary_chunk"@,
{
    reveal_strlit("available_commands_update");
    reveal_strlit("current_mode_update");
    reveal_strlit("compaction_update");
    reveal_strlit("compaction_summary_chunk");
    reveal_strlit("config_option_update");
    reveal_strlit("session_info_update");
    reveal_strlit("usage_update");
    assert("available_commands_update"@.len() == 25);
    assert("current_mode_update"@.len() == 19);
    assert("compaction_update"@.len() == 17);
    assert("compaction_summary_chunk"@.len() == 24);
    assert("config_option_update"@.len() == 20);
    assert("session_info_update"@.len() == 19);
    assert("usage_update"@.len() == 12);
}

/// The state after a counted update.
pub open spec fn update_counted(state: SemanticModel, update: JsonModel) -> SemanticModel {
    SemanticModel {
        update_count: saturating_sum(state.update_count, 1),
        update_bytes: saturating_sum(state.update_bytes, json_size(update)),
        ..update_tracked(state, update)
    }
}

/// Validates a live session update and takes it into the state. A refused
/// update leaves the state as it was.
pub fn validate_and_track_session_update(
    state: &mut SessionUpdateSemanticState,
    update: &Json,
) -> (result: ValidationResult)
    ensures
        problem_of(result) == update_problem(old(state)@, update@),
        final(state)@ == if result is Ok {
            update_counted(old(state)@, update@)
        } else {
            old(state)@
        },
{
    let bytes = match serialized_bytes(update) {
        Ok(bytes) => bytes,
        Err(message) => {
            return Err(message);
        },
    };
    let mut next = state.clone();
    match validate_session_update_payload(&mut next, update) {
        Ok(_) => {},
        Err(message) => {
            return Err(message);
        },
    }
    next.update_count = next.update_count.saturating_add(1);
    next.update_bytes = next.update_bytes.saturating_add(bytes);
    *state = next;
    Ok(())
}

/// Validates an update of a replayed history and takes it into the state. The
/// whole replay is one transaction: its caller drops the state on an error.
pub fn validate_history_update(state: &mut SessionUpdateSemanticState, update: &Json) -> (result:
    ValidationResult)
    ensures
        problem_of(result) == update_problem(old(state)@, update@),
        final(state)@ == if result is Ok {
            update_counted(old(state)@, update@)
        } else {
            old(state)@
        },
{
    let bytes = match serialized_bytes(update) {
        Ok(bytes) => bytes,
        Err(message) => {
            return Err(message);
        },
    };
    match validate_session_update_payload(state, update) {
        Ok(_) => {},
        Err(message) => {
            return Err(message);
        },
    }
    state.update_count = state.update_count.saturating_add(1);
    state.update_bytes = state.update_bytes.saturating_add(bytes);
    Ok(())
}

/// What is wrong with the permission option at a position.
pub open spec fn permission_option_problem(options: Seq<JsonModel>, at: int) -> Option<Seq<char>> {
    let id = the_text(options[at], "optionId"@);
    first(
        missing_text(options[at], "optionId"@, "permission option"@),
        if id.len() == 0 {
            Some("Agent returned an invalid permission option ID"@)
        } else if seen_before(options, at, "optionId"@, id) {
            Some("Agent returned duplicate permission option ID: "@ + id)
        } else {
            first(
                missing_text(options[at], "name"@, "permission option"@),
                if the_text(options[at], "name"@).len() == 0 {
                    Some("Agent returned an invalid permission option name: "@ + id)
                } else {
                    None
                },
            )
        },
    )
}

/// What is wrong with a permission request.
pub open spec fn permission_problem(request: JsonModel) -> Option<Seq<char>> {
    match request.get("toolCall"@) {
        None => Some("Agent permission request is missing its tool call"@),
        Some(call) => first(
            tool_update_problem(call),
            match request.array_at("options"@) {
                None => Some("Agent permission options must be an array"@),
                Some(options) => if options.len() == 0 {
                    Some("Agent permission request must contain at least one option"@)
                } else {
                    first_of(options.len(), |i: int| permission_option_problem(options, i))
                },
            },
        ),
    }
}

/// The identifiers of the options of a permission request, in their order.
pub open spec fn option_ids(request: JsonModel) -> Seq<Seq<char>> {
    match request.array_at("options"@) {
        Some(options) => Seq::new(options.len(), |i: int| the_text(options[i], "optionId"@)),
        None => Seq::empty(),
    }
}

fn validate_permission_option(options: &Vec<Json>, at: usize) -> (result: ValidationResult)
    requires
        at < options@.len(),
    ensures
        problem_of(result) == permission_option_problem(items_model(options@), at as int),
{
    assert(items_model(options@)[at as int] == json_model(options@[at as int]));
    let option = &options[at];
    let id = match required_string(option, "optionId", "permission option") {
        Ok(id) => id,
        Err(message) => {
            return Err(message);
        },
    };
    if id.is_empty() {
        return Err("Agent returned an invalid permission option ID".to_string());
    }
    if was_seen(options, at, "optionId", id) {
        return Err(join2("Agent returned duplicate permission option ID: ", id));
    }
    let name = match required_string(option, "name", "permission option") {
        Ok(name) => name,
        Err(message) => {
            return Err(message);
        },
    };
    if name.is_empty() {
        return Err(join2("Agent returned an invalid permission option name: ", id));
    }
    Ok(())
}

/// Validates a permission request and gives the identifiers of its options, no
/// two of them equal. The tool call that it shows is taken into the state as
/// soon as it is good, whatever becomes of the options.
pub fn validate_permission_request(
    state: &mut SessionUpdateSemanticState,
    request: &Json,
) -> (result: ValidationResult<Vec<String>>)
    ensures
        match result {
            Ok(ids) => permission_problem(request@) is None && texts(ids@) == option_ids(request@)
                && texts(ids@).no_duplicates(),
            Err(message) => permission_problem(request@) == Some(message@),
        },
        final(state)@ == if request@.get("toolCall"@) matches Some(call) && tool_update_problem(
            call,
        ) is None {
            tool_tracked(old(state)@, request@.get("toolCall"@)->0)
        } else {
            old(state)@
        },
{
    let call = match request.get("toolCall") {
        Some(call) => call,
        None => {
            return Err("Agent permission request is missing its tool call".to_string());
        },
    };
    match validate_tool_update(state, call) {
        Ok(_) => {},
        Err(message) => {
            return Err(message);
        },
    }
    let options = match request.array_at("options") {
        Some(options) => options,
        None => {
            return Err("Agent permission options must be an array".to_string());
        },
    };
    if options.len() == 0 {
        return Err("Agent permission request must contain at least one option".to_string());
    }
    let ghost followed = state@;
    let ghost models = items_model(options@);
    let ghost check = |i: int| permission_option_problem(models, i);
    let mut ids: Vec<String> = Vec::new();
    let mut i: usize = 0;
    while i < options.len()
        invariant
            i <= options@.len(),
            models == items_model(options@),
            models.len() > 0,
            request@.array_at("options"@) == Some(models),
            request@.get("toolCall"@) == Some(call@),
            tool_update_problem(call@) is None,
            state@ == followed,
            followed == tool_tracked(old(state)@, call@),
            check == (|i: int| permission_option_problem(models, i)),
            first_of(i as nat, check) is None,
            ids@.len() == i,
            forall|j: int| 0 <= j < i ==> (#[trigger] ids@[j])@ == the_text(models[j], "optionId"@),
            forall|j: int|
                0 <= j < i ==> (#[trigger] models[j]).text_at("optionId"@) is Some && !seen_before(
                    models,
                    j,
                    "optionId"@,
                    the_text(models[j], "optionId"@),
                ),
        decreases options.len() - i,
    {
        assert(models[i as int] == json_model(options@[i as int]));
        match validate_permission_option(options, i) {
            Ok(_) => {},
            Err(message) => {
                proof {
                    assert(first_of((i + 1) as nat, check) == Some(message@));
                    lemma_first_of_stays((i + 1) as nat, models.len(), check);
                }
                return Err(message);
            },
        }
        match options[i].text_at("optionId") {
            Some(id) => {
                ids.push(id.to_string());
            },
            None => {
                assert(false);
            },
        }
        i += 1;
    }
    proof {
        let all = texts(ids@);
        assert(all =~= option_ids(request@));
        assert forall|a: int, b: int| 0 <= a < b < all.len() implies all[a] != all[b] by {
            assert(all[a] == ids@[a]@);
            assert(all[b] == ids@[b]@);
            assert(models[a].text_at("optionId"@) is Some);
            assert(models[b].text_at("optionId"@) is Some);
            if all[a] == all[b] {
                assert(seen_before(models, b, "optionId"@, the_text(models[b], "optionId"@)));
            }
        }
    }
    Ok(ids)
}

/// Whether a piece of tool content refers to a terminal.
pub open spec fn is_terminal_reference(item: JsonModel) -> bool {
    item.text_at("type"@) == Some("terminal"@) && item.text_at("terminalId"@) is Some
}

/// The terminals that the first pieces of tool content refer to.
pub open spec fn terminals_of(items: Seq<JsonModel>, count: nat) -> Seq<Seq<char>>
    decreases count,
{
    if count == 0 {
        Seq::empty()
    } else {
        let before = terminals_of(items, (count - 1) as nat);
        if is_terminal_reference(items[count - 1]) {
            before.push(the_text(items[count - 1], "terminalId"@))
        } else {
            before
        }
    }
}

/// The terminals that a tool update refers to, in their order.
pub fn terminal_references(tool_update: &Json) -> (ids: Vec<String>)
    ensures
        texts(ids@) == match tool_update@.array_at("content"@) {
            Some(items) => terminals_of(items, items.len()),
            None => Seq::empty(),
        },
{
    let mut ids: Vec<String> = Vec::new();
    let items = match tool_update.array_at("content") {
        Some(items) => items,
        None => {
            assert(texts(ids@) =~= Seq::<Seq<char>>::empty());
            return ids;
        },
    };
    let ghost models = items_model(items@);
    let mut i: usize = 0;
    assert(texts(ids@) =~= Seq::<Seq<char>>::empty());
    while i < items.len()
        invariant
            i <= items@.len(),
            models == items_model(items@),
            texts(ids@) == terminals_of(models, i as nat),
        decreases items.len() - i,
    {
        assert(models[i as int] == json_model(items@[i as int]));
        if is_text(items[i].text_at("type"), "terminal") {
            match items[i].text_at("terminalId") {
                Some(id) => {
                    let ghost before = texts(ids@);
                    ids.push(id.to_string());
                    assert(texts(ids@) =~= before.push(id@));
                },
                None => {},
            }
        }
        i += 1;
    }
    ids
}

} // verus!
