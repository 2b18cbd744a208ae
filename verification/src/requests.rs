//! What the HTTP interface asks of the Agent connection: the checks on a
//! request, the command that it becomes, and the answer that its outcome gets.
use crate::api::{
    api_bad_request, api_error, business_error, business_error_response, business_session_view,
    business_view, embedded_view, error_response, header_model, is_api_cwd, is_api_identifier,
    law_tag_comes_back, normalize_embedded_session_view, object_with, observed_owner,
    parse_strong_etag, query_owner, response, session_observation_owner, strong_tag, tag_of,
    valid_api_cwd, valid_api_identifier, write_etag, ApiResponse, BridgeRequestError, HeaderText,
    ResourceOwnerModel, ResponseModel, SessionResourceOwner, SessionViewQuery,
    MAX_CONTEXT_PATH_BYTES, MAX_PROMPT_BLOCKS, MAX_REVISION_BYTES, MAX_SEARCH_UNITS,
};
use crate::codec::{fresh_uuid, is_uuid_text};
use crate::events::inner;
use crate::json::{Json, JsonModel};
use crate::session_update::optional_text;
use crate::text::{join2, js_len, same_text, utf16_len};
use vstd::prelude::*;
use vstd::utf8::*;

verus! {

/// A request to the Agent connection.
pub enum ApiRequest {
    Authenticate { method_id: String },
    Logout,
    StartAuthTerminal { method_id: String, cols: u16, rows: u16 },
    WriteAuthTerminal { request_id: String, data: String },
    ResizeAuthTerminal { request_id: String, cols: u16, rows: u16 },
    CancelAuthTerminal { request_id: String },
    SearchContext { session_id: String, query: String },
    ReadContext { session_id: String, path: String },
    ListSessions { cursor: Option<String>, expected_catalog_revision: Option<String> },
    CreateSession { cwd: Option<String> },
    DeleteSession { session_id: String },
    CancelTurn { session_id: String, operation_id: String },
    ForkSession { session_id: String },
    CloseSession { session_id: String },
    SetMode { session_id: String, mode_id: String },
    SetConfig { session_id: String, config_id: String, value: Json },
    Respond {
        session_id: String,
        interaction_id: String,
        kind: String,
        outcome: Option<Json>,
        response: Option<Json>,
    },
}

/// Why a request is malformed, or nothing where it is well formed.
pub open spec fn request_problem(request: ApiRequest) -> Option<Seq<char>> {
    match request {
        ApiRequest::Authenticate { method_id } => if is_api_identifier(method_id@) {
            None
        } else {
            Some("invalid authentication method ID"@)
        },
        ApiRequest::Logout => None,
        ApiRequest::StartAuthTerminal { method_id, cols, rows } => if is_api_identifier(method_id@)
            && cols != 0 && rows != 0 {
            None
        } else {
            Some("invalid terminal authentication parameters"@)
        },
        ApiRequest::WriteAuthTerminal { request_id, .. } => if is_api_identifier(request_id@) {
            None
        } else {
            Some("invalid terminal request ID"@)
        },
        ApiRequest::ResizeAuthTerminal { request_id, cols, rows } => if is_api_identifier(
            request_id@,
        ) && cols != 0 && rows != 0 {
            None
        } else {
            Some("invalid terminal resize parameters"@)
        },
        ApiRequest::CancelAuthTerminal { request_id } => if is_api_identifier(request_id@) {
            None
        } else {
            Some("invalid terminal request ID"@)
        },
        ApiRequest::SearchContext { session_id, query } => if utf16_len(query@) <= MAX_SEARCH_UNITS
            && is_api_identifier(session_id@) {
            None
        } else {
            Some("invalid context session or query"@)
        },
        ApiRequest::ReadContext { session_id, path } => if is_api_identifier(session_id@)
            && path@.len() > 0 && encode_utf8(path@).len() <= MAX_CONTEXT_PATH_BYTES {
            None
        } else {
            Some("invalid session ID or context path"@)
        },
        ApiRequest::ListSessions { .. } => None,
        ApiRequest::CreateSession { .. } => None,
        ApiRequest::DeleteSession { session_id } => session_problem(session_id@),
        ApiRequest::CancelTurn { session_id, operation_id } => if is_api_identifier(session_id@)
            && is_api_identifier(operation_id@) {
            None
        } else {
            Some("invalid session or operation ID"@)
        },
        ApiRequest::ForkSession { session_id } => session_problem(session_id@),
        ApiRequest::CloseSession { session_id } => session_problem(session_id@),
        ApiRequest::SetMode { session_id, mode_id } => if is_api_identifier(session_id@)
            && is_api_identifier(mode_id@) {
            None
        } else {
            Some("invalid session or mode ID"@)
        },
        ApiRequest::SetConfig { session_id, config_id, value } => if !is_api_identifier(session_id@)
            || !is_api_identifier(config_id@) {
            Some("invalid session or configuration ID"@)
        } else if value@ is String || value@ is Bool {
            None
        } else {
            Some("configuration value must be a string or boolean"@)
        },
        ApiRequest::Respond { session_id, interaction_id, kind, outcome, response } => if
        !is_api_identifier(session_id@) || !is_api_identifier(interaction_id@) {
            Some("invalid session or interaction ID"@)
        } else if kind@ == "permission"@ {
            if outcome is Some {
                None
            } else {
                Some("permission response requires outcome"@)
            }
        } else if kind@ == "elicitation"@ {
            if response is Some {
                None
            } else {
                Some("elicitation response requires response"@)
            }
        } else {
            Some("interaction kind must be permission or elicitation"@)
        },
    }
}

/// Why a session identifier is malformed.
pub open spec fn session_problem(session_id: Seq<char>) -> Option<Seq<char>> {
    if is_api_identifier(session_id) {
        None
    } else {
        Some("invalid session ID"@)
    }
}

fn find_session_problem(session_id: &str) -> (problem: Option<&'static str>)
    ensures
        shown_problem(problem) == session_problem(session_id@),
{
    unless(valid_api_identifier(session_id), "invalid session ID")
}

/// The model of a problem.
pub open spec fn shown_problem(problem: Option<&str>) -> Option<Seq<char>> {
    match problem {
        Some(problem) => Some(problem@),
        None => None,
    }
}

fn unless(good: bool, problem: &'static str) -> (found: Option<&'static str>)
    ensures
        shown_problem(found) == if good {
            None
        } else {
            Some(problem@)
        },
{
    if good {
        None
    } else {
        Some(problem)
    }
}

/// Why a request is malformed.
pub fn find_request_problem(request: &ApiRequest) -> (problem: Option<&'static str>)
    ensures
        shown_problem(problem) == request_problem(*request),
{
    match request {
        ApiRequest::Authenticate { method_id } => unless(
            valid_api_identifier(method_id.as_str()),
            "invalid authentication method ID",
        ),
        ApiRequest::Logout => None,
        ApiRequest::StartAuthTerminal { method_id, cols, rows } => unless(
            valid_api_identifier(method_id.as_str()) && *cols != 0 && *rows != 0,
            "invalid terminal authentication parameters",
        ),
        ApiRequest::WriteAuthTerminal { request_id, .. } => unless(
            valid_api_identifier(request_id.as_str()),
            "invalid terminal request ID",
        ),
        ApiRequest::ResizeAuthTerminal { request_id, cols, rows } => unless(
            valid_api_identifier(request_id.as_str()) && *cols != 0 && *rows != 0,
            "invalid terminal resize parameters",
        ),
        ApiRequest::CancelAuthTerminal { request_id } => unless(
            valid_api_identifier(request_id.as_str()),
            "invalid terminal request ID",
        ),
        ApiRequest::SearchContext { session_id, query } => unless(
            js_len(query.as_str()) <= MAX_SEARCH_UNITS && valid_api_identifier(session_id.as_str()),
            "invalid context session or query",
        ),
        ApiRequest::ReadContext { session_id, path } => unless(
            valid_api_identifier(session_id.as_str()) && !path.as_str().is_empty()
                && path.as_str().as_bytes().len() <= MAX_CONTEXT_PATH_BYTES,
            "invalid session ID or context path",
        ),
        ApiRequest::ListSessions { .. } => None,
        ApiRequest::CreateSession { .. } => None,
        ApiRequest::DeleteSession { session_id } => find_session_problem(session_id.as_str()),
        ApiRequest::CancelTurn { session_id, operation_id } => unless(
            valid_api_identifier(session_id.as_str()) && valid_api_identifier(
                operation_id.as_str(),
            ),
            "invalid session or operation ID",
        ),
        ApiRequest::ForkSession { session_id } => find_session_problem(session_id.as_str()),
        ApiRequest::CloseSession { session_id } => find_session_problem(session_id.as_str()),
        ApiRequest::SetMode { session_id, mode_id } => unless(
            valid_api_identifier(session_id.as_str()) && valid_api_identifier(mode_id.as_str()),
            "invalid session or mode ID",
        ),
        ApiRequest::SetConfig { session_id, config_id, value } => if !valid_api_identifier(
            session_id.as_str(),
        ) || !valid_api_identifier(config_id.as_str()) {
            Some("invalid session or configuration ID")
        } else {
            unless(
                value.is_string() || value.as_bool().is_some(),
                "configuration value must be a string or boolean",
            )
        },
        ApiRequest::Respond { session_id, interaction_id, kind, outcome, response } => if
        !valid_api_identifier(session_id.as_str()) || !valid_api_identifier(
            interaction_id.as_str(),
        ) {
            Some("invalid session or interaction ID")
        } else if same_text(kind.as_str(), "permission") {
            unless(outcome.is_some(), "permission response requires outcome")
        } else if same_text(kind.as_str(), "elicitation") {
            unless(response.is_some(), "elicitation response requires response")
        } else {
            Some("interaction kind must be permission or elicitation")
        },
    }
}

/// How the identifier of a request begins. A request that names its identifier
/// itself, and the cancellation of a turn, have none to begin.
pub open spec fn request_prefix(request: ApiRequest) -> Option<Seq<char>> {
    match request {
        ApiRequest::Authenticate { .. } => Some("api-auth-"@),
        ApiRequest::Logout => Some("api-logout-"@),
        ApiRequest::StartAuthTerminal { .. } => Some("api-terminal-"@),
        ApiRequest::WriteAuthTerminal { .. } => None,
        ApiRequest::ResizeAuthTerminal { .. } => None,
        ApiRequest::CancelAuthTerminal { .. } => None,
        ApiRequest::SearchContext { .. } => Some("api-context-search-"@),
        ApiRequest::ReadContext { .. } => Some("api-context-read-"@),
        ApiRequest::ListSessions { .. } => Some("api-list-"@),
        ApiRequest::CreateSession { .. } => Some("api-new-"@),
        ApiRequest::DeleteSession { .. } => Some("api-delete-"@),
        ApiRequest::CancelTurn { .. } => None,
        ApiRequest::ForkSession { .. } => Some("api-fork-"@),
        ApiRequest::CloseSession { .. } => Some("api-close-"@),
        ApiRequest::SetMode { .. } => Some("api-mode-"@),
        ApiRequest::SetConfig { .. } => Some("api-config-"@),
        ApiRequest::Respond { .. } => Some("api-interaction-"@),
    }
}

/// How the identifier of a request begins.
pub fn choose_prefix(request: &ApiRequest) -> (prefix: Option<&'static str>)
    ensures
        shown_problem(prefix) == request_prefix(*request),
{
    match request {
        ApiRequest::Authenticate { .. } => Some("api-auth-"),
        ApiRequest::Logout => Some("api-logout-"),
        ApiRequest::StartAuthTerminal { .. } => Some("api-terminal-"),
        ApiRequest::WriteAuthTerminal { .. } => None,
        ApiRequest::ResizeAuthTerminal { .. } => None,
        ApiRequest::CancelAuthTerminal { .. } => None,
        ApiRequest::SearchContext { .. } => Some("api-context-search-"),
        ApiRequest::ReadContext { .. } => Some("api-context-read-"),
        ApiRequest::ListSessions { .. } => Some("api-list-"),
        ApiRequest::CreateSession { .. } => Some("api-new-"),
        ApiRequest::DeleteSession { .. } => Some("api-delete-"),
        ApiRequest::CancelTurn { .. } => None,
        ApiRequest::ForkSession { .. } => Some("api-fork-"),
        ApiRequest::CloseSession { .. } => Some("api-close-"),
        ApiRequest::SetMode { .. } => Some("api-mode-"),
        ApiRequest::SetConfig { .. } => Some("api-config-"),
        ApiRequest::Respond { .. } => Some("api-interaction-"),
    }
}

/// The identifier of a request, made of a beginning and an identifier that is
/// unique.
pub open spec fn request_identifier(request: ApiRequest, unique: Seq<char>) -> Seq<char> {
    match request {
        ApiRequest::WriteAuthTerminal { request_id, .. } => request_id@,
        ApiRequest::ResizeAuthTerminal { request_id, .. } => request_id@,
        ApiRequest::CancelAuthTerminal { request_id } => request_id@,
        _ => match request_prefix(request) {
            Some(prefix) => prefix + unique,
            None => unique,
        },
    }
}

/// The identifier of a request.
pub fn make_identifier(request: &ApiRequest, unique: &str) -> (identifier: String)
    ensures
        identifier@ == request_identifier(*request, unique@),
{
    match request {
        ApiRequest::WriteAuthTerminal { request_id, .. } => request_id.clone(),
        ApiRequest::ResizeAuthTerminal { request_id, .. } => request_id.clone(),
        ApiRequest::CancelAuthTerminal { request_id } => request_id.clone(),
        _ => match choose_prefix(request) {
            Some(prefix) => join2(prefix, unique),
            None => unique.to_string(),
        },
    }
}

/// A text as a JSON value.
pub open spec fn text_json(text: Seq<char>) -> JsonModel {
    JsonModel::String(text)
}

/// The command with a kind and an identifier.
pub open spec fn command(kind: Seq<char>, identifier: Seq<char>) -> JsonModel {
    object_with("type"@, kind).with_field("requestId"@, text_json(identifier))
}

/// The command with a kind, an identifier and a session.
pub open spec fn session_command(
    kind: Seq<char>,
    identifier: Seq<char>,
    session_id: Seq<char>,
) -> JsonModel {
    command(kind, identifier).with_field("sessionId"@, text_json(session_id))
}

/// An object with one more text, where there is one.
pub open spec fn with_optional(
    value: JsonModel,
    key: Seq<char>,
    text: Option<Seq<char>>,
) -> JsonModel {
    match text {
        Some(text) => value.with_field(key, text_json(text)),
        None => value,
    }
}

/// The value that a response must have.
pub open spec fn given(value: Option<Json>) -> JsonModel {
    match value {
        Some(value) => value@,
        None => JsonModel::Null,
    }
}

/// The command that a well formed request becomes.
pub open spec fn request_command(request: ApiRequest, identifier: Seq<char>) -> JsonModel {
    match request {
        ApiRequest::Authenticate { method_id } => command(
            "auth/authenticate"@,
            identifier,
        ).with_field("methodId"@, text_json(method_id@)),
        ApiRequest::Logout => command("auth/logout"@, identifier),
        ApiRequest::StartAuthTerminal { method_id, cols, rows } => command(
            "auth/terminal_start"@,
            identifier,
        ).with_field("methodId"@, text_json(method_id@)).with_field(
            "cols"@,
            JsonModel::Integer(cols as int),
        ).with_field("rows"@, JsonModel::Integer(rows as int)),
        ApiRequest::WriteAuthTerminal { data, .. } => command(
            "auth/terminal_input"@,
            identifier,
        ).with_field("data"@, text_json(data@)),
        ApiRequest::ResizeAuthTerminal { cols, rows, .. } => command(
            "auth/terminal_resize"@,
            identifier,
        ).with_field("cols"@, JsonModel::Integer(cols as int)).with_field(
            "rows"@,
            JsonModel::Integer(rows as int),
        ),
        ApiRequest::CancelAuthTerminal { .. } => command("auth/terminal_cancel"@, identifier),
        ApiRequest::SearchContext { session_id, query } => session_command(
            "context/search"@,
            identifier,
            session_id@,
        ).with_field("query"@, text_json(query@)),
        ApiRequest::ReadContext { session_id, path } => session_command(
            "context/read"@,
            identifier,
            session_id@,
        ).with_field("path"@, text_json(path@)),
        ApiRequest::ListSessions { cursor, expected_catalog_revision } => with_optional(
            with_optional(command("session/list"@, identifier), "cursor"@, optional_text(cursor)),
            "expectedCatalogRevision"@,
            optional_text(expected_catalog_revision),
        ),
        ApiRequest::CreateSession { cwd } => with_optional(
            command("session/new"@, identifier),
            "cwd"@,
            optional_text(cwd),
        ),
        ApiRequest::DeleteSession { session_id } => session_command(
            "session/delete"@,
            identifier,
            session_id@,
        ),
        ApiRequest::CancelTurn { session_id, operation_id } => object_with(
            "type"@,
            "session/cancel"@,
        ).with_field("sessionId"@, text_json(session_id@)).with_field(
            "expectedOperationId"@,
            text_json(operation_id@),
        ),
        ApiRequest::ForkSession { session_id } => session_command(
            "session/fork"@,
            identifier,
            session_id@,
        ),
        ApiRequest::CloseSession { session_id } => session_command(
            "session/close"@,
            identifier,
            session_id@,
        ),
        ApiRequest::SetMode { session_id, mode_id } => session_command(
            "session/set_mode"@,
            identifier,
            session_id@,
        ).with_field("modeId"@, text_json(mode_id@)),
        ApiRequest::SetConfig { session_id, config_id, value } => session_command(
            "session/set_config_option"@,
            identifier,
            session_id@,
        ).with_field("configId"@, text_json(config_id@)).with_field("value"@, value@),
        ApiRequest::Respond { session_id, interaction_id, kind, outcome, response } => if kind@
            == "permission"@ {
            session_command("permission/respond"@, identifier, session_id@).with_field(
                "permissionId"@,
                text_json(interaction_id@),
            ).with_field("outcome"@, given(outcome))
        } else {
            session_command("elicitation/respond"@, identifier, session_id@).with_field(
                "elicitationId"@,
                text_json(interaction_id@),
            ).with_field("response"@, given(response))
        },
    }
}

fn start_command(kind: &str, identifier: &str) -> (value: Json)
    ensures
        value@ == command(kind@, identifier@),
        value@ is Object,
{
    let mut value = Json::object();
    value.put("type", Json::text(kind));
    value.put("requestId", Json::text(identifier));
    value
}

fn start_session_command(kind: &str, identifier: &str, session_id: &str) -> (value: Json)
    ensures
        value@ == session_command(kind@, identifier@, session_id@),
        value@ is Object,
{
    let mut value = start_command(kind, identifier);
    value.put("sessionId", Json::text(session_id));
    value
}

fn put_text(value: Json, key: &str, text: &str) -> (more: Json)
    requires
        value@ is Object,
    ensures
        more@ == value@.with_field(key@, text_json(text@)),
        more@ is Object,
{
    let mut value = value;
    value.put(key, Json::text(text));
    value
}

fn put_optional(value: Json, key: &str, text: &Option<String>) -> (more: Json)
    requires
        value@ is Object,
    ensures
        more@ == with_optional(value@, key@, optional_text(*text)),
        more@ is Object,
{
    match text {
        Some(text) => put_text(value, key, text.as_str()),
        None => value,
    }
}

fn put_size(value: Json, cols: u16, rows: u16) -> (more: Json)
    requires
        value@ is Object,
    ensures
        more@ == value@.with_field("cols"@, JsonModel::Integer(cols as int)).with_field(
            "rows"@,
            JsonModel::Integer(rows as int),
        ),
{
    let mut value = value;
    value.put("cols", Json::Unsigned(cols as u64));
    value.put("rows", Json::Unsigned(rows as u64));
    value
}

fn copy_given(value: &Option<Json>) -> (copy: Json)
    ensures
        copy@ == given(*value),
{
    match value {
        Some(value) => value.clone(),
        None => Json::Null,
    }
}

/// The command that a well formed request becomes.
pub fn write_command(request: &ApiRequest, identifier: &str) -> (value: Json)
    ensures
        value@ == request_command(*request, identifier@),
{
    match request {
        ApiRequest::Authenticate { method_id } => put_text(
            start_command("auth/authenticate", identifier),
            "methodId",
            method_id.as_str(),
        ),
        ApiRequest::Logout => start_command("auth/logout", identifier),
        ApiRequest::StartAuthTerminal { method_id, cols, rows } => put_size(
            put_text(
                start_command("auth/terminal_start", identifier),
                "methodId",
                method_id.as_str(),
            ),
            *cols,
            *rows,
        ),
        ApiRequest::WriteAuthTerminal { data, .. } => put_text(
            start_command("auth/terminal_input", identifier),
            "data",
            data.as_str(),
        ),
        ApiRequest::ResizeAuthTerminal { cols, rows, .. } => put_size(
            start_command("auth/terminal_resize", identifier),
            *cols,
            *rows,
        ),
        ApiRequest::CancelAuthTerminal { .. } => start_command("auth/terminal_cancel", identifier),
        ApiRequest::SearchContext { session_id, query } => put_text(
            start_session_command("context/search", identifier, session_id.as_str()),
            "query",
            query.as_str(),
        ),
        ApiRequest::ReadContext { session_id, path } => put_text(
            start_session_command("context/read", identifier, session_id.as_str()),
            "path",
            path.as_str(),
        ),
        ApiRequest::ListSessions { cursor, expected_catalog_revision } => put_optional(
            put_optional(start_command("session/list", identifier), "cursor", cursor),
            "expectedCatalogRevision",
            expected_catalog_revision,
        ),
        ApiRequest::CreateSession { cwd } => put_optional(
            start_command("session/new", identifier),
            "cwd",
            cwd,
        ),
        ApiRequest::DeleteSession { session_id } => start_session_command(
            "session/delete",
            identifier,
            session_id.as_str(),
        ),
        ApiRequest::CancelTurn { session_id, operation_id } => {
            let mut value = Json::object();
            value.put("type", Json::text("session/cancel"));
            value.put("sessionId", Json::text(session_id.as_str()));
            value.put("expectedOperationId", Json::text(operation_id.as_str()));
            value
        },
        ApiRequest::ForkSession { session_id } => start_session_command(
            "session/fork",
            identifier,
            session_id.as_str(),
        ),
        ApiRequest::CloseSession { session_id } => start_session_command(
            "session/close",
            identifier,
            session_id.as_str(),
        ),
        ApiRequest::SetMode { session_id, mode_id } => put_text(
            start_session_command("session/set_mode", identifier, session_id.as_str()),
            "modeId",
            mode_id.as_str(),
        ),
        ApiRequest::SetConfig { session_id, config_id, value } => {
            let mut asked = put_text(
                start_session_command("session/set_config_option", identifier, session_id.as_str()),
                "configId",
                config_id.as_str(),
            );
            asked.put("value", value.clone());
            asked
        },
        ApiRequest::Respond { session_id, interaction_id, kind, outcome, response } => {
            if same_text(kind.as_str(), "permission") {
                let mut asked = put_text(
                    start_session_command("permission/respond", identifier, session_id.as_str()),
                    "permissionId",
                    interaction_id.as_str(),
                );
                asked.put("outcome", copy_given(outcome));
                asked
            } else {
                let mut asked = put_text(
                    start_session_command("elicitation/respond", identifier, session_id.as_str()),
                    "elicitationId",
                    interaction_id.as_str(),
                );
                asked.put("response", copy_given(response));
                asked
            }
        },
    }
}

/// A request that is ready to be sent: its identifier and its command.
pub struct PlannedRequest {
    pub identifier: String,
    pub command: Json,
}

/// What a request becomes: a command, or the answer to a malformed one.
pub open spec fn planned(
    request: ApiRequest,
    unique: Seq<char>,
    plan: Result<PlannedRequest, ApiResponse>,
) -> bool {
    match request_problem(request) {
        Some(problem) => plan matches Err(answer) && answer@ == error_response(400, problem),
        None => plan matches Ok(ready) && ready.identifier@ == request_identifier(request, unique)
            && ready.command@ == request_command(request, request_identifier(request, unique)),
    }
}

/// What a request becomes, with an identifier that is unique.
pub fn plan_request(request: &ApiRequest, unique: &str) -> (plan: Result<
    PlannedRequest,
    ApiResponse,
>)
    ensures
        planned(*request, unique@, plan),
{
    match find_request_problem(request) {
        Some(problem) => Err(api_bad_request(problem)),
        None => {
            let identifier = make_identifier(request, unique);
            let command = write_command(request, identifier.as_str());
            Ok(PlannedRequest { identifier, command })
        },
    }
}

/// What a request becomes, with an identifier made for it.
pub fn plan_new_request(request: &ApiRequest) -> (plan: Result<PlannedRequest, ApiResponse>)
    ensures
        exists|unique: Seq<char>|
            is_uuid_text(unique) && #[trigger] planned(*request, unique, plan),
{
    let unique = fresh_uuid();
    let plan = plan_request(request, unique.as_str());
    assert(planned(*request, unique@, plan));
    plan
}

/// What comes back from the Agent connection.
pub open spec fn outcome_model(outcome: Result<Json, BridgeRequestError>) -> Result<
    JsonModel,
    ResponseModel,
> {
    match outcome {
        Ok(value) => Ok(value@),
        Err(error) => Err(
            business_error_response(
                error.message@,
                error.code@,
                match error.data {
                    Some(data) => Some(data@),
                    None => None,
                },
            ),
        ),
    }
}

/// The object that gives back the identifier of a request and what came of it.
pub open spec fn identified(identifier: Seq<char>, value: JsonModel) -> JsonModel {
    object_with("requestId"@, identifier).with_field("response"@, value)
}

/// The answer to a request that made a session.
pub open spec fn created(value: JsonModel, problem: Seq<char>) -> ResponseModel {
    match embedded_view(value) {
        Some(value) => response(201, value),
        None => error_response(500, problem),
    }
}

/// The answer to a request that the Agent connection carried out.
pub open spec fn success_response(
    request: ApiRequest,
    identifier: Seq<char>,
    value: JsonModel,
) -> ResponseModel {
    match request {
        ApiRequest::Authenticate { .. } => response(200, identified(identifier, value)),
        ApiRequest::Logout => response(200, identified(identifier, value)),
        ApiRequest::StartAuthTerminal { .. } => response(202, object_with("requestId"@, identifier)),
        ApiRequest::CreateSession { .. } => created(
            value,
            "bridge returned an invalid created session"@,
        ),
        ApiRequest::ForkSession { .. } => created(
            value,
            "bridge returned an invalid forked session"@,
        ),
        ApiRequest::DeleteSession { .. } => ResponseModel { status: 204, body: None },
        _ => response(200, value),
    }
}

fn write_identified(identifier: &str, value: Json) -> (answer: ApiResponse)
    ensures
        answer@ == response(200, identified(identifier@, value@)),
{
    let mut body = Json::object();
    body.put("requestId", Json::text(identifier));
    body.put("response", value);
    ApiResponse { status: 200, body: Some(body) }
}

fn write_created(value: Json, problem: &str) -> (answer: ApiResponse)
    ensures
        answer@ == created(value@, problem@),
{
    match normalize_embedded_session_view(value) {
        Some(value) => ApiResponse { status: 201, body: Some(value) },
        None => api_error(500, problem),
    }
}

/// What is answered to a request of which the outcome is known.
pub fn business_response(outcome: Result<Json, BridgeRequestError>) -> (answer: ApiResponse)
    ensures
        answer@ == match outcome_model(outcome) {
            Ok(value) => response(200, value),
            Err(refusal) => refusal,
        },
{
    match outcome {
        Ok(value) => ApiResponse { status: 200, body: Some(value) },
        Err(error) => business_error(&error),
    }
}

/// What is answered to a request when its outcome is there.
pub fn answer_request(
    request: &ApiRequest,
    identifier: &str,
    outcome: Result<Json, BridgeRequestError>,
) -> (answer: ApiResponse)
    ensures
        answer@ == match outcome_model(outcome) {
            Ok(value) => success_response(*request, identifier@, value),
            Err(refusal) => refusal,
        },
{
    let value = match outcome {
        Ok(value) => value,
        Err(error) => {
            return business_error(&error);
        },
    };
    match request {
        ApiRequest::Authenticate { .. } => write_identified(identifier, value),
        ApiRequest::Logout => write_identified(identifier, value),
        ApiRequest::StartAuthTerminal { .. } => {
            let mut body = Json::object();
            body.put("requestId", Json::text(identifier));
            ApiResponse { status: 202, body: Some(body) }
        },
        ApiRequest::CreateSession { .. } => write_created(
            value,
            "bridge returned an invalid created session",
        ),
        ApiRequest::ForkSession { .. } => write_created(
            value,
            "bridge returned an invalid forked session",
        ),
        ApiRequest::DeleteSession { .. } => ApiResponse { status: 204, body: None },
        _ => ApiResponse { status: 200, body: Some(value) },
    }
}

/// Why the session or the working directory of a request for a view is
/// malformed.
pub open spec fn cwd_problem(cwd: Option<Seq<char>>) -> Option<Seq<char>> {
    match cwd {
        Some(cwd) => if is_api_cwd(cwd) {
            None
        } else {
            Some("invalid session cwd"@)
        },
        None => None,
    }
}

fn find_cwd_problem(cwd: &Option<String>) -> (problem: Option<&'static str>)
    ensures
        shown_problem(problem) == cwd_problem(optional_text(*cwd)),
{
    match cwd {
        Some(cwd) => unless(valid_api_cwd(cwd.as_str()), "invalid session cwd"),
        None => None,
    }
}

/// The model of a checked owner.
pub open spec fn checked_owner(
    owner: Result<Option<SessionResourceOwner>, ApiResponse>,
) -> Result<Option<ResourceOwnerModel>, ResponseModel> {
    match owner {
        Ok(Some(owner)) => Ok(Some(owner@)),
        Ok(None) => Ok(None),
        Err(answer) => Err(answer@),
    }
}

/// A malformed request is answered with the problem.
pub open spec fn or_refused(
    owner: Result<Option<ResourceOwnerModel>, Seq<char>>,
) -> Result<Option<ResourceOwnerModel>, ResponseModel> {
    match owner {
        Ok(owner) => Ok(owner),
        Err(problem) => Err(error_response(400, problem)),
    }
}

/// The owner that a request for a session view asks for, or the answer to a
/// malformed request.
pub open spec fn view_request(
    session_id: Seq<char>,
    cwd: Option<Seq<char>>,
    epoch: Option<Seq<char>>,
    incarnation: Option<u64>,
) -> Result<Option<ResourceOwnerModel>, ResponseModel> {
    match session_problem(session_id) {
        Some(problem) => Err(error_response(400, problem)),
        None => match cwd_problem(cwd) {
            Some(problem) => Err(error_response(400, problem)),
            None => or_refused(query_owner(session_id, epoch, incarnation)),
        },
    }
}

/// The owner that a request for a session view asks for.
pub fn check_view_request(session_id: &str, query: &SessionViewQuery) -> (owner: Result<
    Option<SessionResourceOwner>,
    ApiResponse,
>)
    ensures
        checked_owner(owner) == view_request(
            session_id@,
            optional_text(query.cwd),
            optional_text(query.expected_epoch),
            query.expected_incarnation,
        ),
{
    match find_session_problem(session_id) {
        Some(problem) => {
            return Err(api_bad_request(problem));
        },
        None => {},
    }
    match find_cwd_problem(&query.cwd) {
        Some(problem) => {
            return Err(api_bad_request(problem));
        },
        None => {},
    }
    match query.expected_owner(session_id) {
        Ok(owner) => Ok(owner),
        Err(problem) => Err(api_bad_request(problem)),
    }
}

/// The owner that a request to observe a session asks for, or the answer to a
/// malformed request. A malformed session identifier is answered without a
/// body.
pub open spec fn observe_request(
    session_id: Seq<char>,
    cwd: Option<Seq<char>>,
    epoch: Option<Seq<char>>,
    incarnation: Option<u64>,
    cursor: Option<Option<Seq<char>>>,
) -> Result<Option<ResourceOwnerModel>, ResponseModel> {
    if !is_api_identifier(session_id) {
        Err(ResponseModel { status: 400, body: None })
    } else {
        match cwd_problem(cwd) {
            Some(problem) => Err(error_response(400, problem)),
            None => or_refused(observed_owner(session_id, epoch, incarnation, cursor)),
        }
    }
}

/// The owner that a request to observe a session asks for.
pub fn check_observe_request(
    session_id: &str,
    query: &SessionViewQuery,
    last_event_id: HeaderText,
) -> (owner: Result<Option<SessionResourceOwner>, ApiResponse>)
    ensures
        checked_owner(owner) == observe_request(
            session_id@,
            optional_text(query.cwd),
            optional_text(query.expected_epoch),
            query.expected_incarnation,
            header_model(last_event_id),
        ),
{
    if !valid_api_identifier(session_id) {
        return Err(ApiResponse { status: 400, body: None });
    }
    match find_cwd_problem(&query.cwd) {
        Some(problem) => {
            return Err(api_bad_request(problem));
        },
        None => {},
    }
    match session_observation_owner(session_id, query, last_event_id) {
        Ok(owner) => Ok(owner),
        Err(problem) => Err(api_bad_request(problem)),
    }
}

/// The entity tag of a session view: that of its history.
pub open spec fn view_tag(view: JsonModel) -> Option<Seq<char>> {
    match (business_view(view), inner(view, "session"@, "historyRevision"@)) {
        (Some(_), Some(JsonModel::String(revision))) => Some(tag_of(revision)),
        _ => None,
    }
}

/// The answer to a request for a session view.
pub open spec fn view_response(view: JsonModel) -> ResponseModel {
    match business_view(view) {
        Some(business) => response(200, business),
        None => error_response(500, "bridge returned an invalid session view"@),
    }
}

/// The answer to a request for a session view, with its entity tag.
pub fn answer_session_view(view: &Json) -> (answer: (ApiResponse, Option<String>))
    ensures
        answer.0@ == view_response(view@),
        optional_text(answer.1) == view_tag(view@),
{
    match business_session_view(view) {
        Some(business) => {
            let revision = match view.get("session") {
                Some(session) => session.text_at("historyRevision"),
                None => None,
            };
            let tag = match revision {
                Some(revision) => Some(write_etag(revision)),
                None => None,
            };
            (ApiResponse { status: 200, body: Some(business) }, tag)
        },
        None => (api_error(500, "bridge returned an invalid session view"), None),
    }
}

/// What a request to start a turn must carry: the revision of the history that
/// it continues and the identifier of the client's intent.
#[derive(Debug, PartialEq, Eq)]
pub struct TurnRequest {
    pub history_revision: String,
    pub client_intent_id: String,
}

/// What a request to start a turn carries, or the answer to a malformed one.
pub open spec fn turn_request(
    session_id: Seq<char>,
    if_match: Option<Seq<char>>,
    idempotency_key: Option<Seq<char>>,
    blocks: nat,
) -> Result<(Seq<char>, Seq<char>), ResponseModel> {
    let revision = match if_match {
        Some(tag) => strong_tag(tag),
        None => None,
    };
    match (session_problem(session_id), revision, idempotency_key) {
        (Some(problem), _, _) => Err(error_response(400, problem)),
        (None, None, _) => Err(
            error_response(428, "If-Match with the current history revision is required"@),
        ),
        (None, Some(revision), Some(intent)) if is_api_identifier(intent) => if 1 <= blocks
            <= MAX_PROMPT_BLOCKS {
            Ok((revision, intent))
        } else {
            Err(error_response(400, "prompt must contain between 1 and 64 content blocks"@))
        },
        _ => Err(error_response(400, "a bounded Idempotency-Key is required"@)),
    }
}

/// The text of a header, where it has one.
pub open spec fn header_text(header: HeaderText) -> Option<Seq<char>> {
    match header {
        HeaderText::Text(text) => Some(text@),
        _ => None,
    }
}

/// What a request to start a turn carries.
pub fn check_turn_request(
    session_id: &str,
    if_match: HeaderText,
    idempotency_key: HeaderText,
    prompt: &Vec<Json>,
) -> (turn: Result<TurnRequest, ApiResponse>)
    ensures
        match turn {
            Ok(turn) => turn_request(
                session_id@,
                header_text(if_match),
                header_text(idempotency_key),
                prompt@.len(),
            ) == Ok::<(Seq<char>, Seq<char>), ResponseModel>(
                (turn.history_revision@, turn.client_intent_id@),
            ),
            Err(answer) => turn_request(
                session_id@,
                header_text(if_match),
                header_text(idempotency_key),
                prompt@.len(),
            ) == Err::<(Seq<char>, Seq<char>), ResponseModel>(answer@),
        },
{
    match find_session_problem(session_id) {
        Some(problem) => {
            return Err(api_bad_request(problem));
        },
        None => {},
    }
    let revision = match if_match {
        HeaderText::Text(tag) => parse_strong_etag(tag),
        _ => None,
    };
    let history_revision = match revision {
        Some(revision) => revision,
        None => {
            return Err(
                api_error(428, "If-Match with the current history revision is required"),
            );
        },
    };
    let client_intent_id = match idempotency_key {
        HeaderText::Text(intent) => if valid_api_identifier(intent) {
            intent.to_string()
        } else {
            return Err(api_bad_request("a bounded Idempotency-Key is required"));
        },
        _ => {
            return Err(api_bad_request("a bounded Idempotency-Key is required"));
        },
    };
    if prompt.len() == 0 || prompt.len() > MAX_PROMPT_BLOCKS {
        return Err(api_bad_request("prompt must contain between 1 and 64 content blocks"));
    }
    Ok(TurnRequest { history_revision, client_intent_id })
}

/// What is answered to a request to start a turn when its outcome is there.
pub fn answer_turn(outcome: Result<Json, String>) -> (answer: ApiResponse)
    ensures
        answer@ == match outcome {
            Ok(accepted) => response(202, accepted@),
            Err(message) => error_response(409, message@),
        },
{
    match outcome {
        Ok(accepted) => ApiResponse { status: 202, body: Some(accepted) },
        Err(message) => api_error(409, message.as_str()),
    }
}

/// A view that was handed out tells the tag with which a turn can follow it,
/// as long as its revision is not empty and not too long.
pub proof fn law_view_tag_starts_a_turn(
    view: JsonModel,
    session_id: Seq<char>,
    intent: Seq<char>,
    blocks: nat,
)
    requires
        is_api_identifier(session_id),
        is_api_identifier(intent),
        1 <= blocks <= MAX_PROMPT_BLOCKS,
        view_tag(view) is Some,
        inner(view, "session"@, "historyRevision"@)->0->String_0.len() > 0,
        encode_utf8(inner(view, "session"@, "historyRevision"@)->0->String_0).len()
            <= MAX_REVISION_BYTES,
    ensures
        turn_request(session_id, view_tag(view), Some(intent), blocks) == Ok::<
            (Seq<char>, Seq<char>),
            ResponseModel,
        >((inner(view, "session"@, "historyRevision"@)->0->String_0, intent)),
{
    law_tag_comes_back(inner(view, "session"@, "historyRevision"@)->0->String_0);
}

/// What the Agent connection is called for.
pub enum BridgeCall {
    View,
    Turn,
    Business,
    Observation,
}

/// Why a call gets no answer.
pub enum CallFailure {
    /// There is no connection.
    NotReady,
    /// The connection ended before it took the call.
    NotAccepted,
    /// The connection ended before it answered.
    NotAnswered,
    /// The answer did not come in time.
    TimedOut,
    /// The observer was let go before its place was fixed.
    DeliveryStopped,
    /// The observer was cancelled while it was registered.
    DeliveryEnded,
    /// The observer was cancelled.
    Cancelled,
}

/// What is said of a call that gets no answer.
pub open spec fn failure_text(call: BridgeCall, failure: CallFailure) -> Seq<char> {
    match (failure, call) {
        (CallFailure::NotReady, _) => "bridge is not ready"@,
        (CallFailure::NotAccepted, BridgeCall::View) =>
        "bridge stopped before accepting the query"@,
        (CallFailure::NotAccepted, BridgeCall::Turn) =>
        "bridge stopped before accepting the turn"@,
        (CallFailure::NotAccepted, BridgeCall::Business) =>
        "bridge stopped before accepting the request"@,
        (CallFailure::NotAccepted, BridgeCall::Observation) =>
        "bridge stopped before accepting the observer"@,
        (CallFailure::NotAnswered, BridgeCall::View) =>
        "bridge stopped before answering the query"@,
        (CallFailure::NotAnswered, BridgeCall::Turn) =>
        "bridge stopped before admitting the turn"@,
        (CallFailure::NotAnswered, BridgeCall::Business) =>
        "bridge stopped before answering the request"@,
        (CallFailure::NotAnswered, BridgeCall::Observation) =>
        "bridge stopped before registering the observer"@,
        (CallFailure::TimedOut, BridgeCall::View) => "bridge session query timed out"@,
        (CallFailure::TimedOut, BridgeCall::Turn) => "bridge turn admission timed out"@,
        (CallFailure::TimedOut, BridgeCall::Business) => "bridge request timed out"@,
        (CallFailure::TimedOut, BridgeCall::Observation) => "bridge session observation timed out"@,
        (CallFailure::DeliveryStopped, _) => "observer delivery stopped before its snapshot cut"@,
        (CallFailure::DeliveryEnded, _) => "observer delivery ended during registration"@,
        (CallFailure::Cancelled, _) => "session observation was cancelled"@,
    }
}

/// What is said of a call that gets no answer.
pub fn failure_message(call: &BridgeCall, failure: &CallFailure) -> (message: &'static str)
    ensures
        message@ == failure_text(*call, *failure),
{
    match (failure, call) {
        (CallFailure::NotReady, _) => "bridge is not ready",
        (CallFailure::NotAccepted, BridgeCall::View) => "bridge stopped before accepting the query",
        (CallFailure::NotAccepted, BridgeCall::Turn) => "bridge stopped before accepting the turn",
        (CallFailure::NotAccepted, BridgeCall::Business) =>
        "bridge stopped before accepting the request",
        (CallFailure::NotAccepted, BridgeCall::Observation) =>
        "bridge stopped before accepting the observer",
        (CallFailure::NotAnswered, BridgeCall::View) => "bridge stopped before answering the query",
        (CallFailure::NotAnswered, BridgeCall::Turn) => "bridge stopped before admitting the turn",
        (CallFailure::NotAnswered, BridgeCall::Business) =>
        "bridge stopped before answering the request",
        (CallFailure::NotAnswered, BridgeCall::Observation) =>
        "bridge stopped before registering the observer",
        (CallFailure::TimedOut, BridgeCall::View) => "bridge session query timed out",
        (CallFailure::TimedOut, BridgeCall::Turn) => "bridge turn admission timed out",
        (CallFailure::TimedOut, BridgeCall::Business) => "bridge request timed out",
        (CallFailure::TimedOut, BridgeCall::Observation) => "bridge session observation timed out",
        (CallFailure::DeliveryStopped, _) => "observer delivery stopped before its snapshot cut",
        (CallFailure::DeliveryEnded, _) => "observer delivery ended during registration",
        (CallFailure::Cancelled, _) => "session observation was cancelled",
    }
}

/// What is told of the server itself.
pub fn health() -> (answer: ApiResponse)
    ensures
        answer@ == response(
            200,
            JsonModel::Object(Map::empty()).with_field("ok"@, JsonModel::Bool(true)).with_field(
                "protocol"@,
                text_json("acp/v1"@),
            ).with_field("backend"@, text_json("rust"@)),
        ),
{
    let mut body = Json::object();
    body.put("ok", Json::Bool(true));
    body.put("protocol", Json::text("acp/v1"));
    body.put("backend", Json::text("rust"));
    ApiResponse { status: 200, body: Some(body) }
}

} // verus!
