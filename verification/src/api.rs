//! The HTTP interface: which requests are well formed, what they ask of the
//! Agent connection, and what they are answered.
use crate::events::{copy_or_null, cursor_text, inner, or_null, Position};
use crate::json::{
    items_model, merge_entries, merged_fields, shown, text_of_json, Json, JsonModel, MergeRule,
};
use crate::session_update::optional_text;
use crate::text::{
    characters, decimal_text, has_char, js_len, law_decimal_round_trip, lemma_bytes_bound,
    lemma_bytes_join, lemma_decimal_is_short, lemma_decimal_lacks, lemma_split_last, parse_unsigned,
    same_text, split_at_last, split_last, unsigned_number, utf16_len,
};
use vstd::prelude::*;
use vstd::string::*;
use vstd::utf8::*;

verus! {

/// The longest identifier, in UTF-16 units.
pub const MAX_IDENTIFIER_UNITS: usize = 1_024;

/// The longest working directory, in UTF-16 units.
pub const MAX_CWD_UNITS: usize = 16_384;

/// The longest path of a context file, in bytes.
pub const MAX_CONTEXT_PATH_BYTES: usize = 16_384;

/// The longest search text, in UTF-16 units.
pub const MAX_SEARCH_UNITS: usize = 256;

/// The longest revision of a history, in bytes.
pub const MAX_REVISION_BYTES: usize = 4_096;

/// The longest epoch, in bytes.
pub const MAX_EPOCH_BYTES: usize = 1_024;

/// The longest cursor, in bytes.
pub const MAX_CURSOR_BYTES: usize = 2_048;

/// The largest number of blocks in a prompt.
pub const MAX_PROMPT_BLOCKS: usize = 64;

/// An answer: a status and perhaps a body.
#[derive(Debug)]
pub struct ApiResponse {
    pub status: u16,
    pub body: Option<Json>,
}

#[verifier::ext_equal]
pub struct ResponseModel {
    pub status: u16,
    pub body: Option<JsonModel>,
}

impl View for ApiResponse {
    type V = ResponseModel;

    open spec fn view(&self) -> ResponseModel {
        ResponseModel {
            status: self.status,
            body: match self.body {
                Some(body) => Some(body@),
                None => None,
            },
        }
    }
}

/// The object with one text.
pub open spec fn object_with(key: Seq<char>, text: Seq<char>) -> JsonModel {
    JsonModel::Object(Map::empty()).with_field(key, JsonModel::String(text))
}

/// An answer that tells an error.
pub open spec fn error_response(status: u16, message: Seq<char>) -> ResponseModel {
    ResponseModel { status, body: Some(object_with("error"@, message)) }
}

/// An answer with a body.
pub open spec fn response(status: u16, body: JsonModel) -> ResponseModel {
    ResponseModel { status, body: Some(body) }
}

/// An answer that tells an error.
pub fn api_error(status: u16, message: &str) -> (answer: ApiResponse)
    ensures
        answer@ == error_response(status, message@),
{
    let mut body = Json::object();
    body.put("error", Json::text(message));
    ApiResponse { status, body: Some(body) }
}

/// The answer to a malformed request.
pub fn api_bad_request(message: &str) -> (answer: ApiResponse)
    ensures
        answer@ == error_response(400, message@),
{
    api_error(400, message)
}

/// Whether an identifier is well formed.
pub open spec fn is_api_identifier(value: Seq<char>) -> bool {
    value.len() > 0 && utf16_len(value) <= MAX_IDENTIFIER_UNITS
}

/// Whether an identifier is well formed.
pub fn valid_api_identifier(value: &str) -> (valid: bool)
    ensures
        valid == is_api_identifier(value@),
{
    !value.is_empty() && js_len(value) <= MAX_IDENTIFIER_UNITS
}

/// Whether a working directory is well formed.
pub open spec fn is_api_cwd(cwd: Seq<char>) -> bool {
    cwd.len() > 0 && utf16_len(cwd) <= MAX_CWD_UNITS && !cwd.contains('\0')
}

/// Whether a working directory is well formed.
pub fn valid_api_cwd(cwd: &str) -> (valid: bool)
    ensures
        valid == is_api_cwd(cwd@),
{
    !cwd.is_empty() && js_len(cwd) <= MAX_CWD_UNITS && !has_char(&characters(cwd), '\0')
}

/// The revision that a strong entity tag names: a bounded text between quotes.
pub open spec fn strong_tag(value: Seq<char>) -> Option<Seq<char>> {
    if value.len() >= 2 && value[0] == '"' && value[value.len() - 1] == '"' {
        let revision = value.subrange(1, value.len() - 1);
        if revision.len() > 0 && encode_utf8(revision).len() <= MAX_REVISION_BYTES {
            Some(revision)
        } else {
            None
        }
    } else {
        None
    }
}

/// The revision that a strong entity tag names.
pub fn parse_strong_etag(value: &str) -> (revision: Option<String>)
    ensures
        match revision {
            Some(revision) => strong_tag(value@) == Some(revision@),
            None => strong_tag(value@) is None,
        },
{
    let chars = characters(value);
    let len = chars.len();
    if len < 2 || chars[0] != '"' || chars[len - 1] != '"' {
        return None;
    }
    let revision = value.substring_char(1, len - 1);
    if revision.is_empty() || revision.as_bytes().len() > MAX_REVISION_BYTES {
        return None;
    }
    Some(revision.to_string())
}

/// The strong entity tag of a revision.
pub open spec fn tag_of(revision: Seq<char>) -> Seq<char> {
    seq!['"'] + revision + seq!['"']
}

/// The strong entity tag of a revision.
pub fn write_etag(revision: &str) -> (tag: String)
    ensures
        tag@ == tag_of(revision@),
{
    let mut tag = "\"".to_string();
    tag.append(revision);
    tag.append("\"");
    proof {
        reveal_strlit("\"");
        assert("\""@ =~= seq!['"']);
    }
    tag
}

/// A revision that was handed out as a tag comes back unchanged, as long as it
/// is not empty and not too long.
pub proof fn law_tag_comes_back(revision: Seq<char>)
    requires
        0 < revision.len(),
        encode_utf8(revision).len() <= MAX_REVISION_BYTES,
    ensures
        strong_tag(tag_of(revision)) == Some(revision),
{
    let tag = tag_of(revision);
    assert(tag.subrange(1, tag.len() - 1) =~= revision);
}

/// The one owner of the state of a session: an epoch and an incarnation.
#[derive(Debug, PartialEq, Eq)]
pub struct SessionResourceOwner {
    pub epoch: String,
    pub session_id: String,
    pub incarnation: u64,
}

#[verifier::ext_equal]
pub struct ResourceOwnerModel {
    pub epoch: Seq<char>,
    pub session_id: Seq<char>,
    pub incarnation: u64,
}

impl View for SessionResourceOwner {
    type V = ResourceOwnerModel;

    open spec fn view(&self) -> ResourceOwnerModel {
        ResourceOwnerModel {
            epoch: self.epoch@,
            session_id: self.session_id@,
            incarnation: self.incarnation,
        }
    }
}

/// Whether an epoch is well formed.
pub open spec fn is_epoch(epoch: Seq<char>) -> bool {
    epoch.len() > 0 && encode_utf8(epoch).len() <= MAX_EPOCH_BYTES && !epoch.contains('\0')
}

fn valid_epoch(epoch: &str) -> (valid: bool)
    ensures
        valid == is_epoch(epoch@),
{
    !epoch.is_empty() && epoch.as_bytes().len() <= MAX_EPOCH_BYTES && !has_char(
        &characters(epoch),
        '\0',
    )
}

/// What a request for a session view may ask for besides the session.
#[derive(Debug)]
pub struct SessionViewQuery {
    pub cwd: Option<String>,
    pub expected_epoch: Option<String>,
    pub expected_incarnation: Option<u64>,
}

/// What the owner in a query means: none was asked for, one was, or the query
/// is malformed.
pub open spec fn query_owner(
    session_id: Seq<char>,
    epoch: Option<Seq<char>>,
    incarnation: Option<u64>,
) -> Result<Option<ResourceOwnerModel>, Seq<char>> {
    match (epoch, incarnation) {
        (None, None) => Ok(None),
        (Some(epoch), Some(incarnation)) => if is_epoch(epoch) && incarnation != 0 {
            Ok(Some(ResourceOwnerModel { epoch, session_id, incarnation }))
        } else {
            Err("expectedEpoch and expectedIncarnation must identify one session owner"@)
        },
        _ => Err("expectedEpoch and expectedIncarnation must identify one session owner"@),
    }
}

/// The model of an owner that was asked for.
pub open spec fn owner_result(
    owner: Result<Option<SessionResourceOwner>, &str>,
) -> Result<Option<ResourceOwnerModel>, Seq<char>> {
    match owner {
        Ok(Some(owner)) => Ok(Some(owner@)),
        Ok(None) => Ok(None),
        Err(message) => Err(message@),
    }
}

impl SessionViewQuery {
    /// The owner that a query asks for.
    pub fn expected_owner(&self, session_id: &str) -> (owner: Result<
        Option<SessionResourceOwner>,
        &'static str,
    >)
        ensures
            owner_result(owner) == query_owner(
                session_id@,
                optional_text(self.expected_epoch),
                self.expected_incarnation,
            ),
    {
        match (&self.expected_epoch, self.expected_incarnation) {
            (None, None) => Ok(None),
            (Some(epoch), Some(incarnation)) => if valid_epoch(epoch.as_str()) && incarnation != 0 {
                Ok(
                    Some(
                        SessionResourceOwner {
                            epoch: epoch.clone(),
                            session_id: session_id.to_string(),
                            incarnation,
                        },
                    ),
                )
            } else {
                Err("expectedEpoch and expectedIncarnation must identify one session owner")
            },
            _ => Err("expectedEpoch and expectedIncarnation must identify one session owner"),
        }
    }
}

/// The owner that a cursor names: an epoch, an incarnation and a revision,
/// none of them zero, with colons between.
pub open spec fn cursor_owner(session_id: Seq<char>, cursor: Seq<char>) -> Option<
    ResourceOwnerModel,
> {
    if encode_utf8(cursor).len() > MAX_CURSOR_BYTES {
        None
    } else {
        match split_last(cursor, ':') {
            Some((before, revision)) => match split_last(before, ':') {
                Some((epoch, incarnation)) => match (
                    unsigned_number(incarnation),
                    unsigned_number(revision),
                ) {
                    (Some(incarnation), Some(revision)) => if is_epoch(epoch) && incarnation != 0
                        && revision != 0 {
                        Some(ResourceOwnerModel { epoch, session_id, incarnation })
                    } else {
                        None
                    },
                    _ => None,
                },
                None => None,
            },
            None => None,
        }
    }
}

/// The owner that a cursor names.
pub fn read_cursor(session_id: &str, cursor: &str) -> (owner: Option<SessionResourceOwner>)
    ensures
        match owner {
            Some(owner) => cursor_owner(session_id@, cursor@) == Some(owner@),
            None => cursor_owner(session_id@, cursor@) is None,
        },
{
    if cursor.as_bytes().len() > MAX_CURSOR_BYTES {
        return None;
    }
    match split_at_last(cursor, ':') {
        Some((before, revision)) => match split_at_last(before, ':') {
            Some((epoch, incarnation)) => match (
                parse_unsigned(incarnation),
                parse_unsigned(revision),
            ) {
                (Some(incarnation), Some(revision)) => if valid_epoch(epoch) && incarnation != 0
                    && revision != 0 {
                    Some(
                        SessionResourceOwner {
                            epoch: epoch.to_string(),
                            session_id: session_id.to_string(),
                            incarnation,
                        },
                    )
                } else {
                    None
                },
                _ => None,
            },
            None => None,
        },
        None => None,
    }
}

/// A cursor that was handed out names the owner that it was made of, as long
/// as the epoch is well formed.
pub proof fn law_cursor_names_its_owner(session_id: Seq<char>, position: Position)
    requires
        is_epoch(position.epoch),
        position.incarnation != 0,
        position.revision != 0,
    ensures
        cursor_owner(session_id, cursor_text(position)) == Some(
            ResourceOwnerModel {
                epoch: position.epoch,
                session_id,
                incarnation: position.incarnation,
            },
        ),
{
    let incarnation = decimal_text(position.incarnation as nat);
    let revision = decimal_text(position.revision as nat);
    reveal_strlit(":");
    assert(":"@ =~= seq![':']);
    lemma_decimal_lacks(position.incarnation as nat, ':');
    lemma_decimal_lacks(position.revision as nat, ':');
    let before = position.epoch + seq![':'] + incarnation;
    assert(cursor_text(position) =~= before + seq![':'] + revision);
    assert(cursor_text(position) =~= position.epoch + (seq![':'] + incarnation + seq![':']
        + revision));
    lemma_decimal_is_short(position.incarnation);
    lemma_decimal_is_short(position.revision);
    lemma_bytes_join(position.epoch, seq![':'] + incarnation + seq![':'] + revision);
    lemma_bytes_bound(seq![':'] + incarnation + seq![':'] + revision);
    lemma_split_last(before, ':', revision);
    lemma_split_last(position.epoch, ':', incarnation);
    law_decimal_round_trip(position.incarnation);
    law_decimal_round_trip(position.revision);
}

/// A header: it is not there, its value is no text, or it has a text.
pub enum HeaderText<'a> {
    Absent,
    Unreadable,
    Text(&'a str),
}

/// The owner that an observer of a session asks for: the one of the query, or
/// the one of the cursor that it resumes from. A malformed cursor is refused
/// even where the query names an owner.
pub open spec fn observed_owner(
    session_id: Seq<char>,
    epoch: Option<Seq<char>>,
    incarnation: Option<u64>,
    cursor: Option<Option<Seq<char>>>,
) -> Result<Option<ResourceOwnerModel>, Seq<char>> {
    match query_owner(session_id, epoch, incarnation) {
        Err(message) => Err(message),
        Ok(expected) => match cursor {
            None => Ok(expected),
            Some(None) => Err("invalid Last-Event-ID"@),
            Some(Some(cursor)) => match cursor_owner(session_id, cursor) {
                None => Err("invalid Last-Event-ID"@),
                Some(resumed) => Ok(
                    Some(
                        match expected {
                            Some(expected) => expected,
                            None => resumed,
                        },
                    ),
                ),
            },
        },
    }
}

/// The model of a header.
pub open spec fn header_model(header: HeaderText) -> Option<Option<Seq<char>>> {
    match header {
        HeaderText::Absent => None,
        HeaderText::Unreadable => Some(None),
        HeaderText::Text(text) => Some(Some(text@)),
    }
}

/// The owner that an observer of a session asks for.
pub fn session_observation_owner(
    session_id: &str,
    query: &SessionViewQuery,
    last_event_id: HeaderText,
) -> (owner: Result<Option<SessionResourceOwner>, &'static str>)
    ensures
        owner_result(owner) == observed_owner(
            session_id@,
            optional_text(query.expected_epoch),
            query.expected_incarnation,
            header_model(last_event_id),
        ),
{
    let expected = match query.expected_owner(session_id) {
        Ok(expected) => expected,
        Err(message) => {
            return Err(message);
        },
    };
    match last_event_id {
        HeaderText::Absent => Ok(expected),
        HeaderText::Unreadable => Err("invalid Last-Event-ID"),
        HeaderText::Text(cursor) => match read_cursor(session_id, cursor) {
            Some(resumed) => match expected {
                Some(expected) => Ok(Some(expected)),
                None => Ok(Some(resumed)),
            },
            None => Err("invalid Last-Event-ID"),
        },
    }
}

/// Why a session view cannot be given.
#[derive(Debug)]
pub enum SessionViewError {
    ConnectionReplaced { owner: SessionResourceOwner, current_epoch: String },
    Retired(SessionResourceOwner),
    NotFound,
    Unavailable(String),
}

/// Why a session cannot be seen, as models.
pub enum ViewErrorModel {
    ConnectionReplaced { owner: ResourceOwnerModel, current_epoch: Seq<char> },
    Retired(ResourceOwnerModel),
    NotFound,
    Unavailable(Seq<char>),
}

impl View for SessionViewError {
    type V = ViewErrorModel;

    open spec fn view(&self) -> ViewErrorModel {
        match self {
            SessionViewError::ConnectionReplaced { owner, current_epoch } => ViewErrorModel::ConnectionReplaced {
                owner: owner@,
                current_epoch: current_epoch@,
            },
            SessionViewError::Retired(owner) => ViewErrorModel::Retired(owner@),
            SessionViewError::NotFound => ViewErrorModel::NotFound,
            SessionViewError::Unavailable(message) => ViewErrorModel::Unavailable(message@),
        }
    }
}

impl SessionViewError {
    /// The error that says why the session is unavailable.
    pub fn unavailable(message: &str) -> (error: Self)
        ensures
            error@ == ViewErrorModel::Unavailable(message@),
    {
        SessionViewError::Unavailable(message.to_string())
    }
}

/// An error about an owner, with a code.
pub open spec fn owner_error(
    message: Seq<char>,
    code: Seq<char>,
    owner: ResourceOwnerModel,
) -> JsonModel {
    object_with("error"@, message).with_field("code"@, JsonModel::String(code)).with_field(
        "sessionId"@,
        JsonModel::String(owner.session_id),
    ).with_field("bridgeEpoch"@, JsonModel::String(owner.epoch)).with_field(
        "sessionIncarnation"@,
        JsonModel::Integer(owner.incarnation as int),
    )
}

fn write_owner_error(message: &str, code: &str, owner: &SessionResourceOwner) -> (body: Json)
    ensures
        body@ == owner_error(message@, code@, owner@),
        body@ is Object,
{
    let mut body = Json::object();
    body.put("error", Json::text(message));
    body.put("code", Json::text(code));
    body.put("sessionId", Json::text(owner.session_id.as_str()));
    body.put("bridgeEpoch", Json::text(owner.epoch.as_str()));
    body.put("sessionIncarnation", Json::Unsigned(owner.incarnation));
    body
}

/// What is answered where a session view cannot be given.
pub open spec fn view_error_response(error: ViewErrorModel) -> ResponseModel {
    match error {
        ViewErrorModel::ConnectionReplaced { owner, current_epoch } => response(
            409,
            owner_error(
                "the observed Agent connection has been replaced"@,
                "bridge_replaced"@,
                owner,
            ).with_field("currentBridgeEpoch"@, JsonModel::String(current_epoch)),
        ),
        ViewErrorModel::Retired(owner) => response(
            409,
            owner_error(
                "the observed session owner has retired"@,
                "session_retired"@,
                owner,
            ).with_field("reason"@, JsonModel::String("owner_retired"@)),
        ),
        ViewErrorModel::NotFound => response(
            404,
            object_with(
                "error"@,
                "session was not found in the current agent workspace"@,
            ).with_field("code"@, JsonModel::String("session_not_found"@)),
        ),
        ViewErrorModel::Unavailable(message) => error_response(
            if message == "session is not materialized"@ {
                409
            } else {
                503
            },
            message,
        ),
    }
}

/// What is answered where a session view cannot be given.
pub fn session_view_error(error: &SessionViewError) -> (answer: ApiResponse)
    ensures
        answer@ == view_error_response(error@),
{
    match error {
        SessionViewError::ConnectionReplaced { owner, current_epoch } => {
            let mut body = write_owner_error(
                "the observed Agent connection has been replaced",
                "bridge_replaced",
                owner,
            );
            body.put("currentBridgeEpoch", Json::text(current_epoch.as_str()));
            ApiResponse { status: 409, body: Some(body) }
        },
        SessionViewError::Retired(owner) => {
            let mut body = write_owner_error(
                "the observed session owner has retired",
                "session_retired",
                owner,
            );
            body.put("reason", Json::text("owner_retired"));
            ApiResponse { status: 409, body: Some(body) }
        },
        SessionViewError::NotFound => {
            let mut body = Json::object();
            body.put(
                "error",
                Json::text("session was not found in the current agent workspace"),
            );
            body.put("code", Json::text("session_not_found"));
            ApiResponse { status: 404, body: Some(body) }
        },
        SessionViewError::Unavailable(message) => {
            if same_text(message.as_str(), "session is not materialized") {
                api_error(409, message.as_str())
            } else {
                api_error(503, message.as_str())
            }
        },
    }
}

/// Why the Agent connection refused a request.
#[derive(Debug)]
pub struct BridgeRequestError {
    pub message: String,
    pub code: Json,
    pub data: Option<Json>,
}

/// What is answered where the Agent connection refuses a request.
pub open spec fn business_error_response(
    message: Seq<char>,
    code: JsonModel,
    data: Option<JsonModel>,
) -> ResponseModel {
    response(
        409,
        object_with(
            "error"@,
            match data {
                Some(data) => text_of_json(data),
                None => message,
            },
        ).with_field("message"@, JsonModel::String(message)).with_field("code"@, code).with_field(
            "data"@,
            or_null(data),
        ),
    )
}

/// What is answered where the Agent connection refuses a request. The error
/// shows the data of the refusal, where there are some.
pub fn business_error(error: &BridgeRequestError) -> (answer: ApiResponse)
    ensures
        answer@ == business_error_response(
            error.message@,
            error.code@,
            match error.data {
                Some(data) => Some(data@),
                None => None,
            },
        ),
{
    let mut body = Json::object();
    match &error.data {
        Some(data) => {
            body.put("error", Json::String(data.to_text()));
        },
        None => {
            body.put("error", Json::text(error.message.as_str()));
        },
    }
    body.put("message", Json::text(error.message.as_str()));
    body.put("code", error.code.clone());
    match &error.data {
        Some(data) => {
            body.put("data", data.clone());
        },
        None => {
            body.put("data", Json::Null);
        },
    }
    ApiResponse { status: 409, body: Some(body) }
}

/// A value, or another one where it is missing.
pub open spec fn or_else(value: Option<JsonModel>, other: JsonModel) -> JsonModel {
    match value {
        Some(value) => value,
        None => other,
    }
}

fn copy_or_else(value: Option<&Json>, other: Json) -> (copy: Json)
    ensures
        copy@ == or_else(shown(value), other@),
{
    match value {
        Some(value) => value.clone(),
        None => other,
    }
}

/// The empty array.
pub open spec fn no_items() -> JsonModel {
    JsonModel::Array(Seq::empty())
}

/// The empty object.
pub open spec fn no_fields() -> JsonModel {
    JsonModel::Object(Map::empty())
}

fn empty_array() -> (json: Json)
    ensures
        json@ == no_items(),
{
    let json = Json::Array(Vec::new());
    assert(json@ =~= no_items()) by {
        assert(items_model(Seq::<Json>::empty()) =~= Seq::<JsonModel>::empty());
    }
    json
}

/// The fields of an object under a key, or none.
pub open spec fn fields_at(value: JsonModel, key: Seq<char>) -> Map<Seq<char>, JsonModel> {
    match value.get(key) {
        Some(JsonModel::Object(fields)) => fields,
        _ => Map::empty(),
    }
}

/// The terminals of a session view: those that it retains, and over them those
/// that live.
pub open spec fn view_terminals(view: JsonModel, live: JsonModel) -> JsonModel {
    JsonModel::Object(
        merged_fields(
            fields_at(view, "terminals"@),
            fields_at(live, "terminals"@),
            MergeRule::TakeAll,
        ),
    )
}

/// A session view without what only the connection needs.
pub open spec fn business_view(view: JsonModel) -> Option<JsonModel> {
    let session = or_null(view.get("session"@));
    let live = or_null(view.get("live"@));
    match (
        view.get("bridgeEpoch"@),
        session.get("sessionId"@),
        session.get("incarnation"@),
        session.get("viewRevision"@),
        session.get("phase"@),
    ) {
        (Some(epoch), Some(session_id), Some(incarnation), Some(revision), Some(phase)) => Some(
            no_fields().with_field("bridgeEpoch"@, epoch).with_field(
                "sessionId"@,
                session_id,
            ).with_field("sessionIncarnation"@, incarnation).with_field(
                "viewRevision"@,
                revision,
            ).with_field("historyRevision"@, or_null(session.get("historyRevision"@))).with_field(
                "phase"@,
                phase,
            ).with_field("syncError"@, or_null(session.get("syncError"@))).with_field(
                "historyNotice"@,
                or_null(session.get("historyNotice"@)),
            ).with_field(
                "timeline"@,
                or_else(inner(view, "baseline"@, "updates"@), no_items()),
            ).with_field(
                "turnOutcomes"@,
                or_else(session.get("turnOutcomes"@), no_items()),
            ).with_field("activeTurn"@, or_null(session.get("activeTurn"@))).with_field(
                "workspace"@,
                no_fields().with_field("cwd"@, or_null(live.get("cwd"@))).with_field(
                    "session"@,
                    or_null(live.get("session"@)),
                ),
            ).with_field(
                "controls"@,
                or_else(live.get("controlState"@), no_fields()),
            ).with_field(
                "interactions"@,
                no_fields().with_field(
                    "permissions"@,
                    or_else(live.get("permissions"@), no_fields()),
                ).with_field(
                    "elicitations"@,
                    or_else(live.get("elicitations"@), no_fields()),
                ).with_field("urlFlows"@, or_else(live.get("urlFlows"@), no_fields())),
            ).with_field("operation"@, or_null(live.get("operation"@))).with_field(
                "terminals"@,
                view_terminals(view, live),
            ),
        ),
        _ => None,
    }
}

/// The terminals of a session view.
fn join_terminals(view: &Json, live: &Json) -> (terminals: Json)
    ensures
        terminals@ == view_terminals(view@, live@),
{
    let mut entries: Vec<(String, Json)> = match view.get("terminals") {
        Some(retained) => match retained.clone() {
            Json::Object(entries) => entries,
            _ => Vec::new(),
        },
        None => Vec::new(),
    };
    let none: Vec<(String, Json)> = Vec::new();
    let more = match live.get("terminals") {
        Some(Json::Object(more)) => more,
        _ => &none,
    };
    merge_entries(&mut entries, more, MergeRule::TakeAll);
    Json::Object(entries)
}

/// A session view without what only the connection needs.
pub fn business_session_view(view: &Json) -> (business: Option<Json>)
    ensures
        match business {
            Some(business) => business_view(view@) == Some(business@),
            None => business_view(view@) is None,
        },
{
    let null = Json::Null;
    let session = match view.get("session") {
        Some(session) => session,
        None => &null,
    };
    let live = match view.get("live") {
        Some(live) => live,
        None => &null,
    };
    match (
        view.get("bridgeEpoch"),
        session.get("sessionId"),
        session.get("incarnation"),
        session.get("viewRevision"),
        session.get("phase"),
    ) {
        (Some(epoch), Some(session_id), Some(incarnation), Some(revision), Some(phase)) => {
            let terminals = join_terminals(view, live);
            let timeline = match view.get("baseline") {
                Some(baseline) => baseline.get("updates"),
                None => None,
            };
            let mut workspace = Json::object();
            workspace.put("cwd", copy_or_null(live.get("cwd")));
            workspace.put("session", copy_or_null(live.get("session")));
            let mut interactions = Json::object();
            interactions.put(
                "permissions",
                copy_or_else(live.get("permissions"), Json::object()),
            );
            interactions.put(
                "elicitations",
                copy_or_else(live.get("elicitations"), Json::object()),
            );
            interactions.put("urlFlows", copy_or_else(live.get("urlFlows"), Json::object()));
            let mut business = Json::object();
            business.put("bridgeEpoch", epoch.clone());
            business.put("sessionId", session_id.clone());
            business.put("sessionIncarnation", incarnation.clone());
            business.put("viewRevision", revision.clone());
            business.put("historyRevision", copy_or_null(session.get("historyRevision")));
            business.put("phase", phase.clone());
            business.put("syncError", copy_or_null(session.get("syncError")));
            business.put("historyNotice", copy_or_null(session.get("historyNotice")));
            business.put("timeline", copy_or_else(timeline, empty_array()));
            business.put(
                "turnOutcomes",
                copy_or_else(session.get("turnOutcomes"), empty_array()),
            );
            business.put("activeTurn", copy_or_null(session.get("activeTurn")));
            business.put("workspace", workspace);
            business.put("controls", copy_or_else(live.get("controlState"), Json::object()));
            business.put("interactions", interactions);
            business.put("operation", copy_or_null(live.get("operation")));
            business.put("terminals", terminals);
            Some(business)
        },
        _ => None,
    }
}

/// A value whose view is reduced.
pub open spec fn embedded_view(value: JsonModel) -> Option<JsonModel> {
    match value.get("view"@) {
        Some(view) => match business_view(view) {
            Some(business) => Some(value.with_field("view"@, business)),
            None => None,
        },
        None => None,
    }
}

/// A value whose view is reduced.
pub fn normalize_embedded_session_view(value: Json) -> (normal: Option<Json>)
    ensures
        match normal {
            Some(normal) => embedded_view(value@) == Some(normal@),
            None => embedded_view(value@) is None,
        },
{
    let business = match value.get("view") {
        Some(view) => match business_session_view(view) {
            Some(business) => business,
            None => {
                return None;
            },
        },
        None => {
            return None;
        },
    };
    let mut value = value;
    value.put("view", business);
    Some(value)
}

} // verus!
