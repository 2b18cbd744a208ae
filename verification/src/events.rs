//! The events of the Agent connection: what they are, whom they concern, and
//! what is handed on of them.
use crate::json::{json_of_text, reads_back, shown, shown_text, text_of_json, Json, JsonModel};
use crate::text::{decimal, decimal_text, is_text, join5, same_text};
use vstd::prelude::*;

verus! {

/// The kind of an event.
pub open spec fn kind_of(event: JsonModel) -> Option<Seq<char>> {
    event.text_at("type"@)
}

/// Whether an event says that a login in a terminal has succeeded.
pub open spec fn is_auth_success(event: JsonModel) -> bool {
    kind_of(event) == Some("bridge/auth_terminal_exited"@) && event.text_at("status"@) == Some(
        "succeeded"@,
    )
}

/// Whether an event says that a login in a terminal has succeeded.
pub fn is_terminal_auth_success(event: &Json) -> (succeeded: bool)
    ensures
        succeeded == is_auth_success(event@),
{
    is_text(event.text_at("type"), "bridge/auth_terminal_exited") && is_text(
        event.text_at("status"),
        "succeeded",
    )
}

/// Whether the text of an event says that a login in a terminal has succeeded.
pub fn terminal_auth_succeeded(event: &str) -> (succeeded: bool)
    ensures
        succeeded == (json_of_text(event@) matches Some(value) && is_auth_success(value)),
{
    match Json::parse(event) {
        Some(value) => is_terminal_auth_success(&value),
        None => false,
    }
}

/// The session that an event opens.
pub open spec fn opened_session(event: JsonModel) -> Option<Seq<char>> {
    let kind = kind_of(event);
    if kind == Some("acp/session_created"@) || kind == Some("acp/session_forked"@) {
        match event.get("response"@) {
            Some(response) => response.text_at("sessionId"@),
            None => None,
        }
    } else if kind == Some("acp/session_attached"@) {
        event.text_at("sessionId"@)
    } else {
        None
    }
}

/// The session that an event opens.
pub fn find_opened_session(event: &Json) -> (session_id: Option<&str>)
    ensures
        shown_text(session_id) == opened_session(event@),
{
    let kind = event.text_at("type");
    if is_text(kind, "acp/session_created") || is_text(kind, "acp/session_forked") {
        match event.get("response") {
            Some(response) => response.text_at("sessionId"),
            None => None,
        }
    } else if is_text(kind, "acp/session_attached") {
        event.text_at("sessionId")
    } else {
        None
    }
}

/// The session that the text of an event opens.
pub fn opened_runtime_session_id(event: &str) -> (session_id: Option<String>)
    ensures
        match session_id {
            Some(session_id) => json_of_text(event@) matches Some(value) && opened_session(value)
                == Some(session_id@),
            None => json_of_text(event@) matches Some(value) ==> opened_session(value) is None,
        },
{
    match Json::parse(event) {
        Some(value) => match find_opened_session(&value) {
            Some(session_id) => Some(session_id.to_string()),
            None => None,
        },
        None => None,
    }
}

/// The kind of the event that a text holds.
pub open spec fn text_kind(event: Seq<char>) -> Option<Seq<char>> {
    match json_of_text(event) {
        Some(value) => kind_of(value),
        None => None,
    }
}

/// Whether the text of an event is directed to one subscriber.
pub fn is_internal_direct_event(event: &str) -> (direct: bool)
    ensures
        direct == (text_kind(event@) == Some("bridge/internal_direct"@)),
{
    match Json::parse(event) {
        Some(value) => is_text(value.text_at("type"), "bridge/internal_direct"),
        None => false,
    }
}

/// Whether a kind of event carries the runtime state or a change of it.
pub open spec fn is_runtime_kind(kind: Option<Seq<char>>) -> bool {
    kind == Some("bridge/internal_runtime_snapshot"@) || kind == Some(
        "bridge/internal_runtime_delta"@,
    )
}

/// Whether the text of an event carries the runtime state or a change of it.
pub fn is_internal_runtime_event(event: &str) -> (internal: bool)
    ensures
        internal == is_runtime_kind(text_kind(event@)),
{
    match Json::parse(event) {
        Some(value) => {
            let kind = value.text_at("type");
            is_text(kind, "bridge/internal_runtime_snapshot") || is_text(
                kind,
                "bridge/internal_runtime_delta",
            )
        },
        None => false,
    }
}

/// The subscriber that an event is directed to and what is for it.
pub open spec fn directed(event: JsonModel) -> Option<(u64, JsonModel)> {
    if kind_of(event) != Some("bridge/internal_direct"@) {
        None
    } else {
        match (event.get("subscriberId"@), event.get("event"@)) {
            (Some(subscriber), Some(inner)) => match subscriber.as_u64() {
                Some(id) => Some((id, inner)),
                None => None,
            },
            _ => None,
        }
    }
}

/// The subscriber that an event is directed to and what is for it.
pub fn read_directed(event: &Json) -> (found: Option<(u64, &Json)>)
    ensures
        match found {
            Some((id, inner)) => directed(event@) == Some((id, inner@)),
            None => directed(event@) is None,
        },
{
    if !is_text(event.text_at("type"), "bridge/internal_direct") {
        return None;
    }
    match (event.get("subscriberId"), event.get("event")) {
        (Some(subscriber), Some(inner)) => match subscriber.as_u64() {
            Some(id) => Some((id, inner)),
            None => None,
        },
        _ => None,
    }
}

/// The subscriber that the text of an event is directed to, and the text that
/// is for it, which reads back as what was directed to it.
pub fn directed_bridge_event(event: &str) -> (found: Option<(u64, String)>)
    ensures
        match found {
            Some((id, inner)) => json_of_text(event@) matches Some(value) && (directed(
                value,
            ) matches Some((subscriber, model)) && subscriber == id && inner@ == text_of_json(
                model,
            ) && reads_back(inner@, model)),
            None => json_of_text(event@) matches Some(value) ==> directed(value) is None,
        },
{
    match Json::parse(event) {
        Some(value) => match read_directed(&value) {
            Some((id, inner)) => Some((id, inner.to_text())),
            None => None,
        },
        None => None,
    }
}

/// The value under two keys, one inside the other.
pub open spec fn inner(value: JsonModel, outer: Seq<char>, key: Seq<char>) -> Option<JsonModel> {
    match value.get(outer) {
        Some(value) => value.get(key),
        None => None,
    }
}

fn get_inner<'a>(value: &'a Json, outer: &str, key: &str) -> (found: Option<&'a Json>)
    ensures
        shown(found) == inner(value@, outer@, key@),
{
    match value.get(outer) {
        Some(value) => value.get(key),
        None => None,
    }
}

/// A value or null.
pub open spec fn or_null(value: Option<JsonModel>) -> JsonModel {
    match value {
        Some(value) => value,
        None => JsonModel::Null,
    }
}

/// A copy of a value, or null.
pub fn copy_or_null(value: Option<&Json>) -> (copy: Json)
    ensures
        copy@ == or_null(shown(value)),
{
    match value {
        Some(value) => value.clone(),
        None => Json::Null,
    }
}

/// The number under two keys.
pub open spec fn inner_number(value: JsonModel, outer: Seq<char>, key: Seq<char>) -> Option<u64> {
    match inner(value, outer, key) {
        Some(value) => value.as_u64(),
        None => None,
    }
}

fn get_inner_number(value: &Json, outer: &str, key: &str) -> (number: Option<u64>)
    ensures
        number == inner_number(value@, outer@, key@),
{
    match get_inner(value, outer, key) {
        Some(value) => value.as_u64(),
        None => None,
    }
}

/// What tells a reader of a session to start over: where the session stands,
/// without its contents.
pub open spec fn session_reset(session_id: Seq<char>, view: JsonModel) -> Option<JsonModel> {
    match (
        view.text_at("bridgeEpoch"@),
        inner_number(view, "session"@, "incarnation"@),
        inner_number(view, "session"@, "viewRevision"@),
    ) {
        (Some(epoch), Some(incarnation), Some(revision)) => Some(
            JsonModel::Object(
                Map::empty().insert("type"@, JsonModel::String("bridge/session_reset"@)).insert(
                    "bridgeEpoch"@,
                    JsonModel::String(epoch),
                ).insert("sessionId"@, JsonModel::String(session_id)).insert(
                    "sessionIncarnation"@,
                    JsonModel::Integer(incarnation as int),
                ).insert("viewRevision"@, JsonModel::Integer(revision as int)).insert(
                    "historyRevision"@,
                    or_null(inner(view, "session"@, "historyRevision"@)),
                ).insert("phase"@, or_null(inner(view, "session"@, "phase"@))).insert(
                    "syncError"@,
                    or_null(inner(view, "session"@, "syncError"@)),
                ),
            ),
        ),
        _ => None,
    }
}

/// What tells a reader of a session to start over.
pub fn session_reset_value(session_id: &str, view: &Json) -> (reset: Option<Json>)
    ensures
        match reset {
            Some(reset) => session_reset(session_id@, view@) == Some(reset@),
            None => session_reset(session_id@, view@) is None,
        },
{
    match (
        view.text_at("bridgeEpoch"),
        get_inner_number(view, "session", "incarnation"),
        get_inner_number(view, "session", "viewRevision"),
    ) {
        (Some(epoch), Some(incarnation), Some(revision)) => {
            let mut reset = Json::object();
            reset.put("type", Json::text("bridge/session_reset"));
            reset.put("bridgeEpoch", Json::text(epoch));
            reset.put("sessionId", Json::text(session_id));
            reset.put("sessionIncarnation", Json::Unsigned(incarnation));
            reset.put("viewRevision", Json::Unsigned(revision));
            reset.put(
                "historyRevision",
                copy_or_null(get_inner(view, "session", "historyRevision")),
            );
            reset.put("phase", copy_or_null(get_inner(view, "session", "phase")));
            reset.put("syncError", copy_or_null(get_inner(view, "session", "syncError")));
            Some(reset)
        },
        _ => None,
    }
}

/// Whether an event of a kind is handed to the readers of its session as it
/// is.
pub open spec fn is_session_kind(kind: Option<Seq<char>>) -> bool {
    kind == Some("bridge/session_delta"@) || kind == Some("bridge/session_retired"@) || kind
        == Some("bridge/session_turn_complete"@) || kind == Some("bridge/session_turn_failed"@)
}

/// The session that an event concerns and what its readers are handed: the
/// event itself, or a reset in place of a full view.
pub open spec fn session_business(text: Seq<char>, event: JsonModel) -> Option<
    (Seq<char>, Seq<char>),
> {
    let kind = kind_of(event);
    match event.text_at("sessionId"@) {
        Some(session_id) => if is_session_kind(kind) {
            Some((session_id, text))
        } else if kind == Some("bridge/session_view"@) {
            match event.get("view"@) {
                Some(view) => match session_reset(session_id, view) {
                    Some(reset) => Some((session_id, text_of_json(reset))),
                    None => None,
                },
                None => None,
            }
        } else {
            None
        },
        None => None,
    }
}

/// Whether what is handed out in place of a view reads back as the reset that
/// it is.
pub open spec fn reset_reads_back(event: JsonModel, handed: Seq<char>) -> bool {
    !is_session_kind(kind_of(event)) ==> reads_back(
        handed,
        session_reset(event.text_at("sessionId"@)->0, event.get("view"@)->0)->0,
    )
}

/// The session that a read event concerns and what its readers are handed.
pub fn find_session_business(text: &str, event: &Json) -> (found: Option<(String, String)>)
    ensures
        match found {
            Some((session_id, handed)) => session_business(text@, event@) == Some(
                (session_id@, handed@),
            ) && reset_reads_back(event@, handed@),
            None => session_business(text@, event@) is None,
        },
{
    let kind = event.text_at("type");
    let session_id = match event.text_at("sessionId") {
        Some(session_id) => session_id,
        None => {
            return None;
        },
    };
    if is_text(kind, "bridge/session_delta") || is_text(kind, "bridge/session_retired") || is_text(
        kind,
        "bridge/session_turn_complete",
    ) || is_text(kind, "bridge/session_turn_failed") {
        return Some((session_id.to_string(), text.to_string()));
    }
    if is_text(kind, "bridge/session_view") {
        match event.get("view") {
            Some(view) => match session_reset_value(session_id, view) {
                Some(reset) => Some((session_id.to_string(), reset.to_text())),
                None => None,
            },
            None => None,
        }
    } else {
        None
    }
}

/// The session that the text of an event concerns and what its readers are
/// handed.
pub fn business_session_event(event: &str) -> (found: Option<(String, String)>)
    ensures
        match found {
            Some((session_id, handed)) => json_of_text(event@) matches Some(value)
                && session_business(event@, value) == Some((session_id@, handed@))
                && reset_reads_back(value, handed@),
            None => json_of_text(event@) matches Some(value) ==> session_business(event@, value)
                is None,
        },
{
    match Json::parse(event) {
        Some(value) => find_session_business(event, &value),
        None => None,
    }
}

/// Whether an error event concerns the connection and no request.
pub open spec fn is_connection_error(event: JsonModel) -> bool {
    kind_of(event) == Some("bridge/error"@) && event.get("requestId"@) is None && event.get(
        "operation"@,
    ) is None
}

/// Whether an error event concerns the connection and no request.
pub fn concerns_connection(event: &Json) -> (found: bool)
    ensures
        found == is_connection_error(event@),
{
    is_text(event.text_at("type"), "bridge/error") && event.get("requestId").is_none()
        && event.get("operation").is_none()
}

/// Whether a kind of event belongs to a login.
pub open spec fn is_auth_kind(kind: Option<Seq<char>>) -> bool {
    kind == Some("acp/authenticated"@) || kind == Some("acp/logged_out"@) || kind == Some(
        "bridge/auth_terminal_started"@,
    ) || kind == Some("bridge/auth_terminal_output"@) || kind == Some(
        "bridge/auth_terminal_exited"@,
    )
}

/// Whether a kind of event belongs to a login.
pub fn belongs_to_auth(kind: Option<&str>) -> (found: bool)
    ensures
        found == is_auth_kind(shown_text(kind)),
{
    is_text(kind, "acp/authenticated") || is_text(kind, "acp/logged_out") || is_text(
        kind,
        "bridge/auth_terminal_started",
    ) || is_text(kind, "bridge/auth_terminal_output") || is_text(
        kind,
        "bridge/auth_terminal_exited",
    )
}

/// The event that tells the phase of the connection.
pub open spec fn connection_event(event: JsonModel) -> JsonModel {
    JsonModel::Object(
        Map::empty().insert("type"@, JsonModel::String("bridge/connection"@)).insert(
            "phase"@,
            or_null(event.get("phase"@)),
        ),
    )
}

/// The event that tells an error of the connection.
pub open spec fn connection_error_event(event: JsonModel) -> JsonModel {
    JsonModel::Object(
        Map::empty().insert("type"@, JsonModel::String("bridge/connection_error"@)).insert(
            "message"@,
            or_null(event.get("message"@)),
        ).insert("code"@, or_null(event.get("code"@))).insert(
            "data"@,
            or_null(event.get("data"@)),
        ),
    )
}

/// What the global readers are handed of an event.
pub open spec fn global_business(text: Seq<char>, event: JsonModel) -> Option<Seq<char>> {
    let kind = kind_of(event);
    if kind == Some("bridge/phase"@) {
        Some(text_of_json(connection_event(event)))
    } else if kind == Some("bridge/catalog_changed"@) || is_auth_kind(kind) {
        Some(text)
    } else if is_connection_error(event) {
        Some(text_of_json(connection_error_event(event)))
    } else {
        None
    }
}

/// Whether what is handed out of a connection reads back as what it tells.
pub open spec fn connection_reads_back(event: JsonModel, handed: Seq<char>) -> bool {
    let kind = kind_of(event);
    if kind == Some("bridge/phase"@) {
        reads_back(handed, connection_event(event))
    } else {
        kind == Some("bridge/catalog_changed"@) || is_auth_kind(kind) || reads_back(
            handed,
            connection_error_event(event),
        )
    }
}

/// What the global readers are handed of a read event.
pub fn find_global_business(text: &str, event: &Json) -> (handed: Option<String>)
    ensures
        match handed {
            Some(handed) => global_business(text@, event@) == Some(handed@)
                && connection_reads_back(event@, handed@),
            None => global_business(text@, event@) is None,
        },
{
    let kind = event.text_at("type");
    if is_text(kind, "bridge/phase") {
        let mut handed = Json::object();
        handed.put("type", Json::text("bridge/connection"));
        handed.put("phase", copy_or_null(event.get("phase")));
        Some(handed.to_text())
    } else if is_text(kind, "bridge/catalog_changed") || belongs_to_auth(kind) {
        Some(text.to_string())
    } else if concerns_connection(event) {
        let mut handed = Json::object();
        handed.put("type", Json::text("bridge/connection_error"));
        handed.put("message", copy_or_null(event.get("message")));
        handed.put("code", copy_or_null(event.get("code")));
        handed.put("data", copy_or_null(event.get("data")));
        Some(handed.to_text())
    } else {
        None
    }
}

/// What the global readers are handed of the text of an event.
pub open spec fn global_text(event: Seq<char>) -> Option<Seq<char>> {
    match json_of_text(event) {
        Some(value) => global_business(event, value),
        None => None,
    }
}

/// What the global readers are handed of the text of an event.
pub fn global_business_event(event: &str) -> (handed: Option<String>)
    ensures
        match handed {
            Some(handed) => global_text(event@) == Some(handed@) && connection_reads_back(
                json_of_text(event@)->0,
                handed@,
            ),
            None => global_text(event@) is None,
        },
{
    match Json::parse(event) {
        Some(value) => find_global_business(event, &value),
        None => None,
    }
}

/// The session of an event that its readers see.
pub open spec fn visible_session(event: JsonModel) -> Option<Seq<char>> {
    if kind_of(event) == Some("bridge/session_reset"@) || is_session_kind(kind_of(event)) {
        event.text_at("sessionId"@)
    } else {
        None
    }
}

/// The session of a read event that its readers see.
pub fn find_visible_session(event: &Json) -> (session_id: Option<&str>)
    ensures
        shown_text(session_id) == visible_session(event@),
{
    let kind = event.text_at("type");
    if is_text(kind, "bridge/session_reset") || is_text(kind, "bridge/session_delta") || is_text(
        kind,
        "bridge/session_turn_complete",
    ) || is_text(kind, "bridge/session_turn_failed") || is_text(kind, "bridge/session_retired") {
        event.text_at("sessionId")
    } else {
        None
    }
}

/// The session of the text of an event that its readers see.
pub open spec fn visible_text_session(event: Seq<char>) -> Option<Seq<char>> {
    match json_of_text(event) {
        Some(value) => visible_session(value),
        None => None,
    }
}

/// The session of the text of an event that its readers see.
pub fn session_event_id(event: &str) -> (session_id: Option<String>)
    ensures
        match session_id {
            Some(session_id) => visible_text_session(event@) == Some(session_id@),
            None => visible_text_session(event@) is None,
        },
{
    match Json::parse(event) {
        Some(value) => match find_visible_session(&value) {
            Some(session_id) => Some(session_id.to_string()),
            None => None,
        },
        None => None,
    }
}

/// Whether the readers of a session see an event.
pub fn session_event_matches(event: &str, session_id: &str) -> (matches: bool)
    ensures
        matches == (visible_text_session(event@) == Some(session_id@)),
{
    match session_event_id(event) {
        Some(id) => same_text(id.as_str(), session_id),
        None => false,
    }
}

/// The owner of the session that an event concerns: an epoch and an
/// incarnation.
pub open spec fn event_owner(event: JsonModel) -> Option<(Seq<char>, u64)> {
    match (event.text_at("bridgeEpoch"@), event.get("sessionIncarnation"@)) {
        (Some(epoch), Some(incarnation)) => match incarnation.as_u64() {
            Some(incarnation) => Some((epoch, incarnation)),
            None => None,
        },
        _ => None,
    }
}

/// The owner of the session that a read event concerns.
pub fn find_event_owner(event: &Json) -> (owner: Option<(&str, u64)>)
    ensures
        match owner {
            Some((epoch, incarnation)) => event_owner(event@) == Some((epoch@, incarnation)),
            None => event_owner(event@) is None,
        },
{
    match (event.text_at("bridgeEpoch"), event.get("sessionIncarnation")) {
        (Some(epoch), Some(incarnation)) => match incarnation.as_u64() {
            Some(incarnation) => Some((epoch, incarnation)),
            None => None,
        },
        _ => None,
    }
}

/// The owner of the session that the text of an event concerns.
pub open spec fn text_owner(event: Seq<char>) -> Option<(Seq<char>, u64)> {
    match json_of_text(event) {
        Some(value) => event_owner(value),
        None => None,
    }
}

/// The owner of the session that the text of an event concerns.
pub fn session_event_owner(event: &str) -> (owner: Option<(String, u64)>)
    ensures
        match owner {
            Some((epoch, incarnation)) => text_owner(event@) == Some((epoch@, incarnation)),
            None => text_owner(event@) is None,
        },
{
    match Json::parse(event) {
        Some(value) => match find_event_owner(&value) {
            Some((epoch, incarnation)) => Some((epoch.to_string(), incarnation)),
            None => None,
        },
        None => None,
    }
}

/// A place in the history of a session: an epoch, an incarnation and the
/// revision of the view.
#[verifier::ext_equal]
pub struct Position {
    pub epoch: Seq<char>,
    pub incarnation: u64,
    pub revision: u64,
}

/// The place in the history of its session that an event leads to.
pub open spec fn event_position(event: JsonModel) -> Option<Position> {
    let kind = kind_of(event);
    if kind != Some("bridge/session_reset"@) && kind != Some("bridge/session_delta"@) {
        None
    } else {
        match (event_owner(event), event.get("viewRevision"@)) {
            (Some((epoch, incarnation)), Some(revision)) => match revision.as_u64() {
                Some(revision) => Some(Position { epoch, incarnation, revision }),
                None => None,
            },
            _ => None,
        }
    }
}

/// The place in the history of its session that a read event leads to.
pub fn find_event_position(event: &Json) -> (position: Option<(&str, u64, u64)>)
    ensures
        match position {
            Some((epoch, incarnation, revision)) => event_position(event@) == Some(
                Position { epoch: epoch@, incarnation, revision },
            ),
            None => event_position(event@) is None,
        },
{
    let kind = event.text_at("type");
    if !is_text(kind, "bridge/session_reset") && !is_text(kind, "bridge/session_delta") {
        return None;
    }
    match (find_event_owner(event), event.get("viewRevision")) {
        (Some((epoch, incarnation)), Some(revision)) => match revision.as_u64() {
            Some(revision) => Some((epoch, incarnation, revision)),
            None => None,
        },
        _ => None,
    }
}

/// The place in the history of its session that the text of an event leads to.
pub open spec fn text_position(event: Seq<char>) -> Option<Position> {
    match json_of_text(event) {
        Some(value) => event_position(value),
        None => None,
    }
}

/// The place in the history of its session that the text of an event leads to.
pub fn session_event_position(event: &str) -> (position: Option<(String, u64, u64)>)
    ensures
        match position {
            Some((epoch, incarnation, revision)) => text_position(event@) == Some(
                Position { epoch: epoch@, incarnation, revision },
            ),
            None => text_position(event@) is None,
        },
{
    match Json::parse(event) {
        Some(value) => match find_event_position(&value) {
            Some((epoch, incarnation, revision)) => Some(
                (epoch.to_string(), incarnation, revision),
            ),
            None => None,
        },
        None => None,
    }
}

/// A place in the history of a session as one text.
pub open spec fn cursor_text(position: Position) -> Seq<char> {
    position.epoch + ":"@ + decimal_text(position.incarnation as nat) + ":"@ + decimal_text(
        position.revision as nat,
    )
}

/// A place in the history of a session as one text.
pub fn write_cursor(epoch: &str, incarnation: u64, revision: u64) -> (cursor: String)
    ensures
        cursor@ == cursor_text(Position { epoch: epoch@, incarnation, revision }),
{
    let first = decimal(incarnation);
    let second = decimal(revision);
    join5(epoch, ":", first.as_str(), ":", second.as_str())
}

/// The place in the history of its session that the text of an event leads to,
/// as one text.
pub fn session_event_cursor(event: &str) -> (cursor: Option<String>)
    ensures
        match cursor {
            Some(cursor) => text_position(event@) matches Some(position) && cursor@
                == cursor_text(position),
            None => text_position(event@) is None,
        },
{
    match session_event_position(event) {
        Some((epoch, incarnation, revision)) => Some(
            write_cursor(epoch.as_str(), incarnation, revision),
        ),
        None => None,
    }
}

/// Whether an event is to be skipped: it leads to no later place in the same
/// history than the reader has reached.
pub open spec fn is_behind(reached: Option<Position>, next: Option<Position>) -> bool {
    match (reached, next) {
        (Some(reached), Some(next)) => reached.epoch == next.epoch && reached.incarnation
            == next.incarnation && next.revision <= reached.revision,
        _ => false,
    }
}

/// The place that a reader of a session has reached.
pub struct ReaderPosition {
    pub epoch: String,
    pub incarnation: u64,
    pub revision: u64,
}

impl View for ReaderPosition {
    type V = Position;

    open spec fn view(&self) -> Position {
        Position {
            epoch: self.epoch@,
            incarnation: self.incarnation,
            revision: self.revision,
        }
    }
}

/// What a reader of a session is sent of an event.
#[derive(Debug, PartialEq, Eq)]
pub enum Delivery {
    /// The event is not for this reader, or not new to it.
    Skip,
    /// The event, with the place that it leads to as one text.
    Send { cursor: Option<String> },
}

/// What a reader of a session has reached after an event.
pub open spec fn reached_after(reached: Option<Position>, event: Seq<char>) -> Option<Position> {
    match text_position(event) {
        Some(position) => Some(position),
        None => reached,
    }
}

/// Whether a reader of a session is sent an event.
pub open spec fn is_sent(
    session_id: Seq<char>,
    reached: Option<Position>,
    event: Seq<char>,
) -> bool {
    visible_text_session(event) == Some(session_id) && !is_behind(reached, text_position(event))
}

/// Decides what a reader of a session is sent of an event, and notes the place
/// that it leads to.
pub fn deliver_session_event(
    session_id: &str,
    reached: &mut Option<ReaderPosition>,
    event: &str,
) -> (delivery: Delivery)
    ensures
        ({
            let before = match *old(reached) {
                Some(position) => Some(position@),
                None => None,
            };
            let after = match *final(reached) {
                Some(position) => Some(position@),
                None => None,
            };
            match delivery {
                Delivery::Skip => !is_sent(session_id@, before, event@) && after == before,
                Delivery::Send { cursor } => is_sent(session_id@, before, event@) && after
                    == reached_after(before, event@) && match cursor {
                    Some(cursor) => text_position(event@) matches Some(position) && cursor@
                        == cursor_text(position),
                    None => text_position(event@) is None,
                },
            }
        }),
{
    if !session_event_matches(event, session_id) {
        return Delivery::Skip;
    }
    match session_event_position(event) {
        Some((epoch, incarnation, revision)) => {
            let behind = match &*reached {
                Some(current) => current.incarnation == incarnation && revision <= current.revision
                    && same_text(current.epoch.as_str(), epoch.as_str()),
                None => false,
            };
            if behind {
                return Delivery::Skip;
            }
            let cursor = write_cursor(epoch.as_str(), incarnation, revision);
            *reached = Some(ReaderPosition { epoch, incarnation, revision });
            Delivery::Send { cursor: Some(cursor) }
        },
        None => Delivery::Send { cursor: None },
    }
}

/// A reader is never led back: of one history, every event that is sent leads
/// further than the ones before.
pub proof fn law_reader_moves_forward(
    session_id: Seq<char>,
    reached: Position,
    event: Seq<char>,
    position: Position,
)
    requires
        is_sent(session_id, Some(reached), event),
        text_position(event) == Some(position),
        position.epoch == reached.epoch,
        position.incarnation == reached.incarnation,
    ensures
        position.revision > reached.revision,
{
}

} // verus!
