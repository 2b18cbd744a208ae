//! What the HTTP interface asks of the Agent and what it answers.
use crate::api::{
    business_error_response, business_view, cursor_owner, is_api_cwd, is_api_identifier,
    observed_owner, query_owner, strong_tag, view_error_response, ResourceOwnerModel, ResponseModel,
    ViewErrorModel,
};
use crate::json::{text_of_json, JsonModel};
use crate::requests::{
    observe_request, request_command, request_identifier, request_prefix, request_problem,
    success_response, turn_request, view_request, ApiRequest,
};
use crate::session_update::optional_text;
use crate::text::{lemma_split_last, split_last, unsigned_number, utf16_len};
use crate::text_laws::law_text_is_split_at_the_last_separator;
use crate::view_laws::{has_marks, law_embedded_view_is_shown};
use vstd::prelude::*;
use vstd::utf8::*;

verus! {

/// Whether a value has a text under a key.
pub open spec fn says(value: JsonModel, key: Seq<char>, text: Seq<char>) -> bool {
    value.get(key) == Some(JsonModel::String(text))
}

/// Whether an answer is a refusal with a message.
pub open spec fn is_refusal(answer: ResponseModel, status: u16, message: Seq<char>) -> bool {
    answer.status == status && answer.body is Some && says(answer.body->0, "error"@, message)
}

/// An identifier is taken where it is not empty and not too long, and a directory
/// where besides it holds no null character.
pub proof fn law_bounded_texts_are_taken(text: Seq<char>)
    ensures
        is_api_identifier(text) <==> 0 < text.len() && utf16_len(text) <= 1024,
        is_api_cwd(text) <==> 0 < text.len() && utf16_len(text) <= 16384 && !text.contains('\0'),
        strong_tag(text) matches Some(revision) ==> text == seq!['"'] + revision + seq!['"']
            && 0 < revision.len() && encode_utf8(revision).len() <= 4096,
        forall|revision: Seq<char>|
            text == #[trigger] (seq!['"'] + revision + seq!['"']) && 0 < revision.len()
                && encode_utf8(revision).len() <= 4096 ==> strong_tag(text) == Some(revision),
{
    if let Some(revision) = strong_tag(text) {
        assert(text =~= seq!['"'] + revision + seq!['"']);
    }
    assert forall|revision: Seq<char>|
        text == #[trigger] (seq!['"'] + revision + seq!['"']) && 0 < revision.len()
            && encode_utf8(revision).len() <= 4096 implies strong_tag(text) == Some(revision) by {
        assert(text.subrange(1, text.len() - 1) =~= revision);
    }
}

/// What a request asks of the Agent: its kind, what it is about, and all that it
/// was given, each under its own name.
#[verifier::spinoff_prover]
pub proof fn law_request_asks_what_it_was_given(request: ApiRequest, identifier: Seq<char>)
    ensures
        ({
            let asked = request_command(request, identifier);
            &&& !(request is CancelTurn) ==> says(asked, "requestId"@, identifier)
            &&& request matches ApiRequest::Authenticate { method_id } ==> says(
                asked,
                "type"@,
                "auth/authenticate"@,
            ) && says(asked, "methodId"@, method_id@)
            &&& request is Logout ==> says(asked, "type"@, "auth/logout"@)
            &&& request matches ApiRequest::StartAuthTerminal { method_id, cols, rows } ==> says(
                asked,
                "type"@,
                "auth/terminal_start"@,
            ) && says(asked, "methodId"@, method_id@) && asked.get("cols"@) == Some(
                JsonModel::Integer(cols as int),
            ) && asked.get("rows"@) == Some(JsonModel::Integer(rows as int))
            &&& request matches ApiRequest::WriteAuthTerminal { data, .. } ==> says(
                asked,
                "type"@,
                "auth/terminal_input"@,
            ) && says(asked, "data"@, data@)
            &&& request matches ApiRequest::ResizeAuthTerminal { cols, rows, .. } ==> says(
                asked,
                "type"@,
                "auth/terminal_resize"@,
            ) && asked.get("cols"@) == Some(JsonModel::Integer(cols as int)) && asked.get("rows"@)
                == Some(JsonModel::Integer(rows as int))
            &&& request is CancelAuthTerminal ==> says(asked, "type"@, "auth/terminal_cancel"@)
            &&& request matches ApiRequest::SearchContext { session_id, query } ==> says(
                asked,
                "type"@,
                "context/search"@,
            ) && says(asked, "sessionId"@, session_id@) && says(asked, "query"@, query@)
            &&& request matches ApiRequest::ReadContext { session_id, path } ==> says(
                asked,
                "type"@,
                "context/read"@,
            ) && says(asked, "sessionId"@, session_id@) && says(asked, "path"@, path@)
            &&& request matches ApiRequest::ListSessions { cursor, expected_catalog_revision }
                ==> says(asked, "type"@, "session/list"@) && asked.get("cursor"@) == (
            match optional_text(cursor) {
                Some(text) => Some(JsonModel::String(text)),
                None => None,
            }) && asked.get("expectedCatalogRevision"@) == (match optional_text(
                expected_catalog_revision,
            ) {
                Some(text) => Some(JsonModel::String(text)),
                None => None,
            })
            &&& request matches ApiRequest::CreateSession { cwd } ==> says(
                asked,
                "type"@,
                "session/new"@,
            ) && asked.get("cwd"@) == (match optional_text(cwd) {
                Some(text) => Some(JsonModel::String(text)),
                None => None,
            })
            &&& request matches ApiRequest::DeleteSession { session_id } ==> says(
                asked,
                "type"@,
                "session/delete"@,
            ) && says(asked, "sessionId"@, session_id@)
            &&& request matches ApiRequest::ForkSession { session_id } ==> says(
                asked,
                "type"@,
                "session/fork"@,
            ) && says(asked, "sessionId"@, session_id@)
            &&& request matches ApiRequest::CloseSession { session_id } ==> says(
                asked,
                "type"@,
                "session/close"@,
            ) && says(asked, "sessionId"@, session_id@)
            &&& request matches ApiRequest::CancelTurn { session_id, operation_id } ==> says(
                asked,
                "type"@,
                "session/cancel"@,
            ) && says(asked, "sessionId"@, session_id@) && says(
                asked,
                "expectedOperationId"@,
                operation_id@,
            )
            &&& request matches ApiRequest::SetMode { session_id, mode_id } ==> says(
                asked,
                "type"@,
                "session/set_mode"@,
            ) && says(asked, "sessionId"@, session_id@) && says(asked, "modeId"@, mode_id@)
            &&& request matches ApiRequest::SetConfig { session_id, config_id, value } ==> says(
                asked,
                "type"@,
                "session/set_config_option"@,
            ) && says(asked, "sessionId"@, session_id@) && says(asked, "configId"@, config_id@)
                && asked.get("value"@) == Some(value@)
            &&& request matches ApiRequest::Respond {
                session_id,
                interaction_id,
                kind,
                outcome,
                response,
            } ==> says(asked, "sessionId"@, session_id@) && (kind@ == "permission"@ ==> says(
                asked,
                "type"@,
                "permission/respond"@,
            ) && says(asked, "permissionId"@, interaction_id@) && (outcome matches Some(outcome)
                ==> asked.get("outcome"@) == Some(outcome@))) && (kind@ == "elicitation"@ ==> says(
                asked,
                "type"@,
                "elicitation/respond"@,
            ) && says(asked, "elicitationId"@, interaction_id@) && (response matches Some(response)
                ==> asked.get("response"@) == Some(response@)))
        }),
{
    reveal_strlit("type");
    reveal_strlit("requestId");
    reveal_strlit("methodId");
    reveal_strlit("cols");
    reveal_strlit("rows");
    reveal_strlit("data");
    reveal_strlit("sessionId");
    reveal_strlit("query");
    reveal_strlit("path");
    reveal_strlit("cursor");
    reveal_strlit("expectedCatalogRevision");
    reveal_strlit("cwd");
    reveal_strlit("expectedOperationId");
    reveal_strlit("modeId");
    reveal_strlit("configId");
    reveal_strlit("value");
    reveal_strlit("permissionId");
    reveal_strlit("outcome");
    reveal_strlit("elicitationId");
    reveal_strlit("response");
    reveal_strlit("permission");
    reveal_strlit("elicitation");
    assert("type"@.len() == 4);
    assert("requestId"@.len() == 9);
    assert("methodId"@.len() == 8);
    assert("cols"@.len() == 4);
    assert("rows"@.len() == 4);
    assert("data"@.len() == 4);
    assert("sessionId"@.len() == 9);
    assert("query"@.len() == 5);
    assert("path"@.len() == 4);
    assert("cursor"@.len() == 6);
    assert("expectedCatalogRevision"@.len() == 23);
    assert("cwd"@.len() == 3);
    assert("expectedOperationId"@.len() == 19);
    assert("modeId"@.len() == 6);
    assert("configId"@.len() == 8);
    assert("value"@.len() == 5);
    assert("permissionId"@.len() == 12);
    assert("outcome"@.len() == 7);
    assert("elicitationId"@.len() == 13);
    assert("response"@.len() == 8);
    assert("permission"@.len() == 10);
    assert("elicitation"@.len() == 11);
    assert("type"@[0] == 't');
    assert("cols"@[0] == 'c');
    assert("rows"@[0] == 'r');
    assert("data"@[0] == 'd');
    assert("path"@[0] == 'p');
    assert("requestId"@[0] == 'r');
    assert("sessionId"@[0] == 's');
    assert("methodId"@[0] == 'm');
    assert("configId"@[0] == 'c');
    assert("response"@[0] == 'r');
    assert("query"@[0] == 'q');
    assert("value"@[0] == 'v');
    assert("cursor"@[0] == 'c');
    assert("modeId"@[0] == 'm');
}

/// What is written into a login terminal, what resizes it and what cancels it
/// goes under the name of the request that started it; every other request goes
/// under a name of its own, which ends in what makes it unique.
pub proof fn law_request_has_its_name(request: ApiRequest, unique: Seq<char>)
    ensures
        request matches ApiRequest::WriteAuthTerminal { request_id, .. } ==> request_identifier(
            request,
            unique,
        ) == request_id@,
        request matches ApiRequest::ResizeAuthTerminal { request_id, .. } ==> request_identifier(
            request,
            unique,
        ) == request_id@,
        request matches ApiRequest::CancelAuthTerminal { request_id } ==> request_identifier(
            request,
            unique,
        ) == request_id@,
        !(request is WriteAuthTerminal || request is ResizeAuthTerminal
            || request is CancelAuthTerminal) ==> {
            let name = request_identifier(request, unique);
            &&& name.len() >= unique.len()
            &&& name.skip(name.len() - unique.len()) == unique
        },
{
    if !(request is WriteAuthTerminal || request is ResizeAuthTerminal
        || request is CancelAuthTerminal) {
        let name = request_identifier(request, unique);
        assert(name.skip(name.len() - unique.len()) =~= unique);
    }
}

/// A request is refused exactly where one of its identifiers is empty or too long,
/// a terminal has no width or height, a query or a path is out of bounds, a
/// configuration value is neither a text nor a truth value, or a response lacks
/// what its kind needs.
pub proof fn law_bad_requests_are_refused(request: ApiRequest)
    ensures
        request_problem(request) is None <==> match request {
            ApiRequest::Authenticate { method_id } => is_api_identifier(method_id@),
            ApiRequest::StartAuthTerminal { method_id, cols, rows } => is_api_identifier(
                method_id@,
            ) && cols > 0 && rows > 0,
            ApiRequest::WriteAuthTerminal { request_id, .. } => is_api_identifier(request_id@),
            ApiRequest::ResizeAuthTerminal { request_id, cols, rows } => is_api_identifier(
                request_id@,
            ) && cols > 0 && rows > 0,
            ApiRequest::CancelAuthTerminal { request_id } => is_api_identifier(request_id@),
            ApiRequest::SearchContext { session_id, query } => is_api_identifier(session_id@)
                && utf16_len(query@) <= 256,
            ApiRequest::ReadContext { session_id, path } => is_api_identifier(session_id@)
                && path@.len() > 0 && encode_utf8(path@).len() <= 16384,
            ApiRequest::DeleteSession { session_id } => is_api_identifier(session_id@),
            ApiRequest::ForkSession { session_id } => is_api_identifier(session_id@),
            ApiRequest::CloseSession { session_id } => is_api_identifier(session_id@),
            ApiRequest::CancelTurn { session_id, operation_id } => is_api_identifier(session_id@)
                && is_api_identifier(operation_id@),
            ApiRequest::SetMode { session_id, mode_id } => is_api_identifier(session_id@)
                && is_api_identifier(mode_id@),
            ApiRequest::SetConfig { session_id, config_id, value } => is_api_identifier(session_id@)
                && is_api_identifier(config_id@) && (value@ is String || value@ is Bool),
            ApiRequest::Respond { session_id, interaction_id, kind, outcome, response } =>
                is_api_identifier(session_id@) && is_api_identifier(interaction_id@) && ((kind@
                == "permission"@ && outcome is Some) || (kind@ == "elicitation"@
                && response is Some)),
            ApiRequest::Logout => true,
            ApiRequest::ListSessions { .. } => true,
            ApiRequest::CreateSession { .. } => true,
        },
{
    reveal_strlit("permission");
    reveal_strlit("elicitation");
    assert("permission"@.len() == 10);
    assert("elicitation"@.len() == 11);
}

/// What a request is answered that succeeded: a login with its name and the
/// response, a started terminal with its name, a session that was created or
/// forked with its view as it is shown, a deletion with nothing, and any other
/// with what the Agent returned.
pub proof fn law_success_is_answered(
    request: ApiRequest,
    identifier: Seq<char>,
    value: JsonModel,
)
    ensures
        ({
            let answer = success_response(request, identifier, value);
            &&& request is Authenticate || request is Logout ==> answer.status == 200
                && answer.body is Some && says(answer.body->0, "requestId"@, identifier)
                && answer.body->0.get("response"@) == Some(value)
            &&& request is StartAuthTerminal ==> answer.status == 202 && answer.body is Some
                && says(answer.body->0, "requestId"@, identifier)
            &&& request is CreateSession || request is ForkSession ==> {
                if value.get("view"@) is Some && has_marks(value.get("view"@)->0) {
                    &&& answer.status == 201
                    &&& answer.body is Some
                    &&& answer.body->0.get("view"@) == business_view(
                        value.get("view"@)->0,
                    )
                    &&& forall|key: Seq<char>|
                        key != "view"@ ==> #[trigger] answer.body->0.get(key) == value.get(key)
                } else {
                    answer.status == 500
                }
            }
            &&& request is DeleteSession ==> answer.status == 204 && answer.body is None
            &&& !(request is Authenticate || request is Logout || request is StartAuthTerminal
                || request is CreateSession || request is ForkSession || request is DeleteSession)
                ==> answer.status == 200 && answer.body == Some(value)
        }),
{
    reveal_strlit("requestId");
    reveal_strlit("response");
    assert("requestId"@.len() == 9);
    assert("response"@.len() == 8);
    law_embedded_view_is_shown(value);
}

/// What the Agent refuses is answered as a conflict, with its message, its code
/// and its data; the data stand for the error where there are any.
pub proof fn law_agent_refusal_is_answered(
    message: Seq<char>,
    code: JsonModel,
    data: Option<JsonModel>,
)
    ensures
        ({
            let answer = business_error_response(message, code, data);
            &&& answer.status == 409
            &&& answer.body is Some
            &&& says(answer.body->0, "message"@, message)
            &&& answer.body->0.get("code"@) == Some(code)
            &&& data is None ==> says(answer.body->0, "error"@, message) && answer.body->0.get(
                "data"@,
            ) == Some(JsonModel::Null)
            &&& data matches Some(data) ==> says(answer.body->0, "error"@, text_of_json(data))
                && answer.body->0.get("data"@) == Some(data)
        }),
{
    reveal_strlit("error");
    reveal_strlit("message");
    reveal_strlit("code");
    reveal_strlit("data");
    assert("error"@.len() == 5);
    assert("message"@.len() == 7);
    assert("code"@.len() == 4);
    assert("data"@.len() == 4);
    assert("code"@[0] == 'c');
    assert("data"@[0] == 'd');
}

/// Why a view cannot be had is answered in a way that a reader can tell apart: a
/// connection that was replaced, a session that retired, one that is not there,
/// or a connection that is of no use now.
pub proof fn law_missing_view_is_explained(error: ViewErrorModel)
    ensures
        ({
            let answer = view_error_response(error);
            let body = answer.body->0;
            &&& answer.body is Some
            &&& error matches ViewErrorModel::ConnectionReplaced { owner, current_epoch } ==> {
                &&& answer.status == 409
                &&& says(body, "code"@, "bridge_replaced"@)
                &&& says(body, "sessionId"@, owner.session_id)
                &&& says(body, "bridgeEpoch"@, owner.epoch)
                &&& body.get("sessionIncarnation"@) == Some(
                    JsonModel::Integer(owner.incarnation as int),
                )
                &&& says(body, "currentBridgeEpoch"@, current_epoch)
            }
            &&& error matches ViewErrorModel::Retired(owner) ==> {
                &&& answer.status == 409
                &&& says(body, "code"@, "session_retired"@)
                &&& says(body, "reason"@, "owner_retired"@)
                &&& says(body, "sessionId"@, owner.session_id)
                &&& says(body, "bridgeEpoch"@, owner.epoch)
                &&& body.get("sessionIncarnation"@) == Some(
                    JsonModel::Integer(owner.incarnation as int),
                )
            }
            &&& error is NotFound ==> answer.status == 404 && says(
                body,
                "code"@,
                "session_not_found"@,
            )
            &&& error matches ViewErrorModel::Unavailable(message) ==> is_refusal(
                answer,
                if message == "session is not materialized"@ {
                    409
                } else {
                    503
                },
                message,
            )
        }),
{
    reveal_strlit("error");
    reveal_strlit("code");
    reveal_strlit("sessionId");
    reveal_strlit("bridgeEpoch");
    reveal_strlit("sessionIncarnation");
    reveal_strlit("currentBridgeEpoch");
    reveal_strlit("reason");
    assert("error"@.len() == 5);
    assert("code"@.len() == 4);
    assert("sessionId"@.len() == 9);
    assert("bridgeEpoch"@.len() == 11);
    assert("sessionIncarnation"@.len() == 18);
    assert("currentBridgeEpoch"@.len() == 18);
    assert("reason"@.len() == 6);
    assert("sessionIncarnation"@[0] == 's');
    assert("currentBridgeEpoch"@[0] == 'c');
}

/// Whom a reader expects to own a session: nobody in particular where it tells
/// neither epoch nor incarnation, and that owner where it tells both and both
/// are well formed. To tell one of them, or one that is not, is refused.
pub proof fn law_expected_owner_is_told_in_full(
    session_id: Seq<char>,
    epoch: Option<Seq<char>>,
    incarnation: Option<u64>,
)
    ensures
        ({
            let owner = query_owner(session_id, epoch, incarnation);
            let well_formed = epoch is Some && incarnation is Some && epoch->0.len() > 0
                && encode_utf8(epoch->0).len() <= 1024 && !epoch->0.contains('\0')
                && incarnation->0 > 0;
            &&& epoch is None && incarnation is None ==> owner == Ok::<
                Option<ResourceOwnerModel>,
                Seq<char>,
            >(None)
            &&& well_formed ==> (owner matches Ok(Some(found)) && found.epoch == epoch->0
                && found.session_id == session_id && found.incarnation == incarnation->0)
            &&& !(epoch is None && incarnation is None) && !well_formed ==> owner is Err
        }),
{
}

/// A reader that comes back with a cursor resumes from the owner that the cursor
/// names, unless it says itself whom it expects; a cursor that cannot be read is
/// refused, and one that is absent changes nothing.
pub proof fn law_cursor_tells_where_to_resume(
    session_id: Seq<char>,
    epoch: Option<Seq<char>>,
    incarnation: Option<u64>,
    cursor: Option<Option<Seq<char>>>,
)
    ensures
        ({
            let owner = observed_owner(session_id, epoch, incarnation, cursor);
            let expected = query_owner(session_id, epoch, incarnation);
            &&& expected is Err ==> owner is Err
            &&& cursor is None ==> owner == expected
            &&& expected is Ok && cursor == Some(None::<Seq<char>>) ==> owner is Err
            &&& expected is Ok ==> (cursor matches Some(Some(text)) ==> {
                &&& cursor_owner(session_id, text) is None ==> owner is Err
                &&& cursor_owner(session_id, text) matches Some(resumed) ==> owner == Ok::<
                    Option<ResourceOwnerModel>,
                    Seq<char>,
                >(
                    match expected->Ok_0 {
                        Some(named) => Some(named),
                        None => Some(resumed),
                    },
                )
            })
        }),
{
}

/// A view is asked for, and a session observed, with an identifier and a directory
/// that are well formed, on behalf of the owner that the reader expects.
pub proof fn law_readers_are_checked(
    session_id: Seq<char>,
    cwd: Option<Seq<char>>,
    epoch: Option<Seq<char>>,
    incarnation: Option<u64>,
    cursor: Option<Option<Seq<char>>>,
)
    ensures
        ({
            let seen = view_request(session_id, cwd, epoch, incarnation);
            let observed = observe_request(session_id, cwd, epoch, incarnation, cursor);
            let well_formed = is_api_identifier(session_id) && (cwd matches Some(text)
                ==> is_api_cwd(text));
            &&& !well_formed ==> (seen matches Err(answer) && answer.status == 400) && (
            observed matches Err(answer) && answer.status == 400)
            &&& well_formed ==> match query_owner(session_id, epoch, incarnation) {
                Ok(owner) => seen == Ok::<Option<ResourceOwnerModel>, ResponseModel>(owner),
                Err(message) => seen is Err && is_refusal(seen->Err_0, 400, message),
            }
            &&& well_formed ==> match observed_owner(session_id, epoch, incarnation, cursor) {
                Ok(owner) => observed == Ok::<Option<ResourceOwnerModel>, ResponseModel>(owner),
                Err(message) => observed is Err && is_refusal(observed->Err_0, 400, message),
            }
        }),
{
}

/// A turn is asked for with the revision of the history that it follows, as a tag,
/// with a key of its own, and with one to sixty-four blocks. Without the revision
/// it is refused as a request that needs one; otherwise as a bad request.
pub proof fn law_turn_request_is_checked(
    session_id: Seq<char>,
    if_match: Option<Seq<char>>,
    key: Option<Seq<char>>,
    blocks: nat,
)
    ensures
        ({
            let asked = turn_request(session_id, if_match, key, blocks);
            let revision = match if_match {
                Some(tag) => strong_tag(tag),
                None => None,
            };
            &&& asked is Ok <==> is_api_identifier(session_id) && revision is Some && key is Some
                && is_api_identifier(key->0) && 1 <= blocks <= 64
            &&& asked matches Ok((follows, intent)) ==> Some(follows) == revision && Some(intent)
                == key
            &&& asked matches Err(answer) ==> answer.status == (if is_api_identifier(session_id)
                && revision is None {
                428u16
            } else {
                400u16
            })
        }),
{
}

/// Whether a cursor is made up of an epoch, an incarnation and a revision, with colons
/// between them and none inside the numbers.
pub open spec fn is_made_of(
    cursor: Seq<char>,
    epoch: Seq<char>,
    incarnation: Seq<char>,
    revision: Seq<char>,
) -> bool {
    &&& cursor == epoch + seq![':'] + incarnation + seq![':'] + revision
    &&& !incarnation.contains(':')
    &&& !revision.contains(':')
}

/// A cursor names an owner exactly where it is short enough and made up of an epoch,
/// an incarnation and a revision, with neither number zero; the owner is that of the
/// epoch and the incarnation.
pub proof fn law_cursor_is_read(
    session_id: Seq<char>,
    epoch: Seq<char>,
    incarnation: Seq<char>,
    revision: Seq<char>,
)
    requires
        !incarnation.contains(':'),
        !revision.contains(':'),
    ensures
        ({
            let cursor = epoch + seq![':'] + incarnation + seq![':'] + revision;
            let owner = cursor_owner(session_id, cursor);
            &&& owner is Some <==> encode_utf8(cursor).len() <= 2048 && 0 < epoch.len()
                && encode_utf8(epoch).len() <= 1024 && !epoch.contains('\0') && (unsigned_number(
                incarnation,
            ) matches Some(number) && number > 0) && (unsigned_number(revision) matches Some(number)
                && number > 0)
            &&& owner matches Some(named) ==> named.epoch == epoch && named.session_id == session_id
                && Some(named.incarnation) == unsigned_number(incarnation)
        }),
{
    let before = epoch + seq![':'] + incarnation;
    assert(epoch + seq![':'] + incarnation + seq![':'] + revision =~= before + seq![':']
        + revision);
    lemma_split_last(before, ':', revision);
    lemma_split_last(epoch, ':', incarnation);
}

/// A text that names an owner is made up of an epoch, an incarnation and a revision.
pub proof fn law_cursor_has_three_parts(session_id: Seq<char>, cursor: Seq<char>)
    ensures
        cursor_owner(session_id, cursor) is Some ==> exists|
            epoch: Seq<char>,
            incarnation: Seq<char>,
            revision: Seq<char>,
        | is_made_of(cursor, epoch, incarnation, revision),
{
    if cursor_owner(session_id, cursor) is Some {
        law_text_is_split_at_the_last_separator(cursor, ':');
        let (before, revision) = split_last(cursor, ':')->0;
        law_text_is_split_at_the_last_separator(before, ':');
        let (epoch, incarnation) = split_last(before, ':')->0;
        assert(is_made_of(cursor, epoch, incarnation, revision));
    }
}

/// Whether a text begins with another one.
pub open spec fn begins_with(text: Seq<char>, start: Seq<char>) -> bool {
    start.len() <= text.len() && text.take(start.len() as int) == start
}

/// Every request but those to a terminal that runs, and the cancellation of a turn, is
/// known under a new identifier; it ends with what is unique and tells that it is one
/// of this interface.
#[verifier::spinoff_prover]
pub proof fn law_new_identifiers_are_marked(request: ApiRequest, unique: Seq<char>)
    ensures
        ({
            let identifier = request_identifier(request, unique);
            &&& request_prefix(request) is None <==> request is WriteAuthTerminal
                || request is ResizeAuthTerminal || request is CancelAuthTerminal
                || request is CancelTurn
            &&& request_prefix(request) is Some ==> begins_with(identifier, "api-"@)
                && identifier.len() > unique.len() && identifier.skip(
                identifier.len() - unique.len(),
            ) == unique && identifier[identifier.len() - unique.len() - 1] == '-'
        }),
{
    reveal_strlit("api-");
    reveal_strlit("api-auth-");
    reveal_strlit("api-logout-");
    reveal_strlit("api-terminal-");
    reveal_strlit("api-context-search-");
    reveal_strlit("api-context-read-");
    reveal_strlit("api-list-");
    reveal_strlit("api-new-");
    reveal_strlit("api-delete-");
    reveal_strlit("api-fork-");
    reveal_strlit("api-close-");
    reveal_strlit("api-mode-");
    reveal_strlit("api-config-");
    reveal_strlit("api-interaction-");
    assert(request_identifier(request, unique).take(4) =~= "api-"@ || request_prefix(request)
        is None);
    assert(request_prefix(request) is Some ==> request_identifier(request, unique).skip(
        request_identifier(request, unique).len() - unique.len(),
    ) =~= unique);
}

} // verus!
