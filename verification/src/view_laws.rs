//! What a session view shows over HTTP, field by field.
use crate::api::{business_view, embedded_view};
use crate::json::JsonModel;
use crate::requests::{view_response, view_tag};
use vstd::prelude::*;

verus! {

/// A field, or a value that stands for it where it is missing.
pub open spec fn field_or(value: JsonModel, key: Seq<char>, other: JsonModel) -> JsonModel {
    match value.get(key) {
        Some(found) => found,
        None => other,
    }
}

/// What is under a key, or null.
pub open spec fn part(value: JsonModel, key: Seq<char>) -> JsonModel {
    field_or(value, key, JsonModel::Null)
}

/// The object without fields.
pub open spec fn nothing() -> JsonModel {
    JsonModel::Object(Map::empty())
}

/// The array without items.
pub open spec fn no_list() -> JsonModel {
    JsonModel::Array(Seq::empty())
}

/// Whether a view has its marks: its epoch, and the identifier, incarnation,
/// revision and phase of its session.
pub open spec fn has_marks(view: JsonModel) -> bool {
    let session = part(view, "session"@);
    &&& view.get("bridgeEpoch"@) is Some
    &&& session.get("sessionId"@) is Some
    &&& session.get("incarnation"@) is Some
    &&& session.get("viewRevision"@) is Some
    &&& session.get("phase"@) is Some
}

/// A view that has its marks is shown, and no other. It shows where its session
/// stands, as the session tells it.
pub proof fn law_view_shows_its_session(view: JsonModel)
    ensures
        business_view(view) is Some <==> has_marks(view),
        business_view(view) matches Some(shown) ==> {
            let session = part(view, "session"@);
            &&& shown.get("bridgeEpoch"@) == view.get("bridgeEpoch"@)
            &&& shown.get("sessionId"@) == session.get("sessionId"@)
            &&& shown.get("sessionIncarnation"@) == session.get("incarnation"@)
            &&& shown.get("viewRevision"@) == session.get("viewRevision"@)
            &&& shown.get("phase"@) == session.get("phase"@)
            &&& shown.get("historyRevision"@) == Some(part(session, "historyRevision"@))
            &&& shown.get("syncError"@) == Some(part(session, "syncError"@))
            &&& shown.get("historyNotice"@) == Some(part(session, "historyNotice"@))
            &&& shown.get("turnOutcomes"@) == Some(field_or(session, "turnOutcomes"@, no_list()))
            &&& shown.get("activeTurn"@) == Some(part(session, "activeTurn"@))
            &&& shown.get("timeline"@) == Some(
                field_or(part(view, "baseline"@), "updates"@, no_list()),
            )
        },
{
    reveal_strlit("bridgeEpoch");
    reveal_strlit("sessionId");
    reveal_strlit("sessionIncarnation");
    reveal_strlit("viewRevision");
    reveal_strlit("historyRevision");
    reveal_strlit("phase");
    reveal_strlit("syncError");
    reveal_strlit("historyNotice");
    reveal_strlit("timeline");
    reveal_strlit("turnOutcomes");
    reveal_strlit("activeTurn");
    reveal_strlit("workspace");
    reveal_strlit("controls");
    reveal_strlit("interactions");
    reveal_strlit("operation");
    reveal_strlit("terminals");
    assert("bridgeEpoch"@.len() == 11);
    assert("sessionId"@.len() == 9);
    assert("sessionIncarnation"@.len() == 18);
    assert("viewRevision"@.len() == 12);
    assert("historyRevision"@.len() == 15);
    assert("phase"@.len() == 5);
    assert("syncError"@.len() == 9);
    assert("historyNotice"@.len() == 13);
    assert("timeline"@.len() == 8);
    assert("turnOutcomes"@.len() == 12);
    assert("activeTurn"@.len() == 10);
    assert("workspace"@.len() == 9);
    assert("controls"@.len() == 8);
    assert("interactions"@.len() == 12);
    assert("operation"@.len() == 9);
    assert("terminals"@.len() == 9);
    assert("sessionId"@[1] == 'e');
    assert("syncError"@[1] == 'y');
    assert("sessionId"@[0] == 's');
    assert("workspace"@[0] == 'w');
    assert("operation"@[0] == 'o');
    assert("terminals"@[0] == 't');
    assert("viewRevision"@[0] == 'v');
    assert("turnOutcomes"@[0] == 't');
    assert("interactions"@[0] == 'i');
    assert("syncError"@[0] == 's');
    assert("timeline"@[0] == 't');
    assert("controls"@[0] == 'c');
}

/// Each part of the live state is shown in its own place: the permissions as
/// permissions, the questions as questions, the flows as flows and the control
/// state as controls, each of them empty only where the live state has none; the
/// directory and the metadata as the workspace; and the operation as it is.
pub proof fn law_view_shows_the_live_state(view: JsonModel)
    ensures
        business_view(view) matches Some(shown) ==> {
            let live = part(view, "live"@);
            let interactions = part(shown, "interactions"@);
            let workspace = part(shown, "workspace"@);
            &&& interactions.get("permissions"@) == Some(
                field_or(live, "permissions"@, nothing()),
            )
            &&& interactions.get("elicitations"@) == Some(
                field_or(live, "elicitations"@, nothing()),
            )
            &&& interactions.get("urlFlows"@) == Some(field_or(live, "urlFlows"@, nothing()))
            &&& shown.get("controls"@) == Some(field_or(live, "controlState"@, nothing()))
            &&& workspace.get("cwd"@) == Some(part(live, "cwd"@))
            &&& workspace.get("session"@) == Some(part(live, "session"@))
            &&& shown.get("operation"@) == Some(part(live, "operation"@))
        },
{
    reveal_strlit("bridgeEpoch");
    reveal_strlit("sessionId");
    reveal_strlit("sessionIncarnation");
    reveal_strlit("viewRevision");
    reveal_strlit("historyRevision");
    reveal_strlit("phase");
    reveal_strlit("syncError");
    reveal_strlit("historyNotice");
    reveal_strlit("timeline");
    reveal_strlit("turnOutcomes");
    reveal_strlit("activeTurn");
    reveal_strlit("workspace");
    reveal_strlit("controls");
    reveal_strlit("interactions");
    reveal_strlit("operation");
    reveal_strlit("terminals");
    reveal_strlit("permissions");
    reveal_strlit("elicitations");
    reveal_strlit("urlFlows");
    reveal_strlit("cwd");
    reveal_strlit("session");
    assert("bridgeEpoch"@.len() == 11);
    assert("sessionId"@.len() == 9);
    assert("sessionIncarnation"@.len() == 18);
    assert("viewRevision"@.len() == 12);
    assert("historyRevision"@.len() == 15);
    assert("phase"@.len() == 5);
    assert("syncError"@.len() == 9);
    assert("historyNotice"@.len() == 13);
    assert("timeline"@.len() == 8);
    assert("turnOutcomes"@.len() == 12);
    assert("activeTurn"@.len() == 10);
    assert("workspace"@.len() == 9);
    assert("controls"@.len() == 8);
    assert("interactions"@.len() == 12);
    assert("operation"@.len() == 9);
    assert("terminals"@.len() == 9);
    assert("permissions"@.len() == 11);
    assert("elicitations"@.len() == 12);
    assert("urlFlows"@.len() == 8);
    assert("cwd"@.len() == 3);
    assert("session"@.len() == 7);
    assert("bridgeEpoch"@[0] == 'b');
    assert("permissions"@[0] == 'p');
    assert("sessionId"@[1] == 'e');
    assert("syncError"@[1] == 'y');
    assert("sessionId"@[0] == 's');
    assert("workspace"@[0] == 'w');
    assert("operation"@[0] == 'o');
    assert("terminals"@[0] == 't');
    assert("viewRevision"@[0] == 'v');
    assert("turnOutcomes"@[0] == 't');
    assert("interactions"@[0] == 'i');
    assert("elicitations"@[0] == 'e');
    assert("syncError"@[0] == 's');
    assert("timeline"@[0] == 't');
    assert("controls"@[0] == 'c');
    assert("urlFlows"@[0] == 'u');
}

/// The terminals that are shown are those that live, and of the others those that
/// the view retains.
pub proof fn law_view_shows_its_terminals(view: JsonModel, id: Seq<char>)
    ensures
        business_view(view) matches Some(shown) ==> {
            let retained = part(view, "terminals"@);
            let living = part(part(view, "live"@), "terminals"@);
            &&& part(shown, "terminals"@) is Object
            &&& part(shown, "terminals"@).get(id) == (match living.get(id) {
                Some(terminal) => Some(terminal),
                None => retained.get(id),
            })
        },
{
    reveal_strlit("bridgeEpoch");
    reveal_strlit("sessionId");
    reveal_strlit("sessionIncarnation");
    reveal_strlit("viewRevision");
    reveal_strlit("historyRevision");
    reveal_strlit("phase");
    reveal_strlit("syncError");
    reveal_strlit("historyNotice");
    reveal_strlit("timeline");
    reveal_strlit("turnOutcomes");
    reveal_strlit("activeTurn");
    reveal_strlit("workspace");
    reveal_strlit("controls");
    reveal_strlit("interactions");
    reveal_strlit("operation");
    reveal_strlit("terminals");
    assert("bridgeEpoch"@.len() == 11);
    assert("sessionId"@.len() == 9);
    assert("sessionIncarnation"@.len() == 18);
    assert("viewRevision"@.len() == 12);
    assert("historyRevision"@.len() == 15);
    assert("phase"@.len() == 5);
    assert("syncError"@.len() == 9);
    assert("historyNotice"@.len() == 13);
    assert("timeline"@.len() == 8);
    assert("turnOutcomes"@.len() == 12);
    assert("activeTurn"@.len() == 10);
    assert("workspace"@.len() == 9);
    assert("controls"@.len() == 8);
    assert("interactions"@.len() == 12);
    assert("operation"@.len() == 9);
    assert("terminals"@.len() == 9);
    assert("sessionId"@[1] == 'e');
    assert("syncError"@[1] == 'y');
    assert("sessionId"@[0] == 's');
    assert("workspace"@[0] == 'w');
    assert("operation"@[0] == 'o');
    assert("terminals"@[0] == 't');
    assert("viewRevision"@[0] == 'v');
    assert("turnOutcomes"@[0] == 't');
    assert("interactions"@[0] == 'i');
    assert("syncError"@[0] == 's');
    assert("timeline"@[0] == 't');
    assert("controls"@[0] == 'c');
}

/// A view shows nothing but these parts.
pub proof fn law_view_shows_nothing_else(view: JsonModel, key: Seq<char>)
    ensures
        business_view(view) matches Some(shown) ==> (shown.get(key) is Some ==> key
            == "bridgeEpoch"@ || key == "sessionId"@ || key == "sessionIncarnation"@ || key
            == "viewRevision"@ || key == "historyRevision"@ || key == "phase"@ || key
            == "syncError"@ || key == "historyNotice"@ || key == "timeline"@ || key
            == "turnOutcomes"@ || key == "activeTurn"@ || key == "workspace"@ || key
            == "controls"@ || key == "interactions"@ || key == "operation"@ || key
            == "terminals"@),
{
}

/// A value that carries a view carries what is shown of it, and all else as it
/// was; without a view that can be shown there is nothing to carry.
pub proof fn law_embedded_view_is_shown(value: JsonModel)
    ensures
        embedded_view(value) is Some <==> value.get("view"@) is Some && has_marks(
            value.get("view"@)->0,
        ),
        embedded_view(value) matches Some(carried) ==> {
            &&& carried.get("view"@) == business_view(value.get("view"@)->0)
            &&& forall|key: Seq<char>|
                key != "view"@ ==> #[trigger] carried.get(key) == value.get(key)
        },
{
    law_view_shows_its_session(value.get("view"@)->0);
}

/// A view is answered as it is shown, with the revision of its history as the tag
/// where it has one; one that cannot be shown is an error of the server.
pub proof fn law_view_is_answered(view: JsonModel)
    ensures
        has_marks(view) ==> view_response(view).status == 200 && view_response(view).body
            == business_view(view),
        !has_marks(view) ==> view_response(view).status == 500 && view_tag(view) is None,
        has_marks(view) ==> view_tag(view) == (match part(view, "session"@).get(
            "historyRevision"@,
        ) {
            Some(JsonModel::String(revision)) => Some(seq!['"'] + revision + seq!['"']),
            _ => None,
        }),
{
    law_view_shows_its_session(view);
}

} // verus!
