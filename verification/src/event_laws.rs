//! Who is told what of the events of the connection.
use crate::events::{
    connection_error_event, connection_event, cursor_text, directed, event_owner, event_position,
    global_business, is_auth_success, is_sent, opened_session, reached_after, reset_reads_back,
    session_business, session_reset, text_position, visible_text_session, Position,
};
use crate::json::{is_plain, json_of_text, text_of_json, JsonModel, MAX_NESTING};
use crate::text::decimal_text;
use vstd::prelude::*;

verus! {

/// Whether an event is of a kind.
pub open spec fn is_of_kind(event: JsonModel, kind: Seq<char>) -> bool {
    event.get("type"@) == Some(JsonModel::String(kind))
}

/// Whether an event is business of its session: a change, the end or the failure
/// of a turn, or the retirement of the session.
pub open spec fn is_session_news(event: JsonModel) -> bool {
    ||| is_of_kind(event, "bridge/session_delta"@)
    ||| is_of_kind(event, "bridge/session_turn_complete"@)
    ||| is_of_kind(event, "bridge/session_turn_failed"@)
    ||| is_of_kind(event, "bridge/session_retired"@)
}

/// The news of a session are handed to its readers as they are, and to the readers
/// of no other session; so is a reset. Each reader sees them. Nothing else is seen.
pub proof fn law_session_news_reach_their_readers(
    text: Seq<char>,
    event: JsonModel,
    session_id: Seq<char>,
)
    requires
        json_of_text(text) == Some(event),
    ensures
        is_session_news(event) && event.get("sessionId"@) == Some(JsonModel::String(session_id))
            ==> session_business(text, event) == Some((session_id, text)),
        visible_text_session(text) == Some(session_id) <==> (is_session_news(event) || is_of_kind(
            event,
            "bridge/session_reset"@,
        )) && event.get("sessionId"@) == Some(JsonModel::String(session_id)),
        session_business(text, event) matches Some((id, _)) ==> event.get("sessionId"@) == Some(
            JsonModel::String(id),
        ) && (is_session_news(event) || is_of_kind(event, "bridge/session_view"@)),
{
    reveal_strlit("bridge/session_delta");
    reveal_strlit("bridge/session_turn_complete");
    reveal_strlit("bridge/session_turn_failed");
    reveal_strlit("bridge/session_retired");
    reveal_strlit("bridge/session_view");
    reveal_strlit("bridge/session_reset");
    assert("bridge/session_delta"@.len() == 20);
    assert("bridge/session_turn_complete"@.len() == 28);
    assert("bridge/session_turn_failed"@.len() == 26);
    assert("bridge/session_retired"@.len() == 22);
    assert("bridge/session_view"@.len() == 19);
    assert("bridge/session_reset"@.len() == 20);
    assert("bridge/session_delta"@[15] == 'd');
    assert("bridge/session_reset"@[15] == 'r');
}

proof fn lemma_plain_in_more_levels(json: JsonModel, levels: int, more: int)
    requires
        is_plain(json, levels),
        levels <= more,
    ensures
        is_plain(json, more),
    decreases json,
{
    match json {
        JsonModel::Array(items) => {
            assert forall|i: int| 0 <= i < items.len() implies is_plain(
                #[trigger] items[i],
                more - 1,
            ) by {
                lemma_plain_in_more_levels(items[i], levels - 1, more - 1);
            }
        },
        JsonModel::Object(fields) => {
            assert forall|key: Seq<char>| fields.contains_key(key) implies is_plain(
                #[trigger] fields[key],
                more - 1,
            ) by {
                lemma_plain_in_more_levels(fields[key], levels - 1, more - 1);
            }
        },
        _ => {},
    }
}

/// Whatever is handed out for a session is seen by the readers of that session,
/// be it news of the session or the reset that stands for a full view. Of a view
/// this holds where the event is plain, so that the reset reads back.
pub proof fn law_whatever_is_handed_out_is_seen(
    text: Seq<char>,
    event: JsonModel,
    session_id: Seq<char>,
    handed: Seq<char>,
)
    requires
        json_of_text(text) == Some(event),
        session_business(text, event) == Some((session_id, handed)),
        reset_reads_back(event, handed),
        is_session_news(event) || is_plain(event, MAX_NESTING as int),
    ensures
        visible_text_session(handed) == Some(session_id),
        is_session_news(event) ==> handed == text,
        !is_session_news(event) ==> (text_position(handed) matches Some(position) && {
            let view = event.get("view"@)->0;
            let session = view.get("session"@)->0;
            &&& view.get("bridgeEpoch"@) == Some(JsonModel::String(position.epoch))
            &&& session.get("incarnation"@) == Some(
                JsonModel::Integer(position.incarnation as int),
            )
            &&& session.get("viewRevision"@) == Some(JsonModel::Integer(position.revision as int))
        }),
{
    reveal_strlit("bridge/session_delta");
    reveal_strlit("bridge/session_turn_complete");
    reveal_strlit("bridge/session_turn_failed");
    reveal_strlit("bridge/session_retired");
    reveal_strlit("bridge/session_view");
    reveal_strlit("bridge/session_reset");
    assert("bridge/session_delta"@.len() == 20);
    assert("bridge/session_turn_complete"@.len() == 28);
    assert("bridge/session_turn_failed"@.len() == 26);
    assert("bridge/session_retired"@.len() == 22);
    assert("bridge/session_view"@.len() == 19);
    assert("bridge/session_reset"@.len() == 20);
    assert("bridge/session_delta"@[15] == 'd');
    assert("bridge/session_reset"@[15] == 'r');
    law_session_news_reach_their_readers(text, event, session_id);
    if !is_session_news(event) {
        let view = event.get("view"@)->0;
        let session = view.get("session"@)->0;
        let reset = session_reset(session_id, view)->0;
        lemma_reset_is_told(session_id, view);
        lemma_reset_is_plain(session_id, view, event);
        assert(json_of_text(handed) == Some(reset));
        law_session_news_reach_their_readers(handed, reset, session_id);
    }
}

proof fn lemma_reset_is_plain(session_id: Seq<char>, view: JsonModel, event: JsonModel)
    requires
        is_plain(event, MAX_NESTING as int),
        event.get("view"@) == Some(view),
        session_reset(session_id, view) is Some,
    ensures
        is_plain(session_reset(session_id, view)->0, MAX_NESTING as int),
{
    reveal_strlit("type");
    reveal_strlit("bridgeEpoch");
    reveal_strlit("sessionId");
    reveal_strlit("sessionIncarnation");
    reveal_strlit("viewRevision");
    reveal_strlit("historyRevision");
    reveal_strlit("phase");
    reveal_strlit("syncError");
    reveal_strlit("$serde_json::private::RawValue");
    assert("type"@.len() == 4);
    assert("bridgeEpoch"@.len() == 11);
    assert("sessionId"@.len() == 9);
    assert("sessionIncarnation"@.len() == 18);
    assert("viewRevision"@.len() == 12);
    assert("historyRevision"@.len() == 15);
    assert("phase"@.len() == 5);
    assert("syncError"@.len() == 9);
    assert("$serde_json::private::RawValue"@.len() == 30);
    assert("sessionId"@[1] == 'e');
    assert("syncError"@[1] == 'y');
    let session = view.get("session"@)->0;
    let reset = session_reset(session_id, view)->0;
    let fields = reset.as_object()->0;
    let levels = MAX_NESTING as int;
    assert(is_plain(event.as_object()->0["view"@], levels - 1));
    assert(is_plain(view.as_object()->0["session"@], levels - 2));
    let parts = session.as_object()->0;
    assert forall|key: Seq<char>| fields.contains_key(key) implies is_plain(
        #[trigger] fields[key],
        levels - 1,
    ) by {
        if key == "historyRevision"@ || key == "phase"@ || key == "syncError"@ {
            if parts.contains_key(key) {
                assert(is_plain(parts[key], levels - 3));
                lemma_plain_in_more_levels(parts[key], levels - 3, levels - 1);
            }
        }
    }
}

proof fn lemma_reset_is_told(session_id: Seq<char>, view: JsonModel)
    ensures
        session_reset(session_id, view) matches Some(reset) ==> {
            let session = view.get("session"@)->0;
            &&& reset is Object
            &&& is_of_kind(reset, "bridge/session_reset"@)
            &&& reset.get("sessionId"@) == Some(JsonModel::String(session_id))
            &&& reset.get("bridgeEpoch"@) == view.get("bridgeEpoch"@)
            &&& reset.get("sessionIncarnation"@) == session.get("incarnation"@)
            &&& reset.get("viewRevision"@) == session.get("viewRevision"@)
            &&& reset.get("historyRevision"@) == Some(
                match session.get("historyRevision"@) {
                    Some(value) => value,
                    None => JsonModel::Null,
                },
            )
            &&& reset.get("phase"@) == Some(
                match session.get("phase"@) {
                    Some(value) => value,
                    None => JsonModel::Null,
                },
            )
            &&& reset.get("syncError"@) == Some(
                match session.get("syncError"@) {
                    Some(value) => value,
                    None => JsonModel::Null,
                },
            )
            &&& view.get("session"@) is Some
        },
{
    reveal_strlit("type");
    reveal_strlit("bridgeEpoch");
    reveal_strlit("sessionId");
    reveal_strlit("sessionIncarnation");
    reveal_strlit("viewRevision");
    reveal_strlit("historyRevision");
    reveal_strlit("phase");
    reveal_strlit("syncError");
    assert("type"@.len() == 4);
    assert("bridgeEpoch"@.len() == 11);
    assert("sessionId"@.len() == 9);
    assert("sessionIncarnation"@.len() == 18);
    assert("viewRevision"@.len() == 12);
    assert("historyRevision"@.len() == 15);
    assert("phase"@.len() == 5);
    assert("syncError"@.len() == 9);
    assert("sessionId"@[1] == 'e');
    assert("syncError"@[1] == 'y');
}

/// A reset tells where a session stands, field by field as the view has it, and
/// nothing of its contents. It is made of every view that tells its epoch, and
/// the incarnation and the revision as numbers.
pub proof fn law_reset_tells_where_the_session_stands(session_id: Seq<char>, view: JsonModel)
    ensures
        session_reset(session_id, view) is Some <==> {
            &&& view.get("bridgeEpoch"@) matches Some(JsonModel::String(_))
            &&& view.get("session"@) matches Some(session) && {
                &&& session.get("incarnation"@) matches Some(JsonModel::Integer(n)) && 0 <= n
                    <= u64::MAX
                &&& session.get("viewRevision"@) matches Some(JsonModel::Integer(n)) && 0 <= n
                    <= u64::MAX
            }
        },
        session_reset(session_id, view) matches Some(reset) ==> {
            let session = view.get("session"@)->0;
            &&& is_of_kind(reset, "bridge/session_reset"@)
            &&& reset.get("sessionId"@) == Some(JsonModel::String(session_id))
            &&& reset.get("bridgeEpoch"@) == view.get("bridgeEpoch"@)
            &&& reset.get("sessionIncarnation"@) == session.get("incarnation"@)
            &&& reset.get("viewRevision"@) == session.get("viewRevision"@)
            &&& reset.get("historyRevision"@) == Some(
                match session.get("historyRevision"@) {
                    Some(value) => value,
                    None => JsonModel::Null,
                },
            )
            &&& reset.get("phase"@) == Some(
                match session.get("phase"@) {
                    Some(value) => value,
                    None => JsonModel::Null,
                },
            )
            &&& reset.get("syncError"@) == Some(
                match session.get("syncError"@) {
                    Some(value) => value,
                    None => JsonModel::Null,
                },
            )
            &&& forall|key: Seq<char>| #[trigger]
                reset.get(key) is Some ==> key == "type"@ || key == "sessionId"@ || key
                    == "bridgeEpoch"@ || key == "sessionIncarnation"@ || key == "viewRevision"@
                    || key == "historyRevision"@ || key == "phase"@ || key == "syncError"@
        },
{
    lemma_reset_is_told(session_id, view);
}

/// A view is handed to the readers of its session as the reset that stands for
/// it.
pub proof fn law_view_is_handed_out_as_a_reset(
    text: Seq<char>,
    event: JsonModel,
    session_id: Seq<char>,
    view: JsonModel,
)
    requires
        is_of_kind(event, "bridge/session_view"@),
        event.get("sessionId"@) == Some(JsonModel::String(session_id)),
        event.get("view"@) == Some(view),
    ensures
        session_business(text, event) == (match session_reset(session_id, view) {
            Some(reset) => Some((session_id, text_of_json(reset))),
            None => None,
        }),
{
    reveal_strlit("bridge/session_delta");
    reveal_strlit("bridge/session_turn_complete");
    reveal_strlit("bridge/session_turn_failed");
    reveal_strlit("bridge/session_retired");
    reveal_strlit("bridge/session_view");
    assert("bridge/session_delta"@.len() == 20);
    assert("bridge/session_turn_complete"@.len() == 28);
    assert("bridge/session_turn_failed"@.len() == 26);
    assert("bridge/session_retired"@.len() == 22);
    assert("bridge/session_view"@.len() == 19);
}

/// The place that a reset or a change leads to is the one that it tells; no other
/// event leads anywhere. A cursor names that place, part by part.
pub proof fn law_event_leads_where_it_tells(event: JsonModel, position: Position)
    ensures
        event_position(event) == Some(position) <==> {
            &&& is_of_kind(event, "bridge/session_reset"@) || is_of_kind(
                event,
                "bridge/session_delta"@,
            )
            &&& event.get("bridgeEpoch"@) == Some(JsonModel::String(position.epoch))
            &&& event.get("sessionIncarnation"@) == Some(
                JsonModel::Integer(position.incarnation as int),
            )
            &&& event.get("viewRevision"@) == Some(JsonModel::Integer(position.revision as int))
        },
        event_owner(event) == Some((position.epoch, position.incarnation)) <==> {
            &&& event.get("bridgeEpoch"@) == Some(JsonModel::String(position.epoch))
            &&& event.get("sessionIncarnation"@) == Some(
                JsonModel::Integer(position.incarnation as int),
            )
        },
        cursor_text(position) == position.epoch + seq![':'] + decimal_text(
            position.incarnation as nat,
        ) + seq![':'] + decimal_text(position.revision as nat),
{
    reveal_strlit("bridge/session_reset");
    reveal_strlit("bridge/session_delta");
    assert("bridge/session_reset"@.len() == 20);
    assert("bridge/session_delta"@.len() == 20);
    assert("bridge/session_reset"@[15] == 'r');
    assert("bridge/session_delta"@[15] == 'd');
    reveal_strlit(":");
    assert(":"@ =~= seq![':']);
}

/// A reader of a session is sent every event of that session that it sees, unless
/// it has reached that place already; from then on it has reached the place that
/// the event leads to. An event that leads nowhere is sent in any case.
pub proof fn law_new_events_are_sent(
    session_id: Seq<char>,
    reached: Option<Position>,
    event: Seq<char>,
)
    requires
        visible_text_session(event) == Some(session_id),
    ensures
        text_position(event) is None ==> is_sent(session_id, reached, event) && reached_after(
            reached,
            event,
        ) == reached,
        reached is None ==> is_sent(session_id, reached, event),
        text_position(event) matches Some(position) ==> {
            &&& reached_after(reached, event) == Some(position)
            &&& is_sent(session_id, reached, event) <==> (reached matches Some(place)
                ==> place.epoch != position.epoch || place.incarnation != position.incarnation
                || place.revision < position.revision)
        },
{
}

/// Which session an event opens: the one of the response of a creation or a fork,
/// or the one that was attached.
pub proof fn law_opening_event_names_its_session(event: JsonModel, session_id: Seq<char>)
    ensures
        opened_session(event) == Some(session_id) <==> {
            ||| (is_of_kind(event, "acp/session_created"@) || is_of_kind(
                event,
                "acp/session_forked"@,
            )) && event.get("response"@) is Some && event.get("response"@)->0.get("sessionId"@)
                == Some(JsonModel::String(session_id))
            ||| is_of_kind(event, "acp/session_attached"@) && event.get("sessionId"@) == Some(
                JsonModel::String(session_id),
            )
        },
{
    reveal_strlit("acp/session_created");
    reveal_strlit("acp/session_forked");
    reveal_strlit("acp/session_attached");
    assert("acp/session_created"@.len() == 19);
    assert("acp/session_forked"@.len() == 18);
    assert("acp/session_attached"@.len() == 20);
}

/// An event that is directed to one subscriber tells whom and what.
pub proof fn law_directed_event_names_its_subscriber(event: JsonModel, id: u64, inner: JsonModel)
    ensures
        directed(event) == Some((id, inner)) <==> is_of_kind(event, "bridge/internal_direct"@)
            && event.get("subscriberId"@) == Some(JsonModel::Integer(id as int)) && event.get(
            "event"@,
        ) == Some(inner),
        is_auth_success(event) <==> is_of_kind(event, "bridge/auth_terminal_exited"@)
            && event.get("status"@) == Some(JsonModel::String("succeeded"@)),
{
}

/// The readers of the connection are told its phase, an error of it, and as they
/// are the changes of the catalog and all of a login. They are told nothing of
/// the requests of others.
pub proof fn law_connection_news_reach_their_readers(text: Seq<char>, event: JsonModel)
    ensures
        is_of_kind(event, "bridge/phase"@) ==> global_business(text, event) == Some(
            text_of_json(connection_event(event)),
        ),
        is_of_kind(event, "bridge/catalog_changed"@) || is_of_kind(event, "acp/authenticated"@)
            || is_of_kind(event, "acp/logged_out"@) || is_of_kind(
            event,
            "bridge/auth_terminal_started"@,
        ) || is_of_kind(event, "bridge/auth_terminal_output"@) || is_of_kind(
            event,
            "bridge/auth_terminal_exited"@,
        ) ==> global_business(text, event) == Some(text),
        is_of_kind(event, "bridge/error"@) && event.get("requestId"@) is None && event.get(
            "operation"@,
        ) is None ==> global_business(text, event) == Some(
            text_of_json(connection_error_event(event)),
        ),
        is_of_kind(event, "bridge/error"@) && (event.get("requestId"@) is Some || event.get(
            "operation"@,
        ) is Some) ==> global_business(text, event) is None,
        !(is_of_kind(event, "bridge/phase"@) || is_of_kind(event, "bridge/error"@) || is_of_kind(
            event,
            "bridge/catalog_changed"@,
        ) || is_of_kind(event, "acp/authenticated"@) || is_of_kind(event, "acp/logged_out"@)
            || is_of_kind(event, "bridge/auth_terminal_started"@) || is_of_kind(
            event,
            "bridge/auth_terminal_output"@,
        ) || is_of_kind(event, "bridge/auth_terminal_exited"@)) ==> global_business(text, event)
            is None,
        is_of_kind(connection_event(event), "bridge/connection"@),
        connection_event(event).get("phase"@) == Some(
            match event.get("phase"@) {
                Some(value) => value,
                None => JsonModel::Null,
            },
        ),
        is_of_kind(connection_error_event(event), "bridge/connection_error"@),
        connection_error_event(event).get("message"@) == Some(
            match event.get("message"@) {
                Some(value) => value,
                None => JsonModel::Null,
            },
        ),
        connection_error_event(event).get("code"@) == Some(
            match event.get("code"@) {
                Some(value) => value,
                None => JsonModel::Null,
            },
        ),
        connection_error_event(event).get("data"@) == Some(
            match event.get("data"@) {
                Some(value) => value,
                None => JsonModel::Null,
            },
        ),
{
    reveal_strlit("bridge/phase");
    reveal_strlit("bridge/catalog_changed");
    reveal_strlit("acp/authenticated");
    reveal_strlit("acp/logged_out");
    reveal_strlit("bridge/auth_terminal_started");
    reveal_strlit("bridge/auth_terminal_output");
    reveal_strlit("bridge/auth_terminal_exited");
    reveal_strlit("bridge/error");
    reveal_strlit("type");
    reveal_strlit("phase");
    reveal_strlit("message");
    reveal_strlit("code");
    reveal_strlit("data");
    assert("bridge/phase"@.len() == 12);
    assert("bridge/catalog_changed"@.len() == 22);
    assert("acp/authenticated"@.len() == 17);
    assert("acp/logged_out"@.len() == 14);
    assert("bridge/auth_terminal_started"@.len() == 28);
    assert("bridge/auth_terminal_output"@.len() == 27);
    assert("bridge/auth_terminal_exited"@.len() == 27);
    assert("bridge/error"@.len() == 12);
    assert("type"@.len() == 4);
    assert("phase"@.len() == 5);
    assert("message"@.len() == 7);
    assert("code"@.len() == 4);
    assert("data"@.len() == 4);
    assert("bridge/phase"@[7] == 'p');
    assert("bridge/error"@[7] == 'e');
    assert("bridge/auth_terminal_output"@[21] == 'o');
    assert("bridge/auth_terminal_exited"@[21] == 'e');
    assert("type"@[0] == 't');
    assert("code"@[0] == 'c');
    assert("data"@[0] == 'd');
}

} // verus!
