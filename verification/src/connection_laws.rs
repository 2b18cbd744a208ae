//! What is known of the connection, what a state or a change of the sessions
//! brings, what a terminal shows, and who is let in.
use crate::assets::{asked_file, is_api_path, served_file};
use crate::bootstrap::{bootstrapped, BootstrapModel};
use crate::codec::{base64_bytes, base64_text, lossy_text, url_parts, utf8_stop};
use crate::event_laws::is_of_kind;
use crate::fold::{
    cut_output, folded_terminal, joined_output, retained_output, terminal_output,
    without_torn_start,
};
use crate::json::{json_of_text, text_of_json, JsonModel};
use crate::observation::{handshake_after, HandshakeEventModel, HandshakeModel, HandshakeStage};
use crate::origin::{is_allowed, is_direct, normal_origin};
use crate::projection::{
    applied, delta_event, payload_of, projected, snapshot_event, PayloadModel, RuntimeEventModel,
};
use crate::runtime_types::{DeltaModel, RuntimeDelta, RuntimeSnapshot, SnapshotModel};
use crate::wire::Wire;
use vstd::prelude::*;
use vstd::utf8::*;

verus! {

/// What is known of the connection is what it told last: who it is, what it can
/// do, its phase, its error, and of a login all events. An error is forgotten when
/// the connection is ready, and ends the connection where the phase says so. Each
/// event changes only what it tells; an error of a request changes nothing.
pub proof fn law_connection_is_known_by_its_last_events(
    known: BootstrapModel,
    text: Seq<char>,
    event: JsonModel,
)
    ensures
        ({
            let next = bootstrapped(known, text, event);
            let hello = is_of_kind(event, "bridge/hello"@);
            let initialized = is_of_kind(event, "acp/initialized"@);
            let error = is_of_kind(event, "bridge/error"@) && event.get("requestId"@) is None
                && event.get("operation"@) is None;
            let phase = is_of_kind(event, "bridge/phase"@);
            let ready = event.get("phase"@) == Some(JsonModel::String("ready"@));
            let failed = event.get("phase"@) == Some(JsonModel::String("error"@));
            let login = is_of_kind(event, "acp/authenticated"@) || is_of_kind(
                event,
                "acp/logged_out"@,
            ) || is_of_kind(event, "bridge/auth_terminal_started"@) || is_of_kind(
                event,
                "bridge/auth_terminal_output"@,
            ) || is_of_kind(event, "bridge/auth_terminal_exited"@);
            &&& next.hello == (if hello {
                Some(text)
            } else {
                known.hello
            })
            &&& next.initialized == (if initialized {
                Some(text)
            } else {
                known.initialized
            })
            &&& next.error == (if error {
                Some(text)
            } else if phase && ready {
                None
            } else {
                known.error
            })
            &&& next.phase == (if phase {
                Some(text)
            } else {
                known.phase
            })
            &&& next.terminal_error == (if phase {
                failed
            } else {
                known.terminal_error
            })
            &&& !login ==> next.auth_events == known.auth_events && next.auth_event_bytes
                == known.auth_event_bytes
        }),
{
    reveal_strlit("bridge/hello");
    reveal_strlit("acp/initialized");
    reveal_strlit("bridge/error");
    reveal_strlit("bridge/phase");
    reveal_strlit("acp/authenticated");
    reveal_strlit("acp/logged_out");
    reveal_strlit("bridge/auth_terminal_started");
    reveal_strlit("bridge/auth_terminal_output");
    reveal_strlit("bridge/auth_terminal_exited");
    reveal_strlit("ready");
    reveal_strlit("error");
    assert("bridge/hello"@.len() == 12);
    assert("acp/initialized"@.len() == 15);
    assert("bridge/error"@.len() == 12);
    assert("bridge/phase"@.len() == 12);
    assert("acp/authenticated"@.len() == 17);
    assert("acp/logged_out"@.len() == 14);
    assert("bridge/auth_terminal_started"@.len() == 28);
    assert("bridge/auth_terminal_output"@.len() == 27);
    assert("bridge/auth_terminal_exited"@.len() == 27);
    assert("ready"@.len() == 5);
    assert("error"@.len() == 5);
    assert("bridge/hello"@[7] == 'h');
    assert("bridge/error"@[7] == 'e');
    assert("bridge/phase"@[7] == 'p');
    assert("bridge/auth_terminal_output"@[21] == 'o');
    assert("bridge/auth_terminal_exited"@[21] == 'e');
    assert("ready"@[0] == 'r');
    assert("error"@[0] == 'e');
}

/// An event carries the state of all sessions, or a change of it, by its kind; and
/// what it carries is its value.
pub proof fn law_event_carries_its_value(text: Seq<char>, event: JsonModel)
    requires
        json_of_text(text) == Some(event),
    ensures
        is_of_kind(event, "bridge/internal_runtime_snapshot"@) ==> payload_of(text)
            == PayloadModel::Snapshot(event.get("value"@)),
        is_of_kind(event, "bridge/internal_runtime_delta"@) ==> payload_of(text)
            == PayloadModel::Delta(event.get("value"@)),
        !is_of_kind(event, "bridge/internal_runtime_snapshot"@) && !is_of_kind(
            event,
            "bridge/internal_runtime_delta"@,
        ) ==> payload_of(text) == PayloadModel::Other,
{
    reveal_strlit("bridge/internal_runtime_snapshot");
    reveal_strlit("bridge/internal_runtime_delta");
    assert("bridge/internal_runtime_snapshot"@.len() == 32);
    assert("bridge/internal_runtime_delta"@.len() == 29);
}

/// Whether a state is another one without the terminals that are released there.
pub open spec fn is_without_released(shown: SnapshotModel, from: SnapshotModel) -> bool {
    &&& shown.epoch == from.epoch
    &&& shown.through_seq == from.through_seq
    &&& shown.connection_revision == from.connection_revision
    &&& shown.request_elicitations == from.request_elicitations
    &&& shown.request_url_flows == from.request_url_flows
    &&& forall|id: Seq<char>| #[trigger]
        shown.sessions.contains_key(id) == from.sessions.contains_key(id)
    &&& forall|id: Seq<char>| #[trigger]
        shown.sessions.contains_key(id) ==> {
            let a = shown.sessions[id];
            let b = from.sessions[id];
            &&& a.session_id == b.session_id && a.incarnation == b.incarnation && a.revision
                == b.revision && a.cwd == b.cwd && a.session == b.session
            &&& a.control_state == b.control_state && a.lifecycle == b.lifecycle && a.active_turn
                == b.active_turn && a.operation == b.operation
            &&& a.permissions == b.permissions && a.elicitations == b.elicitations && a.url_flows
                == b.url_flows
            &&& a.history_revision == b.history_revision && a.phase == b.phase && a.sync_error
                == b.sync_error
        }
    &&& forall|id: Seq<char>, key: Seq<char>| #[trigger]
        shown.sessions[id].terminals.contains_key(key) && shown.sessions.contains_key(id) ==> {
            &&& from.sessions[id].terminals.contains_key(key)
            &&& shown.sessions[id].terminals[key] == from.sessions[id].terminals[key]
            &&& from.sessions[id].terminals[key].get("released"@) != Some(JsonModel::Bool(true))
        }
    &&& forall|id: Seq<char>, key: Seq<char>| #[trigger]
        from.sessions[id].terminals.contains_key(key) && shown.sessions.contains_key(id)
            && from.sessions[id].terminals[key].get("released"@) != Some(JsonModel::Bool(true))
            ==> shown.sessions[id].terminals.contains_key(key)
}

/// A state of the sessions that arrives is taken over, but for released terminals,
/// and is told as it was taken over. A change that fits is taken in and told as it
/// came; anything that does not fit makes the state unknown and is not told. Other
/// events leave it.
pub proof fn law_state_and_changes_are_taken_over(
    projection: Option<SnapshotModel>,
    snapshot: SnapshotModel,
    delta: DeltaModel,
)
    ensures
        ({
            let whole = projected(projection, RuntimeEventModel::Snapshot(Some(snapshot)));
            let step = projected(projection, RuntimeEventModel::Delta(Some(delta)));
            let other = projected(projection, RuntimeEventModel::Other);
            let taken = match projection {
                Some(known) => applied(known, delta),
                None => None,
            };
            &&& whole.recognized && step.recognized && !other.recognized
            &&& whole.projection matches Some(shown) && is_without_released(shown, snapshot)
            &&& whole.public_event == Some(text_of_json(snapshot_event(whole.projection->0)))
            &&& taken is None ==> step.projection is None && step.public_event is None
            &&& taken matches Some(next) ==> (step.projection matches Some(shown)
                && is_without_released(shown, next)) && step.public_event == Some(
                text_of_json(delta_event(delta)),
            )
            &&& other.projection == projection && other.public_event is None
            &&& projected(projection, RuntimeEventModel::Snapshot(None)).projection is None
            &&& projected(projection, RuntimeEventModel::Delta(None)).projection is None
            &&& is_of_kind(snapshot_event(snapshot), "bridge/runtime_snapshot"@)
            &&& snapshot_event(snapshot).get("snapshot"@) == Some(
                <RuntimeSnapshot as Wire>::wire(snapshot),
            )
            &&& is_of_kind(delta_event(delta), "bridge/runtime_delta"@)
            &&& delta_event(delta).get("delta"@) == Some(<RuntimeDelta as Wire>::wire(delta))
        }),
{
    reveal_strlit("type");
    reveal_strlit("snapshot");
    reveal_strlit("delta");
    assert("type"@.len() == 4);
    assert("snapshot"@.len() == 8);
    assert("delta"@.len() == 5);
}

/// A terminal shows all that is told of it, but for its output, which is gathered:
/// what is told is added to what was there where it says so, and replaces it
/// otherwise. The notes on how to gather it are not shown.
pub proof fn law_terminal_shows_what_is_told(
    previous: Option<JsonModel>,
    incoming: JsonModel,
    key: Seq<char>,
)
    requires
        incoming is Object,
    ensures
        ({
            let shown = folded_terminal(previous, incoming);
            &&& key != "output"@ && key != "outputBytes"@ && key != "outputAppend"@ && key
                != "retainedBytes"@ ==> shown.get(key) == incoming.get(key)
            &&& shown.get("outputAppend"@) is None
            &&& shown.get("retainedBytes"@) is None
            &&& shown.get("outputBytes"@) == Some(
                JsonModel::String(base64_text(retained_output(previous, incoming))),
            )
            &&& previous is Some && incoming.get("outputAppend"@) == Some(JsonModel::Bool(true))
                ==> joined_output(previous, incoming) == terminal_output(previous->0)
                + terminal_output(incoming)
            &&& previous is None || incoming.get("outputAppend"@) != Some(JsonModel::Bool(true))
                ==> joined_output(previous, incoming) == terminal_output(incoming)
        }),
{
    reveal_strlit("output");
    reveal_strlit("outputBytes");
    reveal_strlit("outputAppend");
    reveal_strlit("retainedBytes");
    assert("output"@.len() == 6);
    assert("outputBytes"@.len() == 11);
    assert("outputAppend"@.len() == 12);
    assert("retainedBytes"@.len() == 13);
}

/// The output of a terminal is the bytes that it tells, or otherwise its text.
pub proof fn law_output_is_read(terminal: JsonModel)
    ensures
        terminal.get("outputBytes"@) matches Some(JsonModel::String(encoded)) ==> (base64_bytes(
            encoded,
        ) matches Some(bytes) ==> terminal_output(terminal) == bytes),
        !(terminal.get("outputBytes"@) matches Some(JsonModel::String(_))) ==> terminal_output(
            terminal,
        ) == (match terminal.get("output"@) {
            Some(JsonModel::String(text)) => encode_utf8(text),
            _ => Seq::empty(),
        }),
{
}

/// Of the gathered output the last bytes are retained, as many as may be, without
/// the rest of a character that was cut; all of it where no limit is told.
pub proof fn law_last_output_is_retained(previous: Option<JsonModel>, incoming: JsonModel)
    ensures
        ({
            let all = joined_output(previous, incoming);
            let kept = retained_output(previous, incoming);
            &&& kept.len() <= all.len()
            &&& kept == all.skip(all.len() - kept.len())
            &&& kept.len() > 0 ==> !(0x80 <= kept[0] < 0xc0)
            &&& incoming.get("retainedBytes"@) is None && all.len() > 0 && !(0x80 <= all[0] < 0xc0)
                ==> kept == all
            &&& incoming.get("retainedBytes"@) matches Some(JsonModel::Integer(limit)) ==> (0
                <= limit <= usize::MAX && limit <= u64::MAX ==> kept.len() <= limit)
        }),
{
    let all = joined_output(previous, incoming);
    let cut = cut_output(all, incoming);
    lemma_torn_start(cut);
    let kept = retained_output(previous, incoming);
    assert(cut =~= all.skip(all.len() - cut.len()));
    assert(kept =~= all.skip(all.len() - kept.len()));
}

proof fn lemma_torn_start(bytes: Seq<u8>)
    ensures
        ({
            let rest = without_torn_start(bytes);
            &&& rest.len() <= bytes.len()
            &&& rest == bytes.skip(bytes.len() - rest.len())
            &&& rest.len() > 0 ==> !(0x80 <= rest[0] < 0xc0)
            &&& bytes.len() > 0 && !(0x80 <= bytes[0] < 0xc0) ==> rest == bytes
        }),
    decreases bytes.len(),
{
    let rest = without_torn_start(bytes);
    if bytes.len() > 0 && 0x80 <= bytes[0] < 0xc0 {
        lemma_torn_start(bytes.drop_first());
        assert(rest =~= bytes.skip(bytes.len() - rest.len()));
    } else {
        assert(rest =~= bytes.skip(0));
    }
}

/// The text of a terminal is that of its retained output. While it runs, a last
/// character of which only the first bytes are there is not shown yet; once it has
/// exited or is released everything is shown.
pub proof fn law_terminal_shows_whole_characters(previous: Option<JsonModel>, incoming: JsonModel)
    requires
        incoming is Object,
    ensures
        ({
            let kept = retained_output(previous, incoming);
            let over = (incoming.get("exitStatus"@) is Some && incoming.get("exitStatus"@) != Some(
                JsonModel::Null,
            )) || incoming.get("released"@) == Some(JsonModel::Bool(true));
            let text = folded_terminal(previous, incoming).get("output"@);
            &&& over ==> text == Some(JsonModel::String(lossy_text(kept)))
            &&& !over ==> text == Some(
                JsonModel::String(
                    lossy_text(
                        match utf8_stop(kept) {
                            Some((good, true)) => kept.take(good as int),
                            _ => kept,
                        },
                    ),
                ),
            )
        }),
{
    reveal_strlit("output");
    reveal_strlit("outputBytes");
    reveal_strlit("outputAppend");
    reveal_strlit("retainedBytes");
    assert("output"@.len() == 6);
    assert("outputBytes"@.len() == 11);
    assert("outputAppend"@.len() == 12);
    assert("retainedBytes"@.len() == 13);
}

/// A request without an origin is let in where it names one host, and that is this
/// machine or one that is configured. One with an origin is let in where that is
/// configured, or is the very origin of a server on this machine that it asks.
pub proof fn law_friendly_requests_are_let_in(
    allowed: Seq<Seq<char>>,
    host: Seq<char>,
    origin: Seq<char>,
)
    ensures
        normal_origin("http://"@ + host) matches Some(own) ==> {
            &&& is_direct(own) ==> is_allowed(allowed, seq![Some(host)], None, Seq::empty())
                && is_allowed(allowed, Seq::empty(), Some(host), Seq::empty())
            &&& is_direct(own) && normal_origin(origin) == Some(own) ==> is_allowed(
                allowed,
                seq![Some(host)],
                None,
                seq![Some(origin)],
            )
            &&& is_direct(own) && normal_origin(origin) is Some && allowed.contains(
                normal_origin(origin)->0,
            ) ==> is_allowed(allowed, seq![Some(host)], None, seq![Some(origin)])
            &&& is_direct(own) && normal_origin(origin) is Some && normal_origin(origin)->0 != own
                && !allowed.contains(normal_origin(origin)->0) ==> !is_allowed(
                allowed,
                seq![Some(host)],
                None,
                seq![Some(origin)],
            )
        },
        normal_origin("http://"@ + host) is None ==> !is_allowed(
            allowed,
            seq![Some(host)],
            None,
            Seq::empty(),
        ),
        url_parts(origin) matches Some(url) ==> (normal_origin(origin) is Some <==> (url.scheme
            == "http"@ || url.scheme == "https"@) && url.host is Some && url.username.len() == 0
            && url.password is None && url.path == "/"@ && url.query is None && url.fragment
            is None),
        url_parts(origin) is None ==> normal_origin(origin) is None,
        is_direct(origin) <==> (url_parts(origin) matches Some(url) && url.host is Some && (
        url.domain is None || url.domain == Some("localhost"@))),
{
}

/// A file is served under its path without the slashes before it, the start page
/// where the path is empty, and the start page too where there is no such file.
/// What is under the interface is no file.
pub proof fn law_file_is_served(path: Seq<char>, found: bool, has_index: bool)
    requires
        path.len() > 0 ==> path[0] != '/',
    ensures
        asked_file(seq!['/'] + path) == asked_file(path),
        path.len() > 0 ==> asked_file(path) == path,
        path.len() == 0 ==> asked_file(path) == "index.html"@,
        served_file(path, found, has_index) == (if found {
            Some(asked_file(path))
        } else if has_index {
            Some("index.html"@)
        } else {
            None
        }),
        is_api_path("/api/"@ + path) && is_api_path("/api"@),
        !is_api_path(path),
{
    reveal_strlit("/api/");
    reveal_strlit("/api");
    assert("/api"@.len() == 4);
    assert("/api"@[0] == '/');
    assert("/api/"@.len() == 5);
    assert("/api/"@[0] == '/');
    let with = seq!['/'] + path;
    assert(with.drop_first() =~= path);
    assert(("/api/"@ + path).take(5) =~= "/api/"@);
    if path.len() >= 5 && path.take(5) == "/api/"@ {
        assert(path.take(5)[0] == path[0]);
    }
}

/// How an observer comes to be registered, step by step.
pub proof fn law_handshake_goes_step_by_step(stage: HandshakeStage, event: HandshakeEventModel)
    ensures
        handshake_after(HandshakeStage::Sending, HandshakeEventModel::Sent)
            == HandshakeModel::Waiting(HandshakeStage::Answering),
        handshake_after(HandshakeStage::Answering, HandshakeEventModel::Accepted)
            == HandshakeModel::Waiting(HandshakeStage::Activating),
        handshake_after(
            HandshakeStage::Activating,
            HandshakeEventModel::Activated { cancelled: false },
        ) == HandshakeModel::Registered,
        handshake_after(
            HandshakeStage::Activating,
            HandshakeEventModel::Activated { cancelled: true },
        ) is Failed,
        handshake_after(stage, HandshakeEventModel::TimedOut) is Failed,
        handshake_after(stage, HandshakeEventModel::Cancelled) is Failed,
        handshake_after(HandshakeStage::Sending, HandshakeEventModel::NotSent) is Failed,
        handshake_after(HandshakeStage::Answering, HandshakeEventModel::AnswerLost) is Failed,
        handshake_after(HandshakeStage::Activating, HandshakeEventModel::ActivationLost) is Failed,
{
}

} // verus!
