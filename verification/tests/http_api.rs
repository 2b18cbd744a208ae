//! The HTTP interface: who is let in, what requests become, and what they are
//! answered.
use attyd::api::{
    api_bad_request, business_error, business_session_view, normalize_embedded_session_view,
    parse_strong_etag, read_cursor, session_observation_owner, session_view_error,
    valid_api_identifier, write_etag, ApiResponse, BridgeRequestError, HeaderText,
    SessionResourceOwner, SessionViewError, SessionViewQuery,
};
use attyd::assets::{
    asset_headers, requested_asset, route_frontend, served_asset, FrontendAction,
};
use attyd::json::{same_json, Json};
use attyd::origin::{normalize_origin, OriginPolicy};
use attyd::requests::{
    answer_request, answer_session_view, answer_turn, business_response, check_observe_request,
    check_turn_request, check_view_request, failure_message, health, plan_new_request,
    plan_request, ApiRequest, BridgeCall, CallFailure,
};

fn json(text: &str) -> Json {
    Json::parse(text).unwrap()
}

fn assert_answer(answer: &ApiResponse, status: u16, body: &str) {
    assert_eq!(answer.status, status);
    assert_eq!(answer.body.as_ref().unwrap().to_text(), json(body).to_text());
}

fn text(value: &str) -> String {
    value.to_string()
}

fn query(cwd: Option<&str>, epoch: Option<&str>, incarnation: Option<u64>) -> SessionViewQuery {
    SessionViewQuery {
        cwd: cwd.map(text),
        expected_epoch: epoch.map(text),
        expected_incarnation: incarnation,
    }
}

fn owner(epoch: &str, session_id: &str, incarnation: u64) -> SessionResourceOwner {
    SessionResourceOwner {
        epoch: text(epoch),
        session_id: text(session_id),
        incarnation,
    }
}

#[test]
fn origin_boundary_allows_direct_local_and_explicit_proxy_origins_only() {
    let policy = OriginPolicy {
        allowed_origins: vec!["https://agent.example".to_string()],
    };
    for (host, origin, allowed) in [
        ("127.0.0.1:7331", None, true),
        ("localhost:7331", Some("http://localhost:7331"), true),
        ("[::1]:7331", Some("http://[::1]:7331"), true),
        ("192.168.1.20:7331", Some("http://192.168.1.20:7331"), true),
        ("127.0.0.1:7331", Some("http://127.0.0.1:8000"), false),
        ("127.0.0.1:7331", Some("https://evil.example"), false),
        ("127.0.0.1:7331", Some("null"), false),
        ("evil.example:7331", None, false),
        ("evil.example:7331", Some("http://evil.example:7331"), false),
        ("localhost.evil.example:7331", None, false),
        ("user@localhost:7331", None, false),
        ("localhost:7331/path", None, false),
        ("agent.example", Some("https://agent.example"), true),
        ("agent.example:443", Some("https://agent.example"), true),
        ("agent.example:8443", Some("https://agent.example"), false),
        ("agent.example", Some("http://agent.example"), false),
        ("agent.example", None, true),
        ("127.0.0.1:7331", Some("https://agent.example"), true),
        ("evil.example", Some("https://agent.example"), false),
    ] {
        let origins: Vec<Option<String>> = origin.iter().map(|origin| Some(text(origin))).collect();
        assert_eq!(
            policy.allows(&vec![Some(text(host))], None, &origins),
            allowed,
            "Host={host}, Origin={origin:?}"
        );
    }
}

#[test]
fn origin_boundary_rejects_ambiguous_headers_and_ignores_forwarded_headers() {
    let policy = OriginPolicy {
        allowed_origins: Vec::new(),
    };
    for headers in [
        vec![("host", "localhost:7331"), ("host", "evil.example")],
        vec![
            ("host", "localhost:7331"),
            ("origin", "http://localhost:7331"),
            ("origin", "http://evil.example"),
        ],
        vec![
            ("host", "evil.example"),
            ("x-forwarded-host", "localhost:7331"),
        ],
        vec![
            ("host", "localhost:7331"),
            ("origin", "https://localhost:7331"),
            ("x-forwarded-proto", "https"),
        ],
    ] {
        let named = |wanted: &str| -> Vec<Option<String>> {
            headers
                .iter()
                .filter(|(name, _)| *name == wanted)
                .map(|(_, value)| Some(text(value)))
                .collect()
        };
        assert!(!policy.allows(&named("host"), None, &named("origin")));
    }
    assert!(!policy.allows(&Vec::new(), None, &Vec::new()));
    assert!(policy.allows(&Vec::new(), Some("localhost:7331"), &Vec::new()));
}

#[test]
fn headers_that_are_no_text_are_refused() {
    let policy = OriginPolicy {
        allowed_origins: Vec::new(),
    };
    assert!(!policy.allows(&vec![None], None, &Vec::new()));
    assert!(!policy.allows(&vec![Some(text("localhost:7331"))], None, &vec![None]));
}

#[test]
fn origins_have_one_form() {
    assert_eq!(
        normalize_origin("HTTPS://Agent.Example:443/").as_deref(),
        Some("https://agent.example")
    );
    assert_eq!(normalize_origin("https://agent.example/path"), None);
    assert_eq!(normalize_origin("ftp://agent.example"), None);
    assert_eq!(normalize_origin("https://user@agent.example"), None);
    assert_eq!(normalize_origin("not an origin"), None);
}

#[test]
fn turn_append_requires_a_strong_bounded_history_etag() {
    assert_eq!(
        parse_strong_etag("\"epoch:1:7\""),
        Some("epoch:1:7".to_string())
    );
    assert_eq!(parse_strong_etag("W/\"epoch:1:7\""), None);
    assert_eq!(parse_strong_etag("epoch:1:7"), None);
    assert_eq!(parse_strong_etag("\"\""), None);
}

#[test]
fn a_revision_comes_back_from_its_tag_up_to_the_limit() {
    assert_eq!(write_etag("revision"), "\"revision\"");
    let longest = "x".repeat(4_096);
    assert_eq!(parse_strong_etag(&write_etag(&longest)), Some(longest));
    assert_eq!(parse_strong_etag(&write_etag(&"x".repeat(4_097))), None);
    assert_eq!(parse_strong_etag("\""), None);
}

#[test]
fn observation_recovery_requires_a_valid_owner_and_rejects_malformed_cursors() {
    let asked = query(None, Some("epoch"), Some(7));
    let expected = owner("epoch", "session", 7);
    assert_eq!(
        session_observation_owner("session", &asked, HeaderText::Absent).unwrap(),
        Some(owner("epoch", "session", 7))
    );
    assert_eq!(
        session_observation_owner(
            "session",
            &query(None, None, None),
            HeaderText::Text("epoch:7:42")
        )
        .unwrap(),
        Some(expected)
    );
    for malformed in ["", "epoch", "epoch:7", "epoch:0:3", "epoch:7:bad", ":7:3"] {
        assert!(
            session_observation_owner("session", &asked, HeaderText::Text(malformed)).is_err()
        );
        assert!(session_observation_owner(
            "session",
            &query(None, None, None),
            HeaderText::Text(malformed)
        )
        .is_err());
    }
    let partial = query(None, Some("epoch"), None);
    assert!(partial.expected_owner("session").is_err());
}

#[test]
fn a_cursor_may_have_colons_in_its_epoch_and_is_bounded() {
    assert_eq!(
        read_cursor("session", "a:b:7:42"),
        Some(owner("a:b", "session", 7))
    );
    assert_eq!(read_cursor("session", "epoch:7:0"), None);
    assert_eq!(read_cursor("session", "epoch\0:7:1"), None);
    let longest = format!("{}:7:1", "e".repeat(1_024));
    assert!(read_cursor("session", &longest).is_some());
    assert_eq!(
        read_cursor("session", &format!("{}:7:1", "e".repeat(1_025))),
        None
    );
    assert_eq!(
        session_observation_owner("session", &query(None, None, None), HeaderText::Unreadable)
            .unwrap_err(),
        "invalid Last-Event-ID"
    );
}

#[test]
fn the_owner_of_the_query_counts_before_that_of_the_cursor() {
    let asked = query(None, Some("asked"), Some(3));
    assert_eq!(
        session_observation_owner("session", &asked, HeaderText::Text("epoch:7:42")).unwrap(),
        Some(owner("asked", "session", 3))
    );
    for malformed in [
        query(None, Some(""), Some(3)),
        query(None, Some("asked"), Some(0)),
        query(None, Some("as\0ked"), Some(3)),
        query(None, None, Some(3)),
    ] {
        assert_eq!(
            malformed.expected_owner("session").unwrap_err(),
            "expectedEpoch and expectedIncarnation must identify one session owner"
        );
    }
}

#[test]
fn rest_session_view_is_a_business_projection_without_legacy_runtime_envelopes() {
    let internal = json(
        r#"{
            "bridgeEpoch": "epoch",
            "session": {
                "sessionId": "session",
                "incarnation": 2,
                "viewRevision": 7,
                "historyRevision": "history-7",
                "phase": "running",
                "syncError": null,
                "activeTurn": { "operationId": "turn", "updates": [] },
                "turnOutcomes": [{
                    "operationId": "prior-turn",
                    "afterUpdate": 1,
                    "response": { "stopReason": "end_turn" }
                }]
            },
            "baseline": {
                "updates": [{ "sessionUpdate": "agent_message_chunk" }],
                "bytes": 42,
                "digest": "debug-only"
            },
            "terminals": {
                "released": { "output": "retained", "released": true },
                "overlap": { "output": "old", "released": true }
            },
            "live": {
                "cwd": "/workspace",
                "session": { "title": "Agent session" },
                "controlState": { "current_mode_update": { "currentModeId": "plan" } },
                "permissions": { "permission": { "request": {} } },
                "elicitations": {},
                "urlFlows": {},
                "terminals": {
                    "live": { "output": "running", "released": false },
                    "overlap": { "output": "current", "released": false }
                }
            }
        }"#,
    );
    let view = business_session_view(&internal).expect("valid internal projection");
    let terminal_output = |name: &str| {
        view.get("terminals")
            .unwrap()
            .get(name)
            .unwrap()
            .text_at("output")
            .unwrap()
            .to_string()
    };

    assert_eq!(view.text_at("sessionId"), Some("session"));
    assert_eq!(view.array_at("timeline").unwrap().len(), 1);
    assert_eq!(
        view.array_at("turnOutcomes").unwrap()[0].text_at("operationId"),
        Some("prior-turn")
    );
    assert_eq!(
        view.get("activeTurn").unwrap().text_at("operationId"),
        Some("turn")
    );
    assert_eq!(
        view.get("workspace").unwrap().text_at("cwd"),
        Some("/workspace")
    );
    assert_eq!(terminal_output("released"), "retained");
    assert_eq!(terminal_output("live"), "running");
    assert_eq!(terminal_output("overlap"), "current");
    assert!(view.get("baseline").is_none());
    assert!(view.get("live").is_none());
}

#[test]
fn a_view_without_its_marks_is_no_view() {
    let smallest = json(
        r#"{ "bridgeEpoch": "e", "session": { "sessionId": "s", "incarnation": 1, "viewRevision": 2, "phase": "ready" } }"#,
    );
    let view = business_session_view(&smallest).unwrap();
    assert_eq!(
        view.to_text(),
        json(
            r#"{ "bridgeEpoch": "e", "sessionId": "s", "sessionIncarnation": 1, "viewRevision": 2, "historyRevision": null, "phase": "ready", "syncError": null, "historyNotice": null, "timeline": [], "turnOutcomes": [], "activeTurn": null, "workspace": { "cwd": null, "session": null }, "controls": {}, "interactions": { "permissions": {}, "elicitations": {}, "urlFlows": {} }, "operation": null, "terminals": {} }"#
        )
        .to_text()
    );
    assert!(business_session_view(&json(r#"{ "bridgeEpoch": "e" }"#)).is_none());
    let embedded = Json::parse(&format!(
        r#"{{ "view": {}, "more": 1 }}"#,
        smallest.to_text()
    ))
    .unwrap();
    let normal = normalize_embedded_session_view(embedded).unwrap();
    assert!(same_json(normal.get("view").unwrap(), &view));
    assert_eq!(normal.get("more").unwrap().as_u64(), Some(1));
    assert!(normalize_embedded_session_view(json(r#"{ "view": {} }"#)).is_none());
    assert!(normalize_embedded_session_view(json("{}")).is_none());
}

#[test]
fn identifiers_are_counted_in_utf16_units() {
    assert!(!valid_api_identifier(""));
    assert!(valid_api_identifier(&"x".repeat(1_024)));
    assert!(!valid_api_identifier(&"x".repeat(1_025)));
    assert!(valid_api_identifier(&"😀".repeat(512)));
    assert!(!valid_api_identifier(&"😀".repeat(513)));
}

#[test]
fn errors_of_a_session_view_have_their_statuses() {
    assert_answer(
        &session_view_error(&SessionViewError::ConnectionReplaced {
            owner: owner("epoch", "session", 3),
            current_epoch: text("next"),
        }),
        409,
        r#"{ "error": "the observed Agent connection has been replaced", "code": "bridge_replaced", "sessionId": "session", "bridgeEpoch": "epoch", "sessionIncarnation": 3, "currentBridgeEpoch": "next" }"#,
    );
    assert_answer(
        &session_view_error(&SessionViewError::Retired(owner("epoch", "session", 3))),
        409,
        r#"{ "error": "the observed session owner has retired", "code": "session_retired", "sessionId": "session", "bridgeEpoch": "epoch", "sessionIncarnation": 3, "reason": "owner_retired" }"#,
    );
    assert_answer(
        &session_view_error(&SessionViewError::NotFound),
        404,
        r#"{ "error": "session was not found in the current agent workspace", "code": "session_not_found" }"#,
    );
    assert_answer(
        &session_view_error(&SessionViewError::unavailable("session is not materialized")),
        409,
        r#"{ "error": "session is not materialized" }"#,
    );
    assert_answer(
        &session_view_error(&SessionViewError::unavailable("bridge is not ready")),
        503,
        r#"{ "error": "bridge is not ready" }"#,
    );
}

#[test]
fn refusals_of_the_agent_show_their_data() {
    let mut error = BridgeRequestError {
        message: text("refused"),
        code: json("-32000"),
        data: None,
    };
    assert_answer(
        &business_error(&error),
        409,
        r#"{ "error": "refused", "message": "refused", "code": -32000, "data": null }"#,
    );
    error.data = Some(json(r#"{ "reason": "busy" }"#));
    assert_answer(
        &business_error(&error),
        409,
        r#"{ "error": "{\"reason\":\"busy\"}", "message": "refused", "code": -32000, "data": { "reason": "busy" } }"#,
    );
    assert_answer(&business_response(Ok(json("[1]"))), 200, "[1]");
    assert_eq!(business_response(Err(error)).status, 409);
    assert_answer(&api_bad_request("no"), 400, r#"{ "error": "no" }"#);
}

#[test]
fn requests_become_commands() {
    let command = |request: ApiRequest| plan_request(&request, "id").unwrap().command.to_text();
    for (request, expected) in [
        (
            ApiRequest::Authenticate { method_id: text("key") },
            r#"{ "type": "auth/authenticate", "requestId": "api-auth-id", "methodId": "key" }"#,
        ),
        (ApiRequest::Logout, r#"{ "type": "auth/logout", "requestId": "api-logout-id" }"#),
        (
            ApiRequest::StartAuthTerminal { method_id: text("key"), cols: 80, rows: 24 },
            r#"{ "type": "auth/terminal_start", "requestId": "api-terminal-id", "methodId": "key", "cols": 80, "rows": 24 }"#,
        ),
        (
            ApiRequest::WriteAuthTerminal { request_id: text("r"), data: text("y\n") },
            r#"{ "type": "auth/terminal_input", "requestId": "r", "data": "y\n" }"#,
        ),
        (
            ApiRequest::ResizeAuthTerminal { request_id: text("r"), cols: 1, rows: 2 },
            r#"{ "type": "auth/terminal_resize", "requestId": "r", "cols": 1, "rows": 2 }"#,
        ),
        (
            ApiRequest::CancelAuthTerminal { request_id: text("r") },
            r#"{ "type": "auth/terminal_cancel", "requestId": "r" }"#,
        ),
        (
            ApiRequest::SearchContext { session_id: text("s"), query: text("q") },
            r#"{ "type": "context/search", "requestId": "api-context-search-id", "sessionId": "s", "query": "q" }"#,
        ),
        (
            ApiRequest::ReadContext { session_id: text("s"), path: text("/f") },
            r#"{ "type": "context/read", "requestId": "api-context-read-id", "sessionId": "s", "path": "/f" }"#,
        ),
        (
            ApiRequest::ListSessions { cursor: None, expected_catalog_revision: None },
            r#"{ "type": "session/list", "requestId": "api-list-id" }"#,
        ),
        (
            ApiRequest::ListSessions {
                cursor: Some(text("c")),
                expected_catalog_revision: Some(text("7")),
            },
            r#"{ "type": "session/list", "requestId": "api-list-id", "cursor": "c", "expectedCatalogRevision": "7" }"#,
        ),
        (
            ApiRequest::CreateSession { cwd: Some(text("/w")) },
            r#"{ "type": "session/new", "requestId": "api-new-id", "cwd": "/w" }"#,
        ),
        (
            ApiRequest::DeleteSession { session_id: text("s") },
            r#"{ "type": "session/delete", "requestId": "api-delete-id", "sessionId": "s" }"#,
        ),
        (
            ApiRequest::CancelTurn { session_id: text("s"), operation_id: text("o") },
            r#"{ "type": "session/cancel", "sessionId": "s", "expectedOperationId": "o" }"#,
        ),
        (
            ApiRequest::ForkSession { session_id: text("s") },
            r#"{ "type": "session/fork", "requestId": "api-fork-id", "sessionId": "s" }"#,
        ),
        (
            ApiRequest::CloseSession { session_id: text("s") },
            r#"{ "type": "session/close", "requestId": "api-close-id", "sessionId": "s" }"#,
        ),
        (
            ApiRequest::SetMode { session_id: text("s"), mode_id: text("plan") },
            r#"{ "type": "session/set_mode", "requestId": "api-mode-id", "sessionId": "s", "modeId": "plan" }"#,
        ),
        (
            ApiRequest::SetConfig {
                session_id: text("s"),
                config_id: text("c"),
                value: json("true"),
            },
            r#"{ "type": "session/set_config_option", "requestId": "api-config-id", "sessionId": "s", "configId": "c", "value": true }"#,
        ),
        (
            ApiRequest::Respond {
                session_id: text("s"),
                interaction_id: text("p"),
                kind: text("permission"),
                outcome: Some(json(r#"{ "outcome": "selected" }"#)),
                response: None,
            },
            r#"{ "type": "permission/respond", "requestId": "api-interaction-id", "sessionId": "s", "permissionId": "p", "outcome": { "outcome": "selected" } }"#,
        ),
        (
            ApiRequest::Respond {
                session_id: text("s"),
                interaction_id: text("e"),
                kind: text("elicitation"),
                outcome: None,
                response: Some(json(r#"{ "action": "accept" }"#)),
            },
            r#"{ "type": "elicitation/respond", "requestId": "api-interaction-id", "sessionId": "s", "elicitationId": "e", "response": { "action": "accept" } }"#,
        ),
    ] {
        assert_eq!(command(request), json(expected).to_text());
    }
}

#[test]
fn malformed_requests_are_answered_at_once() {
    let respond = |kind: &str| ApiRequest::Respond {
        session_id: text("s"),
        interaction_id: text("i"),
        kind: text(kind),
        outcome: None,
        response: None,
    };
    for (request, problem) in [
        (
            ApiRequest::Authenticate { method_id: text("") },
            "invalid authentication method ID",
        ),
        (
            ApiRequest::StartAuthTerminal { method_id: text("key"), cols: 0, rows: 24 },
            "invalid terminal authentication parameters",
        ),
        (
            ApiRequest::WriteAuthTerminal { request_id: text(""), data: text("") },
            "invalid terminal request ID",
        ),
        (
            ApiRequest::ResizeAuthTerminal { request_id: text("r"), cols: 1, rows: 0 },
            "invalid terminal resize parameters",
        ),
        (
            ApiRequest::CancelAuthTerminal { request_id: text("") },
            "invalid terminal request ID",
        ),
        (
            ApiRequest::SearchContext { session_id: text("s"), query: "q".repeat(257) },
            "invalid context session or query",
        ),
        (
            ApiRequest::ReadContext { session_id: text("s"), path: text("") },
            "invalid session ID or context path",
        ),
        (
            ApiRequest::ReadContext { session_id: text("s"), path: "p".repeat(16_385) },
            "invalid session ID or context path",
        ),
        (ApiRequest::DeleteSession { session_id: text("") }, "invalid session ID"),
        (
            ApiRequest::CancelTurn { session_id: text("s"), operation_id: text("") },
            "invalid session or operation ID",
        ),
        (
            ApiRequest::SetMode { session_id: text("s"), mode_id: text("") },
            "invalid session or mode ID",
        ),
        (
            ApiRequest::SetConfig {
                session_id: text(""),
                config_id: text("c"),
                value: json("true"),
            },
            "invalid session or configuration ID",
        ),
        (
            ApiRequest::SetConfig {
                session_id: text("s"),
                config_id: text("c"),
                value: json("1"),
            },
            "configuration value must be a string or boolean",
        ),
        (respond("permission"), "permission response requires outcome"),
        (respond("elicitation"), "elicitation response requires response"),
        (respond("other"), "interaction kind must be permission or elicitation"),
    ] {
        let Err(answer) = plan_request(&request, "id") else {
            panic!("{problem}");
        };
        assert_answer(&answer, 400, &format!(r#"{{ "error": "{problem}" }}"#));
    }
}

#[test]
fn requests_get_identifiers_of_their_own() {
    let first = plan_new_request(&ApiRequest::Logout).unwrap_or_else(|_| panic!("well formed"));
    let second = plan_new_request(&ApiRequest::Logout).unwrap_or_else(|_| panic!("well formed"));
    assert_eq!(first.identifier.len(), "api-logout-".len() + 36);
    assert!(first.identifier.starts_with("api-logout-"));
    assert_eq!(&first.identifier[25..26], "4");
    assert_ne!(first.identifier, second.identifier);
    assert_eq!(first.command.text_at("requestId"), Some(first.identifier.as_str()));
}

#[test]
fn answers_depend_on_the_request() {
    let view = r#"{ "bridgeEpoch": "e", "session": { "sessionId": "s", "incarnation": 1, "viewRevision": 2, "phase": "ready" } }"#;
    let done = || Ok(json(r#"{ "done": true }"#));
    assert_answer(
        &answer_request(&ApiRequest::Logout, "id", done()),
        200,
        r#"{ "requestId": "id", "response": { "done": true } }"#,
    );
    assert_answer(
        &answer_request(
            &ApiRequest::StartAuthTerminal { method_id: text("key"), cols: 1, rows: 1 },
            "id",
            done(),
        ),
        202,
        r#"{ "requestId": "id" }"#,
    );
    let deleted = answer_request(&ApiRequest::DeleteSession { session_id: text("s") }, "id", done());
    assert_eq!(deleted.status, 204);
    assert!(deleted.body.is_none());
    assert_answer(
        &answer_request(&ApiRequest::CreateSession { cwd: None }, "id", done()),
        500,
        r#"{ "error": "bridge returned an invalid created session" }"#,
    );
    assert_answer(
        &answer_request(&ApiRequest::ForkSession { session_id: text("s") }, "id", done()),
        500,
        r#"{ "error": "bridge returned an invalid forked session" }"#,
    );
    let created = answer_request(
        &ApiRequest::CreateSession { cwd: None },
        "id",
        Ok(json(&format!(r#"{{ "view": {view} }}"#))),
    );
    assert_eq!(created.status, 201);
    assert_answer(
        &answer_request(&ApiRequest::CloseSession { session_id: text("s") }, "id", done()),
        200,
        r#"{ "done": true }"#,
    );
    let refused = Err(BridgeRequestError {
        message: text("no"),
        code: json("1"),
        data: None,
    });
    assert_eq!(answer_request(&ApiRequest::Logout, "id", refused).status, 409);
}

#[test]
fn views_and_observations_are_checked_first() {
    assert_eq!(
        check_view_request("s", &query(Some("/w"), Some("e"), Some(1))).unwrap(),
        Some(owner("e", "s", 1))
    );
    assert_eq!(check_view_request("s", &query(None, None, None)).unwrap(), None);
    assert_answer(
        &check_view_request("", &query(None, None, None)).unwrap_err(),
        400,
        r#"{ "error": "invalid session ID" }"#,
    );
    for cwd in ["", "/w\0"] {
        assert_answer(
            &check_view_request("s", &query(Some(cwd), None, None)).unwrap_err(),
            400,
            r#"{ "error": "invalid session cwd" }"#,
        );
    }
    let long = "w".repeat(16_385);
    assert!(check_view_request("s", &query(Some(&long), None, None)).is_err());
    let bare = check_observe_request("", &query(None, None, None), HeaderText::Absent).unwrap_err();
    assert_eq!(bare.status, 400);
    assert!(bare.body.is_none());
    assert_answer(
        &check_observe_request("s", &query(None, None, None), HeaderText::Text("bad")).unwrap_err(),
        400,
        r#"{ "error": "invalid Last-Event-ID" }"#,
    );
    assert_eq!(
        check_observe_request("s", &query(None, None, None), HeaderText::Text("e:1:2")).unwrap(),
        Some(owner("e", "s", 1))
    );
}

#[test]
fn a_view_carries_the_tag_that_a_turn_needs() {
    let view = json(
        r#"{ "bridgeEpoch": "e", "session": { "sessionId": "s", "incarnation": 1, "viewRevision": 2, "phase": "ready", "historyRevision": "h-9" } }"#,
    );
    let (answer, tag) = answer_session_view(&view);
    assert_eq!(answer.status, 200);
    let tag = tag.unwrap();
    assert_eq!(tag, "\"h-9\"");
    let prompt = vec![json(r#"{ "type": "text", "text": "hello" }"#)];
    let turn = check_turn_request(
        "s",
        HeaderText::Text(&tag),
        HeaderText::Text("intent"),
        &prompt,
    )
    .unwrap();
    assert_eq!(turn.history_revision, "h-9");
    assert_eq!(turn.client_intent_id, "intent");
    let (answer, tag) = answer_session_view(&json("{}"));
    assert_answer(
        &answer,
        500,
        r#"{ "error": "bridge returned an invalid session view" }"#,
    );
    assert_eq!(tag, None);
}

#[test]
fn turns_need_a_revision_an_intent_and_a_bounded_prompt() {
    let block = json(r#"{ "type": "text", "text": "hello" }"#);
    let one = vec![block.clone()];
    let check = |if_match, intent, prompt: &Vec<Json>| {
        check_turn_request("s", if_match, intent, prompt).unwrap_err()
    };
    assert_answer(
        &check_turn_request("", HeaderText::Absent, HeaderText::Absent, &one).unwrap_err(),
        400,
        r#"{ "error": "invalid session ID" }"#,
    );
    assert_answer(
        &check(HeaderText::Text("W/\"h\""), HeaderText::Text("intent"), &one),
        428,
        r#"{ "error": "If-Match with the current history revision is required" }"#,
    );
    assert_answer(
        &check(HeaderText::Text("\"h\""), HeaderText::Text(""), &one),
        400,
        r#"{ "error": "a bounded Idempotency-Key is required" }"#,
    );
    for count in [0, 65] {
        let prompt: Vec<Json> = (0..count).map(|_| block.clone()).collect();
        assert_answer(
            &check(HeaderText::Text("\"h\""), HeaderText::Text("intent"), &prompt),
            400,
            r#"{ "error": "prompt must contain between 1 and 64 content blocks" }"#,
        );
    }
    let full: Vec<Json> = (0..64).map(|_| block.clone()).collect();
    assert!(
        check_turn_request("s", HeaderText::Text("\"h\""), HeaderText::Text("intent"), &full)
            .is_ok()
    );
    assert_answer(&answer_turn(Ok(json(r#"{ "a": 1 }"#))), 202, r#"{ "a": 1 }"#);
    assert_answer(&answer_turn(Err(text("busy"))), 409, r#"{ "error": "busy" }"#);
}

#[test]
fn failures_of_a_call_are_told_apart() {
    for (call, failure, message) in [
        (BridgeCall::View, CallFailure::NotReady, "bridge is not ready"),
        (
            BridgeCall::View,
            CallFailure::NotAccepted,
            "bridge stopped before accepting the query",
        ),
        (
            BridgeCall::Turn,
            CallFailure::NotAnswered,
            "bridge stopped before admitting the turn",
        ),
        (BridgeCall::Business, CallFailure::TimedOut, "bridge request timed out"),
        (
            BridgeCall::Observation,
            CallFailure::DeliveryStopped,
            "observer delivery stopped before its snapshot cut",
        ),
        (
            BridgeCall::Observation,
            CallFailure::Cancelled,
            "session observation was cancelled",
        ),
    ] {
        assert_eq!(failure_message(&call, &failure), message);
    }
    assert_answer(
        &health(),
        200,
        r#"{ "ok": true, "protocol": "acp/v1", "backend": "rust" }"#,
    );
}

#[test]
fn files_are_served_with_their_type_and_never_in_a_frame() {
    assert_eq!(requested_asset("/"), "index.html");
    assert_eq!(requested_asset("//assets/app.js"), "assets/app.js");
    assert_eq!(served_asset("/missing", false, true), Some("index.html"));
    assert_eq!(served_asset("/app.css", true, true), Some("app.css"));
    assert_eq!(served_asset("/missing", false, false), None);
    let headers = asset_headers("index.html");
    assert_eq!(headers[0], ("content-type", text("text/html")));
    assert_eq!(
        headers[1],
        ("content-security-policy", text("frame-ancestors 'none'"))
    );
    assert_eq!(headers[2], ("x-frame-options", text("DENY")));
    assert_eq!(asset_headers("LICENSE")[0].1, "application/octet-stream");
}

#[test]
fn paths_of_the_interface_are_never_served_as_files() {
    for path in ["/api", "/api/unknown"] {
        let FrontendAction::Answer(answer) = route_frontend(path, true, true) else {
            panic!("{path} belongs to the interface");
        };
        assert_answer(&answer, 404, r#"{ "error": "API route not found" }"#);
    }
    assert!(matches!(route_frontend("/apix", true, true), FrontendAction::Forward));
    assert!(matches!(route_frontend("/", false, true), FrontendAction::Serve));
    assert!(matches!(route_frontend("/", false, false), FrontendAction::RefuseMethod));
}
