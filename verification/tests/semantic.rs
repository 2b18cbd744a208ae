//! What content, controls and session updates are accepted.
use attyd::json::Json;
use attyd::semantic::{
    validate_content_block, validate_prompt_response, validate_session_config_options,
    validate_session_config_reference, validate_session_controls, validate_session_mode_reference,
    validate_session_modes,
};
use attyd::session_update::{
    terminal_references, validate_and_track_session_update, validate_permission_request,
    SessionUpdateSemanticState, ToolStatus, TrackedCompaction,
};

const FORMER_CONTENT_BINARY_BYTES: usize = 3 * 1024 * 1024;
const FORMER_PROMPT_RESPONSE_BYTES: usize = 1_000_000;
const FORMER_CONTROL_IDENTIFIER_LENGTH: usize = 256;
const FORMER_COMPACTIONS: usize = 1_000;
const FORMER_TOOL_CALLS: usize = 10_000;
const FORMER_MESSAGES: usize = 10_000;
const FORMER_PLANS: usize = 1_000;

fn json(text: &str) -> Json {
    Json::parse(text).unwrap()
}

#[test]
fn session_indexes_accept_entities_beyond_former_turn_and_lifetime_limits() {
    let mut state = SessionUpdateSemanticState::default();
    for i in 0..FORMER_MESSAGES {
        state
            .messages
            .insert(&format!("m-{i}"), "agent_message_chunk".to_string());
    }
    for i in 0..FORMER_TOOL_CALLS {
        let status = ToolStatus {
            status: Some("completed".to_string()),
        };
        state.tool_calls.insert(&format!("t-{i}"), status);
    }
    for i in 0..FORMER_PLANS {
        state.plans.insert(&format!("p-{i}"), "removed".to_string());
    }
    for i in 0..FORMER_COMPACTIONS {
        let compaction = TrackedCompaction {
            status: "completed".to_string(),
            summary_bytes: 0,
        };
        state.compactions.insert(&format!("c-{i}"), compaction);
    }
    assert!(
        validate_and_track_session_update(
            &mut state,
            &json(r#"{ "sessionUpdate": "agent_message_chunk", "messageId": "new", "content": { "type": "text", "text": "over the current turn limit" } }"#)
        )
        .is_ok()
    );
    state.retire_turn();
    for update in [
        json(r#"{ "sessionUpdate": "agent_message_chunk", "messageId": "new", "content": { "type": "text", "text": "next turn" } }"#),
        json(r#"{ "sessionUpdate": "tool_call", "toolCallId": "new", "title": "Run" }"#),
        json(r#"{ "sessionUpdate": "plan_update", "plan": { "type": "markdown", "planId": "new", "content": "Next" } }"#),
        json(r#"{ "sessionUpdate": "compaction_update", "compactionId": "new", "status": "in_progress" }"#),
    ] {
        validate_and_track_session_update(&mut state, &update).unwrap();
    }
    assert_eq!(state.messages.len(), FORMER_MESSAGES + 1);
    assert_eq!(state.tool_calls.len(), FORMER_TOOL_CALLS + 1);
    assert_eq!(state.plans.len(), FORMER_PLANS + 1);
    assert_eq!(state.compactions.len(), FORMER_COMPACTIONS + 1);
}

#[test]
fn validates_standard_content_blocks_and_annotations() {
    for block in [
        json(r#"{ "type": "image", "data": "iVBORw==", "mimeType": "image/png", "uri": "attyd://attachment/screenshot.png" }"#),
        json(r#"{ "type": "audio", "data": "AA==", "mimeType": "audio/mpeg" }"#),
        json(r#"{ "type": "resource_link", "name": "workspace file", "uri": "file:///workspace/readme.md", "mimeType": "text/markdown;charset=utf-8", "size": 0 }"#),
        json(r#"{ "type": "resource", "resource": { "uri": "urn:fixture:text", "mimeType": "text/plain", "text": "hello" } }"#),
        json(r#"{ "type": "text", "text": "Annotated", "annotations": { "priority": 0.75, "lastModified": "2026-08-31T12:00:00Z" } }"#),
    ] {
        validate_content_block(&block, "ACP content block").unwrap();
    }
}

#[test]
fn rejects_noncanonical_media_mime_uri_size_and_annotation_values() {
    for data in ["not base64", "AAA", "AA=A", "____"] {
        assert!(
            validate_content_block(
                &json(&format!(r#"{{ "type": "image", "data": "{data}", "mimeType": "image/png" }}"#)),
                "ACP content block",
            )
            .unwrap_err()
            .contains("canonical base64")
        );
    }
    assert!(
        validate_content_block(
            &json(r#"{ "type": "image", "data": "AA==", "mimeType": "text/html" }"#),
            "ACP content block",
        )
        .unwrap_err()
        .contains("image/* family")
    );
    assert!(
        validate_content_block(
            &json(r#"{ "type": "resource_link", "name": "relative", "uri": "./relative" }"#),
            "ACP content block",
        )
        .unwrap_err()
        .contains("URI is invalid")
    );
    assert!(
        validate_content_block(
            &json(r#"{ "type": "resource_link", "name": "bad size", "uri": "urn:fixture:size", "size": -1 }"#),
            "ACP content block",
        )
        .unwrap_err()
        .contains("non-negative safe integer")
    );
    assert!(
        validate_content_block(
            &json(r#"{ "type": "text", "text": "bad annotation", "annotations": { "lastModified": 42 } }"#),
            "ACP content block",
        )
        .is_err()
    );
}

#[test]
fn accepts_decoded_content_beyond_the_former_size_limit() {
    let oversized = "AAAA".repeat(FORMER_CONTENT_BINARY_BYTES / 3 + 1);
    assert!(
        validate_content_block(
            &json(&format!(
                r#"{{ "type": "resource", "resource": {{ "uri": "urn:fixture:large", "blob": "{oversized}" }} }}"#
            )),
            "ACP content block",
        )
        .is_ok()
    );
}

#[test]
fn validates_prompt_usage_and_accepts_large_response_metadata() {
    validate_prompt_response(&json(r#"{ "stopReason": "end_turn", "usage": { "totalTokens": 10, "inputTokens": 4, "outputTokens": 6 } }"#))
    .unwrap();
    for usage in [
        json(r#"{ "totalTokens": -1, "inputTokens": 0, "outputTokens": 0 }"#),
        json(r#"{ "totalTokens": 10, "inputTokens": 11, "outputTokens": 0 }"#),
        json(r#"{ "totalTokens": 10, "inputTokens": 6, "outputTokens": 5 }"#),
    ] {
        assert!(
            validate_prompt_response(&json(&format!(
                r#"{{ "stopReason": "end_turn", "usage": {} }}"#,
                usage.to_text()
            )))
                .is_err()
        );
    }
    assert!(
        validate_prompt_response(&json(&format!(
            r#"{{ "stopReason": "end_turn", "_meta": {{ "padding": "{}" }} }}"#,
            "x".repeat(FORMER_PROMPT_RESPONSE_BYTES)
        )))
        .is_ok()
    );
}

#[test]
fn validates_modes_grouped_select_and_boolean_controls() {
    let modes = json(r#"{ "currentModeId": "build", "availableModes": [ { "id": "build", "name": "Build" }, { "id": "plan", "name": "Plan" } ] }"#);
    let options = json(r#"[ { "type": "boolean", "id": "verbose", "name": "Verbose", "currentValue": true }, { "type": "select", "id": "model", "name": "Model", "currentValue": "fast", "options": [{ "group": "local", "name": "Local", "options": [{ "value": "fast", "name": "Fast" }] }] } ]"#);
    validate_session_controls(Some(&modes), Some(&options)).unwrap();
}

#[test]
fn rejects_contradictory_controls_and_accepts_large_valid_collections() {
    assert!(
        validate_session_modes(&json(r#"{ "currentModeId": "missing", "availableModes": [{ "id": "build", "name": "Build" }] }"#))
        .is_err()
    );
    assert!(
        validate_session_modes(&json(r#"{ "currentModeId": "build", "availableModes": [ { "id": "build", "name": "Build" }, { "id": "build", "name": "Again" } ] }"#))
        .is_err()
    );
    assert!(
        validate_session_config_options(&json(r#"[ { "type": "boolean", "id": "same", "name": "One", "currentValue": false }, { "type": "boolean", "id": "same", "name": "Two", "currentValue": true } ]"#))
        .is_err()
    );
    assert!(
        validate_session_config_options(&json(r#"[{ "type": "select", "id": "model", "name": "Model", "currentValue": "missing", "options": [{ "value": "fast", "name": "Fast" }] }]"#))
        .is_err()
    );
    let modes: Vec<String> = (0..257)
        .map(|index| format!(r#"{{ "id": "mode-{index}", "name": "Mode {index}" }}"#))
        .collect();
    assert!(
        validate_session_modes(&json(&format!(
            r#"{{ "currentModeId": "mode-0", "availableModes": [{}] }}"#,
            modes.join(",")
        )))
        .is_ok()
    );
}

#[test]
fn tracks_compaction_lifecycle_transactionally() {
    let mut state = SessionUpdateSemanticState::default();
    validate_and_track_session_update(
        &mut state,
        &json(r#"{ "sessionUpdate": "compaction_update", "compactionId": "compact-1", "status": "in_progress" }"#),
    )
    .unwrap();
    validate_and_track_session_update(
        &mut state,
        &json(r#"{ "sessionUpdate": "compaction_summary_chunk", "compactionId": "compact-1", "content": { "type": "text", "text": "summary" } }"#),
    )
    .unwrap();
    validate_and_track_session_update(
        &mut state,
        &json(r#"{ "sessionUpdate": "compaction_update", "compactionId": "compact-1", "status": "completed" }"#),
    )
    .unwrap();
    let accepted = state.update_count;
    assert!(
        validate_and_track_session_update(
            &mut state,
            &json(r#"{ "sessionUpdate": "compaction_summary_chunk", "compactionId": "compact-1", "content": { "type": "text", "text": "too late" } }"#)
        )
        .is_err()
    );
    assert_eq!(state.update_count, accepted);
}

#[test]
fn validates_message_tool_plan_usage_metadata_and_dynamic_controls() {
    let mut state = SessionUpdateSemanticState::default();
    for update in [
        json(r#"{ "sessionUpdate": "agent_message_chunk", "messageId": "message-1", "content": { "type": "text", "text": "answer" } }"#),
        json(r#"{ "sessionUpdate": "tool_call", "toolCallId": "tool-1", "title": "Inspect", "content": [{ "type": "diff", "path": "/workspace/file.ts", "newText": "next" }], "locations": [{ "path": "C:\\workspace\\file.ts", "line": 0 }] }"#),
        json(r#"{ "sessionUpdate": "plan_update", "plan": { "type": "markdown", "planId": "plan-1", "content": "Plan" } }"#),
        json(r#"{ "sessionUpdate": "plan_removed", "planId": "plan-1" }"#),
        json(r#"{ "sessionUpdate": "usage_update", "used": 11, "size": 10 }"#),
        json(r#"{ "sessionUpdate": "session_info_update", "title": null, "updatedAt": "not-a-timestamp" }"#),
        json(r#"{ "sessionUpdate": "current_mode_update", "currentModeId": "plan" }"#),
        json(r#"{ "sessionUpdate": "config_option_update", "configOptions": [{ "type": "boolean", "id": "verbose", "name": "Verbose", "currentValue": true }] }"#),
    ] {
        validate_and_track_session_update(&mut state, &update).unwrap();
    }
    assert_eq!(state.current_mode_id.as_deref(), Some("plan"));
}

#[test]
fn rejects_invalid_updates_without_charging_session_budgets() {
    let mut state = SessionUpdateSemanticState::default();
    for update in [
        json(r#"{ "sessionUpdate": "agent_message_chunk", "content": { "type": "image", "data": "not-base64", "mimeType": "image/png" } }"#),
        json(r#"{ "sessionUpdate": "tool_call", "toolCallId": "relative", "content": [{ "type": "diff", "path": "relative.ts", "newText": "next" }] }"#),
        json(r#"{ "sessionUpdate": "available_commands_update", "availableCommands": [ { "name": "inspect", "description": "one" }, { "name": "inspect", "description": "two" } ] }"#),
        json(r#"{ "sessionUpdate": "usage_update", "used": -1, "size": 10 }"#),
        json(r#"{ "sessionUpdate": "session_info_update", "title": 42 }"#),
    ] {
        assert!(validate_and_track_session_update(&mut state, &update).is_err());
        assert_eq!(state.update_count, 0);
        assert_eq!(state.update_bytes, 0);
    }
}

#[test]
fn cumulative_update_accounting_does_not_reject_valid_updates() {
    let mut count_limited = SessionUpdateSemanticState {
        update_count: 100_000,
        ..SessionUpdateSemanticState::default()
    };
    validate_and_track_session_update(
        &mut count_limited,
        &json(r#"{ "sessionUpdate": "agent_message_chunk", "content": { "type": "text", "text": "too many" } }"#),
    )
    .unwrap();
    assert_eq!(count_limited.update_count, 100_001);
    let mut byte_limited = SessionUpdateSemanticState {
        update_bytes: 127_999_999,
        ..SessionUpdateSemanticState::default()
    };
    validate_and_track_session_update(
        &mut byte_limited,
        &json(r#"{ "sessionUpdate": "agent_message_chunk", "content": { "type": "text", "text": "over budget" } }"#),
    )
    .unwrap();
    assert!(byte_limited.update_bytes > 128_000_000);
}

#[test]
fn retiring_a_turn_keeps_session_entities_and_controls() {
    let mut state = SessionUpdateSemanticState::default();
    for update in [
        json(r#"{ "sessionUpdate": "agent_message_chunk", "messageId": "reusable-message", "content": { "type": "text", "text": "answer" } }"#),
        json(r#"{ "sessionUpdate": "tool_call", "toolCallId": "reusable-tool", "status": "completed" }"#),
        json(r#"{ "sessionUpdate": "current_mode_update", "currentModeId": "code" }"#),
        json(r#"{ "sessionUpdate": "compaction_update", "compactionId": "background", "status": "in_progress" }"#),
    ] {
        validate_and_track_session_update(&mut state, &update).unwrap();
    }
    assert!(state.update_count > 0);
    assert!(state.update_bytes > 0);

    state.retire_turn();

    assert_eq!(state.update_count, 0);
    assert_eq!(state.update_bytes, 0);
    assert_eq!(state.current_mode_id.as_deref(), Some("code"));
    assert!(state.messages.contains_key("reusable-message"));
    assert!(state.tool_calls.contains_key("reusable-tool"));
    validate_and_track_session_update(&mut state, &json(r#"{ "sessionUpdate": "compaction_summary_chunk", "compactionId": "background", "content": { "type": "text", "text": "summary after response" } }"#)).unwrap();
    for update in [
        json(r#"{ "sessionUpdate": "agent_message_chunk", "messageId": "reusable-message", "content": { "type": "text", "text": "next answer" } }"#),
        json(r#"{ "sessionUpdate": "tool_call", "toolCallId": "reusable-tool", "status": "pending" }"#),
    ] {
        validate_and_track_session_update(&mut state, &update).unwrap();
    }
}

#[test]
fn accepts_tool_message_and_plan_upserts_like_zed() {
    let mut state = SessionUpdateSemanticState::default();
    for update in [
        json(r#"{ "sessionUpdate": "tool_call_update", "toolCallId": "missing", "status": "in_progress" }"#),
        json(r#"{ "sessionUpdate": "tool_call", "toolCallId": "tool-1", "status": "completed" }"#),
        json(r#"{ "sessionUpdate": "tool_call_update", "toolCallId": "tool-1", "status": "pending" }"#),
        json(r#"{ "sessionUpdate": "agent_message_chunk", "messageId": "shared-message", "content": { "type": "text", "text": "answer" } }"#),
        json(r#"{ "sessionUpdate": "agent_thought_chunk", "messageId": "shared-message", "content": { "type": "text", "text": "thought" } }"#),
        json(r#"{ "sessionUpdate": "plan_removed", "planId": "unknown" }"#),
        json(r#"{ "sessionUpdate": "plan_update", "plan": { "type": "markdown", "planId": "unknown", "content": "late" } }"#),
    ] {
        validate_and_track_session_update(&mut state, &update).unwrap();
    }
    assert_eq!(state.tool_calls.len(), 2);
    assert_eq!(state.messages.len(), 1);
    assert_eq!(state.plans.len(), 1);
    assert_eq!(state.plans.get("unknown").unwrap(), "active");
}

#[test]
fn validates_absolute_tool_paths_zero_lines_and_terminal_references() {
    let valid = json(r#"{ "sessionUpdate": "tool_call", "toolCallId": "edit-and-run", "content": [ { "type": "diff", "path": "C:\\workspace\\file.ts", "newText": "new" }, { "type": "terminal", "terminalId": "terminal-1" } ], "locations": [{ "path": "\\\\server\\share\\file.ts", "line": 0 }] }"#);
    validate_and_track_session_update(&mut SessionUpdateSemanticState::default(), &valid)
        .unwrap();
    assert_eq!(terminal_references(&valid), vec!["terminal-1"]);
    for invalid in [
        json(r#"{ "sessionUpdate": "tool_call", "toolCallId": "relative-diff", "content": [{ "type": "diff", "path": "relative.ts", "newText": "next" }] }"#),
        json(r#"{ "sessionUpdate": "tool_call", "toolCallId": "relative-location", "locations": [{ "path": "relative.ts", "line": 0 }] }"#),
        json(r#"{ "sessionUpdate": "tool_call", "toolCallId": "negative-line", "locations": [{ "path": "/workspace/file.ts", "line": -1 }] }"#),
    ] {
        assert!(
            validate_and_track_session_update(
                &mut SessionUpdateSemanticState::default(),
                &invalid
            )
            .is_err()
        );
    }
}

#[test]
fn validates_permission_tool_upserts_and_option_identity() {
    let mut state = SessionUpdateSemanticState::default();
    let ids = validate_permission_request(
        &mut state,
        &json(r#"{ "sessionId": "session", "toolCall": { "toolCallId": "missing" }, "options": [{ "optionId": "yes", "name": "Allow", "kind": "allow_once" }] }"#),
    )
    .unwrap();
    assert!(ids.contains(&"yes".to_string()));
    assert!(state.tool_calls.contains_key("missing"));
    assert!(
        validate_permission_request(
            &mut state,
            &json(r#"{ "sessionId": "session", "toolCall": { "toolCallId": "missing", "status": "completed" }, "options": [] }"#)
        )
        .is_err()
    );
    assert!(
        validate_permission_request(
            &mut state,
            &json(r#"{ "sessionId": "session", "toolCall": { "toolCallId": "missing" }, "options": [ { "optionId": "same", "name": "Allow", "kind": "allow_once" }, { "optionId": "same", "name": "Reject", "kind": "reject_once" } ] }"#)
        )
        .is_err()
    );
}

#[test]
fn requires_browser_controls_to_reference_offered_values() {
    let modes = json(r#"{ "currentModeId": "build", "availableModes": [{ "id": "build", "name": "Build" }] }"#);
    validate_session_mode_reference(Some(&modes), "build").unwrap();
    assert!(validate_session_mode_reference(Some(&modes), "ghost").is_err());
    assert!(validate_session_mode_reference(None, "build").is_err());
    let options = json(r#"[ { "type": "boolean", "id": "verbose", "name": "Verbose", "currentValue": false }, { "type": "select", "id": "model", "name": "Model", "currentValue": "fast", "options": [{ "group": "remote", "name": "Remote", "options": [{ "value": "deep", "name": "Deep" }] }, { "value": "fast", "name": "Fast" }] } ]"#);
    validate_session_config_reference(&options, "verbose", &json(r#"true"#)).unwrap();
    validate_session_config_reference(&options, "model", &json(r#""deep""#)).unwrap();
    assert!(validate_session_config_reference(&options, "verbose", &json(r#""true""#)).is_err());
    assert!(validate_session_config_reference(&options, "model", &json(r#""missing""#)).is_err());
}

#[test]
fn accepts_long_unicode_control_identifiers() {
    let astral = "😀".repeat(FORMER_CONTROL_IDENTIFIER_LENGTH);
    validate_session_modes(&json(&format!(
        r#"{{ "currentModeId": "{astral}", "availableModes": [{{ "id": "{astral}", "name": "Mode" }}] }}"#
    )))
    .unwrap();
    let bmp = "界".repeat(FORMER_CONTROL_IDENTIFIER_LENGTH);
    validate_session_modes(&json(&format!(
        r#"{{ "currentModeId": "{bmp}", "availableModes": [{{ "id": "{bmp}", "name": "模式" }}] }}"#
    )))
    .unwrap();
}
