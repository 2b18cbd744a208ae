//! What the validators say of values that they refuse.
use attyd::json::Json;
use attyd::semantic::{
    validate_content_block, validate_prompt_response, validate_session_config_options,
    validate_session_config_reference, validate_session_mode_reference, validate_session_modes,
};
use attyd::session_update::{
    validate_and_track_session_update, validate_history_update, validate_permission_request,
    validate_session_metadata, SessionUpdateSemanticState,
};

fn json(text: &str) -> Json {
    Json::parse(text).unwrap()
}

/// Refused updates leave no trace, live or replayed.
fn refuses_update(update: &str, message: &str) {
    let mut state = SessionUpdateSemanticState::default();
    let started = json(r#"{"sessionUpdate":"compaction_update","compactionId":"done","status":"completed"}"#);
    validate_and_track_session_update(&mut state, &started).unwrap();
    let (count, bytes) = (state.update_count, state.update_bytes);
    assert_eq!(
        validate_and_track_session_update(&mut state, &json(update)),
        Err(message.to_string())
    );
    assert_eq!(
        validate_history_update(&mut state, &json(update)),
        Err(message.to_string())
    );
    assert_eq!((state.update_count, state.update_bytes), (count, bytes));
    assert_eq!((state.messages.len(), state.plans.len()), (0, 0));
    assert_eq!((state.tool_calls.len(), state.compactions.len()), (0, 1));
}

#[test]
fn refused_messages_and_plans_are_explained() {
    for (update, message) in [
        (r#"{}"#, "session update sessionUpdate must be a string"),
        (r#"{"sessionUpdate":"later"}"#, "unsupported ACP session update: later"),
        (r#"{"sessionUpdate":"agent_message_chunk"}"#, "Agent message content is missing"),
        (
            r#"{"sessionUpdate":"agent_message_chunk","content":"hello"}"#,
            "Agent message content must be an object",
        ),
        (
            r#"{"sessionUpdate":"user_message_chunk","content":{"type":"text"},"messageId":7}"#,
            "session update messageId must be a string or null",
        ),
        (
            r#"{"sessionUpdate":"agent_thought_chunk","content":{"type":"text"},"messageId":""}"#,
            "Agent message ID must not be empty",
        ),
        (r#"{"sessionUpdate":"plan","entries":{}}"#, "Agent plan entries must be an array"),
        (r#"{"sessionUpdate":"plan_update"}"#, "Agent plan update is missing plan"),
        (
            r#"{"sessionUpdate":"plan_update","plan":{"planId":""}}"#,
            "Agent plan ID must not be empty",
        ),
        (
            r#"{"sessionUpdate":"plan_update","plan":{"planId":"p","type":"items"}}"#,
            "Agent plan entries must be an array",
        ),
        (r#"{"sessionUpdate":"plan_removed"}"#, "plan removal planId must be a string"),
    ] {
        refuses_update(update, message);
    }
}

#[test]
fn refused_tool_updates_are_explained() {
    for (rest, message) in [
        (r#""title":1"#, "tool update title must be a string or null"),
        (r#""content":{}"#, "Agent tool content must be an array"),
        (r#""content":[{}]"#, "Agent tool content type is missing"),
        (r#""content":[{"type":"image"}]"#, "unsupported Agent tool content: image"),
        (r#""content":[{"type":"content"}]"#, "Agent tool content block is missing"),
        (
            r#""content":[{"type":"content","content":{"type":"video"}}]"#,
            "unsupported Agent tool content type: video",
        ),
        (
            r#""content":[{"type":"diff","path":"src/main.rs"}]"#,
            "Agent tool diff path must be an absolute path without NUL bytes",
        ),
        (r#""content":[{"type":"diff"}]"#, "tool diff path must be a string"),
        (
            r#""content":[{"type":"terminal","terminalId":""}]"#,
            "Agent terminal reference ID must not be empty",
        ),
        (r#""locations":"here""#, "Agent tool locations must be an array"),
        (
            r#""locations":[{"path":"C:relative"}]"#,
            "Agent tool location path must be an absolute path without NUL bytes",
        ),
        (
            r#""locations":[{"path":"C:\\file","line":4294967296}]"#,
            "Agent tool location line must be an integer between 0 and 4294967295",
        ),
        (r#""status":true"#, "tool update status must be a string or null"),
    ] {
        let update = format!(r#"{{"sessionUpdate":"tool_call","toolCallId":"t",{rest}}}"#);
        refuses_update(&update, message);
    }
    refuses_update(
        r#"{"sessionUpdate":"tool_call_update","toolCallId":""}"#,
        "Agent tool call ID must not be empty",
    );
}

#[test]
fn refused_compactions_are_explained() {
    for (rest, message) in [
        (r#""compactionId":"","status":"completed""#, "Agent compaction ID must not be empty"),
        (r#""compactionId":"c""#, "compaction update status must be a string"),
        (
            r#""compactionId":"c","status":"in_progress","summary":[{"type":"text"}]"#,
            "A non-empty compaction summary is only valid with completed status",
        ),
        (
            r#""compactionId":"c","status":"completed","error":"lost""#,
            "A compaction error is only valid with failed status",
        ),
        (
            r#""compactionId":"c","status":"completed","summary":{}"#,
            "Agent compaction summary must be an array",
        ),
        (
            r#""compactionId":"c","status":"completed","summary":[{}]"#,
            "Agent compaction summary content type is missing",
        ),
        (r#""compactionId":"done","status":"failed""#, "Compaction is already terminal: done"),
    ] {
        let update = format!(r#"{{"sessionUpdate":"compaction_update",{rest}}}"#);
        refuses_update(&update, message);
    }
    for (rest, message) in [
        (r#""compactionId":"c""#, "Agent compaction chunk content is missing"),
        (
            r#""compactionId":"c","content":{"type":"text"}"#,
            "Compaction summary chunks require an in-progress compaction: c",
        ),
        (
            r#""compactionId":"done","content":{"type":"text"}"#,
            "Compaction summary chunks require an in-progress compaction: done",
        ),
    ] {
        let update = format!(r#"{{"sessionUpdate":"compaction_summary_chunk",{rest}}}"#);
        refuses_update(&update, message);
    }
}

#[test]
fn refused_commands_modes_and_usage_are_explained() {
    for (update, message) in [
        (
            r#"{"sessionUpdate":"available_commands_update"}"#,
            "Agent available commands must be an array",
        ),
        (
            r#"{"sessionUpdate":"available_commands_update","availableCommands":[{"name":""}]}"#,
            "Agent available command name must not be empty",
        ),
        (
            r#"{"sessionUpdate":"available_commands_update","availableCommands":[{"name":"a"}]}"#,
            "available command description must be a string",
        ),
        (
            r#"{"sessionUpdate":"available_commands_update","availableCommands":[{"name":"a","description":""},{"name":"a","description":""}]}"#,
            "Agent returned duplicate available command: a",
        ),
        (
            r#"{"sessionUpdate":"current_mode_update","currentModeId":""}"#,
            "Agent mode ID must not be empty",
        ),
        (
            r#"{"sessionUpdate":"config_option_update","configOptions":{}}"#,
            "Agent config options must be an array",
        ),
        (
            r#"{"sessionUpdate":"session_info_update","title":1}"#,
            "Agent session title must be a string or null",
        ),
        (
            r#"{"sessionUpdate":"session_info_update","updatedAt":1}"#,
            "Agent session updatedAt must be a string or null",
        ),
        (
            r#"{"sessionUpdate":"usage_update","used":1}"#,
            "Agent returned invalid context usage values",
        ),
        (
            r#"{"sessionUpdate":"usage_update","used":-0.5,"size":1}"#,
            "Agent returned invalid context usage values",
        ),
        (
            r#"{"sessionUpdate":"usage_update","used":1,"size":2,"cost":{"amount":"3"}}"#,
            "Agent returned an invalid cumulative cost",
        ),
        (
            r#"{"sessionUpdate":"usage_update","used":1,"size":2,"cost":{"amount":3}}"#,
            "Agent returned an invalid cost currency label",
        ),
        (
            r#"{"sessionUpdate":"usage_update","used":1,"size":2,"cost":{"amount":3,"currency":"123456789012345678901234567890123"}}"#,
            "Agent returned an invalid cost currency label",
        ),
    ] {
        refuses_update(update, message);
    }
}

#[test]
fn zero_of_either_sign_is_a_usage() {
    let mut state = SessionUpdateSemanticState::default();
    for used in ["0", "-0", "0.0", "-0.0", "-0e5", "18446744073709551615", "1e300"] {
        let update = format!(
            r#"{{"sessionUpdate":"usage_update","used":{used},"size":0,"cost":{{"amount":{used},"currency":"USD"}}}}"#
        );
        validate_and_track_session_update(&mut state, &json(&update)).unwrap();
    }
    assert_eq!(state.update_count, 7);
}

#[test]
fn a_replayed_update_is_counted_with_its_size() {
    let mut state = SessionUpdateSemanticState::default();
    let update = json(r#"{"sessionUpdate":"agent_message_chunk","messageId":"m","content":{"type":"text","text":"é"}}"#);
    validate_history_update(&mut state, &update).unwrap();
    assert_eq!(state.update_count, 1);
    assert_eq!(state.update_bytes, update.to_text().len());
    assert_eq!(state.messages.get("m").map(String::as_str), Some("agent_message_chunk"));
}

#[test]
fn refused_permission_requests_are_explained() {
    for (request, message) in [
        (r#"{}"#, "Agent permission request is missing its tool call"),
        (r#"{"toolCall":{}}"#, "tool update toolCallId must be a string"),
        (r#"{"toolCall":{"toolCallId":"t"}}"#, "Agent permission options must be an array"),
        (
            r#"{"toolCall":{"toolCallId":"t"},"options":[]}"#,
            "Agent permission request must contain at least one option",
        ),
        (
            r#"{"toolCall":{"toolCallId":"t"},"options":[{}]}"#,
            "permission option optionId must be a string",
        ),
        (
            r#"{"toolCall":{"toolCallId":"t"},"options":[{"optionId":"","name":"Yes"}]}"#,
            "Agent returned an invalid permission option ID",
        ),
        (
            r#"{"toolCall":{"toolCallId":"t"},"options":[{"optionId":"a","name":""}]}"#,
            "Agent returned an invalid permission option name: a",
        ),
        (
            r#"{"toolCall":{"toolCallId":"t"},"options":[{"optionId":"a","name":"Yes"},{"optionId":"a","name":"No"}]}"#,
            "Agent returned duplicate permission option ID: a",
        ),
    ] {
        let mut state = SessionUpdateSemanticState::default();
        let refusal = validate_permission_request(&mut state, &json(request)).unwrap_err();
        assert_eq!(refusal, message);
    }
}

#[test]
fn refused_content_is_explained() {
    for (block, message) in [
        (r#"[]"#, "Block must be an object"),
        (r#"{}"#, "Block type is missing"),
        (r#"{"type":"video"}"#, "unsupported Block type: video"),
        (r#"{"type":"text","annotations":1}"#, "Block annotations must be an object"),
        (
            r#"{"type":"text","annotations":{"priority":"high"}}"#,
            "Block annotations priority must be finite",
        ),
        (
            r#"{"type":"text","annotations":{"lastModified":1}}"#,
            "Block annotations last-modified timestamp must be a string",
        ),
        (r#"{"type":"image"}"#, "Block data must be a string"),
        (r#"{"type":"image","data":"AB=="}"#, "Block image data must be canonical base64"),
        (r#"{"type":"image","data":"AA=="}"#, "Block mimeType must be a string"),
        (
            r#"{"type":"image","data":"AA==","mimeType":"png"}"#,
            "Block image MIME type is invalid",
        ),
        (
            r#"{"type":"image","data":"AA==","mimeType":"image/png;q"}"#,
            "Block image MIME type is invalid",
        ),
        (
            r#"{"type":"image","data":"AA==","mimeType":"audio/mpeg"}"#,
            "Block image MIME type must use the image/* family",
        ),
        (
            r#"{"type":"image","data":"AA==","mimeType":"IMAGE/png","uri":""}"#,
            "Block image URI must not be empty",
        ),
        (
            r#"{"type":"audio","data":"AA==","mimeType":"image/png"}"#,
            "Block audio MIME type must use the audio/* family",
        ),
        (r#"{"type":"resource_link","uri":"x"}"#, "Block resource URI is invalid"),
        (r#"{"type":"resource_link","uri":"urn:x"}"#, "Block name must be a string"),
        (
            r#"{"type":"resource_link","uri":"urn:x","name":"n","title":1}"#,
            "Block title must be a string or null",
        ),
        (
            r#"{"type":"resource_link","uri":"urn:x","name":"n","mimeType":"/"}"#,
            "Block resource MIME type is invalid",
        ),
        (
            r#"{"type":"resource_link","uri":"urn:x","name":"n","size":9007199254740992}"#,
            "Block resource size must be a non-negative safe integer",
        ),
        (r#"{"type":"resource"}"#, "Block embedded resource must be an object"),
        (r#"{"type":"resource","resource":{}}"#, "Block embedded resource URI is missing"),
        (
            r#"{"type":"resource","resource":{"uri":"urn:x","mimeType":""}}"#,
            "Block embedded resource MIME type is invalid",
        ),
        (
            r#"{"type":"resource","resource":{"uri":"urn:x","blob":"A"}}"#,
            "Block embedded resource blob must be canonical base64",
        ),
    ] {
        assert_eq!(validate_content_block(&json(block), "Block"), Err(message.to_string()));
    }
}

#[test]
fn refused_prompt_usage_is_explained() {
    for (usage, message) in [
        (r#"{}"#, "Agent prompt usage totalTokens is required"),
        (
            r#"{"totalTokens":-1}"#,
            "Agent prompt usage totalTokens must be a non-negative safe integer",
        ),
        (
            r#"{"totalTokens":1,"thoughtTokens":2}"#,
            "Agent prompt usage thoughtTokens exceeds totalTokens",
        ),
        (
            r#"{"totalTokens":3,"inputTokens":2,"outputTokens":2}"#,
            "Agent prompt usage inputTokens plus outputTokens exceeds totalTokens",
        ),
    ] {
        let response = json(&format!(r#"{{"usage":{usage}}}"#));
        assert_eq!(validate_prompt_response(&response), Err(message.to_string()));
    }
    assert_eq!(validate_prompt_response(&json(r#"{"usage":null}"#)), Ok(()));
}

#[test]
fn refused_modes_are_explained() {
    for (modes, message) in [
        (r#"{}"#, "Agent session modes are missing availableModes"),
        (
            r#"{"availableModes":[]}"#,
            "Agent session modes must contain at least one available mode",
        ),
        (r#"{"availableModes":[{"id":1}]}"#, "session mode id must be a string"),
        (
            r#"{"availableModes":[{"id":"","name":"A"}]}"#,
            "session mode ID must not be empty",
        ),
        (
            r#"{"availableModes":[{"id":"a","name":""}]}"#,
            "session mode name must not be empty",
        ),
        (
            r#"{"availableModes":[{"id":"a","name":"A"},{"id":"a","name":"B"}]}"#,
            "Agent returned duplicate session mode ID: a",
        ),
        (
            r#"{"availableModes":[{"id":"a","name":"A"}]}"#,
            "session modes currentModeId must be a string",
        ),
        (
            r#"{"availableModes":[{"id":"a","name":"A"}],"currentModeId":"b"}"#,
            "Agent current mode was not included in available modes: b",
        ),
    ] {
        assert_eq!(validate_session_modes(&json(modes)), Err(message.to_string()));
    }
    let modes = json(r#"{"availableModes":[{"id":"a","name":"A"}],"currentModeId":"a"}"#);
    assert_eq!(validate_session_mode_reference(Some(&modes), "a"), Ok(()));
    let message = "Mode was not offered by the Agent: b".to_string();
    assert_eq!(validate_session_mode_reference(Some(&modes), "b"), Err(message.clone()));
    assert_eq!(validate_session_mode_reference(None, "b"), Err(message));
}

#[test]
fn refused_options_are_explained() {
    for (rest, message) in [
        (r#""type":"select""#, "Agent config option o is missing selectable values"),
        (r#""type":"select","options":[]"#, "Agent config option o has no selectable values"),
        (
            r#""type":"select","options":[{"value":"","name":"A"}]"#,
            "config option o value must not be empty",
        ),
        (
            r#""type":"select","options":[{"value":"a","name":""}]"#,
            "config option o value name must not be empty",
        ),
        (
            r#""type":"select","options":[{"value":"a","name":"A"},{"value":"a","name":"B"}]"#,
            "Agent config option o has duplicate value: a",
        ),
        (
            r#""type":"select","options":[{"group":"g","name":"G","options":[]}]"#,
            "Agent config option o contains an empty option group",
        ),
        (
            r#""type":"select","options":[{"group":"","name":"G","options":[]}]"#,
            "config option o group ID must not be empty",
        ),
        (
            r#""type":"select","options":[{"group":"g","name":"","options":[]}]"#,
            "config option o group name must not be empty",
        ),
        (
            r#""type":"select","options":[{"group":"g","name":"G","options":[{"value":"a","name":"A"}]},{"group":"g","name":"G","options":[]}]"#,
            "Agent config option o has duplicate group ID: g",
        ),
        (
            r#""type":"select","options":[{"value":"a","name":"A"}]"#,
            "select config option currentValue must be a string",
        ),
        (
            r#""type":"select","options":[{"value":"a","name":"A"}],"currentValue":"b""#,
            "Agent config option o current value was not included in its selectable values",
        ),
    ] {
        let options = json(&format!(r#"[{{"id":"o","name":"O",{rest}}}]"#));
        assert_eq!(validate_session_config_options(&options), Err(message.to_string()));
    }
    let twice = json(r#"[{"id":"o","name":"O"},{"id":"o","name":"O"}]"#);
    assert_eq!(
        validate_session_config_options(&twice),
        Err("Agent returned duplicate config option ID: o".to_string())
    );
}

#[test]
fn refused_values_of_options_are_explained() {
    let options = json(
        r#"[{"id":"on","type":"boolean"},{"id":"pick","type":"select","options":[{"value":"a"},{"options":[{"value":"b"}]}]},{"id":"odd"}]"#,
    );
    for (id, value, message) in [
        ("none", "true", "Config option was not offered by the Agent: none"),
        ("odd", "true", "Config option was not offered by the Agent: odd"),
        ("on", r#""true""#, "Config option on requires a boolean value"),
        ("pick", "true", "Config option pick value was not offered by the Agent"),
        ("pick", r#""c""#, "Config option pick value was not offered by the Agent"),
    ] {
        assert_eq!(
            validate_session_config_reference(&options, id, &json(value)),
            Err(message.to_string())
        );
    }
    for (id, value) in [("on", "false"), ("pick", r#""a""#), ("pick", r#""b""#)] {
        assert_eq!(validate_session_config_reference(&options, id, &json(value)), Ok(()));
    }
}

#[test]
fn the_subject_stands_in_what_is_said_of_metadata() {
    let odd = json("[]");
    assert_eq!(
        validate_session_metadata(Some(&odd), None, "Session s"),
        Err("Session s title must be a string or null".to_string())
    );
    assert_eq!(
        validate_session_metadata(Some(&Json::Null), Some(&odd), "Session s"),
        Err("Session s updatedAt must be a string or null".to_string())
    );
    assert_eq!(validate_session_metadata(None, Some(&json(r#""now""#)), "Session s"), Ok(()));
}
