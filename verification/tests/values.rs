//! Texts, JSON values and tables.
use attyd::fold::{fold_active_turn_update, fold_terminal_snapshot, RuntimeStateError};
use attyd::json::{same_json, Json, MAX_NESTING};
use attyd::projection::{read_payload, CanonicalProjection, RuntimeEvent, RuntimePayload};
use attyd::registry::SessionRegistry;
use attyd::runtime_types::{RuntimeChange, RuntimeDelta, SessionLifecycle, SessionOperationKind};
use attyd::table::Table;
use attyd::text::{decimal, js_len, parse_unsigned, split_at_last};

fn json(text: &str) -> Json {
    Json::parse(text).unwrap()
}

#[test]
fn values_are_written_as_they_were_read() {
    for text in [
        "null",
        "true",
        "-7",
        "18446744073709551615",
        "1.5",
        r#""a\"\\\n\u0001é""#,
        "[]",
        r#"{"a":[1,{"b":null}],"c":{}}"#,
    ] {
        assert_eq!(json(text).to_text(), text);
    }
    assert!(Json::parse("{").is_none());
    assert!(Json::parse("1 2").is_none());
    assert!(Json::parse("").is_none());
}

#[test]
fn a_value_reads_back_up_to_the_deepest_nesting() {
    let nested = |levels: usize| format!("{}{}", "[".repeat(levels), "]".repeat(levels));
    let deepest = json(&nested(usize::from(MAX_NESTING)));
    assert!(same_json(&json(&deepest.to_text()), &deepest));
    assert!(Json::parse(&nested(usize::from(MAX_NESTING) + 1)).is_none());
    let deeper = Json::Array(vec![deepest]);
    assert!(Json::parse(&deeper.to_text()).is_none());
}

#[test]
fn the_last_of_two_equal_entries_is_written() {
    let entry = |value: u64| ("a".to_string(), Json::Unsigned(value));
    let value = Json::Object(vec![entry(1), entry(2)]);
    assert_eq!(value.to_text(), r#"{"a":2}"#);
    assert!(same_json(&value, &json(r#"{"a":2}"#)));
}

#[test]
fn a_value_is_held_and_given_back_as_it_is() {
    let value = json(r#"{"a":[1,-2,1.5,"b"],"c":{"d":null,"e":true}}"#);
    let held = value.to_value();
    assert_eq!(held["a"][1].as_i64(), Some(-2));
    assert_eq!(held["c"]["e"].as_bool(), Some(true));
    assert!(same_json(&Json::from_value(&held), &value));
}

#[test]
fn an_object_that_stands_for_raw_text_does_not_read_back() {
    let key = "$serde_json::private::RawValue".to_string();
    let value = Json::Object(vec![(key, Json::String("[1]".to_string()))]);
    assert_eq!(value.to_text(), r#"{"$serde_json::private::RawValue":"[1]"}"#);
    assert!(same_json(&json(&value.to_text()), &json("[1]")));
}

#[test]
fn the_last_of_two_equal_keys_counts() {
    let value = json(r#"{"b":1,"a":2,"b":3}"#);
    assert_eq!(value.get("b").and_then(|value| value.as_u64()), Some(3));
    assert!(same_json(&value, &json(r#"{"a":2,"b":3}"#)));
    assert!(!same_json(&value, &json(r#"{"a":2,"b":4}"#)));
}

#[test]
fn numbers_keep_their_kind() {
    assert_eq!(json("1").as_u64(), Some(1));
    assert_eq!(json("1.0").as_u64(), None);
    assert_eq!(json("-1").as_u64(), None);
    assert_eq!(json("18446744073709551616").as_u64(), None);
    assert!(!same_json(&json("1"), &json("1.0")));
    assert!(json("1.0").is_number() && json("-1").is_number());
}

#[test]
fn a_number_reads_back_from_its_text() {
    for number in [0, 1, 9, 10, 1_024, u64::MAX] {
        assert_eq!(decimal(number), number.to_string());
        assert_eq!(parse_unsigned(&decimal(number)), Some(number));
    }
    assert_eq!(parse_unsigned("+7"), Some(7));
    assert_eq!(parse_unsigned("007"), Some(7));
    for text in ["", "+", "-1", "1a", " 1", "18446744073709551616"] {
        assert_eq!(parse_unsigned(text), None);
    }
}

#[test]
fn a_character_beyond_the_first_plane_counts_twice() {
    assert_eq!(js_len(""), 0);
    assert_eq!(js_len("aé"), 2);
    assert_eq!(js_len("a\u{1F600}"), 3);
}

#[test]
fn a_text_is_split_at_the_last_separator() {
    assert_eq!(split_at_last("a:b:c", ':'), Some(("a:b", "c")));
    assert_eq!(split_at_last(":", ':'), Some(("", "")));
    assert_eq!(split_at_last("é:", ':'), Some(("é", "")));
    assert_eq!(split_at_last("abc", ':'), None);
}

#[test]
fn a_table_lists_its_keys_in_order() {
    let mut table: Table<u64> = Table::new();
    assert!(table.is_empty());
    for (value, key) in ["b", "é", "a", "B", "ab"].iter().enumerate() {
        assert_eq!(table.insert(key, value as u64), None);
    }
    assert_eq!(table.insert("a", 9), Some(2));
    let keys = (0..table.len()).map(|at| table.key(at)).collect::<Vec<_>>();
    assert_eq!(keys, vec!["B", "a", "ab", "b", "é"]);
    assert_eq!(table.get("a"), Some(&9));
    assert_eq!(table.remove("a"), Some(9));
    assert_eq!(table.remove("a"), None);
    assert_eq!((table.len(), table.contains_key("a")), (4, false));
}

#[test]
fn retained_output_starts_at_a_whole_character() {
    let folded = fold_terminal_snapshot(
        None,
        &json(r#"{"outputBytes":"w6nDqQ==","retainedBytes":3}"#),
    );
    assert_eq!(folded.text_at("output"), Some("é"));
    assert_eq!(folded.text_at("outputBytes"), Some("w6k="));
}

#[test]
fn an_unfinished_character_is_shown_when_it_is_complete() {
    let first = fold_terminal_snapshot(None, &json(r#"{"outputBytes":"YcM="}"#));
    assert_eq!(first.text_at("output"), Some("a"));
    let second = fold_terminal_snapshot(
        Some(&first),
        &json(r#"{"outputBytes":"qQ==","outputAppend":true}"#),
    );
    assert_eq!(second.text_at("output"), Some("aé"));
    let last = fold_terminal_snapshot(
        Some(&first),
        &json(r#"{"outputAppend":true,"exitStatus":{"exitCode":0}}"#),
    );
    assert_eq!(last.text_at("output"), Some("a\u{FFFD}"));
}

#[test]
fn odd_message_chunks_are_not_folded() {
    for update in [
        r#"{"sessionUpdate":"agent_message_chunk"}"#,
        r#"{"sessionUpdate":"agent_message_chunk","content":{}}"#,
        r#"{"sessionUpdate":"agent_message_chunk","content":{"type":"text"}}"#,
        r#"{"sessionUpdate":"agent_message_chunk","messageId":1,"content":{"type":"text","text":"a"}}"#,
    ] {
        let folded = fold_active_turn_update(&vec![], &json(update));
        assert!(matches!(folded, Err(RuntimeStateError::OperationMismatch)));
    }
}

#[test]
fn an_event_carries_a_state_or_a_change_by_its_type() {
    let state = read_payload(r#"{"type":"bridge/internal_runtime_snapshot","value":[1]}"#);
    assert!(matches!(state, RuntimePayload::Snapshot(Some(value)) if value.is_array()));
    let change = read_payload(r#"{"type":"bridge/internal_runtime_delta"}"#);
    assert!(matches!(change, RuntimePayload::Delta(None)));
    for text in [r#"{"type":"bridge/phase","value":1}"#, "[]", "{"] {
        assert!(matches!(read_payload(text), RuntimePayload::Other));
    }
}

fn terminal_change(seq: u64, terminal: &str) -> RuntimeEvent {
    RuntimeEvent::Delta(Some(RuntimeDelta {
        epoch: "e".to_string(),
        seq,
        scope_revision: Some(2),
        change: RuntimeChange::TerminalUpdated {
            session_id: "s".to_string(),
            incarnation: 1,
            revision: 2,
            terminal_id: "t".to_string(),
            terminal: json(terminal),
        },
    }))
}

#[test]
fn only_a_terminal_that_will_be_folded_has_to_be_an_object() {
    let mut registry = SessionRegistry::new("e");
    registry.open_new("e", "s", "/w", &json("{}")).unwrap();
    let mut projection = CanonicalProjection::new();
    assert!(projection.can_take(&terminal_change(2, "7")));
    projection.update_with_public_event(RuntimeEvent::Snapshot(Some(registry.snapshot())));
    assert!(!projection.can_take(&terminal_change(2, "7")));
    assert!(projection.can_take(&terminal_change(2, "{}")));
    assert!(projection.can_take(&terminal_change(2, "null")));
    assert!(projection.can_take(&terminal_change(3, "7")));
    assert!(projection.can_take(&RuntimeEvent::Other));
}

#[test]
fn an_active_session_is_deleted_without_being_closed() {
    let mut registry = SessionRegistry::new("e");
    let incarnation = registry.open_new("e", "s", "/w", &json("{}")).unwrap();
    assert_eq!(
        registry.start_direct_delete("e", "s", incarnation, "op", false),
        Err(RuntimeStateError::BusySession)
    );
    assert_eq!(
        registry.start_direct_delete("other", "s", incarnation, "op", true),
        Err(RuntimeStateError::EpochMismatch)
    );
    assert_eq!(
        registry.start_direct_delete("e", "none", incarnation, "op", true),
        Err(RuntimeStateError::UnknownSession)
    );
    assert_eq!(
        registry.start_direct_delete("e", "s", incarnation + 1, "op", true),
        Err(RuntimeStateError::StaleIncarnation)
    );
    registry.start_direct_delete("e", "s", incarnation, "op", true).unwrap();
    let session = registry.session("s").unwrap();
    assert_eq!(session.lifecycle, SessionLifecycle::Deleting);
    let operation = session.operation.unwrap();
    assert_eq!(operation.kind, SessionOperationKind::Delete);
    assert_eq!(operation.stage, "deleting_active");
    assert_eq!(
        registry.start_direct_delete("e", "s", incarnation, "again", true),
        Err(RuntimeStateError::SessionNotActive)
    );
}

#[test]
fn delivered_changes_are_forgotten() {
    let mut registry = SessionRegistry::new("e");
    for id in ["a", "b", "c"] {
        registry.open_new("e", id, "/w", &json("{}")).unwrap();
    }
    assert_eq!(registry.deltas_after(0).unwrap().len(), 3);
    registry.release_published_runtime(2);
    assert!(registry.deltas_after(1).is_none());
    let rest = registry.deltas_after(2).unwrap();
    assert_eq!(rest.iter().map(|delta| delta.seq).collect::<Vec<_>>(), vec![3]);
    assert!(registry.deltas_after(4).is_none());
    assert_eq!(registry.snapshot().through_seq, 3);
}

#[test]
fn an_unknown_question_cannot_be_answered() {
    let mut registry = SessionRegistry::new("e");
    let incarnation = registry.open_new("e", "s", "/w", &json("{}")).unwrap();
    let scope = Some(("s", incarnation));
    assert!(matches!(
        registry.begin_permission_response("e", "s", incarnation, "none", "op"),
        Err(RuntimeStateError::UnknownInteraction)
    ));
    assert!(matches!(
        registry.begin_elicitation_response("e", scope, "none", "op"),
        Err(RuntimeStateError::UnknownInteraction)
    ));
    assert!(matches!(
        registry.begin_elicitation_response("e", None, "none", "op"),
        Err(RuntimeStateError::UnknownInteraction)
    ));
    assert_eq!(registry.seq(), 1);
}
