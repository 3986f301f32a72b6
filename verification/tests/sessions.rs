use executors::acp::session::{
    ForkContent, SessionError, SessionManager, SessionRecord,
};
use executors::acp::types::{
    AvailableCommand, ContentBlock, PermissionOption, PermissionOptionKind, RequestPermissionRequest, ToolCallUpdate,
};
use executors::acp::{slash_commands, AcpEvent, SlashCommandDescription, UserPrompt};
use executors::path::PathParts;

fn manager() -> SessionManager {
    SessionManager::in_dir(PathParts::of_root("/tmp/sessions".to_string()))
}

fn stored(lines: &[&str]) -> String {
    let mut content = lines.join("\n");
    content.push('\n');
    content
}

/// What a fork starts with, given what the old session holds.
fn forked(old: Option<&str>, reset_to_message_id: Option<&str>) -> String {
    let fork = manager().fork_session("old", "new", reset_to_message_id, old);
    match fork.content {
        ForkContent::Empty => String::new(),
        ForkContent::Copy => old.unwrap().to_string(),
        ForkContent::Text(text) => text,
    }
}

fn line_of(record: Option<SessionRecord>) -> String {
    match record {
        Some(SessionRecord::Line(line)) => line,
        other => panic!("expected a line, got {other:?}"),
    }
}

fn parsed(text: &str) -> serde_json::Value {
    serde_json::from_str(text).unwrap()
}

#[test]
fn fork_session_without_reset_copies_full_history() {
    let lines = [
        r#"{"user":"first","message_id":"id-1"}"#,
        r#"{"assistant":"reply one"}"#,
        r#"{"user":"second","message_id":"id-2"}"#,
    ];
    let old = stored(&lines);
    assert_eq!(forked(Some(&old), None), lines.join("\n") + "\n");
    let fork = manager().fork_session("old", "new", None, Some(&old));
    assert!(matches!(fork.content, ForkContent::Copy));
}

#[test]
fn fork_session_truncates_before_target_message() {
    let old = stored(&[
        r#"{"user":"first","message_id":"id-1"}"#,
        r#"{"assistant":"reply one"}"#,
        r#"{"user":"second","message_id":"id-2"}"#,
        r#"{"assistant":"reply two"}"#,
        r#"{"user":"third","message_id":"id-3"}"#,
    ]);
    assert_eq!(
        forked(Some(&old), Some("id-2")),
        "{\"user\":\"first\",\"message_id\":\"id-1\"}\n{\"assistant\":\"reply one\"}\n"
    );
}

#[test]
fn fork_session_truncates_to_empty_when_target_is_first() {
    let old = stored(&[
        r#"{"user":"first","message_id":"id-1"}"#,
        r#"{"assistant":"reply one"}"#,
    ]);
    assert_eq!(forked(Some(&old), Some("id-1")), "");
}

#[test]
fn fork_session_unknown_id_falls_back_to_full_copy() {
    let lines = [
        r#"{"user":"first","message_id":"id-1"}"#,
        r#"{"assistant":"reply one"}"#,
    ];
    let old = stored(&lines);
    assert_eq!(forked(Some(&old), Some("missing-id")), lines.join("\n") + "\n");
}

#[test]
fn fork_session_legacy_user_lines_do_not_match() {
    let lines = [r#"{"user":"first"}"#, r#"{"assistant":"reply one"}"#];
    let old = stored(&lines);
    assert_eq!(forked(Some(&old), Some("id-1")), lines.join("\n") + "\n");
}

#[test]
fn fork_session_missing_source_creates_empty_file() {
    assert_eq!(forked(None, Some("id-1")), "");
    let fork = manager().fork_session("nope", "new", Some("id-1"), None);
    assert!(matches!(fork.content, ForkContent::Empty));
    assert_eq!(fork.from.parts, vec!["nope.jsonl".to_string()]);
    assert_eq!(fork.to.parts, vec!["new.jsonl".to_string()]);
}

#[test]
fn fork_reads_lines_that_end_in_carriage_returns() {
    let old = "{\"assistant\":\"a\"}\r\nno json\r\n{\"user\":\"u\",\"message_id\":\"id\"}\r\nrest";
    assert_eq!(forked(Some(old), Some("id")), "{\"assistant\":\"a\"}\nno json\n");
}

#[test]
fn append_raw_line_persists_user_message_id() {
    let prompt = UserPrompt::new("hello".to_string());
    let message_id = prompt.message_id.clone().unwrap();
    let append = manager().append_raw_line("s", "", Some(AcpEvent::User(prompt))).unwrap();
    assert_eq!(append.path.root, "/tmp/sessions");
    assert_eq!(append.path.parts, vec!["s.jsonl".to_string()]);
    let content = line_of(Some(append.record));
    let value = parsed(content.trim());
    assert_eq!(value["user"], "hello");
    assert_eq!(value["message_id"], message_id.as_str());
}

#[test]
fn append_raw_line_legacy_user_event_has_no_message_id() {
    let prompt = UserPrompt::deserialize(&parsed(r#""hello""#)).unwrap();
    let append = manager().append_raw_line("s", "", Some(AcpEvent::User(prompt))).unwrap();
    let value = parsed(&line_of(Some(append.record)));
    assert_eq!(value["user"], "hello");
    assert!(value.get("message_id").is_none());
}

#[test]
fn a_stored_prompt_is_found_by_its_id() {
    let prompt = UserPrompt {
        prompt: "two\nlines \"quoted\"".to_string(),
        message_id: Some("id-7".to_string()),
    };
    let line = line_of(SessionManager::normalize_session_event(AcpEvent::User(prompt)));
    assert!(!line.contains('\n'));
    assert!(SessionManager::is_user_message_with_id(&line, "id-7"));
    assert!(!SessionManager::is_user_message_with_id(&line, "id-8"));
    assert!(!SessionManager::is_user_message_with_id("no json", "id-7"));
    assert!(!SessionManager::is_user_message_with_id(r#"{"message_id":"id-7"}"#, "id-7"));
    assert!(!SessionManager::is_user_message_with_id(r#"{"user":1,"message_id":7}"#, "7"));
}

#[test]
fn stored_history_is_cut_where_a_stored_prompt_stands() {
    let first = line_of(SessionManager::normalize_session_event(AcpEvent::Message(
        ContentBlock::Text("earlier".to_string()),
    )));
    let second = line_of(SessionManager::normalize_session_event(AcpEvent::User(UserPrompt {
        prompt: "undo me".to_string(),
        message_id: Some("m-1".to_string()),
    })));
    let old = stored(&[&first, &second, "{}"]);
    assert_eq!(forked(Some(&old), Some("m-1")), format!("{first}\n"));
}

#[test]
fn texts_are_stored_in_a_short_form() {
    let message = SessionManager::normalize_session_event(AcpEvent::Message(ContentBlock::Text(
        "hi".to_string(),
    )));
    assert_eq!(line_of(message), r#"{"assistant":"hi"}"#);
    let thought = SessionManager::normalize_session_event(AcpEvent::Thought(ContentBlock::Text(
        "hm".to_string(),
    )));
    assert_eq!(line_of(thought), r#"{"thinking":"hm"}"#);
    let user = SessionManager::normalize_session_event(AcpEvent::User(UserPrompt {
        prompt: "do".to_string(),
        message_id: Some("i".to_string()),
    }));
    assert_eq!(line_of(user), r#"{"user":"do","message_id":"i"}"#);
}

#[test]
fn the_frame_of_a_session_is_not_stored() {
    for event in [
        AcpEvent::SessionStart("s".to_string()),
        AcpEvent::Error("e".to_string()),
        AcpEvent::Done("d".to_string()),
    ] {
        assert!(SessionManager::normalize_session_event(event).is_none());
    }
}

#[test]
fn of_a_permission_request_the_tool_call_is_stored() {
    let request = RequestPermissionRequest {
        session_id: "s1".to_string(),
        tool_call: ToolCallUpdate {
            tool_call_id: "t".to_string(),
            title: None,
            kind: None,
            status: None,
            content: None,
            locations: None,
            raw_input: None,
            raw_output: None,
        },
        options: vec![PermissionOption {
            option_id: "allow".to_string(),
            name: "Allow".to_string(),
            kind: PermissionOptionKind::AllowOnce,
        }],
    };
    match SessionManager::normalize_session_event(AcpEvent::RequestPermission(request, None)) {
        Some(SessionRecord::Event(AcpEvent::ToolUpdate(update))) => {
            assert_eq!(update.tool_call_id, "t");
        }
        other => panic!("expected a tool update, got {other:?}"),
    }
    let content = AcpEvent::Message(ContentBlock::Other("image".to_string()));
    assert!(matches!(
        SessionManager::normalize_session_event(content),
        Some(SessionRecord::Event(AcpEvent::Message(ContentBlock::Other(_))))
    ));
}

#[test]
fn user_event_legacy_format_parses() {
    let user = UserPrompt::deserialize(&parsed(r#""hello world""#)).unwrap();
    assert_eq!(user.prompt, "hello world");
    assert_eq!(user.message_id, None);
}

#[test]
fn user_event_with_message_id_round_trips() {
    let prompt = UserPrompt::new("fix the bug".to_string());
    let line = prompt.serialize().to_string();
    let user = UserPrompt::deserialize(&parsed(&line)).unwrap();
    assert_eq!(user.prompt, "fix the bug");
    assert!(user.message_id.is_some());
    assert_eq!(user.message_id, prompt.message_id);
}

#[test]
fn user_event_object_without_message_id_parses() {
    let user = UserPrompt::deserialize(&parsed(r#"{"prompt":"hi"}"#)).unwrap();
    assert_eq!(user.prompt, "hi");
    assert_eq!(user.message_id, None);
    assert_eq!(user.serialize().to_string(), r#"{"prompt":"hi"}"#);
}

#[test]
fn what_is_no_prompt_is_not_read_as_one() {
    assert!(UserPrompt::deserialize(&parsed("7")).is_none());
    assert!(UserPrompt::deserialize(&parsed(r#"{"message_id":"x"}"#)).is_none());
    assert!(UserPrompt::deserialize(&parsed(r#"{"prompt":"x","message_id":1}"#)).is_none());
    let user = UserPrompt::deserialize(&parsed(r#"{"prompt":"x","message_id":null}"#)).unwrap();
    assert_eq!(user.message_id, None);
}

#[test]
fn sessions_are_kept_under_the_home_directory() {
    let home = Some("/home/u".to_string());
    let manager = SessionManager::new("kimi_sessions", home.clone(), false).unwrap();
    assert_eq!(manager.base_dir().root, "/home/u");
    assert_eq!(manager.base_dir().parts, vec![".vibe-kanban", "kimi_sessions"]);
    let debug = SessionManager::new("kimi_sessions", home, true).unwrap();
    assert_eq!(debug.base_dir().parts, vec![".vibe-kanban", "dev", "kimi_sessions"]);
    assert_eq!(
        debug.session_file_path("abc").parts,
        vec![".vibe-kanban", "dev", "kimi_sessions", "abc.jsonl"]
    );
    let error = SessionManager::new("x", None, false).unwrap_err();
    assert_eq!(error, SessionError::NoHomeDirectory);
    assert_eq!(error.message(), "Could not determine home directory");
}

#[test]
fn a_session_is_deleted_where_it_is_there() {
    assert_eq!(manager().delete_session("a", true).unwrap().parts, vec!["a.jsonl"]);
    assert!(manager().delete_session("a", false).is_none());
    assert_eq!(manager().read_session_raw(None), "");
    assert_eq!(manager().read_session_raw(Some("x\n".to_string())), "x\n");
}

#[test]
fn a_resume_prompt_carries_history_and_request() {
    let prompt = manager().generate_resume_prompt(Some("HISTORY".to_string()), "REQUEST");
    assert_eq!(
        prompt,
        "RESUME CONTEXT FOR CONTINUING TASK\n\n=== EXECUTION HISTORY ===\nThe following is the \
         conversation history from this session:\nHISTORY\n\n=== CURRENT REQUEST ===\nREQUEST\n\n\
         === INSTRUCTIONS ===\nYou are continuing work on the above task. The execution history \
         shows the previous conversation in this session. Please continue from where the previous \
         execution left off, taking into account all the context provided above."
    );
    assert!(manager().generate_resume_prompt(None, "R").contains("this session:\n\n\n==="));
}

#[test]
fn a_raw_notification_is_stored_under_its_kind() {
    let raw = r#"{"sessionId":"s1","update":{"sessionUpdate":"agent_message_chunk","content":{"type":"text","text":"hi"}}}"#;
    let stored = SessionManager::normalize_notification(parsed(raw)).unwrap();
    assert_eq!(stored, parsed(r#"{"agentMessageChunk":{"content":{"type":"text","text":"hi"}}}"#));
    assert_eq!(
        line_of(SessionManager::normalize_raw_line(raw)),
        r#"{"agentMessageChunk":{"content":{"type":"text","text":"hi"}}}"#
    );
    let append = manager().append_raw_line("s", raw, None).unwrap();
    assert_eq!(append.path.parts, vec!["s.jsonl".to_string()]);
    assert_eq!(
        line_of(Some(append.record)),
        r#"{"agentMessageChunk":{"content":{"type":"text","text":"hi"}}}"#
    );
}

#[test]
fn a_notification_without_an_update_loses_its_session_and_options() {
    let stored = |raw: &str| line_of(SessionManager::normalize_raw_line(raw));
    assert_eq!(stored(r#"{"a":1,"sessionId":"s","options":[2],"b":3}"#), r#"{"a":1,"b":3}"#);
    assert_eq!(
        stored(r#"{"sessionId":"s","update":{"x":1},"options":[2]}"#),
        r#"{"update":{"x":1},"options":[2]}"#
    );
    assert_eq!(stored(r#"{"update":{"sessionUpdate":7}}"#), r#"{"update":{"sessionUpdate":7}}"#);
    assert_eq!(stored(r#"{"update":7,"sessionId":"s"}"#), r#"{"update":7}"#);
    assert_eq!(stored("{}"), "{}");
}

#[test]
fn what_is_no_object_is_not_stored() {
    for raw in ["", "no json", "[1]", "7", "null", r#""text""#] {
        assert!(SessionManager::normalize_raw_line(raw).is_none());
        assert!(manager().append_raw_line("s", raw, None).is_none());
    }
}

#[test]
fn known_slash_commands_are_not_probed_for() {
    let probed = || {
        vec![
            AvailableCommand { name: "a".to_string(), description: String::new() },
            AvailableCommand { name: "b".to_string(), description: "does b".to_string() },
        ]
    };
    let found = slash_commands(None, probed());
    assert_eq!(found.len(), 2);
    assert_eq!(found[0].description, None);
    assert_eq!(found[1].description.as_deref(), Some("does b"));
    let cached = vec![SlashCommandDescription { name: "c".to_string(), description: None }];
    let found = slash_commands(Some(cached), probed());
    assert_eq!(found.len(), 1);
    assert_eq!(found[0].name, "c");
}

#[test]
fn a_document_is_a_record_by_its_members() {
    let record = parsed(r#"{"user":null,"message_id":"m"}"#);
    assert!(SessionManager::is_record_with_id(&record, "m"));
    assert!(!SessionManager::is_record_with_id(&record, "n"));
    assert!(!SessionManager::is_record_with_id(&parsed(r#"["user","m"]"#), "m"));
}

#[test]
fn kept_lines_end_in_line_feeds() {
    let lines = vec!["a".to_string(), String::new(), "b".to_string()];
    assert_eq!(SessionManager::keep_lines(&lines, 2), "a\n\n");
    assert_eq!(SessionManager::keep_lines(&lines, 0), "");
    assert_eq!(SessionManager::keep_lines(&vec![String::new()], 1), "");
}
