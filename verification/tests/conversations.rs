use executors::acp::normalize_logs::{
    normalize_logs, EntryIndexProvider, LogEffect, LogNormalizer,
};
use executors::acp::tool_calls::{
    extract_tool_name_from_id, extract_url_from_text, AcpEventParser, PartialToolCallData,
};
use executors::acp::tool_inputs::parse_ask_user_questions;
use executors::acp::types::{
    AvailableCommand, ContentBlock, Diff, PermissionOption, PermissionOptionKind, PlanEntry,
    RequestPermissionRequest, ToolCall, ToolCallContent, ToolCallLocation, ToolCallStatus,
    ToolCallUpdate, ToolKind,
};
use executors::acp::{AcpEvent, ApprovalResponse, QuestionResponse, UserPrompt};
use executors::approvals::{
    ApprovalStatus, PendingApprovalMeta, QuestionAnswer, QuestionStatus, Timestamp,
};
use executors::logs::stdout_processor::stdout_entry;
use executors::logs::{
    ActionType, CommandExitStatus, FileChange, NormalizedEntry, NormalizedEntryType, ToolStatus,
    ToolResultValueType, UnifiedDiff,
};

/// 2026-07-18T01:00:00Z
const REQUESTED_AT: Timestamp = Timestamp { seconds: 1_784_336_400, nanos: 0 };
/// 2026-07-18T11:00:00Z
const TIMEOUT_AT: Timestamp = Timestamp { seconds: 1_784_372_400, nanos: 0 };

fn json(text: &str) -> Option<serde_json::Value> {
    Some(serde_json::from_str(text).unwrap())
}

fn tool_call(id: &str, title: &str) -> ToolCall {
    ToolCall {
        tool_call_id: id.to_string(),
        title: title.to_string(),
        kind: ToolKind::Other,
        status: ToolCallStatus::InProgress,
        content: vec![],
        locations: vec![],
        raw_input: None,
        raw_output: None,
    }
}

fn update(id: &str, title: Option<&str>) -> ToolCallUpdate {
    ToolCallUpdate {
        tool_call_id: id.to_string(),
        title: title.map(|t| t.to_string()),
        kind: None,
        status: None,
        content: None,
        locations: None,
        raw_input: None,
        raw_output: None,
    }
}

fn meta(approval_id: &str) -> PendingApprovalMeta {
    PendingApprovalMeta {
        approval_id: approval_id.to_string(),
        requested_at: REQUESTED_AT,
        timeout_at: TIMEOUT_AT,
    }
}

fn tool_call_event() -> AcpEvent {
    AcpEvent::ToolCall(tool_call("0:tool_x", "ExitPlanMode"))
}

fn permission_event() -> AcpEvent {
    let mut tool_call = update("0:tool_x", Some("ExitPlanMode"));
    tool_call.status = Some(ToolCallStatus::InProgress);
    tool_call.content = Some(vec![]);
    AcpEvent::RequestPermission(
        RequestPermissionRequest {
            session_id: "s1".to_string(),
            tool_call,
            options: vec![PermissionOption {
                option_id: "allow".to_string(),
                name: "Allow".to_string(),
                kind: PermissionOptionKind::AllowOnce,
            }],
        },
        Some(meta("ap-1")),
    )
}

const QUESTIONS: &str = "{\"questions\":[{\"question\":\"按哪个方案修改 release.yml?\",\"header\":\"下载源\",\"options\":[{\"label\":\"方案 A: 复用 R2\",\"description\":\"改动最小\"},{\"label\":\"方案 B: 自建服务器\",\"description\":\"速度最好\"}],\"multiSelect\":false}]}";

fn question_event() -> AcpEvent {
    let mut call = tool_call("0:ask_1", "AskUserQuestion");
    call.raw_input = json(QUESTIONS);
    AcpEvent::ToolCall(call)
}

fn run(events: Vec<AcpEvent>) -> Vec<LogEffect> {
    let mut index = EntryIndexProvider::start_from(0);
    normalize_logs(events, &mut index)
}

fn entry_of(effect: &LogEffect) -> Option<&NormalizedEntry> {
    match effect {
        LogEffect::Add { entry, .. } | LogEffect::Replace { entry, .. } => Some(entry),
        LogEffect::PushSessionId { .. } => None,
    }
}

fn status_of(effect: &LogEffect) -> Option<&ToolStatus> {
    match &entry_of(effect)?.entry_type {
        NormalizedEntryType::ToolUse { status, .. } => Some(status),
        _ => None,
    }
}

fn action_of(effect: &LogEffect) -> &ActionType {
    match &entry_of(effect).unwrap().entry_type {
        NormalizedEntryType::ToolUse { action_type, .. } => action_type,
        other => panic!("expected a tool use, got {other:?}"),
    }
}

fn is_pending(effect: &LogEffect, id: &str) -> bool {
    matches!(
        status_of(effect),
        Some(ToolStatus::PendingApproval { approval_id, requested_at, timeout_at })
            if approval_id == id && *requested_at == REQUESTED_AT && *timeout_at == TIMEOUT_AT
    )
}

fn action(change: impl FnOnce(&mut ToolCall)) -> (ActionType, String) {
    let mut call = tool_call("tool-7", "some title");
    change(&mut call);
    let mut data = PartialToolCallData::default();
    data.extend(call);
    (data.map_to_action_type(), data.get_tool_content())
}

#[test]
fn permission_request_marks_tool_call_pending_approval() {
    let effects = run(vec![tool_call_event(), permission_event()]);
    assert!(effects.iter().any(|e| is_pending(e, "ap-1")));
    assert_eq!(effects.len(), 3);
    assert!(matches!(effects[0], LogEffect::Add { index: 0, .. }));
    assert!(matches!(effects[1], LogEffect::Replace { index: 0, .. }));
    assert!(matches!(effects[2], LogEffect::Replace { index: 0, .. }));
}

#[test]
fn elicitation_marks_tool_call_pending_approval() {
    let elicitation = AcpEvent::Elicitation {
        tool_call_id: "0:ask_1".to_string(),
        meta: Some(meta("ap-e1")),
    };
    let effects = run(vec![question_event(), elicitation]);
    assert!(effects.iter().any(|e| is_pending(e, "ap-e1")));
}

#[test]
fn approval_response_sets_final_tool_status() {
    let response = AcpEvent::ApprovalResponse(ApprovalResponse {
        tool_call_id: "0:tool_x".to_string(),
        status: ApprovalStatus::Denied { reason: Some("nope".to_string()) },
    });
    let effects = run(vec![tool_call_event(), permission_event(), response]);
    let pending = effects.iter().position(|e| is_pending(e, "ap-1"));
    let denied = effects
        .iter()
        .rposition(|e| matches!(status_of(e), Some(ToolStatus::Denied { reason: Some(_) })));
    assert!(pending.is_some());
    assert!(denied.is_some_and(|d| Some(d) > pending));
    let last = entry_of(effects.last().unwrap()).unwrap();
    assert_eq!(last.content, "nope");
    assert!(matches!(
        &last.entry_type,
        NormalizedEntryType::UserFeedback { denied_tool } if denied_tool == "ExitPlanMode"
    ));
}

#[test]
fn question_tool_call_maps_to_ask_user_question_action() {
    let effects = run(vec![question_event()]);
    match action_of(&effects[0]) {
        ActionType::AskUserQuestion { questions } => {
            assert_eq!(questions[0].question, "按哪个方案修改 release.yml?");
            assert_eq!(questions[0].header, "下载源");
            assert_eq!(questions[0].options[0].label, "方案 A: 复用 R2");
            assert_eq!(questions[0].options[1].description, "速度最好");
            assert!(!questions[0].multi_select);
        }
        other => panic!("expected questions, got {other:?}"),
    }
    assert_eq!(entry_of(&effects[0]).unwrap().content, "Ask user question");
}

#[test]
fn question_response_resolves_pending_status_and_records_answers() {
    let mut asked = update("0:ask_1", Some("AskUserQuestion"));
    asked.status = Some(ToolCallStatus::InProgress);
    asked.content = Some(vec![]);
    let request = RequestPermissionRequest {
        session_id: "s1".to_string(),
        tool_call: asked,
        options: vec![
            PermissionOption {
                option_id: "q0_opt_0".to_string(),
                name: "方案 A: 复用 R2".to_string(),
                kind: PermissionOptionKind::AllowOnce,
            },
            PermissionOption {
                option_id: "q0_opt_1".to_string(),
                name: "方案 B: 自建服务器".to_string(),
                kind: PermissionOptionKind::AllowOnce,
            },
            PermissionOption {
                option_id: "q0_skip".to_string(),
                name: "Skip".to_string(),
                kind: PermissionOptionKind::RejectOnce,
            },
        ],
    };
    let response = QuestionResponse {
        tool_call_id: "0:ask_1".to_string(),
        status: QuestionStatus::Answered {
            answers: vec![QuestionAnswer {
                question: "按哪个方案修改 release.yml?".to_string(),
                answer: vec!["方案 A: 复用 R2".to_string()],
            }],
        },
    };
    let effects = run(vec![
        question_event(),
        AcpEvent::RequestPermission(request, Some(meta("ap-q1"))),
        AcpEvent::QuestionResponse(response),
    ]);
    let pending = effects.iter().position(|e| {
        entry_of(e).is_some()
            && is_pending(e, "ap-q1")
            && matches!(action_of(e), ActionType::AskUserQuestion { .. })
    });
    assert!(pending.is_some());
    let success = effects.iter().rposition(|e| matches!(status_of(e), Some(ToolStatus::Success)));
    assert!(success.is_some_and(|s| Some(s) > pending));
    let last = entry_of(effects.last().unwrap()).unwrap();
    assert_eq!(last.content, "Answered 1 question");
    match &last.entry_type {
        NormalizedEntryType::UserAnsweredQuestions { answers } => {
            assert_eq!(answers[0].answer, vec!["方案 A: 复用 R2".to_string()]);
        }
        other => panic!("expected answers, got {other:?}"),
    }
}

#[test]
fn question_update_with_human_title_maps_to_ask_user_question() {
    let mut later = update("0:ask_2", Some("Asking user questions"));
    later.status = Some(ToolCallStatus::InProgress);
    later.raw_input = json(
        "{\"questions\":[{\"question\":\"显示验证?\",\"header\":\"显示验证\",\"options\":[{\"label\":\"正常\",\"description\":\"ok\"}],\"multiSelect\":false}]}",
    );
    let effects = run(vec![
        AcpEvent::ToolCall(tool_call("0:ask_2", "AskUserQuestion")),
        AcpEvent::ToolUpdate(later),
        AcpEvent::Elicitation {
            tool_call_id: "0:ask_2".to_string(),
            meta: Some(meta("ap-e2")),
        },
    ]);
    assert!(effects
        .iter()
        .any(|e| is_pending(e, "ap-e2") && matches!(action_of(e), ActionType::AskUserQuestion { .. })));
}

#[test]
fn a_status_that_was_set_outlasts_reports_of_the_agent() {
    let mut done = update("0:tool_x", None);
    done.status = Some(ToolCallStatus::Completed);
    let response = AcpEvent::ApprovalResponse(ApprovalResponse {
        tool_call_id: "0:tool_x".to_string(),
        status: ApprovalStatus::Approved,
    });
    let effects = run(vec![
        tool_call_event(),
        permission_event(),
        AcpEvent::ToolUpdate(done),
        response,
    ]);
    assert_eq!(effects.len(), 5);
    assert!(is_pending(&effects[3], "ap-1"));
    assert_eq!(entry_of(&effects[3]).unwrap().content, "tool: ExitPlanMode");
    assert!(matches!(status_of(&effects[4]), Some(ToolStatus::Created)));
}

#[test]
fn a_response_that_nothing_waits_for_changes_no_tool_call() {
    let response = |status| {
        AcpEvent::ApprovalResponse(ApprovalResponse { tool_call_id: "0:tool_x".to_string(), status })
    };
    let effects = run(vec![tool_call_event(), response(ApprovalStatus::Approved)]);
    assert_eq!(effects.len(), 1);
    let effects = run(vec![response(ApprovalStatus::Denied { reason: None })]);
    assert_eq!(effects.len(), 1);
    let entry = entry_of(&effects[0]).unwrap();
    assert_eq!(entry.content, "User denied this tool use request");
    assert!(matches!(
        &entry.entry_type,
        NormalizedEntryType::UserFeedback { denied_tool } if denied_tool.is_empty()
    ));
}

#[test]
fn an_approval_that_is_still_pending_clears_the_mark() {
    let response = AcpEvent::ApprovalResponse(ApprovalResponse {
        tool_call_id: "0:tool_x".to_string(),
        status: ApprovalStatus::Pending,
    });
    let effects = run(vec![tool_call_event(), permission_event(), response]);
    assert!(matches!(status_of(effects.last().unwrap()), Some(ToolStatus::Created)));
    let response = AcpEvent::QuestionResponse(QuestionResponse {
        tool_call_id: "0:tool_x".to_string(),
        status: QuestionStatus::TimedOut,
    });
    let effects = run(vec![tool_call_event(), permission_event(), response]);
    assert!(matches!(status_of(effects.last().unwrap()), Some(ToolStatus::TimedOut)));
}

#[test]
fn pieces_of_a_message_grow_one_entry() {
    let piece = |text: &str| AcpEvent::Message(ContentBlock::Text(text.to_string()));
    let effects = run(vec![piece("\n"), piece("Hel"), piece("lo"), piece("\n")]);
    assert_eq!(effects.len(), 3);
    assert!(matches!(&effects[0], LogEffect::Add { index: 0, entry } if entry.content == "Hel"));
    assert!(matches!(&effects[1], LogEffect::Replace { index: 0, entry } if entry.content == "Hello"));
    assert!(matches!(&effects[2], LogEffect::Replace { index: 0, entry } if entry.content == "Hello\n"));
}

#[test]
fn a_thought_between_ends_the_message() {
    let piece = |text: &str| AcpEvent::Message(ContentBlock::Text(text.to_string()));
    let thought = |text: &str| AcpEvent::Thought(ContentBlock::Text(text.to_string()));
    let effects = run(vec![
        piece("a"),
        thought("\n"),
        thought("b"),
        piece("c"),
        AcpEvent::Done("end".to_string()),
        piece("d"),
        AcpEvent::Message(ContentBlock::Other("image".to_string())),
    ]);
    let contents: Vec<&str> =
        effects.iter().map(|e| entry_of(e).unwrap().content.as_str()).collect();
    assert_eq!(contents, vec!["a", "\n", "\nb", "c", "d"]);
    assert!(matches!(effects[1], LogEffect::Add { index: 1, .. }));
    assert!(matches!(effects[2], LogEffect::Replace { index: 1, .. }));
    assert!(matches!(effects[3], LogEffect::Add { index: 2, .. }));
    assert!(matches!(effects[4], LogEffect::Add { index: 3, .. }));
    assert!(matches!(entry_of(&effects[1]).unwrap().entry_type, NormalizedEntryType::Thinking));
}

#[test]
fn the_session_id_is_stored_once() {
    let effects = run(vec![
        AcpEvent::SessionStart("first".to_string()),
        AcpEvent::SessionStart("second".to_string()),
    ]);
    assert_eq!(effects.len(), 1);
    assert!(matches!(&effects[0], LogEffect::PushSessionId { id } if id == "first"));
}

#[test]
fn system_entries_say_what_happened() {
    let command = |name: &str| AvailableCommand {
        name: name.to_string(),
        description: String::new(),
    };
    let effects = run(vec![
        AcpEvent::AvailableCommands(vec![command("plan"), command("help")]),
        AcpEvent::CurrentMode("auto".to_string()),
        AcpEvent::Error("boom".to_string()),
        AcpEvent::User(UserPrompt { prompt: "x".to_string(), message_id: None }),
    ]);
    assert_eq!(effects.len(), 3);
    assert_eq!(entry_of(&effects[0]).unwrap().content, "Available commands:\n- plan\n- help\n");
    assert_eq!(entry_of(&effects[1]).unwrap().content, "Current mode: auto");
    assert!(matches!(
        entry_of(&effects[2]).unwrap().entry_type,
        NormalizedEntryType::ErrorMessage { .. }
    ));
}

#[test]
fn a_plan_becomes_a_list_of_steps() {
    let effects = run(vec![AcpEvent::Plan(vec![
        PlanEntry {
            content: "one".to_string(),
            status: Some("pending".to_string()),
            priority: Some("high".to_string()),
        },
        PlanEntry { content: "two".to_string(), status: None, priority: None },
    ])]);
    let entry = entry_of(&effects[0]).unwrap();
    assert_eq!(entry.content, "Plan updated");
    match action_of(&effects[0]) {
        ActionType::TodoManagement { todos, operation } => {
            assert_eq!(operation, "update");
            assert_eq!(todos[0].status, "pending");
            assert_eq!(todos[0].priority.as_deref(), Some("high"));
            assert_eq!(todos[1].status, "unknown");
        }
        other => panic!("expected steps, got {other:?}"),
    }
}

#[test]
fn an_update_of_an_unknown_tool_call_adds_it() {
    let effects = run(vec![AcpEvent::ToolUpdate(update("bash-3", None))]);
    assert!(matches!(&effects[0], LogEffect::Add { index: 0, entry } if entry.content == "bash"));
    let untitled = RequestPermissionRequest {
        session_id: "s".to_string(),
        tool_call: update("x", None),
        options: vec![],
    };
    assert!(run(vec![AcpEvent::RequestPermission(untitled, Some(meta("a")))]).is_empty());
    let unknown = AcpEvent::Elicitation {
        tool_call_id: "x".to_string(),
        meta: Some(meta("a")),
    };
    assert!(run(vec![unknown]).is_empty());
}

#[test]
fn each_tool_call_has_one_entry_of_its_own() {
    let message = |text: &str| AcpEvent::Message(ContentBlock::Text(text.to_string()));
    let effects = run(vec![
        message("a"),
        AcpEvent::ToolCall(tool_call("t-1", "One")),
        message("b"),
        AcpEvent::ToolUpdate(update("t-2", Some("Two"))),
        AcpEvent::ToolUpdate(update("t-1", None)),
        message("c"),
        message("d"),
        permission_event(),
        AcpEvent::ToolUpdate(update("t-2", None)),
    ]);
    let mut tools: Vec<(String, usize)> = vec![];
    let mut others: Vec<usize> = vec![];
    for effect in &effects {
        let (added, index) = match effect {
            LogEffect::Add { index, .. } => (true, *index),
            LogEffect::Replace { index, .. } => (false, *index),
            LogEffect::PushSessionId { .. } => continue,
        };
        match &entry_of(effect).unwrap().metadata {
            Some(metadata) => {
                let id = metadata.tool_call_id.clone();
                match tools.iter().find(|(known, _)| *known == id) {
                    Some((_, at)) => assert!(!added && *at == index),
                    None => {
                        assert!(added);
                        tools.push((id, index));
                    }
                }
            }
            None => others.push(index),
        }
    }
    assert_eq!(
        tools,
        vec![("t-1".to_string(), 1), ("t-2".to_string(), 3), ("0:tool_x".to_string(), 5)]
    );
    assert_eq!(others, vec![0, 2, 4, 4]);
}

#[test]
fn indices_go_on_from_where_they_are() {
    let mut index = EntryIndexProvider::start_from(5);
    let mut normalizer = LogNormalizer::new();
    let effects = normalizer.step(AcpEvent::Error("a".to_string()), &mut index);
    assert!(matches!(effects[0], LogEffect::Add { index: 5, .. }));
    assert_eq!(index.next(), 6);
    let effects = normalizer.step(AcpEvent::Error("b".to_string()), &mut index);
    assert!(matches!(effects[0], LogEffect::Add { index: 7, .. }));
}

#[test]
fn tool_names_are_taken_from_ids() {
    assert_eq!(extract_tool_name_from_id("save_memory-12").as_deref(), Some("save_memory"));
    assert_eq!(extract_tool_name_from_id("a-b-3").as_deref(), Some("a-b"));
    assert_eq!(extract_tool_name_from_id("trailing-").as_deref(), Some("trailing"));
    assert_eq!(extract_tool_name_from_id("a-b"), None);
    assert_eq!(extract_tool_name_from_id("plain"), None);
    assert_eq!(extract_tool_name_from_id(""), None);
}

#[test]
fn the_first_address_is_found() {
    assert_eq!(
        extract_url_from_text("see (https://a.example/x?y=1) and http://b").as_deref(),
        Some("https://a.example/x?y=1")
    );
    assert_eq!(extract_url_from_text("http://方案.cn 好").as_deref(), Some("http://方案.cn"));
    assert_eq!(extract_url_from_text("https:// \"x\" http://ok'").as_deref(), Some("http://ok"));
    assert_eq!(extract_url_from_text("httpss://x https://"), None);
    assert_eq!(extract_url_from_text("a\u{2003}https://x\u{2003}y").as_deref(), Some("https://x"));
}

#[test]
fn commands_come_from_the_input_or_the_title() {
    let command = |title: &str, input: Option<serde_json::Value>| {
        let mut call = tool_call("t", title);
        call.raw_input = input;
        let mut data = PartialToolCallData::default();
        data.extend(call);
        AcpEventParser::parse_execute_command(&data)
    };
    assert_eq!(command("x", json(r#"{"command":" ls "}"#)), " ls ");
    assert_eq!(command(" ls -a [current working directory /tmp] (list)", None), "ls -a");
    assert_eq!(command("ls (list)", json(r#"{"command":1}"#)), "ls (list)");
}

#[test]
fn kinds_of_tools_are_about_different_things() {
    let (found, content) = action(|call| {
        call.kind = ToolKind::Read;
        call.locations = vec![
            ToolCallLocation { path: "src/a.rs".to_string() },
            ToolCallLocation { path: "b".to_string() },
        ];
    });
    assert!(matches!(found, ActionType::FileRead { path } if path == "src/a.rs"));
    assert_eq!(content, "src/a.rs");

    let (found, content) = action(|call| {
        call.kind = ToolKind::Read;
        call.tool_call_id = "read_many_files-1".to_string();
        call.content =
            vec![ToolCallContent::Content(ContentBlock::Text("text".to_string()))];
    });
    match found {
        ActionType::Tool { tool_name, arguments, result } => {
            assert_eq!(tool_name, "read_many_files");
            assert_eq!(arguments.unwrap(), "some title");
            let result = result.unwrap();
            assert_eq!(result.value_type, ToolResultValueType::Markdown);
            assert_eq!(result.value, "text\n");
        }
        other => panic!("expected a tool, got {other:?}"),
    }
    assert_eq!(content, "Read files");

    let (found, _) = action(|call| call.kind = ToolKind::Delete);
    assert!(matches!(
        found,
        ActionType::FileEdit { changes, .. } if matches!(changes[..], [FileChange::Delete])
    ));

    let (found, content) = action(|call| {
        call.kind = ToolKind::Search;
        call.raw_input = json(r#"{"query":"q","more":1}"#);
    });
    assert!(matches!(found, ActionType::Search { query } if query == "q"));
    assert_eq!(content, "some title");
    let (found, _) = action(|call| call.kind = ToolKind::Search);
    assert!(matches!(found, ActionType::Search { query } if query == "some title"));

    let (found, _) = action(|call| {
        call.kind = ToolKind::Fetch;
        call.raw_input = json(r#"["http://in.array"]"#);
    });
    assert!(matches!(found, ActionType::WebFetch { url } if url == "http://in.array"));
    let (found, _) = action(|call| {
        call.kind = ToolKind::Fetch;
        call.title = "fetch https://x.y".to_string();
        call.raw_input = json(r#"{"url":""}"#);
    });
    assert!(matches!(found, ActionType::WebFetch { url } if url == "https://x.y"));

    let (found, _) = action(|call| call.kind = ToolKind::SwitchMode);
    assert!(matches!(found, ActionType::Other { description } if description == "switch_mode"));
}

#[test]
fn a_command_shows_its_output_and_how_it_ended() {
    let (found, content) = action(|call| {
        call.kind = ToolKind::Execute;
        call.status = ToolCallStatus::Failed;
        call.content = vec![
            ToolCallContent::Content(ContentBlock::Text("a".to_string())),
            ToolCallContent::Other,
            ToolCallContent::Content(ContentBlock::Text("b\n".to_string())),
            ToolCallContent::Content(ContentBlock::Text(String::new())),
            ToolCallContent::Content(ContentBlock::Other("image".to_string())),
        ];
    });
    match found {
        ActionType::CommandRun { command, result } => {
            assert_eq!(command, "some title");
            let result = result.unwrap();
            assert_eq!(result.exit_status, Some(CommandExitStatus::Success { success: false }));
            assert_eq!(result.output.as_deref(), Some("a\nb\n"));
        }
        other => panic!("expected a command, got {other:?}"),
    }
    assert_eq!(content, "some title");
    let (found, _) = action(|call| call.kind = ToolKind::Execute);
    assert!(matches!(
        found,
        ActionType::CommandRun { result: Some(result), .. }
            if result.exit_status.is_none() && result.output.is_none()
    ));
}

#[test]
fn edits_come_from_the_content_or_the_input() {
    let diff = |path: &str, old: Option<&str>| {
        ToolCallContent::Diff(Diff {
            path: path.to_string(),
            old_text: old.map(|t| t.to_string()),
            new_text: "new".to_string(),
        })
    };
    let (found, _) = action(|call| {
        call.kind = ToolKind::Edit;
        call.locations = vec![ToolCallLocation { path: "here".to_string() }];
        call.content = vec![diff("", Some("old")), diff("p", Some("old")), diff("q", None)];
        call.raw_input = json(r#"{"filePath":"f","diff":"d"}"#);
    });
    match found {
        ActionType::FileEdit { path, changes } => {
            assert_eq!(path, "here");
            assert!(matches!(
                &changes[0],
                FileChange::Edit { unified_diff: UnifiedDiff::Created { path, .. }, has_line_numbers: false }
                    if path == "here"
            ));
            assert!(matches!(
                &changes[1],
                FileChange::Edit { unified_diff: UnifiedDiff::Created { path, old_text, new_text }, .. }
                    if path == "p" && old_text == "old" && new_text == "new"
            ));
            assert!(matches!(&changes[2], FileChange::Write { content } if content == "new"));
        }
        other => panic!("expected an edit, got {other:?}"),
    }
    let changes = |input: &str| {
        match action(|call| {
            call.kind = ToolKind::Edit;
            call.raw_input = json(input);
        })
        .0
        {
            ActionType::FileEdit { changes, .. } => changes,
            other => panic!("expected an edit, got {other:?}"),
        }
    };
    assert!(matches!(
        &changes(r#"{"filePath":"f","diff":"d","oldString":"o","newString":"n"}"#)[..],
        [FileChange::Edit { unified_diff: UnifiedDiff::Normalized { path, diff }, has_line_numbers: true }]
            if path == "f" && diff == "d"
    ));
    assert!(matches!(
        &changes(r#"{"filePath":"f","oldString":"o","newString":"n"}"#)[..],
        [FileChange::Edit { unified_diff: UnifiedDiff::Created { old_text, .. }, has_line_numbers: false }]
            if old_text == "o"
    ));
    assert!(changes(r#"{"filePath":"f","oldString":"o"}"#).is_empty());
    assert!(changes(r#"{"diff":"d"}"#).is_empty());
}

#[test]
fn other_tools_show_arguments_and_results() {
    let (found, content) = action(|call| {
        call.title = " {\"a\": 1}".to_string();
        call.raw_output = json("[1]");
    });
    match found {
        ActionType::Tool { tool_name, arguments, result } => {
            assert_eq!(tool_name, "tool");
            assert_eq!(arguments.unwrap()["a"], 1);
            let result = result.unwrap();
            assert_eq!(result.value_type, ToolResultValueType::Json);
            assert_eq!(result.value[0], 1);
        }
        other => panic!("expected a tool, got {other:?}"),
    }
    assert_eq!(content, "tool:  {\"a\": 1}");
    let (found, _) = action(|call| call.title = "{broken".to_string());
    assert!(matches!(found, ActionType::Tool { arguments: None, result: None, .. }));
    let (found, content) = action(|call| {
        call.kind = ToolKind::Think;
        call.content = vec![ToolCallContent::Content(ContentBlock::Text("note".to_string()))];
    });
    match found {
        ActionType::Tool { arguments, result, .. } => {
            assert_eq!(
                arguments.unwrap().to_string(),
                r#"{"title":"some title","content":"note\n"}"#
            );
            assert_eq!(result.unwrap().value, "note\n");
        }
        other => panic!("expected a tool, got {other:?}"),
    }
    assert_eq!(content, "Saving memory");
}

#[test]
fn questions_are_read_by_their_shape() {
    let parse = |text: &str| parse_ask_user_questions(json(text).as_ref());
    assert!(parse_ask_user_questions(None).is_none());
    assert!(parse(r#"{"questions":[]}"#).is_none());
    assert!(parse(r#"{"questions":[{"header":"h"}]}"#).is_none());
    assert!(parse(r#"{"questions":[{"question":"q","options":[{}]}]}"#).is_none());
    assert!(parse(r#"{"questions":[{"question":"q","multiSelect":1}]}"#).is_none());
    let questions = parse(r#"{"questions":[{"question":"q","multiSelect":true}]}"#).unwrap();
    assert_eq!(questions[0].question, "q");
    assert_eq!(questions[0].header, "");
    assert!(questions[0].options.is_empty());
    assert!(questions[0].multi_select);
    let questions = parse(r#"[[["q","h",[["l","d"]],false]]]"#).unwrap();
    assert_eq!(questions[0].options[0].label, "l");
}

#[test]
fn a_tool_call_keeps_what_a_report_leaves_out() {
    let mut data = PartialToolCallData::default();
    let mut call = tool_call("t-1", "first");
    call.kind = ToolKind::Edit;
    call.raw_input = json("1");
    data.extend(call);
    let mut call = tool_call("t-1", "");
    call.status = ToolCallStatus::Pending;
    data.extend(call);
    assert_eq!(data.title, "first");
    assert_eq!(data.kind, ToolKind::Edit);
    assert_eq!(data.status, ToolCallStatus::InProgress);
    assert_eq!(data.raw_input, json("1"));
    let entry = data.build_tool_entry();
    assert_eq!(entry.metadata.unwrap().tool_call_id, "t-1");
}

#[test]
fn plain_output_loses_returns_and_escapes() {
    let entry = stdout_entry("\u{1b}[32mok\u{1b}[m\r\ndone\u{7}\r\n");
    assert_eq!(entry.content, "ok\ndone\n");
    assert!(matches!(entry.entry_type, NormalizedEntryType::AssistantMessage));
    assert_eq!(stdout_entry("a\tb\u{85}c\u{7f}方").content, "abc\u{7f}方");
}
