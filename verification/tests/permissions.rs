use executors::acp::client::{
    AcpClient, ClientError, CreatedApproval, PermissionAction, WaitingPermission,
};
use executors::acp::permission::{
    choose_unattended, format_answer_feedback, match_question_option, skip_option,
};
use executors::acp::types::{
    ContentBlock, PermissionOption, PermissionOptionKind, RequestPermissionOutcome,
    RequestPermissionRequest, SessionNotification, SessionUpdate, ToolCallUpdate,
};
use executors::acp::AcpEvent;
use executors::approvals::{
    ApprovalService, ApprovalStatus, ExecutorApprovalError, QuestionAnswer, QuestionStatus,
    Timestamp,
};

fn option(id: &str, name: &str, kind: PermissionOptionKind) -> PermissionOption {
    PermissionOption { option_id: id.to_string(), name: name.to_string(), kind }
}

/// One option that allows for each answer, and one that dismisses the question.
fn question_options() -> Vec<PermissionOption> {
    vec![
        option("q0_opt_0", "方案 A", PermissionOptionKind::AllowOnce),
        option("q0_opt_1", "方案 B", PermissionOptionKind::AllowOnce),
        option("q0_skip", "Skip", PermissionOptionKind::RejectOnce),
    ]
}

fn answered(question: &str, labels: &[&str]) -> QuestionAnswer {
    QuestionAnswer {
        question: question.to_string(),
        answer: labels.iter().map(|s| s.to_string()).collect(),
    }
}

fn request(title: Option<&str>, options: Vec<PermissionOption>) -> RequestPermissionRequest {
    RequestPermissionRequest {
        session_id: "s1".to_string(),
        tool_call: ToolCallUpdate {
            tool_call_id: "0:tool_x".to_string(),
            title: title.map(|t| t.to_string()),
            kind: None,
            status: None,
            content: None,
            locations: None,
            raw_input: None,
            raw_output: None,
        },
        options,
    }
}

fn selected(outcome: &RequestPermissionOutcome) -> Option<String> {
    match outcome {
        RequestPermissionOutcome::Selected { option_id } => Some(option_id.clone()),
        RequestPermissionOutcome::Cancelled => None,
    }
}

fn waiting(options: Vec<PermissionOption>) -> WaitingPermission {
    WaitingPermission {
        approval_id: "ap-1".to_string(),
        tool_call_id: "0:tool_x".to_string(),
        options,
    }
}

const SERVICE: ApprovalService = ApprovalService { handle: 7 };

#[test]
fn match_question_option_maps_label_to_offered_option() {
    let options = question_options();
    let answers = vec![answered("按哪个方案改?", &["方案 B"])];
    let (selected, additional, custom) = match_question_option(&options, &answers);
    assert_eq!(selected.unwrap(), "q0_opt_1");
    assert!(additional.is_empty());
    assert!(custom.is_empty());
}

#[test]
fn match_question_option_never_maps_an_answer_to_the_skip_option() {
    let options = question_options();
    let answers = vec![answered("q", &["Skip"])];
    let (selected, additional, custom) = match_question_option(&options, &answers);
    assert!(selected.is_none());
    assert!(additional.is_empty());
    assert_eq!(custom.len(), 1);
}

#[test]
fn match_question_option_collects_custom_answers() {
    let options = question_options();
    let answers = vec![answered("q", &["自定义回答"])];
    let (selected, additional, custom) = match_question_option(&options, &answers);
    assert!(selected.is_none());
    assert!(additional.is_empty());
    assert_eq!(custom[0].answer, vec!["自定义回答".to_string()]);
}

#[test]
fn match_question_option_only_maps_the_first_question() {
    let options = question_options();
    let answers = vec![answered("q1", &["方案 A"]), answered("q2", &["方案 B"])];
    let (selected, additional, custom) = match_question_option(&options, &answers);
    assert_eq!(selected.unwrap(), "q0_opt_0");
    assert_eq!(additional.len(), 1);
    assert_eq!(additional[0].question, "q2");
    assert!(custom.is_empty());
}

#[test]
fn match_question_option_treats_extra_multi_select_labels_as_additional() {
    let options = question_options();
    let answers = vec![answered("q1", &["方案 A", "方案 B"])];
    let (selected, additional, custom) = match_question_option(&options, &answers);
    assert_eq!(selected.unwrap(), "q0_opt_0");
    assert_eq!(additional.len(), 1);
    assert_eq!(additional[0].answer, vec!["方案 B".to_string()]);
    assert!(custom.is_empty());
}

#[test]
fn every_label_ends_up_somewhere() {
    let options = question_options();
    let answers = vec![
        answered("q1", &["mine", "方案 B", "方案 A", "方案 B"]),
        answered("q2", &[]),
        answered("q3", &["x"]),
    ];
    let (selected, additional, custom) = match_question_option(&options, &answers);
    assert_eq!(selected.unwrap(), "q0_opt_1");
    assert_eq!(additional.len(), 2);
    assert_eq!(additional[0].question, "q1");
    assert_eq!(additional[0].answer, vec!["方案 A".to_string(), "方案 B".to_string()]);
    assert_eq!(additional[1].question, "q3");
    assert_eq!(additional[1].answer, vec!["x".to_string()]);
    assert_eq!(custom.len(), 1);
    assert_eq!(custom[0].answer, vec!["mine".to_string()]);
}

#[test]
fn no_answers_select_nothing() {
    let (selected, additional, custom) = match_question_option(&question_options(), &vec![]);
    assert!(selected.is_none());
    assert!(additional.is_empty());
    assert!(custom.is_empty());
}

#[test]
fn skip_option_finds_the_reject_once_option() {
    let options = question_options();
    assert_eq!(skip_option(&options).unwrap().option_id, "q0_skip");

    let without_skip = vec![option("allow", "Allow", PermissionOptionKind::AllowOnce)];
    assert!(skip_option(&without_skip).is_none());
}

#[test]
fn format_answer_feedback_keeps_questions_and_labels() {
    let feedback = format_answer_feedback("header:", &vec![answered("q1", &["x", "y"])]);
    assert!(feedback.starts_with("header:"));
    assert!(feedback.contains("q1: x, y"));
    assert_eq!(feedback, "header:\n- q1: x, y");
    let two = vec![answered("q1", &["x"]), answered("q2", &["y", "z"])];
    assert_eq!(format_answer_feedback("h", &two), "h\n- q1: x\n- q2: y, z");
    assert_eq!(format_answer_feedback("h", &vec![]), "h\n");
}

#[test]
fn unattended_requests_prefer_to_allow_once() {
    let options = vec![
        option("deny", "No", PermissionOptionKind::RejectOnce),
        option("always", "Always", PermissionOptionKind::AllowAlways),
        option("once", "Once", PermissionOptionKind::AllowOnce),
    ];
    assert_eq!(selected(&choose_unattended(&options, false)).unwrap(), "once");
    let options = vec![
        option("deny", "No", PermissionOptionKind::RejectOnce),
        option("always", "Always", PermissionOptionKind::AllowAlways),
    ];
    assert_eq!(selected(&choose_unattended(&options, false)).unwrap(), "always");
    let options = vec![option("never", "Never", PermissionOptionKind::RejectAlways)];
    assert_eq!(selected(&choose_unattended(&options, false)).unwrap(), "never");
    assert!(selected(&choose_unattended(&vec![], false)).is_none());
}

#[test]
fn unattended_questions_are_dismissed_and_never_answered() {
    assert_eq!(selected(&choose_unattended(&question_options(), true)).unwrap(), "q0_skip");
    let options = vec![option("a", "A", PermissionOptionKind::AllowOnce)];
    assert!(selected(&choose_unattended(&options, true)).is_none());
}

#[test]
fn without_a_service_a_request_is_answered_at_once() {
    let mut client = AcpClient::new(None);
    let options = vec![option("once", "Once", PermissionOptionKind::AllowOnce)];
    match client.request_permission(request(Some("Write file"), options)) {
        PermissionAction::Respond(Ok(outcome)) => {
            assert_eq!(selected(&outcome).unwrap(), "once");
        }
        other => panic!("expected an answer, got {other:?}"),
    }
    let events = client.take_events();
    assert_eq!(events.len(), 1);
    assert!(matches!(&events[0], AcpEvent::RequestPermission(_, None)));
    assert!(client.take_events().is_empty());
}

#[test]
fn without_a_service_a_question_is_dismissed() {
    let mut client = AcpClient::new(None);
    match client.request_permission(request(Some("AskUserQuestion"), question_options())) {
        PermissionAction::Respond(Ok(outcome)) => {
            assert_eq!(selected(&outcome).unwrap(), "q0_skip");
        }
        other => panic!("expected an answer, got {other:?}"),
    }
}

#[test]
fn with_a_service_an_approval_is_created_first() {
    let mut client = AcpClient::new(Some(SERVICE));
    match client.request_permission(request(Some("Write file"), vec![])) {
        PermissionAction::CreateToolApproval { title, .. } => assert_eq!(title, "Write file"),
        other => panic!("expected a tool approval, got {other:?}"),
    }
    match client.request_permission(request(None, vec![])) {
        PermissionAction::CreateToolApproval { title, .. } => assert_eq!(title, "tool"),
        other => panic!("expected a tool approval, got {other:?}"),
    }
    match client.request_permission(request(Some("AskUserQuestion"), question_options())) {
        PermissionAction::CreateQuestionApproval { title, question_count, .. } => {
            assert_eq!(title, "AskUserQuestion");
            assert_eq!(question_count, 1);
        }
        other => panic!("expected a question approval, got {other:?}"),
    }
    assert!(client.take_events().is_empty());
}

#[test]
fn a_created_approval_is_linked_to_the_request() {
    let mut client = AcpClient::new(Some(SERVICE));
    let now = Timestamp { seconds: 1_000, nanos: 5 };
    let created = client.approval_created(
        request(Some("Write file"), question_options()),
        Ok("ap-9".to_string()),
        now,
        600,
    );
    match created {
        CreatedApproval::Wait(waiting) => {
            assert_eq!(waiting.approval_id, "ap-9");
            assert_eq!(waiting.tool_call_id, "0:tool_x");
            assert_eq!(waiting.options.len(), 3);
            assert_eq!(waiting.options[2].option_id, "q0_skip");
        }
        other => panic!("expected to wait, got {other:?}"),
    }
    let events = client.take_events();
    match &events[0] {
        AcpEvent::RequestPermission(_, Some(meta)) => {
            assert_eq!(meta.approval_id, "ap-9");
            assert_eq!(meta.requested_at, now);
            assert_eq!(meta.timeout_at, Timestamp { seconds: 1_600, nanos: 5 });
        }
        other => panic!("expected a linked request, got {other:?}"),
    }
}

#[test]
fn an_approval_that_cannot_be_created_ends_the_request() {
    let mut client = AcpClient::new(Some(SERVICE));
    let now = Timestamp { seconds: 0, nanos: 0 };
    let cancelled = client.approval_created(
        request(None, vec![]),
        Err(ExecutorApprovalError::Cancelled),
        now,
        0,
    );
    assert!(matches!(
        cancelled,
        CreatedApproval::Respond(Ok(RequestPermissionOutcome::Cancelled))
    ));
    let failed = client.approval_created(
        request(None, vec![]),
        Err(ExecutorApprovalError::RequestFailed { message: "down".to_string() }),
        now,
        0,
    );
    assert!(matches!(
        failed,
        CreatedApproval::Respond(Err(ClientError::InternalError { data: None }))
    ));
    let gone = client.approval_created(
        request(None, vec![]),
        Err(ExecutorApprovalError::ServiceUnavailable),
        now,
        0,
    );
    assert!(matches!(
        gone,
        CreatedApproval::Respond(Err(ClientError::InternalError { data: None }))
    ));
    assert_eq!(client.take_events().len(), 3);
}

#[test]
fn an_approved_tool_call_is_allowed_once() {
    let mut client = AcpClient::new(Some(SERVICE));
    let options = vec![
        option("always", "Always", PermissionOptionKind::AllowAlways),
        option("once", "Once", PermissionOptionKind::AllowOnce),
    ];
    let reply = client.tool_approval_resolved(waiting(options), Ok(ApprovalStatus::Approved));
    assert_eq!(selected(&reply.unwrap()).unwrap(), "once");
    assert_eq!(client.take_events().len(), 1);

    let options = vec![option("always", "Always", PermissionOptionKind::AllowAlways)];
    let reply = client.tool_approval_resolved(waiting(options), Ok(ApprovalStatus::Approved));
    assert_eq!(reply.unwrap_err(), ClientError::InvalidRequest);
    assert!(client.take_events().is_empty());
}

#[test]
fn a_denial_is_answered_and_its_reason_queued() {
    let mut client = AcpClient::new(Some(SERVICE));
    let denied = ApprovalStatus::Denied { reason: Some("  use another file \n".to_string()) };
    let reply = client.tool_approval_resolved(waiting(question_options()), Ok(denied));
    assert_eq!(selected(&reply.unwrap()).unwrap(), "q0_skip");
    assert_eq!(client.drain_feedback(), vec!["use another file".to_string()]);
    assert!(client.drain_feedback().is_empty());
    match &client.take_events()[0] {
        AcpEvent::ApprovalResponse(response) => {
            assert_eq!(response.tool_call_id, "0:tool_x");
            assert!(matches!(response.status, ApprovalStatus::Denied { .. }));
        }
        other => panic!("expected a response, got {other:?}"),
    }
    let denied = ApprovalStatus::Denied { reason: None };
    let reply = client.tool_approval_resolved(waiting(vec![]), Ok(denied));
    assert!(selected(&reply.unwrap()).is_none());
    assert!(client.drain_feedback().is_empty());
}

#[test]
fn an_approval_that_times_out_cancels_the_request() {
    let mut client = AcpClient::new(Some(SERVICE));
    for status in [ApprovalStatus::TimedOut, ApprovalStatus::Pending] {
        let reply = client.tool_approval_resolved(waiting(question_options()), Ok(status));
        assert!(selected(&reply.unwrap()).is_none());
    }
    let reply = client
        .tool_approval_resolved(waiting(vec![]), Err(ExecutorApprovalError::Cancelled));
    assert!(selected(&reply.unwrap()).is_none());
    assert_eq!(client.take_events().len(), 2);
}

#[test]
fn an_answered_question_selects_its_option_and_queues_the_rest() {
    let mut client = AcpClient::new(Some(SERVICE));
    let status = QuestionStatus::Answered {
        answers: vec![answered("q1", &["方案 A", "own words"]), answered("q2", &["y"])],
    };
    let reply = client.question_resolved(waiting(question_options()), Ok(status));
    assert_eq!(selected(&reply.unwrap()).unwrap(), "q0_opt_0");
    assert_eq!(
        client.drain_feedback(),
        vec![
            "The user also answered additional question(s):\n- q2: y".to_string(),
            "The user answered the question(s) with custom text:\n- q1: own words".to_string(),
        ]
    );
    assert!(matches!(&client.take_events()[0], AcpEvent::QuestionResponse(_)));
}

#[test]
fn a_custom_answer_dismisses_the_question() {
    let mut client = AcpClient::new(Some(SERVICE));
    let status = QuestionStatus::Answered { answers: vec![answered("q", &["else"])] };
    let reply = client.question_resolved(waiting(question_options()), Ok(status));
    assert_eq!(selected(&reply.unwrap()).unwrap(), "q0_skip");
    assert_eq!(client.drain_feedback().len(), 1);
    let reply = client.question_resolved(waiting(question_options()), Ok(QuestionStatus::TimedOut));
    assert!(selected(&reply.unwrap()).is_none());
    let reply = client.question_resolved(
        waiting(question_options()),
        Err(ExecutorApprovalError::ServiceUnavailable),
    );
    assert_eq!(reply.unwrap_err(), ClientError::InternalError { data: None });
}

#[test]
fn blank_feedback_is_not_queued() {
    let mut client = AcpClient::new(None);
    client.enqueue_feedback(" \n\t".to_string());
    client.enqueue_feedback("\u{3000}好\u{3000}".to_string());
    assert_eq!(client.drain_feedback(), vec!["好".to_string()]);
}

#[test]
fn a_user_prompt_is_recorded_with_an_id_of_its_own() {
    let mut client = AcpClient::new(None);
    client.record_user_prompt_event("fix the bug");
    client.record_user_prompt_event("fix the bug");
    let events = client.take_events();
    let mut ids = Vec::new();
    for event in &events {
        match event {
            AcpEvent::User(prompt) => {
                assert_eq!(prompt.prompt, "fix the bug");
                ids.push(prompt.message_id.clone().unwrap());
            }
            other => panic!("expected a prompt, got {other:?}"),
        }
    }
    assert_eq!(ids[0].len(), 36);
    assert_eq!(&ids[0][14..15], "4");
    assert_ne!(ids[0], ids[1]);
}

#[test]
fn notifications_become_events() {
    let mut client = AcpClient::new(None);
    client.session_notification(SessionNotification {
        session_id: "s1".to_string(),
        update: SessionUpdate::AgentMessageChunk(ContentBlock::Text("hi".to_string())),
    });
    client.session_notification(SessionNotification {
        session_id: "s1".to_string(),
        update: SessionUpdate::CurrentModeUpdate("plan".to_string()),
    });
    let events = client.take_events();
    assert!(matches!(&events[0], AcpEvent::Message(ContentBlock::Text(text)) if text == "hi"));
    match &events[1] {
        AcpEvent::Other(notification) => assert_eq!(notification.session_id, "s1"),
        other => panic!("expected another event, got {other:?}"),
    }
}

#[test]
fn an_update_of_a_known_kind_is_an_event() {
    let known = SessionNotification {
        session_id: "s1".to_string(),
        update: SessionUpdate::CurrentModeUpdate("plan".to_string()),
    };
    assert!(matches!(AcpEvent::try_from(known), Ok(AcpEvent::CurrentMode(mode)) if mode == "plan"));
    let unknown = SessionNotification {
        session_id: "s1".to_string(),
        update: SessionUpdate::Other("user_message_chunk".to_string()),
    };
    assert!(AcpEvent::try_from(unknown).is_err());
}
