//! The client's side of a session with an agent.

use vstd::prelude::*;
use vstd::string::*;

use crate::approvals::{
    ApprovalService, ApprovalStatus, ExecutorApprovalError, PendingApprovalMeta, QuestionAnswer,
    QuestionAnswerView, QuestionStatus, Timestamp,
};
use crate::text;

use super::permission;
use super::tool_calls::ASK_USER_QUESTION_TITLE;
use super::types::{
    OutcomeView, PermissionOption, PermissionOptionKind, RequestPermissionOutcome,
    RequestPermissionRequest, SessionNotification, SessionUpdate,
};
use super::{AcpEvent, ApprovalResponse, QuestionResponse, UserPrompt};

verus! {

/// Why a request of the agent fails.
#[allow(inconsistent_fields)]
#[derive(Debug, PartialEq, Eq)]
pub enum ClientError {
    InvalidRequest,
    InternalError { data: Option<String> },
    InvalidParams { data: String },
}

/// What heads the answers that are valid but have no place in an outcome.
pub const ADDITIONAL_HEADER: &'static str = "The user also answered additional question(s):";

/// What heads the replies that match no offered option.
pub const CUSTOM_HEADER: &'static str = "The user answered the question(s) with custom text:";

/// The client: the events that it has to send on, and the feedback that waits
/// for the agent.
#[derive(Debug)]
pub struct AcpClient {
    approvals: Option<ApprovalService>,
    events: Vec<AcpEvent>,
    feedback_queue: Vec<String>,
}

#[verifier::ext_equal]
pub struct ClientView {
    pub approvals: Option<ApprovalService>,
    pub events: Seq<AcpEvent>,
    pub feedback: Seq<Seq<char>>,
}

impl View for AcpClient {
    type V = ClientView;

    closed spec fn view(&self) -> ClientView {
        ClientView {
            approvals: self.approvals,
            events: self.events@,
            feedback: self.feedback_queue.deep_view(),
        }
    }
}

impl ClientView {
    pub open spec fn sending(self, event: AcpEvent) -> ClientView {
        ClientView { events: self.events.push(event), ..self }
    }

    /// Feedback is queued without the white space around it, unless nothing is
    /// left of it.
    pub open spec fn queueing(self, message: Seq<char>) -> ClientView {
        if text::trimmed(message).len() > 0 {
            ClientView { feedback: self.feedback.push(text::trimmed(message)), ..self }
        } else {
            self
        }
    }

    /// Some answers are queued as feedback, where there are any.
    pub open spec fn queueing_answers(
        self,
        header: Seq<char>,
        answers: Seq<QuestionAnswerView>,
    ) -> ClientView {
        if answers.len() > 0 {
            self.queueing(permission::feedback_text(header, answers))
        } else {
            self
        }
    }
}

/// What is to be done next for a permission request.
#[derive(Debug)]
pub enum PermissionAction {
    /// An approval is to be created for a tool call.
    CreateToolApproval { title: String, request: RequestPermissionRequest },
    /// An approval is to be created for a number of questions.
    CreateQuestionApproval {
        title: String,
        question_count: usize,
        request: RequestPermissionRequest,
    },
    /// The request is answered.
    Respond(Result<RequestPermissionOutcome, ClientError>),
}

/// A permission request that waits for its approval to be resolved.
#[derive(Debug)]
pub struct WaitingPermission {
    pub approval_id: String,
    pub tool_call_id: String,
    pub options: Vec<PermissionOption>,
}

/// What follows when an approval was created, or could not be.
#[derive(Debug)]
pub enum CreatedApproval {
    Wait(WaitingPermission),
    Respond(Result<RequestPermissionOutcome, ClientError>),
}

/// The answer to a permission request.
pub type PermissionReply = Result<RequestPermissionOutcome, ClientError>;

/// Whether a reply is an outcome.
pub open spec fn replies(reply: PermissionReply, outcome: OutcomeView) -> bool {
    reply matches Ok(given) && given@ == outcome
}

/// Whether a permission request stands for questions to the user.
pub open spec fn is_question(request: RequestPermissionRequest) -> bool {
    request.tool_call.title matches Some(title) && title@ == ASK_USER_QUESTION_TITLE@
}

/// The title under which an approval is asked for.
pub open spec fn asked_title(request: RequestPermissionRequest) -> Seq<char> {
    match request.tool_call.title {
        Some(title) => title@,
        None => "tool"@,
    }
}

/// The reply when no approval could be created, or the wait for it failed.
pub open spec fn failed_reply(error: ExecutorApprovalError, reply: PermissionReply) -> bool {
    match error {
        ExecutorApprovalError::Cancelled => replies(reply, OutcomeView::Cancelled),
        _ => reply == PermissionReply::Err(ClientError::InternalError { data: None }),
    }
}

fn fail(error: ExecutorApprovalError) -> (res: PermissionReply)
    ensures
        failed_reply(error, res),
{
    match error {
        ExecutorApprovalError::Cancelled => Ok(RequestPermissionOutcome::Cancelled),
        _ => Err(ClientError::InternalError { data: None }),
    }
}

/// The approval that a permission request is linked to.
pub open spec fn approval_meta(
    approval_id: String,
    requested_at: Timestamp,
    timeout_seconds: int,
) -> PendingApprovalMeta {
    PendingApprovalMeta {
        approval_id,
        requested_at,
        timeout_at: Timestamp {
            seconds: (requested_at.seconds + timeout_seconds) as i64,
            nanos: requested_at.nanos,
        },
    }
}

/// The option that an answered question is answered with, or else the one that
/// dismisses it.
pub open spec fn question_outcome(
    options: Seq<PermissionOption>,
    answers: Seq<QuestionAnswerView>,
) -> OutcomeView {
    match permission::selected_option(options, answers) {
        Some(option_id) => OutcomeView::Selected { option_id },
        None => permission::outcome_of(
            permission::first_of_kind(options, PermissionOptionKind::RejectOnce),
        ),
    }
}

fn clone_options(options: &Vec<PermissionOption>) -> (res: Vec<PermissionOption>)
    ensures
        res@ == options@,
{
    let mut out: Vec<PermissionOption> = Vec::new();
    let mut i: usize = 0;
    while i < options.len()
        invariant
            i <= options@.len(),
            out@ == options@.take(i as int),
        decreases options.len() - i,
    {
        out.push(
            PermissionOption {
                option_id: options[i].option_id.clone(),
                name: options[i].name.clone(),
                kind: options[i].kind,
            },
        );
        assert(out@ =~= options@.take(i + 1));
        i += 1;
    }
    assert(options@.take(i as int) =~= options@);
    out
}

impl AcpClient {
    /// A client that has nothing to send yet.
    pub fn new(approvals: Option<ApprovalService>) -> (res: Self)
        ensures
            res@ == (ClientView {
                approvals,
                events: Seq::empty(),
                feedback: Seq::empty(),
            }),
    {
        let res = AcpClient { approvals, events: Vec::new(), feedback_queue: Vec::new() };
        assert(res@.feedback =~= Seq::empty());
        res
    }

    /// Reports a prompt of the user, under a fresh message id.
    pub fn record_user_prompt_event(&mut self, prompt: &str)
        ensures
            final(self)@.events.len() == old(self)@.events.len() + 1,
            final(self)@ == old(self)@.sending(final(self)@.events.last()),
            final(self)@.events.last() matches AcpEvent::User(recorded) && recorded.prompt@
                == prompt@ && recorded.message_id is Some && super::is_random_uuid(
                recorded.message_id->0@,
            ),
    {
        self.send_event(AcpEvent::User(UserPrompt::new(prompt.to_owned())));
    }

    fn send_event(&mut self, event: AcpEvent)
        ensures
            final(self)@ == old(self)@.sending(event),
    {
        self.events.push(event);
    }

    /// Takes out the events that are to be sent on.
    pub fn take_events(&mut self) -> (res: Vec<AcpEvent>)
        ensures
            res@ == old(self)@.events,
            final(self)@ == (ClientView { events: Seq::empty(), ..old(self)@ }),
    {
        let mut events: Vec<AcpEvent> = Vec::new();
        std::mem::swap(&mut events, &mut self.events);
        events
    }

    /// Queues feedback of the user, to be sent after a denial.
    pub fn enqueue_feedback(&mut self, message: String)
        ensures
            final(self)@ == old(self)@.queueing(message@),
    {
        let trimmed = text::trim(message.as_str());
        if !trimmed.as_str().is_empty() {
            let ghost before = self@.feedback;
            self.feedback_queue.push(trimmed);
            assert(self@.feedback =~= before.push(trimmed@));
        }
    }

    /// Takes out the queued feedback.
    pub fn drain_feedback(&mut self) -> (res: Vec<String>)
        ensures
            res.deep_view() == old(self)@.feedback,
            final(self)@ == (ClientView { feedback: Seq::empty(), ..old(self)@ }),
    {
        let mut queue: Vec<String> = Vec::new();
        std::mem::swap(&mut queue, &mut self.feedback_queue);
        assert(self@.feedback =~= Seq::empty());
        queue
    }

    fn enqueue_answers(&mut self, header: &str, answers: &Vec<QuestionAnswer>)
        ensures
            final(self)@ == old(self)@.queueing_answers(header@, answers.deep_view()),
    {
        if answers.len() > 0 {
            self.enqueue_feedback(permission::format_answer_feedback(header, answers));
        }
    }

    /// The agent asks for permission. Without an approval service the request is
    /// answered at once; else an approval is to be created for it.
    pub fn request_permission(&mut self, request: RequestPermissionRequest) -> (res:
        PermissionAction)
        ensures
            old(self)@.approvals is None ==> {
                &&& res matches PermissionAction::Respond(reply) && replies(
                    reply,
                    permission::outcome_of(
                        permission::unattended_choice(request.options@, is_question(request)),
                    ),
                )
                &&& final(self)@ == old(self)@.sending(AcpEvent::RequestPermission(request, None))
            },
            old(self)@.approvals is Some ==> {
                &&& final(self)@ == old(self)@
                &&& if is_question(request) {
                    res matches PermissionAction::CreateQuestionApproval {
                        title,
                        question_count,
                        request: asked,
                    } && title@ == asked_title(request) && question_count == 1 && asked == request
                } else {
                    res matches PermissionAction::CreateToolApproval { title, request: asked }
                        && title@ == asked_title(request) && asked == request
                }
            },
    {
        let (question, title) = match &request.tool_call.title {
            Some(title) => (*title.as_str() == *ASK_USER_QUESTION_TITLE, title.clone()),
            None => (false, "tool".to_owned()),
        };
        if self.approvals.is_none() {
            let outcome = permission::choose_unattended(&request.options, question);
            self.send_event(AcpEvent::RequestPermission(request, None));
            return PermissionAction::Respond(Ok(outcome));
        }
        if question {
            PermissionAction::CreateQuestionApproval { title, question_count: 1, request }
        } else {
            PermissionAction::CreateToolApproval { title, request }
        }
    }

    /// An approval was created for a permission request, or could not be. The
    /// request is reported either way, linked to the approval if there is one.
    pub fn approval_created(
        &mut self,
        request: RequestPermissionRequest,
        created: Result<String, ExecutorApprovalError>,
        requested_at: Timestamp,
        timeout_seconds: i64,
    ) -> (res: CreatedApproval)
        requires
            i64::MIN <= requested_at.seconds + timeout_seconds <= i64::MAX,
        ensures
            match created {
                Ok(approval_id) => {
                    &&& res matches CreatedApproval::Wait(waiting) && waiting.approval_id
                        == approval_id && waiting.tool_call_id == request.tool_call.tool_call_id
                        && waiting.options@ == request.options@
                    &&& final(self)@ == old(self)@.sending(
                        AcpEvent::RequestPermission(
                            request,
                            Some(approval_meta(approval_id, requested_at, timeout_seconds as int)),
                        ),
                    )
                },
                Err(error) => {
                    &&& res matches CreatedApproval::Respond(reply) && failed_reply(error, reply)
                    &&& final(self)@ == old(self)@.sending(
                        AcpEvent::RequestPermission(request, None),
                    )
                },
            },
    {
        match created {
            Ok(approval_id) => {
                let waiting = WaitingPermission {
                    approval_id: approval_id.clone(),
                    tool_call_id: request.tool_call.tool_call_id.clone(),
                    options: clone_options(&request.options),
                };
                let timeout_at = Timestamp {
                    seconds: requested_at.seconds + timeout_seconds,
                    nanos: requested_at.nanos,
                };
                let meta = PendingApprovalMeta { approval_id, requested_at, timeout_at };
                self.send_event(AcpEvent::RequestPermission(request, Some(meta)));
                CreatedApproval::Wait(waiting)
            },
            Err(error) => {
                self.send_event(AcpEvent::RequestPermission(request, None));
                CreatedApproval::Respond(fail(error))
            },
        }
    }

    /// The approval of a tool call was resolved, or the wait for it failed.
    pub fn tool_approval_resolved(
        &mut self,
        waiting: WaitingPermission,
        resolved: Result<ApprovalStatus, ExecutorApprovalError>,
    ) -> (res: PermissionReply)
        ensures
            match resolved {
                Err(error) => failed_reply(error, res) && final(self)@ == old(self)@,
                Ok(status) => {
                    let response = AcpEvent::ApprovalResponse(
                        ApprovalResponse { tool_call_id: waiting.tool_call_id, status },
                    );
                    match status {
                        ApprovalStatus::Approved => {
                            let choice = permission::first_of_kind(
                                waiting.options@,
                                PermissionOptionKind::AllowOnce,
                            );
                            if choice is Some {
                                &&& replies(res, permission::outcome_of(choice))
                                &&& final(self)@ == old(self)@.sending(response)
                            } else {
                                &&& res == PermissionReply::Err(ClientError::InvalidRequest)
                                &&& final(self)@ == old(self)@
                            }
                        },
                        ApprovalStatus::Denied { reason } => {
                            &&& replies(
                                res,
                                permission::outcome_of(
                                    permission::first_of_kind(
                                        waiting.options@,
                                        PermissionOptionKind::RejectOnce,
                                    ),
                                ),
                            )
                            &&& final(self)@ == match reason {
                                Some(reason) => old(self)@.queueing(reason@),
                                None => old(self)@,
                            }.sending(response)
                        },
                        _ => {
                            &&& replies(res, OutcomeView::Cancelled)
                            &&& final(self)@ == old(self)@.sending(response)
                        },
                    }
                },
            },
    {
        let status = match resolved {
            Ok(status) => status,
            Err(error) => return fail(error),
        };
        let outcome = match &status {
            ApprovalStatus::Approved => match permission::find_kind(
                &waiting.options,
                PermissionOptionKind::AllowOnce,
            ) {
                Some(option) => permission::choose_option(Some(option)),
                None => return Err(ClientError::InvalidRequest),
            },
            ApprovalStatus::Denied { reason } => {
                if let Some(feedback) = reason {
                    self.enqueue_feedback(feedback.clone());
                }
                permission::choose_option(
                    permission::find_kind(&waiting.options, PermissionOptionKind::RejectOnce),
                )
            },
            _ => RequestPermissionOutcome::Cancelled,
        };
        let response = ApprovalResponse { tool_call_id: waiting.tool_call_id, status };
        self.send_event(AcpEvent::ApprovalResponse(response));
        Ok(outcome)
    }

    /// The questions were answered, or the wait for the answers ended otherwise.
    /// Answers that the outcome has no place for are queued as feedback.
    pub fn question_resolved(
        &mut self,
        waiting: WaitingPermission,
        resolved: Result<QuestionStatus, ExecutorApprovalError>,
    ) -> (res: PermissionReply)
        ensures
            match resolved {
                Err(error) => failed_reply(error, res) && final(self)@ == old(self)@,
                Ok(status) => {
                    let response = AcpEvent::QuestionResponse(
                        QuestionResponse { tool_call_id: waiting.tool_call_id, status },
                    );
                    match status {
                        QuestionStatus::Answered { answers } => {
                            let given = answers.deep_view();
                            &&& replies(res, question_outcome(waiting.options@, given))
                            &&& final(self)@ == old(self)@.queueing_answers(
                                ADDITIONAL_HEADER@,
                                permission::additional_answers(waiting.options@, given),
                            ).queueing_answers(
                                CUSTOM_HEADER@,
                                permission::custom_answers(waiting.options@, given),
                            ).sending(response)
                        },
                        QuestionStatus::TimedOut => {
                            &&& replies(res, OutcomeView::Cancelled)
                            &&& final(self)@ == old(self)@.sending(response)
                        },
                    }
                },
            },
    {
        let status = match resolved {
            Ok(status) => status,
            Err(error) => return fail(error),
        };
        let outcome = match &status {
            QuestionStatus::Answered { answers } => {
                let (selected, additional, custom) = permission::match_question_option(
                    &waiting.options,
                    answers,
                );
                self.enqueue_answers(ADDITIONAL_HEADER, &additional);
                self.enqueue_answers(CUSTOM_HEADER, &custom);
                match selected {
                    Some(option_id) => RequestPermissionOutcome::Selected { option_id },
                    None => permission::choose_option(permission::skip_option(&waiting.options)),
                }
            },
            QuestionStatus::TimedOut => RequestPermissionOutcome::Cancelled,
        };
        let response = QuestionResponse { tool_call_id: waiting.tool_call_id, status };
        self.send_event(AcpEvent::QuestionResponse(response));
        Ok(outcome)
    }

    /// The event that a notification is reported as.
    pub open spec fn notified(notification: SessionNotification) -> AcpEvent {
        match notification.update {
            SessionUpdate::AgentMessageChunk(content) => AcpEvent::Message(content),
            SessionUpdate::AgentThoughtChunk(content) => AcpEvent::Thought(content),
            SessionUpdate::ToolCall(call) => AcpEvent::ToolCall(call),
            SessionUpdate::ToolCallUpdate(update) => AcpEvent::ToolUpdate(update),
            SessionUpdate::Plan(entries) => AcpEvent::Plan(entries),
            _ => AcpEvent::Other(notification),
        }
    }

    /// The agent reports on the session.
    pub fn session_notification(&mut self, notification: SessionNotification)
        ensures
            final(self)@ == old(self)@.sending(Self::notified(notification)),
    {
        let SessionNotification { session_id, update } = notification;
        let event = match update {
            SessionUpdate::AgentMessageChunk(content) => AcpEvent::Message(content),
            SessionUpdate::AgentThoughtChunk(content) => AcpEvent::Thought(content),
            SessionUpdate::ToolCall(call) => AcpEvent::ToolCall(call),
            SessionUpdate::ToolCallUpdate(update) => AcpEvent::ToolUpdate(update),
            SessionUpdate::Plan(entries) => AcpEvent::Plan(entries),
            update => AcpEvent::Other(SessionNotification { session_id, update }),
        };
        self.send_event(event);
    }
}

} // verus!
