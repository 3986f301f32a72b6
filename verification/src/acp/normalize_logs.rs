//! Turns the events of a session into the entries of a conversation.

use vstd::prelude::*;
use vstd::string::*;

use crate::approvals::{
    ApprovalStatus, PendingApprovalMeta, QuestionAnswer, QuestionAnswerView, QuestionStatus,
};
use crate::collections::AssocMap;
use crate::logs::{
    ActionType, ActionTypeView, AnsweredQuestion, AnsweredQuestionView, NormalizedEntry,
    NormalizedEntryError, NormalizedEntryType, NormalizedEntryTypeView, NormalizedEntryView,
    TodoItem, TodoItemView, ToolStatus,
};
use crate::text;

use super::tool_calls::{PartialToolCallData, ToolDataView};
use super::types::{
    AvailableCommand, ContentBlock, PlanEntry, RequestPermissionRequest, ToolCall, ToolCallUpdate,
    ToolCallView,
};
use super::{AcpEvent, ApprovalResponse, QuestionResponse};

verus! {

/// What a line of an agent's output was read as.
#[derive(Debug)]
pub enum ParsedLine {
    SessionId(String),
    Event(AcpEvent),
    Error(String),
    Done,
}

/// Hands out the indices of the entries of a conversation, each once.
#[derive(Debug)]
pub struct EntryIndexProvider {
    pub next: usize,
}

impl EntryIndexProvider {
    /// The indices from `next` on.
    pub fn start_from(next: usize) -> (res: Self)
        ensures
            res.next == next,
    {
        EntryIndexProvider { next }
    }

    /// Takes the next index.
    pub fn next(&mut self) -> (res: usize)
        requires
            old(self).next < usize::MAX,
        ensures
            res == old(self).next,
            final(self).next == old(self).next + 1,
    {
        let index = self.next;
        self.next = index + 1;
        index
    }
}

/// A change to the conversation, or the id of the session.
#[derive(Debug)]
pub enum LogEffect {
    PushSessionId { id: String },
    Add { index: usize, entry: NormalizedEntry },
    Replace { index: usize, entry: NormalizedEntry },
}

#[allow(inconsistent_fields)]
#[verifier::ext_equal]
pub enum LogEffectView {
    PushSessionId { id: Seq<char> },
    Add { index: usize, entry: NormalizedEntryView },
    Replace { index: usize, entry: NormalizedEntryView },
}

impl DeepView for LogEffect {
    type V = LogEffectView;

    open spec fn deep_view(&self) -> LogEffectView {
        match self {
            LogEffect::PushSessionId { id } => LogEffectView::PushSessionId { id: id@ },
            LogEffect::Add { index, entry } => LogEffectView::Add { index: *index, entry: entry@ },
            LogEffect::Replace { index, entry } => LogEffectView::Replace {
                index: *index,
                entry: entry@,
            },
        }
    }
}

/// A text that still grows, and the entry that shows it.
#[derive(Debug)]
pub struct StreamingText {
    pub index: usize,
    pub content: String,
}

#[verifier::ext_equal]
pub struct StreamingView {
    pub index: usize,
    pub content: Seq<char>,
}

impl DeepView for StreamingText {
    type V = StreamingView;

    open spec fn deep_view(&self) -> StreamingView {
        StreamingView { index: self.index, content: self.content@ }
    }
}

/// What is known of a session while its events are turned into entries.
#[derive(Debug)]
pub struct LogNormalizer {
    stored_session_id: bool,
    assistant_text: Option<StreamingText>,
    thinking_text: Option<StreamingText>,
    tools: AssocMap<String, PartialToolCallData>,
}

#[verifier::ext_equal]
pub struct NormalizerView {
    pub stored_session_id: bool,
    pub assistant_text: Option<StreamingView>,
    pub thinking_text: Option<StreamingView>,
    pub tools: Map<Seq<char>, ToolDataView>,
}

impl View for LogNormalizer {
    type V = NormalizerView;

    closed spec fn view(&self) -> NormalizerView {
        NormalizerView {
            stored_session_id: self.stored_session_id,
            assistant_text: self.assistant_text.deep_view(),
            thinking_text: self.thinking_text.deep_view(),
            tools: self.tools@,
        }
    }
}

/// What an event leads to: the state after it, the next free index, and the
/// changes to the conversation.
#[verifier::ext_equal]
pub struct StepView {
    pub state: NormalizerView,
    pub next: usize,
    pub effects: Seq<LogEffectView>,
}

/// The step of a plan, as the conversation shows it.
pub open spec fn todo_item(entry: PlanEntry) -> TodoItemView {
    TodoItemView {
        content: entry.content@,
        status: match entry.status {
            Some(status) => status@,
            None => "unknown"@,
        },
        priority: entry.priority.deep_view(),
    }
}

/// The list of some commands, a line for each.
pub open spec fn command_list(commands: Seq<AvailableCommand>) -> Seq<char>
    decreases commands.len(),
{
    if commands.len() == 0 {
        "Available commands:\n"@
    } else {
        command_list(commands.drop_last()) + "- "@ + commands.last().name@ + "\n"@
    }
}

/// An answer of the user, as the conversation shows it.
pub open spec fn answered(answer: QuestionAnswerView) -> AnsweredQuestionView {
    AnsweredQuestionView { question: answer.question, answer: answer.answer }
}

/// The line that says how many questions were answered.
pub open spec fn answered_line(count: nat) -> Seq<char> {
    "Answered "@ + text::decimal(count) + " question"@ + if count != 1 {
        "s"@
    } else {
        ""@
    }
}

/// The status of a tool call that waits for an approval.
pub open spec fn pending_status(meta: PendingApprovalMeta) -> ToolStatus {
    ToolStatus::PendingApproval {
        approval_id: meta.approval_id,
        requested_at: meta.requested_at,
        timeout_at: meta.timeout_at,
    }
}

/// What the user says of a denied tool call.
pub open spec fn denial_text(reason: Option<String>) -> Seq<char> {
    text::trimmed(
        match reason {
            Some(reason) => reason@,
            None => "User denied this tool use request"@,
        },
    )
}

impl NormalizerView {
    /// Nothing happened yet.
    pub open spec fn initial() -> NormalizerView {
        NormalizerView {
            stored_session_id: false,
            assistant_text: None,
            thinking_text: None,
            tools: Map::empty(),
        }
    }

    /// No text goes on growing.
    pub open spec fn quiet(self) -> NormalizerView {
        NormalizerView { assistant_text: None, thinking_text: None, ..self }
    }

    pub open spec fn with_tool(self, id: Seq<char>, data: ToolDataView) -> NormalizerView {
        NormalizerView { tools: self.tools.insert(id, data), ..self }
    }

    /// Nothing changes in the conversation.
    pub open spec fn silently(self, next: usize) -> StepView {
        StepView { state: self, next, effects: Seq::empty() }
    }

    /// An entry is added under the next index.
    pub open spec fn adding(self, next: usize, entry: NormalizedEntryView) -> StepView {
        StepView {
            state: self,
            next: (next + 1) as usize,
            effects: seq![LogEffectView::Add { index: next, entry }],
        }
    }

    /// A report on a tool call adds an entry for it, or brings the one that it
    /// has up to date.
    pub open spec fn tool_call(self, call: ToolCallView, next: usize) -> StepView {
        let id = call.tool_call_id;
        if self.tools.dom().contains(id) {
            let data = self.tools[id].extended(call);
            StepView {
                state: self.quiet().with_tool(id, data),
                next,
                effects: seq![LogEffectView::Replace { index: data.index, entry: data.entry() }],
            }
        } else {
            let data = ToolDataView { index: next, ..ToolDataView::fresh().extended(call) };
            self.quiet().with_tool(id, data).adding(next, data.entry())
        }
    }

    /// The status shown for a known tool call is set.
    pub open spec fn overridden(
        self,
        id: Seq<char>,
        status: Option<ToolStatus>,
        next: usize,
    ) -> StepView {
        let data = ToolDataView { status_override: status, ..self.tools[id] };
        StepView {
            state: self.with_tool(id, data),
            next,
            effects: seq![LogEffectView::Replace { index: data.index, entry: data.entry() }],
        }
    }

    /// A tool call that is known is marked as waiting for an approval.
    pub open spec fn marked_pending(
        self,
        id: Seq<char>,
        meta: Option<PendingApprovalMeta>,
        next: usize,
    ) -> StepView {
        match meta {
            Some(meta) if self.tools.dom().contains(id) => self.overridden(
                id,
                Some(pending_status(meta)),
                next,
            ),
            _ => self.silently(next),
        }
    }

    /// A status takes the place of the one that a tool call waits with.
    pub open spec fn resolved(
        self,
        id: Seq<char>,
        status: Option<ToolStatus>,
        next: usize,
    ) -> StepView {
        if self.tools.dom().contains(id) && self.tools[id].status_override is Some {
            self.overridden(id, status, next)
        } else {
            self.silently(next)
        }
    }

    /// The name under which a denied tool call is reported.
    pub open spec fn denied_tool(self, id: Seq<char>) -> Seq<char> {
        if self.tools.dom().contains(id) {
            self.tools[id].tool_name()
        } else {
            Seq::empty()
        }
    }

    /// A piece of the assistant's message. A lone line feed starts none.
    pub open spec fn message(self, content: ContentBlock, next: usize) -> StepView {
        let state = NormalizerView { thinking_text: None, ..self };
        match (content, self.assistant_text) {
            (ContentBlock::Text(piece), None) => if piece@ == "\n"@ {
                state.silently(next)
            } else {
                NormalizerView {
                    assistant_text: Some(StreamingView { index: next, content: piece@ }),
                    ..state
                }.adding(
                    next,
                    NormalizedEntryView::plain(
                        NormalizedEntryTypeView::AssistantMessage,
                        piece@,
                    ),
                )
            },
            (ContentBlock::Text(piece), Some(so_far)) => {
                let grown = StreamingView {
                    index: so_far.index,
                    content: so_far.content + piece@,
                };
                StepView {
                    state: NormalizerView { assistant_text: Some(grown), ..state },
                    next,
                    effects: seq![
                        LogEffectView::Replace {
                            index: grown.index,
                            entry: NormalizedEntryView::plain(
                                NormalizedEntryTypeView::AssistantMessage,
                                grown.content,
                            ),
                        },
                    ],
                }
            },
            (ContentBlock::Other(_), _) => state.silently(next),
        }
    }

    /// A piece of the assistant's thoughts.
    pub open spec fn thought(self, content: ContentBlock, next: usize) -> StepView {
        let state = NormalizerView { assistant_text: None, ..self };
        match (content, self.thinking_text) {
            (ContentBlock::Text(piece), None) => NormalizerView {
                thinking_text: Some(StreamingView { index: next, content: piece@ }),
                ..state
            }.adding(
                next,
                NormalizedEntryView::plain(NormalizedEntryTypeView::Thinking, piece@),
            ),
            (ContentBlock::Text(piece), Some(so_far)) => {
                let grown = StreamingView {
                    index: so_far.index,
                    content: so_far.content + piece@,
                };
                StepView {
                    state: NormalizerView { thinking_text: Some(grown), ..state },
                    next,
                    effects: seq![
                        LogEffectView::Replace {
                            index: grown.index,
                            entry: NormalizedEntryView::plain(
                                NormalizedEntryTypeView::Thinking,
                                grown.content,
                            ),
                        },
                    ],
                }
            },
            (ContentBlock::Other(_), _) => state.silently(next),
        }
    }

    /// A permission request reports on its tool call, if it has a title, and
    /// marks it as waiting where an approval was created.
    pub open spec fn permission(
        self,
        request: RequestPermissionRequest,
        meta: Option<PendingApprovalMeta>,
        next: usize,
    ) -> StepView {
        match request.tool_call.title {
            Some(title) => {
                let id = request.tool_call.tool_call_id@;
                let reported = self.tool_call(request.tool_call.described(title@), next);
                let marked = reported.state.marked_pending(id, meta, reported.next);
                StepView {
                    state: marked.state,
                    next: marked.next,
                    effects: reported.effects + marked.effects,
                }
            },
            None => self.silently(next),
        }
    }

    /// An update without a title has the one that is known of its tool call.
    pub open spec fn update_title(self, update: ToolCallUpdate) -> Seq<char> {
        match update.title {
            Some(title) => title@,
            None => if self.tools.dom().contains(update.tool_call_id@) {
                self.tools[update.tool_call_id@].title
            } else {
                ""@
            },
        }
    }

    /// The answer to an approval ends the waiting of its tool call. A denial is
    /// shown as an entry of its own.
    pub open spec fn approval_response(self, response: ApprovalResponse, next: usize) -> StepView {
        let id = response.tool_call_id@;
        let resolved = self.resolved(id, ToolStatus::of_approval(response.status), next);
        match response.status {
            ApprovalStatus::Denied { reason } => {
                let shown = resolved.state.adding(
                    resolved.next,
                    NormalizedEntryView::plain(
                        NormalizedEntryTypeView::UserFeedback {
                            denied_tool: resolved.state.denied_tool(id),
                        },
                        denial_text(reason),
                    ),
                );
                StepView { effects: resolved.effects + shown.effects, ..shown }
            },
            _ => resolved,
        }
    }

    /// The end of a question ends the waiting of its tool call. Answers are
    /// shown as an entry of their own.
    pub open spec fn question_response(self, response: QuestionResponse, next: usize) -> StepView {
        let id = response.tool_call_id@;
        let resolved = self.resolved(id, Some(ToolStatus::of_question(response.status)), next);
        match response.status {
            QuestionStatus::Answered { answers } => {
                let shown = resolved.state.adding(
                    resolved.next,
                    NormalizedEntryView::plain(
                        NormalizedEntryTypeView::UserAnsweredQuestions {
                            answers: answers.deep_view().map_values(
                                |answer: QuestionAnswerView| answered(answer),
                            ),
                        },
                        answered_line(answers@.len()),
                    ),
                );
                StepView { effects: resolved.effects + shown.effects, ..shown }
            },
            QuestionStatus::TimedOut => resolved,
        }
    }

    /// What an event leads to.
    pub open spec fn step(self, event: AcpEvent, next: usize) -> StepView {
        match event {
            AcpEvent::SessionStart(id) => if self.stored_session_id {
                self.silently(next)
            } else {
                StepView {
                    state: NormalizerView { stored_session_id: true, ..self },
                    next,
                    effects: seq![LogEffectView::PushSessionId { id: id@ }],
                }
            },
            AcpEvent::Error(message) => self.adding(
                next,
                NormalizedEntryView::plain(
                    NormalizedEntryTypeView::ErrorMessage {
                        error_type: NormalizedEntryError::Other,
                    },
                    message@,
                ),
            ),
            AcpEvent::Done(_) => self.quiet().silently(next),
            AcpEvent::Message(content) => self.message(content, next),
            AcpEvent::Thought(content) => self.thought(content, next),
            AcpEvent::Plan(entries) => self.quiet().adding(
                next,
                NormalizedEntryView::plain(
                    NormalizedEntryTypeView::ToolUse {
                        tool_name: "plan"@,
                        action_type: ActionTypeView::TodoManagement {
                            todos: entries@.map_values(|entry: PlanEntry| todo_item(entry)),
                            operation: "update"@,
                        },
                        status: ToolStatus::Success,
                    },
                    "Plan updated"@,
                ),
            ),
            AcpEvent::AvailableCommands(commands) => self.adding(
                next,
                NormalizedEntryView::plain(
                    NormalizedEntryTypeView::SystemMessage,
                    command_list(commands@),
                ),
            ),
            AcpEvent::CurrentMode(mode) => self.adding(
                next,
                NormalizedEntryView::plain(
                    NormalizedEntryTypeView::SystemMessage,
                    "Current mode: "@ + mode@,
                ),
            ),
            AcpEvent::RequestPermission(request, meta) => self.permission(request, meta, next),
            AcpEvent::ToolCall(call) => self.tool_call(call@, next),
            AcpEvent::ToolUpdate(update) => self.tool_call(
                update.described(self.update_title(update)),
                next,
            ),
            AcpEvent::ApprovalResponse(response) => self.approval_response(response, next),
            AcpEvent::QuestionResponse(response) => self.question_response(response, next),
            AcpEvent::Elicitation { tool_call_id, meta } => self.marked_pending(
                tool_call_id@,
                meta,
                next,
            ),
            AcpEvent::User(_) => self.silently(next),
            AcpEvent::Other(_) => self.silently(next),
        }
    }

    /// What a run of events leads to.
    pub open spec fn run(self, events: Seq<AcpEvent>, next: usize) -> StepView
        decreases events.len(),
    {
        if events.len() == 0 {
            self.silently(next)
        } else {
            let before = self.run(events.drop_last(), next);
            let last = before.state.step(events.last(), before.next);
            StepView { effects: before.effects + last.effects, ..last }
        }
    }
}

impl LogNormalizer {
    pub fn new() -> (res: Self)
        ensures
            res@ == NormalizerView::initial(),
    {
        LogNormalizer {
            stored_session_id: false,
            assistant_text: None,
            thinking_text: None,
            tools: AssocMap::new(),
        }
    }

    fn handle_tool_call(
        &mut self,
        call: ToolCall,
        entry_index: &mut EntryIndexProvider,
    ) -> (res: LogEffect)
        requires
            old(entry_index).next < usize::MAX,
        ensures
            ({
                let step = old(self)@.tool_call(call@, old(entry_index).next);
                &&& final(self)@ == step.state
                &&& final(entry_index).next == step.next
                &&& step.effects == seq![res.deep_view()]
            }),
    {
        self.assistant_text = None;
        self.thinking_text = None;
        let ghost tools = self.tools@;
        let id = call.tool_call_id.clone();
        match self.tools.remove(&id) {
            Some(mut data) => {
                data.extend(call);
                let index = data.index;
                let entry = data.build_tool_entry();
                assert(tools.remove(id@).insert(id@, data@) =~= tools.insert(id@, data@));
                self.tools.insert(id, data);
                LogEffect::Replace { index, entry }
            },
            None => {
                let mut data = PartialToolCallData::default();
                data.extend(call);
                data.index = entry_index.next();
                let index = data.index;
                let entry = data.build_tool_entry();
                assert(tools.remove(id@).insert(id@, data@) =~= tools.insert(id@, data@));
                self.tools.insert(id, data);
                LogEffect::Add { index, entry }
            },
        }
    }

    fn set_override(&mut self, id: String, status: Option<ToolStatus>) -> (res: Option<LogEffect>)
        ensures
            match res {
                Some(effect) => {
                    &&& old(self)@.tools.dom().contains(id@)
                    &&& forall|next: usize|
                        {
                            let step = #[trigger] old(self)@.overridden(id@, status, next);
                            &&& final(self)@ == step.state
                            &&& step.effects == seq![effect.deep_view()]
                        }
                },
                None => !old(self)@.tools.dom().contains(id@) && final(self)@ == old(self)@,
            },
    {
        let ghost tools = self.tools@;
        match self.tools.remove(&id) {
            Some(mut data) => {
                data.status_override = status;
                let index = data.index;
                let entry = data.build_tool_entry();
                assert(tools.remove(id@).insert(id@, data@) =~= tools.insert(id@, data@));
                self.tools.insert(id, data);
                Some(LogEffect::Replace { index, entry })
            },
            None => {
                assert(tools.remove(id@) =~= tools);
                None
            },
        }
    }

    fn mark_pending(&mut self, id: String, meta: Option<PendingApprovalMeta>) -> (res: Option<
        LogEffect,
    >)
        ensures
            forall|next: usize|
                {
                    let step = #[trigger] old(self)@.marked_pending(id@, meta, next);
                    &&& final(self)@ == step.state
                    &&& step.effects == match res {
                        Some(effect) => seq![effect.deep_view()],
                        None => Seq::empty(),
                    }
                },
    {
        match meta {
            Some(meta) => {
                let status = ToolStatus::PendingApproval {
                    approval_id: meta.approval_id,
                    requested_at: meta.requested_at,
                    timeout_at: meta.timeout_at,
                };
                self.set_override(id, Some(status))
            },
            None => None,
        }
    }

    fn handle_message(
        &mut self,
        content: ContentBlock,
        entry_index: &mut EntryIndexProvider,
    ) -> (res: Option<LogEffect>)
        requires
            old(entry_index).next < usize::MAX,
        ensures
            ({
                let step = old(self)@.message(content, old(entry_index).next);
                &&& final(self)@ == step.state
                &&& final(entry_index).next == step.next
                &&& step.effects == match res {
                    Some(effect) => seq![effect.deep_view()],
                    None => Seq::empty(),
                }
            }),
    {
        self.thinking_text = None;
        match content {
            ContentBlock::Text(piece) => match self.assistant_text.take() {
                None => {
                    if *piece.as_str() == *"\n" {
                        return None;
                    }
                    let index = entry_index.next();
                    self.assistant_text = Some(StreamingText { index, content: piece.clone() });
                    let entry = NormalizedEntry::plain(
                        NormalizedEntryType::AssistantMessage,
                        piece,
                    );
                    Some(LogEffect::Add { index, entry })
                },
                Some(so_far) => {
                    let index = so_far.index;
                    let content = text::concat(so_far.content.as_str(), piece.as_str());
                    self.assistant_text = Some(StreamingText { index, content: content.clone() });
                    let entry = NormalizedEntry::plain(
                        NormalizedEntryType::AssistantMessage,
                        content,
                    );
                    Some(LogEffect::Replace { index, entry })
                },
            },
            ContentBlock::Other(_) => None,
        }
    }

    fn handle_thought(
        &mut self,
        content: ContentBlock,
        entry_index: &mut EntryIndexProvider,
    ) -> (res: Option<LogEffect>)
        requires
            old(entry_index).next < usize::MAX,
        ensures
            ({
                let step = old(self)@.thought(content, old(entry_index).next);
                &&& final(self)@ == step.state
                &&& final(entry_index).next == step.next
                &&& step.effects == match res {
                    Some(effect) => seq![effect.deep_view()],
                    None => Seq::empty(),
                }
            }),
    {
        self.assistant_text = None;
        match content {
            ContentBlock::Text(piece) => match self.thinking_text.take() {
                None => {
                    let index = entry_index.next();
                    self.thinking_text = Some(StreamingText { index, content: piece.clone() });
                    let entry = NormalizedEntry::plain(NormalizedEntryType::Thinking, piece);
                    Some(LogEffect::Add { index, entry })
                },
                Some(so_far) => {
                    let index = so_far.index;
                    let content = text::concat(so_far.content.as_str(), piece.as_str());
                    self.thinking_text = Some(StreamingText { index, content: content.clone() });
                    let entry = NormalizedEntry::plain(NormalizedEntryType::Thinking, content);
                    Some(LogEffect::Replace { index, entry })
                },
            },
            ContentBlock::Other(_) => None,
        }
    }

    fn handle_permission(
        &mut self,
        request: RequestPermissionRequest,
        meta: Option<PendingApprovalMeta>,
        entry_index: &mut EntryIndexProvider,
    ) -> (res: Vec<LogEffect>)
        requires
            old(entry_index).next < usize::MAX,
        ensures
            ({
                let step = old(self)@.permission(request, meta, old(entry_index).next);
                &&& final(self)@ == step.state
                &&& final(entry_index).next == step.next
                &&& step.effects == res.deep_view()
            }),
    {
        let mut effects: Vec<LogEffect> = Vec::new();
        let ghost before = self@;
        let ghost next = entry_index.next;
        let id = request.tool_call.tool_call_id.clone();
        if let Some(call) = request.tool_call.into_tool_call() {
            let effect = self.handle_tool_call(call, entry_index);
            let ghost reported = before.tool_call(call@, next);
            effects.push(effect);
            assert(effects.deep_view() =~= reported.effects);
            let ghost marked = self@.marked_pending(id@, meta, entry_index.next);
            if let Some(effect) = self.mark_pending(id, meta) {
                effects.push(effect);
            }
            assert(effects.deep_view() =~= reported.effects + marked.effects);
        } else {
            assert(effects.deep_view() =~= Seq::empty());
        }
        effects
    }

    fn handle_approval(
        &mut self,
        response: ApprovalResponse,
        entry_index: &mut EntryIndexProvider,
    ) -> (res: Vec<LogEffect>)
        requires
            old(entry_index).next < usize::MAX,
        ensures
            ({
                let step = old(self)@.approval_response(response, old(entry_index).next);
                &&& final(self)@ == step.state
                &&& final(entry_index).next == step.next
                &&& step.effects == res.deep_view()
            }),
    {
        let mut effects: Vec<LogEffect> = Vec::new();
        let id = response.tool_call_id;
        let ghost resolved = self@.resolved(
            id@,
            ToolStatus::of_approval(response.status),
            entry_index.next,
        );
        if self.is_overridden(&id) {
            let status = ToolStatus::from_approval_status(&response.status);
            if let Some(effect) = self.set_override(id.clone(), status) {
                effects.push(effect);
            }
        }
        assert(effects.deep_view() =~= resolved.effects);
        assert(self@ == resolved.state);
        if let ApprovalStatus::Denied { reason } = response.status {
            let denied_tool = match self.tools.get(&id) {
                Some(data) => data.tool_name(),
                None => String::new(),
            };
            let content = match reason {
                Some(reason) => text::trim(reason.as_str()),
                None => text::trim("User denied this tool use request"),
            };
            let index = entry_index.next();
            let entry = NormalizedEntry::plain(
                NormalizedEntryType::UserFeedback { denied_tool },
                content,
            );
            effects.push(LogEffect::Add { index, entry });
            assert(effects.deep_view() =~= resolved.effects + seq![
                LogEffectView::Add { index, entry: entry@ },
            ]);
        }
        effects
    }

    fn handle_question(
        &mut self,
        response: QuestionResponse,
        entry_index: &mut EntryIndexProvider,
    ) -> (res: Vec<LogEffect>)
        requires
            old(entry_index).next < usize::MAX,
        ensures
            ({
                let step = old(self)@.question_response(response, old(entry_index).next);
                &&& final(self)@ == step.state
                &&& final(entry_index).next == step.next
                &&& step.effects == res.deep_view()
            }),
    {
        let mut effects: Vec<LogEffect> = Vec::new();
        let id = response.tool_call_id;
        let ghost resolved = self@.resolved(
            id@,
            Some(ToolStatus::of_question(response.status)),
            entry_index.next,
        );
        if self.is_overridden(&id) {
            let status = ToolStatus::from_question_status(&response.status);
            if let Some(effect) = self.set_override(id, Some(status)) {
                effects.push(effect);
            }
        }
        assert(effects.deep_view() =~= resolved.effects);
        assert(self@ == resolved.state);
        if let QuestionStatus::Answered { answers } = response.status {
            let content = answered_text(answers.len());
            let index = entry_index.next();
            let entry = NormalizedEntry::plain(
                NormalizedEntryType::UserAnsweredQuestions { answers: shown_answers(answers) },
                content,
            );
            effects.push(LogEffect::Add { index, entry });
            assert(effects.deep_view() =~= resolved.effects + seq![
                LogEffectView::Add { index, entry: entry@ },
            ]);
        }
        effects
    }

    /// Takes in an event, and gives the changes to the conversation that it
    /// makes.
    pub fn step(&mut self, event: AcpEvent, entry_index: &mut EntryIndexProvider) -> (res: Vec<
        LogEffect,
    >)
        requires
            old(entry_index).next < usize::MAX,
        ensures
            ({
                let step = old(self)@.step(event, old(entry_index).next);
                &&& final(self)@ == step.state
                &&& final(entry_index).next == step.next
                &&& res.deep_view() == step.effects
            }),
    {
        match event {
            AcpEvent::SessionStart(id) => {
                if self.stored_session_id {
                    no_effect()
                } else {
                    self.stored_session_id = true;
                    one_effect(LogEffect::PushSessionId { id })
                }
            },
            AcpEvent::Error(message) => {
                let index = entry_index.next();
                let entry_type = NormalizedEntryType::ErrorMessage {
                    error_type: NormalizedEntryError::Other,
                };
                let entry = NormalizedEntry::plain(entry_type, message);
                one_effect(LogEffect::Add { index, entry })
            },
            AcpEvent::Done(_) => {
                self.assistant_text = None;
                self.thinking_text = None;
                no_effect()
            },
            AcpEvent::Message(content) => match self.handle_message(content, entry_index) {
                Some(effect) => one_effect(effect),
                None => no_effect(),
            },
            AcpEvent::Thought(content) => match self.handle_thought(content, entry_index) {
                Some(effect) => one_effect(effect),
                None => no_effect(),
            },
            AcpEvent::Plan(entries) => {
                self.assistant_text = None;
                self.thinking_text = None;
                let index = entry_index.next();
                let entry_type = NormalizedEntryType::ToolUse {
                    tool_name: "plan".to_owned(),
                    action_type: ActionType::TodoManagement {
                        todos: todo_items(entries),
                        operation: "update".to_owned(),
                    },
                    status: ToolStatus::Success,
                };
                let entry = NormalizedEntry::plain(entry_type, "Plan updated".to_owned());
                one_effect(LogEffect::Add { index, entry })
            },
            AcpEvent::AvailableCommands(commands) => {
                let body = command_lines(&commands);
                let index = entry_index.next();
                let entry = NormalizedEntry::plain(NormalizedEntryType::SystemMessage, body);
                one_effect(LogEffect::Add { index, entry })
            },
            AcpEvent::CurrentMode(mode) => {
                let content = text::concat("Current mode: ", mode.as_str());
                let index = entry_index.next();
                let entry = NormalizedEntry::plain(NormalizedEntryType::SystemMessage, content);
                one_effect(LogEffect::Add { index, entry })
            },
            AcpEvent::RequestPermission(request, meta) => {
                self.handle_permission(request, meta, entry_index)
            },
            AcpEvent::ToolCall(call) => one_effect(self.handle_tool_call(call, entry_index)),
            AcpEvent::ToolUpdate(update) => {
                let mut update = update;
                let ghost reported = update;
                let title = match &update.title {
                    Some(title) => title.clone(),
                    None => match self.tools.get(&update.tool_call_id) {
                        Some(data) => data.title.clone(),
                        None => "".to_owned(),
                    },
                };
                assert(title@ == self@.update_title(reported));
                update.title = Some(title);
                match update.into_tool_call() {
                    Some(call) => {
                        assert(call@ == reported.described(title@));
                        one_effect(self.handle_tool_call(call, entry_index))
                    },
                    None => no_effect(),
                }
            },
            AcpEvent::ApprovalResponse(response) => self.handle_approval(response, entry_index),
            AcpEvent::QuestionResponse(response) => self.handle_question(response, entry_index),
            AcpEvent::Elicitation { tool_call_id, meta } => {
                let ghost step = self@.marked_pending(tool_call_id@, meta, entry_index.next);
                match self.mark_pending(tool_call_id, meta) {
                    Some(effect) => one_effect(effect),
                    None => no_effect(),
                }
            },
            AcpEvent::User(_) => no_effect(),
            AcpEvent::Other(_) => no_effect(),
        }
    }

    fn is_overridden(&self, id: &String) -> (res: bool)
        ensures
            res == (self@.tools.dom().contains(id@) && self@.tools[id@].status_override is Some),
    {
        match self.tools.get(id) {
            Some(data) => data.status_override.is_some(),
            None => false,
        }
    }
}

fn no_effect() -> (res: Vec<LogEffect>)
    ensures
        res.deep_view() == Seq::<LogEffectView>::empty(),
{
    let effects: Vec<LogEffect> = Vec::new();
    assert(effects.deep_view() =~= Seq::empty());
    effects
}

fn one_effect(effect: LogEffect) -> (res: Vec<LogEffect>)
    ensures
        res.deep_view() == seq![effect.deep_view()],
{
    let mut effects: Vec<LogEffect> = Vec::new();
    effects.push(effect);
    assert(effects.deep_view() =~= seq![effect.deep_view()]);
    effects
}

fn answered_text(count: usize) -> (res: String)
    ensures
        res@ == answered_line(count as nat),
{
    let ending = if count != 1 {
        "s"
    } else {
        ""
    };
    let number = text::decimal_of(count as u64);
    let start = text::concat3("Answered ", number.as_str(), " question");
    text::concat(start.as_str(), ending)
}

fn shown_answers(answers: Vec<QuestionAnswer>) -> (res: Vec<AnsweredQuestion>)
    ensures
        res.deep_view() == answers.deep_view().map_values(
            |answer: QuestionAnswerView| answered(answer),
        ),
{
    let mut out: Vec<AnsweredQuestion> = Vec::new();
    let mut i: usize = 0;
    while i < answers.len()
        invariant
            i <= answers@.len(),
            out@.len() == i,
            forall|j: int| 0 <= j < i ==> (#[trigger] out@[j])@ == answered(answers@[j]@),
        decreases answers.len() - i,
    {
        let answer = answers[i].clone();
        out.push(AnsweredQuestion { question: answer.question, answer: answer.answer });
        i += 1;
    }
    assert(out.deep_view() =~= answers.deep_view().map_values(
        |answer: QuestionAnswerView| answered(answer),
    ));
    out
}

fn todo_items(entries: Vec<PlanEntry>) -> (res: Vec<TodoItem>)
    ensures
        res.deep_view() == entries@.map_values(|entry: PlanEntry| todo_item(entry)),
{
    let mut out: Vec<TodoItem> = Vec::new();
    let mut i: usize = 0;
    while i < entries.len()
        invariant
            i <= entries@.len(),
            out@.len() == i,
            forall|j: int| 0 <= j < i ==> (#[trigger] out@[j])@ == todo_item(entries@[j]),
        decreases entries.len() - i,
    {
        let status = match &entries[i].status {
            Some(status) => status.clone(),
            None => "unknown".to_owned(),
        };
        out.push(
            TodoItem {
                content: entries[i].content.clone(),
                status,
                priority: entries[i].priority.clone(),
            },
        );
        i += 1;
    }
    assert(out.deep_view() =~= entries@.map_values(|entry: PlanEntry| todo_item(entry)));
    out
}

fn command_lines(commands: &Vec<AvailableCommand>) -> (res: String)
    ensures
        res@ == command_list(commands@),
{
    let mut body = "Available commands:\n".to_owned();
    let mut i: usize = 0;
    assert(commands@.take(0) =~= Seq::empty());
    while i < commands.len()
        invariant
            i <= commands@.len(),
            body@ == command_list(commands@.take(i as int)),
        decreases commands.len() - i,
    {
        assert(commands@.take(i + 1).drop_last() =~= commands@.take(i as int));
        body.append("- ");
        body.append(commands[i].name.as_str());
        body.append("\n");
        i += 1;
    }
    assert(commands@.take(i as int) =~= commands@);
    body
}

/// Turns the events of a whole session into changes to its conversation.
pub fn normalize_logs(events: Vec<AcpEvent>, entry_index: &mut EntryIndexProvider) -> (res: Vec<
    LogEffect,
>)
    requires
        old(entry_index).next + events@.len() <= usize::MAX,
    ensures
        res.deep_view() == NormalizerView::initial().run(events@, old(entry_index).next).effects,
        final(entry_index).next == NormalizerView::initial().run(
            events@,
            old(entry_index).next,
        ).next,
{
    let ghost all = events@;
    let ghost start = entry_index.next;
    let ghost initial = NormalizerView::initial();
    let mut normalizer = LogNormalizer::new();
    let mut effects: Vec<LogEffect> = Vec::new();
    assert(all.take(0) =~= Seq::empty());
    assert(effects.deep_view() =~= Seq::empty());
    for event in it: events
        invariant
            it.seq() == all,
            start + all.len() <= usize::MAX,
            initial == NormalizerView::initial(),
            entry_index.next <= start + it.index(),
            normalizer@ == initial.run(all.take(it.index()), start).state,
            entry_index.next == initial.run(all.take(it.index()), start).next,
            effects.deep_view() == initial.run(all.take(it.index()), start).effects,
    {
        let ghost i = it.index();
        assert(all.take(i + 1).drop_last() =~= all.take(i));
        let ghost before = effects.deep_view();
        proof {
            lemma_step_takes_one(normalizer@, event, entry_index.next);
        }
        let mut new_effects = normalizer.step(event, entry_index);
        let ghost added = new_effects.deep_view();
        effects.append(&mut new_effects);
        assert(effects.deep_view() =~= before + added);
    }
    assert(all.take(all.len() as int) =~= all);
    effects
}

/// An event takes at most one index.
pub proof fn lemma_step_takes_one(state: NormalizerView, event: AcpEvent, next: usize)
    requires
        next < usize::MAX,
    ensures
        next <= state.step(event, next).next <= next + 1,
{
}

} // verus!
