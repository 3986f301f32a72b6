//! The entries of a normalized conversation log.

pub mod laws;
pub mod stdout_processor;

use vstd::prelude::*;

use crate::approvals::{ApprovalStatus, QuestionStatus, Timestamp};
use crate::json;
use crate::json::Json;

verus! {

/// The status that a conversation shows for a tool call.
#[derive(Debug)]
pub enum ToolStatus {
    Created,
    Success,
    Failed,
    Denied { reason: Option<String> },
    PendingApproval { approval_id: String, requested_at: Timestamp, timeout_at: Timestamp },
    TimedOut,
}

impl Clone for ToolStatus {
    fn clone(&self) -> (res: Self)
        ensures
            res == *self,
    {
        match self {
            ToolStatus::Created => ToolStatus::Created,
            ToolStatus::Success => ToolStatus::Success,
            ToolStatus::Failed => ToolStatus::Failed,
            ToolStatus::Denied { reason } => ToolStatus::Denied { reason: reason.clone() },
            ToolStatus::PendingApproval { approval_id, requested_at, timeout_at } => {
                ToolStatus::PendingApproval {
                    approval_id: approval_id.clone(),
                    requested_at: *requested_at,
                    timeout_at: *timeout_at,
                }
            },
            ToolStatus::TimedOut => ToolStatus::TimedOut,
        }
    }
}

impl ToolStatus {
    /// The status of a tool call whose approval stands as given; none while the
    /// approval is still pending.
    pub open spec fn of_approval(status: ApprovalStatus) -> Option<ToolStatus> {
        match status {
            ApprovalStatus::Approved => Some(ToolStatus::Created),
            ApprovalStatus::Denied { reason } => Some(ToolStatus::Denied { reason }),
            ApprovalStatus::TimedOut => Some(ToolStatus::TimedOut),
            ApprovalStatus::Pending => None,
        }
    }

    pub fn from_approval_status(status: &ApprovalStatus) -> (res: Option<Self>)
        ensures
            res == Self::of_approval(*status),
    {
        match status {
            ApprovalStatus::Approved => Some(ToolStatus::Created),
            ApprovalStatus::Denied { reason } => {
                Some(ToolStatus::Denied { reason: reason.clone() })
            },
            ApprovalStatus::TimedOut => Some(ToolStatus::TimedOut),
            ApprovalStatus::Pending => None,
        }
    }

    /// The status of a question that ended as given.
    pub open spec fn of_question(status: QuestionStatus) -> ToolStatus {
        match status {
            QuestionStatus::Answered { .. } => ToolStatus::Success,
            QuestionStatus::TimedOut => ToolStatus::TimedOut,
        }
    }

    pub fn from_question_status(status: &QuestionStatus) -> (res: Self)
        ensures
            res == Self::of_question(*status),
    {
        match status {
            QuestionStatus::Answered { .. } => ToolStatus::Success,
            QuestionStatus::TimedOut => ToolStatus::TimedOut,
        }
    }
}

/// One of the answers a question offers.
#[derive(Debug)]
pub struct AskUserQuestionOption {
    pub label: String,
    pub description: String,
}

#[verifier::ext_equal]
pub struct AskUserQuestionOptionView {
    pub label: Seq<char>,
    pub description: Seq<char>,
}

impl View for AskUserQuestionOption {
    type V = AskUserQuestionOptionView;

    open spec fn view(&self) -> AskUserQuestionOptionView {
        AskUserQuestionOptionView { label: self.label@, description: self.description@ }
    }
}

impl DeepView for AskUserQuestionOption {
    type V = AskUserQuestionOptionView;

    open spec fn deep_view(&self) -> AskUserQuestionOptionView {
        self.view()
    }
}

/// A question the agent asks the user.
#[derive(Debug)]
pub struct AskUserQuestionItem {
    pub question: String,
    pub header: String,
    pub options: Vec<AskUserQuestionOption>,
    pub multi_select: bool,
}

#[verifier::ext_equal]
pub struct AskUserQuestionItemView {
    pub question: Seq<char>,
    pub header: Seq<char>,
    pub options: Seq<AskUserQuestionOptionView>,
    pub multi_select: bool,
}

impl View for AskUserQuestionItem {
    type V = AskUserQuestionItemView;

    open spec fn view(&self) -> AskUserQuestionItemView {
        AskUserQuestionItemView {
            question: self.question@,
            header: self.header@,
            options: self.options.deep_view(),
            multi_select: self.multi_select,
        }
    }
}

impl DeepView for AskUserQuestionItem {
    type V = AskUserQuestionItemView;

    open spec fn deep_view(&self) -> AskUserQuestionItemView {
        self.view()
    }
}

/// A question and its answer, as the conversation shows it.
#[derive(Debug)]
pub struct AnsweredQuestion {
    pub question: String,
    pub answer: Vec<String>,
}

#[verifier::ext_equal]
pub struct AnsweredQuestionView {
    pub question: Seq<char>,
    pub answer: Seq<Seq<char>>,
}

impl View for AnsweredQuestion {
    type V = AnsweredQuestionView;

    open spec fn view(&self) -> AnsweredQuestionView {
        AnsweredQuestionView { question: self.question@, answer: self.answer.deep_view() }
    }
}

impl DeepView for AnsweredQuestion {
    type V = AnsweredQuestionView;

    open spec fn deep_view(&self) -> AnsweredQuestionView {
        self.view()
    }
}

/// One step of a plan.
#[derive(Debug)]
pub struct TodoItem {
    pub content: String,
    pub status: String,
    pub priority: Option<String>,
}

#[verifier::ext_equal]
pub struct TodoItemView {
    pub content: Seq<char>,
    pub status: Seq<char>,
    pub priority: Option<Seq<char>>,
}

impl View for TodoItem {
    type V = TodoItemView;

    open spec fn view(&self) -> TodoItemView {
        TodoItemView {
            content: self.content@,
            status: self.status@,
            priority: self.priority.deep_view(),
        }
    }
}

impl DeepView for TodoItem {
    type V = TodoItemView;

    open spec fn deep_view(&self) -> TodoItemView {
        self.view()
    }
}

/// A unified diff, by what it is to be rendered from.
#[derive(Debug)]
pub enum UnifiedDiff {
    /// The difference between two texts of a file.
    Created { path: String, old_text: String, new_text: String },
    /// A diff that the agent wrote itself, to be brought into the usual form.
    Normalized { path: String, diff: String },
}

#[verifier::ext_equal]
pub enum UnifiedDiffView {
    Created { path: Seq<char>, old_text: Seq<char>, new_text: Seq<char> },
    Normalized { path: Seq<char>, diff: Seq<char> },
}

impl View for UnifiedDiff {
    type V = UnifiedDiffView;

    open spec fn view(&self) -> UnifiedDiffView {
        match self {
            UnifiedDiff::Created { path, old_text, new_text } => UnifiedDiffView::Created {
                path: path@,
                old_text: old_text@,
                new_text: new_text@,
            },
            UnifiedDiff::Normalized { path, diff } => UnifiedDiffView::Normalized {
                path: path@,
                diff: diff@,
            },
        }
    }
}

/// What a tool call does to a file.
#[derive(Debug)]
pub enum FileChange {
    Write { content: String },
    Delete,
    Edit { unified_diff: UnifiedDiff, has_line_numbers: bool },
}

#[verifier::ext_equal]
pub enum FileChangeView {
    Write { content: Seq<char> },
    Delete,
    Edit { unified_diff: UnifiedDiffView, has_line_numbers: bool },
}

impl View for FileChange {
    type V = FileChangeView;

    open spec fn view(&self) -> FileChangeView {
        match self {
            FileChange::Write { content } => FileChangeView::Write { content: content@ },
            FileChange::Delete => FileChangeView::Delete,
            FileChange::Edit { unified_diff, has_line_numbers } => FileChangeView::Edit {
                unified_diff: unified_diff@,
                has_line_numbers: *has_line_numbers,
            },
        }
    }
}

impl DeepView for FileChange {
    type V = FileChangeView;

    open spec fn deep_view(&self) -> FileChangeView {
        self.view()
    }
}

/// How the value of a tool result is to be read.
#[derive(Debug, Clone, Copy, PartialEq, Eq, Structural)]
pub enum ToolResultValueType {
    Markdown,
    Json,
}

/// What a tool gave back.
#[derive(Debug)]
pub struct ToolResult {
    pub value_type: ToolResultValueType,
    pub value: serde_json::Value,
}

#[verifier::ext_equal]
pub struct ToolResultView {
    pub value_type: ToolResultValueType,
    pub value: Json,
}

impl View for ToolResult {
    type V = ToolResultView;

    open spec fn view(&self) -> ToolResultView {
        ToolResultView { value_type: self.value_type, value: json::json_of(self.value) }
    }
}

impl DeepView for ToolResult {
    type V = ToolResultView;

    open spec fn deep_view(&self) -> ToolResultView {
        self.view()
    }
}

/// How a command ended.
#[derive(Debug, Clone, Copy, PartialEq, Eq, Structural)]
pub enum CommandExitStatus {
    Success { success: bool },
}

/// What is known of a command that was run.
#[derive(Debug)]
pub struct CommandRunResult {
    pub exit_status: Option<CommandExitStatus>,
    pub output: Option<String>,
}

#[verifier::ext_equal]
pub struct CommandRunResultView {
    pub exit_status: Option<CommandExitStatus>,
    pub output: Option<Seq<char>>,
}

impl View for CommandRunResult {
    type V = CommandRunResultView;

    open spec fn view(&self) -> CommandRunResultView {
        CommandRunResultView { exit_status: self.exit_status, output: self.output.deep_view() }
    }
}

impl DeepView for CommandRunResult {
    type V = CommandRunResultView;

    open spec fn deep_view(&self) -> CommandRunResultView {
        self.view()
    }
}

/// What a tool call is about.
#[allow(inconsistent_fields)]
#[derive(Debug)]
pub enum ActionType {
    AskUserQuestion { questions: Vec<AskUserQuestionItem> },
    FileRead { path: String },
    FileEdit { path: String, changes: Vec<FileChange> },
    CommandRun { command: String, result: Option<CommandRunResult> },
    Search { query: String },
    WebFetch { url: String },
    Tool {
        tool_name: String,
        arguments: Option<serde_json::Value>,
        result: Option<ToolResult>,
    },
    TodoManagement { todos: Vec<TodoItem>, operation: String },
    Other { description: String },
}

#[allow(inconsistent_fields)]
#[verifier::ext_equal]
pub enum ActionTypeView {
    AskUserQuestion { questions: Seq<AskUserQuestionItemView> },
    FileRead { path: Seq<char> },
    FileEdit { path: Seq<char>, changes: Seq<FileChangeView> },
    CommandRun { command: Seq<char>, result: Option<CommandRunResultView> },
    Search { query: Seq<char> },
    WebFetch { url: Seq<char> },
    Tool { tool_name: Seq<char>, arguments: Option<Json>, result: Option<ToolResultView> },
    TodoManagement { todos: Seq<TodoItemView>, operation: Seq<char> },
    Other { description: Seq<char> },
}

impl View for ActionType {
    type V = ActionTypeView;

    open spec fn view(&self) -> ActionTypeView {
        match self {
            ActionType::AskUserQuestion { questions } => ActionTypeView::AskUserQuestion {
                questions: questions.deep_view(),
            },
            ActionType::FileRead { path } => ActionTypeView::FileRead { path: path@ },
            ActionType::FileEdit { path, changes } => ActionTypeView::FileEdit {
                path: path@,
                changes: changes.deep_view(),
            },
            ActionType::CommandRun { command, result } => ActionTypeView::CommandRun {
                command: command@,
                result: result.deep_view(),
            },
            ActionType::Search { query } => ActionTypeView::Search { query: query@ },
            ActionType::WebFetch { url } => ActionTypeView::WebFetch { url: url@ },
            ActionType::Tool { tool_name, arguments, result } => ActionTypeView::Tool {
                tool_name: tool_name@,
                arguments: json::opt_json(*arguments),
                result: result.deep_view(),
            },
            ActionType::TodoManagement { todos, operation } => ActionTypeView::TodoManagement {
                todos: todos.deep_view(),
                operation: operation@,
            },
            ActionType::Other { description } => ActionTypeView::Other {
                description: description@,
            },
        }
    }
}

/// What kind of error an entry reports.
#[derive(Debug, Clone, Copy, PartialEq, Eq, Structural)]
pub enum NormalizedEntryError {
    Other,
}

/// What kind of entry stands in the conversation.
#[derive(Debug)]
pub enum NormalizedEntryType {
    UserFeedback { denied_tool: String },
    UserAnsweredQuestions { answers: Vec<AnsweredQuestion> },
    AssistantMessage,
    Thinking,
    SystemMessage,
    ErrorMessage { error_type: NormalizedEntryError },
    ToolUse { tool_name: String, action_type: ActionType, status: ToolStatus },
}

#[verifier::ext_equal]
pub enum NormalizedEntryTypeView {
    UserFeedback { denied_tool: Seq<char> },
    UserAnsweredQuestions { answers: Seq<AnsweredQuestionView> },
    AssistantMessage,
    Thinking,
    SystemMessage,
    ErrorMessage { error_type: NormalizedEntryError },
    ToolUse { tool_name: Seq<char>, action_type: ActionTypeView, status: ToolStatus },
}

impl View for NormalizedEntryType {
    type V = NormalizedEntryTypeView;

    open spec fn view(&self) -> NormalizedEntryTypeView {
        match self {
            NormalizedEntryType::UserFeedback { denied_tool } => {
                NormalizedEntryTypeView::UserFeedback { denied_tool: denied_tool@ }
            },
            NormalizedEntryType::UserAnsweredQuestions { answers } => {
                NormalizedEntryTypeView::UserAnsweredQuestions { answers: answers.deep_view() }
            },
            NormalizedEntryType::AssistantMessage => NormalizedEntryTypeView::AssistantMessage,
            NormalizedEntryType::Thinking => NormalizedEntryTypeView::Thinking,
            NormalizedEntryType::SystemMessage => NormalizedEntryTypeView::SystemMessage,
            NormalizedEntryType::ErrorMessage { error_type } => {
                NormalizedEntryTypeView::ErrorMessage { error_type: *error_type }
            },
            NormalizedEntryType::ToolUse { tool_name, action_type, status } => {
                NormalizedEntryTypeView::ToolUse {
                    tool_name: tool_name@,
                    action_type: action_type@,
                    status: *status,
                }
            },
        }
    }
}

/// An entry of the conversation. The metadata is the id of the tool call that
/// the entry shows.
#[derive(Debug)]
pub struct NormalizedEntry {
    pub timestamp: Option<String>,
    pub entry_type: NormalizedEntryType,
    pub content: String,
    pub metadata: Option<ToolCallMetadata>,
}

#[derive(Debug)]
pub struct ToolCallMetadata {
    pub tool_call_id: String,
}

impl DeepView for ToolCallMetadata {
    type V = Seq<char>;

    open spec fn deep_view(&self) -> Seq<char> {
        self.tool_call_id@
    }
}

#[verifier::ext_equal]
pub struct NormalizedEntryView {
    pub timestamp: Option<Seq<char>>,
    pub entry_type: NormalizedEntryTypeView,
    pub content: Seq<char>,
    pub metadata: Option<Seq<char>>,
}

impl View for NormalizedEntry {
    type V = NormalizedEntryView;

    open spec fn view(&self) -> NormalizedEntryView {
        NormalizedEntryView {
            timestamp: self.timestamp.deep_view(),
            entry_type: self.entry_type@,
            content: self.content@,
            metadata: self.metadata.deep_view(),
        }
    }
}

impl NormalizedEntryView {
    /// An entry that shows no tool call.
    pub open spec fn plain(entry_type: NormalizedEntryTypeView, content: Seq<char>) -> Self {
        NormalizedEntryView { timestamp: None, entry_type, content, metadata: None }
    }
}

impl NormalizedEntry {
    /// An entry that shows no tool call.
    pub fn plain(entry_type: NormalizedEntryType, content: String) -> (res: Self)
        ensures
            res@ == NormalizedEntryView::plain(entry_type@, content@),
    {
        NormalizedEntry { timestamp: None, entry_type, content, metadata: None }
    }
}

} // verus!
