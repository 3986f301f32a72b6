//! The parts of the Agent Client Protocol that the rules of this library read.

use vstd::prelude::*;

use crate::json;
use crate::json::Json;

verus! {

/// A piece of content. One that is no text is known by its kind alone.
#[derive(Debug)]
pub enum ContentBlock {
    Text(String),
    Other(String),
}

/// The category of a tool.
#[derive(Debug, Clone, Copy, PartialEq, Eq, Structural)]
pub enum ToolKind {
    Read,
    Edit,
    Delete,
    Move,
    Search,
    Execute,
    Think,
    Fetch,
    SwitchMode,
    Other,
}

impl ToolKind {
    /// The kind of a tool call that names none.
    pub open spec fn unset() -> ToolKind {
        ToolKind::Other
    }
}

/// How far a tool call has come.
#[derive(Debug, Clone, Copy, PartialEq, Eq, Structural)]
pub enum ToolCallStatus {
    Pending,
    InProgress,
    Completed,
    Failed,
}

impl ToolCallStatus {
    /// The status of a tool call that names none.
    pub open spec fn unset() -> ToolCallStatus {
        ToolCallStatus::Pending
    }
}

/// A change to a file, as its text before and after.
#[derive(Debug)]
pub struct Diff {
    pub path: String,
    pub old_text: Option<String>,
    pub new_text: String,
}

/// A piece of what a tool call has produced.
#[derive(Debug)]
pub enum ToolCallContent {
    Content(ContentBlock),
    Diff(Diff),
    Other,
}

/// A file that a tool call works on, by its path relative to the worktree.
#[derive(Debug)]
pub struct ToolCallLocation {
    pub path: String,
}

impl DeepView for ToolCallLocation {
    type V = Seq<char>;

    open spec fn deep_view(&self) -> Seq<char> {
        self.path@
    }
}

/// A tool call of the agent.
#[derive(Debug)]
pub struct ToolCall {
    pub tool_call_id: String,
    pub title: String,
    pub kind: ToolKind,
    pub status: ToolCallStatus,
    pub content: Vec<ToolCallContent>,
    pub locations: Vec<ToolCallLocation>,
    pub raw_input: Option<serde_json::Value>,
    pub raw_output: Option<serde_json::Value>,
}

#[verifier::ext_equal]
pub struct ToolCallView {
    pub tool_call_id: Seq<char>,
    pub title: Seq<char>,
    pub kind: ToolKind,
    pub status: ToolCallStatus,
    pub content: Seq<ToolCallContent>,
    pub locations: Seq<Seq<char>>,
    pub raw_input: Option<Json>,
    pub raw_output: Option<Json>,
}

impl View for ToolCall {
    type V = ToolCallView;

    open spec fn view(&self) -> ToolCallView {
        ToolCallView {
            tool_call_id: self.tool_call_id@,
            title: self.title@,
            kind: self.kind,
            status: self.status,
            content: self.content@,
            locations: self.locations.deep_view(),
            raw_input: json::opt_json(self.raw_input),
            raw_output: json::opt_json(self.raw_output),
        }
    }
}

/// An update of a tool call, with the fields that change.
#[derive(Debug)]
pub struct ToolCallUpdate {
    pub tool_call_id: String,
    pub title: Option<String>,
    pub kind: Option<ToolKind>,
    pub status: Option<ToolCallStatus>,
    pub content: Option<Vec<ToolCallContent>>,
    pub locations: Option<Vec<ToolCallLocation>>,
    pub raw_input: Option<serde_json::Value>,
    pub raw_output: Option<serde_json::Value>,
}

impl ToolCallUpdate {
    /// The tool call that an update with the given title describes, with the
    /// unset value in each field that the update leaves out.
    pub open spec fn described(self, title: Seq<char>) -> ToolCallView {
        ToolCallView {
            tool_call_id: self.tool_call_id@,
            title,
            kind: match self.kind {
                Some(kind) => kind,
                None => ToolKind::unset(),
            },
            status: match self.status {
                Some(status) => status,
                None => ToolCallStatus::unset(),
            },
            content: match self.content {
                Some(content) => content@,
                None => Seq::empty(),
            },
            locations: match self.locations {
                Some(locations) => locations.deep_view(),
                None => Seq::empty(),
            },
            raw_input: json::opt_json(self.raw_input),
            raw_output: json::opt_json(self.raw_output),
        }
    }

    /// The tool call that the update describes by itself: none where it has no
    /// title.
    pub fn into_tool_call(self) -> (res: Option<ToolCall>)
        ensures
            match self.title {
                Some(title) => res is Some && res->0@ == self.described(title@),
                None => res is None,
            },
    {
        match self.title {
            None => None,
            Some(title) => {
                let content = match self.content {
                    Some(content) => content,
                    None => Vec::new(),
                };
                let locations = match self.locations {
                    Some(locations) => locations,
                    None => Vec::new(),
                };
                assert(self.locations is None ==> locations.deep_view() =~= Seq::empty());
                Some(
                    ToolCall {
                        tool_call_id: self.tool_call_id,
                        title,
                        kind: match self.kind {
                            Some(kind) => kind,
                            None => ToolKind::Other,
                        },
                        status: match self.status {
                            Some(status) => status,
                            None => ToolCallStatus::Pending,
                        },
                        content,
                        locations,
                        raw_input: self.raw_input,
                        raw_output: self.raw_output,
                    },
                )
            },
        }
    }
}

/// A step of a plan. Status and priority are their names on the wire, where
/// they have one.
#[derive(Debug)]
pub struct PlanEntry {
    pub content: String,
    pub status: Option<String>,
    pub priority: Option<String>,
}

/// A command that the agent offers.
#[derive(Debug)]
pub struct AvailableCommand {
    pub name: String,
    pub description: String,
}

/// What choosing a permission option means.
#[derive(Debug, Clone, Copy, PartialEq, Eq, Structural)]
pub enum PermissionOptionKind {
    AllowOnce,
    AllowAlways,
    RejectOnce,
    RejectAlways,
}

/// An answer that the agent offers to a permission request.
#[derive(Debug)]
pub struct PermissionOption {
    pub option_id: String,
    pub name: String,
    pub kind: PermissionOptionKind,
}

/// The agent asks for permission to run a tool call.
#[derive(Debug)]
pub struct RequestPermissionRequest {
    pub session_id: String,
    pub tool_call: ToolCallUpdate,
    pub options: Vec<PermissionOption>,
}

/// The answer to a permission request.
#[derive(Debug)]
pub enum RequestPermissionOutcome {
    Cancelled,
    Selected { option_id: String },
}

#[verifier::ext_equal]
pub enum OutcomeView {
    Cancelled,
    Selected { option_id: Seq<char> },
}

impl View for RequestPermissionOutcome {
    type V = OutcomeView;

    open spec fn view(&self) -> OutcomeView {
        match self {
            RequestPermissionOutcome::Cancelled => OutcomeView::Cancelled,
            RequestPermissionOutcome::Selected { option_id } => OutcomeView::Selected {
                option_id: option_id@,
            },
        }
    }
}

/// Something that happened in a session. An update of any other kind is known
/// by the name of its kind alone.
#[derive(Debug)]
pub enum SessionUpdate {
    AgentMessageChunk(ContentBlock),
    AgentThoughtChunk(ContentBlock),
    ToolCall(ToolCall),
    ToolCallUpdate(ToolCallUpdate),
    Plan(Vec<PlanEntry>),
    AvailableCommandsUpdate(Vec<AvailableCommand>),
    CurrentModeUpdate(String),
    Other(String),
}

/// A message of the agent about a session.
#[derive(Debug)]
pub struct SessionNotification {
    pub session_id: String,
    pub update: SessionUpdate,
}

} // verus!
