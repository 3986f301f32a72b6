//! Talking to an agent over the Agent Client Protocol.

pub mod answer_laws;
pub mod chain_laws;
pub mod client;
pub mod client_laws;
pub mod entry_laws;
pub mod event_laws;
pub mod fallback_laws;
pub mod input_laws;
pub mod log_laws;
pub mod normalize_logs;
pub mod permission;
pub mod prompt_laws;
pub mod session;
pub mod session_laws;
pub mod terminal;
pub mod terminal_laws;
pub mod tool_calls;
pub mod tool_inputs;
pub mod tool_laws;
pub mod types;

use vstd::prelude::*;

use crate::approvals::{ApprovalStatus, PendingApprovalMeta, QuestionStatus};
use crate::json;
use crate::json::Json;

use types::{
    AvailableCommand, ContentBlock, PlanEntry, RequestPermissionRequest, SessionNotification,
    SessionUpdate, ToolCall, ToolCallUpdate,
};

verus! {

/// Whether a character is a hexadecimal digit in lowercase.
pub open spec fn is_lower_hex(c: char) -> bool {
    '0' <= c <= '9' || 'a' <= c <= 'f'
}

/// Whether a text is a random (version 4) UUID in lowercase with hyphens.
pub open spec fn is_random_uuid(text: Seq<char>) -> bool {
    &&& text.len() == 36
    &&& forall|i: int|
        0 <= i < 36 ==> if i == 8 || i == 13 || i == 18 || i == 23 {
            #[trigger] text[i] == '-'
        } else {
            is_lower_hex(#[trigger] text[i])
        }
    &&& text[14] == '4'
    &&& text[19] == '8' || text[19] == '9' || text[19] == 'a' || text[19] == 'b'
}

/// `uuid::Uuid::new_v4` draws a UUID at random, and its `Display` writes it in
/// lowercase with hyphens. Which one comes is left to chance.
#[verifier::external_body]
pub(crate) fn random_uuid() -> (res: String)
    ensures
        is_random_uuid(res@),
{
    uuid::Uuid::new_v4().to_string()
}

/// What a user asked the agent to do. The id lets a session be rolled back to
/// this message; prompts of old session files have none.
#[derive(Debug)]
pub struct UserPrompt {
    pub prompt: String,
    pub message_id: Option<String>,
}

#[verifier::ext_equal]
pub struct UserPromptView {
    pub prompt: Seq<char>,
    pub message_id: Option<Seq<char>>,
}

impl View for UserPrompt {
    type V = UserPromptView;

    open spec fn view(&self) -> UserPromptView {
        UserPromptView { prompt: self.prompt@, message_id: self.message_id.deep_view() }
    }
}

impl UserPromptView {
    /// The document that a prompt is stored as.
    pub open spec fn stored(self) -> Json {
        match self.message_id {
            Some(id) => json::text_object(seq![("prompt"@, self.prompt), ("message_id"@, id)]),
            None => json::text_object(seq![("prompt"@, self.prompt)]),
        }
    }

    /// The prompt that a stored document is. A bare text is a prompt without an
    /// id; an object has a text `prompt`, and may have a text `message_id`.
    pub open spec fn from_stored(document: Json) -> Option<UserPromptView> {
        match document {
            Json::Text(prompt) => Some(UserPromptView { prompt, message_id: None }),
            Json::Object(members) => match (
                json::lookup(members, "prompt"@),
                json::lookup(members, "message_id"@),
            ) {
                (Some(Json::Text(prompt)), None) => Some(
                    UserPromptView { prompt, message_id: None },
                ),
                (Some(Json::Text(prompt)), Some(Json::Null)) => Some(
                    UserPromptView { prompt, message_id: None },
                ),
                (Some(Json::Text(prompt)), Some(Json::Text(id))) => Some(
                    UserPromptView { prompt, message_id: Some(id) },
                ),
                _ => None,
            },
            _ => None,
        }
    }
}

impl UserPrompt {
    /// A prompt with a fresh message id.
    pub fn new(prompt: String) -> (res: Self)
        ensures
            res.prompt == prompt,
            res.message_id is Some,
            is_random_uuid(res.message_id->0@),
    {
        UserPrompt { prompt, message_id: Some(random_uuid()) }
    }

    /// Reads a stored prompt.
    pub fn deserialize(value: &serde_json::Value) -> (res: Option<Self>)
        ensures
            match res {
                Some(prompt) => UserPromptView::from_stored(json::json_of(*value)) == Some(prompt@),
                None => UserPromptView::from_stored(json::json_of(*value)) is None,
            },
    {
        if let Some(prompt) = value.as_str() {
            return Some(UserPrompt { prompt: prompt.to_owned(), message_id: None });
        }
        let prompt = match json::member(value, "prompt") {
            Some(found) => match found.as_str() {
                Some(prompt) => prompt.to_owned(),
                None => return None,
            },
            None => return None,
        };
        match json::member(value, "message_id") {
            None => Some(UserPrompt { prompt, message_id: None }),
            Some(found) => match found.as_str() {
                Some(id) => Some(UserPrompt { prompt, message_id: Some(id.to_owned()) }),
                None => if found.is_null() {
                    Some(UserPrompt { prompt, message_id: None })
                } else {
                    None
                },
            },
        }
    }

    /// The stored form of the prompt.
    pub fn serialize(&self) -> (res: serde_json::Value)
        ensures
            json::json_of(res) == self@.stored(),
    {
        match &self.message_id {
            Some(id) => {
                proof {
                    lemma_names_differ();
                }
                json::object2("prompt", self.prompt.clone(), "message_id", id.clone())
            },
            None => json::object1("prompt", self.prompt.clone()),
        }
    }
}

pub proof fn lemma_names_differ()
    ensures
        "prompt"@ != "message_id"@,
{
    reveal_strlit("prompt");
    reveal_strlit("message_id");
    assert("prompt"@.len() != "message_id"@.len());
}

/// A stored prompt is read back as it was.
pub proof fn law_stored_prompt_reads_back(prompt: UserPromptView)
    ensures
        UserPromptView::from_stored(prompt.stored()) == Some(prompt),
{
    lemma_names_differ();
    reveal_with_fuel(json::lookup, 3);
    let members = prompt.stored()->Object_0;
    assert(members[0] == ("prompt"@, Json::Text(prompt.prompt)));
    match prompt.message_id {
        Some(id) => {
            assert(members.drop_first()[0] == ("message_id"@, Json::Text(id)));
        },
        None => {
            assert(members.drop_first().len() == 0);
        },
    }
}

/// The answer to a tool approval.
#[derive(Debug)]
pub struct ApprovalResponse {
    pub tool_call_id: String,
    pub status: ApprovalStatus,
}

/// The end of a question that was bridged through a permission request.
#[derive(Debug)]
pub struct QuestionResponse {
    pub tool_call_id: String,
    pub status: QuestionStatus,
}

/// What happens in a session.
#[derive(Debug)]
pub enum AcpEvent {
    User(UserPrompt),
    SessionStart(String),
    Message(ContentBlock),
    Thought(ContentBlock),
    ToolCall(ToolCall),
    ToolUpdate(ToolCallUpdate),
    Plan(Vec<PlanEntry>),
    AvailableCommands(Vec<AvailableCommand>),
    CurrentMode(String),
    /// A permission request, with the approval that was created for it, if one
    /// was.
    RequestPermission(RequestPermissionRequest, Option<PendingApprovalMeta>),
    ApprovalResponse(ApprovalResponse),
    QuestionResponse(QuestionResponse),
    /// A form of questions that belongs to a tool call.
    Elicitation { tool_call_id: String, meta: Option<PendingApprovalMeta> },
    Error(String),
    Done(String),
    Other(SessionNotification),
}

impl AcpEvent {
    /// The event that a session update is.
    pub open spec fn of_update(update: SessionUpdate) -> Option<AcpEvent> {
        match update {
            SessionUpdate::AgentMessageChunk(content) => Some(AcpEvent::Message(content)),
            SessionUpdate::AgentThoughtChunk(content) => Some(AcpEvent::Thought(content)),
            SessionUpdate::ToolCall(call) => Some(AcpEvent::ToolCall(call)),
            SessionUpdate::ToolCallUpdate(update) => Some(AcpEvent::ToolUpdate(update)),
            SessionUpdate::Plan(entries) => Some(AcpEvent::Plan(entries)),
            SessionUpdate::AvailableCommandsUpdate(commands) => Some(
                AcpEvent::AvailableCommands(commands),
            ),
            SessionUpdate::CurrentModeUpdate(mode) => Some(AcpEvent::CurrentMode(mode)),
            SessionUpdate::Other(_) => None,
        }
    }

    /// The event that a notification carries, if it is one of the known kinds.
    pub fn try_from(notification: SessionNotification) -> (res: Result<AcpEvent, ()>)
        ensures
            match Self::of_update(notification.update) {
                Some(event) => res == Ok::<AcpEvent, ()>(event),
                None => res is Err,
            },
    {
        match notification.update {
            SessionUpdate::AgentMessageChunk(content) => Ok(AcpEvent::Message(content)),
            SessionUpdate::AgentThoughtChunk(content) => Ok(AcpEvent::Thought(content)),
            SessionUpdate::ToolCall(call) => Ok(AcpEvent::ToolCall(call)),
            SessionUpdate::ToolCallUpdate(update) => Ok(AcpEvent::ToolUpdate(update)),
            SessionUpdate::Plan(entries) => Ok(AcpEvent::Plan(entries)),
            SessionUpdate::AvailableCommandsUpdate(commands) => {
                Ok(AcpEvent::AvailableCommands(commands))
            },
            SessionUpdate::CurrentModeUpdate(mode) => Ok(AcpEvent::CurrentMode(mode)),
            SessionUpdate::Other(_) => Err(()),
        }
    }
}

/// A slash command, as it is offered to the user.
#[derive(Debug)]
pub struct SlashCommandDescription {
    pub name: String,
    pub description: Option<String>,
}

impl Clone for SlashCommandDescription {
    fn clone(&self) -> (res: Self)
        ensures
            res == *self,
    {
        SlashCommandDescription { name: self.name.clone(), description: self.description.clone() }
    }
}

#[verifier::ext_equal]
pub struct SlashCommandView {
    pub name: Seq<char>,
    pub description: Option<Seq<char>>,
}

impl DeepView for SlashCommandDescription {
    type V = SlashCommandView;

    open spec fn deep_view(&self) -> SlashCommandView {
        SlashCommandView { name: self.name@, description: self.description.deep_view() }
    }
}

/// How a command of the agent is offered: an empty description is none.
pub open spec fn offered_command(command: AvailableCommand) -> SlashCommandView {
    SlashCommandView {
        name: command.name@,
        description: if command.description@.len() == 0 {
            None
        } else {
            Some(command.description@)
        },
    }
}

/// The slash commands of an agent: those that are already known of it, or else
/// those that a probe of it found.
pub fn slash_commands(
    cached: Option<Vec<SlashCommandDescription>>,
    probed: Vec<AvailableCommand>,
) -> (res: Vec<SlashCommandDescription>)
    ensures
        match cached {
            Some(known) => res == known,
            None => res.deep_view() == probed@.map_values(
                |command: AvailableCommand| offered_command(command),
            ),
        },
{
    if let Some(known) = cached {
        return known;
    }
    let mut out: Vec<SlashCommandDescription> = Vec::new();
    let mut i: usize = 0;
    while i < probed.len()
        invariant
            i <= probed@.len(),
            out@.len() == i,
            forall|j: int|
                0 <= j < i ==> (#[trigger] out@[j]).deep_view() == offered_command(probed@[j]),
        decreases probed.len() - i,
    {
        let description = if probed[i].description.as_str().is_empty() {
            None
        } else {
            Some(probed[i].description.clone())
        };
        out.push(SlashCommandDescription { name: probed[i].name.clone(), description });
        i += 1;
    }
    assert(out.deep_view() =~= probed@.map_values(
        |command: AvailableCommand| offered_command(command),
    ));
    out
}

} // verus!
