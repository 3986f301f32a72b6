//! What is kept of the prompts of a user, and what the notifications of an agent
//! are taken as.

use vstd::prelude::*;

use crate::json;
use crate::json::Json;

use super::types::{AvailableCommand, SessionNotification, SessionUpdate};
use super::{slash_commands, AcpEvent, SlashCommandDescription, UserPrompt};

verus! {

/// A new prompt has the text that it is made with, and an id.
pub proof fn law_new_prompt_has_an_id(prompt: String, made: UserPrompt)
    requires
        call_ensures(UserPrompt::new, (prompt,), made),
    ensures
        made.prompt@ == prompt@,
        made.message_id is Some,
        made.message_id->0@.len() == 36,
        made.message_id->0@[8] == '-',
        made.message_id->0@[14] == '4',
{
}

/// A prompt is stored as an object with its text and, where it has one, its id,
/// and nothing else.
pub proof fn law_prompt_is_stored_under_its_names(
    prompt: UserPrompt,
    stored: serde_json::Value,
    other: Seq<char>,
)
    requires
        call_ensures(UserPrompt::serialize, (&prompt,), stored),
    ensures
        json::json_of(stored) is Object,
        json::json_of(stored).member("prompt"@) == Some(Json::Text(prompt.prompt@)),
        prompt.message_id is None ==> json::json_of(stored).member("message_id"@) is None,
        prompt.message_id is Some ==> json::json_of(stored).member("message_id"@) == Some(
            Json::Text(prompt.message_id->0@),
        ),
        other != "prompt"@ && other != "message_id"@ ==> json::json_of(stored).member(
            other,
        ) is None,
{
    super::lemma_names_differ();
    reveal_with_fuel(json::lookup, 3);
    let members = json::json_of(stored)->Object_0;
    assert(members[0] == ("prompt"@, Json::Text(prompt.prompt@)));
    match prompt.message_id {
        Some(id) => {
            assert(prompt.message_id.deep_view() == Some(id@));
            assert(members.drop_first()[0] == ("message_id"@, Json::Text(id@)));
            assert(members.drop_first().drop_first().len() == 0);
        },
        None => {
            assert(members.drop_first().len() == 0);
        },
    }
}

/// A prompt that was stored is read back with its text and its id.
pub proof fn law_stored_prompt_is_read_back(
    prompt: UserPrompt,
    stored: serde_json::Value,
    read: Option<UserPrompt>,
)
    requires
        call_ensures(UserPrompt::serialize, (&prompt,), stored),
        call_ensures(UserPrompt::deserialize, (&stored,), read),
    ensures
        read is Some,
        read->0.prompt@ == prompt.prompt@,
        read->0.message_id.deep_view() == prompt.message_id.deep_view(),
{
    super::law_stored_prompt_reads_back(prompt@);
    assert(read->0@ == prompt@);
}

/// A prompt is read from a bare text, which has no id, or from an object with a
/// text and perhaps an id.
pub proof fn law_prompt_is_read_by_its_names(
    document: serde_json::Value,
    read: Option<UserPrompt>,
    prompt: Seq<char>,
    id: Seq<char>,
)
    requires
        call_ensures(UserPrompt::deserialize, (&document,), read),
    ensures
        json::json_of(document) == Json::Text(prompt) ==> read is Some && read->0.prompt@ == prompt
            && read->0.message_id is None,
        json::json_of(document).member("prompt"@) == Some(Json::Text(prompt)) && json::json_of(
            document,
        ).member("message_id"@) == Some(Json::Text(id)) ==> read is Some && read->0.prompt@
            == prompt && read->0.message_id is Some && read->0.message_id->0@ == id,
        json::json_of(document).member("prompt"@) == Some(Json::Text(prompt)) && json::json_of(
            document,
        ).member("message_id"@) is None ==> read is Some && read->0.prompt@ == prompt
            && read->0.message_id is None,
        json::json_of(document) !is Text && !(json::json_of(document).member("prompt"@) is Some
            && json::json_of(document).member("prompt"@)->0 is Text) ==> read is None,
{
    if read is Some {
        assert(read->0@.message_id == read->0.message_id.deep_view());
        if read->0.message_id is Some {
            assert(read->0.message_id.deep_view() == Some(read->0.message_id->0@));
        }
    }
}

/// A notification of a known kind is the event of that kind with what it
/// carries, and one of another kind is none.
pub proof fn law_notification_is_its_event(
    notification: SessionNotification,
    event: Result<AcpEvent, ()>,
)
    requires
        call_ensures(AcpEvent::try_from, (notification,), event),
    ensures
        match notification.update {
            SessionUpdate::AgentMessageChunk(content) => event matches Ok(AcpEvent::Message(kept))
                && kept == content,
            SessionUpdate::AgentThoughtChunk(content) => event matches Ok(AcpEvent::Thought(kept))
                && kept == content,
            SessionUpdate::ToolCall(call) => event matches Ok(AcpEvent::ToolCall(kept)) && kept
                == call,
            SessionUpdate::ToolCallUpdate(update) => event matches Ok(AcpEvent::ToolUpdate(kept))
                && kept == update,
            SessionUpdate::Plan(entries) => event matches Ok(AcpEvent::Plan(kept)) && kept
                == entries,
            SessionUpdate::AvailableCommandsUpdate(commands) => event matches Ok(
                AcpEvent::AvailableCommands(kept),
            ) && kept == commands,
            SessionUpdate::CurrentModeUpdate(mode) => event matches Ok(AcpEvent::CurrentMode(kept))
                && kept == mode,
            SessionUpdate::Other(_) => event is Err,
        },
{
}

/// Slash commands that are known are offered as they are; else each one that was
/// found is, under its name and with its description unless that is empty.
pub proof fn law_commands_are_offered(
    known: Vec<SlashCommandDescription>,
    probed: Vec<AvailableCommand>,
    from_known: Vec<SlashCommandDescription>,
    from_probe: Vec<SlashCommandDescription>,
    at: int,
)
    requires
        call_ensures(slash_commands, (Some(known), probed), from_known),
        call_ensures(slash_commands, (None, probed), from_probe),
        0 <= at < probed@.len(),
    ensures
        from_known == known,
        from_probe@.len() == probed@.len(),
        from_probe@[at].name@ == probed@[at].name@,
        probed@[at].description@.len() == 0 ==> from_probe@[at].description is None,
        probed@[at].description@.len() > 0 ==> from_probe@[at].description is Some
            && from_probe@[at].description->0@ == probed@[at].description@,
{
    assert(from_probe.deep_view().len() == from_probe@.len());
    assert(from_probe.deep_view()[at] == from_probe@[at].deep_view());
    let description = from_probe@[at].description;
    if description is Some {
        assert(description.deep_view() == Some(description->0@));
    }
}

} // verus!
