//! The stored history of a session: a line of JSON for each event.

use vstd::prelude::*;
use vstd::string::*;

use crate::approvals::Timestamp;
use crate::json;
use crate::json::Json;
use crate::path::{PathParts, PathView};
use crate::text;

use super::types::ContentBlock;
use super::{AcpEvent, UserPromptView};

verus! {

/// Why no session can be stored.
#[derive(Debug, PartialEq, Eq)]
pub enum SessionError {
    NoHomeDirectory,
}

impl SessionError {
    pub fn message(&self) -> (res: String)
        ensures
            res@ == "Could not determine home directory"@,
    {
        "Could not determine home directory".to_owned()
    }
}

/// Keeps the sessions of one kind of agent, each in a file of its own.
#[derive(Debug)]
pub struct SessionManager {
    base_dir: PathParts,
}

impl View for SessionManager {
    type V = PathView;

    closed spec fn view(&self) -> PathView {
        self.base_dir@
    }
}

/// What is stored of an event.
#[derive(Debug)]
pub enum SessionRecord {
    /// A line that is finished.
    Line(String),
    /// An event whose JSON form is the line.
    Event(AcpEvent),
}

/// A record that is to be put at the end of a file, with a line feed after it.
#[derive(Debug)]
pub struct SessionAppend {
    pub path: PathParts,
    pub record: SessionRecord,
}

/// What a forked session starts with.
#[derive(Debug)]
pub enum ForkContent {
    Empty,
    Copy,
    Text(String),
}

/// A session that is made from another one.
#[derive(Debug)]
pub struct SessionFork {
    pub from: PathParts,
    pub to: PathParts,
    pub content: ForkContent,
}

/// The document that is stored of a user prompt.
pub open spec fn user_record(prompt: UserPromptView) -> Json {
    match prompt.message_id {
        Some(id) => json::text_object(seq![("user"@, prompt.prompt), ("message_id"@, id)]),
        None => json::text_object(seq![("user"@, prompt.prompt)]),
    }
}

/// Whether a document is the record of the user message with the given id.
pub open spec fn records_message(document: Json, id: Seq<char>) -> bool {
    document.member("user"@) is Some && document.member("message_id"@) == Some(Json::Text(id))
}

/// Whether a line is the record of the user message with the given id.
pub open spec fn marks_message(line: Seq<char>, id: Seq<char>) -> bool {
    match json::json_parsed(line) {
        Some(document) => records_message(document, id),
        None => false,
    }
}

/// Whether a text can stand on a line by itself.
pub open spec fn is_one_line(text: Seq<char>) -> bool {
    !text.contains('\n') && (text.len() > 0 ==> text.last() != '\r')
}

/// The number of lines before the one that records the message with the given
/// id, or of all of them where none does.
pub open spec fn lines_before(lines: Seq<Seq<char>>, id: Seq<char>) -> nat
    decreases lines.len(),
{
    if lines.len() == 0 || marks_message(lines[0], id) {
        0
    } else {
        1 + lines_before(lines.drop_first(), id)
    }
}

/// Lines put together, each ended by a line feed. No text stays no text.
pub open spec fn ended_lines(lines: Seq<Seq<char>>) -> Seq<char> {
    let text = text::joined(lines, "\n"@);
    if text.len() > 0 {
        text.push('\n')
    } else {
        text
    }
}

/// What a fork of a session starts with. A session that is not there makes an
/// empty one. Where a message is to be undone that the session has, it is what
/// came before that message; else it is everything.
pub open spec fn is_fork_of(
    stored: Option<Seq<char>>,
    reset_to_message_id: Option<Seq<char>>,
    content: ForkContent,
) -> bool {
    match (stored, reset_to_message_id) {
        (None, _) => content is Empty,
        (Some(_), None) => content is Copy,
        (Some(text), Some(id)) => {
            let lines = text::lines(text);
            let count = lines_before(lines, id);
            if count == lines.len() {
                content is Copy
            } else {
                content matches ForkContent::Text(kept) && kept@ == ended_lines(
                    lines.take(count as int),
                )
            }
        },
    }
}

/// The document that is stored of a piece of text.
pub open spec fn text_record(key: Seq<char>, text: Seq<char>) -> Json {
    json::text_object(seq![(key, text)])
}

/// Whether a record is the line of a document.
pub open spec fn is_line_of(record: Option<SessionRecord>, document: Json) -> bool {
    record matches Some(SessionRecord::Line(line)) && line@ == json::json_text(document)
        && is_one_line(line@) && json::json_parsed(line@) == Some(document)
}

/// Whether a record is what is stored of an event: nothing of the bare frame of
/// a session, a short line for a text, the tool call alone of a permission
/// request, and anything else as it is.
pub open spec fn is_record_of(event: AcpEvent, record: Option<SessionRecord>) -> bool {
    match event {
        AcpEvent::SessionStart(_) => record is None,
        AcpEvent::Error(_) => record is None,
        AcpEvent::Done(_) => record is None,
        AcpEvent::Other(_) => record is None,
        AcpEvent::User(prompt) => is_line_of(record, user_record(prompt@)),
        AcpEvent::Message(ContentBlock::Text(text)) => is_line_of(
            record,
            text_record("assistant"@, text@),
        ),
        AcpEvent::Thought(ContentBlock::Text(text)) => is_line_of(
            record,
            text_record("thinking"@, text@),
        ),
        AcpEvent::RequestPermission(request, _) => record == Some(
            SessionRecord::Event(AcpEvent::ToolUpdate(request.tool_call)),
        ),
        _ => record == Some(SessionRecord::Event(event)),
    }
}

/// The kind of an update, where it is an object that names one.
pub open spec fn update_kind(update: Json) -> Option<Seq<char>> {
    match update.member("sessionUpdate"@) {
        Some(Json::Text(kind)) => Some(kind),
        _ => None,
    }
}

/// What is stored of a notification as an agent sends it, where it is an object:
/// its session is left out. An update stands by itself, under its kind in camel
/// case; a notification without one loses the options that it offers.
pub open spec fn stored_notification(notification: Json) -> Option<Json> {
    match notification {
        Json::Object(members) => {
            let rest = json::without_member(members, "sessionId"@);
            Some(
                match json::lookup(rest, "update"@) {
                    None => Json::Object(json::without_member(rest, "options"@)),
                    Some(update) => match update_kind(update) {
                        Some(kind) => Json::Object(
                            seq![
                                (
                                    text::camel_case(kind),
                                    Json::Object(
                                        json::without_member(
                                            update->Object_0,
                                            "sessionUpdate"@,
                                        ),
                                    ),
                                ),
                            ],
                        ),
                        None => Json::Object(rest),
                    },
                },
            )
        },
        _ => None,
    }
}

/// What is stored of a line that is no event: the notification that it is, where
/// it is one.
pub open spec fn stored_line(raw: Seq<char>) -> Option<Json> {
    match json::json_parsed(raw) {
        Some(notification) => stored_notification(notification),
        None => None,
    }
}

/// Whether a record is the line of a document, or nothing where there is none.
pub open spec fn is_stored_line(record: Option<SessionRecord>, document: Option<Json>) -> bool {
    match document {
        Some(document) => record matches Some(SessionRecord::Line(line)) && line@
            == json::json_text(document) && is_one_line(line@),
        None => record is None,
    }
}

fn write_line(document: &serde_json::Value) -> (res: Option<SessionRecord>)
    requires
        json::is_flat_object(json::json_of(*document)),
    ensures
        is_line_of(res, json::json_of(*document)),
{
    match json::write(document) {
        Ok(line) => {
            assert(line@.len() > 0 ==> line@.contains(line@.last()));
            Some(SessionRecord::Line(line))
        },
        Err(_) => None,
    }
}

proof fn lemma_user_names_differ()
    ensures
        "user"@ != "message_id"@,
        "user"@ != "assistant"@,
        "user"@ != "thinking"@,
        "user"@[0] != '$',
        "assistant"@[0] != '$',
        "thinking"@[0] != '$',
{
    reveal_strlit("user");
    reveal_strlit("message_id");
    reveal_strlit("assistant");
    reveal_strlit("thinking");
    assert("user"@.len() == 4);
}

/// The text of the prompt that a task is resumed with.
pub open spec fn resume_prompt(context: Seq<char>, current: Seq<char>) -> Seq<char> {
    "RESUME CONTEXT FOR CONTINUING TASK\n\n=== EXECUTION HISTORY ===\nThe following is the conversation history from this session:\n"@
        + context + "\n\n=== CURRENT REQUEST ===\n"@ + current
        + "\n\n=== INSTRUCTIONS ===\nYou are continuing work on the above task. The execution history shows the previous conversation in this session. Please continue from where the previous execution left off, taking into account all the context provided above."@
}

/// The directory of the sessions of a namespace.
pub open spec fn session_dir(home: Seq<char>, debug: bool, namespace: Seq<char>) -> PathView {
    let base = PathView::of_root(home).join(".vibe-kanban"@);
    if debug {
        base.join("dev"@).join(namespace)
    } else {
        base.join(namespace)
    }
}

impl SessionManager {
    /// The sessions of a namespace, under the home directory of the user. A
    /// debug build keeps its sessions apart.
    pub fn new(namespace: &str, home_dir: Option<String>, debug: bool) -> (res: Result<
        Self,
        SessionError,
    >)
        ensures
            match (home_dir, res) {
                (Some(home), Ok(manager)) => manager@ == session_dir(home@, debug, namespace@),
                (None, Err(error)) => error == SessionError::NoHomeDirectory,
                _ => false,
            },
    {
        let home = match home_dir {
            Some(home) => home,
            None => return Err(SessionError::NoHomeDirectory),
        };
        let mut dir = PathParts::of_root(home).join(".vibe-kanban");
        if debug {
            dir = dir.join("dev");
        }
        Ok(SessionManager { base_dir: dir.join(namespace) })
    }

    /// The sessions that are kept in a directory.
    pub fn in_dir(base_dir: PathParts) -> (res: Self)
        ensures
            res@ == base_dir@,
    {
        SessionManager { base_dir }
    }

    /// The directory that has to be there before a session is stored.
    pub fn base_dir(&self) -> (res: PathParts)
        ensures
            res@ == self@,
    {
        self.base_dir.clone()
    }

    /// The file of a session.
    pub fn session_file_path(&self, session_id: &str) -> (res: PathParts)
        ensures
            res@ == self@.join(session_id@ + ".jsonl"@),
    {
        let name = text::concat(session_id, ".jsonl");
        self.base_dir.join(name.as_str())
    }

    /// What is stored of an event.
    pub fn normalize_session_event(event: AcpEvent) -> (res: Option<SessionRecord>)
        ensures
            is_record_of(event, res),
    {
        proof {
            lemma_user_names_differ();
        }
        match event {
            AcpEvent::SessionStart(_) => None,
            AcpEvent::Error(_) => None,
            AcpEvent::Done(_) => None,
            AcpEvent::Other(_) => None,
            AcpEvent::RequestPermission(request, _) => {
                Some(SessionRecord::Event(AcpEvent::ToolUpdate(request.tool_call)))
            },
            AcpEvent::User(prompt) => {
                let document = match prompt.message_id {
                    Some(id) => json::object2("user", prompt.prompt, "message_id", id),
                    None => json::object1("user", prompt.prompt),
                };
                write_line(&document)
            },
            AcpEvent::Message(ContentBlock::Text(text)) => {
                write_line(&json::object1("assistant", text))
            },
            AcpEvent::Thought(ContentBlock::Text(text)) => {
                write_line(&json::object1("thinking", text))
            },
            event => Some(SessionRecord::Event(event)),
        }
    }

    /// What is stored of a notification as an agent sends it.
    pub fn normalize_notification(notification: serde_json::Value) -> (res: Option<
        serde_json::Value,
    >)
        ensures
            json::opt_json(res) == stored_notification(json::json_of(notification)),
    {
        if !notification.is_object() {
            return None;
        }
        let mut rest = notification;
        json::remove_member(&mut rest, "sessionId");
        let mut update = match json::member(&rest, "update") {
            Some(update) => update.clone(),
            None => {
                json::remove_member(&mut rest, "options");
                return Some(rest);
            },
        };
        let kind = match json::member(&update, "sessionUpdate") {
            Some(kind) => match kind.as_str() {
                Some(kind) => text::to_camel_case(kind),
                None => return Some(rest),
            },
            None => return Some(rest),
        };
        json::remove_member(&mut update, "sessionUpdate");
        let ghost inner = json::json_of(update);
        let mut stored = json::empty_object();
        json::set_member(&mut stored, kind.as_str(), update);
        assert(json::json_of(stored)->Object_0 =~= seq![(kind@, inner)]);
        Some(stored)
    }

    /// What is stored of a line that is no event.
    pub fn normalize_raw_line(raw_json: &str) -> (res: Option<SessionRecord>)
        ensures
            is_stored_line(res, stored_line(raw_json@)),
    {
        let notification = match json::parse(raw_json) {
            Ok(notification) => notification,
            Err(_) => return None,
        };
        match Self::normalize_notification(notification) {
            Some(document) => match json::write(&document) {
                Ok(line) => {
                    assert(line@.len() > 0 ==> line@.contains(line@.last()));
                    Some(SessionRecord::Line(line))
                },
                Err(_) => None,
            },
            None => None,
        }
    }

    /// What is to be put at the end of the file of a session for a line that
    /// came from its agent. `event` is the event that the line is, where it is
    /// one.
    pub fn append_raw_line(
        &self,
        session_id: &str,
        raw_json: &str,
        event: Option<AcpEvent>,
    ) -> (res: Option<SessionAppend>)
        ensures
            ({
                let record = match res {
                    Some(append) => Some(append.record),
                    None => None,
                };
                &&& res is Some ==> res->0.path@ == self@.join(session_id@ + ".jsonl"@)
                &&& match event {
                    Some(event) => is_record_of(event, record),
                    None => is_stored_line(record, stored_line(raw_json@)),
                }
            }),
    {
        let record = match event {
            Some(event) => Self::normalize_session_event(event),
            None => Self::normalize_raw_line(raw_json),
        };
        match record {
            Some(record) => Some(
                SessionAppend { path: self.session_file_path(session_id), record },
            ),
            None => None,
        }
    }

    /// The stored text of a session: what its file holds, or nothing where there
    /// is none.
    pub fn read_session_raw(&self, stored: Option<String>) -> (res: String)
        ensures
            res@ == match stored {
                Some(text) => text@,
                None => Seq::empty(),
            },
    {
        match stored {
            Some(text) => text,
            None => String::new(),
        }
    }

    /// Whether a document is the record of the user message with the given id.
    pub fn is_record_with_id(document: &serde_json::Value, message_id: &str) -> (res: bool)
        ensures
            res == records_message(json::json_of(*document), message_id@),
    {
        if json::member(document, "user").is_none() {
            return false;
        }
        match json::member(document, "message_id") {
            Some(found) => match found.as_str() {
                Some(id) => *id == *message_id,
                None => false,
            },
            None => false,
        }
    }

    /// Whether a line is the record of the user message with the given id.
    pub fn is_user_message_with_id(line: &str, message_id: &str) -> (res: bool)
        ensures
            res == marks_message(line@, message_id@),
    {
        match json::parse(line) {
            Ok(document) => Self::is_record_with_id(&document, message_id),
            Err(_) => false,
        }
    }

    /// The first `count` lines, each ended by a line feed.
    pub fn keep_lines(lines: &Vec<String>, count: usize) -> (res: String)
        requires
            count <= lines@.len(),
        ensures
            res@ == ended_lines(lines.deep_view().take(count as int)),
    {
        let mut kept = text::join(lines, count, "\n");
        if !kept.as_str().is_empty() {
            kept.push('\n');
        }
        kept
    }

    /// Plans the fork of a session. `stored` is what the file of the old session
    /// holds, where there is one.
    pub fn fork_session(
        &self,
        old_id: &str,
        new_id: &str,
        reset_to_message_id: Option<&str>,
        stored: Option<&str>,
    ) -> (res: SessionFork)
        ensures
            res.from@ == self@.join(old_id@ + ".jsonl"@),
            res.to@ == self@.join(new_id@ + ".jsonl"@),
            is_fork_of(
                match stored {
                    Some(text) => Some(text@),
                    None => None,
                },
                match reset_to_message_id {
                    Some(id) => Some(id@),
                    None => None,
                },
                res.content,
            ),
    {
        let from = self.session_file_path(old_id);
        let to = self.session_file_path(new_id);
        let stored = match stored {
            Some(text) => text,
            None => return SessionFork { from, to, content: ForkContent::Empty },
        };
        let target = match reset_to_message_id {
            Some(id) => id,
            None => return SessionFork { from, to, content: ForkContent::Copy },
        };
        let lines = text::lines_of(stored);
        let ghost all = lines.deep_view();
        let mut count: usize = 0;
        assert(all.skip(0) =~= all);
        while count < lines.len() && !Self::is_user_message_with_id(lines[count].as_str(), target)
            invariant
                count <= lines@.len(),
                all == lines.deep_view(),
                lines_before(all, target@) == count + lines_before(
                    all.skip(count as int),
                    target@,
                ),
            decreases lines.len() - count,
        {
            assert(all.skip(count as int)[0] == lines@[count as int]@);
            assert(all.skip(count as int).drop_first() =~= all.skip(count + 1));
            count += 1;
        }
        if count < lines.len() {
            assert(all.skip(count as int)[0] == lines@[count as int]@);
        }
        assert(lines_before(all, target@) == count);
        if count == lines.len() {
            return SessionFork { from, to, content: ForkContent::Copy };
        }
        let kept = Self::keep_lines(&lines, count);
        SessionFork { from, to, content: ForkContent::Text(kept) }
    }

    /// The file that is to be removed with a session, if it is there.
    pub fn delete_session(&self, session_id: &str, exists: bool) -> (res: Option<PathParts>)
        ensures
            match res {
                Some(path) => exists && path@ == self@.join(session_id@ + ".jsonl"@),
                None => !exists,
            },
    {
        if exists {
            Some(self.session_file_path(session_id))
        } else {
            None
        }
    }

    /// The prompt that a task is resumed with, from the stored text of its
    /// session.
    pub fn generate_resume_prompt(&self, stored: Option<String>, current_prompt: &str) -> (res:
        String)
        ensures
            res@ == resume_prompt(
                match stored {
                    Some(text) => text@,
                    None => Seq::empty(),
                },
                current_prompt@,
            ),
    {
        let context = self.read_session_raw(stored);
        let mut prompt =
            "RESUME CONTEXT FOR CONTINUING TASK\n\n=== EXECUTION HISTORY ===\nThe following is the conversation history from this session:\n".to_owned();
        prompt.append(context.as_str());
        prompt.append("\n\n=== CURRENT REQUEST ===\n");
        prompt.append(current_prompt);
        prompt.append(
            "\n\n=== INSTRUCTIONS ===\nYou are continuing work on the above task. The execution history shows the previous conversation in this session. Please continue from where the previous execution left off, taking into account all the context provided above.",
        );
        prompt
    }
}

/// What is known of a stored session beside its events.
#[derive(Debug)]
pub struct SessionMetadata {
    pub session_id: String,
    pub created_at: Timestamp,
    pub updated_at: Timestamp,
    pub parent_session: Option<String>,
    pub tags: Vec<String>,
}

/// The text of a file to which lines were appended one after the other.
pub open spec fn stored_text(lines: Seq<Seq<char>>) -> Seq<char>
    decreases lines.len(),
{
    if lines.len() == 0 {
        Seq::empty()
    } else {
        stored_text(lines.drop_last()) + lines.last() + "\n"@
    }
}

proof fn lemma_stored_front(lines: Seq<Seq<char>>)
    requires
        lines.len() > 0,
    ensures
        stored_text(lines) == lines[0] + "\n"@ + stored_text(lines.drop_first()),
    decreases lines.len(),
{
    if lines.len() == 1 {
        assert(lines.drop_first() =~= Seq::empty());
        assert(stored_text(lines.drop_last()) =~= Seq::empty());
        assert(stored_text(lines) =~= lines[0] + "\n"@ + stored_text(lines.drop_first()));
    } else {
        lemma_stored_front(lines.drop_last());
        assert(lines.drop_last().drop_first() =~= lines.drop_first().drop_last());
        assert(stored_text(lines) =~= lines[0] + "\n"@ + stored_text(lines.drop_first()));
    }
}

proof fn lemma_line_end(line: Seq<char>, rest: Seq<char>)
    requires
        !line.contains('\n'),
    ensures
        text::line_end(line + "\n"@ + rest) == line.len(),
    decreases line.len(),
{
    reveal_strlit("\n");
    let whole = line + "\n"@ + rest;
    if line.len() > 0 {
        assert(line.contains(line[0]));
        assert forall|c: char| #[trigger] line.drop_first().contains(c) implies line.contains(
            c,
        ) by {
            let i = line.drop_first().index_of(c);
            assert(line[i + 1] == c);
        }
        lemma_line_end(line.drop_first(), rest);
        assert(whole.drop_first() =~= line.drop_first() + "\n"@ + rest);
    } else {
        assert(whole[0] == '\n');
    }
}

/// The lines of a stored session are the lines that were appended to it.
pub proof fn law_appended_lines_are_read_back(lines: Seq<Seq<char>>)
    requires
        forall|i: int| 0 <= i < lines.len() ==> is_one_line(#[trigger] lines[i]),
    ensures
        text::lines(stored_text(lines)) == lines,
    decreases lines.len(),
{
    if lines.len() == 0 {
        assert(text::lines(stored_text(lines)) =~= lines);
    } else {
        let rest = lines.drop_first();
        assert forall|i: int| 0 <= i < rest.len() implies is_one_line(#[trigger] rest[i]) by {
            assert(rest[i] == lines[i + 1]);
        }
        law_appended_lines_are_read_back(rest);
        lemma_stored_front(lines);
        assert(is_one_line(lines[0]));
        lemma_line_end(lines[0], stored_text(rest));
        reveal_strlit("\n");
        let whole = stored_text(lines);
        let end = lines[0].len();
        assert(whole.take(end as int) =~= lines[0]);
        assert(whole.skip(end as int + 1) =~= stored_text(rest));
        assert(seq![lines[0]] + rest =~= lines);
    }
}

proof fn lemma_ended_lines(lines: Seq<Seq<char>>)
    requires
        lines.len() > 0,
    ensures
        text::joined(lines, "\n"@).push('\n') == stored_text(lines),
    decreases lines.len(),
{
    reveal_strlit("\n");
    if lines.len() == 1 {
        assert(stored_text(lines.drop_last()) =~= Seq::empty());
        assert(text::joined(lines, "\n"@).push('\n') =~= stored_text(lines));
    } else {
        lemma_ended_lines(lines.drop_last());
        assert(text::joined(lines, "\n"@).push('\n') =~= stored_text(lines));
    }
}

proof fn lemma_joined_len(lines: Seq<Seq<char>>)
    ensures
        lines.len() > 1 ==> text::joined(lines, "\n"@).len() > 0,
        lines.len() == 1 ==> text::joined(lines, "\n"@) == lines[0],
{
    reveal_strlit("\n");
}

proof fn lemma_lines_before(lines: Seq<Seq<char>>, id: Seq<char>)
    ensures
        lines_before(lines, id) <= lines.len(),
        lines_before(lines, id) < lines.len() ==> marks_message(
            lines[lines_before(lines, id) as int],
            id,
        ),
        forall|i: int|
            0 <= i < lines_before(lines, id) ==> !marks_message(#[trigger] lines[i], id),
    decreases lines.len(),
{
    if lines.len() > 0 && !marks_message(lines[0], id) {
        let rest = lines.drop_first();
        lemma_lines_before(rest, id);
        assert forall|i: int| 0 <= i < lines_before(lines, id) implies !marks_message(
            #[trigger] lines[i],
            id,
        ) by {
            if i > 0 {
                assert(lines[i] == rest[i - 1]);
            }
        }
    }
}

/// A fork that undoes a message keeps exactly the lines before it: the first
/// line that records a message with that id, and all after it, are gone.
pub proof fn law_fork_keeps_what_came_before(
    lines: Seq<Seq<char>>,
    id: Seq<char>,
    at: int,
    content: ForkContent,
)
    requires
        forall|i: int| 0 <= i < lines.len() ==> is_one_line(#[trigger] lines[i]),
        0 <= at < lines.len(),
        marks_message(lines[at], id),
        forall|i: int| 0 <= i < at ==> !marks_message(#[trigger] lines[i], id),
        !(at == 1 && lines[0].len() == 0),
        is_fork_of(Some(stored_text(lines)), Some(id), content),
    ensures
        content matches ForkContent::Text(kept) && kept@ == stored_text(lines.take(at)),
{
    law_appended_lines_are_read_back(lines);
    lemma_lines_before(lines, id);
    let count = lines_before(lines, id);
    assert(count == at) by {
        if count < at {
            assert(marks_message(lines[count as int], id));
        } else if count > at {
            assert(!marks_message(lines[at], id));
        }
    }
    let before = lines.take(at);
    lemma_joined_len(before);
    if at > 0 {
        lemma_ended_lines(before);
    }
}

/// A fork that undoes a message which the session does not have copies the
/// whole session.
pub proof fn law_unknown_message_copies_everything(
    lines: Seq<Seq<char>>,
    id: Seq<char>,
    content: ForkContent,
)
    requires
        forall|i: int| 0 <= i < lines.len() ==> is_one_line(#[trigger] lines[i]),
        forall|i: int| 0 <= i < lines.len() ==> !marks_message(#[trigger] lines[i], id),
        is_fork_of(Some(stored_text(lines)), Some(id), content),
    ensures
        content is Copy,
{
    law_appended_lines_are_read_back(lines);
    lemma_lines_before(lines, id);
}

/// The line that is stored of a user prompt records the message with the id of
/// the prompt, and no other. One of a prompt without an id, of a message or of a
/// thought records none.
pub proof fn law_stored_line_marks_its_message(
    event: AcpEvent,
    record: SessionRecord,
    id: Seq<char>,
)
    requires
        event is User || event matches AcpEvent::Message(ContentBlock::Text(_))
            || event matches AcpEvent::Thought(ContentBlock::Text(_)),
        is_record_of(event, Some(record)),
    ensures
        record matches SessionRecord::Line(line) && marks_message(line@, id) == (event is User
            && event->User_0@.message_id == Some(id)),
{
    lemma_stored_marks(event, record->Line_0@, id);
}

/// Whether a line is what is stored of an event. Of an event other than a prompt
/// and a text it says that no user message is recorded by it.
pub open spec fn is_stored_as(event: AcpEvent, line: Seq<char>) -> bool {
    match event {
        AcpEvent::User(prompt) => json::json_parsed(line) == Some(user_record(prompt@)),
        AcpEvent::Message(ContentBlock::Text(text)) => json::json_parsed(line) == Some(
            text_record("assistant"@, text@),
        ),
        AcpEvent::Thought(ContentBlock::Text(text)) => json::json_parsed(line) == Some(
            text_record("thinking"@, text@),
        ),
        _ => forall|id: Seq<char>| !(#[trigger] marks_message(line, id)),
    }
}

proof fn lemma_stored_marks(event: AcpEvent, line: Seq<char>, id: Seq<char>)
    requires
        is_stored_as(event, line),
    ensures
        marks_message(line, id) == (event is User && event->User_0@.message_id == Some(id)),
{
    lemma_user_names_differ();
    reveal_with_fuel(json::lookup, 3);
    match event {
        AcpEvent::User(prompt) => {
            let members = user_record(prompt@)->Object_0;
            assert(members[0] == ("user"@, Json::Text(prompt@.prompt)));
            match prompt@.message_id {
                Some(own) => {
                    assert(members.drop_first()[0] == ("message_id"@, Json::Text(own)));
                },
                None => {
                    assert(members.drop_first().len() == 0);
                },
            }
        },
        AcpEvent::Message(ContentBlock::Text(text)) => {
            let members = text_record("assistant"@, text@)->Object_0;
            assert(members[0] == ("assistant"@, Json::Text(text@)));
            assert(members.drop_first().len() == 0);
        },
        AcpEvent::Thought(ContentBlock::Text(text)) => {
            let members = text_record("thinking"@, text@)->Object_0;
            assert(members[0] == ("thinking"@, Json::Text(text@)));
            assert(members.drop_first().len() == 0);
        },
        _ => {},
    }
}

/// A session whose events were stored one after the other is rolled back to a
/// prompt by a fork: what was stored before that prompt is kept as it is, and the
/// prompt and all that came after it is gone.
pub proof fn law_fork_rolls_back_to_a_prompt(
    events: Seq<AcpEvent>,
    lines: Seq<Seq<char>>,
    id: Seq<char>,
    at: int,
    content: ForkContent,
)
    requires
        events.len() == lines.len(),
        forall|i: int|
            0 <= i < lines.len() ==> is_one_line(#[trigger] lines[i]) && lines[i].len() > 0
                && is_stored_as(events[i], lines[i]),
        0 <= at < events.len(),
        events[at] is User,
        events[at]->User_0@.message_id == Some(id),
        forall|i: int|
            0 <= i < at && #[trigger] events[i] is User ==> events[i]->User_0@.message_id != Some(
                id,
            ),
        is_fork_of(Some(stored_text(lines)), Some(id), content),
    ensures
        content matches ForkContent::Text(kept) && kept@ == stored_text(lines.take(at)),
{
    assert(is_one_line(lines[at]));
    lemma_stored_marks(events[at], lines[at], id);
    assert forall|i: int| 0 <= i < at implies !marks_message(#[trigger] lines[i], id) by {
        lemma_stored_marks(events[i], lines[i], id);
    }
    law_fork_keeps_what_came_before(lines, id, at, content);
}

} // verus!
