//! What is stored of a session, and what can be read from it again.

use vstd::prelude::*;

use crate::json;
use crate::json::Json;
use crate::path::PathParts;
use crate::text;

use super::session;
use super::session::{
    ForkContent, SessionAppend, SessionError, SessionFork, SessionManager, SessionRecord,
};
use super::types::ContentBlock;
use super::AcpEvent;

verus! {

/// Every event leaves a record but for the four that frame a session: its start,
/// an error, its end, and what is not known.
pub proof fn law_only_the_frame_is_left_out(event: AcpEvent, record: Option<SessionRecord>)
    requires
        call_ensures(SessionManager::normalize_session_event, (event,), record),
    ensures
        record is None <==> event is SessionStart || event is Error || event is Done
            || event is Other,
{
}

/// What is stored of a prompt, a message or a thought is a line that is read as a
/// document with its text; of a permission request it is the tool call; and of
/// any other event it is the event.
pub proof fn law_record_holds_the_event(event: AcpEvent, record: Option<SessionRecord>)
    requires
        call_ensures(SessionManager::normalize_session_event, (event,), record),
    ensures
        event matches AcpEvent::User(prompt) ==> {
            &&& record is Some && record->0 is Line
            &&& !record->0->Line_0@.contains('\n')
            &&& json::json_parsed(record->0->Line_0@) is Some
            &&& json::json_parsed(record->0->Line_0@)->0.member("user"@) == Some(
                Json::Text(prompt.prompt@),
            )
            &&& json::json_parsed(record->0->Line_0@)->0.member("message_id"@) == match prompt.message_id {
                Some(id) => Some(Json::Text(id@)),
                None => None,
            }
        },
        event matches AcpEvent::Message(ContentBlock::Text(said)) ==> {
            &&& record is Some && record->0 is Line
            &&& !record->0->Line_0@.contains('\n')
            &&& json::json_parsed(record->0->Line_0@) is Some
            &&& json::json_parsed(record->0->Line_0@)->0.member("assistant"@) == Some(
                Json::Text(said@),
            )
        },
        event matches AcpEvent::Thought(ContentBlock::Text(said)) ==> {
            &&& record is Some && record->0 is Line
            &&& !record->0->Line_0@.contains('\n')
            &&& json::json_parsed(record->0->Line_0@) is Some
            &&& json::json_parsed(record->0->Line_0@)->0.member("thinking"@) == Some(
                Json::Text(said@),
            )
        },
        event matches AcpEvent::RequestPermission(request, _) ==> record == Some(
            SessionRecord::Event(AcpEvent::ToolUpdate(request.tool_call)),
        ),
        event is ToolCall || event is ToolUpdate || event is Plan || event is AvailableCommands
            || event is CurrentMode || event is ApprovalResponse || event is QuestionResponse
            || event is Elicitation || (event matches AcpEvent::Message(ContentBlock::Other(_)))
            || (event matches AcpEvent::Thought(ContentBlock::Other(_))) ==> record == Some(
            SessionRecord::Event(event),
        ),
{
    reveal_strlit("user");
    reveal_strlit("message_id");
    assert("user"@.len() != "message_id"@.len());
    reveal_with_fuel(json::lookup, 3);
    match event {
        AcpEvent::User(prompt) => {
            let members = session::user_record(prompt@)->Object_0;
            assert(members[0] == ("user"@, Json::Text(prompt.prompt@)));
            match prompt.message_id {
                Some(id) => {
                    assert(members.drop_first()[0] == ("message_id"@, Json::Text(id@)));
                },
                None => {
                    assert(members.drop_first().len() == 0);
                },
            }
        },
        AcpEvent::Message(ContentBlock::Text(said)) => {
            let members = session::text_record("assistant"@, said@)->Object_0;
            assert(members[0] == ("assistant"@, Json::Text(said@)));
        },
        AcpEvent::Thought(ContentBlock::Text(said)) => {
            let members = session::text_record("thinking"@, said@)->Object_0;
            assert(members[0] == ("thinking"@, Json::Text(said@)));
        },
        _ => {},
    }
}

/// The events of a session that leave a record, in their order.
pub open spec fn recorded(events: Seq<AcpEvent>) -> Seq<AcpEvent>
    decreases events.len(),
{
    if events.len() == 0 {
        Seq::empty()
    } else {
        let event = events.last();
        if event is SessionStart || event is Error || event is Done || event is Other {
            recorded(events.drop_last())
        } else {
            recorded(events.drop_last()).push(event)
        }
    }
}

/// The records among some results, in their order.
pub open spec fn records_of(results: Seq<Option<SessionRecord>>) -> Seq<SessionRecord>
    decreases results.len(),
{
    if results.len() == 0 {
        Seq::empty()
    } else {
        match results.last() {
            Some(record) => records_of(results.drop_last()).push(record),
            None => records_of(results.drop_last()),
        }
    }
}

/// The stored history has one record for each event that does not frame the
/// session, in their order.
pub proof fn law_history_has_a_record_for_each_event(
    events: Seq<AcpEvent>,
    results: Seq<Option<SessionRecord>>,
)
    requires
        events.len() == results.len(),
        forall|i: int|
            #![trigger results[i]]
            0 <= i < events.len() ==> call_ensures(
                SessionManager::normalize_session_event,
                (events[i],),
                results[i],
            ),
    ensures
        records_of(results).len() == recorded(events).len(),
        forall|i: int|
            0 <= i < recorded(events).len() ==> call_ensures(
                SessionManager::normalize_session_event,
                (recorded(events)[i],),
                Some(#[trigger] records_of(results)[i]),
            ),
    decreases events.len(),
{
    if events.len() > 0 {
        let before = events.drop_last();
        let earlier = results.drop_last();
        assert forall|i: int|
            #![trigger earlier[i]]
            0 <= i < before.len() implies call_ensures(
            SessionManager::normalize_session_event,
            (before[i],),
            earlier[i],
        ) by {
            assert(earlier[i] == results[i]);
        }
        law_history_has_a_record_for_each_event(before, earlier);
        let last = results.len() - 1;
        assert(results[last] == results.last());
        law_only_the_frame_is_left_out(events.last(), results.last());
        assert forall|i: int| 0 <= i < recorded(events).len() implies call_ensures(
            SessionManager::normalize_session_event,
            (recorded(events)[i],),
            Some(#[trigger] records_of(results)[i]),
        ) by {
            if i < recorded(before).len() {
                assert(records_of(results)[i] == records_of(earlier)[i]);
            }
        }
    }
}

/// What is to be stored of an event goes into the file of its session, and an
/// event that leaves no record is not stored.
pub proof fn law_event_is_stored_in_its_session(
    manager: SessionManager,
    session_id: &str,
    raw: &str,
    event: AcpEvent,
    append: Option<SessionAppend>,
    file: PathParts,
)
    requires
        call_ensures(
            SessionManager::append_raw_line,
            (&manager, session_id, raw, Some(event)),
            append,
        ),
        call_ensures(SessionManager::session_file_path, (&manager, session_id), file),
    ensures
        append is None <==> event is SessionStart || event is Error || event is Done
            || event is Other,
        append is Some ==> append->0.path@ == file@,
        append is Some && event is ToolCall ==> append->0.record == SessionRecord::Event(event),
        append is Some && event is ToolUpdate ==> append->0.record == SessionRecord::Event(event),
        append is Some && event is Plan ==> append->0.record == SessionRecord::Event(event),
{
}

/// A line that is no event is stored exactly if it is an object.
pub proof fn law_raw_objects_are_stored(
    manager: SessionManager,
    session_id: &str,
    raw: &str,
    append: Option<SessionAppend>,
)
    requires
        call_ensures(SessionManager::append_raw_line, (&manager, session_id, raw, None), append),
    ensures
        append is Some <==> json::json_parsed(raw@) is Some && json::json_parsed(raw@)->0 is Object,
        append is Some ==> append->0.record is Line && !append->0.record->Line_0@.contains('\n'),
{
}

/// A notification without an update loses its session and the options that it
/// offers, and nothing else.
pub proof fn law_notification_loses_session_and_options(
    notification: serde_json::Value,
    members: Seq<(Seq<char>, Json)>,
    key: Seq<char>,
    stored: Option<serde_json::Value>,
)
    requires
        call_ensures(SessionManager::normalize_notification, (notification,), stored),
        json::json_of(notification) == Json::Object(members),
        json::lookup(members, "update"@) is None,
    ensures
        stored is Some,
        json::json_of(stored->0).member(key) == if key == "sessionId"@ || key == "options"@ {
            None
        } else {
            json::lookup(members, key)
        },
{
    reveal_strlit("sessionId");
    reveal_strlit("update");
    reveal_strlit("options");
    assert("sessionId"@.len() == 9);
    assert("update"@.len() == 6);
    assert("options"@.len() == 7);
    let rest = json::without_member(members, "sessionId"@);
    json::law_other_members_stay(members, "sessionId"@, "update"@);
    json::law_other_members_stay(members, "sessionId"@, key);
    json::law_other_members_stay(rest, "options"@, key);
}

/// A notification of an update of some kind is stored as that update alone, which
/// stands under its kind in camel case and loses nothing but the name of it.
pub proof fn law_update_is_unwrapped(
    notification: serde_json::Value,
    members: Seq<(Seq<char>, Json)>,
    update: Seq<(Seq<char>, Json)>,
    kind: Seq<char>,
    key: Seq<char>,
    stored: Option<serde_json::Value>,
    kind_text: &str,
    shown_kind: String,
)
    requires
        call_ensures(SessionManager::normalize_notification, (notification,), stored),
        call_ensures(text::to_camel_case, (kind_text,), shown_kind),
        kind_text@ == kind,
        json::json_of(notification) == Json::Object(members),
        json::lookup(members, "update"@) == Some(Json::Object(update)),
        json::lookup(update, "sessionUpdate"@) == Some(Json::Text(kind)),
    ensures
        stored is Some,
        json::json_of(stored->0) is Object,
        json::json_of(stored->0)->Object_0.len() == 1,
        json::json_of(stored->0)->Object_0[0].0 == shown_kind@,
        json::json_of(stored->0)->Object_0[0].1.member(key) == if key == "sessionUpdate"@ {
            None
        } else {
            json::lookup(update, key)
        },
{
    reveal_strlit("sessionId");
    reveal_strlit("update");
    assert("sessionId"@.len() == 9);
    assert("update"@.len() == 6);
    json::law_other_members_stay(members, "sessionId"@, "update"@);
    json::law_other_members_stay(update, "sessionUpdate"@, key);
}

/// What is no object is no notification.
pub proof fn law_only_objects_are_notifications(
    notification: serde_json::Value,
    stored: Option<serde_json::Value>,
)
    requires
        call_ensures(SessionManager::normalize_notification, (notification,), stored),
    ensures
        stored is Some <==> json::json_of(notification) is Object,
{
}

/// The file of a session lies in the directory of its manager, and different
/// sessions have different files.
pub proof fn law_sessions_have_files_of_their_own(
    manager: SessionManager,
    a: &str,
    b: &str,
    dir: PathParts,
    a_file: PathParts,
    b_file: PathParts,
)
    requires
        call_ensures(SessionManager::base_dir, (&manager,), dir),
        call_ensures(SessionManager::session_file_path, (&manager, a), a_file),
        call_ensures(SessionManager::session_file_path, (&manager, b), b_file),
    ensures
        a_file@ == b_file@ <==> a@ == b@,
        a_file@.root == dir@.root,
        a_file@.parts == dir@.parts.push(a@ + ".jsonl"@),
{
    if a_file@ == b_file@ {
        let left = a@ + ".jsonl"@;
        let right = b@ + ".jsonl"@;
        assert(a_file@.parts.last() == left);
        assert(b_file@.parts.last() == right);
        assert(left.take(a@.len() as int) =~= a@);
        assert(right.take(b@.len() as int) =~= b@);
    }
}

/// The sessions of a namespace lie under the home directory. Those of a debug
/// build are kept apart, and without a home directory there are none.
pub proof fn law_sessions_lie_under_the_home_directory(
    namespace: &str,
    home: Option<String>,
    debug: bool,
    made: Result<SessionManager, SessionError>,
    dir: PathParts,
)
    requires
        call_ensures(SessionManager::new, (namespace, home, debug), made),
        made matches Ok(manager) ==> call_ensures(SessionManager::base_dir, (&manager,), dir),
    ensures
        made is Ok <==> home is Some,
        home matches Some(root) ==> {
            &&& dir.root@ == root@
            &&& debug ==> dir@.parts == seq![".vibe-kanban"@, "dev"@, namespace@]
            &&& !debug ==> dir@.parts == seq![".vibe-kanban"@, namespace@]
        },
{
    if home is Some {
        if debug {
            assert(dir@.parts =~= seq![".vibe-kanban"@, "dev"@, namespace@]);
        } else {
            assert(dir@.parts =~= seq![".vibe-kanban"@, namespace@]);
        }
    }
}

/// A fork goes from the file of the old session to that of the new one. It is
/// empty exactly if the old one is not there, and a copy where nothing is to be
/// undone.
pub proof fn law_fork_goes_from_old_to_new(
    manager: SessionManager,
    old_id: &str,
    new_id: &str,
    reset: Option<&str>,
    stored: Option<&str>,
    fork: SessionFork,
    from: PathParts,
    to: PathParts,
)
    requires
        call_ensures(SessionManager::fork_session, (&manager, old_id, new_id, reset, stored), fork),
        call_ensures(SessionManager::session_file_path, (&manager, old_id), from),
        call_ensures(SessionManager::session_file_path, (&manager, new_id), to),
    ensures
        fork.from@ == from@,
        fork.to@ == to@,
        fork.content is Empty <==> stored is None,
        stored is Some && reset is None ==> fork.content is Copy,
{
}

/// A fork that undoes a message keeps exactly the lines before the first one that
/// records it.
pub proof fn law_fork_cuts_at_the_message(
    manager: SessionManager,
    old_id: &str,
    new_id: &str,
    id: &str,
    stored: &str,
    lines: Seq<Seq<char>>,
    at: int,
    fork: SessionFork,
)
    requires
        call_ensures(
            SessionManager::fork_session,
            (&manager, old_id, new_id, Some(id), Some(stored)),
            fork,
        ),
        stored@ == session::stored_text(lines),
        forall|i: int| 0 <= i < lines.len() ==> session::is_one_line(#[trigger] lines[i]),
        0 <= at < lines.len(),
        json::json_parsed(lines[at]) is Some,
        json::json_parsed(lines[at])->0.member("user"@) is Some,
        json::json_parsed(lines[at])->0.member("message_id"@) == Some(Json::Text(id@)),
        forall|i: int|
            0 <= i < at && json::json_parsed(#[trigger] lines[i]) is Some ==> json::json_parsed(
                lines[i],
            )->0.member("message_id"@) != Some(Json::Text(id@)),
        !(at == 1 && lines[0].len() == 0),
    ensures
        fork.content matches ForkContent::Text(kept) && kept@ == session::stored_text(
            lines.take(at),
        ),
{
    session::law_fork_keeps_what_came_before(lines, id@, at, fork.content);
}

/// A line records a message exactly if it is a document of a user with its id.
pub proof fn law_message_is_known_by_its_id(line: &str, id: &str, found: bool)
    requires
        call_ensures(SessionManager::is_user_message_with_id, (line, id), found),
    ensures
        found <==> (json::json_parsed(line@) is Some && json::json_parsed(line@)->0.member(
            "user"@,
        ) is Some && json::json_parsed(line@)->0.member("message_id"@) == Some(Json::Text(id@))),
{
}

/// A session that is not there reads as nothing, and any other one as what is
/// stored of it.
pub proof fn law_stored_text_is_read(
    manager: SessionManager,
    stored: Option<String>,
    read: String,
)
    requires
        call_ensures(SessionManager::read_session_raw, (&manager, stored), read),
    ensures
        stored matches Some(text) ==> read@ == text@,
        stored is None ==> read@.len() == 0,
{
}

/// A session is deleted exactly if it is there, and it is its own file that goes.
pub proof fn law_session_deletes_its_own_file(
    manager: SessionManager,
    session_id: &str,
    exists: bool,
    gone: Option<PathParts>,
    file: PathParts,
)
    requires
        call_ensures(SessionManager::delete_session, (&manager, session_id, exists), gone),
        call_ensures(SessionManager::session_file_path, (&manager, session_id), file),
    ensures
        gone is Some <==> exists,
        gone matches Some(path) ==> path@ == file@,
{
}

/// The prompt that a task is resumed with has the whole history in it, and after
/// that the current request.
pub proof fn law_resume_prompt_has_history_and_request(
    manager: SessionManager,
    stored: String,
    current: &str,
    prompt: String,
    before: Seq<char>,
    between: Seq<char>,
)
    requires
        call_ensures(SessionManager::generate_resume_prompt, (&manager, Some(stored), current), prompt),
        before == "RESUME CONTEXT FOR CONTINUING TASK\n\n=== EXECUTION HISTORY ===\nThe following is the conversation history from this session:\n"@,
        between == "\n\n=== CURRENT REQUEST ===\n"@,
    ensures
        ({
            let request = before.len() + stored@.len() + between.len();
            &&& prompt@.len() > request + current@.len()
            &&& prompt@.take(before.len() as int) == before
            &&& prompt@.subrange(before.len() as int, (before.len() + stored@.len()) as int)
                == stored@
            &&& prompt@.subrange((before.len() + stored@.len()) as int, request as int) == between
            &&& prompt@.subrange(request as int, (request + current@.len()) as int) == current@
        }),
{
    let request = before.len() + stored@.len() + between.len();
    let rest = "\n\n=== INSTRUCTIONS ===\nYou are continuing work on the above task. The execution history shows the previous conversation in this session. Please continue from where the previous execution left off, taking into account all the context provided above."@;
    reveal_strlit(
        "\n\n=== INSTRUCTIONS ===\nYou are continuing work on the above task. The execution history shows the previous conversation in this session. Please continue from where the previous execution left off, taking into account all the context provided above.",
    );
    assert(prompt@ == before + stored@ + between + current@ + rest);
    assert(rest.len() > 0);
    assert(prompt@.take(before.len() as int) =~= before);
    assert(prompt@.subrange(before.len() as int, (before.len() + stored@.len()) as int)
        =~= stored@);
    assert(prompt@.subrange((before.len() + stored@.len()) as int, request as int) =~= between);
    assert(prompt@.subrange(request as int, (request + current@.len()) as int) =~= current@);
}

/// The lines that are kept stand in their order, each with a line feed after it.
pub proof fn law_kept_lines_are_ended(
    lines: Vec<String>,
    count: usize,
    more: usize,
    short: String,
    long: String,
)
    requires
        more == count + 1,
        more <= lines@.len(),
        call_ensures(SessionManager::keep_lines, (&lines, count), short),
        call_ensures(SessionManager::keep_lines, (&lines, more), long),
    ensures
        count == 0 ==> short@.len() == 0,
        count == 0 && lines@[0]@.len() > 0 ==> long@ == lines@[0]@.push('\n'),
        count > 0 && short@.len() > 0 ==> long@ == short@ + lines@[count as int]@ + seq!['\n'],
{
    let all = lines.deep_view();
    assert(all.len() == lines@.len());
    let before = all.take(count as int);
    let after = all.take(more as int);
    assert(after.drop_last() =~= before);
    assert(after.last() == lines@[count as int]@);
    reveal_strlit("\n");
    assert("\n"@ =~= seq!['\n']);
    if count > 0 && short@.len() > 0 {
        assert(long@ =~= short@ + lines@[count as int]@ + seq!['\n']);
    }
}

/// A fork that is to undo a message which the session does not have is a copy of
/// it.
pub proof fn law_fork_without_the_message_is_a_copy(
    manager: SessionManager,
    old_id: &str,
    new_id: &str,
    id: &str,
    stored: &str,
    lines: Seq<Seq<char>>,
    fork: SessionFork,
)
    requires
        call_ensures(
            SessionManager::fork_session,
            (&manager, old_id, new_id, Some(id), Some(stored)),
            fork,
        ),
        lines == text::lines(stored@),
        forall|i: int|
            0 <= i < lines.len() && json::json_parsed(#[trigger] lines[i]) is Some
                ==> json::json_parsed(lines[i])->0.member("message_id"@) != Some(Json::Text(id@)),
    ensures
        fork.content is Copy,
{
    lemma_no_message_is_marked(lines, id@);
}

proof fn lemma_no_message_is_marked(lines: Seq<Seq<char>>, id: Seq<char>)
    requires
        forall|i: int|
            0 <= i < lines.len() && json::json_parsed(#[trigger] lines[i]) is Some
                ==> json::json_parsed(lines[i])->0.member("message_id"@) != Some(Json::Text(id)),
    ensures
        session::lines_before(lines, id) == lines.len(),
    decreases lines.len(),
{
    if lines.len() > 0 {
        let rest = lines.drop_first();
        assert(!session::marks_message(lines[0], id));
        assert forall|i: int|
            0 <= i < rest.len() && json::json_parsed(
                #[trigger] rest[i],
            ) is Some implies json::json_parsed(rest[i])->0.member("message_id"@) != Some(
            Json::Text(id),
        ) by {
            assert(rest[i] == lines[i + 1]);
        }
        lemma_no_message_is_marked(rest, id);
    }
}

/// What is stored of a line that is no event is an object without the session it
/// belongs to, written on one line.
pub proof fn law_raw_line_is_stored_on_one_line(raw: &str, record: Option<SessionRecord>)
    requires
        call_ensures(SessionManager::normalize_raw_line, (raw,), record),
    ensures
        record is Some <==> json::json_parsed(raw@) is Some && json::json_parsed(
            raw@,
        )->0 is Object,
        record is Some ==> record->0 is Line && !record->0->Line_0@.contains('\n'),
{
}

/// The sessions of a directory are kept in that directory.
pub proof fn law_sessions_of_a_directory_lie_in_it(
    dir: PathParts,
    manager: SessionManager,
    session_id: &str,
    file: PathParts,
)
    requires
        call_ensures(SessionManager::in_dir, (dir,), manager),
        call_ensures(SessionManager::session_file_path, (&manager, session_id), file),
    ensures
        file.root@ == dir.root@,
        file.parts@.len() == dir.parts@.len() + 1,
        file.parts@.last()@ == session_id@ + ".jsonl"@,
{
    assert(file.parts.deep_view().len() == file.parts@.len());
    assert(dir.parts.deep_view().len() == dir.parts@.len());
    assert(file.parts.deep_view().last() == file.parts@.last()@);
}

/// An update that names no kind stays where it is: the notification loses its
/// session alone.
pub proof fn law_update_without_a_kind_stays(
    notification: serde_json::Value,
    members: Seq<(Seq<char>, Json)>,
    update: Json,
    key: Seq<char>,
    stored: Option<serde_json::Value>,
)
    requires
        call_ensures(SessionManager::normalize_notification, (notification,), stored),
        json::json_of(notification) == Json::Object(members),
        json::lookup(members, "update"@) == Some(update),
        !(update.member("sessionUpdate"@) is Some && update.member("sessionUpdate"@)->0 is Text),
    ensures
        stored is Some,
        json::json_of(stored->0).member(key) == if key == "sessionId"@ {
            None
        } else {
            json::lookup(members, key)
        },
{
    reveal_strlit("sessionId");
    reveal_strlit("update");
    assert("sessionId"@.len() == 9);
    assert("update"@.len() == 6);
    json::law_other_members_stay(members, "sessionId"@, "update"@);
    json::law_other_members_stay(members, "sessionId"@, key);
}

/// What is stored of a line is the text of what is stored of the notification
/// that it is, in the file of its session.
pub proof fn law_raw_line_is_its_notification(
    manager: SessionManager,
    session_id: &str,
    raw: &str,
    notification: serde_json::Value,
    stored: Option<serde_json::Value>,
    record: Option<SessionRecord>,
    append: Option<SessionAppend>,
    file: PathParts,
)
    requires
        json::json_parsed(raw@) == Some(json::json_of(notification)),
        call_ensures(SessionManager::normalize_notification, (notification,), stored),
        call_ensures(SessionManager::normalize_raw_line, (raw,), record),
        call_ensures(SessionManager::append_raw_line, (&manager, session_id, raw, None), append),
        call_ensures(SessionManager::session_file_path, (&manager, session_id), file),
    ensures
        record is Some <==> stored is Some,
        append is Some <==> stored is Some,
        stored is Some ==> {
            &&& record->0 is Line
            &&& record->0->Line_0@ == json::json_text(json::json_of(stored->0))
            &&& append->0.path@ == file@
            &&& append->0.record is Line
            &&& append->0.record->Line_0@ == json::json_text(json::json_of(stored->0))
        },
{
}

/// A line that is an event is stored as that event is, whatever the line says.
pub proof fn law_line_of_an_event_is_stored_as_the_event(
    manager: SessionManager,
    session_id: &str,
    raw: &str,
    event: AcpEvent,
    append: Option<SessionAppend>,
)
    requires
        call_ensures(
            SessionManager::append_raw_line,
            (&manager, session_id, raw, Some(event)),
            append,
        ),
        append is Some,
    ensures
        event matches AcpEvent::User(prompt) ==> {
            &&& append->0.record is Line
            &&& json::json_parsed(append->0.record->Line_0@) is Some
            &&& json::json_parsed(append->0.record->Line_0@)->0.member("user"@) == Some(
                Json::Text(prompt.prompt@),
            )
        },
        event matches AcpEvent::Message(ContentBlock::Text(said)) ==> {
            &&& append->0.record is Line
            &&& json::json_parsed(append->0.record->Line_0@) is Some
            &&& json::json_parsed(append->0.record->Line_0@)->0.member("assistant"@) == Some(
                Json::Text(said@),
            )
        },
        event matches AcpEvent::Thought(ContentBlock::Text(said)) ==> {
            &&& append->0.record is Line
            &&& json::json_parsed(append->0.record->Line_0@) is Some
            &&& json::json_parsed(append->0.record->Line_0@)->0.member("thinking"@) == Some(
                Json::Text(said@),
            )
        },
        event matches AcpEvent::RequestPermission(request, _) ==> append->0.record
            == SessionRecord::Event(AcpEvent::ToolUpdate(request.tool_call)),
        event is AvailableCommands || event is CurrentMode || event is ApprovalResponse
            || event is QuestionResponse || event is Elicitation ==> append->0.record
            == SessionRecord::Event(event),
{
    reveal_with_fuel(json::lookup, 2);
    match event {
        AcpEvent::User(prompt) => {
            let members = session::user_record(prompt@)->Object_0;
            assert(members[0] == ("user"@, Json::Text(prompt.prompt@)));
        },
        AcpEvent::Message(ContentBlock::Text(said)) => {
            let members = session::text_record("assistant"@, said@)->Object_0;
            assert(members[0] == ("assistant"@, Json::Text(said@)));
        },
        AcpEvent::Thought(ContentBlock::Text(said)) => {
            let members = session::text_record("thinking"@, said@)->Object_0;
            assert(members[0] == ("thinking"@, Json::Text(said@)));
        },
        _ => {},
    }
}

/// A prompt to resume a task ends in the same instructions whatever came before,
/// and a session without a file has no history.
pub proof fn law_resume_prompts_end_alike(
    manager: SessionManager,
    stored: String,
    empty: String,
    a: &str,
    b: &str,
    a_prompt: String,
    b_prompt: String,
    bare: String,
    without: String,
    before: Seq<char>,
    between: Seq<char>,
    heading: Seq<char>,
)
    requires
        call_ensures(SessionManager::generate_resume_prompt, (&manager, Some(stored), a), a_prompt),
        call_ensures(SessionManager::generate_resume_prompt, (&manager, Some(empty), b), b_prompt),
        call_ensures(SessionManager::generate_resume_prompt, (&manager, Some(empty), a), bare),
        call_ensures(SessionManager::generate_resume_prompt, (&manager, None, a), without),
        empty@.len() == 0,
        before
            == "RESUME CONTEXT FOR CONTINUING TASK\n\n=== EXECUTION HISTORY ===\nThe following is the conversation history from this session:\n"@,
        between == "\n\n=== CURRENT REQUEST ===\n"@,
        heading == "\n\n=== INSTRUCTIONS ===\n"@,
    ensures
        without@ == bare@,
        a_prompt@.skip((before.len() + stored@.len() + between.len() + a@.len()) as int)
            == b_prompt@.skip((before.len() + between.len() + b@.len()) as int),
        a_prompt@.skip((before.len() + stored@.len() + between.len() + a@.len()) as int).take(
            heading.len() as int,
        ) == heading,
{
    assert(empty@ =~= Seq::empty());
    let tail =
        "\n\n=== INSTRUCTIONS ===\nYou are continuing work on the above task. The execution history shows the previous conversation in this session. Please continue from where the previous execution left off, taking into account all the context provided above."@;
    assert(a_prompt@.skip((before.len() + stored@.len() + between.len() + a@.len()) as int)
        =~= tail);
    assert(b_prompt@.skip((before.len() + between.len() + b@.len()) as int) =~= tail);
    reveal_strlit(
        "\n\n=== INSTRUCTIONS ===\nYou are continuing work on the above task. The execution history shows the previous conversation in this session. Please continue from where the previous execution left off, taking into account all the context provided above.",
    );
    reveal_strlit("\n\n=== INSTRUCTIONS ===\n");
    assert(tail.take(heading.len() as int) =~= heading);
}

/// A manager without a home directory says so.
pub proof fn law_missing_home_is_explained(error: SessionError, message: String)
    requires
        call_ensures(SessionError::message, (&error,), message),
    ensures
        message@ == "Could not determine home directory"@,
{
}

/// A document records a message exactly if it is of a user and has the id of it.
pub proof fn law_document_is_known_by_its_id(
    document: serde_json::Value,
    id: &str,
    found: bool,
)
    requires
        call_ensures(SessionManager::is_record_with_id, (&document, id), found),
    ensures
        found <==> json::json_of(document).member("user"@) is Some && json::json_of(
            document,
        ).member("message_id"@) == Some(Json::Text(id@)),
{
}

} // verus!
