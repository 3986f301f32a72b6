//! What the conversation shows of a tool call, for every tool call.

use vstd::prelude::*;

use crate::json;
use crate::json::Json;
use crate::logs::{
    ActionType, AskUserQuestionItem, CommandExitStatus, FileChange, NormalizedEntry,
    NormalizedEntryType, ToolResultValueType, ToolStatus, UnifiedDiff,
};
use crate::text;

use super::tool_calls;
use super::tool_calls::{
    collect_text_content, convert_tool_status, extract_tool_name_from_id, extract_url_from_text,
    AcpEventParser, PartialToolCallData,
};
use super::tool_inputs;
use super::tool_inputs::parse_ask_user_questions;
use super::types::{
    ContentBlock, Diff, ToolCall, ToolCallContent, ToolCallStatus, ToolCallUpdate, ToolKind,
};

verus! {

/// Whether a raw input is an object with the given members.
pub open spec fn is_object_of(
    raw_input: Option<serde_json::Value>,
    members: Seq<(Seq<char>, Json)>,
) -> bool {
    raw_input matches Some(value) && json::json_of(value) == Json::Object(members)
}

/// The differences among some content, in their order.
pub open spec fn diffs_in(content: Seq<ToolCallContent>) -> Seq<Diff>
    decreases content.len(),
{
    if content.len() == 0 {
        Seq::empty()
    } else {
        match content.last() {
            ToolCallContent::Diff(diff) => diffs_in(content.drop_last()).push(diff),
            _ => diffs_in(content.drop_last()),
        }
    }
}

pub proof fn lemma_changes_of_diffs(content: Seq<ToolCallContent>, fallback: Seq<char>)
    ensures
        tool_calls::diff_changes(content, fallback).len() == diffs_in(content).len(),
        forall|i: int|
            0 <= i < diffs_in(content).len() ==> #[trigger] tool_calls::diff_changes(
                content,
                fallback,
            )[i] == tool_calls::diff_change(diffs_in(content)[i], fallback),
    decreases content.len(),
{
    if content.len() > 0 {
        lemma_changes_of_diffs(content.drop_last(), fallback);
        let before = diffs_in(content.drop_last());
        let so_far = tool_calls::diff_changes(content.drop_last(), fallback);
        let changes = tool_calls::diff_changes(content, fallback);
        assert forall|i: int| 0 <= i < diffs_in(content).len() implies #[trigger] changes[i]
            == tool_calls::diff_change(diffs_in(content)[i], fallback) by {
            if i < before.len() {
                assert(so_far[i] == tool_calls::diff_change(before[i], fallback));
                assert(changes[i] == so_far[i]);
            }
        }
    }
}

/// Each difference in the content of a tool call makes a change of its own, in
/// their order: one with a text before is an edit of its file from that text to
/// the new one, and any other one writes the new text.
pub proof fn law_each_diff_is_a_change(data: PartialToolCallData, changes: Vec<FileChange>)
    requires
        call_ensures(PartialToolCallData::extract_file_changes, (&data,), changes),
        diffs_in(data.content@).len() > 0,
    ensures
        changes@.len() == diffs_in(data.content@).len(),
        forall|i: int|
            0 <= i < changes@.len() ==> {
                let diff = diffs_in(data.content@)[i];
                let change = #[trigger] changes@[i];
                if diff.old_text is None || diff.old_text->0@.len() == 0 {
                    change matches FileChange::Write { content } && content@ == diff.new_text@
                } else {
                    change matches FileChange::Edit {
                        unified_diff: UnifiedDiff::Created { path, old_text, new_text },
                        has_line_numbers,
                    } && !has_line_numbers && old_text@ == diff.old_text->0@ && new_text@
                        == diff.new_text@ && (diff.path@.len() > 0 ==> path@ == diff.path@) && (
                    diff.path@.len() == 0 ==> path@ == match data.path {
                        Some(path) => path@,
                        None => Seq::empty(),
                    })
                }
            },
{
    lemma_changes_of_diffs(data.content@, data@.path_text());
    assert forall|i: int| 0 <= i < changes@.len() implies (#[trigger] changes@[i])@
        == tool_calls::diff_change(diffs_in(data.content@)[i], data@.path_text()) by {
        assert(changes.deep_view()[i] == changes@[i]@);
    }
}

/// Without differences in its content, a tool call whose raw input has a file
/// path, an old and a new text and no diff makes one edit of that file, from the
/// old text to the new one.
pub proof fn law_edit_goes_from_old_to_new(
    data: PartialToolCallData,
    members: Seq<(Seq<char>, Json)>,
    path: Seq<char>,
    old_string: Seq<char>,
    new_string: Seq<char>,
    changes: Vec<FileChange>,
)
    requires
        call_ensures(PartialToolCallData::extract_file_changes, (&data,), changes),
        diffs_in(data.content@).len() == 0,
        is_object_of(data.raw_input, members),
        json::lookup(members, "filePath"@) == Some(Json::Text(path)),
        json::lookup(members, "oldString"@) == Some(Json::Text(old_string)),
        json::lookup(members, "newString"@) == Some(Json::Text(new_string)),
        json::lookup(members, "diff"@) is None || json::lookup(members, "diff"@) == Some(
            Json::Null,
        ),
    ensures
        changes@.len() == 1,
        changes@[0] matches FileChange::Edit {
            unified_diff: UnifiedDiff::Created { path: file, old_text, new_text },
            has_line_numbers,
        } && file@ == path && old_text@ == old_string && new_text@ == new_string
            && !has_line_numbers,
{
    lemma_changes_of_diffs(data.content@, data@.path_text());
    assert(changes.deep_view().len() == 1);
    assert(changes.deep_view()[0] == changes@[0]@);
}

/// Raw inputs that differ in the new text alone give different changes.
pub proof fn law_new_text_shows_in_the_change(
    a: PartialToolCallData,
    b: PartialToolCallData,
    a_members: Seq<(Seq<char>, Json)>,
    b_members: Seq<(Seq<char>, Json)>,
    path: Seq<char>,
    old_string: Seq<char>,
    a_new: Seq<char>,
    b_new: Seq<char>,
    a_changes: Vec<FileChange>,
    b_changes: Vec<FileChange>,
)
    requires
        call_ensures(PartialToolCallData::extract_file_changes, (&a,), a_changes),
        call_ensures(PartialToolCallData::extract_file_changes, (&b,), b_changes),
        diffs_in(a.content@).len() == 0,
        diffs_in(b.content@).len() == 0,
        is_object_of(a.raw_input, a_members),
        is_object_of(b.raw_input, b_members),
        json::lookup(a_members, "filePath"@) == Some(Json::Text(path)),
        json::lookup(b_members, "filePath"@) == Some(Json::Text(path)),
        json::lookup(a_members, "oldString"@) == Some(Json::Text(old_string)),
        json::lookup(b_members, "oldString"@) == Some(Json::Text(old_string)),
        json::lookup(a_members, "newString"@) == Some(Json::Text(a_new)),
        json::lookup(b_members, "newString"@) == Some(Json::Text(b_new)),
        json::lookup(a_members, "diff"@) is None,
        json::lookup(b_members, "diff"@) is None,
        a_new != b_new,
    ensures
        a_changes.deep_view() != b_changes.deep_view(),
{
    law_edit_goes_from_old_to_new(a, a_members, path, old_string, a_new, a_changes);
    law_edit_goes_from_old_to_new(b, b_members, path, old_string, b_new, b_changes);
    assert(a_changes.deep_view()[0] == a_changes@[0]@);
    assert(b_changes.deep_view()[0] == b_changes@[0]@);
}

/// Without differences in its content, a tool call whose raw input has a diff of
/// its own makes one edit with that diff, which has line numbers.
pub proof fn law_written_diff_is_kept(
    data: PartialToolCallData,
    members: Seq<(Seq<char>, Json)>,
    path: Seq<char>,
    written: Seq<char>,
    changes: Vec<FileChange>,
)
    requires
        call_ensures(PartialToolCallData::extract_file_changes, (&data,), changes),
        diffs_in(data.content@).len() == 0,
        is_object_of(data.raw_input, members),
        json::lookup(members, "filePath"@) == Some(Json::Text(path)),
        json::lookup(members, "diff"@) == Some(Json::Text(written)),
        json::lookup(members, "oldString"@) is None,
        json::lookup(members, "newString"@) is None,
    ensures
        changes@.len() == 1,
        changes@[0] matches FileChange::Edit {
            unified_diff: UnifiedDiff::Normalized { path: file, diff },
            has_line_numbers,
        } && file@ == path && diff@ == written && has_line_numbers,
{
    lemma_changes_of_diffs(data.content@, data@.path_text());
    assert(changes.deep_view().len() == 1);
    assert(changes.deep_view()[0] == changes@[0]@);
}

/// A tool call without differences in its content and without a raw input
/// changes nothing.
pub proof fn law_nothing_known_changes_nothing(
    data: PartialToolCallData,
    changes: Vec<FileChange>,
)
    requires
        call_ensures(PartialToolCallData::extract_file_changes, (&data,), changes),
        diffs_in(data.content@).len() == 0,
        data.raw_input is None,
    ensures
        changes@.len() == 0,
{
    lemma_changes_of_diffs(data.content@, data@.path_text());
    assert(changes.deep_view().len() == 0);
}

/// A text at the end of some content is put after what was collected before it,
/// and ends in a line feed; content of any other kind adds nothing.
pub proof fn law_texts_are_collected_in_order(
    before: Vec<ToolCallContent>,
    after: Vec<ToolCallContent>,
    item: ToolCallContent,
    collected: Option<String>,
    grown: Option<String>,
)
    requires
        call_ensures(collect_text_content, (&before,), collected),
        call_ensures(collect_text_content, (&after,), grown),
        after@ == before@.push(item),
    ensures
        before@.len() == 0 ==> collected is None,
        item matches ToolCallContent::Content(ContentBlock::Text(piece)) ==> {
            let so_far = match collected {
                Some(text) => text@,
                None => Seq::empty(),
            };
            &&& grown is Some
            &&& grown->0@ == so_far + piece@ || grown->0@ == (so_far + piece@).push('\n')
            &&& grown->0@.last() == '\n'
            &&& piece@.len() > 0 && piece@.last() == '\n' ==> grown->0@ == so_far + piece@
            &&& piece@.len() > 0 && piece@.last() != '\n' ==> grown->0@ == (so_far
                + piece@).push('\n')
        },
        !(item matches ToolCallContent::Content(ContentBlock::Text(_))) ==> grown.deep_view()
            == collected.deep_view(),
{
    assert(after@.drop_last() =~= before@);
    if let ToolCallContent::Content(ContentBlock::Text(piece)) = item {
        let so_far = tool_calls::collected_text(before@);
        if piece@.len() > 0 {
            assert((so_far + piece@).last() == piece@.last());
        }
        match collected {
            Some(text) => {
                assert(text@ == so_far);
            },
            None => {
                assert(so_far =~= Seq::empty());
            },
        }
    }
}

/// The command is the one in the raw input, where there is one.
pub proof fn law_command_of_the_input_is_run(
    data: PartialToolCallData,
    members: Seq<(Seq<char>, Json)>,
    named: Seq<char>,
    command: String,
)
    requires
        call_ensures(AcpEventParser::parse_execute_command, (&data,), command),
        is_object_of(data.raw_input, members),
        json::lookup(members, "command"@) == Some(Json::Text(named)),
    ensures
        command@ == named,
{
}

proof fn lemma_before_marker(command: Seq<char>, marker: Seq<char>, rest: Seq<char>)
    requires
        marker.len() > 0,
        forall|i: int| 0 <= i < command.len() ==> (#[trigger] command[i]) != marker[1],
        marker.len() > 1,
        marker[0] != marker[1],
    ensures
        text::before(command + marker + rest, marker) == command,
    decreases command.len(),
{
    let whole = command + marker + rest;
    if command.len() == 0 {
        assert(whole.take(marker.len() as int) =~= marker);
        assert(text::before(whole, marker) =~= command);
    } else {
        assert(!text::begins_with(whole, marker)) by {
            if text::begins_with(whole, marker) {
                assert(whole.take(marker.len() as int)[1] == marker[1]);
                assert(whole[1] == marker[1]);
                if command.len() == 1 {
                    assert(whole[1] == marker[0]);
                } else {
                    assert(whole[1] == command[1]);
                }
            }
        }
        let tail = command.drop_first();
        assert(whole.drop_first() =~= tail + marker + rest);
        assert forall|i: int| 0 <= i < tail.len() implies (#[trigger] tail[i]) != marker[1] by {
            assert(tail[i] == command[i + 1]);
        }
        lemma_before_marker(tail, marker, rest);
        assert(seq![command[0]] + tail =~= command);
    }
}

/// Without a raw input the command is the title up to the note on the working
/// directory, without the white space around it.
pub proof fn law_note_is_no_part_of_the_command(
    data: PartialToolCallData,
    named: Seq<char>,
    note: Seq<char>,
    command: String,
)
    requires
        call_ensures(AcpEventParser::parse_execute_command, (&data,), command),
        data.raw_input is None,
        data.title@ == named + " [current working directory "@ + note,
        forall|i: int| 0 <= i < named.len() ==> (#[trigger] named[i]) != '[',
        named.len() > 0,
        !text::white_space(named[0]),
        !text::white_space(named.last()),
    ensures
        command@ == named,
{
    reveal_strlit(" [current working directory ");
    let marker = " [current working directory "@;
    assert(marker[0] == ' ' && marker[1] == '[');
    lemma_before_marker(named, marker, note);
}

/// A command shows whether it succeeded once it has ended, and what it put out.
pub proof fn law_command_shows_how_it_ended(
    data: PartialToolCallData,
    action: ActionType,
    command: String,
    output: Option<String>,
)
    requires
        call_ensures(PartialToolCallData::map_to_action_type, (&data,), action),
        call_ensures(AcpEventParser::parse_execute_command, (&data,), command),
        call_ensures(collect_text_content, (&data.content,), output),
        data.kind == ToolKind::Execute,
        action !is AskUserQuestion,
    ensures
        action matches ActionType::CommandRun { command: run, result: Some(result) } && run@
            == command@ && result.output.deep_view() == output.deep_view() && (
        result.exit_status == Some(CommandExitStatus::Success { success: true }) <==> data.status
            == ToolCallStatus::Completed) && (result.exit_status == Some(
            CommandExitStatus::Success { success: false },
        ) <==> data.status == ToolCallStatus::Failed) && (result.exit_status is None
            <==> data.status == ToolCallStatus::Pending || data.status
            == ToolCallStatus::InProgress),
{
    assert(action@ is CommandRun);
    let result = action->CommandRun_result;
    assert(result.deep_view() is Some);
    assert(result.deep_view()->0 == result->0@);
}

/// A tool call that reads, edits or deletes is about its file, and an edit shows
/// its changes.
pub proof fn law_file_calls_are_about_their_file(
    data: PartialToolCallData,
    action: ActionType,
    changes: Vec<FileChange>,
)
    requires
        call_ensures(PartialToolCallData::map_to_action_type, (&data,), action),
        call_ensures(PartialToolCallData::extract_file_changes, (&data,), changes),
        action !is AskUserQuestion,
    ensures
        ({
            let file = match data.path {
                Some(path) => path@,
                None => Seq::empty(),
            };
            &&& data.kind == ToolKind::Read && !(data.id@.len() >= 15 && data.id@.take(15)
                == "read_many_files"@) ==> (action matches ActionType::FileRead { path } && path@
                == file)
            &&& data.kind == ToolKind::Edit ==> (action matches ActionType::FileEdit {
                path,
                changes: shown,
            } && path@ == file && shown.deep_view() == changes.deep_view())
            &&& data.kind == ToolKind::Delete ==> (action matches ActionType::FileEdit {
                path,
                changes: shown,
            } && path@ == file && shown@.len() == 1 && shown@[0] is Delete)
        }),
{
    reveal_strlit("read_many_files");
    assert("read_many_files"@.len() == 15);
    if data.kind == ToolKind::Delete {
        let shown = action->FileEdit_changes;
        assert(shown.deep_view().len() == 1);
        assert(shown.deep_view()[0] == shown@[0]@);
    }
}

/// A call that reads many files shows its title and the texts that it collected.
pub proof fn law_reading_many_files_shows_the_texts(
    data: PartialToolCallData,
    action: ActionType,
    texts: Option<String>,
)
    requires
        call_ensures(PartialToolCallData::map_to_action_type, (&data,), action),
        call_ensures(collect_text_content, (&data.content,), texts),
        action !is AskUserQuestion,
        data.kind == ToolKind::Read,
        data.id@.len() >= 15,
        data.id@.take(15) == "read_many_files"@,
    ensures
        action matches ActionType::Tool { tool_name, arguments: Some(arguments), result }
            && tool_name@ == "read_many_files"@ && json::json_of(arguments) == Json::Text(
            data.title@,
        ) && (result is Some <==> texts is Some) && (result is Some ==> result->0.value_type
            == ToolResultValueType::Markdown && json::json_of(result->0.value) == Json::Text(
            texts->0@,
        )),
{
    reveal_strlit("read_many_files");
    assert("read_many_files"@.len() == 15);
    assert(action@ is Tool);
    let result = action->Tool_result;
    if result is Some {
        assert(result.deep_view() == Some(result->0@));
    }
}

/// A search is for the query of the raw input, or else for the title.
pub proof fn law_search_is_for_its_query(
    data: PartialToolCallData,
    members: Seq<(Seq<char>, Json)>,
    action: ActionType,
)
    requires
        call_ensures(PartialToolCallData::map_to_action_type, (&data,), action),
        data.kind == ToolKind::Search,
        action !is AskUserQuestion,
    ensures
        data.raw_input is None ==> (action matches ActionType::Search { query } && query@
            == data.title@),
        is_object_of(data.raw_input, members) ==> (action matches ActionType::Search { query }
            && query@ == match json::lookup(members, "query"@) {
            Some(Json::Text(text)) => text,
            _ => data.title@,
        }),
{
}

/// What is fetched is the address in the raw input, or else the first one in the
/// title, or else nothing.
pub proof fn law_fetch_is_of_its_address(
    data: PartialToolCallData,
    members: Seq<(Seq<char>, Json)>,
    title: &str,
    action: ActionType,
    found: Option<String>,
)
    requires
        call_ensures(PartialToolCallData::map_to_action_type, (&data,), action),
        call_ensures(extract_url_from_text, (title,), found),
        title@ == data.title@,
        data.kind == ToolKind::Fetch,
        action !is AskUserQuestion,
    ensures
        ({
            let in_title = match found {
                Some(url) => url@,
                None => Seq::empty(),
            };
            &&& data.raw_input is None ==> (action matches ActionType::WebFetch { url } && url@
                == in_title)
            &&& is_object_of(data.raw_input, members) ==> (action matches ActionType::WebFetch {
                url,
            } && url@ == match json::lookup(members, "url"@) {
                Some(Json::Text(named)) if named.len() > 0 => named,
                _ => in_title,
            })
        }),
{
}

/// A call of a tool of no known kind shows its arguments and what came of it: the
/// raw output, or else the texts that it collected.
pub proof fn law_other_tools_show_arguments_and_results(
    data: PartialToolCallData,
    action: ActionType,
    name: String,
    texts: Option<String>,
)
    requires
        call_ensures(PartialToolCallData::map_to_action_type, (&data,), action),
        call_ensures(PartialToolCallData::tool_name, (&data,), name),
        call_ensures(collect_text_content, (&data.content,), texts),
        data.kind == ToolKind::Other || data.kind == ToolKind::Move,
        action !is AskUserQuestion,
    ensures
        action matches ActionType::Tool { tool_name, arguments, result } && tool_name@ == name@ && (
        data.raw_input is Some ==> arguments is Some && json::json_of(arguments->0)
            == json::json_of(data.raw_input->0)) && (data.raw_output is Some ==> result is Some
            && result->0.value_type == ToolResultValueType::Json && json::json_of(
            result->0.value,
        ) == json::json_of(data.raw_output->0)) && (data.raw_output is None ==> (result is Some
            <==> texts is Some)) && (data.raw_output is None && texts is Some
            ==> result->0.value_type == ToolResultValueType::Markdown && json::json_of(
            result->0.value,
        ) == Json::Text(texts->0@)),
{
    assert(action@ is Tool);
    let result = action->Tool_result;
    if result is Some {
        assert(result.deep_view() == Some(result->0@));
    }
}

/// A thought shows its title and the texts that it collected as arguments, and
/// what came of it.
pub proof fn law_thoughts_show_title_and_texts(
    data: PartialToolCallData,
    action: ActionType,
    name: String,
    texts: Option<String>,
)
    requires
        call_ensures(PartialToolCallData::map_to_action_type, (&data,), action),
        call_ensures(PartialToolCallData::tool_name, (&data,), name),
        call_ensures(collect_text_content, (&data.content,), texts),
        data.kind == ToolKind::Think,
        action !is AskUserQuestion,
    ensures
        action matches ActionType::Tool { tool_name, arguments: Some(arguments), result }
            && tool_name@ == name@ && json::json_of(arguments).member("title"@) == Some(
            Json::Text(data.title@),
        ) && json::json_of(arguments).member("content"@) == (match texts {
            Some(text) => Some(Json::Text(text@)),
            None => None,
        }) && (data.raw_output is Some ==> result is Some && result->0.value_type
            == ToolResultValueType::Json && json::json_of(result->0.value) == json::json_of(
            data.raw_output->0,
        )) && (data.raw_output is None ==> (result is Some <==> texts is Some)),
{
    reveal_strlit("title");
    reveal_strlit("content");
    assert("title"@.len() != "content"@.len());
    reveal_with_fuel(json::lookup, 3);
    assert(action@ is Tool);
    let result = action->Tool_result;
    if result is Some {
        assert(result.deep_view() == Some(result->0@));
    }
    let members = json::json_of(action->Tool_arguments->0)->Object_0;
    assert(members[0] == ("title"@, Json::Text(data.title@)));
    match texts {
        Some(text) => {
            assert(members.drop_first()[0] == ("content"@, Json::Text(text@)));
        },
        None => {
            assert(members.drop_first().len() == 0);
        },
    }
}

/// A change of mode is shown as one.
pub proof fn law_change_of_mode_is_shown(data: PartialToolCallData, action: ActionType)
    requires
        call_ensures(PartialToolCallData::map_to_action_type, (&data,), action),
        data.kind == ToolKind::SwitchMode,
        action !is AskUserQuestion,
    ensures
        action matches ActionType::Other { description } && description@ == "switch_mode"@,
{
}

/// The name of a tool is the one in the id of its call, or else its title.
pub proof fn law_tool_is_named_by_its_id(
    data: PartialToolCallData,
    id: &str,
    in_id: Option<String>,
    name: String,
)
    requires
        call_ensures(PartialToolCallData::tool_name, (&data,), name),
        call_ensures(extract_tool_name_from_id, (id,), in_id),
        id@ == data.id@,
    ensures
        name@ == match in_id {
            Some(found) => found@,
            None => data.title@,
        },
{
}

/// An id without a hyphen names no tool, and neither does one that has something
/// other than digits after its last hyphen.
pub proof fn law_other_ids_name_no_tool(id: &str, at: int, found: Option<String>)
    requires
        call_ensures(extract_tool_name_from_id, (id,), found),
        0 <= at < id@.len() ==> !('0' <= id@[at] <= '9') && id@[at] != '-' && forall|i: int|
            at < i < id@.len() ==> (#[trigger] id@[i]) != '-',
        at < 0 || id@.len() <= at ==> !id@.contains('-'),
    ensures
        found is None,
{
    lemma_hyphen_is_one(id@);
    match tool_calls::last_hyphen(id@) {
        Some(hyphen) => {
            assert(id@[hyphen as int] == '-');
            assert(id@.contains('-'));
            assert(hyphen < at < id@.len());
            assert(!text::is_digit(id@[at]));
        },
        None => {},
    }
}

proof fn lemma_hyphen_is_one(s: Seq<char>)
    ensures
        tool_calls::last_hyphen(s) matches Some(at) ==> at < s.len() && s[at as int] == '-',
    decreases s.len(),
{
    if s.len() > 0 && s.last() != '-' {
        lemma_hyphen_is_one(s.drop_last());
    }
}

/// A raw input that is missing, or is an object without a list of questions,
/// asks nothing.
pub proof fn law_only_lists_of_questions_ask(
    raw_input: Option<&serde_json::Value>,
    members: Seq<(Seq<char>, Json)>,
    asked: Option<Vec<AskUserQuestionItem>>,
)
    requires
        call_ensures(parse_ask_user_questions, (raw_input,), asked),
        raw_input matches Some(value) ==> json::json_of(*value) == Json::Object(members),
        raw_input is Some ==> !(json::lookup(members, "questions"@) matches Some(
            Json::Array(items),
        ) && items.len() > 0),
    ensures
        asked is None,
{
}

/// The questions of a raw input are asked in their order: each with its text, and
/// with the header, the choice of several answers and the options that it has.
pub proof fn law_questions_are_asked_as_written(
    raw_input: Option<&serde_json::Value>,
    members: Seq<(Seq<char>, Json)>,
    items: Seq<Json>,
    asked: Option<Vec<AskUserQuestionItem>>,
)
    requires
        call_ensures(parse_ask_user_questions, (raw_input,), asked),
        raw_input matches Some(value) && json::json_of(*value) == Json::Object(members),
        json::lookup(members, "questions"@) == Some(Json::Array(items)),
        items.len() > 0,
        forall|i: int| 0 <= i < items.len() ==> (#[trigger] items[i]) is Object,
    ensures
        asked matches Some(questions) ==> {
            &&& questions@.len() == items.len()
            &&& forall|i: int|
                0 <= i < items.len() ==> {
                    let question = #[trigger] questions@[i];
                    let written = items[i]->Object_0;
                    &&& json::lookup(written, "question"@) == Some(Json::Text(question.question@))
                    &&& match json::lookup(written, "header"@) {
                        Some(header) => header == Json::Text(question.header@),
                        None => question.header@.len() == 0,
                    }
                    &&& match json::lookup(written, "multiSelect"@) {
                        Some(several) => several == Json::Bool(question.multi_select),
                        None => !question.multi_select,
                    }
                    &&& match json::lookup(written, "options"@) {
                        Some(options) => options is Array && question.options@.len()
                            == options->Array_0.len(),
                        None => question.options@.len() == 0,
                    }
                }
        },
{
    if let Some(questions) = asked {
        let shown = tool_inputs::questions(items)->0;
        assert(asked.deep_view() == Some(shown));
        assert(questions.deep_view() == shown);
        assert(questions.deep_view().len() == questions@.len());
        assert(shown.len() == items.len());
        assert forall|i: int| 0 <= i < items.len() implies (#[trigger] questions@[i])@
            == tool_inputs::question(items[i])->0 && tool_inputs::question(items[i]) is Some by {
            assert(questions.deep_view()[i] == questions@[i]@);
            assert(shown[i] == tool_inputs::question(items[i])->0);
        }
        assert forall|i: int| 0 <= i < items.len() implies (#[trigger] questions@[i])@.options.len()
            == questions@[i].options@.len() by {
            assert(questions@[i]@.options == questions@[i].options.deep_view());
        }
    }
}

/// The options of a question are offered in their order, each with its label and
/// its description.
pub proof fn law_options_are_offered_as_written(
    raw_input: Option<&serde_json::Value>,
    members: Seq<(Seq<char>, Json)>,
    items: Seq<Json>,
    at: int,
    options: Seq<Json>,
    nth: int,
    asked: Option<Vec<AskUserQuestionItem>>,
)
    requires
        call_ensures(parse_ask_user_questions, (raw_input,), asked),
        raw_input matches Some(value) && json::json_of(*value) == Json::Object(members),
        json::lookup(members, "questions"@) == Some(Json::Array(items)),
        0 <= at < items.len(),
        items[at] is Object,
        json::lookup(items[at]->Object_0, "options"@) == Some(Json::Array(options)),
        0 <= nth < options.len(),
        options[nth] is Object,
    ensures
        asked matches Some(questions) ==> {
            let option = questions@[at].options@[nth];
            let written = options[nth]->Object_0;
            &&& nth < questions@[at].options@.len()
            &&& json::lookup(written, "label"@) == Some(Json::Text(option.label@))
            &&& match json::lookup(written, "description"@) {
                Some(description) => description == Json::Text(option.description@),
                None => option.description@.len() == 0,
            }
        },
{
    if let Some(questions) = asked {
        let shown = tool_inputs::questions(items)->0;
        assert(asked.deep_view() == Some(shown));
        assert(questions.deep_view() == shown);
        assert(asked.deep_view() == Some(questions.deep_view()));
        assert(questions.deep_view().len() == questions@.len());
        assert(questions@.len() == items.len());
        assert(questions.deep_view()[at] == questions@[at]@);
        assert(shown[at] == tool_inputs::question(items[at])->0);
        assert(tool_inputs::question(items[at]) is Some);
        let offered = tool_inputs::question_options(options)->0;
        assert(questions@[at]@.options == offered);
        assert(questions@[at].options.deep_view()[nth] == questions@[at].options@[nth]@);
        assert(offered[nth] == tool_inputs::question_option(options[nth])->0);
        assert(tool_inputs::question_option(options[nth]) is Some);
    }
}

/// A list of questions that each have a text, and no parts of another shape, is
/// asked.
pub proof fn law_plain_questions_are_asked(
    raw_input: Option<&serde_json::Value>,
    members: Seq<(Seq<char>, Json)>,
    items: Seq<Json>,
    asked: Option<Vec<AskUserQuestionItem>>,
)
    requires
        call_ensures(parse_ask_user_questions, (raw_input,), asked),
        raw_input matches Some(value) && json::json_of(*value) == Json::Object(members),
        json::lookup(members, "questions"@) == Some(Json::Array(items)),
        items.len() > 0,
        forall|i: int|
            0 <= i < items.len() ==> {
                let item = #[trigger] items[i];
                &&& item is Object
                &&& json::lookup(item->Object_0, "question"@) is Some
                &&& json::lookup(item->Object_0, "question"@)->0 is Text
                &&& json::lookup(item->Object_0, "header"@) is None || json::lookup(
                    item->Object_0,
                    "header"@,
                )->0 is Text
                &&& json::lookup(item->Object_0, "multiSelect"@) is None || json::lookup(
                    item->Object_0,
                    "multiSelect"@,
                )->0 is Bool
                &&& json::lookup(item->Object_0, "options"@) is None
            },
    ensures
        asked is Some,
{
    assert forall|i: int| 0 <= i < items.len() implies tool_inputs::question(
        #[trigger] items[i],
    ) is Some by {
        let item = items[i];
        assert(item is Object);
    }
    assert(asked.deep_view() is Some);
}

/// A call asks the user exactly if its raw input asks questions, and shows those.
pub proof fn law_call_shows_its_questions(
    data: PartialToolCallData,
    value: serde_json::Value,
    action: ActionType,
    asked: Option<Vec<AskUserQuestionItem>>,
)
    requires
        call_ensures(PartialToolCallData::map_to_action_type, (&data,), action),
        call_ensures(parse_ask_user_questions, (Some(&value),), asked),
        data.raw_input == Some(value),
    ensures
        action is AskUserQuestion <==> asked is Some,
        action matches ActionType::AskUserQuestion { questions } ==> questions.deep_view()
            == asked->0.deep_view(),
{
    if asked is Some {
        assert(asked.deep_view() == Some(asked->0.deep_view()));
    }
}

/// A call without a raw input asks nothing.
pub proof fn law_call_without_input_asks_nothing(data: PartialToolCallData, action: ActionType)
    requires
        call_ensures(PartialToolCallData::map_to_action_type, (&data,), action),
        data.raw_input is None,
    ensures
        action !is AskUserQuestion,
{
}

/// A report replaces what it sets and leaves the rest; the place of the entry
/// and a status that was set stay.
pub proof fn law_report_replaces_what_it_sets(data: &mut PartialToolCallData, call: ToolCall)
    requires
        call_ensures(PartialToolCallData::extend, (data, call), ()),
    ensures
        final(data).id@ == call.tool_call_id@,
        final(data).index == old(data).index,
        final(data).status_override == old(data).status_override,
        final(data).title@ == if call.title@.len() > 0 {
            call.title@
        } else {
            old(data).title@
        },
        final(data).kind == if call.kind == ToolKind::Other {
            old(data).kind
        } else {
            call.kind
        },
        final(data).status == if call.status == ToolCallStatus::Pending {
            old(data).status
        } else {
            call.status
        },
        final(data).content@ == if call.content@.len() > 0 {
            call.content@
        } else {
            old(data).content@
        },
        call.locations@.len() > 0 ==> final(data).path is Some && final(data).path->0@
            == call.locations@[0].path@,
        call.locations@.len() == 0 ==> final(data).path.deep_view() == old(data).path.deep_view(),
        json::opt_json(final(data).raw_input) == if call.raw_input is Some {
            json::opt_json(call.raw_input)
        } else {
            json::opt_json(old(data).raw_input)
        },
        json::opt_json(final(data).raw_output) == if call.raw_output is Some {
            json::opt_json(call.raw_output)
        } else {
            json::opt_json(old(data).raw_output)
        },
{
    assert(final(data)@ == old(data)@.extended(call@));
    if call.locations@.len() > 0 {
        assert(call@.locations[0] == call.locations@[0].path@);
        assert(final(data).path.deep_view() == Some(call.locations@[0].path@));
    }
}

/// An update with a title describes a call with what it sets, and one without a
/// title describes none.
pub proof fn law_update_describes_what_it_sets(update: ToolCallUpdate, call: Option<ToolCall>)
    requires
        call_ensures(ToolCallUpdate::into_tool_call, (update,), call),
    ensures
        call is Some <==> update.title is Some,
        call matches Some(described) ==> {
            &&& described.tool_call_id@ == update.tool_call_id@
            &&& described.title@ == update.title->0@
            &&& update.kind matches Some(kind) ==> described.kind == kind
            &&& update.status matches Some(status) ==> described.status == status
            &&& update.content matches Some(content) ==> described.content@ == content@
            &&& update.content is None ==> described.content@.len() == 0
            &&& update.locations is None ==> described.locations@.len() == 0
            &&& update.locations matches Some(locations) ==> described.locations.deep_view()
                == locations.deep_view()
            &&& json::opt_json(described.raw_input) == json::opt_json(update.raw_input)
            &&& json::opt_json(described.raw_output) == json::opt_json(update.raw_output)
        },
{
    if let Some(described) = call {
        assert(described@.locations.len() == described.locations@.len());
    }
}

/// The status that is shown is the one that was set, or else tells how far the
/// call has come.
pub proof fn law_entry_of_a_call_shows_it(
    data: PartialToolCallData,
    entry: NormalizedEntry,
    action: ActionType,
    line: String,
)
    requires
        call_ensures(PartialToolCallData::build_tool_entry, (&data,), entry),
        call_ensures(PartialToolCallData::map_to_action_type, (&data,), action),
        call_ensures(PartialToolCallData::get_tool_content, (&data,), line),
    ensures
        entry.timestamp is None,
        entry.content@ == line@,
        entry.metadata matches Some(metadata) && metadata.tool_call_id@ == data.id@,
        entry.entry_type matches NormalizedEntryType::ToolUse { tool_name, action_type, status }
            && tool_name@ == data.title@ && action_type@ == action@ && (
        data.status_override matches Some(set) ==> status == set) && (data.status_override is None
            ==> {
            &&& status is Success <==> data.status == ToolCallStatus::Completed
            &&& status is Failed <==> data.status == ToolCallStatus::Failed
            &&& status is Created <==> data.status == ToolCallStatus::Pending || data.status
                == ToolCallStatus::InProgress
        }),
{
    assert(entry.metadata.deep_view() is Some);
}

/// A status is shown as success only where the call completed, and as failure
/// only where it failed.
pub proof fn law_shown_status_tells_how_far_a_call_is(status: ToolCallStatus, shown: ToolStatus)
    requires
        call_ensures(convert_tool_status, (&status,), shown),
    ensures
        shown is Success <==> status == ToolCallStatus::Completed,
        shown is Failed <==> status == ToolCallStatus::Failed,
        shown is Created <==> status == ToolCallStatus::Pending || status
            == ToolCallStatus::InProgress,
{
}

/// The line of a call: its command, its file, or its title; questions have one
/// line of their own.
pub proof fn law_line_of_a_call(
    data: PartialToolCallData,
    line: String,
    command: String,
    action: ActionType,
    name: Option<String>,
    id: &str,
)
    requires
        call_ensures(PartialToolCallData::get_tool_content, (&data,), line),
        call_ensures(AcpEventParser::parse_execute_command, (&data,), command),
        call_ensures(PartialToolCallData::map_to_action_type, (&data,), action),
        call_ensures(extract_tool_name_from_id, (id,), name),
        id@ == data.id@,
    ensures
        action is AskUserQuestion || data.title@ == "AskUserQuestion"@ ==> line@
            == "Ask user question"@,
        action !is AskUserQuestion && data.title@ != "AskUserQuestion"@ ==> {
            &&& data.kind == ToolKind::Execute ==> line@ == command@
            &&& data.kind == ToolKind::Read && !(data.id@.len() >= 15 && data.id@.take(15)
                == "read_many_files"@) ==> line@ == match data.path {
                Some(path) => path@,
                None => data.title@,
            }
            &&& data.kind == ToolKind::Read && data.id@.len() >= 15 && data.id@.take(15)
                == "read_many_files"@ ==> line@ == "Read files"@
            &&& data.kind == ToolKind::Think ==> line@ == "Saving memory"@
            &&& data.kind == ToolKind::Edit || data.kind == ToolKind::Delete || data.kind
                == ToolKind::Move || data.kind == ToolKind::Search || data.kind == ToolKind::Fetch
                || data.kind == ToolKind::SwitchMode ==> line@ == data.title@
            &&& data.kind == ToolKind::Other ==> line@ == (match name {
                Some(name) => name@,
                None => "tool"@,
            }) + (if data.title@.len() == 0 {
                Seq::empty()
            } else {
                ": "@ + data.title@
            })
        },
{
    reveal_strlit("read_many_files");
    assert("read_many_files"@.len() == 15);
    if data.kind == ToolKind::Other {
        let head = match name {
            Some(name) => name@,
            None => "tool"@,
        };
        assert(head + Seq::empty() =~= head);
        assert(head + ": "@ + data.title@ =~= head + (": "@ + data.title@));
    }
}

/// The name of a tool is what stands before a hyphen and digits at the end of
/// the id of its call.
pub proof fn law_tool_name_stands_before_the_number(
    id: &str,
    name: Seq<char>,
    digits: Seq<char>,
    found: Option<String>,
)
    requires
        call_ensures(extract_tool_name_from_id, (id,), found),
        id@ == name + seq!['-'] + digits,
        forall|i: int| 0 <= i < digits.len() ==> '0' <= (#[trigger] digits[i]) <= '9',
    ensures
        found matches Some(text) && text@ == name,
{
    assert(id@[name.len() as int] == '-');
    assert forall|i: int| name.len() < i < id@.len() implies (#[trigger] id@[i]) != '-' by {
        assert(id@[i] == digits[i - name.len() - 1]);
    }
    lemma_last_hyphen(id@, name.len());
    assert(id@.take(name.len() as int) =~= name);
    assert forall|i: int| name.len() < i < id@.len() implies text::is_digit(#[trigger] id@[i]) by {
        assert(id@[i] == digits[i - name.len() - 1]);
    }
}

proof fn lemma_last_hyphen(s: Seq<char>, at: nat)
    requires
        at < s.len(),
        s[at as int] == '-',
        forall|i: int| at < i < s.len() ==> (#[trigger] s[i]) != '-',
    ensures
        tool_calls::last_hyphen(s) == Some(at),
    decreases s.len(),
{
    if s.len() - 1 != at {
        lemma_last_hyphen(s.drop_last(), at);
    }
}

} // verus!
