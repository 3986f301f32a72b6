//! What is shown of a tool call that says little, or says it in another form.

use vstd::prelude::*;

use crate::json;
use crate::json::Json;
use crate::logs::{
    ActionType, AskUserQuestionItem, FileChange, ToolResultValueType, UnifiedDiff,
};
use crate::text;
use crate::text_laws;

use super::tool_calls;
use super::tool_calls::{
    collect_text_content, extract_url_from_text, AcpEventParser, PartialToolCallData,
};
use super::tool_inputs;
use super::tool_inputs::{parse_ask_user_questions, read_text_field, EditInput};
use super::tool_laws::{diffs_in, is_object_of, lemma_changes_of_diffs};
use super::types::{ToolCall, ToolCallStatus, ToolCallUpdate, ToolKind};

verus! {

/// Without differences in its content, a tool call changes a file as its raw
/// input says: by the diff that is written there; else from the old text to the
/// new one, where both are there; else not at all.
pub proof fn law_changes_are_those_of_the_edit(
    data: PartialToolCallData,
    edit: Option<EditInput>,
    changes: Vec<FileChange>,
)
    requires
        call_ensures(PartialToolCallData::extract_file_changes, (&data,), changes),
        call_ensures(tool_inputs::read_edit_input, (&data.raw_input,), edit),
        diffs_in(data.content@).len() == 0,
    ensures
        edit is None ==> changes@.len() == 0,
        edit is Some && edit->0.diff is Some ==> changes@.len() == 1 && (
        changes@[0] matches FileChange::Edit {
            unified_diff: UnifiedDiff::Normalized { path, diff },
            has_line_numbers,
        } && path@ == edit->0.file_path@ && diff@ == edit->0.diff->0@ && has_line_numbers),
        edit is Some && edit->0.diff is None && edit->0.old_string is Some
            && edit->0.new_string is Some ==> changes@.len() == 1 && (
        changes@[0] matches FileChange::Edit {
            unified_diff: UnifiedDiff::Created { path, old_text, new_text },
            has_line_numbers,
        } && path@ == edit->0.file_path@ && old_text@ == edit->0.old_string->0@ && new_text@
            == edit->0.new_string->0@ && !has_line_numbers),
        edit is Some && edit->0.diff is None && (edit->0.old_string is None
            || edit->0.new_string is None) ==> changes@.len() == 0,
{
    lemma_changes_of_diffs(data.content@, data@.path_text());
    assert(changes.deep_view().len() == changes@.len());
    if changes@.len() > 0 {
        assert(changes.deep_view()[0] == changes@[0]@);
    }
    if edit is Some {
        let read = edit->0;
        assert(read@.diff == read.diff.deep_view());
        assert(read@.old_string == read.old_string.deep_view());
        assert(read@.new_string == read.new_string.deep_view());
    }
}

/// A tool of no known kind without a raw input has the document that its title
/// is as its arguments, where that begins with a brace, and none otherwise.
pub proof fn law_title_can_be_the_arguments(data: PartialToolCallData, action: ActionType)
    requires
        call_ensures(PartialToolCallData::map_to_action_type, (&data,), action),
        data.kind == ToolKind::Other || data.kind == ToolKind::Move,
        data.raw_input is None,
        data.title@.len() == 0 || !text::white_space(data.title@[0]),
    ensures
        action is Tool,
        data.title@.len() == 0 || data.title@[0] != '{' ==> action->Tool_arguments is None,
        data.title@.len() > 0 && data.title@[0] == '{' ==> json::opt_json(
            action->Tool_arguments,
        ) == json::json_parsed(data.title@),
{
    reveal_strlit("{");
    assert("{"@.len() == 1);
    assert("{"@[0] == '{');
    let title = data.title@;
    assert(text::trim_start(title) == title);
    if title.len() > 0 {
        assert(title.take(1)[0] == title[0]);
        if title[0] == '{' {
            assert(title.take(1) =~= "{"@);
        }
    }
    assert(action@ is Tool);
}

/// A thought without a raw output has its texts as its result.
pub proof fn law_texts_are_the_result_of_a_thought(
    data: PartialToolCallData,
    texts: Option<String>,
    action: ActionType,
)
    requires
        call_ensures(PartialToolCallData::map_to_action_type, (&data,), action),
        call_ensures(collect_text_content, (&data.content,), texts),
        data.kind == ToolKind::Think,
        data.raw_output is None,
        action !is AskUserQuestion,
    ensures
        action is Tool,
        action->Tool_result is Some <==> texts is Some,
        texts is Some ==> action->Tool_result->0.value_type == ToolResultValueType::Markdown
            && json::json_of(action->Tool_result->0.value) == Json::Text(texts->0@),
{
    assert(action@ is Tool);
    let result = action->Tool_result;
    if result is Some {
        assert(result.deep_view() == Some(result->0@));
    }
    if texts is Some {
        assert(texts.deep_view() == Some(texts->0@));
    }
}

/// What an update leaves out of the kind and the status of a call is unset in
/// the call that it describes.
pub proof fn law_update_leaves_the_rest_unset(update: ToolCallUpdate, call: Option<ToolCall>)
    requires
        call_ensures(ToolCallUpdate::into_tool_call, (update,), call),
        update.title is Some,
    ensures
        call is Some,
        update.kind is None ==> call->0.kind == ToolKind::Other,
        update.status is None ==> call->0.status == ToolCallStatus::Pending,
{
}

/// A command that the raw input does not name is the title, without white space
/// around it, where that has no note on the working directory.
pub proof fn law_title_is_the_command(
    data: PartialToolCallData,
    members: Seq<(Seq<char>, Json)>,
    title: &str,
    trimmed: String,
    command: String,
)
    requires
        call_ensures(AcpEventParser::parse_execute_command, (&data,), command),
        call_ensures(text::trim, (title,), trimmed),
        title@ == data.title@,
        data.raw_input is None || is_object_of(data.raw_input, members) && !(json::lookup(
            members,
            "command"@,
        ) is Some && json::lookup(members, "command"@)->0 is Text),
        forall|i: int| 0 <= i < title@.len() ==> (#[trigger] title@[i]) != '[',
    ensures
        command@ == trimmed@,
{
    reveal_strlit(" [current working directory ");
    let marker = " [current working directory "@;
    assert(marker.len() > 1);
    assert(marker[1] == '[');
    let found = text::before(title@, marker);
    text_laws::lemma_before(title@, marker);
    if found.len() < title@.len() {
        let at = found.len() as int;
        assert(title@.subrange(at, at + marker.len())[1] == title@[at + 1]);
    }
    assert(found =~= title@);
}

/// A text field can be the only item of a list.
pub proof fn law_text_field_can_stand_alone(
    input: serde_json::Value,
    items: Seq<Json>,
    key: &str,
    found: Option<String>,
)
    requires
        call_ensures(read_text_field, (&Some(input), key), found),
        json::json_of(input) == Json::Array(items),
    ensures
        found is Some <==> items.len() == 1 && items[0] is Text,
        found is Some ==> items[0] == Json::Text(found->0@),
{
    if found is Some {
        assert(found.deep_view() == Some(found->0@));
    }
}

/// Whether an address ends before a character.
pub open spec fn ends_address(c: char) -> bool {
    text::white_space(c) || c == '"' || c == '\'' || c == ')'
}

/// An address goes from its scheme to the first character that it cannot have.
pub proof fn law_address_is_found_after_a_text(
    before: Seq<char>,
    scheme: Seq<char>,
    name: Seq<char>,
    after: Seq<char>,
    text: &str,
    found: Option<String>,
)
    requires
        call_ensures(extract_url_from_text, (text,), found),
        text@ == before + scheme + name + after,
        !before.contains('h'),
        scheme == "https://"@ || scheme == "http://"@,
        name.len() > 0,
        forall|i: int| 0 <= i < name.len() ==> !ends_address(#[trigger] name[i]),
        after.len() == 0 || ends_address(after[0]),
    ensures
        found is Some,
        found->0@ == scheme + name,
{
    let rest = scheme + name + after;
    reveal_strlit("https://");
    reveal_strlit("http://");
    assert("https://"@.len() == 8);
    assert("http://"@.len() == 7);
    assert("https://"@[4] == 's');
    assert("http://"@[4] == ':');
    assert("https://"@[0] == 'h');
    assert("http://"@[0] == 'h');
    lemma_no_address_before(before, rest);
    assert(before + rest =~= text@);
    assert(rest.take(scheme.len() as int) =~= scheme);
    if scheme == "http://"@ {
        assert(!text::begins_with(rest, "https://"@)) by {
            if text::begins_with(rest, "https://"@) {
                assert(rest.take(8)[4] == rest[4]);
                assert(rest[4] == scheme[4]);
            }
        }
    }
    assert(tool_calls::scheme_len(rest) == scheme.len());
    assert(rest.skip(scheme.len() as int) =~= name + after);
    lemma_run(name, after);
    assert(rest.take((scheme.len() + name.len()) as int) =~= scheme + name);
    assert(found.deep_view() == Some(found->0@));
}

proof fn lemma_run(name: Seq<char>, after: Seq<char>)
    requires
        forall|i: int| 0 <= i < name.len() ==> !ends_address(#[trigger] name[i]),
        after.len() == 0 || ends_address(after[0]),
    ensures
        tool_calls::url_run(name + after) == name.len(),
    decreases name.len(),
{
    let whole = name + after;
    if name.len() > 0 {
        let rest = name.drop_first();
        assert(whole[0] == name[0]);
        assert(whole.drop_first() =~= rest + after);
        assert forall|i: int| 0 <= i < rest.len() implies !ends_address(#[trigger] rest[i]) by {
            assert(rest[i] == name[i + 1]);
        }
        lemma_run(rest, after);
    } else {
        assert(whole =~= after);
    }
}

proof fn lemma_no_address_before(before: Seq<char>, rest: Seq<char>)
    requires
        !before.contains('h'),
    ensures
        tool_calls::first_url(before + rest) == tool_calls::first_url(rest),
    decreases before.len(),
{
    let whole = before + rest;
    if before.len() > 0 {
        let shorter = before.drop_first();
        assert(!shorter.contains('h')) by {
            if shorter.contains('h') {
                let i = shorter.index_of('h');
                assert(before[i + 1] == 'h');
            }
        }
        lemma_no_address_before(shorter, rest);
        assert(whole.drop_first() =~= shorter + rest);
        assert(whole[0] == before[0]);
        assert(before.contains(before[0]));
        reveal_strlit("https://");
        reveal_strlit("http://");
        assert("https://"@[0] == 'h');
        assert("http://"@[0] == 'h');
        if text::begins_with(whole, "https://"@) {
            assert(whole.take("https://"@.len() as int)[0] == whole[0]);
        }
        if text::begins_with(whole, "http://"@) {
            assert(whole.take("http://"@.len() as int)[0] == whole[0]);
        }
    } else {
        assert(whole =~= rest);
    }
}

/// A text without the letter that a scheme begins with has no address.
pub proof fn law_no_scheme_is_no_address(text: &str, found: Option<String>)
    requires
        call_ensures(extract_url_from_text, (text,), found),
        !text@.contains('h'),
    ensures
        found is None,
{
    lemma_no_address_before(text@, Seq::empty());
    assert(text@ + Seq::<char>::empty() =~= text@);
}

/// Whether a document describes an answer option: an object with a label, and
/// perhaps a description.
pub open spec fn describes_option(document: Json) -> bool {
    &&& document is Object
    &&& document.member("label"@) is Some
    &&& document.member("label"@)->0 is Text
    &&& document.member("description"@) is Some ==> document.member("description"@)->0 is Text
}

/// Whether a document describes a question: an object with its text, and perhaps
/// a header, options and a flag.
pub open spec fn describes_question(document: Json) -> bool {
    &&& document is Object
    &&& document.member("question"@) is Some
    &&& document.member("question"@)->0 is Text
    &&& document.member("header"@) is Some ==> document.member("header"@)->0 is Text
    &&& document.member("multiSelect"@) is Some ==> document.member("multiSelect"@)->0 is Bool
    &&& document.member("options"@) matches Some(options) ==> {
        &&& options is Array
        &&& forall|i: int|
            0 <= i < options->Array_0.len() ==> describes_option(#[trigger] options->Array_0[i])
    }
}

/// Questions with options are asked where all of them are described in full; and
/// if one is not, none is asked.
pub proof fn law_described_questions_are_asked(
    input: serde_json::Value,
    items: Seq<Json>,
    asked: Option<Vec<AskUserQuestionItem>>,
)
    requires
        call_ensures(parse_ask_user_questions, (Some(&input),), asked),
        json::json_of(input) is Object,
        json::json_of(input).member("questions"@) == Some(Json::Array(items)),
        items.len() > 0,
        forall|i: int| 0 <= i < items.len() ==> (#[trigger] items[i]) is Object,
    ensures
        (forall|i: int| 0 <= i < items.len() ==> describes_question(#[trigger] items[i]))
            ==> asked is Some,
        asked is Some ==> forall|i: int|
            0 <= i < items.len() ==> (#[trigger] items[i]).member("question"@) is Some,
{
    if forall|i: int| 0 <= i < items.len() ==> describes_question(#[trigger] items[i]) {
        assert forall|i: int| 0 <= i < items.len() implies tool_inputs::question(
            #[trigger] items[i],
        ) is Some by {
            let item = items[i];
            assert(describes_question(item));
            if let Some(options) = item.member("options"@) {
                let documents = options->Array_0;
                assert forall|j: int|
                    0 <= j < documents.len() implies tool_inputs::question_option(
                    #[trigger] documents[j],
                ) is Some by {
                    assert(describes_option(documents[j]));
                }
            }
        }
        assert(asked.deep_view() is Some);
    }
    if asked is Some {
        assert(asked.deep_view() is Some);
        assert forall|i: int| 0 <= i < items.len() implies (#[trigger] items[i]).member(
            "question"@,
        ) is Some by {
            assert(tool_inputs::question(items[i]) is Some);
        }
    }
}

/// A question can be written as the list of its fields in their order, and so can
/// what asks it.
pub proof fn law_questions_can_be_lists(
    input: serde_json::Value,
    text: Seq<char>,
    header: Seq<char>,
    label: Seq<char>,
    description: Seq<char>,
    several: bool,
    asked: Option<Vec<AskUserQuestionItem>>,
)
    requires
        call_ensures(parse_ask_user_questions, (Some(&input),), asked),
        json::json_of(input) == Json::Array(
            seq![
                Json::Array(
                    seq![
                        Json::Array(
                            seq![
                                Json::Text(text),
                                Json::Text(header),
                                Json::Array(
                                    seq![
                                        Json::Array(
                                            seq![Json::Text(label), Json::Text(description)],
                                        ),
                                    ],
                                ),
                                Json::Bool(several),
                            ],
                        ),
                    ],
                ),
            ],
        ),
    ensures
        asked is Some,
        asked->0@.len() == 1,
        asked->0@[0].question@ == text,
        asked->0@[0].header@ == header,
        asked->0@[0].multi_select == several,
        asked->0@[0].options@.len() == 1,
        asked->0@[0].options@[0].label@ == label,
        asked->0@[0].options@[0].description@ == description,
{
    let items = json::json_of(input)->Array_0[0]->Array_0;
    let written = items[0];
    let options = written->Array_0[2]->Array_0;
    assert(tool_inputs::question_option(options[0]) is Some);
    assert(tool_inputs::question_options(options) is Some);
    assert(tool_inputs::question(written) is Some);
    assert(tool_inputs::questions(items) is Some);
    assert(asked.deep_view() is Some);
    assert(asked.deep_view() == Some(asked->0.deep_view()));
    assert(asked->0.deep_view().len() == 1);
    assert(asked->0.deep_view()[0] == asked->0@[0]@);
    let list = asked->0@[0].options;
    assert(list.deep_view().len() == 1);
    assert(list.deep_view()[0] == list@[0]@);
}

} // verus!
