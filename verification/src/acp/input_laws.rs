//! What the readers of raw inputs find, whether an input is written as an object
//! or as a list of its fields.

use vstd::prelude::*;

use crate::json;
use crate::json::Json;

use super::tool_inputs::{read_command, read_edit_input, read_text_field, EditInput};

verus! {

/// Whether an input says nothing in a field.
pub open spec fn is_unset(field: Option<Json>) -> bool {
    field is None || field == Some(Json::Null)
}

/// An edit has its path, its diff and its two texts, each from the member of its
/// own name.
pub proof fn law_edit_is_read_by_its_names(
    input: serde_json::Value,
    members: Seq<(Seq<char>, Json)>,
    edit: Option<EditInput>,
    path: Seq<char>,
    text: Seq<char>,
)
    requires
        call_ensures(read_edit_input, (&Some(input),), edit),
        json::json_of(input) == Json::Object(members),
    ensures
        edit is Some ==> {
            &&& json::lookup(members, "filePath"@) == Some(Json::Text(edit->0.file_path@))
            &&& edit->0.diff is None <==> is_unset(json::lookup(members, "diff"@))
            &&& edit->0.diff is Some ==> json::lookup(members, "diff"@) == Some(
                Json::Text(edit->0.diff->0@),
            )
            &&& edit->0.old_string is None <==> is_unset(json::lookup(members, "oldString"@))
            &&& edit->0.old_string is Some ==> json::lookup(members, "oldString"@) == Some(
                Json::Text(edit->0.old_string->0@),
            )
            &&& edit->0.new_string is None <==> is_unset(json::lookup(members, "newString"@))
            &&& edit->0.new_string is Some ==> json::lookup(members, "newString"@) == Some(
                Json::Text(edit->0.new_string->0@),
            )
        },
        edit is None ==> {
            ||| !(json::lookup(members, "filePath"@) is Some && json::lookup(
                members,
                "filePath"@,
            )->0 is Text)
            ||| is_no_text(json::lookup(members, "diff"@))
            ||| is_no_text(json::lookup(members, "oldString"@))
            ||| is_no_text(json::lookup(members, "newString"@))
        },
{
    if edit is Some {
        let read = edit->0;
        assert(read@.diff == read.diff.deep_view());
        assert(read@.old_string == read.old_string.deep_view());
        assert(read@.new_string == read.new_string.deep_view());
        if read.diff is Some {
            assert(read.diff.deep_view() == Some(read.diff->0@));
        }
        if read.old_string is Some {
            assert(read.old_string.deep_view() == Some(read.old_string->0@));
        }
        if read.new_string is Some {
            assert(read.new_string.deep_view() == Some(read.new_string->0@));
        }
    }
}

/// Whether an input has something other than a text in a field.
pub open spec fn is_no_text(field: Option<Json>) -> bool {
    field is Some && field->0 !is Text && field->0 !is Null
}

/// An edit that is written as a list has its fields in their order.
pub proof fn law_edit_is_read_in_order(
    input: serde_json::Value,
    path: Seq<char>,
    diff: Seq<char>,
    old_string: Seq<char>,
    new_string: Seq<char>,
    edit: Option<EditInput>,
)
    requires
        call_ensures(read_edit_input, (&Some(input),), edit),
        json::json_of(input) == Json::Array(
            seq![Json::Text(path), Json::Text(diff), Json::Text(old_string), Json::Text(new_string)],
        ),
    ensures
        edit is Some,
        edit->0.file_path@ == path,
        edit->0.diff is Some && edit->0.diff->0@ == diff,
        edit->0.old_string is Some && edit->0.old_string->0@ == old_string,
        edit->0.new_string is Some && edit->0.new_string->0@ == new_string,
{
    let read = edit->0;
    assert(read@.diff == read.diff.deep_view());
    assert(read@.old_string == read.old_string.deep_view());
    assert(read@.new_string == read.new_string.deep_view());
    assert(read.diff.deep_view() == Some(read.diff->0@));
    assert(read.old_string.deep_view() == Some(read.old_string->0@));
    assert(read.new_string.deep_view() == Some(read.new_string->0@));
}

/// A text field of an object is the member of its name, if that is a text.
pub proof fn law_text_field_is_read_by_its_name(
    input: serde_json::Value,
    members: Seq<(Seq<char>, Json)>,
    key: &str,
    found: Option<String>,
)
    requires
        call_ensures(read_text_field, (&Some(input), key), found),
        json::json_of(input) == Json::Object(members),
    ensures
        found is Some <==> json::lookup(members, key@) is Some && json::lookup(
            members,
            key@,
        )->0 is Text,
        found is Some ==> json::lookup(members, key@) == Some(Json::Text(found->0@)),
{
    if found is Some {
        assert(found.deep_view() == Some(found->0@));
    }
}

/// A command is the member of that name of an object, if it is a text; a list has
/// none.
pub proof fn law_command_is_read_by_its_name(
    input: serde_json::Value,
    members: Seq<(Seq<char>, Json)>,
    found: Option<String>,
)
    requires
        call_ensures(read_command, (&Some(input),), found),
    ensures
        json::json_of(input) == Json::Object(members) ==> {
            &&& found is Some <==> json::lookup(members, "command"@) is Some && json::lookup(
                members,
                "command"@,
            )->0 is Text
            &&& found is Some ==> json::lookup(members, "command"@) == Some(
                Json::Text(found->0@),
            )
        },
        json::json_of(input) !is Object ==> found is None,
{
    if found is Some {
        assert(found.deep_view() == Some(found->0@));
    }
}

/// Where there is no input, nothing is read.
pub proof fn law_nothing_is_read_without_input(
    key: &str,
    edit: Option<EditInput>,
    field: Option<String>,
    command: Option<String>,
)
    requires
        call_ensures(read_edit_input, (&None,), edit),
        call_ensures(read_text_field, (&None, key), field),
        call_ensures(read_command, (&None,), command),
    ensures
        edit is None,
        field is None,
        command is None,
{
}

} // verus!
