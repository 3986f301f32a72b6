//! What the raw input of a tool call says, for the shapes that are known.

use vstd::prelude::*;

use crate::json;
use crate::json::Json;
use crate::logs::{
    AskUserQuestionItem, AskUserQuestionItemView, AskUserQuestionOption, AskUserQuestionOptionView,
};

verus! {

/// A text field that may be left out and is then empty.
pub open spec fn text_or_empty(field: Option<Json>) -> Option<Seq<char>> {
    match field {
        None => Some(Seq::empty()),
        Some(Json::Text(text)) => Some(text),
        _ => None,
    }
}

/// A text field that may be left out, or be `null`.
pub open spec fn optional_text(field: Option<Json>) -> Option<Option<Seq<char>>> {
    match field {
        None => Some(None),
        Some(Json::Null) => Some(None),
        Some(Json::Text(text)) => Some(Some(text)),
        _ => None,
    }
}

/// A flag that may be left out and is then not set.
pub open spec fn flag_or_unset(field: Option<Json>) -> Option<bool> {
    match field {
        None => Some(false),
        Some(Json::Bool(flag)) => Some(flag),
        _ => None,
    }
}

/// The answer option that a document describes.
pub open spec fn question_option(document: Json) -> Option<AskUserQuestionOptionView> {
    match (document.field("label"@, 0), text_or_empty(document.field("description"@, 1))) {
        (Some(Json::Text(label)), Some(description)) if document.is_record(2) => Some(
            AskUserQuestionOptionView { label, description },
        ),
        _ => None,
    }
}

/// The answer options that documents describe, where all of them describe one.
pub open spec fn question_options(documents: Seq<Json>) -> Option<Seq<AskUserQuestionOptionView>> {
    if forall|i: int| 0 <= i < documents.len() ==> question_option(#[trigger] documents[i]) is Some {
        Some(documents.map_values(|d: Json| question_option(d)->0))
    } else {
        None
    }
}

/// The answer options of a question, which may be left out.
pub open spec fn options_field(field: Option<Json>) -> Option<Seq<AskUserQuestionOptionView>> {
    match field {
        None => Some(Seq::empty()),
        Some(Json::Array(items)) => question_options(items),
        _ => None,
    }
}

/// The question that a document describes.
pub open spec fn question(document: Json) -> Option<AskUserQuestionItemView> {
    match (
        document.field("question"@, 0),
        text_or_empty(document.field("header"@, 1)),
        options_field(document.field("options"@, 2)),
        flag_or_unset(document.field("multiSelect"@, 3)),
    ) {
        (
            Some(Json::Text(question)),
            Some(header),
            Some(options),
            Some(multi_select),
        ) if document.is_record(4) => Some(
            AskUserQuestionItemView { question, header, options, multi_select },
        ),
        _ => None,
    }
}

/// The questions that documents describe, where all of them describe one.
pub open spec fn questions(documents: Seq<Json>) -> Option<Seq<AskUserQuestionItemView>> {
    if forall|i: int| 0 <= i < documents.len() ==> question(#[trigger] documents[i]) is Some {
        Some(documents.map_values(|d: Json| question(d)->0))
    } else {
        None
    }
}

/// The questions that a raw input asks the user: none where it is of another
/// shape, or asks nothing.
pub open spec fn asked_questions(raw_input: Option<Json>) -> Option<Seq<AskUserQuestionItemView>> {
    match raw_input {
        Some(document) => match document.field("questions"@, 0) {
            Some(Json::Array(items)) if document.is_record(1) && items.len() > 0 => questions(
                items,
            ),
            _ => None,
        },
        None => None,
    }
}

/// A text field of a raw input: the member `key` of an object, whatever else it
/// has, or the only item of an array.
pub open spec fn text_field(raw_input: Option<Json>, key: Seq<char>) -> Option<Seq<char>> {
    match raw_input {
        Some(document) => match document.field(key, 0) {
            Some(Json::Text(text)) if document.is_record(1) => Some(text),
            _ => None,
        },
        None => None,
    }
}

/// The command of a raw input.
pub open spec fn command_member(raw_input: Option<Json>) -> Option<Seq<char>> {
    match raw_input {
        Some(document) => match document.member("command"@) {
            Some(command) => command.as_text(),
            None => None,
        },
        None => None,
    }
}

/// What a raw input says of an edit.
#[derive(Debug)]
pub struct EditInput {
    pub file_path: String,
    pub diff: Option<String>,
    pub old_string: Option<String>,
    pub new_string: Option<String>,
}

#[verifier::ext_equal]
pub struct EditInputView {
    pub file_path: Seq<char>,
    pub diff: Option<Seq<char>>,
    pub old_string: Option<Seq<char>>,
    pub new_string: Option<Seq<char>>,
}

impl View for EditInput {
    type V = EditInputView;

    open spec fn view(&self) -> EditInputView {
        EditInputView {
            file_path: self.file_path@,
            diff: self.diff.deep_view(),
            old_string: self.old_string.deep_view(),
            new_string: self.new_string.deep_view(),
        }
    }
}

/// The edit that a raw input describes.
pub open spec fn edit_input(raw_input: Option<Json>) -> Option<EditInputView> {
    match raw_input {
        Some(document) => match (
            document.field("filePath"@, 0),
            optional_text(document.field("diff"@, 1)),
            optional_text(document.field("oldString"@, 2)),
            optional_text(document.field("newString"@, 3)),
        ) {
            (
                Some(Json::Text(file_path)),
                Some(diff),
                Some(old_string),
                Some(new_string),
            ) if document.is_record(4) => Some(
                EditInputView { file_path, diff, old_string, new_string },
            ),
            _ => None,
        },
        None => None,
    }
}

fn read_text_or_empty(field: Option<&serde_json::Value>) -> (res: Option<String>)
    ensures
        res.deep_view() == text_or_empty(
            match field {
                Some(value) => Some(json::json_of(*value)),
                None => None,
            },
        ),
{
    match field {
        None => Some(String::new()),
        Some(value) => match value.as_str() {
            Some(text) => Some(text.to_owned()),
            None => None,
        },
    }
}

fn read_optional_text(field: Option<&serde_json::Value>) -> (res: Option<Option<String>>)
    ensures
        res.deep_view() == optional_text(
            match field {
                Some(value) => Some(json::json_of(*value)),
                None => None,
            },
        ),
{
    match field {
        None => Some(None),
        Some(value) => match value.as_str() {
            Some(text) => Some(Some(text.to_owned())),
            None => if value.is_null() {
                Some(None)
            } else {
                None
            },
        },
    }
}

fn read_option(value: &serde_json::Value) -> (res: Option<AskUserQuestionOption>)
    ensures
        res.deep_view() == question_option(json::json_of(*value)),
{
    if !json::is_record(value, 2) {
        return None;
    }
    let label = match json::field(value, "label", 0) {
        Some(found) => match found.as_str() {
            Some(label) => label.to_owned(),
            None => return None,
        },
        None => return None,
    };
    match read_text_or_empty(json::field(value, "description", 1)) {
        Some(description) => Some(AskUserQuestionOption { label, description }),
        None => None,
    }
}

#[verifier::loop_isolation(false)]
fn read_options(field: Option<&serde_json::Value>) -> (res: Option<Vec<AskUserQuestionOption>>)
    ensures
        res.deep_view() == options_field(
            match field {
                Some(value) => Some(json::json_of(*value)),
                None => None,
            },
        ),
{
    let value = match field {
        Some(value) => value,
        None => {
            let none: Vec<AskUserQuestionOption> = Vec::new();
            assert(none.deep_view() =~= Seq::empty());
            return Some(none);
        },
    };
    let items = match value.as_array() {
        Some(items) => items,
        None => return None,
    };
    let ghost documents = json::jsons(items@);
    let mut out: Vec<AskUserQuestionOption> = Vec::new();
    let mut i: usize = 0;
    while i < items.len()
        invariant
            i <= items@.len(),
            documents == json::jsons(items@),
            out@.len() == i,
            forall|j: int|
                0 <= j < i ==> question_option(#[trigger] documents[j]) == Some(out@[j]@),
        decreases items.len() - i,
    {
        assert(documents[i as int] == json::json_of(items@[i as int]));
        match read_option(&items[i]) {
            Some(option) => out.push(option),
            None => return None,
        }
        i += 1;
    }
    assert(out.deep_view() =~= documents.map_values(|d: Json| question_option(d)->0));
    Some(out)
}

fn read_question(value: &serde_json::Value) -> (res: Option<AskUserQuestionItem>)
    ensures
        res.deep_view() == question(json::json_of(*value)),
{
    if !json::is_record(value, 4) {
        return None;
    }
    let question = match json::field(value, "question", 0) {
        Some(found) => match found.as_str() {
            Some(question) => question.to_owned(),
            None => return None,
        },
        None => return None,
    };
    let header = match read_text_or_empty(json::field(value, "header", 1)) {
        Some(header) => header,
        None => return None,
    };
    let options = match read_options(json::field(value, "options", 2)) {
        Some(options) => options,
        None => return None,
    };
    let multi_select = match json::field(value, "multiSelect", 3) {
        None => false,
        Some(found) => match found.as_bool() {
            Some(flag) => flag,
            None => return None,
        },
    };
    Some(AskUserQuestionItem { question, header, options, multi_select })
}

/// Extracts the questions from the raw input of a tool call.
#[verifier::loop_isolation(false)]
pub fn parse_ask_user_questions(raw_input: Option<&serde_json::Value>) -> (res: Option<
    Vec<AskUserQuestionItem>,
>)
    ensures
        res.deep_view() == asked_questions(
            match raw_input {
                Some(value) => Some(json::json_of(*value)),
                None => None,
            },
        ),
{
    let value = match raw_input {
        Some(value) => value,
        None => return None,
    };
    if !json::is_record(value, 1) {
        return None;
    }
    let items = match json::field(value, "questions", 0) {
        Some(found) => match found.as_array() {
            Some(items) => items,
            None => return None,
        },
        None => return None,
    };
    if items.len() == 0 {
        return None;
    }
    let ghost documents = json::jsons(items@);
    let mut out: Vec<AskUserQuestionItem> = Vec::new();
    let mut i: usize = 0;
    while i < items.len()
        invariant
            i <= items@.len(),
            documents == json::jsons(items@),
            out@.len() == i,
            forall|j: int| 0 <= j < i ==> question(#[trigger] documents[j]) == Some(out@[j]@),
        decreases items.len() - i,
    {
        assert(documents[i as int] == json::json_of(items@[i as int]));
        match read_question(&items[i]) {
            Some(question) => out.push(question),
            None => return None,
        }
        i += 1;
    }
    assert(out.deep_view() =~= documents.map_values(|d: Json| question(d)->0));
    Some(out)
}

/// Reads a text field of a raw input, such as the query of a search.
pub fn read_text_field(raw_input: &Option<serde_json::Value>, key: &str) -> (res: Option<
    String,
>)
    ensures
        res.deep_view() == text_field(json::opt_json(*raw_input), key@),
{
    match raw_input {
        None => None,
        Some(value) => if !json::is_record(value, 1) {
            None
        } else {
            match json::field(value, key, 0) {
                None => None,
                Some(found) => match found.as_str() {
                    Some(text) => Some(text.to_owned()),
                    None => None,
                },
            }
        },
    }
}

/// Reads the command of a raw input.
pub fn read_command(raw_input: &Option<serde_json::Value>) -> (res: Option<String>)
    ensures
        res.deep_view() == command_member(json::opt_json(*raw_input)),
{
    match raw_input {
        None => None,
        Some(value) => match json::member(value, "command") {
            None => None,
            Some(found) => match found.as_str() {
                Some(command) => Some(command.to_owned()),
                None => None,
            },
        },
    }
}

/// Reads what a raw input says of an edit.
pub fn read_edit_input(raw_input: &Option<serde_json::Value>) -> (res: Option<EditInput>)
    ensures
        match res {
            Some(edit) => edit_input(json::opt_json(*raw_input)) == Some(edit@),
            None => edit_input(json::opt_json(*raw_input)) is None,
        },
{
    let value = match raw_input {
        Some(value) => value,
        None => return None,
    };
    if !json::is_record(value, 4) {
        return None;
    }
    let file_path = match json::field(value, "filePath", 0) {
        Some(found) => match found.as_str() {
            Some(path) => path.to_owned(),
            None => return None,
        },
        None => return None,
    };
    let diff = match read_optional_text(json::field(value, "diff", 1)) {
        Some(diff) => diff,
        None => return None,
    };
    let old_string = match read_optional_text(json::field(value, "oldString", 2)) {
        Some(text) => text,
        None => return None,
    };
    let new_string = match read_optional_text(json::field(value, "newString", 3)) {
        Some(text) => text,
        None => return None,
    };
    Some(EditInput { file_path, diff, old_string, new_string })
}

} // verus!
