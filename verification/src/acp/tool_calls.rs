//! What is known of a tool call so far, and the conversation entry it makes.

use vstd::prelude::*;
use vstd::string::*;

use crate::json;
use crate::json::Json;
use crate::logs::{
    ActionType, ActionTypeView, CommandExitStatus, CommandRunResult, CommandRunResultView,
    FileChange, FileChangeView, NormalizedEntry, NormalizedEntryType, NormalizedEntryTypeView,
    NormalizedEntryView, ToolCallMetadata, ToolResult, ToolResultValueType, ToolResultView,
    ToolStatus, UnifiedDiff, UnifiedDiffView,
};
use crate::text;

use super::tool_inputs;
use super::types::{
    ContentBlock, Diff, ToolCall, ToolCallContent, ToolCallStatus, ToolCallView, ToolKind,
};

verus! {

/// The title under which a tool call asks the user questions.
pub const ASK_USER_QUESTION_TITLE: &'static str = "AskUserQuestion";

/// The pattern of the addresses that are looked for in a title.
pub const URL_PATTERN: &'static str = "https?://[^\\s\"')]+";

/// Whether an address ends before this character.
pub open spec fn ends_url(c: char) -> bool {
    text::white_space(c) || c == '"' || c == '\'' || c == ')'
}

/// The number of characters at the beginning of a text that an address can go
/// on with.
pub open spec fn url_run(s: Seq<char>) -> nat
    decreases s.len(),
{
    if s.len() == 0 || ends_url(s[0]) {
        0
    } else {
        1 + url_run(s.drop_first())
    }
}

/// The length of the scheme at the beginning of a text.
pub open spec fn scheme_len(s: Seq<char>) -> nat {
    if text::begins_with(s, "https://"@) {
        8
    } else if text::begins_with(s, "http://"@) {
        7
    } else {
        0
    }
}

/// The first address in a text: a scheme and the longest non-empty run of
/// characters that follows it.
pub open spec fn first_url(s: Seq<char>) -> Option<Seq<char>>
    decreases s.len(),
{
    let scheme = scheme_len(s);
    if s.len() == 0 {
        None
    } else if scheme > 0 && url_run(s.skip(scheme as int)) > 0 {
        Some(s.take((scheme + url_run(s.skip(scheme as int))) as int))
    } else {
        first_url(s.drop_first())
    }
}

/// `regex::Regex::new` reads a pattern and `Regex::find` gives its leftmost
/// match. Of the pattern of an address it is the first address of the text,
/// because `\s` stands for the Unicode property `White_Space` and a run is as long
/// as it can be.
#[verifier::external_body]
fn find_match(pattern: &str, text: &str) -> (res: Option<String>)
    requires
        pattern@ == URL_PATTERN@,
    ensures
        res.deep_view() == first_url(text@),
{
    regex::Regex::new(pattern).ok()?.find(text).map(|found| found.as_str().to_string())
}

/// The first address in a text.
pub fn extract_url_from_text(text: &str) -> (res: Option<String>)
    ensures
        res.deep_view() == first_url(text@),
{
    find_match(URL_PATTERN, text)
}

/// The index of the last hyphen of a text.
pub open spec fn last_hyphen(s: Seq<char>) -> Option<nat>
    decreases s.len(),
{
    if s.len() == 0 {
        None
    } else if s.last() == '-' {
        Some((s.len() - 1) as nat)
    } else {
        last_hyphen(s.drop_last())
    }
}

/// The name of the tool in an id that ends in a hyphen and digits.
pub open spec fn tool_name_in_id(id: Seq<char>) -> Option<Seq<char>> {
    match last_hyphen(id) {
        Some(at) => if forall|i: int| at < i < id.len() ==> text::is_digit(#[trigger] id[i]) {
            Some(id.take(at as int))
        } else {
            None
        },
        None => None,
    }
}

/// The name of the tool that an id is made from.
pub fn extract_tool_name_from_id(id: &str) -> (res: Option<String>)
    ensures
        res.deep_view() == tool_name_in_id(id@),
{
    let chars = text::chars_of(id);
    let mut at: usize = chars.len();
    assert(id@.take(at as int) == id@);
    while at > 0 && chars[at - 1] != '-'
        invariant
            at <= chars@.len(),
            chars@ == id@,
            last_hyphen(id@) == last_hyphen(id@.take(at as int)),
        decreases at,
    {
        assert(id@.take(at as int).drop_last() == id@.take(at - 1));
        at -= 1;
    }
    if at == 0 {
        assert(id@.take(0) == Seq::<char>::empty());
        return None;
    }
    assert(last_hyphen(id@) == Some((at - 1) as nat));
    let mut i: usize = at;
    while i < chars.len()
        invariant
            1 <= at <= i <= chars@.len(),
            chars@ == id@,
            last_hyphen(id@) == Some((at - 1) as nat),
            forall|j: int| at - 1 < j < i ==> text::is_digit(#[trigger] id@[j]),
        decreases chars.len() - i,
    {
        let c = chars[i];
        if !('0' <= c && c <= '9') {
            assert(!text::is_digit(id@[i as int]));
            return None;
        }
        i += 1;
    }
    let name = text::text_of(&chars, 0, at - 1);
    assert(name@ == id@.take(at - 1));
    Some(name)
}

/// The texts of some content, one after the other, each ended by a line feed.
pub open spec fn collected_text(content: Seq<ToolCallContent>) -> Seq<char>
    decreases content.len(),
{
    if content.len() == 0 {
        Seq::empty()
    } else {
        let so_far = collected_text(content.drop_last());
        match content.last() {
            ToolCallContent::Content(ContentBlock::Text(piece)) => {
                let out = so_far + piece@;
                if out.len() > 0 && out.last() == '\n' {
                    out
                } else {
                    out.push('\n')
                }
            },
            _ => so_far,
        }
    }
}

/// The collected texts of some content, where there are any.
pub open spec fn text_content(content: Seq<ToolCallContent>) -> Option<Seq<char>> {
    let text = collected_text(content);
    if text.len() == 0 {
        None
    } else {
        Some(text)
    }
}

/// Collects the texts of some content.
pub fn collect_text_content(content: &Vec<ToolCallContent>) -> (res: Option<String>)
    ensures
        res.deep_view() == text_content(content@),
{
    let mut out = String::new();
    let mut ends_in_line_feed = false;
    let mut i: usize = 0;
    assert(content@.take(0) == Seq::<ToolCallContent>::empty());
    while i < content.len()
        invariant
            i <= content@.len(),
            out@ == collected_text(content@.take(i as int)),
            ends_in_line_feed == (out@.len() > 0 && out@.last() == '\n'),
        decreases content.len() - i,
    {
        assert(content@.take(i + 1).drop_last() == content@.take(i as int));
        if let ToolCallContent::Content(ContentBlock::Text(piece)) = &content[i] {
            let ghost so_far = out@;
            out.append(piece.as_str());
            let chars = text::chars_of(piece.as_str());
            if chars.len() > 0 {
                ends_in_line_feed = chars[chars.len() - 1] == '\n';
                assert((so_far + piece@).last() == piece@.last());
            } else {
                assert(so_far + piece@ == so_far);
            }
            if !ends_in_line_feed {
                out.push('\n');
                ends_in_line_feed = true;
            }
        }
        i += 1;
    }
    assert(content@.take(i as int) == content@);
    if out.as_str().is_empty() {
        None
    } else {
        Some(out)
    }
}

/// What is known of a tool call so far.
#[derive(Debug)]
pub struct PartialToolCallData {
    pub index: usize,
    pub id: String,
    pub kind: ToolKind,
    pub title: String,
    pub status: ToolCallStatus,
    /// A status that is shown in place of the one the agent reports, while a
    /// permission request awaits the user and after it was answered.
    pub status_override: Option<ToolStatus>,
    pub path: Option<String>,
    pub content: Vec<ToolCallContent>,
    pub raw_input: Option<serde_json::Value>,
    pub raw_output: Option<serde_json::Value>,
}

#[verifier::ext_equal]
pub struct ToolDataView {
    pub index: usize,
    pub id: Seq<char>,
    pub kind: ToolKind,
    pub title: Seq<char>,
    pub status: ToolCallStatus,
    pub status_override: Option<ToolStatus>,
    pub path: Option<Seq<char>>,
    pub content: Seq<ToolCallContent>,
    pub raw_input: Option<Json>,
    pub raw_output: Option<Json>,
}

impl View for PartialToolCallData {
    type V = ToolDataView;

    open spec fn view(&self) -> ToolDataView {
        ToolDataView {
            index: self.index,
            id: self.id@,
            kind: self.kind,
            title: self.title@,
            status: self.status,
            status_override: self.status_override,
            path: self.path.deep_view(),
            content: self.content@,
            raw_input: json::opt_json(self.raw_input),
            raw_output: json::opt_json(self.raw_output),
        }
    }
}

/// The command in the title of a tool call: what stands before the note on the
/// working directory.
pub open spec fn command_in_title(title: Seq<char>) -> Seq<char> {
    text::trimmed(text::before(title, " [current working directory "@))
}

/// What a difference does to a file, which without a path of its own is the one
/// at `fallback`. A file without a text before is written anew.
pub open spec fn diff_change(diff: Diff, fallback: Seq<char>) -> FileChangeView {
    let old_text = match diff.old_text {
        Some(old_text) => old_text@,
        None => Seq::empty(),
    };
    if old_text.len() == 0 {
        FileChangeView::Write { content: diff.new_text@ }
    } else {
        FileChangeView::Edit {
            unified_diff: UnifiedDiffView::Created {
                path: if diff.path@.len() > 0 {
                    diff.path@
                } else {
                    fallback
                },
                old_text,
                new_text: diff.new_text@,
            },
            has_line_numbers: false,
        }
    }
}

/// What the differences among some content do to files.
pub open spec fn diff_changes(
    content: Seq<ToolCallContent>,
    fallback: Seq<char>,
) -> Seq<FileChangeView>
    decreases content.len(),
{
    if content.len() == 0 {
        Seq::empty()
    } else {
        let so_far = diff_changes(content.drop_last(), fallback);
        match content.last() {
            ToolCallContent::Diff(diff) => so_far.push(diff_change(diff, fallback)),
            _ => so_far,
        }
    }
}

/// What an edit described in a raw input does to a file.
pub open spec fn edit_changes(edit: tool_inputs::EditInputView) -> Seq<FileChangeView> {
    match (edit.diff, edit.old_string, edit.new_string) {
        (Some(diff), _, _) => seq![
            FileChangeView::Edit {
                unified_diff: UnifiedDiffView::Normalized { path: edit.file_path, diff },
                has_line_numbers: true,
            },
        ],
        (None, Some(old_text), Some(new_text)) => seq![
            FileChangeView::Edit {
                unified_diff: UnifiedDiffView::Created {
                    path: edit.file_path,
                    old_text,
                    new_text,
                },
                has_line_numbers: false,
            },
        ],
        _ => Seq::empty(),
    }
}

/// The status shown for the one that the agent reports.
pub open spec fn shown_status(status: ToolCallStatus) -> ToolStatus {
    match status {
        ToolCallStatus::Pending => ToolStatus::Created,
        ToolCallStatus::InProgress => ToolStatus::Created,
        ToolCallStatus::Completed => ToolStatus::Success,
        ToolCallStatus::Failed => ToolStatus::Failed,
    }
}

/// The status shown for the one that the agent reports.
pub fn convert_tool_status(status: &ToolCallStatus) -> (res: ToolStatus)
    ensures
        res == shown_status(*status),
{
    match status {
        ToolCallStatus::Pending => ToolStatus::Created,
        ToolCallStatus::InProgress => ToolStatus::Created,
        ToolCallStatus::Completed => ToolStatus::Success,
        ToolCallStatus::Failed => ToolStatus::Failed,
    }
}

impl ToolDataView {
    /// Nothing is known yet.
    pub open spec fn fresh() -> ToolDataView {
        ToolDataView {
            index: 0,
            id: Seq::empty(),
            kind: ToolKind::unset(),
            title: Seq::empty(),
            status: ToolCallStatus::unset(),
            status_override: None,
            path: None,
            content: Seq::empty(),
            raw_input: None,
            raw_output: None,
        }
    }

    /// What is known after a report, which replaces what it sets and leaves the
    /// rest.
    pub open spec fn extended(self, call: ToolCallView) -> ToolDataView {
        ToolDataView {
            index: self.index,
            id: call.tool_call_id,
            kind: if call.kind != ToolKind::unset() {
                call.kind
            } else {
                self.kind
            },
            title: if call.title.len() > 0 {
                call.title
            } else {
                self.title
            },
            status: if call.status != ToolCallStatus::unset() {
                call.status
            } else {
                self.status
            },
            status_override: self.status_override,
            path: if call.locations.len() > 0 {
                Some(call.locations[0])
            } else {
                self.path
            },
            content: if call.content.len() > 0 {
                call.content
            } else {
                self.content
            },
            raw_input: if call.raw_input is Some {
                call.raw_input
            } else {
                self.raw_input
            },
            raw_output: if call.raw_output is Some {
                call.raw_output
            } else {
                self.raw_output
            },
        }
    }

    /// The path of the file, empty where none is known.
    pub open spec fn path_text(self) -> Seq<char> {
        match self.path {
            Some(path) => path,
            None => Seq::empty(),
        }
    }

    /// The name of the tool, made from the id or else the title.
    pub open spec fn tool_name(self) -> Seq<char> {
        match tool_name_in_id(self.id) {
            Some(name) => name,
            None => self.title,
        }
    }

    /// The command that is run.
    pub open spec fn command(self) -> Seq<char> {
        match tool_inputs::command_member(self.raw_input) {
            Some(command) => command,
            None => command_in_title(self.title),
        }
    }

    /// The changes to files: those of the content, or else the edit that the
    /// raw input describes.
    pub open spec fn file_changes(self) -> Seq<FileChangeView> {
        let changes = diff_changes(self.content, self.path_text());
        if changes.len() > 0 {
            changes
        } else {
            match tool_inputs::edit_input(self.raw_input) {
                Some(edit) => edit_changes(edit),
                None => Seq::empty(),
            }
        }
    }

    /// The collected texts as a result to be read as Markdown.
    pub open spec fn markdown_result(self) -> Option<ToolResultView> {
        match text_content(self.content) {
            Some(text) => Some(
                ToolResultView {
                    value_type: ToolResultValueType::Markdown,
                    value: Json::Text(text),
                },
            ),
            None => None,
        }
    }

    /// The result: the raw output, or else the collected texts.
    pub open spec fn result(self) -> Option<ToolResultView> {
        match self.raw_output {
            Some(output) => Some(
                ToolResultView { value_type: ToolResultValueType::Json, value: output },
            ),
            None => self.markdown_result(),
        }
    }

    /// Whether the call reads many files at once.
    pub open spec fn reads_many(self) -> bool {
        text::begins_with(self.id, "read_many_files"@)
    }

    /// What the call is about. One whose raw input asks questions is a question
    /// whatever its title and kind.
    pub open spec fn action(self) -> ActionTypeView {
        match tool_inputs::asked_questions(self.raw_input) {
            Some(questions) => ActionTypeView::AskUserQuestion { questions },
            None => match self.kind {
                ToolKind::Read => if self.reads_many() {
                    ActionTypeView::Tool {
                        tool_name: "read_many_files"@,
                        arguments: Some(Json::Text(self.title)),
                        result: self.markdown_result(),
                    }
                } else {
                    ActionTypeView::FileRead { path: self.path_text() }
                },
                ToolKind::Edit => ActionTypeView::FileEdit {
                    path: self.path_text(),
                    changes: self.file_changes(),
                },
                ToolKind::Delete => ActionTypeView::FileEdit {
                    path: self.path_text(),
                    changes: seq![FileChangeView::Delete],
                },
                ToolKind::Execute => ActionTypeView::CommandRun {
                    command: self.command(),
                    result: Some(
                        CommandRunResultView {
                            exit_status: match self.status {
                                ToolCallStatus::Completed => Some(
                                    CommandExitStatus::Success { success: true },
                                ),
                                ToolCallStatus::Failed => Some(
                                    CommandExitStatus::Success { success: false },
                                ),
                                _ => None,
                            },
                            output: text_content(self.content),
                        },
                    ),
                },
                ToolKind::Search => ActionTypeView::Search {
                    query: match tool_inputs::text_field(self.raw_input, "query"@) {
                        Some(query) => query,
                        None => self.title,
                    },
                },
                ToolKind::Fetch => ActionTypeView::WebFetch { url: self.url() },
                ToolKind::Think => ActionTypeView::Tool {
                    tool_name: self.tool_name(),
                    arguments: Some(
                        match text_content(self.content) {
                            Some(text) => json::text_object(
                                seq![("title"@, self.title), ("content"@, text)],
                            ),
                            None => json::text_object(seq![("title"@, self.title)]),
                        },
                    ),
                    result: self.result(),
                },
                ToolKind::SwitchMode => ActionTypeView::Other { description: "switch_mode"@ },
                ToolKind::Move => self.other_tool(),
                ToolKind::Other => self.other_tool(),
            },
        }
    }

    /// The address that is fetched: the one in the raw input, or else the first
    /// one in the title.
    pub open spec fn url(self) -> Seq<char> {
        match tool_inputs::text_field(self.raw_input, "url"@) {
            Some(url) if url.len() > 0 => url,
            _ => match first_url(self.title) {
                Some(url) => url,
                None => Seq::empty(),
            },
        }
    }

    /// A tool of no known kind. Its arguments are the raw input, or else the
    /// document that the title is.
    pub open spec fn other_tool(self) -> ActionTypeView {
        ActionTypeView::Tool {
            tool_name: self.tool_name(),
            arguments: match self.raw_input {
                Some(input) => Some(input),
                None => if text::begins_with(text::trim_start(self.title), "{"@) {
                    json::json_parsed(self.title)
                } else {
                    None
                },
            },
            result: self.result(),
        }
    }

    /// The line that stands for the call in the conversation.
    pub open spec fn content_line(self) -> Seq<char> {
        if self.title == ASK_USER_QUESTION_TITLE@ || tool_inputs::asked_questions(
            self.raw_input,
        ) is Some {
            "Ask user question"@
        } else {
            match self.kind {
                ToolKind::Execute => self.command(),
                ToolKind::Think => "Saving memory"@,
                ToolKind::Other => {
                    let tool_name = match tool_name_in_id(self.id) {
                        Some(name) => name,
                        None => "tool"@,
                    };
                    if self.title.len() == 0 {
                        tool_name
                    } else {
                        tool_name + ": "@ + self.title
                    }
                },
                ToolKind::Read => if self.reads_many() {
                    "Read files"@
                } else {
                    match self.path {
                        Some(path) => path,
                        None => self.title,
                    }
                },
                _ => self.title,
            }
        }
    }

    /// The status that the conversation shows.
    pub open spec fn status_shown(self) -> ToolStatus {
        match self.status_override {
            Some(status) => status,
            None => shown_status(self.status),
        }
    }

    /// The entry that the call makes in the conversation.
    pub open spec fn entry(self) -> NormalizedEntryView {
        NormalizedEntryView {
            timestamp: None,
            entry_type: NormalizedEntryTypeView::ToolUse {
                tool_name: self.title,
                action_type: self.action(),
                status: self.status_shown(),
            },
            content: self.content_line(),
            metadata: Some(self.id),
        }
    }
}

impl Default for PartialToolCallData {
    fn default() -> (res: Self)
        ensures
            res@ == ToolDataView::fresh(),
    {
        PartialToolCallData {
            index: 0,
            id: String::new(),
            kind: ToolKind::Other,
            title: String::new(),
            status: ToolCallStatus::Pending,
            status_override: None,
            path: None,
            content: Vec::new(),
            raw_input: None,
            raw_output: None,
        }
    }
}

/// Reads what the events of an agent say in words.
#[derive(Debug, Clone, Copy)]
pub struct AcpEventParser;

impl AcpEventParser {
    /// The command that a tool call runs.
    pub fn parse_execute_command(tool_call: &PartialToolCallData) -> (res: String)
        ensures
            res@ == tool_call@.command(),
    {
        if let Some(command) = tool_inputs::read_command(&tool_call.raw_input) {
            return command;
        }
        let command = text::split_before(
            tool_call.title.as_str(),
            " [current working directory ",
        );
        text::trim(command.as_str())
    }
}

impl PartialToolCallData {
    /// Takes in a report on the tool call.
    pub fn extend(&mut self, call: ToolCall)
        ensures
            final(self)@ == old(self)@.extended(call@),
    {
        self.id = call.tool_call_id;
        if call.kind != ToolKind::Other {
            self.kind = call.kind;
        }
        if !call.title.as_str().is_empty() {
            self.title = call.title;
        }
        if call.status != ToolCallStatus::Pending {
            self.status = call.status;
        }
        if call.locations.len() > 0 {
            self.path = Some(call.locations[0].path.clone());
        }
        if call.content.len() > 0 {
            self.content = call.content;
        }
        if call.raw_input.is_some() {
            self.raw_input = call.raw_input;
        }
        if call.raw_output.is_some() {
            self.raw_output = call.raw_output;
        }
    }

    fn path_text(&self) -> (res: String)
        ensures
            res@ == self@.path_text(),
    {
        match &self.path {
            Some(path) => path.clone(),
            None => String::new(),
        }
    }

    /// The name of the tool, made from the id or else the title.
    pub fn tool_name(&self) -> (res: String)
        ensures
            res@ == self@.tool_name(),
    {
        match extract_tool_name_from_id(self.id.as_str()) {
            Some(name) => name,
            None => self.title.clone(),
        }
    }

    fn markdown_result(&self) -> (res: Option<ToolResult>)
        ensures
            res.deep_view() == self@.markdown_result(),
    {
        match collect_text_content(&self.content) {
            Some(text) => Some(
                ToolResult {
                    value_type: ToolResultValueType::Markdown,
                    value: json::text_value(text),
                },
            ),
            None => None,
        }
    }

    fn result(&self) -> (res: Option<ToolResult>)
        ensures
            res.deep_view() == self@.result(),
    {
        match &self.raw_output {
            Some(output) => Some(
                ToolResult { value_type: ToolResultValueType::Json, value: output.clone() },
            ),
            None => self.markdown_result(),
        }
    }

    /// What the call does to files.
    pub fn extract_file_changes(&self) -> (res: Vec<FileChange>)
        ensures
            res.deep_view() == self@.file_changes(),
    {
        let mut changes: Vec<FileChange> = Vec::new();
        let fallback = self.path_text();
        let mut i: usize = 0;
        assert(self.content@.take(0) == Seq::<ToolCallContent>::empty());
        assert(changes.deep_view() =~= Seq::empty());
        while i < self.content.len()
            invariant
                i <= self.content@.len(),
                fallback@ == self@.path_text(),
                changes.deep_view() == diff_changes(self.content@.take(i as int), fallback@),
            decreases self.content.len() - i,
        {
            assert(self.content@.take(i + 1).drop_last() == self.content@.take(i as int));
            if let ToolCallContent::Diff(diff) = &self.content[i] {
                let old_text = match &diff.old_text {
                    Some(old_text) => old_text.clone(),
                    None => String::new(),
                };
                let change = if old_text.as_str().is_empty() {
                    FileChange::Write { content: diff.new_text.clone() }
                } else {
                    let path = if diff.path.as_str().is_empty() {
                        fallback.clone()
                    } else {
                        diff.path.clone()
                    };
                    FileChange::Edit {
                        unified_diff: UnifiedDiff::Created {
                            path,
                            old_text,
                            new_text: diff.new_text.clone(),
                        },
                        has_line_numbers: false,
                    }
                };
                assert(change@ == diff_change(*diff, fallback@));
                let ghost so_far = changes.deep_view();
                changes.push(change);
                assert(changes.deep_view() =~= so_far.push(change@));
            }
            i += 1;
        }
        assert(self.content@.take(i as int) == self.content@);
        if changes.len() == 0 {
            if let Some(edit) = tool_inputs::read_edit_input(&self.raw_input) {
                if let Some(diff) = edit.diff {
                    changes.push(
                        FileChange::Edit {
                            unified_diff: UnifiedDiff::Normalized { path: edit.file_path, diff },
                            has_line_numbers: true,
                        },
                    );
                } else if let Some(old_text) = edit.old_string {
                    if let Some(new_text) = edit.new_string {
                        changes.push(
                            FileChange::Edit {
                                unified_diff: UnifiedDiff::Created {
                                    path: edit.file_path,
                                    old_text,
                                    new_text,
                                },
                                has_line_numbers: false,
                            },
                        );
                    }
                }
            }
            assert(changes.deep_view() =~= self@.file_changes());
        }
        changes
    }

    fn other_tool(&self) -> (res: ActionType)
        ensures
            res@ == self@.other_tool(),
    {
        let arguments = match &self.raw_input {
            Some(input) => Some(input.clone()),
            None => {
                let start = text::trim_start_of(self.title.as_str());
                if text::starts_with(start.as_str(), "{") {
                    match json::parse(self.title.as_str()) {
                        Ok(document) => Some(document),
                        Err(_) => None,
                    }
                } else {
                    None
                }
            },
        };
        ActionType::Tool { tool_name: self.tool_name(), arguments, result: self.result() }
    }

    /// What the call is about.
    pub fn map_to_action_type(&self) -> (res: ActionType)
        ensures
            res@ == self@.action(),
    {
        if let Some(questions) = tool_inputs::parse_ask_user_questions(self.raw_input.as_ref()) {
            return ActionType::AskUserQuestion { questions };
        }
        match self.kind {
            ToolKind::Read => {
                if text::starts_with(self.id.as_str(), "read_many_files") {
                    ActionType::Tool {
                        tool_name: "read_many_files".to_owned(),
                        arguments: Some(json::text_value(self.title.clone())),
                        result: self.markdown_result(),
                    }
                } else {
                    ActionType::FileRead { path: self.path_text() }
                }
            },
            ToolKind::Edit => ActionType::FileEdit {
                path: self.path_text(),
                changes: self.extract_file_changes(),
            },
            ToolKind::Delete => {
                let mut changes: Vec<FileChange> = Vec::new();
                changes.push(FileChange::Delete);
                assert(changes.deep_view() =~= seq![FileChangeView::Delete]);
                ActionType::FileEdit { path: self.path_text(), changes }
            },
            ToolKind::Execute => {
                let exit_status = match self.status {
                    ToolCallStatus::Completed => Some(CommandExitStatus::Success { success: true }),
                    ToolCallStatus::Failed => Some(CommandExitStatus::Success { success: false }),
                    _ => None,
                };
                ActionType::CommandRun {
                    command: AcpEventParser::parse_execute_command(self),
                    result: Some(
                        CommandRunResult {
                            exit_status,
                            output: collect_text_content(&self.content),
                        },
                    ),
                }
            },
            ToolKind::Search => {
                let query = match tool_inputs::read_text_field(&self.raw_input, "query") {
                    Some(query) => query,
                    None => self.title.clone(),
                };
                ActionType::Search { query }
            },
            ToolKind::Fetch => {
                let mut url = match tool_inputs::read_text_field(&self.raw_input, "url") {
                    Some(url) => url,
                    None => String::new(),
                };
                if url.as_str().is_empty() {
                    if let Some(extracted) = extract_url_from_text(self.title.as_str()) {
                        url = extracted;
                    }
                }
                ActionType::WebFetch { url }
            },
            ToolKind::Think => {
                let arguments = match collect_text_content(&self.content) {
                    Some(text) => {
                        proof {
                            reveal_strlit("title");
                            reveal_strlit("content");
                            assert("title"@.len() != "content"@.len());
                        }
                        json::object2("title", self.title.clone(), "content", text)
                    },
                    None => json::object1("title", self.title.clone()),
                };
                ActionType::Tool {
                    tool_name: self.tool_name(),
                    arguments: Some(arguments),
                    result: self.result(),
                }
            },
            ToolKind::SwitchMode => ActionType::Other { description: "switch_mode".to_owned() },
            ToolKind::Move => self.other_tool(),
            ToolKind::Other => self.other_tool(),
        }
    }

    /// The line that stands for the call in the conversation.
    pub fn get_tool_content(&self) -> (res: String)
        ensures
            res@ == self@.content_line(),
    {
        if *self.title.as_str() == *ASK_USER_QUESTION_TITLE
            || tool_inputs::parse_ask_user_questions(self.raw_input.as_ref()).is_some() {
            return "Ask user question".to_owned();
        }
        match self.kind {
            ToolKind::Execute => AcpEventParser::parse_execute_command(self),
            ToolKind::Think => "Saving memory".to_owned(),
            ToolKind::Other => {
                let tool_name = match extract_tool_name_from_id(self.id.as_str()) {
                    Some(name) => name,
                    None => "tool".to_owned(),
                };
                if self.title.as_str().is_empty() {
                    tool_name
                } else {
                    text::concat3(tool_name.as_str(), ": ", self.title.as_str())
                }
            },
            ToolKind::Read => {
                if text::starts_with(self.id.as_str(), "read_many_files") {
                    "Read files".to_owned()
                } else {
                    match &self.path {
                        Some(path) => path.clone(),
                        None => self.title.clone(),
                    }
                }
            },
            _ => self.title.clone(),
        }
    }

    /// The entry that the call makes in the conversation.
    pub fn build_tool_entry(&self) -> (res: NormalizedEntry)
        ensures
            res@ == self@.entry(),
    {
        let status = match &self.status_override {
            Some(status) => status.clone(),
            None => convert_tool_status(&self.status),
        };
        NormalizedEntry {
            timestamp: None,
            entry_type: NormalizedEntryType::ToolUse {
                tool_name: self.title.clone(),
                action_type: self.map_to_action_type(),
                status,
            },
            content: self.get_tool_content(),
            metadata: Some(ToolCallMetadata { tool_call_id: self.id.clone() }),
        }
    }
}

/// A tool call asks the user questions when its raw input carries some, and
/// then its entry shows them, whatever its title and kind.
pub proof fn law_questions_are_known_by_their_shape(data: ToolDataView)
    ensures
        data.action() is AskUserQuestion == tool_inputs::asked_questions(data.raw_input) is Some,
        data.action() is AskUserQuestion ==> data.content_line() == "Ask user question"@,
{
}

} // verus!
