//! What each event of a session makes of the conversation.

use vstd::prelude::*;

use crate::approvals::{ApprovalStatus, PendingApprovalMeta, QuestionStatus};
use crate::json;
use crate::logs::{
    ActionType, NormalizedEntry, NormalizedEntryType, ToolStatus,
};
use crate::text;

use super::normalize_logs;
use super::normalize_logs::{
    normalize_logs, EntryIndexProvider, LogEffect, LogNormalizer, NormalizerView,
};
use super::tool_calls::PartialToolCallData;
use super::types::{AvailableCommand, ContentBlock, PlanEntry, ToolCall};
use super::{AcpEvent, ApprovalResponse, QuestionResponse};

verus! {

/// The entry that a change puts into the conversation.
pub open spec fn entry_of(effect: LogEffect) -> NormalizedEntry {
    match effect {
        LogEffect::Add { entry, .. } => entry,
        LogEffect::Replace { entry, .. } => entry,
        LogEffect::PushSessionId { .. } => arbitrary(),
    }
}

/// The place of the entry that a change is about.
pub open spec fn place_of(effect: LogEffect) -> usize {
    match effect {
        LogEffect::Add { index, .. } => index,
        LogEffect::Replace { index, .. } => index,
        LogEffect::PushSessionId { .. } => 0,
    }
}

/// A plan adds one entry, with a step for each of its steps in their order: the
/// same text, the same priority, and its status where it has one.
pub proof fn law_plan_shows_its_steps(
    normalizer: &mut LogNormalizer,
    entries: Vec<PlanEntry>,
    next: &mut EntryIndexProvider,
    effects: Vec<LogEffect>,
)
    requires
        call_ensures(LogNormalizer::step, (normalizer, AcpEvent::Plan(entries), next), effects),
        old(next).next < usize::MAX,
    ensures
        effects@.len() == 1,
        final(next).next == old(next).next + 1,
        effects@[0] is Add,
        place_of(effects@[0]) == old(next).next,
        entry_of(effects@[0]).metadata is None,
        entry_of(effects@[0]).content@ == "Plan updated"@,
        entry_of(effects@[0]).entry_type matches NormalizedEntryType::ToolUse {
            tool_name,
            action_type: ActionType::TodoManagement { todos, operation },
            status,
        } && tool_name@ == "plan"@ && operation@ == "update"@ && status is Success && todos@.len()
            == entries@.len() && (forall|i: int|
            0 <= i < todos@.len() ==> {
                &&& (#[trigger] todos@[i]).content@ == entries@[i].content@
                &&& todos@[i].priority.deep_view() == entries@[i].priority.deep_view()
                &&& entries@[i].status matches Some(status) ==> todos@[i].status@ == status@
                &&& entries@[i].status is None ==> todos@[i].status@ == "unknown"@
            }),
{
    assert(effects.deep_view().len() == 1);
    assert(effects.deep_view()[0] == effects@[0].deep_view());
    let entry = entry_of(effects@[0]);
    assert(entry@.metadata is None);
    assert(entry@.entry_type is ToolUse);
    let action = entry.entry_type->ToolUse_action_type;
    assert(action@ is TodoManagement);
    let todos = action->TodoManagement_todos;
    assert(todos.deep_view() == entries@.map_values(
        |entry: PlanEntry| normalize_logs::todo_item(entry),
    ));
    assert forall|i: int| 0 <= i < todos@.len() implies (#[trigger] todos@[i])@
        == normalize_logs::todo_item(entries@[i]) by {
        assert(todos.deep_view()[i] == todos@[i]@);
    }
    assert(todos@.len() == todos.deep_view().len());
}

/// Plans that differ in the text of a step give different entries.
pub proof fn law_different_plans_show_differently(
    a: &mut LogNormalizer,
    b: &mut LogNormalizer,
    a_entries: Vec<PlanEntry>,
    b_entries: Vec<PlanEntry>,
    a_next: &mut EntryIndexProvider,
    b_next: &mut EntryIndexProvider,
    a_effects: Vec<LogEffect>,
    b_effects: Vec<LogEffect>,
    at: int,
)
    requires
        call_ensures(LogNormalizer::step, (a, AcpEvent::Plan(a_entries), a_next), a_effects),
        call_ensures(LogNormalizer::step, (b, AcpEvent::Plan(b_entries), b_next), b_effects),
        old(a_next).next < usize::MAX,
        old(b_next).next < usize::MAX,
        0 <= at < a_entries@.len(),
        at < b_entries@.len(),
        a_entries@[at].content@ != b_entries@[at].content@,
    ensures
        entry_of(a_effects@[0])@ != entry_of(b_effects@[0])@,
{
    law_plan_shows_its_steps(a, a_entries, a_next, a_effects);
    law_plan_shows_its_steps(b, b_entries, b_next, b_effects);
    let x = entry_of(a_effects@[0]).entry_type->ToolUse_action_type->TodoManagement_todos;
    let y = entry_of(b_effects@[0]).entry_type->ToolUse_action_type->TodoManagement_todos;
    assert(x@[at].content@ != y@[at].content@);
    assert(x.deep_view()[at] == x@[at]@);
    assert(y.deep_view()[at] == y@[at]@);
    if entry_of(a_effects@[0])@ == entry_of(b_effects@[0])@ {
        assert(x.deep_view() == y.deep_view());
    }
}

/// The first piece of a message, which is more than a line feed, adds it; the
/// first piece of a thought adds that.
pub proof fn law_first_piece_adds_an_entry(
    normalizer: &mut LogNormalizer,
    event: AcpEvent,
    piece: String,
    next: &mut EntryIndexProvider,
    effects: Vec<LogEffect>,
)
    requires
        call_ensures(LogNormalizer::new, (), *old(normalizer)),
        call_ensures(LogNormalizer::step, (normalizer, event, next), effects),
        old(next).next < usize::MAX,
        event == AcpEvent::Message(ContentBlock::Text(piece)) && piece@ != "\n"@ || event
            == AcpEvent::Thought(ContentBlock::Text(piece)),
    ensures
        effects@.len() == 1,
        final(next).next == old(next).next + 1,
        effects@[0] matches LogEffect::Add { index, entry } && index == old(next).next
            && entry.content@ == piece@ && entry.metadata is None && (event is Message
            ==> entry.entry_type is AssistantMessage) && (event is Thought
            ==> entry.entry_type is Thinking),
{
    assert(effects.deep_view().len() == 1);
    assert(effects.deep_view()[0] == effects@[0].deep_view());
    assert(entry_of(effects@[0])@.metadata is None);
}

/// A piece of a message that follows another one goes on in its entry, and a
/// piece of a thought in that of the thought before it: the text grows by the
/// piece, in the same place.
pub proof fn law_next_piece_grows_the_entry(
    first: &mut LogNormalizer,
    second: &mut LogNormalizer,
    event: AcpEvent,
    further: AcpEvent,
    piece: String,
    more: String,
    next: &mut EntryIndexProvider,
    later: &mut EntryIndexProvider,
    effects: Vec<LogEffect>,
    further_effects: Vec<LogEffect>,
)
    requires
        call_ensures(LogNormalizer::step, (first, event, next), effects),
        call_ensures(LogNormalizer::step, (second, further, later), further_effects),
        *old(second) == *final(first),
        old(next).next < usize::MAX,
        old(later).next < usize::MAX,
        effects@.len() == 1,
        event == AcpEvent::Message(ContentBlock::Text(piece)) && further == AcpEvent::Message(
            ContentBlock::Text(more),
        ) || event == AcpEvent::Thought(ContentBlock::Text(piece)) && further
            == AcpEvent::Thought(ContentBlock::Text(more)),
    ensures
        further_effects@.len() == 1,
        final(later).next == old(later).next,
        further_effects@[0] matches LogEffect::Replace { index, entry } && index == place_of(
            effects@[0],
        ) && entry.content@ == entry_of(effects@[0]).content@ + more@ && entry.metadata is None && (
        event is Message ==> entry.entry_type is AssistantMessage) && (event is Thought
            ==> entry.entry_type is Thinking),
{
    assert(effects.deep_view().len() == 1);
    assert(effects.deep_view()[0] == effects@[0].deep_view());
    assert(further_effects.deep_view().len() == 1);
    assert(further_effects.deep_view()[0] == further_effects@[0].deep_view());
    assert(entry_of(further_effects@[0])@.metadata is None);
}

/// A thought ends the message before it, a message the thought before it, and a
/// tool call both: what comes next has an entry of its own.
pub proof fn law_something_else_ends_a_text(
    first: &mut LogNormalizer,
    second: &mut LogNormalizer,
    event: AcpEvent,
    further: AcpEvent,
    piece: String,
    next: &mut EntryIndexProvider,
    later: &mut EntryIndexProvider,
    effects: Vec<LogEffect>,
    further_effects: Vec<LogEffect>,
)
    requires
        call_ensures(LogNormalizer::step, (first, event, next), effects),
        call_ensures(LogNormalizer::step, (second, further, later), further_effects),
        *old(second) == *final(first),
        old(next).next < usize::MAX,
        old(later).next < usize::MAX,
        further == AcpEvent::Message(ContentBlock::Text(piece)) && piece@ != "\n"@ && (
        event is Thought || event is ToolCall || event is ToolUpdate || event is Plan
            || event is Done) || further == AcpEvent::Thought(ContentBlock::Text(piece)) && (
        event is Message || event is ToolCall || event is ToolUpdate || event is Plan
            || event is Done),
    ensures
        further_effects@.len() == 1,
        further_effects@[0] matches LogEffect::Add { index, entry } && index == old(later).next
            && entry.content@ == piece@ && (further is Message
            ==> entry.entry_type is AssistantMessage) && (further is Thought
            ==> entry.entry_type is Thinking),
{
    assert(further_effects.deep_view().len() == 1);
    assert(further_effects.deep_view()[0] == further_effects@[0].deep_view());
}

/// An error, a list of commands and a mode are each shown in an entry of their
/// own.
pub proof fn law_reports_are_shown(
    normalizer: &mut LogNormalizer,
    event: AcpEvent,
    next: &mut EntryIndexProvider,
    effects: Vec<LogEffect>,
)
    requires
        call_ensures(LogNormalizer::step, (normalizer, event, next), effects),
        old(next).next < usize::MAX,
        event is Error || event is AvailableCommands || event is CurrentMode,
    ensures
        effects@.len() == 1,
        final(next).next == old(next).next + 1,
        effects@[0] matches LogEffect::Add { index, entry } && index == old(next).next
            && entry.metadata is None && (event matches AcpEvent::Error(message)
            ==> entry.entry_type is ErrorMessage && entry.content@ == message@) && (
        event matches AcpEvent::CurrentMode(mode) ==> entry.entry_type is SystemMessage
            && entry.content@ == "Current mode: "@ + mode@) && (
        event matches AcpEvent::AvailableCommands(commands) ==> entry.entry_type is SystemMessage
            && (commands@.len() == 0 ==> entry.content@ == "Available commands:\n"@)),
{
    assert(effects.deep_view().len() == 1);
    assert(effects.deep_view()[0] == effects@[0].deep_view());
    assert(entry_of(effects@[0])@.metadata is None);
}

/// A further command is listed in a line of its own after the others.
pub proof fn law_each_command_is_listed(
    a: &mut LogNormalizer,
    b: &mut LogNormalizer,
    commands: Vec<AvailableCommand>,
    more: Vec<AvailableCommand>,
    command: AvailableCommand,
    a_next: &mut EntryIndexProvider,
    b_next: &mut EntryIndexProvider,
    a_effects: Vec<LogEffect>,
    b_effects: Vec<LogEffect>,
)
    requires
        call_ensures(
            LogNormalizer::step,
            (a, AcpEvent::AvailableCommands(commands), a_next),
            a_effects,
        ),
        call_ensures(LogNormalizer::step, (b, AcpEvent::AvailableCommands(more), b_next), b_effects),
        old(a_next).next < usize::MAX,
        old(b_next).next < usize::MAX,
        more@ == commands@.push(command),
    ensures
        entry_of(b_effects@[0]).content@ == entry_of(a_effects@[0]).content@ + "- "@
            + command.name@ + "\n"@,
{
    assert(more@.drop_last() =~= commands@);
    assert(a_effects.deep_view().len() == 1);
    assert(b_effects.deep_view().len() == 1);
    assert(a_effects.deep_view()[0] == a_effects@[0].deep_view());
    assert(b_effects.deep_view()[0] == b_effects@[0].deep_view());
}

/// The id of a session is stored when it starts for the first time, and not
/// again.
pub proof fn law_first_start_is_stored(
    first: &mut LogNormalizer,
    second: &mut LogNormalizer,
    id: String,
    other: String,
    next: &mut EntryIndexProvider,
    later: &mut EntryIndexProvider,
    effects: Vec<LogEffect>,
    further_effects: Vec<LogEffect>,
)
    requires
        call_ensures(LogNormalizer::new, (), *old(first)),
        call_ensures(LogNormalizer::step, (first, AcpEvent::SessionStart(id), next), effects),
        call_ensures(
            LogNormalizer::step,
            (second, AcpEvent::SessionStart(other), later),
            further_effects,
        ),
        *old(second) == *final(first),
        old(next).next < usize::MAX,
        old(later).next < usize::MAX,
    ensures
        effects@.len() == 1,
        effects@[0] matches LogEffect::PushSessionId { id: stored } && stored@ == id@,
        further_effects@.len() == 0,
        final(next).next == old(next).next,
{
    assert(effects.deep_view().len() == 1);
    assert(effects.deep_view()[0] == effects@[0].deep_view());
    assert(further_effects.deep_view().len() == 0);
}

/// A prompt, the end of a turn, content that is no text, and what is not known
/// make no entry.
pub proof fn law_other_events_make_no_entry(
    normalizer: &mut LogNormalizer,
    event: AcpEvent,
    next: &mut EntryIndexProvider,
    effects: Vec<LogEffect>,
)
    requires
        call_ensures(LogNormalizer::step, (normalizer, event, next), effects),
        old(next).next < usize::MAX,
        event is User || event is Done || event is Other || event matches AcpEvent::Message(
            ContentBlock::Other(_),
        ) || event matches AcpEvent::Thought(ContentBlock::Other(_)),
    ensures
        effects@.len() == 0,
        final(next).next == old(next).next,
{
    assert(effects.deep_view().len() == 0);
}

/// Whether what is known of a tool call is what a first report says.
pub open spec fn is_as_reported(data: PartialToolCallData, call: ToolCall) -> bool {
    &&& data.id@ == call.tool_call_id@
    &&& data.kind == call.kind
    &&& data.title@ == call.title@
    &&& data.status == call.status
    &&& data.status_override is None
    &&& data.content@ == call.content@
    &&& data.path is Some <==> call.locations@.len() > 0
    &&& data.path is Some ==> data.path->0@ == call.locations@[0].path@
    &&& json::opt_json(data.raw_input) == json::opt_json(call.raw_input)
    &&& json::opt_json(data.raw_output) == json::opt_json(call.raw_output)
}

/// The first report on a tool call adds the entry of what it says.
pub proof fn law_first_report_adds_its_entry(
    normalizer: &mut LogNormalizer,
    call: ToolCall,
    data: PartialToolCallData,
    built: NormalizedEntry,
    next: &mut EntryIndexProvider,
    effects: Vec<LogEffect>,
)
    requires
        call_ensures(LogNormalizer::new, (), *old(normalizer)),
        call_ensures(LogNormalizer::step, (normalizer, AcpEvent::ToolCall(call), next), effects),
        call_ensures(PartialToolCallData::build_tool_entry, (&data,), built),
        is_as_reported(data, call),
        old(next).next < usize::MAX,
    ensures
        effects@.len() == 1,
        final(next).next == old(next).next + 1,
        effects@[0] matches LogEffect::Add { index, entry } && index == old(next).next && entry@
            == built@,
{
    assert(effects.deep_view().len() == 1);
    assert(effects.deep_view()[0] == effects@[0].deep_view());
    let fresh = super::tool_calls::ToolDataView::fresh().extended(call@);
    if call.locations@.len() > 0 {
        assert(call@.locations[0] == call.locations@[0].path@);
    }
    assert(data@.path == fresh.path);
    assert(call.content@.len() == 0 ==> call.content@ =~= Seq::empty());
    assert(call.title@.len() == 0 ==> call.title@ =~= Seq::empty());
    let known = super::tool_calls::ToolDataView { index: data.index, ..fresh };
    assert(data@ =~= known);
    let shown = super::tool_calls::ToolDataView { index: old(next).next, ..fresh };
    assert(known.entry() == shown.entry());
}

/// A further report on a tool call replaces its entry in its place. It has the
/// new title, or the old one where the report has none.
pub proof fn law_further_report_replaces_the_entry(
    first: &mut LogNormalizer,
    second: &mut LogNormalizer,
    call: ToolCall,
    further: ToolCall,
    next: &mut EntryIndexProvider,
    later: &mut EntryIndexProvider,
    effects: Vec<LogEffect>,
    further_effects: Vec<LogEffect>,
)
    requires
        call_ensures(LogNormalizer::step, (first, AcpEvent::ToolCall(call), next), effects),
        call_ensures(
            LogNormalizer::step,
            (second, AcpEvent::ToolCall(further), later),
            further_effects,
        ),
        *old(second) == *final(first),
        old(next).next < usize::MAX,
        old(later).next < usize::MAX,
        further.tool_call_id@ == call.tool_call_id@,
    ensures
        effects@.len() == 1,
        further_effects@.len() == 1,
        final(later).next == old(later).next,
        further_effects@[0] matches LogEffect::Replace { index, entry } && index == place_of(
            effects@[0],
        ) && entry.metadata is Some && entry.metadata->0.tool_call_id@ == call.tool_call_id@
            && entry.entry_type is ToolUse && entry.entry_type->ToolUse_tool_name@ == (
        if further.title@.len() > 0 {
            further.title@
        } else {
            entry_of(effects@[0]).entry_type->ToolUse_tool_name@
        }),
{
    assert(effects.deep_view().len() == 1);
    assert(effects.deep_view()[0] == effects@[0].deep_view());
    assert(further_effects.deep_view().len() == 1);
    assert(further_effects.deep_view()[0] == further_effects@[0].deep_view());
    let before = entry_of(effects@[0]);
    let entry = entry_of(further_effects@[0]);
    assert(entry@.metadata is Some);
    assert(before@.entry_type is ToolUse);
    assert(entry@.entry_type is ToolUse);
}

/// A permission request for which an approval was created shows its tool call as
/// waiting for that approval; one without a title shows nothing.
pub proof fn law_permission_request_waits_for_its_approval(
    normalizer: &mut LogNormalizer,
    event: AcpEvent,
    next: &mut EntryIndexProvider,
    effects: Vec<LogEffect>,
)
    requires
        call_ensures(LogNormalizer::step, (normalizer, event, next), effects),
        old(next).next < usize::MAX,
        event is RequestPermission,
    ensures
        ({
            let request = event->RequestPermission_0;
            &&& request.tool_call.title is None ==> effects@.len() == 0
            &&& request.tool_call.title is Some ==> {
                let entry = entry_of(effects@[effects@.len() - 1]);
                &&& effects@.len() == (if event->RequestPermission_1 is Some {
                    2int
                } else {
                    1
                })
                &&& forall|i: int|
                    0 <= i < effects@.len() ==> place_of(#[trigger] effects@[i]) == place_of(
                        effects@[0],
                    )
                &&& entry.metadata is Some
                &&& entry.metadata->0.tool_call_id@ == request.tool_call.tool_call_id@
                &&& entry.entry_type is ToolUse
                &&& event->RequestPermission_1 matches Some(meta)
                    ==> entry.entry_type->ToolUse_status == ToolStatus::PendingApproval {
                    approval_id: meta.approval_id,
                    requested_at: meta.requested_at,
                    timeout_at: meta.timeout_at,
                }
            }
        }),
{
    assert(effects.deep_view().len() == effects@.len());
    if event->RequestPermission_0.tool_call.title is Some {
        assert(effects.deep_view()[0] == effects@[0].deep_view());
        let last = effects@.len() - 1;
        assert(effects.deep_view()[last] == effects@[last].deep_view());
        let entry = entry_of(effects@[last]);
        assert(entry@.metadata is Some);
        assert(entry@.entry_type is ToolUse);
    }
}

/// The answer to an approval that a tool call waits for ends the waiting: its
/// entry shows whether it was denied, timed out or goes on, and a denial adds
/// what the user said.
pub proof fn law_answer_ends_the_waiting(
    first: &mut LogNormalizer,
    second: &mut LogNormalizer,
    event: AcpEvent,
    response: ApprovalResponse,
    next: &mut EntryIndexProvider,
    later: &mut EntryIndexProvider,
    effects: Vec<LogEffect>,
    further_effects: Vec<LogEffect>,
)
    requires
        call_ensures(LogNormalizer::step, (first, event, next), effects),
        call_ensures(
            LogNormalizer::step,
            (second, AcpEvent::ApprovalResponse(response), later),
            further_effects,
        ),
        *old(second) == *final(first),
        old(next).next < usize::MAX,
        old(later).next < usize::MAX,
        event is RequestPermission,
        event->RequestPermission_1 is Some,
        event->RequestPermission_0.tool_call.title is Some,
        response.tool_call_id@ == event->RequestPermission_0.tool_call.tool_call_id@,
    ensures
        further_effects@.len() == (if response.status is Denied {
            2int
        } else {
            1
        }),
        further_effects@[0] matches LogEffect::Replace { index, entry } && index == place_of(
            effects@[0],
        ) && entry.metadata is Some && entry.metadata->0.tool_call_id@ == response.tool_call_id@
            && entry.entry_type is ToolUse && (response.status is Approved
            ==> entry.entry_type->ToolUse_status is Created) && (response.status is TimedOut
            ==> entry.entry_type->ToolUse_status is TimedOut) && (
        response.status matches ApprovalStatus::Denied { reason }
            ==> entry.entry_type->ToolUse_status == ToolStatus::Denied { reason }),
        response.status matches ApprovalStatus::Denied { reason } ==> {
            &&& further_effects@[1] is Add
            &&& place_of(further_effects@[1]) == old(later).next
            &&& entry_of(further_effects@[1]).entry_type is UserFeedback
            &&& entry_of(further_effects@[1]).content@ == text::trimmed(
                match reason {
                    Some(reason) => reason@,
                    None => "User denied this tool use request"@,
                },
            )
        },
{
    assert(effects.deep_view().len() == effects@.len());
    assert(effects.deep_view()[0] == effects@[0].deep_view());
    assert(further_effects.deep_view().len() == further_effects@.len());
    assert(further_effects.deep_view()[0] == further_effects@[0].deep_view());
    let entry = entry_of(further_effects@[0]);
    assert(entry@.metadata is Some);
    assert(entry@.entry_type is ToolUse);
    if response.status is Denied {
        assert(further_effects.deep_view()[1] == further_effects@[1].deep_view());
        assert(entry_of(further_effects@[1])@.entry_type is UserFeedback);
    }
}

/// The answers to questions are shown in their order, each with its question, in
/// an entry of their own.
pub proof fn law_answers_are_shown(
    normalizer: &mut LogNormalizer,
    response: QuestionResponse,
    next: &mut EntryIndexProvider,
    effects: Vec<LogEffect>,
)
    requires
        call_ensures(
            LogNormalizer::step,
            (normalizer, AcpEvent::QuestionResponse(response), next),
            effects,
        ),
        old(next).next < usize::MAX,
    ensures
        response.status matches QuestionStatus::Answered { answers } ==> {
            let shown = entry_of(effects@[effects@.len() - 1]);
            &&& effects@.len() > 0
            &&& effects@[effects@.len() - 1] is Add
            &&& place_of(effects@[effects@.len() - 1]) == old(next).next
            &&& shown.metadata is None
            &&& shown.entry_type matches NormalizedEntryType::UserAnsweredQuestions {
                answers: list,
            } && list@.len() == answers@.len() && forall|i: int|
                0 <= i < list@.len() ==> (#[trigger] list@[i]).question@ == answers@[i].question@
                    && list@[i].answer.deep_view() == answers@[i].answer.deep_view()
        },
        response.status is TimedOut ==> forall|i: int|
            0 <= i < effects@.len() ==> (#[trigger] effects@[i]) is Replace,
{
    assert(effects.deep_view().len() == effects@.len());
    assert forall|i: int| 0 <= i < effects@.len() implies effects.deep_view()[i]
        == (#[trigger] effects@[i]).deep_view() by {}
    if let QuestionStatus::Answered { answers } = response.status {
        let last = effects@.len() - 1;
        assert(effects.deep_view()[last] == effects@[last].deep_view());
        let shown = entry_of(effects@[last]);
        assert(shown@.metadata is None);
        assert(shown@.entry_type is UserAnsweredQuestions);
        let list = shown.entry_type->UserAnsweredQuestions_answers;
        assert(list@.len() == list.deep_view().len());
        assert forall|i: int| 0 <= i < list@.len() implies (#[trigger] list@[i]).question@
            == answers@[i].question@ && list@[i].answer.deep_view()
            == answers@[i].answer.deep_view() by {
            assert(list.deep_view()[i] == list@[i]@);
            assert(answers.deep_view()[i] == answers@[i]@);
        }
    }
}

/// A form of questions for which an approval was created shows its tool call as
/// waiting for it, once that call is known.
pub proof fn law_form_waits_for_its_approval(
    first: &mut LogNormalizer,
    second: &mut LogNormalizer,
    call: ToolCall,
    id: String,
    meta: PendingApprovalMeta,
    next: &mut EntryIndexProvider,
    later: &mut EntryIndexProvider,
    effects: Vec<LogEffect>,
    further_effects: Vec<LogEffect>,
)
    requires
        call_ensures(LogNormalizer::step, (first, AcpEvent::ToolCall(call), next), effects),
        call_ensures(
            LogNormalizer::step,
            (second, AcpEvent::Elicitation { tool_call_id: id, meta: Some(meta) }, later),
            further_effects,
        ),
        *old(second) == *final(first),
        old(next).next < usize::MAX,
        old(later).next < usize::MAX,
        call.tool_call_id@ == id@,
    ensures
        further_effects@.len() == 1,
        further_effects@[0] is Replace,
        place_of(further_effects@[0]) == place_of(effects@[0]),
        entry_of(further_effects@[0]).entry_type is ToolUse,
        entry_of(further_effects@[0]).entry_type->ToolUse_status == (ToolStatus::PendingApproval {
            approval_id: meta.approval_id,
            requested_at: meta.requested_at,
            timeout_at: meta.timeout_at,
        }),
{
    assert(effects.deep_view().len() == effects@.len());
    assert(effects.deep_view()[0] == effects@[0].deep_view());
    assert(further_effects.deep_view().len() == further_effects@.len());
    assert(further_effects.deep_view()[0] == further_effects@[0].deep_view());
    assert(entry_of(further_effects@[0])@.entry_type is ToolUse);
}

/// What was made of some events stays as it is when another one comes: its
/// changes follow.
pub proof fn law_events_are_taken_in_order(
    events: Vec<AcpEvent>,
    more: Vec<AcpEvent>,
    event: AcpEvent,
    next: &mut EntryIndexProvider,
    same: &mut EntryIndexProvider,
    effects: Vec<LogEffect>,
    all: Vec<LogEffect>,
)
    requires
        call_ensures(normalize_logs, (events, next), effects),
        call_ensures(normalize_logs, (more, same), all),
        more@ == events@.push(event),
        old(same).next == old(next).next,
        old(next).next + more@.len() <= usize::MAX,
    ensures
        effects@.len() <= all@.len(),
        all.deep_view().take(effects@.len() as int) == effects.deep_view(),
        events@.len() == 0 ==> effects@.len() == 0,
{
    assert(more@.drop_last() =~= events@);
    assert(all.deep_view().len() == all@.len());
    assert(effects.deep_view().len() == effects@.len());
    assert(effects.deep_view().len() <= all.deep_view().len());
    assert(all.deep_view().take(effects@.len() as int) =~= effects.deep_view());
}

/// A single event makes of an empty conversation what a step makes of it.
pub proof fn law_single_event_is_a_step(
    events: Vec<AcpEvent>,
    normalizer: &mut LogNormalizer,
    next: &mut EntryIndexProvider,
    same: &mut EntryIndexProvider,
    all: Vec<LogEffect>,
    effects: Vec<LogEffect>,
)
    requires
        call_ensures(LogNormalizer::new, (), *old(normalizer)),
        events@.len() == 1,
        call_ensures(normalize_logs, (events, next), all),
        call_ensures(LogNormalizer::step, (normalizer, events@[0], same), effects),
        old(same).next == old(next).next,
        old(next).next < usize::MAX,
    ensures
        all.deep_view() == effects.deep_view(),
        final(next).next == final(same).next,
{
    reveal_with_fuel(NormalizerView::run, 2);
    assert(events@.drop_last() =~= Seq::empty());
    assert(all.deep_view() =~= effects.deep_view());
}

} // verus!
