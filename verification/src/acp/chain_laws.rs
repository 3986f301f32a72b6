//! What the events of a session make of the conversation one after the other.

use vstd::prelude::*;

use crate::approvals::PendingApprovalMeta;
use crate::logs::NormalizedEntry;
use crate::text;

use super::event_laws::{entry_of, is_as_reported, place_of};
use super::normalize_logs::{
    normalize_logs, EntryIndexProvider, LogEffect, LogNormalizer, NormalizerView,
};
use super::tool_calls::{PartialToolCallData, ToolDataView};
use super::types::{ContentBlock, RequestPermissionRequest, ToolCall, ToolCallUpdate};
use super::{AcpEvent, ApprovalResponse, QuestionResponse};

verus! {

proof fn lemma_effects(effects: Vec<LogEffect>)
    ensures
        effects.deep_view().len() == effects@.len(),
        forall|i: int|
            0 <= i < effects@.len() ==> effects.deep_view()[i] == (
            #[trigger] effects@[i]).deep_view(),
{
}

/// A further report on a tool call shows what is known of the call with what the
/// report sets in it.
pub proof fn law_further_report_shows_both(
    first: &mut LogNormalizer,
    second: &mut LogNormalizer,
    call: ToolCall,
    further: ToolCall,
    data: &mut PartialToolCallData,
    built: NormalizedEntry,
    next: &mut EntryIndexProvider,
    later: &mut EntryIndexProvider,
    effects: Vec<LogEffect>,
    further_effects: Vec<LogEffect>,
)
    requires
        call_ensures(LogNormalizer::new, (), *old(first)),
        call_ensures(LogNormalizer::step, (first, AcpEvent::ToolCall(call), next), effects),
        call_ensures(
            LogNormalizer::step,
            (second, AcpEvent::ToolCall(further), later),
            further_effects,
        ),
        *old(second) == *final(first),
        old(next).next < usize::MAX,
        old(later).next < usize::MAX,
        further.tool_call_id@ == call.tool_call_id@,
        is_as_reported(*old(data), call),
        call_ensures(PartialToolCallData::extend, (data, further), ()),
        call_ensures(PartialToolCallData::build_tool_entry, (final(data),), built),
    ensures
        further_effects@.len() == 1,
        further_effects@[0] is Replace,
        place_of(further_effects@[0]) == old(next).next,
        entry_of(further_effects@[0])@ == built@,
{
    lemma_effects(effects);
    lemma_effects(further_effects);
    lemma_reported(*old(data), call, old(next).next);
    let known = ToolDataView { index: old(next).next, ..ToolDataView::fresh().extended(call@) };
    let shown = known.extended(further@);
    assert(final(data)@ == old(data)@.extended(further@));
    assert(final(data)@ == ToolDataView { index: old(data).index, ..shown });
    assert(final(data)@.entry() == shown.entry());
}

proof fn lemma_reported(data: PartialToolCallData, call: ToolCall, index: usize)
    requires
        is_as_reported(data, call),
    ensures
        data@ == (ToolDataView { index: data.index, ..ToolDataView::fresh().extended(call@) }),
        data@.entry() == (ToolDataView {
            index,
            ..ToolDataView::fresh().extended(call@)
        }).entry(),
{
    let fresh = ToolDataView::fresh().extended(call@);
    if call.locations@.len() > 0 {
        assert(call@.locations[0] == call.locations@[0].path@);
    }
    assert(data@.path == fresh.path);
    assert(call.content@.len() == 0 ==> call.content@ =~= Seq::empty());
    assert(call.title@.len() == 0 ==> call.title@ =~= Seq::empty());
    let known = ToolDataView { index: data.index, ..fresh };
    assert(data@ =~= known);
    let shown = ToolDataView { index, ..fresh };
    assert(known.entry() == shown.entry());
}

/// An update with a title does what the report of the call does that it
/// describes.
pub proof fn law_update_is_like_a_report(
    a: &mut LogNormalizer,
    b: &mut LogNormalizer,
    update: ToolCallUpdate,
    call: Option<ToolCall>,
    a_next: &mut EntryIndexProvider,
    b_next: &mut EntryIndexProvider,
    a_effects: Vec<LogEffect>,
    b_effects: Vec<LogEffect>,
)
    requires
        update.title is Some,
        call_ensures(ToolCallUpdate::into_tool_call, (update,), call),
        call is Some,
        *old(a) == *old(b),
        *old(a_next) == *old(b_next),
        old(a_next).next < usize::MAX,
        call_ensures(LogNormalizer::step, (a, AcpEvent::ToolUpdate(update), a_next), a_effects),
        call_ensures(LogNormalizer::step, (b, AcpEvent::ToolCall(call->0), b_next), b_effects),
    ensures
        a_effects@.len() > 0,
        a_effects.deep_view() == b_effects.deep_view(),
        final(a)@ == final(b)@,
        final(a_next).next == final(b_next).next,
{
    lemma_effects(a_effects);
}

/// An update without a title does what it would do with the title that is known
/// of its call.
pub proof fn law_update_keeps_the_title(
    first: &mut LogNormalizer,
    a: &mut LogNormalizer,
    b: &mut LogNormalizer,
    call: ToolCall,
    bare: ToolCallUpdate,
    titled: ToolCallUpdate,
    next: &mut EntryIndexProvider,
    a_next: &mut EntryIndexProvider,
    b_next: &mut EntryIndexProvider,
    effects: Vec<LogEffect>,
    a_effects: Vec<LogEffect>,
    b_effects: Vec<LogEffect>,
)
    requires
        call_ensures(LogNormalizer::new, (), *old(first)),
        call_ensures(LogNormalizer::step, (first, AcpEvent::ToolCall(call), next), effects),
        *old(a) == *final(first),
        *old(b) == *final(first),
        old(next).next < usize::MAX,
        *old(a_next) == *old(b_next),
        old(a_next).next < usize::MAX,
        bare.tool_call_id@ == call.tool_call_id@,
        bare.title is None,
        titled.title is Some,
        titled.title->0@ == call.title@,
        titled == (ToolCallUpdate { title: titled.title, ..bare }),
        call_ensures(LogNormalizer::step, (a, AcpEvent::ToolUpdate(bare), a_next), a_effects),
        call_ensures(LogNormalizer::step, (b, AcpEvent::ToolUpdate(titled), b_next), b_effects),
    ensures
        a_effects@.len() == 1,
        a_effects@[0] is Replace,
        place_of(a_effects@[0]) == place_of(effects@[0]),
        a_effects.deep_view() == b_effects.deep_view(),
        final(a)@ == final(b)@,
{
    lemma_effects(effects);
    lemma_effects(a_effects);
    assert(call.title@.len() == 0 ==> call.title@ =~= Seq::empty());
    let known = old(a)@.tools[call.tool_call_id@];
    assert(known.title == call.title@);
    assert(bare.described(call.title@) == titled.described(call.title@));
}

/// A permission request with a title reports on its call as an update does,
/// before it marks it as waiting.
pub proof fn law_request_reports_on_its_call(
    a: &mut LogNormalizer,
    b: &mut LogNormalizer,
    request: RequestPermissionRequest,
    meta: Option<PendingApprovalMeta>,
    a_next: &mut EntryIndexProvider,
    b_next: &mut EntryIndexProvider,
    a_effects: Vec<LogEffect>,
    b_effects: Vec<LogEffect>,
)
    requires
        request.tool_call.title is Some,
        *old(a) == *old(b),
        *old(a_next) == *old(b_next),
        old(a_next).next < usize::MAX,
        call_ensures(
            LogNormalizer::step,
            (a, AcpEvent::RequestPermission(request, meta), a_next),
            a_effects,
        ),
        call_ensures(
            LogNormalizer::step,
            (b, AcpEvent::ToolUpdate(request.tool_call), b_next),
            b_effects,
        ),
    ensures
        b_effects@.len() == 1,
        a_effects@.len() >= 1,
        a_effects@[0].deep_view() == b_effects@[0].deep_view(),
        final(a_next).next == final(b_next).next,
        meta is None ==> final(a)@ == final(b)@ && a_effects@.len() == 1,
{
    lemma_effects(a_effects);
    lemma_effects(b_effects);
    assert(a_effects.deep_view()[0] == a_effects@[0].deep_view());
    assert(b_effects.deep_view()[0] == b_effects@[0].deep_view());
}

/// Different tool calls have entries of their own, and each report changes the
/// entry of its call alone.
pub proof fn law_calls_have_entries_of_their_own(
    first: &mut LogNormalizer,
    second: &mut LogNormalizer,
    third: &mut LogNormalizer,
    call: ToolCall,
    other: ToolCall,
    further: ToolCall,
    data: PartialToolCallData,
    built: NormalizedEntry,
    next: &mut EntryIndexProvider,
    later: &mut EntryIndexProvider,
    last: &mut EntryIndexProvider,
    effects: Vec<LogEffect>,
    other_effects: Vec<LogEffect>,
    further_effects: Vec<LogEffect>,
)
    requires
        call_ensures(LogNormalizer::new, (), *old(first)),
        call_ensures(LogNormalizer::step, (first, AcpEvent::ToolCall(call), next), effects),
        call_ensures(
            LogNormalizer::step,
            (second, AcpEvent::ToolCall(other), later),
            other_effects,
        ),
        call_ensures(
            LogNormalizer::step,
            (third, AcpEvent::ToolCall(further), last),
            further_effects,
        ),
        *old(second) == *final(first),
        *old(third) == *final(second),
        old(next).next < usize::MAX,
        old(later).next < usize::MAX,
        old(last).next < usize::MAX,
        other.tool_call_id@ != call.tool_call_id@,
        further.tool_call_id@ == call.tool_call_id@,
        is_as_reported(data, other),
        call_ensures(PartialToolCallData::build_tool_entry, (&data,), built),
    ensures
        other_effects@.len() == 1,
        other_effects@[0] is Add,
        place_of(other_effects@[0]) == old(later).next,
        final(later).next == old(later).next + 1,
        entry_of(other_effects@[0])@ == built@,
        further_effects@.len() == 1,
        further_effects@[0] is Replace,
        place_of(further_effects@[0]) == old(next).next,
{
    lemma_effects(effects);
    lemma_effects(other_effects);
    lemma_effects(further_effects);
    assert(other_effects.deep_view()[0] == other_effects@[0].deep_view());
    assert(further_effects.deep_view()[0] == further_effects@[0].deep_view());
    lemma_reported(data, other, old(later).next);
}

/// What is no text, no report on a tool call, no plan and no end of a turn does
/// not end a message or a thought: the next piece goes on in its entry.
pub proof fn law_other_events_do_not_end_a_text(
    first: &mut LogNormalizer,
    second: &mut LogNormalizer,
    third: &mut LogNormalizer,
    piece: AcpEvent,
    between: AcpEvent,
    further: AcpEvent,
    start: String,
    more: String,
    next: &mut EntryIndexProvider,
    later: &mut EntryIndexProvider,
    last: &mut EntryIndexProvider,
    effects: Vec<LogEffect>,
    between_effects: Vec<LogEffect>,
    further_effects: Vec<LogEffect>,
)
    requires
        call_ensures(LogNormalizer::step, (first, piece, next), effects),
        call_ensures(LogNormalizer::step, (second, between, later), between_effects),
        call_ensures(LogNormalizer::step, (third, further, last), further_effects),
        *old(second) == *final(first),
        *old(third) == *final(second),
        old(next).next < usize::MAX,
        old(later).next < usize::MAX,
        old(last).next < usize::MAX,
        effects@.len() == 1,
        piece == AcpEvent::Message(ContentBlock::Text(start)) && further == AcpEvent::Message(
            ContentBlock::Text(more),
        ) || piece == AcpEvent::Thought(ContentBlock::Text(start)) && further == AcpEvent::Thought(
            ContentBlock::Text(more),
        ),
        between is Error || between is CurrentMode || between is AvailableCommands
            || between is User || between is Other || between is SessionStart
            || between is ApprovalResponse || between is QuestionResponse
            || between is Elicitation,
    ensures
        further_effects@.len() == 1,
        further_effects@[0] is Replace,
        place_of(further_effects@[0]) == place_of(effects@[0]),
        entry_of(further_effects@[0]).content@ == entry_of(effects@[0]).content@ + more@,
{
    lemma_effects(effects);
    lemma_effects(further_effects);
    assert(effects.deep_view()[0] == effects@[0].deep_view());
    assert(further_effects.deep_view()[0] == further_effects@[0].deep_view());
}

/// The end of a question ends the waiting of its call: an answer is a success,
/// and without one in time the call says so.
pub proof fn law_end_of_a_question_ends_the_waiting(
    first: &mut LogNormalizer,
    second: &mut LogNormalizer,
    event: AcpEvent,
    response: QuestionResponse,
    next: &mut EntryIndexProvider,
    later: &mut EntryIndexProvider,
    effects: Vec<LogEffect>,
    further_effects: Vec<LogEffect>,
)
    requires
        call_ensures(LogNormalizer::step, (first, event, next), effects),
        call_ensures(
            LogNormalizer::step,
            (second, AcpEvent::QuestionResponse(response), later),
            further_effects,
        ),
        *old(second) == *final(first),
        old(next).next < usize::MAX,
        old(later).next < usize::MAX,
        event is RequestPermission,
        event->RequestPermission_1 is Some,
        event->RequestPermission_0.tool_call.title is Some,
        response.tool_call_id@ == event->RequestPermission_0.tool_call.tool_call_id@,
    ensures
        further_effects@.len() == (if response.status is Answered {
            2int
        } else {
            1
        }),
        further_effects@[0] is Replace,
        place_of(further_effects@[0]) == place_of(effects@[0]),
        entry_of(further_effects@[0]).entry_type is ToolUse,
        response.status is Answered ==> entry_of(
            further_effects@[0],
        ).entry_type->ToolUse_status is Success,
        response.status is TimedOut ==> entry_of(
            further_effects@[0],
        ).entry_type->ToolUse_status is TimedOut,
{
    lemma_effects(effects);
    lemma_effects(further_effects);
    assert(effects.deep_view()[0] == effects@[0].deep_view());
    assert(further_effects.deep_view()[0] == further_effects@[0].deep_view());
    assert(entry_of(further_effects@[0])@.entry_type is ToolUse);
}

/// The line over answers says how many there are.
pub proof fn law_answers_are_counted(
    normalizer: &mut LogNormalizer,
    response: QuestionResponse,
    count: u64,
    digits: String,
    next: &mut EntryIndexProvider,
    effects: Vec<LogEffect>,
)
    requires
        call_ensures(
            LogNormalizer::step,
            (normalizer, AcpEvent::QuestionResponse(response), next),
            effects,
        ),
        call_ensures(text::decimal_of, (count,), digits),
        old(next).next < usize::MAX,
        response.status is Answered,
        response.status->answers@.len() == count,
    ensures
        effects@.len() > 0,
        count == 1 ==> entry_of(effects@.last()).content@ == "Answered "@ + digits@ + " question"@,
        count != 1 ==> entry_of(effects@.last()).content@ == "Answered "@ + digits@
            + " questions"@,
{
    lemma_effects(effects);
    let last = effects@.len() - 1;
    assert(effects.deep_view()[last] == effects@[last].deep_view());
    reveal_strlit("s");
    reveal_strlit("");
    reveal_strlit(" question");
    reveal_strlit(" questions");
    assert(" question"@ + "s"@ =~= " questions"@);
    let start = "Answered "@ + digits@;
    assert(start + " question"@ + "s"@ =~= start + (" question"@ + "s"@));
    assert(start + " question"@ + ""@ =~= start + " question"@);
}

/// A denial names the tool of the call that it is about.
pub proof fn law_denial_names_the_tool(
    first: &mut LogNormalizer,
    second: &mut LogNormalizer,
    call: ToolCall,
    data: PartialToolCallData,
    name: String,
    response: ApprovalResponse,
    next: &mut EntryIndexProvider,
    later: &mut EntryIndexProvider,
    effects: Vec<LogEffect>,
    further_effects: Vec<LogEffect>,
)
    requires
        call_ensures(LogNormalizer::new, (), *old(first)),
        call_ensures(LogNormalizer::step, (first, AcpEvent::ToolCall(call), next), effects),
        call_ensures(
            LogNormalizer::step,
            (second, AcpEvent::ApprovalResponse(response), later),
            further_effects,
        ),
        *old(second) == *final(first),
        old(next).next < usize::MAX,
        old(later).next < usize::MAX,
        response.tool_call_id@ == call.tool_call_id@,
        response.status is Denied,
        is_as_reported(data, call),
        call_ensures(PartialToolCallData::tool_name, (&data,), name),
    ensures
        further_effects@.len() == 1,
        further_effects@[0] is Add,
        place_of(further_effects@[0]) == old(later).next,
        entry_of(further_effects@[0]).entry_type is UserFeedback,
        entry_of(further_effects@[0]).entry_type->UserFeedback_denied_tool@ == name@,
{
    lemma_effects(further_effects);
    assert(further_effects.deep_view()[0] == further_effects@[0].deep_view());
    lemma_reported(data, call, old(next).next);
    assert(entry_of(further_effects@[0])@.entry_type is UserFeedback);
}

/// An answer to nothing that waits changes no entry; only a denial is still
/// shown.
pub proof fn law_answer_to_nothing_changes_nothing(
    normalizer: &mut LogNormalizer,
    response: ApprovalResponse,
    next: &mut EntryIndexProvider,
    effects: Vec<LogEffect>,
)
    requires
        call_ensures(LogNormalizer::new, (), *old(normalizer)),
        call_ensures(
            LogNormalizer::step,
            (normalizer, AcpEvent::ApprovalResponse(response), next),
            effects,
        ),
        old(next).next < usize::MAX,
    ensures
        response.status !is Denied ==> effects@.len() == 0 && final(next).next == old(next).next,
        response.status is Denied ==> effects@.len() == 1 && effects@[0] is Add,
{
    lemma_effects(effects);
    if response.status is Denied {
        assert(effects.deep_view()[0] == effects@[0].deep_view());
    }
}

/// Indices are handed out one after the other.
pub proof fn law_indices_follow_each_other(
    start: usize,
    made: EntryIndexProvider,
    provider: &mut EntryIndexProvider,
    index: usize,
)
    requires
        call_ensures(EntryIndexProvider::start_from, (start,), made),
        old(provider).next < usize::MAX,
        call_ensures(EntryIndexProvider::next, (provider,), index),
    ensures
        made.next == start,
        index == old(provider).next,
        final(provider).next == index + 1,
{
}

/// A lone line feed starts no message, and goes on in one that has started.
pub proof fn law_line_feed_starts_no_message(
    fresh: &mut LogNormalizer,
    piece: String,
    next: &mut EntryIndexProvider,
    effects: Vec<LogEffect>,
)
    requires
        call_ensures(LogNormalizer::new, (), *old(fresh)),
        call_ensures(
            LogNormalizer::step,
            (fresh, AcpEvent::Message(ContentBlock::Text(piece)), next),
            effects,
        ),
        old(next).next < usize::MAX,
        piece@ == "\n"@,
    ensures
        effects@.len() == 0,
        final(next).next == old(next).next,
{
    lemma_effects(effects);
}

/// A form of questions without an approval, or for a call that is not known,
/// changes nothing.
pub proof fn law_form_without_approval_changes_nothing(
    normalizer: &mut LogNormalizer,
    fresh: &mut LogNormalizer,
    id: String,
    meta: Option<PendingApprovalMeta>,
    next: &mut EntryIndexProvider,
    other_next: &mut EntryIndexProvider,
    effects: Vec<LogEffect>,
    other_effects: Vec<LogEffect>,
)
    requires
        call_ensures(LogNormalizer::new, (), *old(fresh)),
        call_ensures(
            LogNormalizer::step,
            (normalizer, AcpEvent::Elicitation { tool_call_id: id, meta: None }, next),
            effects,
        ),
        call_ensures(
            LogNormalizer::step,
            (fresh, AcpEvent::Elicitation { tool_call_id: id, meta }, other_next),
            other_effects,
        ),
        old(next).next < usize::MAX,
        old(other_next).next < usize::MAX,
    ensures
        effects@.len() == 0,
        final(normalizer)@ == old(normalizer)@,
        other_effects@.len() == 0,
{
    lemma_effects(effects);
    lemma_effects(other_effects);
}

/// An answer to a call that is known but does not wait changes no entry.
pub proof fn law_answer_to_a_running_call_changes_nothing(
    first: &mut LogNormalizer,
    second: &mut LogNormalizer,
    call: ToolCall,
    response: ApprovalResponse,
    next: &mut EntryIndexProvider,
    later: &mut EntryIndexProvider,
    effects: Vec<LogEffect>,
    further_effects: Vec<LogEffect>,
)
    requires
        call_ensures(LogNormalizer::new, (), *old(first)),
        call_ensures(LogNormalizer::step, (first, AcpEvent::ToolCall(call), next), effects),
        call_ensures(
            LogNormalizer::step,
            (second, AcpEvent::ApprovalResponse(response), later),
            further_effects,
        ),
        *old(second) == *final(first),
        old(next).next < usize::MAX,
        old(later).next < usize::MAX,
        response.status !is Denied,
    ensures
        further_effects@.len() == 0,
        final(second)@ == old(second)@,
{
    lemma_effects(further_effects);
}

/// A status that an answer set stays when the call is reported on again.
pub proof fn law_status_of_an_answer_stays(
    first: &mut LogNormalizer,
    second: &mut LogNormalizer,
    third: &mut LogNormalizer,
    event: AcpEvent,
    response: ApprovalResponse,
    further: ToolCall,
    next: &mut EntryIndexProvider,
    later: &mut EntryIndexProvider,
    last: &mut EntryIndexProvider,
    effects: Vec<LogEffect>,
    response_effects: Vec<LogEffect>,
    further_effects: Vec<LogEffect>,
)
    requires
        call_ensures(LogNormalizer::step, (first, event, next), effects),
        call_ensures(
            LogNormalizer::step,
            (second, AcpEvent::ApprovalResponse(response), later),
            response_effects,
        ),
        call_ensures(
            LogNormalizer::step,
            (third, AcpEvent::ToolCall(further), last),
            further_effects,
        ),
        *old(second) == *final(first),
        *old(third) == *final(second),
        old(next).next < usize::MAX,
        old(later).next < usize::MAX,
        old(last).next < usize::MAX,
        event is RequestPermission,
        event->RequestPermission_1 is Some,
        event->RequestPermission_0.tool_call.title is Some,
        response.tool_call_id@ == event->RequestPermission_0.tool_call.tool_call_id@,
        further.tool_call_id@ == response.tool_call_id@,
        response.status !is Pending,
    ensures
        further_effects@.len() == 1,
        place_of(further_effects@[0]) == place_of(response_effects@[0]),
        entry_of(further_effects@[0]).entry_type is ToolUse,
        entry_of(further_effects@[0]).entry_type->ToolUse_status == entry_of(
            response_effects@[0],
        ).entry_type->ToolUse_status,
{
    lemma_effects(effects);
    lemma_effects(response_effects);
    lemma_effects(further_effects);
    assert(response_effects.deep_view()[0] == response_effects@[0].deep_view());
    assert(further_effects.deep_view()[0] == further_effects@[0].deep_view());
    assert(entry_of(response_effects@[0])@.entry_type is ToolUse);
    assert(entry_of(further_effects@[0])@.entry_type is ToolUse);
}

/// Two events make of an empty conversation what a step for each of them makes of
/// it, the second from where the first one left off.
pub proof fn law_two_events_are_two_steps(
    events: Vec<AcpEvent>,
    first: &mut LogNormalizer,
    second: &mut LogNormalizer,
    next: &mut EntryIndexProvider,
    start: &mut EntryIndexProvider,
    later: &mut EntryIndexProvider,
    all: Vec<LogEffect>,
    effects: Vec<LogEffect>,
    further_effects: Vec<LogEffect>,
)
    requires
        call_ensures(LogNormalizer::new, (), *old(first)),
        events@.len() == 2,
        call_ensures(normalize_logs, (events, next), all),
        call_ensures(LogNormalizer::step, (first, events@[0], start), effects),
        call_ensures(LogNormalizer::step, (second, events@[1], later), further_effects),
        *old(second) == *final(first),
        *old(later) == *final(start),
        old(start).next == old(next).next,
        old(next).next + 2 <= usize::MAX,
    ensures
        all.deep_view() == effects.deep_view() + further_effects.deep_view(),
        final(next).next == final(later).next,
{
    super::normalize_logs::lemma_step_takes_one(old(first)@, events@[0], old(start).next);
    reveal_with_fuel(NormalizerView::run, 3);
    let before = events@.drop_last();
    assert(before.last() == events@[0]);
    assert(before.drop_last() =~= Seq::empty());
    assert(events@.last() == events@[1]);
    assert(all.deep_view() =~= effects.deep_view() + further_effects.deep_view());
}

} // verus!
