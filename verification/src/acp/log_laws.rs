//! What holds of every conversation that is made from the events of a session.

use vstd::prelude::*;

use crate::approvals::{ApprovalStatus, PendingApprovalMeta, QuestionAnswerView, QuestionStatus};
use crate::logs::{NormalizedEntryTypeView, NormalizedEntryView, ToolStatus};

use super::normalize_logs;
use super::normalize_logs::{LogEffectView, NormalizerView, StepView, StreamingView};
use super::types::{ContentBlock, RequestPermissionRequest, ToolCallView};
use super::{AcpEvent, ApprovalResponse, QuestionResponse};

verus! {

impl NormalizerView {
    /// Every entry that is still to be changed has been added, and at most one
    /// of the two texts grows.
    pub open spec fn is_valid(self, next: usize) -> bool {
        &&& forall|id: Seq<char>| #[trigger]
            self.tools.dom().contains(id) ==> self.tools[id].index < next
        &&& self.assistant_text is Some ==> self.assistant_text->0.index < next
        &&& self.thinking_text is Some ==> self.thinking_text->0.index < next
        &&& !(self.assistant_text is Some && self.thinking_text is Some)
    }
}

/// The number of entries that some changes add.
pub open spec fn additions(effects: Seq<LogEffectView>) -> nat
    decreases effects.len(),
{
    if effects.len() == 0 {
        0
    } else {
        additions(effects.drop_last()) + if effects.last() is Add {
            1nat
        } else {
            0
        }
    }
}

/// The session ids among some changes.
pub open spec fn session_ids(effects: Seq<LogEffectView>) -> Seq<Seq<char>>
    decreases effects.len(),
{
    if effects.len() == 0 {
        Seq::empty()
    } else {
        let before = session_ids(effects.drop_last());
        match effects.last() {
            LogEffectView::PushSessionId { id } => before.push(id),
            _ => before,
        }
    }
}

/// Whether changes that begin at a conversation of `next` entries make sense:
/// entries are added one after the other, and only entries that are there are
/// replaced.
pub open spec fn well_ordered(effects: Seq<LogEffectView>, next: int) -> bool {
    forall|i: int|
        #![trigger effects[i]]
        0 <= i < effects.len() ==> {
            let there = next + additions(effects.take(i));
            match effects[i] {
                LogEffectView::PushSessionId { .. } => true,
                LogEffectView::Add { index, .. } => index == there,
                LogEffectView::Replace { index, .. } => index < there,
            }
        }
}

proof fn lemma_additions(a: Seq<LogEffectView>, b: Seq<LogEffectView>)
    ensures
        additions(a + b) == additions(a) + additions(b),
        session_ids(a + b) == session_ids(a) + session_ids(b),
    decreases b.len(),
{
    if b.len() == 0 {
        assert(a + b =~= a);
    } else {
        lemma_additions(a, b.drop_last());
        assert((a + b).drop_last() =~= a + b.drop_last());
    }
}

proof fn lemma_well_ordered(a: Seq<LogEffectView>, b: Seq<LogEffectView>, next: int)
    requires
        well_ordered(a, next),
        well_ordered(b, next + additions(a)),
    ensures
        well_ordered(a + b, next),
{
    let both = a + b;
    assert forall|i: int| #![trigger both[i]] 0 <= i < both.len() implies {
        let there = next + additions(both.take(i));
        match both[i] {
            LogEffectView::PushSessionId { .. } => true,
            LogEffectView::Add { index, .. } => index == there,
            LogEffectView::Replace { index, .. } => index < there,
        }
    } by {
        if i < a.len() {
            assert(both[i] == a[i]);
            assert(both.take(i) =~= a.take(i));
        } else {
            let j = i - a.len();
            assert(both[i] == b[j]);
            assert(both.take(i) =~= a + b.take(j));
            lemma_additions(a, b.take(j));
        }
    }
}

/// Whether a step from a valid state keeps entries in order.
pub open spec fn keeps_order(step: StepView, next: usize) -> bool {
    &&& step.state.is_valid(step.next)
    &&& well_ordered(step.effects, next as int)
    &&& step.next == next + additions(step.effects)
}

proof fn lemma_no_effect(state: NormalizerView, next: usize)
    requires
        state.is_valid(next),
    ensures
        keeps_order(state.silently(next), next),
{
}

proof fn lemma_one_effect(step: StepView, next: usize)
    requires
        step.effects.len() == 1,
        step.state.is_valid(step.next),
        match step.effects[0] {
            LogEffectView::PushSessionId { .. } => step.next == next,
            LogEffectView::Add { index, .. } => index == next && step.next == next + 1,
            LogEffectView::Replace { index, .. } => index < next && step.next == next,
        },
    ensures
        keeps_order(step, next),
{
    reveal_with_fuel(additions, 2);
    assert(step.effects.take(0) =~= Seq::empty());
    assert(step.effects.drop_last() =~= Seq::empty());
}

proof fn lemma_two_steps(first: StepView, second: StepView, next: usize)
    requires
        keeps_order(first, next),
        keeps_order(second, first.next),
    ensures
        keeps_order(StepView { effects: first.effects + second.effects, ..second }, next),
{
    lemma_additions(first.effects, second.effects);
    lemma_well_ordered(first.effects, second.effects, next as int);
}

proof fn lemma_tool_call_keeps_order(state: NormalizerView, call: ToolCallView, next: usize)
    requires
        state.is_valid(next),
        next < usize::MAX,
    ensures
        keeps_order(state.tool_call(call, next), next),
{
    lemma_one_effect(state.tool_call(call, next), next);
}

proof fn lemma_override_keeps_order(
    state: NormalizerView,
    id: Seq<char>,
    status: Option<ToolStatus>,
    next: usize,
)
    requires
        state.is_valid(next),
        state.tools.dom().contains(id),
    ensures
        keeps_order(state.overridden(id, status, next), next),
{
    lemma_one_effect(state.overridden(id, status, next), next);
}

proof fn lemma_added_keeps_order(
    state: NormalizerView,
    next: usize,
    entry: NormalizedEntryView,
)
    requires
        state.is_valid((next + 1) as usize),
        next < usize::MAX,
    ensures
        keeps_order(state.adding(next, entry), next),
{
    lemma_one_effect(state.adding(next, entry), next);
}

/// An event that comes in a valid state leads to a valid state. It adds
/// entries at the next index only and replaces entries that are there only,
/// and the next index goes up by the number of entries that were added.
pub proof fn law_step_keeps_order(state: NormalizerView, event: AcpEvent, next: usize)
    requires
        state.is_valid(next),
        next < usize::MAX,
    ensures
        keeps_order(state.step(event, next), next),
{
    let step = state.step(event, next);
    match event {
        AcpEvent::RequestPermission(request, meta) => {
            if let Some(title) = request.tool_call.title {
                let id = request.tool_call.tool_call_id@;
                let call = request.tool_call.described(title@);
                lemma_tool_call_keeps_order(state, call, next);
                let reported = state.tool_call(call, next);
                let marked = reported.state.marked_pending(id, meta, reported.next);
                if let Some(meta) = meta {
                    lemma_override_keeps_order(
                        reported.state,
                        id,
                        Some(normalize_logs::pending_status(meta)),
                        reported.next,
                    );
                } else {
                    lemma_no_effect(reported.state, reported.next);
                }
                lemma_two_steps(reported, marked, next);
            }
        },
        AcpEvent::ApprovalResponse(response) => {
            let id = response.tool_call_id@;
            let status = ToolStatus::of_approval(response.status);
            let resolved = state.resolved(id, status, next);
            if state.tools.dom().contains(id) && state.tools[id].status_override is Some {
                lemma_override_keeps_order(state, id, status, next);
            } else {
                lemma_no_effect(state, next);
            }
            if let ApprovalStatus::Denied { reason } = response.status {
                let entry = NormalizedEntryView::plain(
                    NormalizedEntryTypeView::UserFeedback {
                        denied_tool: resolved.state.denied_tool(id),
                    },
                    normalize_logs::denial_text(reason),
                );
                lemma_added_keeps_order(resolved.state, resolved.next, entry);
                lemma_two_steps(resolved, resolved.state.adding(resolved.next, entry), next);
            }
        },
        AcpEvent::QuestionResponse(response) => {
            let id = response.tool_call_id@;
            let status = Some(ToolStatus::of_question(response.status));
            let resolved = state.resolved(id, status, next);
            if state.tools.dom().contains(id) && state.tools[id].status_override is Some {
                lemma_override_keeps_order(state, id, status, next);
            } else {
                lemma_no_effect(state, next);
            }
            if let QuestionStatus::Answered { answers } = response.status {
                let entry = NormalizedEntryView::plain(
                    NormalizedEntryTypeView::UserAnsweredQuestions {
                        answers: answers.deep_view().map_values(
                            |answer: QuestionAnswerView| normalize_logs::answered(answer),
                        ),
                    },
                    normalize_logs::answered_line(answers@.len()),
                );
                lemma_added_keeps_order(resolved.state, resolved.next, entry);
                lemma_two_steps(resolved, resolved.state.adding(resolved.next, entry), next);
            }
        },
        AcpEvent::Elicitation { tool_call_id, meta } => {
            if let Some(meta) = meta {
                if state.tools.dom().contains(tool_call_id@) {
                    lemma_override_keeps_order(
                        state,
                        tool_call_id@,
                        Some(normalize_logs::pending_status(meta)),
                        next,
                    );
                }
            }
        },
        AcpEvent::ToolCall(call) => {
            lemma_tool_call_keeps_order(state, call@, next);
        },
        AcpEvent::ToolUpdate(update) => {
            lemma_tool_call_keeps_order(
                state,
                update.described(state.update_title(update)),
                next,
            );
        },
        AcpEvent::Done(_) => {
            lemma_no_effect(state.quiet(), next);
        },
        _ => {
            if step.effects.len() == 1 {
                lemma_one_effect(step, next);
            } else {
                lemma_no_effect(step.state, next);
            }
        },
    }
}

/// From the start of a session on, entries are added one after the other and
/// only entries that are there are replaced, whatever events come.
pub proof fn law_run_keeps_order(events: Seq<AcpEvent>, next: usize)
    requires
        next + events.len() <= usize::MAX,
    ensures
        ({
            let run = NormalizerView::initial().run(events, next);
            &&& keeps_order(run, next)
            &&& run.next <= next + events.len()
        }),
    decreases events.len(),
{
    if events.len() > 0 {
        law_run_keeps_order(events.drop_last(), next);
        let before = NormalizerView::initial().run(events.drop_last(), next);
        law_step_keeps_order(before.state, events.last(), before.next);
        normalize_logs::lemma_step_takes_one(before.state, events.last(), before.next);
        let last = before.state.step(events.last(), before.next);
        lemma_additions(before.effects, last.effects);
        lemma_well_ordered(before.effects, last.effects, next as int);
    }
}

/// The id of the first start among some events.
pub open spec fn first_start(events: Seq<AcpEvent>) -> Option<Seq<char>>
    decreases events.len(),
{
    if events.len() == 0 {
        None
    } else {
        match first_start(events.drop_last()) {
            Some(id) => Some(id),
            None => match events.last() {
                AcpEvent::SessionStart(id) => Some(id@),
                _ => None,
            },
        }
    }
}

/// The session id is stored once, when the session starts for the first time.
pub proof fn law_session_id_is_stored_once(events: Seq<AcpEvent>, next: usize)
    ensures
        session_ids(NormalizerView::initial().run(events, next).effects) == match first_start(
            events,
        ) {
            Some(id) => seq![id],
            None => Seq::empty(),
        },
        NormalizerView::initial().run(events, next).state.stored_session_id == first_start(
            events,
        ) is Some,
    decreases events.len(),
{
    if events.len() > 0 {
        law_session_id_is_stored_once(events.drop_last(), next);
        let before = NormalizerView::initial().run(events.drop_last(), next);
        let last = before.state.step(events.last(), before.next);
        lemma_additions(before.effects, last.effects);
        lemma_step_session_ids(before.state, events.last(), before.next);
    }
}

proof fn lemma_few_session_ids(effects: Seq<LogEffectView>)
    requires
        effects.len() <= 2,
    ensures
        (forall|i: int| 0 <= i < effects.len() ==> #[trigger] effects[i] !is PushSessionId)
            ==> session_ids(effects) == Seq::<Seq<char>>::empty(),
        effects.len() == 1 && effects[0] is PushSessionId ==> session_ids(effects) == seq![
            effects[0]->PushSessionId_id,
        ],
{
    reveal_with_fuel(session_ids, 3);
    if effects.len() == 2 {
        assert(effects.drop_last() =~= seq![effects[0]]);
        assert(effects.drop_last().drop_last() =~= Seq::empty());
    }
}

proof fn lemma_step_session_ids(state: NormalizerView, event: AcpEvent, next: usize)
    ensures
        session_ids(state.step(event, next).effects) == match event {
            AcpEvent::SessionStart(id) if !state.stored_session_id => seq![id@],
            _ => Seq::empty(),
        },
        state.step(event, next).state.stored_session_id == (state.stored_session_id || event
            is SessionStart),
{
    lemma_few_session_ids(state.step(event, next).effects);
}

/// A tool call keeps its entry: whatever comes, the call stays known and its
/// index stays the same.
pub proof fn law_tool_call_keeps_its_entry(
    state: NormalizerView,
    event: AcpEvent,
    next: usize,
    id: Seq<char>,
)
    requires
        state.tools.dom().contains(id),
    ensures
        state.step(event, next).state.tools.dom().contains(id),
        state.step(event, next).state.tools[id].index == state.tools[id].index,
{
}

/// A permission request for which an approval was created shows its tool call
/// as waiting for that approval, in the last change that it makes.
pub proof fn law_permission_request_marks_pending(
    state: NormalizerView,
    request: RequestPermissionRequest,
    meta: PendingApprovalMeta,
    next: usize,
)
    requires
        request.tool_call.title is Some,
    ensures
        ({
            let step = state.step(AcpEvent::RequestPermission(request, Some(meta)), next);
            let id = request.tool_call.tool_call_id@;
            &&& step.state.tools.dom().contains(id)
            &&& step.state.tools[id].status_override == Some(normalize_logs::pending_status(meta))
            &&& step.effects.last() == LogEffectView::Replace {
                index: step.state.tools[id].index,
                entry: step.state.tools[id].entry(),
            }
            &&& step.state.tools[id].entry().entry_type->ToolUse_status == normalize_logs::pending_status(meta)
        }),
{
}

/// A form of questions for which an approval was created shows its tool call as
/// waiting for that approval.
pub proof fn law_elicitation_marks_pending(
    state: NormalizerView,
    tool_call_id: String,
    meta: PendingApprovalMeta,
    next: usize,
)
    requires
        state.tools.dom().contains(tool_call_id@),
    ensures
        ({
            let step = state.step(AcpEvent::Elicitation { tool_call_id, meta: Some(meta) }, next);
            let data = step.state.tools[tool_call_id@];
            &&& data.status_override == Some(normalize_logs::pending_status(meta))
            &&& step.effects == seq![
                LogEffectView::Replace { index: data.index, entry: data.entry() },
            ]
            &&& data.entry().entry_type->ToolUse_status == normalize_logs::pending_status(meta)
        }),
{
}

/// While a tool call waits for an approval, and after it was answered, reports
/// of the agent do not change the status that is shown for it.
pub proof fn law_override_outlasts_reports(
    state: NormalizerView,
    call: ToolCallView,
    next: usize,
    status: ToolStatus,
)
    requires
        state.tools.dom().contains(call.tool_call_id),
        state.tools[call.tool_call_id].status_override == Some(status),
    ensures
        ({
            let step = state.tool_call(call, next);
            let data = step.state.tools[call.tool_call_id];
            &&& data.status_override == Some(status)
            &&& step.effects == seq![
                LogEffectView::Replace { index: data.index, entry: data.entry() },
            ]
            &&& data.entry().entry_type->ToolUse_status == status
        }),
{
}

/// The answer to an approval ends the waiting: the tool call shows how it was
/// answered, and a denial is followed by an entry with its reason.
pub proof fn law_approval_response_ends_waiting(
    state: NormalizerView,
    response: ApprovalResponse,
    next: usize,
)
    requires
        state.tools.dom().contains(response.tool_call_id@),
        state.tools[response.tool_call_id@].status_override is Some,
    ensures
        ({
            let step = state.step(AcpEvent::ApprovalResponse(response), next);
            let data = step.state.tools[response.tool_call_id@];
            &&& data.status_override == ToolStatus::of_approval(response.status)
            &&& step.effects[0] == LogEffectView::Replace {
                index: data.index,
                entry: data.entry(),
            }
            &&& match response.status {
                ApprovalStatus::Denied { reason } => {
                    &&& step.effects.len() == 2
                    &&& step.effects[1] is Add
                    &&& step.effects[1]->Add_entry.content == normalize_logs::denial_text(reason)
                },
                _ => step.effects.len() == 1,
            }
        }),
{
}

/// The end of a question ends the waiting: an answered one has succeeded, and
/// its answers follow in an entry of their own.
pub proof fn law_question_response_ends_waiting(
    state: NormalizerView,
    response: QuestionResponse,
    next: usize,
)
    requires
        state.tools.dom().contains(response.tool_call_id@),
        state.tools[response.tool_call_id@].status_override is Some,
    ensures
        ({
            let step = state.step(AcpEvent::QuestionResponse(response), next);
            let data = step.state.tools[response.tool_call_id@];
            &&& data.entry().entry_type->ToolUse_status == ToolStatus::of_question(
                response.status,
            )
            &&& step.effects[0] == LogEffectView::Replace {
                index: data.index,
                entry: data.entry(),
            }
            &&& match response.status {
                QuestionStatus::Answered { answers } => {
                    &&& step.effects.len() == 2
                    &&& step.effects[1] is Add
                    &&& step.effects[1]->Add_entry.entry_type is UserAnsweredQuestions
                },
                QuestionStatus::TimedOut => step.effects.len() == 1,
            }
        }),
{
}

/// An answer for a tool call that does not wait changes no entry of a tool
/// call.
pub proof fn law_unawaited_answer_changes_no_tool_call(
    state: NormalizerView,
    response: ApprovalResponse,
    next: usize,
)
    requires
        state.tools.dom().contains(response.tool_call_id@) ==> state.tools[
            response.tool_call_id@
        ].status_override is None,
    ensures
        state.step(AcpEvent::ApprovalResponse(response), next).state == state,
        forall|i: int|
            0 <= i < state.step(AcpEvent::ApprovalResponse(response), next).effects.len()
                ==> #[trigger] state.step(AcpEvent::ApprovalResponse(response), next).effects[i]
                !is Replace,
{
}

/// The text of some pieces of a message.
pub open spec fn pieces_text(pieces: Seq<String>) -> Seq<char>
    decreases pieces.len(),
{
    if pieces.len() == 0 {
        Seq::empty()
    } else {
        pieces_text(pieces.drop_last()) + pieces.last()@
    }
}

/// The events that bring some pieces of a message.
pub open spec fn message_events(pieces: Seq<String>) -> Seq<AcpEvent> {
    pieces.map_values(|piece: String| AcpEvent::Message(ContentBlock::Text(piece)))
}

/// Pieces of a message that come one after the other make one entry with the
/// whole text: the first piece adds it, and each further one replaces it.
pub proof fn law_pieces_make_one_message(state: NormalizerView, pieces: Seq<String>, next: usize)
    requires
        state.assistant_text is None,
        pieces.len() > 0,
        pieces[0]@ != "\n"@,
        next < usize::MAX,
    ensures
        ({
            let run = state.run(message_events(pieces), next);
            &&& run.state.assistant_text == Some(
                StreamingView { index: next, content: pieces_text(pieces) },
            )
            &&& run.next == next + 1
            &&& run.effects.len() == pieces.len()
            &&& run.effects[0] == (LogEffectView::Add {
                index: next,
                entry: NormalizedEntryView::plain(
                    NormalizedEntryTypeView::AssistantMessage,
                    pieces[0]@,
                ),
            })
            &&& forall|i: int|
                0 < i < pieces.len() ==> #[trigger] run.effects[i] == (LogEffectView::Replace {
                    index: next,
                    entry: NormalizedEntryView::plain(
                        NormalizedEntryTypeView::AssistantMessage,
                        pieces_text(pieces.take(i + 1)),
                    ),
                })
        }),
    decreases pieces.len(),
{
    let events = message_events(pieces);
    let shorter = pieces.drop_last();
    assert(events.drop_last() =~= message_events(shorter));
    let before = state.run(events.drop_last(), next);
    let last = before.state.step(events.last(), before.next);
    if pieces.len() == 1 {
        assert(before == state.silently(next));
        assert(pieces_text(pieces) =~= pieces[0]@) by {
            assert(pieces_text(shorter) =~= Seq::empty());
        }
        assert(before.effects + last.effects =~= last.effects);
    } else {
        assert(shorter[0] == pieces[0]);
        law_pieces_make_one_message(state, shorter, next);
        assert forall|i: int| 0 < i < pieces.len() implies #[trigger] (before.effects
            + last.effects)[i] == (LogEffectView::Replace {
            index: next,
            entry: NormalizedEntryView::plain(
                NormalizedEntryTypeView::AssistantMessage,
                pieces_text(pieces.take(i + 1)),
            ),
        }) by {
            if i < shorter.len() {
                assert(shorter.take(i + 1) =~= pieces.take(i + 1));
                assert((before.effects + last.effects)[i] == before.effects[i]);
            } else {
                assert(pieces.take(i + 1) =~= pieces);
            }
        }
    }
}

} // verus!
