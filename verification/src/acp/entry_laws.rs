//! Which entries of a conversation belong to which tool call.

use vstd::prelude::*;

use crate::logs::ToolStatus;

use super::log_laws;
use super::normalize_logs;
use super::normalize_logs::{LogEffectView, NormalizerView, StepView};
use super::tool_calls::ToolDataView;
use super::types::ToolCallView;
use super::AcpEvent;

verus! {

impl LogEffectView {
    /// The entry that a change is about, if it is about one.
    pub open spec fn entry_index(self) -> Option<usize> {
        match self {
            LogEffectView::PushSessionId { .. } => None,
            LogEffectView::Add { index, .. } => Some(index),
            LogEffectView::Replace { index, .. } => Some(index),
        }
    }

    /// The tool call that a change shows, if it shows one.
    pub open spec fn tool_call_id(self) -> Option<Seq<char>> {
        match self {
            LogEffectView::PushSessionId { .. } => None,
            LogEffectView::Add { entry, .. } => entry.metadata,
            LogEffectView::Replace { entry, .. } => entry.metadata,
        }
    }
}

/// Whether each tool call has one entry, which is no entry of anything else: it
/// is added once, before it is replaced, and is replaced where it was added; and
/// whether no two entries are added under the same index.
pub open spec fn one_entry_each(effects: Seq<LogEffectView>) -> bool {
    &&& forall|i: int, j: int|
        #![trigger effects[i], effects[j]]
        0 <= i < j < effects.len() && effects[i].tool_call_id() is Some
            && effects[j].tool_call_id() == effects[i].tool_call_id() ==> effects[j] is Replace
            && effects[j].entry_index() == effects[i].entry_index()
    &&& forall|j: int|
        #![trigger effects[j]]
        0 <= j < effects.len() && effects[j] is Replace && effects[j].tool_call_id() is Some
            ==> exists|i: int|
            #![trigger effects[i]]
            0 <= i < j && effects[i] is Add && effects[i].tool_call_id()
                == effects[j].tool_call_id()
    &&& forall|i: int, j: int|
        #![trigger effects[i], effects[j]]
        0 <= i < effects.len() && 0 <= j < effects.len() && effects[i].tool_call_id() is Some
            && effects[j].entry_index() is Some && effects[j].tool_call_id()
            != effects[i].tool_call_id() ==> effects[j].entry_index() != effects[i].entry_index()
    &&& forall|i: int, j: int|
        #![trigger effects[i], effects[j]]
        0 <= i < j < effects.len() && effects[i] is Add && effects[j] is Add
            ==> effects[i].entry_index() != effects[j].entry_index()
}

/// Whether an index is that of an entry that was added and shows no tool call.
spec fn is_free_of_tools(state: NormalizerView, next: int, index: usize) -> bool {
    &&& index < next
    &&& forall|id: Seq<char>| #[trigger]
        state.tools.dom().contains(id) ==> state.tools[id].index != index
}

/// Whether the texts that grow are shown by entries of their own.
spec fn texts_stand_apart(state: NormalizerView, next: int) -> bool {
    &&& state.assistant_text is Some ==> is_free_of_tools(
        state,
        next,
        state.assistant_text->0.index,
    )
    &&& state.thinking_text is Some ==> is_free_of_tools(
        state,
        next,
        state.thinking_text->0.index,
    )
}

/// Whether a tool call was added by some changes.
spec fn was_added(effects: Seq<LogEffectView>, id: Seq<char>) -> bool {
    exists|i: int|
        #![trigger effects[i]]
        0 <= i < effects.len() && effects[i] is Add && effects[i].tool_call_id() == Some(id)
}

/// Whether a state fits the changes that were made so far.
#[verifier::opaque]
spec fn accounts_for(state: NormalizerView, next: int, effects: Seq<LogEffectView>) -> bool {
    &&& one_entry_each(effects)
    &&& forall|i: int|
        #![trigger effects[i]]
        0 <= i < effects.len() && effects[i].entry_index() is Some ==> effects[i].entry_index()->0
            < next
    &&& forall|i: int|
        #![trigger effects[i]]
        0 <= i < effects.len() && effects[i].tool_call_id() is Some ==> state.tools.dom().contains(
            effects[i].tool_call_id()->0,
        ) && effects[i].entry_index() == Some(
            state.tools[effects[i].tool_call_id()->0].index,
        )
    &&& forall|i: int|
        #![trigger effects[i]]
        0 <= i < effects.len() && effects[i].entry_index() is Some
            && effects[i].tool_call_id() is None ==> is_free_of_tools(
            state,
            next,
            effects[i].entry_index()->0,
        )
    &&& forall|id: Seq<char>| #[trigger]
        state.tools.dom().contains(id) ==> state.tools[id].id == id && state.tools[id].index < next
            && was_added(effects, id)
    &&& forall|a: Seq<char>, b: Seq<char>| #[trigger]
        state.tools.dom().contains(a) && #[trigger] state.tools.dom().contains(b) && a != b
            ==> state.tools[a].index != state.tools[b].index
    &&& texts_stand_apart(state, next)
}

proof fn lemma_was_added(effects: Seq<LogEffectView>, effect: LogEffectView, id: Seq<char>)
    requires
        was_added(effects, id),
    ensures
        was_added(effects.push(effect), id),
{
    let i = choose|i: int|
        #![trigger effects[i]]
        0 <= i < effects.len() && effects[i] is Add && effects[i].tool_call_id() == Some(id);
    assert(effects.push(effect)[i] == effects[i]);
}

proof fn lemma_no_change(
    state: NormalizerView,
    next: int,
    effects: Seq<LogEffectView>,
    after: NormalizerView,
)
    requires
        accounts_for(state, next, effects),
        after.tools == state.tools,
        texts_stand_apart(after, next),
    ensures
        accounts_for(after, next, effects),
{
    reveal(accounts_for);
    assert forall|i: int|
        #![trigger effects[i]]
        0 <= i < effects.len() && effects[i].entry_index() is Some
            && effects[i].tool_call_id() is None implies is_free_of_tools(
        after,
        next,
        effects[i].entry_index()->0,
    ) by {
        assert(is_free_of_tools(state, next, effects[i].entry_index()->0));
    }
}

/// An effect about an entry that shows no tool call, or about none.
proof fn lemma_plain_effect(
    state: NormalizerView,
    next: int,
    effects: Seq<LogEffectView>,
    after: NormalizerView,
    after_next: int,
    effect: LogEffectView,
)
    requires
        accounts_for(state, next, effects),
        after.tools == state.tools,
        texts_stand_apart(after, after_next),
        effect.tool_call_id() is None,
        match effect {
            LogEffectView::PushSessionId { .. } => after_next == next,
            LogEffectView::Add { index, .. } => index == next && after_next == next + 1,
            LogEffectView::Replace { index, .. } => is_free_of_tools(state, next, index)
                && after_next == next,
        },
    ensures
        accounts_for(after, after_next, effects.push(effect)),
{
    reveal(accounts_for);
    let all = effects.push(effect);
    assert forall|i: int| 0 <= i < effects.len() implies #[trigger] all[i] == effects[i] by {}
    assert(all[effects.len() as int] == effect);
    assert(one_entry_each(all)) by {
        assert forall|j: int|
            #![trigger all[j]]
            0 <= j < all.len() && all[j] is Replace && all[j].tool_call_id() is Some implies exists|
            i: int,
        |
            #![trigger all[i]]
            0 <= i < j && all[i] is Add && all[i].tool_call_id() == all[j].tool_call_id() by {
            assert(effects[j] == all[j]);
            let i = choose|i: int|
                #![trigger effects[i]]
                0 <= i < j && effects[i] is Add && effects[i].tool_call_id()
                    == effects[j].tool_call_id();
            assert(all[i] == effects[i]);
        }
    }
    assert forall|i: int|
        #![trigger all[i]]
        0 <= i < all.len() && all[i].entry_index() is Some
            && all[i].tool_call_id() is None implies is_free_of_tools(
        after,
        after_next,
        all[i].entry_index()->0,
    ) by {
        if i < effects.len() {
            assert(is_free_of_tools(state, next, effects[i].entry_index()->0));
        }
    }
    assert forall|id: Seq<char>| #[trigger] after.tools.dom().contains(id) implies after.tools[id].id
        == id && after.tools[id].index < after_next && was_added(all, id) by {
        assert(state.tools.dom().contains(id));
        lemma_was_added(effects, effect, id);
    }
}

/// The first report on a tool call.
proof fn lemma_new_tool(
    state: NormalizerView,
    next: usize,
    effects: Seq<LogEffectView>,
    id: Seq<char>,
    data: ToolDataView,
    after: NormalizerView,
)
    requires
        accounts_for(state, next as int, effects),
        !state.tools.dom().contains(id),
        data.id == id,
        data.index == next,
        after == state.quiet().with_tool(id, data),
    ensures
        accounts_for(
            after,
            next + 1,
            effects.push(LogEffectView::Add { index: next, entry: data.entry() }),
        ),
{
    reveal(accounts_for);
    let effect = LogEffectView::Add { index: next, entry: data.entry() };
    let all = effects.push(effect);
    assert forall|i: int| 0 <= i < effects.len() implies #[trigger] all[i] == effects[i] by {}
    assert(all[effects.len() as int] == effect);
    assert(effect.tool_call_id() == Some(id));
    assert(one_entry_each(all)) by {
        assert forall|j: int|
            #![trigger all[j]]
            0 <= j < all.len() && all[j] is Replace && all[j].tool_call_id() is Some implies exists|
            i: int,
        |
            #![trigger all[i]]
            0 <= i < j && all[i] is Add && all[i].tool_call_id() == all[j].tool_call_id() by {
            assert(effects[j] == all[j]);
            let i = choose|i: int|
                #![trigger effects[i]]
                0 <= i < j && effects[i] is Add && effects[i].tool_call_id()
                    == effects[j].tool_call_id();
            assert(all[i] == effects[i]);
        }
    }
    assert forall|i: int|
        #![trigger all[i]]
        0 <= i < all.len() && all[i].entry_index() is Some
            && all[i].tool_call_id() is None implies is_free_of_tools(
        after,
        next + 1,
        all[i].entry_index()->0,
    ) by {
        assert(is_free_of_tools(state, next as int, effects[i].entry_index()->0));
    }
    assert forall|other: Seq<char>| #[trigger]
        after.tools.dom().contains(other) implies after.tools[other].id == other
        && after.tools[other].index < next + 1 && was_added(all, other) by {
        if other == id {
            assert(all[effects.len() as int] is Add);
        } else {
            assert(state.tools.dom().contains(other));
            lemma_was_added(effects, effect, other);
        }
    }
}

/// A change to the entry of a known tool call.
proof fn lemma_known_tool(
    state: NormalizerView,
    next: int,
    effects: Seq<LogEffectView>,
    id: Seq<char>,
    data: ToolDataView,
    after: NormalizerView,
)
    requires
        accounts_for(state, next, effects),
        state.tools.dom().contains(id),
        data.id == id,
        data.index == state.tools[id].index,
        after.tools == state.tools.insert(id, data),
        after.assistant_text is Some ==> after.assistant_text == state.assistant_text,
        after.thinking_text is Some ==> after.thinking_text == state.thinking_text,
    ensures
        accounts_for(
            after,
            next,
            effects.push(LogEffectView::Replace { index: data.index, entry: data.entry() }),
        ),
{
    reveal(accounts_for);
    let effect = LogEffectView::Replace { index: data.index, entry: data.entry() };
    let all = effects.push(effect);
    assert forall|i: int| 0 <= i < effects.len() implies #[trigger] all[i] == effects[i] by {}
    assert(all[effects.len() as int] == effect);
    assert(effect.tool_call_id() == Some(id));
    assert(one_entry_each(all)) by {
        assert forall|j: int|
            #![trigger all[j]]
            0 <= j < all.len() && all[j] is Replace && all[j].tool_call_id() is Some implies exists|
            i: int,
        |
            #![trigger all[i]]
            0 <= i < j && all[i] is Add && all[i].tool_call_id() == all[j].tool_call_id() by {
            if j < effects.len() {
                assert(effects[j] == all[j]);
                let i = choose|i: int|
                    #![trigger effects[i]]
                    0 <= i < j && effects[i] is Add && effects[i].tool_call_id()
                        == effects[j].tool_call_id();
                assert(all[i] == effects[i]);
            } else {
                assert(was_added(effects, id));
                let i = choose|i: int|
                    #![trigger effects[i]]
                    0 <= i < effects.len() && effects[i] is Add && effects[i].tool_call_id()
                        == Some(id);
                assert(all[i] == effects[i]);
            }
        }
    }
    assert forall|i: int|
        #![trigger all[i]]
        0 <= i < all.len() && all[i].entry_index() is Some
            && all[i].tool_call_id() is None implies is_free_of_tools(
        after,
        next,
        all[i].entry_index()->0,
    ) by {
        assert(is_free_of_tools(state, next, effects[i].entry_index()->0));
    }
    assert forall|other: Seq<char>| #[trigger]
        after.tools.dom().contains(other) implies after.tools[other].id == other
        && after.tools[other].index < next && was_added(all, other) by {
        assert(state.tools.dom().contains(other));
        lemma_was_added(effects, effect, other);
    }
}

proof fn lemma_tool_call(
    state: NormalizerView,
    next: usize,
    effects: Seq<LogEffectView>,
    call: ToolCallView,
)
    requires
        accounts_for(state, next as int, effects),
        next < usize::MAX,
    ensures
        ({
            let step = state.tool_call(call, next);
            accounts_for(step.state, step.next as int, effects + step.effects)
        }),
{
    let step = state.tool_call(call, next);
    let id = call.tool_call_id;
    assert(effects + step.effects =~= effects.push(step.effects[0]));
    if state.tools.dom().contains(id) {
        lemma_known_tool(
            state,
            next as int,
            effects,
            id,
            state.tools[id].extended(call),
            step.state,
        );
    } else {
        let data = ToolDataView { index: next, ..ToolDataView::fresh().extended(call) };
        lemma_new_tool(state, next, effects, id, data, step.state);
    }
}

proof fn lemma_override(
    state: NormalizerView,
    next: usize,
    effects: Seq<LogEffectView>,
    id: Seq<char>,
    status: Option<ToolStatus>,
)
    requires
        accounts_for(state, next as int, effects),
        state.tools.dom().contains(id),
    ensures
        ({
            let step = state.overridden(id, status, next);
            accounts_for(step.state, step.next as int, effects + step.effects)
        }),
{
    reveal(accounts_for);
    let step = state.overridden(id, status, next);
    let data = ToolDataView { status_override: status, ..state.tools[id] };
    assert(effects + step.effects =~= effects.push(step.effects[0]));
    lemma_known_tool(state, next as int, effects, id, data, step.state);
}

proof fn lemma_resolved(
    state: NormalizerView,
    next: usize,
    effects: Seq<LogEffectView>,
    id: Seq<char>,
    status: Option<ToolStatus>,
)
    requires
        accounts_for(state, next as int, effects),
    ensures
        ({
            let step = state.resolved(id, status, next);
            accounts_for(step.state, step.next as int, effects + step.effects)
        }),
{
    if state.tools.dom().contains(id) && state.tools[id].status_override is Some {
        lemma_override(state, next, effects, id, status);
    } else {
        assert(effects + Seq::empty() =~= effects);
    }
}

proof fn lemma_texts(state: NormalizerView, next: int, effects: Seq<LogEffectView>)
    requires
        accounts_for(state, next, effects),
    ensures
        texts_stand_apart(state, next),
        forall|id: Seq<char>| #[trigger]
            state.tools.dom().contains(id) ==> state.tools[id].index < next,
{
    reveal(accounts_for);
}

/// A step that makes at most one change, which shows no tool call.
proof fn lemma_plain_step(
    state: NormalizerView,
    next: usize,
    effects: Seq<LogEffectView>,
    step: StepView,
)
    requires
        accounts_for(state, next as int, effects),
        step.state.tools == state.tools,
        texts_stand_apart(step.state, step.next as int),
        step.effects.len() == 0 ==> step.next == next,
        step.effects.len() <= 1,
        step.effects.len() == 1 ==> {
            &&& step.effects[0].tool_call_id() is None
            &&& match step.effects[0] {
                LogEffectView::PushSessionId { .. } => step.next == next,
                LogEffectView::Add { index, .. } => index == next && step.next == next + 1,
                LogEffectView::Replace { index, .. } => is_free_of_tools(
                    state,
                    next as int,
                    index,
                ) && step.next == next,
            }
        },
    ensures
        accounts_for(step.state, step.next as int, effects + step.effects),
{
    if step.effects.len() == 0 {
        assert(effects + step.effects =~= effects);
        lemma_no_change(state, next as int, effects, step.state);
    } else {
        assert(effects + step.effects =~= effects.push(step.effects[0]));
        lemma_plain_effect(
            state,
            next as int,
            effects,
            step.state,
            step.next as int,
            step.effects[0],
        );
    }
}

/// A step that makes a change as `first` does and then adds an entry.
proof fn lemma_added_after(first: StepView, effects: Seq<LogEffectView>, step: StepView)
    requires
        accounts_for(first.state, first.next as int, effects + first.effects),
        first.next < usize::MAX,
        step.state == first.state,
        step.next == first.next + 1,
        step.effects.len() == first.effects.len() + 1,
        step.effects.drop_last() == first.effects,
        step.effects.last() is Add,
        step.effects.last().entry_index() == Some(first.next),
        step.effects.last().tool_call_id() is None,
    ensures
        accounts_for(step.state, step.next as int, effects + step.effects),
{
    reveal(accounts_for);
    let so_far = effects + first.effects;
    assert(effects + step.effects =~= so_far.push(step.effects.last()));
    lemma_plain_effect(
        first.state,
        first.next as int,
        so_far,
        step.state,
        step.next as int,
        step.effects.last(),
    );
}

proof fn lemma_step(
    state: NormalizerView,
    next: usize,
    effects: Seq<LogEffectView>,
    event: AcpEvent,
)
    requires
        accounts_for(state, next as int, effects),
        next < usize::MAX,
    ensures
        ({
            let step = state.step(event, next);
            accounts_for(step.state, step.next as int, effects + step.effects)
        }),
{
    let step = state.step(event, next);
    lemma_texts(state, next as int, effects);
    match event {
        AcpEvent::ToolCall(call) => {
            lemma_tool_call(state, next, effects, call@);
        },
        AcpEvent::ToolUpdate(update) => {
            lemma_tool_call(state, next, effects, update.described(state.update_title(update)));
        },
        AcpEvent::RequestPermission(request, meta) => {
            match request.tool_call.title {
                Some(title) => {
                    let id = request.tool_call.tool_call_id@;
                    let call = request.tool_call.described(title@);
                    let reported = state.tool_call(call, next);
                    lemma_tool_call(state, next, effects, call);
                    let so_far = effects + reported.effects;
                    match meta {
                        Some(meta) => {
                            let status = Some(normalize_logs::pending_status(meta));
                            lemma_override(reported.state, reported.next, so_far, id, status);
                            let marked = reported.state.overridden(id, status, reported.next);
                            assert(effects + step.effects =~= so_far + marked.effects);
                        },
                        None => {
                            assert(effects + step.effects =~= so_far);
                        },
                    }
                },
                None => {
                    lemma_plain_step(state, next, effects, step);
                },
            }
        },
        AcpEvent::ApprovalResponse(response) => {
            let id = response.tool_call_id@;
            let status = ToolStatus::of_approval(response.status);
            let resolved = state.resolved(id, status, next);
            lemma_resolved(state, next, effects, id, status);
            if response.status is Denied {
                assert(step.effects.drop_last() =~= resolved.effects);
                lemma_added_after(resolved, effects, step);
            }
        },
        AcpEvent::QuestionResponse(response) => {
            let id = response.tool_call_id@;
            let status = Some(ToolStatus::of_question(response.status));
            let resolved = state.resolved(id, status, next);
            lemma_resolved(state, next, effects, id, status);
            if response.status is Answered {
                assert(step.effects.drop_last() =~= resolved.effects);
                lemma_added_after(resolved, effects, step);
            }
        },
        AcpEvent::Elicitation { tool_call_id, meta } => {
            match meta {
                Some(meta) if state.tools.dom().contains(tool_call_id@) => {
                    let status = Some(normalize_logs::pending_status(meta));
                    lemma_override(state, next, effects, tool_call_id@, status);
                },
                _ => {
                    lemma_plain_step(state, next, effects, step);
                },
            }
        },
        _ => {
            lemma_plain_step(state, next, effects, step);
        },
    }
}

proof fn lemma_run(events: Seq<AcpEvent>, next: usize)
    requires
        next + events.len() <= usize::MAX,
    ensures
        ({
            let run = NormalizerView::initial().run(events, next);
            &&& accounts_for(run.state, run.next as int, run.effects)
            &&& run.next <= next + events.len()
        }),
    decreases events.len(),
{
    reveal(accounts_for);
    if events.len() > 0 {
        lemma_run(events.drop_last(), next);
        let before = NormalizerView::initial().run(events.drop_last(), next);
        lemma_step(before.state, before.next, before.effects, events.last());
        normalize_logs::lemma_step_takes_one(before.state, events.last(), before.next);
    }
}

/// Over a whole session each tool call has one entry: it is added with the first
/// report on the call, everything later that shows the call replaces it in its
/// place, and nothing else has its index. No two entries are added under the
/// same index, and the id of the session is stored once.
pub proof fn law_tool_calls_have_one_entry_each(events: Seq<AcpEvent>, next: usize)
    requires
        next + events.len() <= usize::MAX,
    ensures
        ({
            let effects = NormalizerView::initial().run(events, next).effects;
            &&& one_entry_each(effects)
            &&& log_laws::session_ids(effects) == match log_laws::first_start(events) {
                Some(id) => seq![id],
                None => Seq::empty(),
            }
        }),
{
    reveal(accounts_for);
    lemma_run(events, next);
    log_laws::law_session_id_is_stored_once(events, next);
}

} // verus!
