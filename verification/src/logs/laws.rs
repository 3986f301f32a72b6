//! What the entries of a conversation show.

use vstd::prelude::*;

use crate::approvals::{ApprovalStatus, QuestionStatus};
use crate::text;
use crate::text_laws;

use super::stdout_processor;
use super::stdout_processor::stdout_entry;
use super::{NormalizedEntry, NormalizedEntryType, ToolStatus};

verus! {

/// A call that was approved goes on, one that was denied or not answered in time
/// says so, and while an approval is pending nothing changes.
pub proof fn law_answer_to_an_approval_is_the_status(
    status: ApprovalStatus,
    shown: Option<ToolStatus>,
)
    requires
        call_ensures(ToolStatus::from_approval_status, (&status,), shown),
    ensures
        shown is None <==> status is Pending,
        status is Approved <==> shown == Some(ToolStatus::Created),
        status is TimedOut <==> shown == Some(ToolStatus::TimedOut),
        status matches ApprovalStatus::Denied { reason } ==> shown == Some(
            ToolStatus::Denied { reason },
        ),
{
}

/// A question that was answered has succeeded, and one that was not answered in
/// time says so.
pub proof fn law_answer_to_a_question_is_the_status(status: QuestionStatus, shown: ToolStatus)
    requires
        call_ensures(ToolStatus::from_question_status, (&status,), shown),
    ensures
        status is Answered ==> shown == ToolStatus::Success,
        status is TimedOut ==> shown == ToolStatus::TimedOut,
{
}

/// A plain entry has its type and its content, and nothing else.
pub proof fn law_plain_entry_has_its_content(
    entry_type: NormalizedEntryType,
    content: String,
    entry: NormalizedEntry,
)
    requires
        call_ensures(NormalizedEntry::plain, (entry_type, content), entry),
    ensures
        entry.content@ == content@,
        entry.entry_type@ == entry_type@,
        entry.timestamp is None,
        entry.metadata is None,
{
    assert(entry@.timestamp == entry.timestamp.deep_view());
}

/// Plain output is shown as a message of the agent.
pub proof fn law_output_is_a_message(content: &str, entry: NormalizedEntry)
    requires
        call_ensures(stdout_entry, (content,), entry),
    ensures
        entry.entry_type is AssistantMessage,
        entry.timestamp is None,
        entry.metadata is None,
{
    assert(entry@.timestamp == entry.timestamp.deep_view());
}

proof fn lemma_printed_of_print(s: Seq<char>)
    requires
        forall|i: int|
            0 <= i < s.len() ==> #[trigger] s[i] == '\n' || !stdout_processor::is_control(s[i]),
    ensures
        stdout_processor::printed(s) == s,
    decreases s.len(),
{
    reveal(Seq::filter);
    if s.len() > 0 {
        let rest = s.drop_last();
        assert forall|i: int| 0 <= i < rest.len() implies #[trigger] rest[i] == '\n'
            || !stdout_processor::is_control(rest[i]) by {
            assert(rest[i] == s[i]);
        }
        lemma_printed_of_print(rest);
        assert(s[s.len() - 1] == s.last());
        assert(stdout_processor::printed(s) == stdout_processor::printed(rest).push(s.last()));
        assert(rest.push(s.last()) =~= s);
    }
}

proof fn lemma_nothing_to_remove(s: Seq<char>, gone: char)
    requires
        !s.contains(gone),
    ensures
        text::without(s, gone) == s,
    decreases s.len(),
{
    reveal(Seq::filter);
    if s.len() > 0 {
        let rest = s.drop_last();
        assert(!rest.contains(gone)) by {
            if rest.contains(gone) {
                let i = rest.index_of(gone);
                assert(s[i] == gone);
            }
        }
        lemma_nothing_to_remove(rest, gone);
        assert(s.contains(s.last()));
        assert(text::without(s, gone) == text::without(rest, gone).push(s.last()));
        assert(rest.push(s.last()) =~= s);
    }
}

/// Output of printed characters and line feeds is shown as it is.
pub proof fn law_printed_output_is_shown_as_it_is(content: &str, entry: NormalizedEntry)
    requires
        call_ensures(stdout_entry, (content,), entry),
        forall|i: int|
            0 <= i < content@.len() ==> #[trigger] content@[i] == '\n' || (content@[i] as u32
                >= 0x20 && !(0x80 <= content@[i] as u32 <= 0x9f)),
    ensures
        entry.content@ == content@,
{
    assert(!content@.contains('\r'));
    assert(!content@.contains('\u{1b}'));
    lemma_nothing_to_remove(content@, '\r');
    lemma_printed_of_print(content@);
}

/// Carriage returns do not show.
pub proof fn law_carriage_returns_do_not_show(
    a: Seq<char>,
    b: Seq<char>,
    with: &str,
    without: &str,
    entry: NormalizedEntry,
    other: NormalizedEntry,
)
    requires
        call_ensures(stdout_entry, (with,), entry),
        call_ensures(stdout_entry, (without,), other),
        with@ == a + seq!['\r'] + b,
        without@ == a + b,
    ensures
        entry.content@ == other.content@,
{
    let gone = seq!['\r'];
    text_laws::lemma_without_of_parts(a, b, '\r');
    text_laws::lemma_without_of_parts(a, gone, '\r');
    text_laws::lemma_without_of_parts(a + gone, b, '\r');
    reveal(Seq::filter);
    assert(gone.drop_last() =~= Seq::<char>::empty());
    assert(text::without(Seq::empty(), '\r') =~= Seq::<char>::empty());
    assert(text::without(gone, '\r') == text::without(gone.drop_last(), '\r'));
    assert(text::without(a, '\r') + Seq::<char>::empty() =~= text::without(a, '\r'));
}

} // verus!
