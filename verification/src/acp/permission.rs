//! Choosing among the answers that an agent offers to a permission request.

use vstd::multiset::Multiset;
use vstd::prelude::*;
use vstd::string::*;

use crate::approvals::{QuestionAnswer, QuestionAnswerView};
use crate::text;

use super::types::{OutcomeView, PermissionOption, PermissionOptionKind, RequestPermissionOutcome};

verus! {

/// The first option of a kind.
pub open spec fn first_of_kind(
    options: Seq<PermissionOption>,
    kind: PermissionOptionKind,
) -> Option<PermissionOption>
    decreases options.len(),
{
    if options.len() == 0 {
        None
    } else if options[0].kind == kind {
        Some(options[0])
    } else {
        first_of_kind(options.drop_first(), kind)
    }
}

/// The first option of a kind.
pub fn find_kind(options: &Vec<PermissionOption>, kind: PermissionOptionKind) -> (res: Option<
    &PermissionOption,
>)
    ensures
        match res {
            Some(option) => first_of_kind(options@, kind) == Some(*option),
            None => first_of_kind(options@, kind) is None,
        },
{
    let mut i: usize = 0;
    assert(options@.skip(0) =~= options@);
    while i < options.len()
        invariant
            i <= options@.len(),
            first_of_kind(options@, kind) == first_of_kind(options@.skip(i as int), kind),
        decreases options.len() - i,
    {
        if options[i].kind == kind {
            return Some(&options[i]);
        }
        assert(options@.skip(i as int).drop_first() =~= options@.skip(i + 1));
        i += 1;
    }
    None
}

/// The option that dismisses a question.
pub fn skip_option(options: &Vec<PermissionOption>) -> (res: Option<&PermissionOption>)
    ensures
        match res {
            Some(option) => first_of_kind(options@, PermissionOptionKind::RejectOnce) == Some(
                *option,
            ),
            None => first_of_kind(options@, PermissionOptionKind::RejectOnce) is None,
        },
{
    find_kind(options, PermissionOptionKind::RejectOnce)
}

/// The option that is chosen where nobody can be asked. A question is
/// dismissed, because no answer may be made up for it. Anything else is allowed,
/// once rather than always.
pub open spec fn unattended_choice(
    options: Seq<PermissionOption>,
    is_question: bool,
) -> Option<PermissionOption> {
    if is_question {
        first_of_kind(options, PermissionOptionKind::RejectOnce)
    } else {
        match first_of_kind(options, PermissionOptionKind::AllowOnce) {
            Some(option) => Some(option),
            None => match first_of_kind(options, PermissionOptionKind::AllowAlways) {
                Some(option) => Some(option),
                None => if options.len() > 0 {
                    Some(options[0])
                } else {
                    None
                },
            },
        }
    }
}

/// The outcome of a choice: without an option the request is cancelled.
pub open spec fn outcome_of(choice: Option<PermissionOption>) -> OutcomeView {
    match choice {
        Some(option) => OutcomeView::Selected { option_id: option.option_id@ },
        None => OutcomeView::Cancelled,
    }
}

/// The outcome of a choice.
pub fn choose_option(choice: Option<&PermissionOption>) -> (res: RequestPermissionOutcome)
    ensures
        match choice {
            Some(option) => res@ == outcome_of(Some(*option)),
            None => res@ == outcome_of(None),
        },
{
    match choice {
        Some(option) => RequestPermissionOutcome::Selected {
            option_id: option.option_id.clone(),
        },
        None => RequestPermissionOutcome::Cancelled,
    }
}

/// The outcome of a request where nobody can be asked.
pub fn choose_unattended(options: &Vec<PermissionOption>, is_question: bool) -> (res:
    RequestPermissionOutcome)
    ensures
        res@ == outcome_of(unattended_choice(options@, is_question)),
{
    if is_question {
        return choose_option(skip_option(options));
    }
    match find_kind(options, PermissionOptionKind::AllowOnce) {
        Some(option) => choose_option(Some(option)),
        None => match find_kind(options, PermissionOptionKind::AllowAlways) {
            Some(option) => choose_option(Some(option)),
            None => if options.len() > 0 {
                choose_option(Some(&options[0]))
            } else {
                choose_option(None)
            },
        },
    }
}

/// The first option that allows something once and has the given name.
pub open spec fn offered(options: Seq<PermissionOption>, label: Seq<char>) -> Option<
    PermissionOption,
>
    decreases options.len(),
{
    if options.len() == 0 {
        None
    } else if options[0].kind == PermissionOptionKind::AllowOnce && options[0].name@ == label {
        Some(options[0])
    } else {
        offered(options.drop_first(), label)
    }
}

/// The first label that names an offered option.
pub open spec fn first_offered(
    options: Seq<PermissionOption>,
    labels: Seq<Seq<char>>,
) -> Option<Seq<char>>
    decreases labels.len(),
{
    if labels.len() == 0 {
        None
    } else {
        match first_offered(options, labels.drop_last()) {
            Some(label) => Some(label),
            None => if offered(options, labels.last()) is Some {
                Some(labels.last())
            } else {
                None
            },
        }
    }
}

/// The labels that name offered options, after the first of them.
pub open spec fn further_offered(
    options: Seq<PermissionOption>,
    labels: Seq<Seq<char>>,
) -> Seq<Seq<char>>
    decreases labels.len(),
{
    if labels.len() == 0 {
        Seq::empty()
    } else {
        let before = further_offered(options, labels.drop_last());
        if offered(options, labels.last()) is Some && first_offered(
            options,
            labels.drop_last(),
        ) is Some {
            before.push(labels.last())
        } else {
            before
        }
    }
}

/// The labels that name no offered option.
pub open spec fn not_offered(
    options: Seq<PermissionOption>,
    labels: Seq<Seq<char>>,
) -> Seq<Seq<char>>
    decreases labels.len(),
{
    if labels.len() == 0 {
        Seq::empty()
    } else {
        let before = not_offered(options, labels.drop_last());
        if offered(options, labels.last()) is None {
            before.push(labels.last())
        } else {
            before
        }
    }
}

/// A question with some of its labels, where there are any.
pub open spec fn with_labels(question: Seq<char>, labels: Seq<Seq<char>>) -> Seq<
    QuestionAnswerView,
> {
    if labels.len() == 0 {
        Seq::empty()
    } else {
        seq![QuestionAnswerView { question, answer: labels }]
    }
}

/// The id of the option that the first question was answered with.
pub open spec fn selected_option(
    options: Seq<PermissionOption>,
    answers: Seq<QuestionAnswerView>,
) -> Option<Seq<char>> {
    if answers.len() == 0 {
        None
    } else {
        match first_offered(options, answers[0].answer) {
            Some(label) => Some(offered(options, label)->0.option_id@),
            None => None,
        }
    }
}

/// The answers that are valid but have no place in the outcome: further labels
/// of the first question, and every further question.
pub open spec fn additional_answers(
    options: Seq<PermissionOption>,
    answers: Seq<QuestionAnswerView>,
) -> Seq<QuestionAnswerView>
    decreases answers.len(),
{
    if answers.len() == 0 {
        Seq::empty()
    } else {
        let last = answers.last();
        additional_answers(options, answers.drop_last()) + with_labels(
            last.question,
            if answers.len() == 1 {
                further_offered(options, last.answer)
            } else {
                last.answer
            },
        )
    }
}

/// The replies to the first question that name none of its options.
pub open spec fn custom_answers(
    options: Seq<PermissionOption>,
    answers: Seq<QuestionAnswerView>,
) -> Seq<QuestionAnswerView> {
    if answers.len() == 0 {
        Seq::empty()
    } else {
        with_labels(answers[0].question, not_offered(options, answers[0].answer))
    }
}

fn find_offered<'a>(options: &'a Vec<PermissionOption>, label: &String) -> (res: Option<
    &'a PermissionOption,
>)
    ensures
        match res {
            Some(option) => offered(options@, label@) == Some(*option),
            None => offered(options@, label@) is None,
        },
{
    let mut i: usize = 0;
    assert(options@.skip(0) =~= options@);
    while i < options.len()
        invariant
            i <= options@.len(),
            offered(options@, label@) == offered(options@.skip(i as int), label@),
        decreases options.len() - i,
    {
        if options[i].kind == PermissionOptionKind::AllowOnce && options[i].name.eq(label) {
            return Some(&options[i]);
        }
        assert(options@.skip(i as int).drop_first() =~= options@.skip(i + 1));
        i += 1;
    }
    None
}

/// How the answer to the first question is sorted.
struct SortedLabels {
    selected: Option<String>,
    further: Vec<String>,
    custom: Vec<String>,
}

fn sort_labels(options: &Vec<PermissionOption>, labels: &Vec<String>) -> (res: SortedLabels)
    ensures
        res.selected.deep_view() == match first_offered(options@, labels.deep_view()) {
            Some(label) => Some(offered(options@, label)->0.option_id@),
            None => None,
        },
        res.further.deep_view() == further_offered(options@, labels.deep_view()),
        res.custom.deep_view() == not_offered(options@, labels.deep_view()),
{
    let mut selected: Option<String> = None;
    let mut further: Vec<String> = Vec::new();
    let mut custom: Vec<String> = Vec::new();
    let ghost all = labels.deep_view();
    let mut i: usize = 0;
    assert(all.take(0) =~= Seq::empty());
    assert(further.deep_view() =~= Seq::empty());
    while i < labels.len()
        invariant
            i <= labels@.len(),
            all == labels.deep_view(),
            selected.deep_view() == match first_offered(options@, all.take(i as int)) {
                Some(label) => Some(offered(options@, label)->0.option_id@),
                None => None,
            },
            further.deep_view() == further_offered(options@, all.take(i as int)),
            custom.deep_view() == not_offered(options@, all.take(i as int)),
        decreases labels.len() - i,
    {
        assert(all.take(i + 1).drop_last() =~= all.take(i as int));
        assert(all.take(i + 1).last() == labels@[i as int]@);
        let label = labels[i].clone();
        let ghost further_before = further.deep_view();
        let ghost custom_before = custom.deep_view();
        match find_offered(options, &label) {
            Some(option) => {
                if selected.is_none() {
                    selected = Some(option.option_id.clone());
                } else {
                    further.push(label);
                    assert(further.deep_view() =~= further_before.push(label@));
                }
            },
            None => {
                custom.push(label);
                assert(custom.deep_view() =~= custom_before.push(label@));
            },
        }
        i += 1;
    }
    assert(all.take(i as int) =~= all);
    SortedLabels { selected, further, custom }
}

fn push_labels(out: &mut Vec<QuestionAnswer>, question: &String, labels: Vec<String>)
    ensures
        final(out).deep_view() == old(out).deep_view() + with_labels(question@, labels.deep_view()),
{
    let ghost before = out.deep_view();
    if labels.len() > 0 {
        out.push(QuestionAnswer { question: question.clone(), answer: labels });
    }
    assert(out.deep_view() =~= before + with_labels(question@, labels.deep_view()));
}

/// Maps the answers of the user back to an option that the agent offered. Gives
/// its id, and the answers that have no place in it: first those that are valid,
/// then the replies that match no option.
pub fn match_question_option(
    options: &Vec<PermissionOption>,
    answers: &Vec<QuestionAnswer>,
) -> (res: (Option<String>, Vec<QuestionAnswer>, Vec<QuestionAnswer>))
    ensures
        res.0.deep_view() == selected_option(options@, answers.deep_view()),
        res.1.deep_view() == additional_answers(options@, answers.deep_view()),
        res.2.deep_view() == custom_answers(options@, answers.deep_view()),
{
    let mut additional: Vec<QuestionAnswer> = Vec::new();
    let mut custom: Vec<QuestionAnswer> = Vec::new();
    assert(additional.deep_view() =~= Seq::empty());
    assert(custom.deep_view() =~= Seq::empty());
    if answers.len() == 0 {
        return (None, additional, custom);
    }
    let ghost all = answers.deep_view();
    let sorted = sort_labels(options, &answers[0].answer);
    push_labels(&mut additional, &answers[0].question, sorted.further);
    push_labels(&mut custom, &answers[0].question, sorted.custom);
    assert(all.take(1).drop_last() =~= Seq::empty());
    assert(all.take(1).last() == answers@[0]@);
    assert(additional.deep_view() =~= additional_answers(options@, all.take(1))) by {
        reveal_with_fuel(additional_answers, 2);
    }
    assert(custom.deep_view() =~= custom_answers(options@, all));
    let mut i: usize = 1;
    while i < answers.len()
        invariant
            1 <= i <= answers@.len(),
            all == answers.deep_view(),
            additional.deep_view() == additional_answers(options@, all.take(i as int)),
        decreases answers.len() - i,
    {
        assert(all.take(i + 1).drop_last() =~= all.take(i as int));
        assert(all.take(i + 1).last() == answers@[i as int]@);
        let answer = answers[i].clone();
        push_labels(&mut additional, &answer.question, answer.answer);
        i += 1;
    }
    assert(all.take(i as int) =~= all);
    (sorted.selected, additional, custom)
}

/// The line of feedback for an answer.
pub open spec fn feedback_line(answer: QuestionAnswerView) -> Seq<char> {
    "- "@ + answer.question + ": "@ + text::joined(answer.answer, ", "@)
}

/// The feedback that carries some answers, under a header.
pub open spec fn feedback_text(header: Seq<char>, answers: Seq<QuestionAnswerView>) -> Seq<char> {
    header + "\n"@ + text::joined(
        answers.map_values(|answer: QuestionAnswerView| feedback_line(answer)),
        "\n"@,
    )
}

/// Writes the answers that have no place in the outcome as feedback.
pub fn format_answer_feedback(header: &str, answers: &Vec<QuestionAnswer>) -> (res: String)
    ensures
        res@ == feedback_text(header@, answers.deep_view()),
{
    let mut lines: Vec<String> = Vec::new();
    let mut i: usize = 0;
    while i < answers.len()
        invariant
            i <= answers@.len(),
            lines@.len() == i,
            forall|j: int| 0 <= j < i ==> (#[trigger] lines@[j])@ == feedback_line(answers@[j]@),
        decreases answers.len() - i,
    {
        let labels = text::join(&answers[i].answer, answers[i].answer.len(), ", ");
        assert(answers@[i as int].answer.deep_view().take(
            answers@[i as int].answer@.len() as int,
        ) =~= answers@[i as int].answer.deep_view());
        let start = text::concat3("- ", answers[i].question.as_str(), ": ");
        lines.push(text::concat(start.as_str(), labels.as_str()));
        i += 1;
    }
    let ghost expected = answers.deep_view().map_values(
        |answer: QuestionAnswerView| feedback_line(answer),
    );
    assert(lines.deep_view() =~= expected);
    assert(lines.deep_view().take(lines@.len() as int) =~= expected);
    let body = text::join(&lines, lines.len(), "\n");
    text::concat3(header, "\n", body.as_str())
}

/// Every label of some answers, with its question.
pub open spec fn given_labels(answers: Seq<QuestionAnswerView>) -> Multiset<(Seq<char>, Seq<char>)>
    decreases answers.len(),
{
    if answers.len() == 0 {
        Multiset::empty()
    } else {
        given_labels(answers.drop_last()).add(
            labels_of(answers.last().question, answers.last().answer),
        )
    }
}

/// Some labels of a question.
pub open spec fn labels_of(question: Seq<char>, labels: Seq<Seq<char>>) -> Multiset<
    (Seq<char>, Seq<char>),
>
    decreases labels.len(),
{
    if labels.len() == 0 {
        Multiset::empty()
    } else {
        labels_of(question, labels.drop_last()).insert((question, labels.last()))
    }
}

/// The label that the outcome stands for, if it stands for one.
pub open spec fn selected_label(
    options: Seq<PermissionOption>,
    answers: Seq<QuestionAnswerView>,
) -> Multiset<(Seq<char>, Seq<char>)> {
    if answers.len() == 0 {
        Multiset::empty()
    } else {
        match first_offered(options, answers[0].answer) {
            Some(label) => Multiset::singleton((answers[0].question, label)),
            None => Multiset::empty(),
        }
    }
}

proof fn lemma_sorted_labels(
    options: Seq<PermissionOption>,
    question: Seq<char>,
    labels: Seq<Seq<char>>,
)
    ensures
        labels_of(question, labels) =~= match first_offered(options, labels) {
            Some(label) => Multiset::singleton((question, label)),
            None => Multiset::empty(),
        }.add(labels_of(question, further_offered(options, labels))).add(
            labels_of(question, not_offered(options, labels)),
        ),
    decreases labels.len(),
{
    if labels.len() > 0 {
        lemma_sorted_labels(options, question, labels.drop_last());
        let further = further_offered(options, labels.drop_last());
        let custom = not_offered(options, labels.drop_last());
        assert(further.push(labels.last()).drop_last() =~= further);
        assert(custom.push(labels.last()).drop_last() =~= custom);
    }
}

proof fn lemma_given_labels(a: Seq<QuestionAnswerView>, question: Seq<char>, labels: Seq<Seq<char>>)
    ensures
        given_labels(a + with_labels(question, labels)) =~= given_labels(a).add(
            labels_of(question, labels),
        ),
{
    let both = a + with_labels(question, labels);
    if labels.len() == 0 {
        assert(both =~= a);
    } else {
        assert(both.drop_last() =~= a);
    }
}

/// No answer is lost: every label that the user gave is the selected one, or
/// stands among the additional or the custom answers, as often as it was given.
pub proof fn law_no_answer_is_lost(
    options: Seq<PermissionOption>,
    answers: Seq<QuestionAnswerView>,
)
    ensures
        given_labels(answers) == selected_label(options, answers).add(
            given_labels(additional_answers(options, answers)),
        ).add(given_labels(custom_answers(options, answers))),
    decreases answers.len(),
{
    reveal_with_fuel(given_labels, 2);
    if answers.len() == 0 {
        assert(given_labels(answers) =~= selected_label(options, answers).add(
            given_labels(additional_answers(options, answers)),
        ).add(given_labels(custom_answers(options, answers))));
    } else {
        let before = answers.drop_last();
        let last = answers.last();
        if answers.len() == 1 {
            let further = further_offered(options, last.answer);
            let custom = not_offered(options, last.answer);
            lemma_sorted_labels(options, last.question, last.answer);
            assert(additional_answers(options, before) =~= Seq::empty());
            lemma_given_labels(additional_answers(options, before), last.question, further);
            lemma_given_labels(Seq::empty(), last.question, custom);
            assert(Seq::empty() + with_labels(last.question, custom) =~= custom_answers(
                options,
                answers,
            ));
        } else {
            law_no_answer_is_lost(options, before);
            assert(before[0] == answers[0]);
            lemma_given_labels(additional_answers(options, before), last.question, last.answer);
        }
        assert(given_labels(answers) =~= selected_label(options, answers).add(
            given_labels(additional_answers(options, answers)),
        ).add(given_labels(custom_answers(options, answers))));
    }
}

proof fn lemma_offered(options: Seq<PermissionOption>, label: Seq<char>)
    ensures
        offered(options, label) matches Some(option) ==> {
            &&& options.contains(option)
            &&& option.kind == PermissionOptionKind::AllowOnce
            &&& option.name@ == label
        },
    decreases options.len(),
{
    if options.len() > 0 {
        lemma_offered(options.drop_first(), label);
        if options[0].kind == PermissionOptionKind::AllowOnce && options[0].name@ == label {
            assert(options.contains(options[0]));
        } else if let Some(option) = offered(options, label) {
            let i = options.drop_first().index_of(option);
            assert(options[i + 1] == option);
        }
    }
}

proof fn lemma_first_offered(options: Seq<PermissionOption>, labels: Seq<Seq<char>>)
    ensures
        first_offered(options, labels) matches Some(label) ==> labels.contains(label) && offered(
            options,
            label,
        ) is Some,
    decreases labels.len(),
{
    if labels.len() > 0 {
        lemma_first_offered(options, labels.drop_last());
        if let Some(label) = first_offered(options, labels.drop_last()) {
            let i = labels.drop_last().index_of(label);
            assert(labels[i] == label);
        } else {
            assert(labels[labels.len() - 1] == labels.last());
        }
    }
}

/// An answer is only ever mapped to an option that allows something once and
/// that the user named, never to the one that dismisses the question.
pub proof fn law_only_named_options_are_selected(
    options: Seq<PermissionOption>,
    answers: Seq<QuestionAnswerView>,
)
    ensures
        selected_option(options, answers) matches Some(id) ==> exists|i: int|
            0 <= i < options.len() && (#[trigger] options[i]).option_id@ == id && options[i].kind
                == PermissionOptionKind::AllowOnce && answers[0].answer.contains(options[i].name@),
{
    if answers.len() > 0 {
        lemma_first_offered(options, answers[0].answer);
        if let Some(label) = first_offered(options, answers[0].answer) {
            lemma_offered(options, label);
            let i = options.index_of(offered(options, label)->0);
            assert(options[i] == offered(options, label)->0);
        }
    }
}

proof fn lemma_first_of_kind(options: Seq<PermissionOption>, kind: PermissionOptionKind)
    ensures
        match first_of_kind(options, kind) {
            Some(option) => options.contains(option) && option.kind == kind,
            None => forall|i: int| 0 <= i < options.len() ==> (#[trigger] options[i]).kind != kind,
        },
    decreases options.len(),
{
    if options.len() > 0 && options[0].kind != kind {
        lemma_first_of_kind(options.drop_first(), kind);
        match first_of_kind(options, kind) {
            Some(option) => {
                let i = options.drop_first().index_of(option);
                assert(options[i + 1] == option);
            },
            None => {
                assert forall|i: int| 0 <= i < options.len() implies (
                #[trigger] options[i]).kind != kind by {
                    if i > 0 {
                        assert(options[i] == options.drop_first()[i - 1]);
                    }
                }
            },
        }
    } else if options.len() > 0 {
        assert(options.contains(options[0]));
    }
}

/// Where nobody can be asked, a question is never answered: either the option
/// that dismisses it is chosen, or none.
pub proof fn law_no_answer_is_made_up(options: Seq<PermissionOption>)
    ensures
        unattended_choice(options, true) matches Some(option) ==> option.kind
            == PermissionOptionKind::RejectOnce && options.contains(option),
{
    lemma_first_of_kind(options, PermissionOptionKind::RejectOnce);
}

/// Where nobody can be asked, something that is no question is answered with
/// one of its options, and with one that allows it once wherever there is one.
pub proof fn law_once_is_preferred_to_always(options: Seq<PermissionOption>)
    ensures
        unattended_choice(options, false) matches Some(option) ==> options.contains(option),
        (exists|i: int|
            0 <= i < options.len() && (#[trigger] options[i]).kind
                == PermissionOptionKind::AllowOnce) ==> unattended_choice(options, false) is Some
            && unattended_choice(options, false)->0.kind == PermissionOptionKind::AllowOnce,
        options.len() > 0 ==> unattended_choice(options, false) is Some,
{
    lemma_first_of_kind(options, PermissionOptionKind::AllowOnce);
    lemma_first_of_kind(options, PermissionOptionKind::AllowAlways);
    if options.len() > 0 {
        assert(options.contains(options[0]));
    }
}

} // verus!
