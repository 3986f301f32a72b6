//! Where the answers to questions go: into the outcome, or into feedback.

use vstd::prelude::*;

use crate::approvals::{QuestionAnswer, QuestionAnswerView};

use super::client_laws::{lemma_offered, names_an_option};
use super::permission;
use super::permission::match_question_option;
use super::types::PermissionOption;

verus! {

/// What a reader makes of answers: the id of an option, further answers that are
/// valid, and replies of another kind.
pub type Sorted = (Option<String>, Vec<QuestionAnswer>, Vec<QuestionAnswer>);

/// The labels of the only answer, or none where there is no answer.
pub open spec fn labels_in(answers: Vec<QuestionAnswer>) -> Seq<Seq<char>> {
    if answers@.len() == 0 {
        Seq::empty()
    } else {
        answers@[0].answer.deep_view()
    }
}

/// A further question changes nothing about the outcome and the replies of
/// another kind: its labels, where it has any, follow the further answers as they
/// are.
pub proof fn law_further_questions_follow(
    options: Vec<PermissionOption>,
    answers: Vec<QuestionAnswer>,
    more: Vec<QuestionAnswer>,
    last: QuestionAnswer,
    before: Sorted,
    after: Sorted,
)
    requires
        call_ensures(match_question_option, (&options, &answers), before),
        call_ensures(match_question_option, (&options, &more), after),
        answers@.len() > 0,
        more@ == answers@.push(last),
    ensures
        after.0.deep_view() == before.0.deep_view(),
        after.2.deep_view() == before.2.deep_view(),
        last.answer@.len() == 0 ==> after.1.deep_view() == before.1.deep_view(),
        last.answer@.len() > 0 ==> after.1.deep_view() == before.1.deep_view().push(
            QuestionAnswerView { question: last.question@, answer: last.answer.deep_view() },
        ),
{
    let few = answers.deep_view();
    let all = more.deep_view();
    assert(few.len() == answers@.len());
    assert(all.len() == more@.len());
    assert(last.answer.deep_view().len() == last.answer@.len());
    assert forall|i: int| 0 <= i < few.len() implies all[i] == few[i] by {
        assert(all[i] == more@[i]@);
        assert(few[i] == answers@[i]@);
    }
    assert(all[few.len() as int] == more@[few.len() as int]@);
    assert(all.drop_last() =~= few);
    assert(all.last() == last@);
    assert(all[0] == few[0]);
    assert(after.1.deep_view() =~= permission::additional_answers(options@, few)
        + permission::with_labels(last.question@, last.answer.deep_view()));
}

/// A further label of the only question is the outcome where it is the first to
/// name an option; a further answer where another label was the outcome; and a
/// reply of another kind where it names none.
pub proof fn law_each_label_has_its_place(
    options: Vec<PermissionOption>,
    short: QuestionAnswer,
    long: QuestionAnswer,
    label: String,
    answers: Vec<QuestionAnswer>,
    more: Vec<QuestionAnswer>,
    before: Sorted,
    after: Sorted,
)
    requires
        answers@ == seq![short],
        more@ == seq![long],
        long.question@ == short.question@,
        long.answer@ == short.answer@.push(label),
        call_ensures(match_question_option, (&options, &answers), before),
        call_ensures(match_question_option, (&options, &more), after),
    ensures
        short.answer@.len() == 0 ==> before.0 is None && before.1@.len() == 0 && before.2@.len()
            == 0,
        after.1@.len() <= 1,
        after.2@.len() <= 1,
        after.1@.len() == 1 ==> after.1@[0].question@ == short.question@,
        after.2@.len() == 1 ==> after.2@[0].question@ == short.question@,
        !names_an_option(options@, label@) ==> {
            &&& after.0.deep_view() == before.0.deep_view()
            &&& labels_in(after.1) == labels_in(before.1)
            &&& labels_in(after.2) == labels_in(before.2).push(label@)
        },
        names_an_option(options@, label@) && before.0 is None ==> {
            &&& after.0 is Some
            &&& labels_in(after.1) == labels_in(before.1)
            &&& labels_in(after.2) == labels_in(before.2)
        },
        names_an_option(options@, label@) && before.0 is Some ==> {
            &&& after.0.deep_view() == before.0.deep_view()
            &&& labels_in(after.1) == labels_in(before.1).push(label@)
            &&& labels_in(after.2) == labels_in(before.2)
        },
{
    lemma_offered(options@, label@, 0);
    let few = short.answer.deep_view();
    let all = long.answer.deep_view();
    assert(few.len() == short.answer@.len());
    assert(all.len() == long.answer@.len());
    assert forall|i: int| 0 <= i < few.len() implies all[i] == few[i] by {
        assert(all[i] == long.answer@[i]@);
        assert(few[i] == short.answer@[i]@);
    }
    assert(all[few.len() as int] == long.answer@[few.len() as int]@);
    assert(all.drop_last() =~= few);
    assert(all.last() == label@);
    lemma_single(options, short, answers, before);
    lemma_single(options, long, more, after);
    lemma_offered_counts(options@, few);
}

proof fn lemma_offered_counts(options: Seq<PermissionOption>, labels: Seq<Seq<char>>)
    ensures
        permission::first_offered(options, labels) is None ==> permission::further_offered(
            options,
            labels,
        ).len() == 0,
    decreases labels.len(),
{
    if labels.len() > 0 {
        lemma_offered_counts(options, labels.drop_last());
    }
}

proof fn lemma_single(
    options: Vec<PermissionOption>,
    answer: QuestionAnswer,
    answers: Vec<QuestionAnswer>,
    sorted: Sorted,
)
    requires
        answers@ == seq![answer],
        call_ensures(match_question_option, (&options, &answers), sorted),
    ensures
        sorted.0 is Some <==> permission::first_offered(options@, answer.answer.deep_view()) is Some,
        sorted.0 is Some ==> sorted.0.deep_view() == Some(
            permission::offered(
                options@,
                permission::first_offered(options@, answer.answer.deep_view())->0,
            )->0.option_id@,
        ),
        labels_in(sorted.1) == permission::further_offered(options@, answer.answer.deep_view()),
        labels_in(sorted.2) == permission::not_offered(options@, answer.answer.deep_view()),
        sorted.1@.len() <= 1,
        sorted.2@.len() <= 1,
        sorted.1@.len() == 0 <==> labels_in(sorted.1).len() == 0,
        sorted.2@.len() == 0 <==> labels_in(sorted.2).len() == 0,
        sorted.1@.len() == 1 ==> sorted.1@[0].question@ == answer.question@,
        sorted.2@.len() == 1 ==> sorted.2@[0].question@ == answer.question@,
{
    let all = answers.deep_view();
    assert(all.len() == 1);
    assert(all[0] == answers@[0]@);
    assert(all.drop_last() =~= Seq::empty());
    reveal_with_fuel(permission::additional_answers, 2);
    let further = permission::further_offered(options@, answer.answer.deep_view());
    assert(sorted.1.deep_view() =~= permission::with_labels(answer.question@, further));
    assert(sorted.1.deep_view().len() == sorted.1@.len());
    assert(sorted.2.deep_view().len() == sorted.2@.len());
    if sorted.1@.len() > 0 {
        assert(sorted.1.deep_view()[0] == sorted.1@[0]@);
    }
    if sorted.2@.len() > 0 {
        assert(sorted.2.deep_view()[0] == sorted.2@[0]@);
    }
    if sorted.0 is Some {
        assert(sorted.0.deep_view() == Some(sorted.0->0@));
    }
}

} // verus!
