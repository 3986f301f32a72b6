//! How the client answers an agent, whatever the agent asks.

use vstd::prelude::*;

use crate::approvals::{
    ApprovalService, ApprovalStatus, ExecutorApprovalError, QuestionAnswer, QuestionStatus,
    Timestamp,
};
use crate::text;

use super::client::{
    AcpClient, ClientError, CreatedApproval, PermissionAction, PermissionReply, WaitingPermission,
};
use super::permission;
use super::permission::{
    choose_option, choose_unattended, find_kind, format_answer_feedback, match_question_option,
    skip_option,
};
use super::types::{
    PermissionOption, PermissionOptionKind, RequestPermissionOutcome, RequestPermissionRequest,
    SessionNotification, SessionUpdate,
};
use super::{AcpEvent, ApprovalResponse, QuestionResponse};

verus! {

/// Whether an index is that of the first option of a kind.
pub open spec fn is_first_of_kind(
    options: Seq<PermissionOption>,
    kind: PermissionOptionKind,
    at: int,
) -> bool {
    &&& 0 <= at < options.len()
    &&& options[at].kind == kind
    &&& forall|i: int| 0 <= i < at ==> (#[trigger] options[i]).kind != kind
}

/// Whether there is an option of a kind.
pub open spec fn has_kind(options: Seq<PermissionOption>, kind: PermissionOptionKind) -> bool {
    exists|i: int| 0 <= i < options.len() && (#[trigger] options[i]).kind == kind
}

proof fn lemma_first_of_kind(options: Seq<PermissionOption>, kind: PermissionOptionKind)
    ensures
        permission::first_of_kind(options, kind) is Some <==> has_kind(options, kind),
        forall|at: int| #[trigger]
            is_first_of_kind(options, kind, at) ==> permission::first_of_kind(options, kind)
                == Some(options[at]),
        has_kind(options, kind) ==> exists|at: int| is_first_of_kind(options, kind, at),
    decreases options.len(),
{
    if options.len() > 0 {
        let rest = options.drop_first();
        lemma_first_of_kind(rest, kind);
        if options[0].kind == kind {
            assert(is_first_of_kind(options, kind, 0));
            assert forall|at: int| #[trigger] is_first_of_kind(options, kind, at) implies at
                == 0 by {
                if at > 0 {
                    assert(options[0].kind != kind);
                }
            }
        } else {
            assert forall|at: int| #[trigger]
                is_first_of_kind(options, kind, at) implies permission::first_of_kind(options, kind)
                == Some(options[at]) by {
                assert(at > 0);
                assert forall|i: int| 0 <= i < at - 1 implies (#[trigger] rest[i]).kind != kind by {
                    assert(rest[i] == options[i + 1]);
                }
                assert(is_first_of_kind(rest, kind, at - 1));
            }
            if has_kind(options, kind) {
                let i = choose|i: int|
                    0 <= i < options.len() && (#[trigger] options[i]).kind == kind;
                assert(rest[i - 1].kind == kind);
                assert(has_kind(rest, kind));
                let at = choose|at: int| is_first_of_kind(rest, kind, at);
                assert forall|j: int| 0 <= j < at + 1 implies (#[trigger] options[j]).kind
                    != kind by {
                    if j > 0 {
                        assert(options[j] == rest[j - 1]);
                    }
                }
                assert(is_first_of_kind(options, kind, at + 1));
            }
            if has_kind(rest, kind) {
                let i = choose|i: int| 0 <= i < rest.len() && (#[trigger] rest[i]).kind == kind;
                assert(options[i + 1].kind == kind);
            }
        }
    }
}

/// The option that is found for a kind is the first one of it, and none is found
/// only where there is none.
pub proof fn law_first_option_of_a_kind_is_found(
    options: Vec<PermissionOption>,
    kind: PermissionOptionKind,
    at: int,
    found: Option<&PermissionOption>,
)
    requires
        call_ensures(find_kind, (&options, kind), found),
    ensures
        found is Some <==> has_kind(options@, kind),
        is_first_of_kind(options@, kind, at) ==> found == Some(&options@[at]),
{
    lemma_first_of_kind(options@, kind);
}

/// A question is dismissed with the first option that rejects it once.
pub proof fn law_questions_are_dismissed_once(
    options: Vec<PermissionOption>,
    at: int,
    found: Option<&PermissionOption>,
)
    requires
        call_ensures(skip_option, (&options,), found),
    ensures
        found is Some <==> has_kind(options@, PermissionOptionKind::RejectOnce),
        is_first_of_kind(options@, PermissionOptionKind::RejectOnce, at) ==> found == Some(
            &options@[at],
        ),
{
    lemma_first_of_kind(options@, PermissionOptionKind::RejectOnce);
}

/// A choice is answered with the id of its option, and no choice cancels.
pub proof fn law_choice_is_answered_with_its_id(
    choice: Option<&PermissionOption>,
    outcome: RequestPermissionOutcome,
)
    requires
        call_ensures(choose_option, (choice,), outcome),
    ensures
        choice matches Some(option) ==> outcome is Selected && outcome->option_id@
            == option.option_id@,
        choice is None ==> outcome is Cancelled,
{
}

/// Where nobody can be asked, a question is only ever dismissed; anything else is
/// allowed once, or else always, or else answered with the first option; and
/// without an option it is cancelled.
pub proof fn law_unattended_requests_are_allowed_but_questions_dismissed(
    options: Vec<PermissionOption>,
    is_question: bool,
    outcome: RequestPermissionOutcome,
    at: int,
)
    requires
        call_ensures(choose_unattended, (&options, is_question), outcome),
    ensures
        is_question && !has_kind(options@, PermissionOptionKind::RejectOnce)
            ==> outcome is Cancelled,
        is_question && is_first_of_kind(options@, PermissionOptionKind::RejectOnce, at)
            ==> outcome is Selected && outcome->option_id@ == options@[at].option_id@,
        !is_question && is_first_of_kind(options@, PermissionOptionKind::AllowOnce, at)
            ==> outcome is Selected && outcome->option_id@ == options@[at].option_id@,
        !is_question && !has_kind(options@, PermissionOptionKind::AllowOnce) && is_first_of_kind(
            options@,
            PermissionOptionKind::AllowAlways,
            at,
        ) ==> outcome is Selected && outcome->option_id@ == options@[at].option_id@,
        !is_question && !has_kind(options@, PermissionOptionKind::AllowOnce) && !has_kind(
            options@,
            PermissionOptionKind::AllowAlways,
        ) && options@.len() > 0 ==> outcome is Selected && outcome->option_id@
            == options@[0].option_id@,
        options@.len() == 0 ==> outcome is Cancelled,
{
    lemma_first_of_kind(options@, PermissionOptionKind::RejectOnce);
    lemma_first_of_kind(options@, PermissionOptionKind::AllowOnce);
    lemma_first_of_kind(options@, PermissionOptionKind::AllowAlways);
}

/// Without an approval service a permission request is answered at once, by the
/// rules for where nobody can be asked, and is reported as it came.
pub proof fn law_request_without_service_is_answered_at_once(
    client: &mut AcpClient,
    request: RequestPermissionRequest,
    action: PermissionAction,
    is_question: bool,
    outcome: RequestPermissionOutcome,
)
    requires
        call_ensures(AcpClient::request_permission, (client, request), action),
        old(client)@.approvals is None,
        is_question == (request.tool_call.title is Some && request.tool_call.title->0@
            == "AskUserQuestion"@),
        call_ensures(choose_unattended, (&request.options, is_question), outcome),
    ensures
        action is Respond,
        action->Respond_0 is Ok,
        action->Respond_0->Ok_0@ == outcome@,
        final(client)@.events == old(client)@.events.push(
            AcpEvent::RequestPermission(request, None),
        ),
        final(client)@.feedback == old(client)@.feedback,
        final(client)@.approvals == old(client)@.approvals,
{
}

/// With an approval service a permission request is never answered by itself: an
/// approval is asked for, for questions where it stands for some, under the title
/// of the request.
pub proof fn law_request_with_service_is_asked_for(
    client: &mut AcpClient,
    request: RequestPermissionRequest,
    action: PermissionAction,
)
    requires
        call_ensures(AcpClient::request_permission, (client, request), action),
        old(client)@.approvals is Some,
    ensures
        action !is Respond,
        final(client)@ == old(client)@,
        action is CreateQuestionApproval <==> request.tool_call.title is Some
            && request.tool_call.title->0@ == "AskUserQuestion"@,
        action matches PermissionAction::CreateQuestionApproval {
            title,
            question_count,
            request: asked,
        } ==> title@ == request.tool_call.title->0@ && question_count == 1 && asked == request,
        action matches PermissionAction::CreateToolApproval { title, request: asked } ==> {
            &&& asked == request
            &&& request.tool_call.title matches Some(own) ==> title@ == own@
            &&& request.tool_call.title is None ==> title@ == "tool"@
        },
{
}

/// An approval that was created is waited for, and reported with the request and
/// the time at which it runs out.
pub proof fn law_created_approval_is_waited_for(
    client: &mut AcpClient,
    request: RequestPermissionRequest,
    approval_id: String,
    requested_at: Timestamp,
    timeout_seconds: i64,
    created: CreatedApproval,
)
    requires
        i64::MIN <= requested_at.seconds + timeout_seconds <= i64::MAX,
        call_ensures(
            AcpClient::approval_created,
            (client, request, Ok(approval_id), requested_at, timeout_seconds),
            created,
        ),
    ensures
        created matches CreatedApproval::Wait(waiting) && waiting.approval_id@ == approval_id@
            && waiting.tool_call_id@ == request.tool_call.tool_call_id@ && waiting.options@
            == request.options@,
        final(client)@.events.len() == old(client)@.events.len() + 1,
        final(client)@.events.drop_last() == old(client)@.events,
        final(client)@.events.last() matches AcpEvent::RequestPermission(reported, Some(meta))
            && reported == request && meta.approval_id@ == approval_id@ && meta.requested_at
            == requested_at && meta.timeout_at.seconds == requested_at.seconds + timeout_seconds
            && meta.timeout_at.nanos == requested_at.nanos,
        final(client)@.feedback == old(client)@.feedback,
{
    assert(final(client)@.events.drop_last() =~= old(client)@.events);
}

/// An approval that could not be created never grants anything: the request is
/// cancelled or fails, and is reported without an approval.
pub proof fn law_failed_approval_grants_nothing(
    client: &mut AcpClient,
    request: RequestPermissionRequest,
    error: ExecutorApprovalError,
    requested_at: Timestamp,
    timeout_seconds: i64,
    created: CreatedApproval,
)
    requires
        i64::MIN <= requested_at.seconds + timeout_seconds <= i64::MAX,
        call_ensures(
            AcpClient::approval_created,
            (client, request, Err(error), requested_at, timeout_seconds),
            created,
        ),
    ensures
        created is Respond,
        error is Cancelled ==> created->Respond_0 is Ok && created->Respond_0->Ok_0 is Cancelled,
        error !is Cancelled ==> created->Respond_0 is Err
            && created->Respond_0->Err_0 is InternalError,
        final(client)@.events == old(client)@.events.push(
            AcpEvent::RequestPermission(request, None),
        ),
        final(client)@.feedback == old(client)@.feedback,
{
}

/// A tool call is allowed only if it was approved, with the first option that
/// allows it once. A denial selects the first option that rejects it once, or
/// cancels; and what timed out is cancelled.
pub proof fn law_only_approved_calls_are_allowed(
    client: &mut AcpClient,
    waiting: WaitingPermission,
    status: ApprovalStatus,
    reply: PermissionReply,
    at: int,
)
    requires
        call_ensures(AcpClient::tool_approval_resolved, (client, waiting, Ok(status)), reply),
    ensures
        status is Approved && is_first_of_kind(
            waiting.options@,
            PermissionOptionKind::AllowOnce,
            at,
        ) ==> reply is Ok && reply->Ok_0 is Selected && reply->Ok_0->option_id@
            == waiting.options@[at].option_id@,
        status is Approved && !has_kind(waiting.options@, PermissionOptionKind::AllowOnce)
            ==> reply is Err && reply->Err_0 is InvalidRequest && final(client)@ == old(client)@,
        status is Denied && is_first_of_kind(
            waiting.options@,
            PermissionOptionKind::RejectOnce,
            at,
        ) ==> reply is Ok && reply->Ok_0 is Selected && reply->Ok_0->option_id@
            == waiting.options@[at].option_id@,
        status is Denied && !has_kind(waiting.options@, PermissionOptionKind::RejectOnce)
            ==> reply is Ok && reply->Ok_0 is Cancelled,
        status is TimedOut || status is Pending ==> reply is Ok && reply->Ok_0 is Cancelled,
{
    lemma_first_of_kind(waiting.options@, PermissionOptionKind::AllowOnce);
    lemma_first_of_kind(waiting.options@, PermissionOptionKind::RejectOnce);
}

/// The answer to an approval is reported for its tool call, and the reason of a
/// denial waits for the agent, where it is more than white space.
pub proof fn law_answer_to_an_approval_is_reported(
    client: &mut AcpClient,
    waiting: WaitingPermission,
    status: ApprovalStatus,
    reply: PermissionReply,
)
    requires
        call_ensures(AcpClient::tool_approval_resolved, (client, waiting, Ok(status)), reply),
        reply is Ok,
    ensures
        final(client)@.events == old(client)@.events.push(
            AcpEvent::ApprovalResponse(
                ApprovalResponse { tool_call_id: waiting.tool_call_id, status },
            ),
        ),
        final(client)@.feedback == (match status {
            ApprovalStatus::Denied { reason: Some(reason) } if text::trimmed(reason@).len() > 0 => {
                old(client)@.feedback.push(text::trimmed(reason@))
            },
            _ => old(client)@.feedback,
        }),
{
}

/// A wait that failed grants nothing, and nothing is reported.
pub proof fn law_failed_wait_grants_nothing(
    a: &mut AcpClient,
    b: &mut AcpClient,
    waiting: WaitingPermission,
    questions: WaitingPermission,
    error: ExecutorApprovalError,
    other: ExecutorApprovalError,
    reply: PermissionReply,
    question_reply: PermissionReply,
)
    requires
        call_ensures(AcpClient::tool_approval_resolved, (a, waiting, Err(error)), reply),
        call_ensures(AcpClient::question_resolved, (b, questions, Err(other)), question_reply),
    ensures
        error is Cancelled ==> reply is Ok && reply->Ok_0 is Cancelled,
        error !is Cancelled ==> reply is Err && reply->Err_0 is InternalError,
        other is Cancelled ==> question_reply is Ok && question_reply->Ok_0 is Cancelled,
        other !is Cancelled ==> question_reply is Err && question_reply->Err_0 is InternalError,
        final(a)@ == old(a)@,
        final(b)@ == old(b)@,
{
}

/// Questions that were answered are answered with the option that was selected,
/// or else dismissed; ones that timed out are cancelled.
pub proof fn law_questions_are_answered_as_selected(
    client: &mut AcpClient,
    waiting: WaitingPermission,
    status: QuestionStatus,
    reply: PermissionReply,
    answers: Vec<QuestionAnswer>,
    matched: (Option<String>, Vec<QuestionAnswer>, Vec<QuestionAnswer>),
    at: int,
)
    requires
        call_ensures(AcpClient::question_resolved, (client, waiting, Ok(status)), reply),
        call_ensures(match_question_option, (&waiting.options, &answers), matched),
        status is Answered ==> status == (QuestionStatus::Answered { answers }),
    ensures
        reply is Ok,
        status is TimedOut ==> reply->Ok_0 is Cancelled,
        status is Answered && matched.0 is Some ==> reply->Ok_0 is Selected
            && reply->Ok_0->option_id@ == matched.0->0@,
        status is Answered && matched.0 is None && is_first_of_kind(
            waiting.options@,
            PermissionOptionKind::RejectOnce,
            at,
        ) ==> reply->Ok_0 is Selected && reply->Ok_0->option_id@
            == waiting.options@[at].option_id@,
        status is Answered && matched.0 is None && !has_kind(
            waiting.options@,
            PermissionOptionKind::RejectOnce,
        ) ==> reply->Ok_0 is Cancelled,
        final(client)@.events == old(client)@.events.push(
            AcpEvent::QuestionResponse(
                QuestionResponse { tool_call_id: waiting.tool_call_id, status },
            ),
        ),
{
    lemma_first_of_kind(waiting.options@, PermissionOptionKind::RejectOnce);
    if matched.0 is Some {
        assert(matched.0.deep_view() == Some(matched.0->0@));
    }
}

/// Answers that the outcome has no place for wait for the agent as feedback:
/// first those that are valid, then the others.
pub proof fn law_other_answers_become_feedback(
    client: &mut AcpClient,
    waiting: WaitingPermission,
    answers: Vec<QuestionAnswer>,
    reply: PermissionReply,
    matched: (Option<String>, Vec<QuestionAnswer>, Vec<QuestionAnswer>),
    additional_header: &str,
    custom_header: &str,
    additional: String,
    custom: String,
)
    requires
        call_ensures(
            AcpClient::question_resolved,
            (client, waiting, Ok(QuestionStatus::Answered { answers })),
            reply,
        ),
        call_ensures(match_question_option, (&waiting.options, &answers), matched),
        additional_header@ == "The user also answered additional question(s):"@,
        custom_header@ == "The user answered the question(s) with custom text:"@,
        call_ensures(format_answer_feedback, (additional_header, &matched.1), additional),
        call_ensures(format_answer_feedback, (custom_header, &matched.2), custom),
        text::trimmed(additional@).len() > 0,
        text::trimmed(custom@).len() > 0,
    ensures
        final(client)@.feedback == old(client)@.feedback + (if matched.1@.len() > 0 {
            seq![text::trimmed(additional@)]
        } else {
            Seq::empty()
        }) + (if matched.2@.len() > 0 {
            seq![text::trimmed(custom@)]
        } else {
            Seq::empty()
        }),
{
    assert(matched.1.deep_view().len() == matched.1@.len());
    assert(matched.2.deep_view().len() == matched.2@.len());
    assert(final(client)@.feedback =~= old(client)@.feedback + (if matched.1@.len() > 0 {
        seq![text::trimmed(additional@)]
    } else {
        Seq::empty()
    }) + (if matched.2@.len() > 0 {
        seq![text::trimmed(custom@)]
    } else {
        Seq::empty()
    }));
}

/// Whether a label names an option that allows something once.
pub open spec fn names_an_option(options: Seq<PermissionOption>, label: Seq<char>) -> bool {
    exists|i: int|
        0 <= i < options.len() && (#[trigger] options[i]).kind == PermissionOptionKind::AllowOnce
            && options[i].name@ == label
}

pub proof fn lemma_offered(options: Seq<PermissionOption>, label: Seq<char>, at: int)
    ensures
        permission::offered(options, label) is Some <==> names_an_option(options, label),
        0 <= at < options.len() && options[at].kind == PermissionOptionKind::AllowOnce
            && options[at].name@ == label && (forall|i: int|
            0 <= i < at ==> !((#[trigger] options[i]).kind == PermissionOptionKind::AllowOnce
                && options[i].name@ == label)) ==> permission::offered(options, label) == Some(
            options[at],
        ),
    decreases options.len(),
{
    if options.len() > 0 {
        let rest = options.drop_first();
        lemma_offered(rest, label, at - 1);
        let here = options[0].kind == PermissionOptionKind::AllowOnce && options[0].name@ == label;
        if here {
            assert(names_an_option(options, label));
            if at > 0 {
                assert(options[0].kind == PermissionOptionKind::AllowOnce);
            }
        } else {
            if names_an_option(options, label) {
                let i = choose|i: int|
                    0 <= i < options.len() && (#[trigger] options[i]).kind
                        == PermissionOptionKind::AllowOnce && options[i].name@ == label;
                assert(rest[i - 1] == options[i]);
            }
            if names_an_option(rest, label) {
                let i = choose|i: int|
                    0 <= i < rest.len() && (#[trigger] rest[i]).kind
                        == PermissionOptionKind::AllowOnce && rest[i].name@ == label;
                assert(options[i + 1] == rest[i]);
            }
            assert forall|i: int| 0 <= i < rest.len() implies #[trigger] rest[i] == options[i
                + 1] by {}
        }
    }
}

proof fn lemma_first_label(options: Seq<PermissionOption>, labels: Seq<Seq<char>>, at: int)
    requires
        0 <= at < labels.len(),
        names_an_option(options, labels[at]),
        forall|i: int| 0 <= i < at ==> !names_an_option(options, #[trigger] labels[i]),
    ensures
        permission::first_offered(options, labels) == Some(labels[at]),
    decreases labels.len(),
{
    let before = labels.drop_last();
    if at < before.len() {
        assert forall|i: int| 0 <= i < at implies !names_an_option(options, #[trigger] before[i]) by {
            assert(before[i] == labels[i]);
        }
        lemma_first_label(options, before, at);
    } else {
        lemma_no_label(options, before);
        lemma_offered(options, labels[at], 0);
    }
}

proof fn lemma_no_label(options: Seq<PermissionOption>, labels: Seq<Seq<char>>)
    requires
        forall|i: int| 0 <= i < labels.len() ==> !names_an_option(options, #[trigger] labels[i]),
    ensures
        permission::first_offered(options, labels) is None,
    decreases labels.len(),
{
    if labels.len() > 0 {
        let before = labels.drop_last();
        assert forall|i: int| 0 <= i < before.len() implies !names_an_option(
            options,
            #[trigger] before[i],
        ) by {
            assert(before[i] == labels[i]);
        }
        lemma_no_label(options, before);
        assert(!names_an_option(options, labels[labels.len() - 1]));
        lemma_offered(options, labels.last(), 0);
    }
}

/// The option that is selected is the first one with the name that the user gave
/// first to the first question; where no label names one, none is selected.
pub proof fn law_first_named_option_is_selected(
    options: Vec<PermissionOption>,
    answers: Vec<QuestionAnswer>,
    label: int,
    option: int,
    matched: (Option<String>, Vec<QuestionAnswer>, Vec<QuestionAnswer>),
)
    requires
        call_ensures(match_question_option, (&options, &answers), matched),
        answers@.len() > 0,
    ensures
        (forall|i: int|
            0 <= i < answers@[0].answer@.len() ==> !names_an_option(
                options@,
                (#[trigger] answers@[0].answer@[i])@,
            )) ==> matched.0 is None,
        0 <= label < answers@[0].answer@.len() && names_an_option(
            options@,
            answers@[0].answer@[label]@,
        ) && (forall|i: int|
            0 <= i < label ==> !names_an_option(options@, (#[trigger] answers@[0].answer@[i])@))
            && 0 <= option < options@.len() && options@[option].kind
            == PermissionOptionKind::AllowOnce && options@[option].name@
            == answers@[0].answer@[label]@ && (forall|i: int|
            0 <= i < option ==> !((#[trigger] options@[i]).kind == PermissionOptionKind::AllowOnce
                && options@[i].name@ == answers@[0].answer@[label]@)) ==> matched.0 is Some
            && matched.0->0@ == options@[option].option_id@,
{
    let labels = answers@[0].answer.deep_view();
    assert(answers.deep_view()[0] == answers@[0]@);
    assert(answers.deep_view()[0].answer == labels);
    assert forall|i: int| 0 <= i < labels.len() implies #[trigger] labels[i]
        == answers@[0].answer@[i]@ by {}
    if forall|i: int|
        0 <= i < answers@[0].answer@.len() ==> !names_an_option(
            options@,
            (#[trigger] answers@[0].answer@[i])@,
        ) {
        assert forall|i: int| 0 <= i < labels.len() implies !names_an_option(
            options@,
            #[trigger] labels[i],
        ) by {
            assert(labels[i] == answers@[0].answer@[i]@);
        }
        lemma_no_label(options@, labels);
        assert(matched.0.deep_view() is None);
    }
    if 0 <= label < answers@[0].answer@.len() && names_an_option(
        options@,
        answers@[0].answer@[label]@,
    ) && (forall|i: int|
        0 <= i < label ==> !names_an_option(options@, (#[trigger] answers@[0].answer@[i])@)) {
        assert forall|i: int| 0 <= i < label implies !names_an_option(
            options@,
            #[trigger] labels[i],
        ) by {
            assert(labels[i] == answers@[0].answer@[i]@);
        }
        assert(labels[label] == answers@[0].answer@[label]@);
        lemma_first_label(options@, labels, label);
        lemma_offered(options@, labels[label], option);
        assert(matched.0.deep_view() is Some);
    }
}

/// No label that the user gave is lost: each is the selected one, or stands among
/// the additional or the custom answers, as often as it was given.
pub proof fn law_every_label_finds_a_place(
    options: Vec<PermissionOption>,
    answers: Vec<QuestionAnswer>,
    matched: (Option<String>, Vec<QuestionAnswer>, Vec<QuestionAnswer>),
)
    requires
        call_ensures(match_question_option, (&options, &answers), matched),
    ensures
        permission::given_labels(answers.deep_view()) == permission::selected_label(
            options@,
            answers.deep_view(),
        ).add(permission::given_labels(matched.1.deep_view())).add(
            permission::given_labels(matched.2.deep_view()),
        ),
        matched.0 is Some <==> permission::selected_label(options@, answers.deep_view()).len() == 1,
        answers@.len() == 0 ==> matched.0 is None && matched.1@.len() == 0 && matched.2@.len() == 0,
{
    permission::law_no_answer_is_lost(options@, answers.deep_view());
    assert(matched.0.deep_view() is Some <==> matched.0 is Some);
    assert(matched.1.deep_view().len() == matched.1@.len());
    assert(matched.2.deep_view().len() == matched.2@.len());
    assert(answers.deep_view().len() == answers@.len());
}

/// Feedback has its header, and after it a line for each answer in their order
/// with its question and its labels.
pub proof fn law_feedback_has_a_line_for_each_answer(
    header: &str,
    answers: Vec<QuestionAnswer>,
    more: Vec<QuestionAnswer>,
    answer: QuestionAnswer,
    labels: String,
    count: usize,
    separator: &str,
    shorter: String,
    longer: String,
)
    requires
        call_ensures(format_answer_feedback, (header, &answers), shorter),
        call_ensures(format_answer_feedback, (header, &more), longer),
        more@ == answers@.push(answer),
        separator@ == ", "@,
        call_ensures(text::join, (&answer.answer, count, separator), labels),
        count == answer.answer@.len(),
    ensures
        ({
            let line = "- "@ + answer.question@ + ": "@ + labels@;
            longer@ == if answers@.len() == 0 {
                header@ + "\n"@ + line
            } else {
                shorter@ + "\n"@ + line
            }
        }),
{
    let lines = answers.deep_view().map_values(
        |answer| permission::feedback_line(answer),
    );
    let all = more.deep_view().map_values(|answer| permission::feedback_line(answer));
    assert(more.deep_view() =~= answers.deep_view().push(answer@));
    assert(all =~= lines.push(permission::feedback_line(answer@)));
    assert(all.drop_last() =~= lines);
    assert(answer.answer.deep_view().take(answer.answer@.len() as int)
        =~= answer.answer.deep_view());
    let line = "- "@ + answer.question@ + ": "@ + labels@;
    assert(all.last() == line);
    if answers@.len() == 0 {
        assert(all.len() == 1);
    } else {
        let joined = text::joined(lines, "\n"@);
        assert(header@ + "\n"@ + (joined + "\n"@ + line) =~= header@ + "\n"@ + joined + "\n"@
            + line);
    }
}

/// Feedback waits in its order, without the white space around it; what is only
/// white space does not wait.
pub proof fn law_feedback_waits_in_order(client: &mut AcpClient, message: String)
    requires
        call_ensures(AcpClient::enqueue_feedback, (client, message), ()),
    ensures
        final(client)@.events == old(client)@.events,
        final(client)@.approvals == old(client)@.approvals,
        text::trimmed(message@).len() > 0 ==> final(client)@.feedback
            == old(client)@.feedback.push(text::trimmed(message@)),
        text::trimmed(message@).len() == 0 ==> final(client)@.feedback == old(client)@.feedback,
{
}

/// What waits is handed out once, in its order.
pub proof fn law_what_waits_is_handed_out_once(
    a: &mut AcpClient,
    b: &mut AcpClient,
    feedback: Vec<String>,
    events: Vec<AcpEvent>,
)
    requires
        call_ensures(AcpClient::drain_feedback, (a,), feedback),
        call_ensures(AcpClient::take_events, (b,), events),
    ensures
        feedback.deep_view() == old(a)@.feedback,
        final(a)@.feedback.len() == 0,
        final(a)@.events == old(a)@.events,
        final(a)@.approvals == old(a)@.approvals,
        events@ == old(b)@.events,
        final(b)@.events.len() == 0,
        final(b)@.feedback == old(b)@.feedback,
        final(b)@.approvals == old(b)@.approvals,
{
}

/// A new client has nothing to send and asks the service that it was given.
pub proof fn law_new_client_has_nothing_to_send(
    approvals: Option<ApprovalService>,
    client: AcpClient,
)
    requires
        call_ensures(AcpClient::new, (approvals,), client),
    ensures
        client@.approvals == approvals,
        client@.events.len() == 0,
        client@.feedback.len() == 0,
{
}

/// A prompt is reported as it is, under an id of its own.
pub proof fn law_prompt_is_reported(client: &mut AcpClient, prompt: &str)
    requires
        call_ensures(AcpClient::record_user_prompt_event, (client, prompt), ()),
    ensures
        final(client)@.events.len() == old(client)@.events.len() + 1,
        final(client)@.events.drop_last() == old(client)@.events,
        final(client)@.events.last() matches AcpEvent::User(recorded) && recorded.prompt@
            == prompt@ && recorded.message_id is Some,
        final(client)@.feedback == old(client)@.feedback,
{
    assert(final(client)@.events.drop_last() =~= old(client)@.events);
}

/// What the agent says, thinks, plans and does is reported as such, and anything
/// else as the notification that it came in.
pub proof fn law_notification_is_reported(
    client: &mut AcpClient,
    notification: SessionNotification,
)
    requires
        call_ensures(AcpClient::session_notification, (client, notification), ()),
    ensures
        final(client)@.events.len() == old(client)@.events.len() + 1,
        final(client)@.events.drop_last() == old(client)@.events,
        final(client)@.feedback == old(client)@.feedback,
        notification.update matches SessionUpdate::AgentMessageChunk(content)
            ==> final(client)@.events.last() == AcpEvent::Message(content),
        notification.update matches SessionUpdate::AgentThoughtChunk(content)
            ==> final(client)@.events.last() == AcpEvent::Thought(content),
        notification.update matches SessionUpdate::ToolCall(call) ==> final(client)@.events.last()
            == AcpEvent::ToolCall(call),
        notification.update matches SessionUpdate::ToolCallUpdate(update)
            ==> final(client)@.events.last() == AcpEvent::ToolUpdate(update),
        notification.update matches SessionUpdate::Plan(entries) ==> final(client)@.events.last()
            == AcpEvent::Plan(entries),
        notification.update is AvailableCommandsUpdate || notification.update is CurrentModeUpdate
            || notification.update is Other ==> final(client)@.events.last() == AcpEvent::Other(
            notification,
        ),
{
    assert(final(client)@.events.drop_last() =~= old(client)@.events);
}

} // verus!
