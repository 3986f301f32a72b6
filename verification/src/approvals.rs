//! Approvals: what a user is asked, and how the request ends.

use vstd::prelude::*;

verus! {

/// A point in time: seconds since the Unix epoch, and nanoseconds into the
/// second.
#[derive(Debug, Clone, Copy, PartialEq, Eq, Structural)]
pub struct Timestamp {
    pub seconds: i64,
    pub nanos: u32,
}

/// An approval service attached to an agent, by the number under which the
/// program keeps it.
#[derive(Debug, Clone, Copy, PartialEq, Eq, Structural)]
pub struct ApprovalService {
    pub handle: u64,
}

/// A question and the labels the user answered it with.
#[derive(Debug)]
pub struct QuestionAnswer {
    pub question: String,
    pub answer: Vec<String>,
}

#[verifier::ext_equal]
pub struct QuestionAnswerView {
    pub question: Seq<char>,
    pub answer: Seq<Seq<char>>,
}

impl View for QuestionAnswer {
    type V = QuestionAnswerView;

    open spec fn view(&self) -> QuestionAnswerView {
        QuestionAnswerView { question: self.question@, answer: self.answer.deep_view() }
    }
}

impl DeepView for QuestionAnswer {
    type V = QuestionAnswerView;

    open spec fn deep_view(&self) -> QuestionAnswerView {
        self.view()
    }
}

impl Clone for QuestionAnswer {
    fn clone(&self) -> (res: Self)
        ensures
            res@ == self@,
    {
        let answer = self.answer.clone();
        assert(answer@ =~= self.answer@);
        QuestionAnswer { question: self.question.clone(), answer }
    }
}

/// How a question approval ended.
#[derive(Debug)]
pub enum QuestionStatus {
    Answered { answers: Vec<QuestionAnswer> },
    TimedOut,
}

/// Where a tool approval stands.
#[derive(Debug)]
pub enum ApprovalStatus {
    Pending,
    Approved,
    Denied { reason: Option<String> },
    TimedOut,
}

impl Clone for ApprovalStatus {
    fn clone(&self) -> (res: Self)
        ensures
            res == *self,
    {
        match self {
            ApprovalStatus::Pending => ApprovalStatus::Pending,
            ApprovalStatus::Approved => ApprovalStatus::Approved,
            ApprovalStatus::Denied { reason } => ApprovalStatus::Denied { reason: reason.clone() },
            ApprovalStatus::TimedOut => ApprovalStatus::TimedOut,
        }
    }
}

/// Why an approval service gave no answer.
#[derive(Debug)]
pub enum ExecutorApprovalError {
    ServiceUnavailable,
    Cancelled,
    RequestFailed { message: String },
}

/// Links a permission request to the approval that was created for it.
#[derive(Debug)]
pub struct PendingApprovalMeta {
    pub approval_id: String,
    pub requested_at: Timestamp,
    pub timeout_at: Timestamp,
}

impl Clone for PendingApprovalMeta {
    fn clone(&self) -> (res: Self)
        ensures
            res == *self,
    {
        PendingApprovalMeta {
            approval_id: self.approval_id.clone(),
            requested_at: self.requested_at,
            timeout_at: self.timeout_at,
        }
    }
}

} // verus!
