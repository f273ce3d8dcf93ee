use vstd::prelude::*;
use crate::apikey::{in_list, listed, ApiKey};
use crate::context::Context;
use crate::policy::AbstractPolicy;
use crate::timestamp::Timestamp;

verus! {

/// One student's answer to one question of a lecture.
pub struct LectureAnswer {
    pub id: u64,
    pub user: String,
    pub answer: String,
    pub time: String,
    pub grade: u64,
}

/// A stored answer: who gave it, to which question of which lecture, what
/// it says, when it was given and the grade it got.
pub struct AnswerRow {
    pub email: String,
    pub lecture: u64,
    pub question: u64,
    pub answer: String,
    pub submitted_at: Timestamp,
    pub grade: u64,
}

/// How a stored answer is shown: by question number, author, content,
/// submission time as text, and grade.
pub open spec fn shown_as(a: LectureAnswer, row: AnswerRow) -> bool {
    &&& a.id == row.question
    &&& a.user@ == row.email@
    &&& a.answer@ == row.answer@
    &&& a.time@ == row.submitted_at.text()
    &&& a.grade == row.grade
}

/// The answers of a lecture as shown for grading, in stored order.
pub fn lecture_answers(rows: &Vec<AnswerRow>) -> (r: Vec<LectureAnswer>)
    ensures
        r@.len() == rows@.len(),
        forall|i: int| 0 <= i < rows@.len() ==> shown_as(#[trigger] r@[i], rows@[i]),
{
    let mut out: Vec<LectureAnswer> = Vec::new();
    let mut i: usize = 0;
    while i < rows.len()
        invariant
            i <= rows@.len(),
            out@.len() == i,
            forall|k: int| 0 <= k < i ==> shown_as(#[trigger] out@[k], rows@[k]),
        decreases rows@.len() - i,
    {
        let row = &rows[i];
        out.push(LectureAnswer {
            id: row.question,
            user: row.email.clone(),
            answer: row.answer.clone(),
            time: row.submitted_at.format(),
            grade: row.grade,
        });
        i = i + 1;
    }
    out
}

/// Who may read the content of an answer: its author, or an administrator.
pub struct AnswerAccessPolicy {
    admins: Vec<String>,
}

impl AnswerAccessPolicy {
    /// The administrators' emails.
    pub closed spec fn admins(&self) -> Seq<String> {
        self.admins@
    }

    /// A policy with the given administrators.
    pub fn new(admins: Vec<String>) -> (r: Self)
        ensures
            r.admins() == admins@,
    {
        AnswerAccessPolicy { admins }
    }
}

impl<D> AbstractPolicy<LectureAnswer, ApiKey, D> for AnswerAccessPolicy {
    /// The requester is authenticated, and is the answer's author or an
    /// administrator.
    open spec fn allows(&self, data: LectureAnswer, context: Context<ApiKey>, db: D) -> bool {
        match context.principal() {
            None => false,
            Some(k) => data.user@ == k.user@ || in_list(self.admins(), k.user@),
        }
    }

    fn check(&self, data: &LectureAnswer, context: &Context<ApiKey>, db: &D) -> (r: bool) {
        match context.get_user() {
            None => false,
            Some(k) => data.user == k.user || listed(&self.admins, &k.user),
        }
    }
}

} // verus!
