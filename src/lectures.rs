use vstd::prelude::*;
use vstd::string::StringExecFns;
use crate::answers::AnswerRow;
use crate::timestamp::Timestamp;

verus! {

broadcast use vstd::seq_lib::group_to_multiset_ensures;

/// A question of a lecture as stored: its number and its prompt.
pub struct QuestionRow {
    pub id: u64,
    pub prompt: String,
}

/// A student's stored answer to the question numbered `question`.
pub struct SubmittedAnswer {
    pub question: u64,
    pub text: String,
}

/// A question as shown to a student, with the student's answer if any.
pub struct LectureQuestion {
    pub id: u64,
    pub prompt: String,
    pub answer: Option<String>,
}

impl LectureQuestion {
    /// The question's number, prompt and answer as plain values.
    pub open spec fn view(self) -> (u64, Seq<char>, Option<Seq<char>>) {
        (self.id, self.prompt@, match self.answer {
            Some(a) => Some(a@),
            None => None,
        })
    }
}

/// The answer that stands for question `id`: the last one given to it.
pub open spec fn answer_for(answers: Seq<SubmittedAnswer>, id: u64) -> Option<Seq<char>>
    decreases answers.len(),
{
    if answers.len() == 0 {
        None
    } else if answers.last().question == id {
        Some(answers.last().text@)
    } else {
        answer_for(answers.drop_last(), id)
    }
}

/// How question `q` is shown, given the student's answers.
pub open spec fn shown(q: QuestionRow, answers: Seq<SubmittedAnswer>) -> (u64, Seq<char>, Option<Seq<char>>) {
    (q.id, q.prompt@, answer_for(answers, q.id))
}

/// The view of each question, in order.
pub open spec fn views(qs: Seq<LectureQuestion>) -> Seq<(u64, Seq<char>, Option<Seq<char>>)> {
    qs.map_values(|q: LectureQuestion| q.view())
}

/// How each of the questions is shown, in their stored order.
pub open spec fn shown_all(questions: Seq<QuestionRow>, answers: Seq<SubmittedAnswer>) -> Seq<(u64, Seq<char>, Option<Seq<char>>)> {
    questions.map_values(|q: QuestionRow| shown(q, answers))
}

/// The question numbers ascend.
pub open spec fn sorted_by_id(qs: Seq<LectureQuestion>) -> bool {
    forall|i: int, j: int| 0 <= i < j < qs.len() ==> #[trigger] qs[i].id <= #[trigger] qs[j].id
}

/// The answer that stands for question `id`, copied.
fn find_answer(answers: &Vec<SubmittedAnswer>, id: u64) -> (r: Option<String>)
    ensures
        r is None <==> answer_for(answers@, id) is None,
        r matches Some(s) ==> answer_for(answers@, id) == Some(s@),
{
    let mut found: Option<String> = None;
    let mut j: usize = 0;
    while j < answers.len()
        invariant
            j <= answers@.len(),
            found is None <==> answer_for(answers@.subrange(0, j as int), id) is None,
            found matches Some(s) ==> answer_for(answers@.subrange(0, j as int), id) == Some(s@),
        decreases answers@.len() - j,
    {
        assert(answers@.subrange(0, j as int + 1).drop_last() =~= answers@.subrange(0, j as int));
        if answers[j].question == id {
            found = Some(answers[j].text.clone());
        }
        j = j + 1;
    }
    assert(answers@.subrange(0, answers@.len() as int) =~= answers@);
    found
}

/// The questions of a lecture with the student's answers filled in (the
/// last answer given to a question stands), ordered by question number.
pub fn lecture_questions(questions: &Vec<QuestionRow>, answers: &Vec<SubmittedAnswer>) -> (r: Vec<LectureQuestion>)
    ensures
        r@.len() == questions@.len(),
        sorted_by_id(r@),
        views(r@).to_multiset() == shown_all(questions@, answers@).to_multiset(),
{
    let mut out: Vec<LectureQuestion> = Vec::new();
    let mut i: usize = 0;
    while i < questions.len()
        invariant
            i <= questions@.len(),
            out@.len() == i,
            sorted_by_id(out@),
            views(out@).to_multiset() == shown_all(questions@.subrange(0, i as int), answers@).to_multiset(),
        decreases questions@.len() - i,
    {
        let id = questions[i].id;
        let q = LectureQuestion { id, prompt: questions[i].prompt.clone(), answer: find_answer(answers, id) };
        let mut p: usize = 0;
        while p < out.len() && out[p].id <= id
            invariant
                p <= out@.len(),
                forall|k: int| 0 <= k < p ==> #[trigger] out@[k].id <= id,
            decreases out@.len() - p,
        {
            p = p + 1;
        }
        let ghost before = out@;
        out.insert(p, q);
        proof {
            assert(views(out@) =~= views(before).insert(p as int, q.view()));
            vstd::seq_lib::to_multiset_insert(views(before), p as int, q.view());
            assert(shown_all(questions@.subrange(0, i as int + 1), answers@)
                =~= shown_all(questions@.subrange(0, i as int), answers@).push(shown(questions@[i as int], answers@)));
            assert(q.view() == shown(questions@[i as int], answers@));
            assert forall|a: int, b: int| 0 <= a < b < out@.len() implies #[trigger] out@[a].id <= #[trigger] out@[b].id by {
                if b < p {
                } else if b == p {
                } else if a < p {
                    assert(out@[a] == before[a]);
                    assert(out@[b] == before[b - 1]);
                    if p < before.len() {
                        assert(before[p as int].id > id);
                    }
                    assert(before[a].id <= id);
                } else if a == p {
                    assert(out@[b] == before[b - 1]);
                    assert(before[p as int].id > id);
                } else {
                    assert(out@[a] == before[a - 1]);
                    assert(out@[b] == before[b - 1]);
                }
            }
        }
        i = i + 1;
    }
    assert(questions@.subrange(0, questions@.len() as int) =~= questions@);
    out
}

/// A lecture as stored, with the number of its questions where any were
/// counted.
pub struct LectureRow {
    pub id: u64,
    pub label: String,
    pub question_count: Option<u64>,
}

/// A line of the lecture list.
pub struct LectureListEntry {
    pub id: u64,
    pub label: String,
    pub num_qs: u64,
    pub num_answered: u64,
}

/// How a stored lecture is listed: a lecture without a question count has
/// no questions, and no answers are counted.
pub open spec fn listed_as(e: LectureListEntry, row: LectureRow) -> bool {
    &&& e.id == row.id
    &&& e.label@ == row.label@
    &&& e.num_qs == match row.question_count {
        Some(n) => n,
        None => 0,
    }
    &&& e.num_answered == 0
}

/// The lecture list, one entry per stored lecture, in stored order.
pub fn lecture_list(rows: &Vec<LectureRow>) -> (r: Vec<LectureListEntry>)
    ensures
        r@.len() == rows@.len(),
        forall|i: int| 0 <= i < rows@.len() ==> listed_as(#[trigger] r@[i], rows@[i]),
{
    let mut out: Vec<LectureListEntry> = Vec::new();
    let mut i: usize = 0;
    while i < rows.len()
        invariant
            i <= rows@.len(),
            out@.len() == i,
            forall|k: int| 0 <= k < i ==> listed_as(#[trigger] out@[k], rows@[k]),
        decreases rows@.len() - i,
    {
        let row = &rows[i];
        let num_qs: u64 = match row.question_count {
            Some(n) => n,
            None => 0,
        };
        out.push(LectureListEntry { id: row.id, label: row.label.clone(), num_qs, num_answered: 0 });
        i = i + 1;
    }
    out
}

/// Lectures numbered below this send their question emails to the staff;
/// the others to the administrators.
pub const STAFF_LECTURES_BELOW: u8 = 90;

/// Who is emailed a student's answers to the questions of `lecture`.
pub fn email_recipients<'a>(lecture: u8, staff: &'a Vec<String>, admins: &'a Vec<String>) -> (r: &'a Vec<String>)
    ensures
        r == (if lecture < STAFF_LECTURES_BELOW { staff } else { admins }),
{
    if lecture < STAFF_LECTURES_BELOW {
        staff
    } else {
        admins
    }
}

/// The decimal digit for `d` (below 10).
pub open spec fn digit_char(d: nat) -> char {
    if d == 0 { '0' } else if d == 1 { '1' } else if d == 2 { '2' } else if d == 3 { '3' }
    else if d == 4 { '4' } else if d == 5 { '5' } else if d == 6 { '6' } else if d == 7 { '7' }
    else if d == 8 { '8' } else { '9' }
}

/// The decimal digits of `n`, without leading zeros.
pub open spec fn decimal(n: nat) -> Seq<char>
    decreases n,
{
    if n < 10 {
        seq![digit_char(n)]
    } else {
        decimal(n / 10).push(digit_char(n % 10))
    }
}

/// Relies on std's `Display` for `u64` (through `ToString::to_string`): the
/// decimal digits of the number, without sign or leading zeros.
#[verifier::external_body]
fn decimal_text(n: u64) -> (r: String)
    ensures
        r@ == decimal(n as nat),
{
    n.to_string()
}

/// The part of the answer email about one answer.
pub open spec fn log_entry(a: SubmittedAnswer) -> Seq<char> {
    "Question "@ + decimal(a.question as nat) + ":\n"@ + a.text@
}

/// The answer email's body: the entries of the answers in order, with a
/// separator line between each two.
pub open spec fn log_text(answers: Seq<SubmittedAnswer>) -> Seq<char>
    decreases answers.len(),
{
    if answers.len() == 0 {
        Seq::empty()
    } else if answers.len() == 1 {
        log_entry(answers[0])
    } else {
        log_text(answers.drop_last()) + "\n-----\n"@ + log_entry(answers.last())
    }
}

/// The body of the email that reports a student's answers to the staff.
pub fn answer_log(answers: &Vec<SubmittedAnswer>) -> (r: String)
    ensures
        r@ == log_text(answers@),
{
    proof {
        reveal_strlit("Question ");
        reveal_strlit(":\n");
        reveal_strlit("\n-----\n");
    }
    let mut out = String::new();
    let mut i: usize = 0;
    while i < answers.len()
        invariant
            i <= answers@.len(),
            out@ == log_text(answers@.subrange(0, i as int)),
        decreases answers@.len() - i,
    {
        let ghost prefix = answers@.subrange(0, i as int + 1);
        assert(prefix.drop_last() =~= answers@.subrange(0, i as int));
        if i > 0 {
            out.append("\n-----\n");
        }
        out.append("Question ");
        let number = decimal_text(answers[i].question);
        out.append(number.as_str());
        out.append(":\n");
        out.append(answers[i].text.as_str());
        assert(out@ =~= log_text(prefix));
        i = i + 1;
    }
    assert(answers@.subrange(0, answers@.len() as int) =~= answers@);
    out
}

/// The rows that store a student's answers to the questions of a lecture,
/// submitted at `now`, each with grade 0.
pub fn answer_records(user: &String, lecture: u64, answers: &Vec<SubmittedAnswer>, now: &Timestamp) -> (r: Vec<AnswerRow>)
    ensures
        r@.len() == answers@.len(),
        forall|i: int| 0 <= i < answers@.len() ==> {
            let row = #[trigger] r@[i];
            &&& row.email@ == user@
            &&& row.lecture == lecture
            &&& row.question == answers@[i].question
            &&& row.answer@ == answers@[i].text@
            &&& row.submitted_at == *now
            &&& row.grade == 0
        },
{
    let mut out: Vec<AnswerRow> = Vec::new();
    let mut i: usize = 0;
    while i < answers.len()
        invariant
            i <= answers@.len(),
            out@.len() == i,
            forall|k: int| 0 <= k < i ==> {
                let row = #[trigger] out@[k];
                &&& row.email@ == user@
                &&& row.lecture == lecture
                &&& row.question == answers@[k].question
                &&& row.answer@ == answers@[k].text@
                &&& row.submitted_at == *now
                &&& row.grade == 0
            },
        decreases answers@.len() - i,
    {
        out.push(AnswerRow {
            email: user.clone(),
            lecture,
            question: answers[i].question,
            answer: answers[i].text.clone(),
            submitted_at: *now,
            grade: 0,
        });
        i = i + 1;
    }
    out
}

} // verus!
