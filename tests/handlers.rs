use bbox::answers::{lecture_answers, AnswerRow};
use bbox::apikey::{api_key_for, generate_user_record, new_user_record, ApiKeyRequest, PSEUDONYM_LEN};
use bbox::forms::{number_field, text_field, ConversionFailure};
use bbox::lectures::{answer_log, answer_records, email_recipients, lecture_list, lecture_questions, LectureRow, QuestionRow, SubmittedAnswer};
use bbox::timestamp::Timestamp;

fn q(id: u64, prompt: &str) -> QuestionRow {
    QuestionRow { id, prompt: prompt.to_string() }
}

fn a(question: u64, text: &str) -> SubmittedAnswer {
    SubmittedAnswer { question, text: text.to_string() }
}

fn request(email: &str) -> ApiKeyRequest {
    ApiKeyRequest {
        email: email.to_string(),
        gender: "f".to_string(),
        age: 21,
        ethnicity: "none".to_string(),
        is_remote: true,
        education: "bsc".to_string(),
    }
}

#[test]
fn questions_sorted_with_answers() {
    let questions = vec![q(3, "three?"), q(1, "one?"), q(2, "two?")];
    let answers = vec![a(1, "first"), a(3, "x"), a(1, "second"), a(9, "stray")];
    let r = lecture_questions(&questions, &answers);
    let ids: Vec<u64> = r.iter().map(|x| x.id).collect();
    assert_eq!(ids, vec![1, 2, 3]);
    assert_eq!(r[0].prompt, "one?");
    assert_eq!(r[0].answer, Some("second".to_string()));
    assert_eq!(r[1].answer, None);
    assert_eq!(r[2].answer, Some("x".to_string()));
}

#[test]
fn questions_empty() {
    assert!(lecture_questions(&vec![], &vec![a(1, "x")]).is_empty());
}

#[test]
fn lecture_list_counts() {
    let rows = vec![
        LectureRow { id: 1, label: "intro".to_string(), question_count: Some(4) },
        LectureRow { id: 2, label: "ifc".to_string(), question_count: None },
    ];
    let r = lecture_list(&rows);
    assert_eq!(r.len(), 2);
    assert_eq!((r[0].id, r[0].label.as_str(), r[0].num_qs, r[0].num_answered), (1, "intro", 4, 0));
    assert_eq!((r[1].id, r[1].label.as_str(), r[1].num_qs, r[1].num_answered), (2, "ifc", 0, 0));
}

#[test]
fn recipients_by_lecture() {
    let staff = vec!["t@x.edu".to_string()];
    let admins = vec!["a@x.edu".to_string()];
    assert_eq!(email_recipients(0, &staff, &admins), &staff);
    assert_eq!(email_recipients(89, &staff, &admins), &staff);
    assert_eq!(email_recipients(90, &staff, &admins), &admins);
    assert_eq!(email_recipients(255, &staff, &admins), &admins);
}

#[test]
fn timestamp_validity() {
    assert!(Timestamp::new(2023, 1, 2, 3, 4, 5).is_some());
    assert!(Timestamp::new(2024, 2, 29, 0, 0, 0).is_some());
    assert!(Timestamp::new(2000, 2, 29, 0, 0, 0).is_some());
    assert!(Timestamp::new(1900, 2, 29, 0, 0, 0).is_none());
    assert!(Timestamp::new(2023, 2, 29, 0, 0, 0).is_none());
    assert!(Timestamp::new(2023, 4, 31, 0, 0, 0).is_none());
    assert!(Timestamp::new(2023, 13, 1, 0, 0, 0).is_none());
    assert!(Timestamp::new(2023, 0, 1, 0, 0, 0).is_none());
    assert!(Timestamp::new(2023, 1, 0, 0, 0, 0).is_none());
    assert!(Timestamp::new(2023, 1, 1, 24, 0, 0).is_none());
    assert!(Timestamp::new(2023, 1, 1, 0, 60, 0).is_none());
    assert!(Timestamp::new(2023, 1, 1, 0, 0, 60).is_none());
    assert!(Timestamp::new(0, 1, 1, 0, 0, 0).is_none());
    assert!(Timestamp::new(10000, 1, 1, 0, 0, 0).is_none());
    assert_eq!(Timestamp::new(2023, 1, 2, 3, 4, 5).unwrap().to_parts(), (2023, 1, 2, 3, 4, 5));
}

#[test]
fn timestamp_text() {
    assert_eq!(Timestamp::new(2023, 1, 2, 3, 4, 5).unwrap().format(), "2023-01-02 03:04:05");
    assert_eq!(Timestamp::new(999, 12, 31, 23, 59, 59).unwrap().format(), "0999-12-31 23:59:59");
}

#[test]
fn answers_for_grading() {
    let rows = vec![AnswerRow {
        email: "s@x.edu".to_string(),
        lecture: 3,
        question: 2,
        answer: "yes".to_string(),
        submitted_at: Timestamp::new(2023, 10, 9, 8, 7, 6).unwrap(),
        grade: 5,
    }];
    let r = lecture_answers(&rows);
    assert_eq!(r.len(), 1);
    assert_eq!(r[0].id, 2);
    assert_eq!(r[0].user, "s@x.edu");
    assert_eq!(r[0].answer, "yes");
    assert_eq!(r[0].time, "2023-10-09 08:07:06");
    assert_eq!(r[0].grade, 5);
    assert!(lecture_answers(&vec![]).is_empty());
}

#[test]
fn api_key_is_digest_of_email_and_secret() {
    assert_eq!(
        api_key_for(&"a@x.edu".to_string(), &"secret".to_string()),
        "5368ae42c0bbcb5bc24d9af6e1bb710750abe65b5ed69fdce14078bf70ab2d04"
    );
    assert_eq!(
        api_key_for(&String::new(), &String::new()),
        "e3b0c44298fc1c149afbf4c8996fb92427ae41e4649b934ca495991b7852b855"
    );
}

#[test]
fn user_record_fields() {
    let admins = vec!["a@x.edu".to_string()];
    let managers = vec!["m@x.edu".to_string(), "a@x.edu".to_string()];
    let u = new_user_record(&request("a@x.edu"), &"secret".to_string(), &admins, &managers, "p".to_string());
    assert_eq!(u.email, "a@x.edu");
    assert_eq!(u.apikey, "5368ae42c0bbcb5bc24d9af6e1bb710750abe65b5ed69fdce14078bf70ab2d04");
    assert!(u.is_admin);
    assert!(u.is_manager);
    assert_eq!(u.pseudonym, "p");
    assert_eq!((u.gender.as_str(), u.age, u.ethnicity.as_str(), u.is_remote, u.education.as_str()), ("f", 21, "none", true, "bsc"));
    let v = new_user_record(&request("s@x.edu"), &"secret".to_string(), &admins, &managers, "q".to_string());
    assert!(!v.is_admin);
    assert!(!v.is_manager);
}

#[test]
fn generated_pseudonym_is_alphanumeric() {
    let u = generate_user_record(&request("s@x.edu"), &"secret".to_string(), &vec![], &vec![]);
    assert_eq!(u.pseudonym.chars().count(), PSEUDONYM_LEN);
    assert!(u.pseudonym.chars().all(|c| c.is_ascii_alphanumeric()));
    assert_eq!(u.apikey.len(), 64);
}

#[test]
fn answer_log_text() {
    assert_eq!(answer_log(&vec![]), "");
    assert_eq!(answer_log(&vec![a(7, "seven")]), "Question 7:\nseven");
    assert_eq!(
        answer_log(&vec![a(1, "one"), a(20, "twenty")]),
        "Question 1:\none\n-----\nQuestion 20:\ntwenty"
    );
}

#[test]
fn answer_records_for_submission() {
    let now = Timestamp::new(2024, 5, 6, 7, 8, 9).unwrap();
    let r = answer_records(&"s@x.edu".to_string(), 4, &vec![a(1, "one"), a(2, "two")], &now);
    assert_eq!(r.len(), 2);
    assert_eq!((r[0].email.as_str(), r[0].lecture, r[0].question, r[0].answer.as_str(), r[0].grade), ("s@x.edu", 4, 1, "one", 0));
    assert_eq!((r[1].question, r[1].answer.as_str()), (2, "two"));
    assert_eq!(r[1].submitted_at.to_parts(), (2024, 5, 6, 7, 8, 9));
}

#[test]
fn form_fields() {
    assert_eq!(number_field("42").ok().unwrap().declassify_trusted(), 42);
    assert_eq!(number_field("+7").ok().unwrap().declassify_trusted(), 7);
    assert_eq!(number_field("18446744073709551615").ok().unwrap().declassify_trusted(), u64::MAX);
    assert!(matches!(number_field("18446744073709551616"), Err(ConversionFailure)));
    assert!(matches!(number_field(""), Err(ConversionFailure)));
    assert!(matches!(number_field("+"), Err(ConversionFailure)));
    assert!(matches!(number_field("-1"), Err(ConversionFailure)));
    assert!(matches!(number_field("4 2"), Err(ConversionFailure)));
    assert!(matches!(number_field("abc"), Err(ConversionFailure)));
    assert_eq!(text_field("hello").declassify_trusted(), "hello");
}
