use hackademy::grader::{grade, parse_submission, question_feedback, question_id_from_key, selected_index};
use hackademy::model::Question;

fn question(id: &str, text: &str, options: &str, correct: i64) -> Question {
    Question {
        id: id.to_string(),
        category_id: "c1".to_string(),
        subcategory_id: None,
        question_text: text.to_string(),
        options: options.to_string(),
        correct_answer_idx: correct,
    }
}

fn pair(k: &str, v: &str) -> (String, String) {
    (k.to_string(), v.to_string())
}

fn lookup(id: &str, bank: &[Question]) -> Option<Question> {
    bank.iter().find(|q| q.id == id).cloned()
}

fn bank() -> Vec<Question> {
    vec![
        question("q1", "First?", r#"["a","b","c"]"#, 1),
        question("q2", "Second?", r#"["x","y"]"#, 0),
    ]
}

#[test]
fn grading_scenario_two_questions() {
    let form = vec![pair("question_q1", "1"), pair("question_q2", "5"), pair("other_field", "ignored")];
    let items = parse_submission(&form);
    assert_eq!(items.len(), 2);
    let found: Vec<Option<Question>> = items.iter().map(|(id, _)| lookup(id, &bank())).collect();
    let s = grade(&items, &found);
    assert_eq!(s.total_questions, 2);
    assert_eq!(s.correct_count, 1);
    let q1 = s.feedback.iter().find(|f| f.question_text == "First?").unwrap();
    assert!(q1.is_correct);
    assert_eq!(q1.selected_option, "b");
    assert_eq!(q1.correct_option, "b");
    let q2 = s.feedback.iter().find(|f| f.question_text == "Second?").unwrap();
    assert!(!q2.is_correct);
    assert_eq!(q2.selected_option, "No Answer");
    assert_eq!(q2.correct_option, "x");
}

#[test]
fn missing_question_contributes_nothing() {
    let form = vec![pair("question_q1", "1"), pair("question_gone", "0")];
    let items = parse_submission(&form);
    let found: Vec<Option<Question>> = items.iter().map(|(id, _)| lookup(id, &bank())).collect();
    let s = grade(&items, &found);
    assert_eq!(s.total_questions, 1);
    assert_eq!(s.feedback.len(), 1);
    assert_eq!(s.correct_count, 1);
}

#[test]
fn correct_never_exceeds_total() {
    let form = vec![
        pair("question_q1", "0"),
        pair("question_q2", "0"),
        pair("question_q1", "1"),
        pair("question_q9", "1"),
        pair("name", "x"),
    ];
    let items = parse_submission(&form);
    let found: Vec<Option<Question>> = items.iter().map(|(id, _)| lookup(id, &bank())).collect();
    let s = grade(&items, &found);
    assert_eq!(s.total_questions, 3);
    assert_eq!(s.correct_count, 2);
    assert!(s.correct_count <= s.total_questions);
}

#[test]
fn empty_submission_grades_nothing() {
    let s = grade(&Vec::new(), &Vec::new());
    assert_eq!(s.total_questions, 0);
    assert_eq!(s.correct_count, 0);
    assert!(s.feedback.is_empty());
}

#[test]
fn parse_submission_keeps_answer_fields_in_order() {
    let form = vec![pair("question_b", "2"), pair("questionx", "1"), pair("question_", "3"), pair("q", "4"), pair("question_a", "z")];
    let items = parse_submission(&form);
    assert_eq!(items, vec![pair("b", "2"), pair("", "3"), pair("a", "z")]);
}

#[test]
fn question_id_from_key_strips_prefix() {
    assert_eq!(question_id_from_key("question_42"), Some("42".to_string()));
    assert_eq!(question_id_from_key("question"), None);
    assert_eq!(question_id_from_key("Question_42"), None);
    assert_eq!(question_id_from_key("question_é"), Some("é".to_string()));
}

#[test]
fn selected_index_parses_or_gives_no_answer() {
    assert_eq!(selected_index("12"), 12);
    assert_eq!(selected_index("+5"), 5);
    assert_eq!(selected_index("-3"), -3);
    assert_eq!(selected_index("abc"), -1);
    assert_eq!(selected_index(""), -1);
    assert_eq!(selected_index(" 1"), -1);
    assert_eq!(selected_index("99999999999999999999"), -1);
}

#[test]
fn negative_and_unparsable_answers_are_wrong() {
    let q = question("q", "T", r#"["a","b"]"#, -1);
    let opts = vec!["a".to_string(), "b".to_string()];
    let f = question_feedback(&q, &opts, -1);
    assert!(!f.is_correct);
    assert_eq!(f.selected_option, "No Answer");
    assert_eq!(f.correct_option, "Unknown");
    let items = vec![pair("q", "oops")];
    let s = grade(&items, &vec![Some(q)]);
    assert_eq!(s.total_questions, 1);
    assert_eq!(s.correct_count, 0);
}

#[test]
fn out_of_range_correct_index_gives_unknown() {
    let q = question("q", "T", r#"["a","b"]"#, 7);
    let opts = q.get_options_vec();
    let f = question_feedback(&q, &opts, 1);
    assert_eq!(f.correct_option, "Unknown");
    assert_eq!(f.selected_option, "b");
    assert!(!f.is_correct);
}

#[test]
fn malformed_options_decode_to_nothing() {
    let q = question("q", "T", "not json", 0);
    assert!(q.get_options_vec().is_empty());
    let s = grade(&vec![pair("q", "0")], &vec![Some(q)]);
    assert_eq!(s.total_questions, 1);
    assert_eq!(s.correct_count, 1);
    assert_eq!(s.feedback[0].selected_option, "No Answer");
    assert_eq!(s.feedback[0].correct_option, "Unknown");
}

#[test]
fn options_decode_from_json() {
    let q = question("q", "T", r#"["one","two"]"#, 0);
    assert_eq!(q.get_options_vec(), vec!["one".to_string(), "two".to_string()]);
}
