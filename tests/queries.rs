use hackademy::config::AppConfig;
use hackademy::model::{Category, Question, Subcategory};
use hackademy::quiz::{quiz_query, QuizParams};
use hackademy::search::{like_pattern, search_term, search_term_of_trimmed, CategoryResult, QuestionResult, SearchParams, SubCategoryResult};

#[test]
fn quiz_query_with_and_without_subcategory() {
    let p = QuizParams { category_id: "c".to_string(), subcategory_id: None };
    assert_eq!(quiz_query(&p), "SELECT * FROM questions WHERE category_id = ? ORDER BY id");
    let p = QuizParams { category_id: "c".to_string(), subcategory_id: Some("s".to_string()) };
    assert_eq!(quiz_query(&p), "SELECT * FROM questions WHERE category_id = ? AND subcategory_id = ? ORDER BY id");
}

#[test]
fn search_term_is_trimmed_or_absent() {
    assert_eq!(search_term(&SearchParams { q: Some("  rust \n".to_string()) }), Some("rust".to_string()));
    assert_eq!(search_term(&SearchParams { q: Some("   ".to_string()) }), None);
    assert_eq!(search_term(&SearchParams { q: None }), None);
    assert_eq!(search_term_of_trimmed(""), None);
    assert_eq!(search_term_of_trimmed("a b"), Some("a b".to_string()));
}

#[test]
fn like_pattern_wraps_term() {
    assert_eq!(like_pattern("sql"), "%sql%");
    assert_eq!(like_pattern(""), "%%");
}

#[test]
fn result_rows_copy_fields() {
    let c = Category { id: "c1".to_string(), title: "Web".to_string() };
    let r = CategoryResult::from_category(&c);
    assert_eq!((r.id.as_str(), r.title.as_str()), ("c1", "Web"));
    let s = Subcategory { id: "s1".to_string(), category_id: "c1".to_string(), title: "XSS".to_string(), description: Some("d".to_string()) };
    let r = SubCategoryResult::from_subcategory(&s, "Web");
    assert_eq!(r.parent_category_title, "Web");
    assert_eq!(r.description, Some("d".to_string()));
    assert_eq!(r.title, "XSS");
    let q = Question { id: "q1".to_string(), category_id: "c1".to_string(), subcategory_id: None, question_text: "Why?".to_string(), options: "[]".to_string(), correct_answer_idx: 0 };
    let r = QuestionResult::from_question(&q);
    assert_eq!(r.question_text, "Why?");
    assert_eq!(r.subcategory_id, None);
}

#[test]
fn config_defaults_and_overrides() {
    let c = AppConfig::from_values(None, None, None);
    assert_eq!(c.database_url, "sqlite://hackademy.db");
    assert_eq!(c.server_addr, "0.0.0.0:3000");
    assert_eq!(c.session_secret, "random_secret");
    let c = AppConfig::from_values(Some("sqlite://x.db".to_string()), Some("127.0.0.1:8080".to_string()), None);
    assert_eq!(c.database_url, "sqlite://x.db");
    assert_eq!(c.server_addr, "127.0.0.1:8080");
}
