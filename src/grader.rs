//! Grading a submitted quiz.
//!
//! Grading runs in two stages. `parse_submission` turns the raw form fields
//! into `(question id, raw answer)` pairs, keeping only fields named
//! `question_<id>`. The caller then looks each id up in storage, and `grade`
//! scores the answers against the questions that were found.

use vstd::prelude::*;
use vstd::string::*;
use crate::model::{Question, options_of, strings_view};

verus! {

/// The prefix that marks a form field as an answer.
pub open spec fn answer_prefix() -> Seq<char> {
    "question_"@
}

/// The question id that a form field's name carries, if it is an answer field.
pub open spec fn question_id_of(key: Seq<char>) -> Option<Seq<char>> {
    let p = answer_prefix();
    if key.len() >= p.len() && key.subrange(0, p.len() as int) == p {
        Some(key.subrange(p.len() as int, key.len() as int))
    } else {
        None
    }
}

/// The views of a sequence of string pairs.
pub open spec fn pairs_view(v: Seq<(String, String)>) -> Seq<(Seq<char>, Seq<char>)> {
    v.map_values(|p: (String, String)| (p.0@, p.1@))
}

/// The answer fields of a form, in order, each as `(question id, raw answer)`.
pub open spec fn submission_items(form: Seq<(Seq<char>, Seq<char>)>) -> Seq<(Seq<char>, Seq<char>)>
    decreases form.len(),
{
    if form.len() == 0 {
        Seq::empty()
    } else {
        let prev = submission_items(form.drop_last());
        match question_id_of(form.last().0) {
            Some(id) => prev.push((id, form.last().1)),
            None => prev,
        }
    }
}

/// The value that `str::parse::<i64>` gives: an optional `+` or `-` followed by
/// one or more ASCII digits, whose value fits in an `i64`.
pub open spec fn parsed_i64(s: Seq<char>) -> Option<i64> {
    let negative = s.len() > 0 && s[0] == '-';
    let signed = s.len() > 0 && (s[0] == '-' || s[0] == '+');
    let digits = if signed { s.drop_first() } else { s };
    let value = if negative { -digits_value(digits) } else { digits_value(digits) };
    if digits.len() > 0 && all_digits(digits) && i64::MIN <= value <= i64::MAX {
        Some(value as i64)
    } else {
        None
    }
}

/// Every character is an ASCII digit.
pub open spec fn all_digits(s: Seq<char>) -> bool {
    forall|i: int| 0 <= i < s.len() ==> '0' <= #[trigger] s[i] <= '9'
}

/// The decimal value of a string of digits.
pub open spec fn digits_value(s: Seq<char>) -> int
    decreases s.len(),
{
    if s.len() == 0 {
        0
    } else {
        digits_value(s.drop_last()) * 10 + (s.last() as int - '0' as int)
    }
}

/// The option index a raw answer selects; `-1` (no answer) when it is not a number.
pub open spec fn selected_of(raw: Seq<char>) -> i64 {
    match parsed_i64(raw) {
        Some(v) => v,
        None => -1i64,
    }
}

/// Relies on `str::parse::<i64>`: `None` exactly when the text is not an
/// optionally signed decimal integer in the range of `i64`.
#[verifier::external_body]
fn parse_i64(s: &str) -> (r: Option<i64>)
    ensures
        r == parsed_i64(s@),
{
    s.parse::<i64>().ok()
}

/// Feedback on one graded question.
#[derive(Clone, Debug)]
pub struct QuestionFeedback {
    pub question_text: String,
    pub selected_option: String,
    pub correct_option: String,
    pub is_correct: bool,
}

/// The mathematical content of a `QuestionFeedback`.
pub struct FeedbackView {
    pub question_text: Seq<char>,
    pub selected_option: Seq<char>,
    pub correct_option: Seq<char>,
    pub is_correct: bool,
}

impl View for QuestionFeedback {
    type V = FeedbackView;

    open spec fn view(&self) -> FeedbackView {
        FeedbackView {
            question_text: self.question_text@,
            selected_option: self.selected_option@,
            correct_option: self.correct_option@,
            is_correct: self.is_correct,
        }
    }
}

/// The option at index `idx`, or `fallback` when `idx` is outside the options.
pub open spec fn option_at(options: Seq<Seq<char>>, idx: i64, fallback: Seq<char>) -> Seq<char> {
    if 0 <= idx < options.len() {
        options[idx as int]
    } else {
        fallback
    }
}

/// The feedback owed for a question with the given text, options and correct
/// index, when option `selected` was chosen (a negative index is no answer).
pub open spec fn feedback_spec(
    text: Seq<char>,
    options: Seq<Seq<char>>,
    correct: i64,
    selected: i64,
) -> FeedbackView {
    FeedbackView {
        question_text: text,
        selected_option: option_at(options, selected, "No Answer"@),
        correct_option: option_at(options, correct, "Unknown"@),
        is_correct: selected >= 0 && selected == correct,
    }
}

/// The feedback owed for `question` answered with the raw text `raw`.
pub open spec fn feedback_of(question: Question, raw: Seq<char>) -> FeedbackView {
    feedback_spec(
        question.question_text@,
        options_of(question.options@),
        question.correct_answer_idx,
        selected_of(raw),
    )
}

/// The feedback owed for a submission: one entry, in order, for each answer
/// whose question was found; answers to missing questions give nothing.
pub open spec fn graded_feedback(raws: Seq<Seq<char>>, found: Seq<Option<Question>>) -> Seq<
    FeedbackView,
>
    decreases found.len(),
{
    if found.len() == 0 {
        Seq::empty()
    } else {
        let prev = graded_feedback(raws.drop_last(), found.drop_last());
        match found.last() {
            Some(q) => prev.push(feedback_of(q, raws.last())),
            None => prev,
        }
    }
}

/// How many feedback entries are correct.
pub open spec fn count_correct(s: Seq<FeedbackView>) -> nat
    decreases s.len(),
{
    if s.len() == 0 {
        0
    } else {
        count_correct(s.drop_last()) + if s.last().is_correct {
            1nat
        } else {
            0nat
        }
    }
}

/// How many lookups found a question.
pub open spec fn count_found(found: Seq<Option<Question>>) -> nat
    decreases found.len(),
{
    if found.len() == 0 {
        0
    } else {
        count_found(found.drop_last()) + if found.last() is Some {
            1nat
        } else {
            0nat
        }
    }
}

/// The raw answers of a sequence of `(question id, raw answer)` pairs.
pub open spec fn raws_of(items: Seq<(String, String)>) -> Seq<Seq<char>> {
    items.map_values(|p: (String, String)| p.1@)
}

/// The views of a sequence of feedback entries.
pub open spec fn feedback_views(v: Seq<QuestionFeedback>) -> Seq<FeedbackView> {
    v.map_values(|f: QuestionFeedback| f@)
}


/// The question id carried by a form field's name, if it is an answer field.
pub fn question_id_from_key(key: &str) -> (r: Option<String>)
    ensures
        match question_id_of(key@) {
            Some(id) => r is Some && r->Some_0@ == id,
            None => r is None,
        },
{
    let prefix: &str = "question_";
    proof {
        reveal_strlit("question_");
    }
    let plen = prefix.unicode_len();
    let klen = key.unicode_len();
    if klen < plen {
        return None;
    }
    let mut i: usize = 0;
    while i < plen
        invariant
            plen == prefix@.len(),
            klen == key@.len(),
            plen <= klen,
            prefix@ == answer_prefix(),
            0 <= i <= plen,
            forall|j: int| 0 <= j < i ==> key@[j] == prefix@[j],
        decreases plen - i,
    {
        if key.get_char(i) != prefix.get_char(i) {
            proof {
                assert(key@.subrange(0, plen as int)[i as int] != answer_prefix()[i as int]);
            }
            return None;
        }
        i = i + 1;
    }
    proof {
        assert(key@.subrange(0, plen as int) =~= answer_prefix());
    }
    Some(String::from_str(key.substring_char(plen, klen)))
}

/// The answer fields of a submitted form, in form order, as
/// `(question id, raw answer)` pairs; every other field is ignored.
pub fn parse_submission(form: &Vec<(String, String)>) -> (r: Vec<(String, String)>)
    ensures
        pairs_view(r@) == submission_items(pairs_view(form@)),
{
    let mut r: Vec<(String, String)> = Vec::new();
    let mut i: usize = 0;
    while i < form.len()
        invariant
            0 <= i <= form.len(),
            pairs_view(r@) == submission_items(pairs_view(form@.take(i as int))),
        decreases form.len() - i,
    {
        let key = form[i].0.as_str();
        match question_id_from_key(key) {
            Some(id) => {
                r.push((id, form[i].1.clone()));
            },
            None => {},
        }
        proof {
            let fv = pairs_view(form@.take(i + 1));
            assert(fv.drop_last() =~= pairs_view(form@.take(i as int)));
            assert(fv.last() == (form@[i as int].0@, form@[i as int].1@));
            assert(pairs_view(r@) =~= submission_items(fv));
        }
        i = i + 1;
    }
    proof {
        assert(form@.take(form.len() as int) =~= form@);
    }
    r
}

/// The option index that a raw answer selects: its value as a decimal
/// integer, or `-1` (no answer) when it is not one.
pub fn selected_index(raw: &str) -> (r: i64)
    ensures
        r == selected_of(raw@),
{
    match parse_i64(raw) {
        Some(v) => v,
        None => -1,
    }
}

/// The option at `idx`, or `fallback` when `idx` is outside `options`.
fn pick_option(options: &Vec<String>, idx: i64, fallback: &str) -> (r: String)
    ensures
        r@ == option_at(strings_view(options@), idx, fallback@),
{
    if idx >= 0 && (idx as u64) < (options.len() as u64) {
        options[idx as usize].clone()
    } else {
        String::from_str(fallback)
    }
}

/// Feedback on `question`, given its decoded `options`, when option
/// `selected` was chosen (a negative index is no answer). Out-of-range indices
/// give the sentinel texts "No Answer" and "Unknown" instead of failing.
pub fn question_feedback(question: &Question, options: &Vec<String>, selected: i64) -> (r:
    QuestionFeedback)
    ensures
        r@ == feedback_spec(
            question.question_text@,
            strings_view(options@),
            question.correct_answer_idx,
            selected,
        ),
{
    let correct = question.correct_answer_idx;
    QuestionFeedback {
        question_text: question.question_text.clone(),
        selected_option: pick_option(options, selected, "No Answer"),
        correct_option: pick_option(options, correct, "Unknown"),
        is_correct: selected >= 0 && selected == correct,
    }
}

/// The outcome of grading one submission.
#[derive(Clone, Debug)]
pub struct GradeSummary {
    pub total_questions: usize,
    pub correct_count: usize,
    pub feedback: Vec<QuestionFeedback>,
}

/// Grades the answers `items` (`(question id, raw answer)` pairs) given, for
/// each, the question that storage found under its id, if any. Answers whose
/// question was not found are skipped; every other answer gives one feedback
/// entry, in order, and counts toward the total.
pub fn grade(items: &Vec<(String, String)>, found: &Vec<Option<Question>>) -> (r: GradeSummary)
    requires
        items.len() == found.len(),
    ensures
        feedback_views(r.feedback@) == graded_feedback(raws_of(items@), found@),
        r.total_questions == r.feedback.len(),
        r.total_questions == count_found(found@),
        r.correct_count == count_correct(feedback_views(r.feedback@)),
        r.correct_count <= r.total_questions,
{
    let mut feedback: Vec<QuestionFeedback> = Vec::new();
    let mut correct: usize = 0;
    let mut i: usize = 0;
    while i < found.len()
        invariant
            items.len() == found.len(),
            0 <= i <= found.len(),
            feedback_views(feedback@) == graded_feedback(
                raws_of(items@).take(i as int),
                found@.take(i as int),
            ),
            feedback.len() == count_found(found@.take(i as int)),
            correct == count_correct(feedback_views(feedback@)),
            correct <= feedback.len() <= i,
        decreases found.len() - i,
    {
        let ghost prev = feedback@;
        match &found[i] {
            Some(q) => {
                let options = q.get_options_vec();
                let selected = selected_index(items[i].1.as_str());
                let fb = question_feedback(q, &options, selected);
                if fb.is_correct {
                    correct = correct + 1;
                }
                feedback.push(fb);
                proof {
                    assert(feedback_views(feedback@) =~= feedback_views(prev).push(fb@));
                    assert(feedback_views(feedback@).drop_last() =~= feedback_views(prev));
                }
            },
            None => {},
        }
        proof {
            let rs = raws_of(items@).take(i + 1);
            let fs = found@.take(i + 1);
            assert(rs.drop_last() =~= raws_of(items@).take(i as int));
            assert(fs.drop_last() =~= found@.take(i as int));
            assert(rs.last() == items@[i as int].1@);
            assert(fs.last() == found@[i as int]);
        }
        i = i + 1;
    }
    proof {
        assert(raws_of(items@).take(found.len() as int) =~= raws_of(items@));
        assert(found@.take(found.len() as int) =~= found@);
    }
    GradeSummary { total_questions: feedback.len(), correct_count: correct, feedback }
}


/// An answer whose question does not exist adds nothing: no feedback entry,
/// and nothing to the count of graded questions.
pub proof fn lemma_missing_question_ignored(
    raws: Seq<Seq<char>>,
    found: Seq<Option<Question>>,
    raw: Seq<char>,
)
    ensures
        graded_feedback(raws.push(raw), found.push(None)) == graded_feedback(raws, found),
        count_found(found.push(None)) == count_found(found),
{
    assert(raws.push(raw).drop_last() =~= raws);
    assert(found.push(None).drop_last() =~= found);
}

/// The correct answers never outnumber the graded ones.
pub proof fn lemma_correct_within_total(s: Seq<FeedbackView>)
    ensures
        count_correct(s) <= s.len(),
    decreases s.len(),
{
    if s.len() > 0 {
        lemma_correct_within_total(s.drop_last());
    }
}

/// The number of graded questions is the number of answer fields of the form
/// whose question was found: with `found[i]` the lookup of the `i`-th answer
/// field, one feedback entry per found question, and no more correct entries
/// than that.
pub proof fn lemma_total_counts_found_answers(
    form: Seq<(Seq<char>, Seq<char>)>,
    found: Seq<Option<Question>>,
)
    requires
        found.len() == submission_items(form).len(),
    ensures
        graded_feedback(submission_items(form).map_values(|p: (Seq<char>, Seq<char>)| p.1), found).len()
            == count_found(found),
        count_correct(
            graded_feedback(submission_items(form).map_values(|p: (Seq<char>, Seq<char>)| p.1), found),
        ) <= count_found(found),
{
    let raws = submission_items(form).map_values(|p: (Seq<char>, Seq<char>)| p.1);
    lemma_feedback_len(raws, found);
    lemma_correct_within_total(graded_feedback(raws, found));
}

/// One feedback entry per found question.
proof fn lemma_feedback_len(raws: Seq<Seq<char>>, found: Seq<Option<Question>>)
    ensures
        graded_feedback(raws, found).len() == count_found(found),
    decreases found.len(),
{
    if found.len() > 0 {
        lemma_feedback_len(raws.drop_last(), found.drop_last());
    }
}

} // verus!
