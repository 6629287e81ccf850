//! The site search: normalising the query and shaping the rows found.

use vstd::prelude::*;
use vstd::string::*;
use crate::model::{Category, Question, Subcategory};

verus! {

/// The query parameters of a search.
#[derive(Debug, Clone)]
pub struct SearchParams {
    pub q: Option<String>,
}

/// A category that matched.
#[derive(Clone, Debug)]
pub struct CategoryResult {
    pub id: String,
    pub title: String,
}

/// A subcategory that matched, with the title of its category.
#[derive(Clone, Debug)]
pub struct SubCategoryResult {
    pub id: String,
    pub category_id: String,
    pub title: String,
    pub description: Option<String>,
    pub parent_category_title: String,
}

/// A question that matched.
#[derive(Clone, Debug)]
pub struct QuestionResult {
    pub id: String,
    pub category_id: String,
    pub subcategory_id: Option<String>,
    pub question_text: String,
}

/// What `str::trim` leaves of a text: it without leading and trailing
/// Unicode white space.
pub uninterp spec fn trimmed(s: Seq<char>) -> Seq<char>;

/// Relies on `str::trim`; an empty text stays empty.
#[verifier::external_body]
fn trim_str(s: &str) -> (r: &str)
    ensures
        r@ == trimmed(s@),
        s@.len() == 0 ==> r@.len() == 0,
{
    s.trim()
}

/// The search term left after trimming, if anything is left.
pub fn search_term_of_trimmed(t: &str) -> (r: Option<String>)
    ensures
        t@.len() == 0 ==> r is None,
        t@.len() > 0 ==> r is Some && r->Some_0@ == t@,
{
    if t.unicode_len() == 0 {
        None
    } else {
        Some(String::from_str(t))
    }
}

/// The search term of a query: the trimmed query text, or `None` when the
/// query is missing or blank (the search then shows no results).
pub fn search_term(params: &SearchParams) -> (r: Option<String>)
    ensures
        match params.q {
            Some(s) => if trimmed(s@).len() > 0 {
                r is Some && r->Some_0@ == trimmed(s@)
            } else {
                r is None
            },
            None => r is None,
        },
{
    match &params.q {
        Some(s) => search_term_of_trimmed(trim_str(s.as_str())),
        None => None,
    }
}

/// The SQL `LIKE` pattern that matches any text containing `term`.
pub fn like_pattern(term: &str) -> (r: String)
    ensures
        r@ == "%"@ + term@ + "%"@,
{
    String::from_str("%").concat(term).concat("%")
}

impl CategoryResult {
    /// The result entry for a matching category.
    pub fn from_category(c: &Category) -> (r: CategoryResult)
        ensures
            r.id@ == c.id@,
            r.title@ == c.title@,
    {
        CategoryResult { id: c.id.clone(), title: c.title.clone() }
    }
}

/// A copy of an optional string.
fn clone_opt(s: &Option<String>) -> (r: Option<String>)
    ensures
        r is Some <==> s is Some,
        r is Some ==> r->Some_0@ == s->Some_0@,
{
    match s {
        Some(v) => Some(v.clone()),
        None => None,
    }
}

impl SubCategoryResult {
    /// The result entry for a matching subcategory whose category is titled
    /// `parent_title`.
    pub fn from_subcategory(s: &Subcategory, parent_title: &str) -> (r: SubCategoryResult)
        ensures
            r.id@ == s.id@,
            r.category_id@ == s.category_id@,
            r.title@ == s.title@,
            r.description is Some <==> s.description is Some,
            r.description is Some ==> r.description->Some_0@ == s.description->Some_0@,
            r.parent_category_title@ == parent_title@,
    {
        SubCategoryResult {
            id: s.id.clone(),
            category_id: s.category_id.clone(),
            title: s.title.clone(),
            description: clone_opt(&s.description),
            parent_category_title: String::from_str(parent_title),
        }
    }
}

impl QuestionResult {
    /// The result entry for a matching question.
    pub fn from_question(q: &Question) -> (r: QuestionResult)
        ensures
            r.id@ == q.id@,
            r.category_id@ == q.category_id@,
            r.subcategory_id is Some <==> q.subcategory_id is Some,
            r.subcategory_id is Some ==> r.subcategory_id->Some_0@ == q.subcategory_id->Some_0@,
            r.question_text@ == q.question_text@,
    {
        QuestionResult {
            id: q.id.clone(),
            category_id: q.category_id.clone(),
            subcategory_id: clone_opt(&q.subcategory_id),
            question_text: q.question_text.clone(),
        }
    }
}

} // verus!
