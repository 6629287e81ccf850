//! The stored records: users, categories, subcategories and questions.

use vstd::prelude::*;

verus! {

/// A registered account.
#[derive(Debug, Clone)]
pub struct User {
    pub id: String,
    pub username: String,
    pub password_hash: String,
}

/// A top-level quiz category.
#[derive(Debug, Clone)]
pub struct Category {
    pub id: String,
    pub title: String,
}

/// A subdivision of a category.
#[derive(Debug, Clone)]
pub struct Subcategory {
    pub id: String,
    pub category_id: String,
    pub title: String,
    pub description: Option<String>,
}

/// A multiple-choice question. `options` holds the choices as a JSON array of
/// strings; `correct_answer_idx` is the zero-based index of the right one.
#[derive(Debug, Clone)]
pub struct Question {
    pub id: String,
    pub category_id: String,
    pub subcategory_id: Option<String>,
    pub question_text: String,
    pub options: String,
    pub correct_answer_idx: i64,
}

/// What `serde_json` decodes from a text as a JSON array of strings, if it is one.
pub uninterp spec fn json_string_list(text: Seq<char>) -> Option<Seq<Seq<char>>>;

/// The views of a vector of strings.
pub open spec fn strings_view(v: Seq<String>) -> Seq<Seq<char>> {
    v.map_values(|s: String| s@)
}

/// The choices that an `options` text stands for: empty unless it decodes.
pub open spec fn options_of(text: Seq<char>) -> Seq<Seq<char>> {
    match json_string_list(text) {
        Some(v) => v,
        None => Seq::empty(),
    }
}

/// Relies on `serde_json::from_str::<Vec<String>>`: `None` exactly when the
/// text is not a JSON array of strings.
#[verifier::external_body]
fn decode_string_list(text: &str) -> (r: Option<Vec<String>>)
    ensures
        match r {
            Some(v) => json_string_list(text@) == Some(strings_view(v@)),
            None => json_string_list(text@) is None,
        },
{
    serde_json::from_str::<Vec<String>>(text).ok()
}

impl Question {
    /// The answer choices, decoded from `options`; empty when it does not decode.
    pub fn get_options_vec(&self) -> (r: Vec<String>)
        ensures
            strings_view(r@) == options_of(self.options@),
    {
        match decode_string_list(self.options.as_str()) {
            Some(v) => v,
            None => {
                let empty: Vec<String> = Vec::new();
                proof {
                    assert(strings_view(empty@) =~= Seq::<Seq<char>>::empty());
                }
                empty
            },
        }
    }
}

} // verus!
