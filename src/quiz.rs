//! Choosing the questions of a quiz.

use vstd::prelude::*;
use vstd::string::*;

verus! {

/// The query parameters of a quiz: a category, and optionally one of its
/// subcategories.
#[derive(Debug, Clone)]
pub struct QuizParams {
    pub category_id: String,
    pub subcategory_id: Option<String>,
}

/// A submitted quiz form. Its fields are named `question_<id>` and read as
/// plain pairs (see `grader::parse_submission`), so it declares none.
#[derive(Debug, Clone)]
pub struct QuizSubmission {}

/// The SQL text of the query for a quiz's questions, filtered by the category
/// (bound first) and, when one is given, the subcategory (bound second),
/// ordered by question id so that the same filter always gives the same order.
pub fn quiz_query(params: &QuizParams) -> (r: String)
    ensures
        r@ == "SELECT * FROM questions WHERE category_id = ?"@ + (if params.subcategory_id is Some {
            " AND subcategory_id = ?"@
        } else {
            ""@
        }) + " ORDER BY id"@,
{
    let mut sql = String::from_str("SELECT * FROM questions WHERE category_id = ?");
    if params.subcategory_id.is_some() {
        sql.append(" AND subcategory_id = ?");
    } else {
        proof {
            reveal_strlit("");
            assert(sql@ + ""@ =~= sql@);
        }
    }
    sql.append(" ORDER BY id");
    sql
}

} // verus!
