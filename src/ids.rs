//! Random, URL-safe identifiers for users and sessions.

use vstd::prelude::*;

verus! {

/// Length of every generated identifier.
pub const ID_LEN: usize = 21;

/// The characters an identifier is drawn from: ASCII letters, digits, `_` and `-`.
pub open spec fn url_safe_char(c: char) -> bool {
    ('a' <= c && c <= 'z') || ('A' <= c && c <= 'Z') || ('0' <= c && c <= '9') || c == '_'
        || c == '-'
}

/// A well-formed identifier: `ID_LEN` URL-safe characters.
pub open spec fn is_fresh_id(s: Seq<char>) -> bool {
    s.len() == ID_LEN && forall|i: int| 0 <= i < s.len() ==> url_safe_char(#[trigger] s[i])
}

/// Relies on `nanoid::format` with nanoid's default random source and its
/// `SAFE` alphabet: `size` characters, each taken from that alphabet. A size of
/// zero would never return.
#[verifier::external_body]
fn nanoid_of_size(size: usize) -> (r: String)
    requires
        size > 0,
    ensures
        r@.len() == size,
        forall|i: int| 0 <= i < r@.len() ==> url_safe_char(#[trigger] r@[i]),
{
    nanoid::format(nanoid::rngs::default, &nanoid::alphabet::SAFE, size)
}

/// A fresh random identifier, fit for a session token or a user id.
pub fn new_id() -> (r: String)
    ensures
        is_fresh_id(r@),
{
    nanoid_of_size(ID_LEN)
}

} // verus!
