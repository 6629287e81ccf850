//! The in-memory session store: session token to user id.
//!
//! The store itself is a plain value; a server shares one instance between
//! requests behind a lock, held only for the duration of a single call.

use vstd::prelude::*;
use vstd::hash_map::StringHashMap;
use vstd::string::*;
use crate::ids::{is_fresh_id, new_id};

verus! {

/// Maps each live session token to the id of the user it authenticates.
/// Several tokens may map to the same user.
pub struct SessionStore {
    sessions: StringHashMap<String>,
}

impl View for SessionStore {
    type V = Map<Seq<char>, Seq<char>>;

    closed spec fn view(&self) -> Map<Seq<char>, Seq<char>> {
        self.sessions@.map_values(|v: String| v@)
    }
}

impl SessionStore {
    /// An empty store.
    pub fn new() -> (r: Self)
        ensures
            r@ == Map::<Seq<char>, Seq<char>>::empty(),
    {
        let r = SessionStore { sessions: StringHashMap::new() };
        proof {
            assert(r@ =~= Map::<Seq<char>, Seq<char>>::empty());
        }
        r
    }

    /// Maps `session_id` to `user_id`, replacing any earlier mapping of it.
    pub fn set_session(&mut self, session_id: &str, user_id: &str)
        ensures
            final(self)@ == old(self)@.insert(session_id@, user_id@),
    {
        let key = String::from_str(session_id);
        let value = String::from_str(user_id);
        self.sessions.insert(key, value);
        proof {
            assert(self@ =~= old(self)@.insert(session_id@, user_id@));
        }
    }

    /// The user that `session_id` authenticates, if it is live.
    pub fn get_user_id(&self, session_id: &str) -> (r: Option<String>)
        ensures
            match r {
                Some(u) => self@.contains_key(session_id@) && u@ == self@[session_id@],
                None => !self@.contains_key(session_id@),
            },
    {
        match self.sessions.get(session_id) {
            Some(u) => Some(u.clone()),
            None => None,
        }
    }

    /// Ends the session `session_id`; a token that is not live is left alone.
    pub fn remove_session(&mut self, session_id: &str)
        ensures
            final(self)@ == old(self)@.remove(session_id@),
    {
        self.sessions.remove(session_id);
        proof {
            assert(self@ =~= old(self)@.remove(session_id@));
        }
    }

    /// Opens a session for `user_id` under a fresh random token, and returns it.
    pub fn create_session(&mut self, user_id: &str) -> (token: String)
        ensures
            is_fresh_id(token@),
            final(self)@ == old(self)@.insert(token@, user_id@),
    {
        let token = new_id();
        self.set_session(token.as_str(), user_id);
        token
    }
}

/// A session opened for a user can be resolved back to that user; once it is
/// removed it resolves to nothing; removing a token that is not live changes
/// nothing.
pub proof fn lemma_session_round_trip(
    store: Map<Seq<char>, Seq<char>>,
    token: Seq<char>,
    user: Seq<char>,
)
    ensures
        store.insert(token, user).contains_key(token),
        store.insert(token, user)[token] == user,
        !store.insert(token, user).remove(token).contains_key(token),
        !store.contains_key(token) ==> store.remove(token) == store,
{
    if !store.contains_key(token) {
        assert(store.remove(token) =~= store);
    }
}

} // verus!
