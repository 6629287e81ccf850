//! Registration, login, logout and the profile page, as decisions over what
//! storage returned and the session store.
//!
//! Each request is decided on its own. The caller looks the user up in
//! storage, hands the result here, and carries out what comes back (stores the
//! new user, sets or clears the session cookie, renders or redirects).

use vstd::prelude::*;
use vstd::string::*;
use crate::credentials::{hash_password, password_matches, verify_password};
use crate::ids::{is_fresh_id, new_id};
use crate::model::User;
use crate::session::SessionStore;

verus! {

/// The fields of the registration form.
#[derive(Debug, Clone)]
pub struct RegisterForm {
    pub username: String,
    pub password: String,
}

/// The fields of the login form.
#[derive(Debug, Clone)]
pub struct LoginForm {
    pub username: String,
    pub password: String,
}

/// Why a registration was refused.
#[derive(Debug, Clone, Copy, PartialEq, Eq, Structural)]
pub enum RegisterError {
    /// A user with that name already exists.
    UsernameTaken,
    /// The password could not be hashed.
    CredentialError,
}

/// Why a login was refused. Unknown users and wrong passwords are not told apart.
#[derive(Debug, Clone, Copy, PartialEq, Eq, Structural)]
pub enum LoginError {
    InvalidCredentials,
}

/// A successful login: the new session token and the user it authenticates.
#[derive(Debug, Clone)]
pub struct LoginSuccess {
    pub token: String,
    pub user_id: String,
}

/// What the profile page shows.
#[derive(Debug, Clone)]
pub enum ProfileResult {
    /// The signed-in user's name.
    Show { username: String },
    /// Nobody is signed in, or the user is gone: send the client to the login page.
    RedirectToLogin,
}

/// Decides a registration. `existing` is the user that storage holds under the
/// requested name, if any. On success the returned record is new, carries the
/// requested name, a fresh id and a hash of the password, and is to be
/// stored; no session is opened.
pub fn register_user(existing: &Option<User>, form: &RegisterForm) -> (r: Result<User, RegisterError>)
    ensures
        existing is Some ==> r == Err::<User, RegisterError>(RegisterError::UsernameTaken),
        existing is None ==> r is Ok || r == Err::<User, RegisterError>(
            RegisterError::CredentialError,
        ),
        r is Ok ==> {
            let u = r->Ok_0;
            &&& u.username@ == form.username@
            &&& is_fresh_id(u.id@)
            &&& password_matches(form.password@, u.password_hash@)
        },
{
    if existing.is_some() {
        return Err(RegisterError::UsernameTaken);
    }
    match hash_password(form.password.as_str()) {
        Ok(hashed) => {
            let id = new_id();
            Ok(User { id, username: form.username.clone(), password_hash: hashed })
        },
        Err(_) => Err(RegisterError::CredentialError),
    }
}

/// Completes a login once the password has been checked: `password_ok` says
/// whether it matched the stored hash of `found`. The login succeeds exactly
/// when the user exists and the password matched; it then opens a session
/// under a fresh token. Any failure is the same `InvalidCredentials`, and
/// leaves the store as it was.
pub fn complete_login(found: &Option<User>, password_ok: bool, store: &mut SessionStore) -> (r:
    Result<LoginSuccess, LoginError>)
    ensures
        r is Ok <==> (found is Some && password_ok),
        r is Ok ==> {
            let s = r->Ok_0;
            &&& s.user_id@ == found->Some_0.id@
            &&& is_fresh_id(s.token@)
            &&& final(store)@ == old(store)@.insert(s.token@, s.user_id@)
        },
        r is Err ==> r->Err_0 == LoginError::InvalidCredentials && final(store)@ == old(store)@,
{
    match found {
        Some(u) => {
            if password_ok {
                let token = store.create_session(u.id.as_str());
                Ok(LoginSuccess { token, user_id: u.id.clone() })
            } else {
                Err(LoginError::InvalidCredentials)
            }
        },
        None => Err(LoginError::InvalidCredentials),
    }
}

/// Decides a login. `found` is the user that storage holds under the given
/// name, if any. The login succeeds exactly when that user exists and the
/// password matches the stored hash; it then opens a session under a fresh
/// token. An unknown user and a wrong password both give the same
/// `InvalidCredentials`, and leave the store as it was.
pub fn login_user(found: &Option<User>, form: &LoginForm, store: &mut SessionStore) -> (r: Result<
    LoginSuccess,
    LoginError,
>)
    ensures
        r is Ok <==> (found is Some && password_matches(
            form.password@,
            found->Some_0.password_hash@,
        )),
        r is Ok ==> {
            let s = r->Ok_0;
            &&& s.user_id@ == found->Some_0.id@
            &&& is_fresh_id(s.token@)
            &&& final(store)@ == old(store)@.insert(s.token@, s.user_id@)
        },
        r is Err ==> r->Err_0 == LoginError::InvalidCredentials && final(store)@ == old(store)@,
{
    let password_ok = match found {
        Some(u) => verify_password(form.password.as_str(), u.password_hash.as_str()),
        None => false,
    };
    complete_login(found, password_ok, store)
}

/// The name of the cookie that carries the session token.
pub fn session_cookie_name() -> (r: &'static str)
    ensures
        r@ == "hackademy_session_id"@,
{
    "hackademy_session_id"
}

/// The `Set-Cookie` value that hands `token` to the client: HTTP-only, for the
/// whole site.
pub fn session_cookie(token: &str) -> (r: String)
    ensures
        r@ == "hackademy_session_id="@ + token@ + "; Path=/; HttpOnly"@,
{
    String::from_str("hackademy_session_id=").concat(token).concat("; Path=/; HttpOnly")
}

/// The `Set-Cookie` value that clears the session cookie at once.
pub fn clear_session_cookie() -> (r: String)
    ensures
        r@ == "hackademy_session_id=; Path=/; HttpOnly; Max-Age=0"@,
{
    String::from_str("hackademy_session_id=; Path=/; HttpOnly; Max-Age=0")
}

/// The user id that the request's session token (if it sent one) stands for;
/// `None` means anonymous.
pub fn resolve_identity(store: &SessionStore, token: &Option<String>) -> (r: Option<String>)
    ensures
        match token {
            Some(t) => match r {
                Some(u) => store@.contains_key(t@) && u@ == store@[t@],
                None => !store@.contains_key(t@),
            },
            None => r is None,
        },
{
    match token {
        Some(t) => store.get_user_id(t.as_str()),
        None => None,
    }
}

/// Logs out: ends the request's session, if it sent a token, and returns the
/// cookie value that clears the client's cookie, which is sent either way.
pub fn logout(store: &mut SessionStore, token: &Option<String>) -> (r: String)
    ensures
        match token {
            Some(t) => final(store)@ == old(store)@.remove(t@),
            None => final(store)@ == old(store)@,
        },
        r@ == "hackademy_session_id=; Path=/; HttpOnly; Max-Age=0"@,
{
    match token {
        Some(t) => store.remove_session(t.as_str()),
        None => {},
    }
    clear_session_cookie()
}

/// Decides the profile page from the user that storage holds under the
/// resolved identity (`None` when anonymous or when the user is gone).
pub fn profile(user: &Option<User>) -> (r: ProfileResult)
    ensures
        match user {
            Some(u) => r matches ProfileResult::Show { username } && username@ == u.username@,
            None => r is RedirectToLogin,
        },
{
    match user {
        Some(u) => ProfileResult::Show { username: u.username.clone() },
        None => ProfileResult::RedirectToLogin,
    }
}

/// How many records of `table` carry the name `name`.
pub open spec fn count_named(table: Seq<User>, name: Seq<char>) -> nat
    decreases table.len(),
{
    if table.len() == 0 {
        0
    } else {
        count_named(table.drop_last(), name) + if table.last().username@ == name {
            1nat
        } else {
            0nat
        }
    }
}

/// Registering a name twice: once the first registration's record is stored,
/// the table holds exactly one record with that name, and the lookup that
/// precedes a second registration finds one, which `register_user` refuses
/// with `UsernameTaken` (so nothing more is stored).
pub proof fn lemma_register_twice(table: Seq<User>, first: User, name: Seq<char>)
    requires
        count_named(table, name) == 0,
        first.username@ == name,
    ensures
        count_named(table.push(first), name) == 1,
        exists|i: int| 0 <= i < table.push(first).len() && (#[trigger] table.push(first)[i]).username@ == name,
{
    assert(table.push(first).drop_last() =~= table);
    assert(table.push(first)[table.len() as int] == first);
}

} // verus!
