use hackademy::auth::{clear_session_cookie, logout, resolve_identity, session_cookie, session_cookie_name};
use hackademy::session::SessionStore;

#[test]
fn session_round_trip() {
    let mut store = SessionStore::new();
    let t = store.create_session("u1");
    assert_eq!(t.len(), 21);
    assert!(t.chars().all(|c| c.is_ascii_alphanumeric() || c == '_' || c == '-'));
    assert_eq!(store.get_user_id(&t), Some("u1".to_string()));
    store.remove_session(&t);
    assert_eq!(store.get_user_id(&t), None);
}

#[test]
fn revoke_unknown_token_is_noop() {
    let mut store = SessionStore::new();
    store.set_session("a", "u1");
    store.remove_session("zzz");
    assert_eq!(store.get_user_id("a"), Some("u1".to_string()));
    assert_eq!(store.get_user_id("zzz"), None);
}

#[test]
fn tokens_for_same_user_are_independent() {
    let mut store = SessionStore::new();
    let t1 = store.create_session("u1");
    let t2 = store.create_session("u1");
    assert_ne!(t1, t2);
    store.remove_session(&t1);
    assert_eq!(store.get_user_id(&t1), None);
    assert_eq!(store.get_user_id(&t2), Some("u1".to_string()));
}

#[test]
fn set_session_replaces_mapping() {
    let mut store = SessionStore::new();
    store.set_session("t", "u1");
    store.set_session("t", "u2");
    assert_eq!(store.get_user_id("t"), Some("u2".to_string()));
}

#[test]
fn identity_and_logout() {
    let mut store = SessionStore::new();
    store.set_session("tok", "u7");
    assert_eq!(resolve_identity(&store, &Some("tok".to_string())), Some("u7".to_string()));
    assert_eq!(resolve_identity(&store, &Some("other".to_string())), None);
    assert_eq!(resolve_identity(&store, &None), None);
    let c = logout(&mut store, &Some("tok".to_string()));
    assert_eq!(c, "hackademy_session_id=; Path=/; HttpOnly; Max-Age=0");
    assert_eq!(resolve_identity(&store, &Some("tok".to_string())), None);
    assert_eq!(logout(&mut store, &None), clear_session_cookie());
}

#[test]
fn cookie_texts() {
    assert_eq!(session_cookie_name(), "hackademy_session_id");
    assert_eq!(session_cookie("abc"), "hackademy_session_id=abc; Path=/; HttpOnly");
}
