use modo::session::cookie::{cookie_is_secure, session_cookie};
use modo::middleware::security_headers::Environment;
use modo::session::manager::{data_entry, data_with_key, data_without_key, SessionAction, SessionManager};
use modo::session::types::{SessionData, SessionId, SessionMeta, SessionToken};

fn meta() -> SessionMeta {
    SessionMeta {
        ip_address: "127.0.0.1".to_string(),
        user_agent: "test".to_string(),
        device_name: "test".to_string(),
        device_type: "test".to_string(),
        fingerprint: "abc".to_string(),
    }
}

fn session(user: &str) -> SessionData {
    SessionData {
        id: SessionId::new(),
        token: SessionToken::generate(),
        user_id: user.to_string(),
        ip_address: "127.0.0.1".to_string(),
        user_agent: "test".to_string(),
        device_name: "test".to_string(),
        device_type: "test".to_string(),
        fingerprint: "abc".to_string(),
        data: serde_json::Value::Object(serde_json::Map::new()),
        created_at: 0,
        last_active_at: 0,
        expires_at: 3600,
    }
}

#[test]
fn authenticate_sets_token() {
    let mut mgr = SessionManager::new(meta(), None);
    assert!(mgr.session_to_replace().is_none());
    let s = session("user1");
    let token = s.token.clone();
    mgr.finish_authenticate(Some(s)).unwrap();
    assert_eq!(mgr.current().unwrap().user_id, "user1");
    match mgr.action() {
        SessionAction::SetToken(t) => assert_eq!(t.as_str(), token.as_str()),
        _ => panic!("expected SetToken"),
    }
    assert_ne!(mgr.current().unwrap().token.as_str(), mgr.current().unwrap().id.as_str());
}

#[test]
fn authenticate_without_readback_errors() {
    let mut mgr = SessionManager::new(meta(), Some(session("old")));
    assert!(mgr.session_to_replace().is_some());
    assert!(mgr.finish_authenticate(None).is_err());
    assert!(mgr.current().is_none());
    assert!(matches!(mgr.action(), SessionAction::Keep));
}

#[test]
fn logout_clears_session() {
    let mut mgr = SessionManager::new(meta(), Some(session("user1")));
    assert!(mgr.logout_target().is_some());
    assert_eq!(mgr.logout_all_target().unwrap(), "user1");
    mgr.finish_logout();
    assert!(mgr.current().is_none());
    assert!(mgr.data().is_none());
    assert!(matches!(mgr.action(), SessionAction::Remove));
}

#[test]
fn operations_without_session_fail() {
    let mgr = SessionManager::new(meta(), None);
    assert!(mgr.logout_other_target().is_err());
    assert!(mgr.active_session_id().is_err());
    assert!(mgr.logout_target().is_none());
}

#[test]
fn rotate_keeps_id_and_changes_token() {
    let s = session("user1");
    let id = s.id.as_str().to_string();
    let old = s.token.as_str().to_string();
    let mut mgr = SessionManager::new(meta(), Some(s));
    assert_eq!(mgr.active_session_id().unwrap().as_str(), id);
    let new_token = SessionToken::generate();
    assert_eq!(new_token.as_str().len(), 64);
    assert_ne!(new_token.as_str(), old);
    mgr.finish_rotate(new_token.clone());
    assert_eq!(mgr.current().unwrap().id.as_str(), id);
    assert_eq!(mgr.current().unwrap().token.as_str(), new_token.as_str());
    assert!(matches!(mgr.action(), SessionAction::SetToken(_)));
}

#[test]
fn logout_other_leaves_manager_alone() {
    let mgr = SessionManager::new(meta(), Some(session("user1")));
    let (user, keep) = mgr.logout_other_target().unwrap();
    assert_eq!(user, "user1");
    assert_eq!(keep.as_str(), mgr.current().unwrap().id.as_str());
    assert!(matches!(mgr.action(), SessionAction::Keep));
}

#[test]
fn update_data_replaces_blob() {
    let mut mgr = SessionManager::new(meta(), Some(session("user1")));
    let mut m = serde_json::Map::new();
    m.insert("k".to_string(), serde_json::Value::from(1));
    mgr.finish_update_data(serde_json::Value::Object(m));
    assert_eq!(mgr.data().unwrap()["k"], 1);
    assert!(matches!(mgr.action(), SessionAction::Keep));
}

#[test]
fn cookie_attributes() {
    let c = session_cookie("sid", "tok", cookie_is_secure(Environment::Production), 3600);
    assert!(c.http_only && c.same_site_lax && c.secure);
    assert_eq!(c.path, "/");
    assert_eq!(c.max_age_secs, 3600);
    assert!(!cookie_is_secure(Environment::Development));
}

#[test]
fn token_from_bytes_is_hex() {
    let t = SessionToken::from_bytes(&[0x00, 0xab, 0x7f]);
    assert_eq!(t.as_str(), "00ab7f");
    assert_eq!(SessionToken::generate().as_str().len(), 64);
}

#[test]
fn session_data_clone_keeps_fields() {
    let s = session("user1");
    let c = s.clone();
    assert_eq!(c.id.as_str(), s.id.as_str());
    assert_eq!(c.token.as_str(), s.token.as_str());
    assert_eq!(c.data, s.data);
    assert_eq!(c.expires_at, 3600);
}

fn object_with(key: &str, value: serde_json::Value) -> serde_json::Value {
    let mut m = serde_json::Map::new();
    m.insert(key.to_string(), value);
    serde_json::Value::Object(m)
}

#[test]
fn set_then_get_returns_value_and_keeps_other_keys() {
    let mut s = session("user1");
    s.data = object_with("theme", serde_json::Value::String("dark".to_string()));
    let mut mgr = SessionManager::new(meta(), Some(s));
    let (id, data) = mgr.set_target("cart", serde_json::Value::from(3)).unwrap();
    assert_eq!(id.as_str(), mgr.current().unwrap().id.as_str());
    mgr.finish_update_data(data);
    assert_eq!(mgr.get("cart"), Some(serde_json::Value::from(3)));
    assert_eq!(mgr.get("theme"), Some(serde_json::Value::String("dark".to_string())));
    assert_eq!(mgr.get("missing"), None);
}

#[test]
fn set_overwrites_existing_key() {
    let data = object_with("k", serde_json::Value::from(1));
    let out = data_with_key(&data, "k", serde_json::Value::from(2));
    assert_eq!(out, object_with("k", serde_json::Value::from(2)));
}

#[test]
fn set_on_non_object_data_starts_from_empty_object() {
    let out = data_with_key(&serde_json::Value::from(7), "a", serde_json::Value::Bool(true));
    assert_eq!(out, object_with("a", serde_json::Value::Bool(true)));
    let out = data_with_key(&serde_json::Value::Null, "a", serde_json::Value::Null);
    assert_eq!(out, object_with("a", serde_json::Value::Null));
}

#[test]
fn remove_key_drops_only_that_key() {
    let mut data = object_with("a", serde_json::Value::from(1));
    data = data_with_key(&data, "b", serde_json::Value::from(2));
    let out = data_without_key(&data, "a");
    assert_eq!(out, object_with("b", serde_json::Value::from(2)));
    assert_eq!(data_entry(&out, "a"), None);
    assert_eq!(data_entry(&out, "b"), Some(serde_json::Value::from(2)));
}

#[test]
fn remove_key_on_non_object_data_gives_empty_object() {
    let out = data_without_key(&serde_json::Value::String("x".to_string()), "a");
    assert_eq!(out, serde_json::Value::Object(serde_json::Map::new()));
}

#[test]
fn get_on_non_object_or_without_session_is_none() {
    assert_eq!(data_entry(&serde_json::Value::from(5), "a"), None);
    let mgr = SessionManager::new(meta(), None);
    assert_eq!(mgr.get("a"), None);
}

#[test]
fn set_and_remove_key_without_session_error() {
    let mgr = SessionManager::new(meta(), None);
    assert!(mgr.set_target("a", serde_json::Value::Null).is_err());
    assert!(mgr.remove_key_target("a").is_err());
}

#[test]
fn remove_key_target_writes_data_without_key() {
    let mut s = session("u");
    s.data = object_with("a", serde_json::Value::from(1));
    let mut mgr = SessionManager::new(meta(), Some(s));
    let (_, data) = mgr.remove_key_target("a").unwrap();
    mgr.finish_update_data(data);
    assert_eq!(mgr.get("a"), None);
    assert_eq!(mgr.data(), Some(&serde_json::Value::Object(serde_json::Map::new())));
}
