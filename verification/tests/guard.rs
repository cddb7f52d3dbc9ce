use modo::error::{Error, HttpError};
use modo::tenant::guard::{check_allowed, check_denied};
use modo::tenant::resolve::{begin_role_resolution, finish_role_resolution, role_guard, GuardMode, RoleStep};

#[test]
fn allowed_passes_matching_role() {
    assert!(check_allowed("admin", &["admin", "owner"]).is_ok());
}

#[test]
fn allowed_rejects_non_matching_role() {
    let err = check_allowed("viewer", &["admin", "owner"]).unwrap_err();
    assert_eq!(err.status_code(), http::StatusCode::FORBIDDEN.as_u16());
}

#[test]
fn denied_blocks_matching_role() {
    let err = check_denied("viewer", &["viewer"]).unwrap_err();
    assert_eq!(err.status_code(), http::StatusCode::FORBIDDEN.as_u16());
}

#[test]
fn denied_passes_non_matching_role() {
    assert!(check_denied("admin", &["viewer"]).is_ok());
}

#[test]
fn guards_split_roles() {
    for role in ["admin", "owner", "viewer", ""] {
        let roles: &[&str] = &["admin", "owner"];
        assert_ne!(check_allowed(role, roles).is_ok(), check_denied(role, roles).is_ok());
    }
}

#[test]
fn cached_role_wins() {
    let step = begin_role_resolution(Some("admin".to_string()), None, None);
    assert!(matches!(step, RoleStep::Resolved(ref r) if r == "admin"));
}

#[test]
fn tenant_must_be_resolved_first() {
    let step = begin_role_resolution(None, None, Some("u1".to_string()));
    match step {
        RoleStep::Failed(e) => assert_eq!(e.status_code(), 500),
        _ => panic!("expected failure"),
    }
}

#[test]
fn missing_user_is_unauthorized() {
    let step = begin_role_resolution(None, Some("t-1".to_string()), None);
    match step {
        RoleStep::Failed(e) => assert_eq!(e.status_code(), 401),
        _ => panic!("expected failure"),
    }
}

#[test]
fn member_lookup_requested() {
    let step = begin_role_resolution(None, Some("t-1".to_string()), Some("u1".to_string()));
    match step {
        RoleStep::LookUpMember { user_id, tenant_id } => {
            assert_eq!(user_id, "u1");
            assert_eq!(tenant_id, "t-1");
        }
        _ => panic!("expected lookup"),
    }
}

#[test]
fn non_member_is_forbidden() {
    let r = finish_role_resolution(Ok(None));
    assert_eq!(r.unwrap_err().status_code(), 403);
    assert_eq!(finish_role_resolution(Ok(Some("owner".to_string()))).unwrap(), "owner");
    let e = finish_role_resolution(Err(Error::internal("db down".to_string()))).unwrap_err();
    assert_eq!(e.status_code(), 500);
}

#[test]
fn role_guard_outcomes() {
    let roles: &[&str] = &["admin", "owner"];
    assert!(role_guard(GuardMode::Allow, roles, Ok("admin".to_string())).is_ok());
    assert_eq!(role_guard(GuardMode::Allow, roles, Ok("viewer".to_string())).unwrap_err().status_code(), 403);
    assert!(role_guard(GuardMode::Deny, &["viewer"], Ok("admin".to_string())).is_ok());
    assert_eq!(role_guard(GuardMode::Deny, &["viewer"], Ok("viewer".to_string())).unwrap_err().status_code(), 403);
    let e = role_guard(GuardMode::Allow, roles, Err(Error::Http(HttpError::Unauthorized))).unwrap_err();
    assert_eq!(e.status_code(), 401);
}
