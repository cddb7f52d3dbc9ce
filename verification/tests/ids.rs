use modo::db::error::error_for_db_failure;
use modo::db::id::{generate_nanoid, generate_ulid};
use modo::db::error::SqlErrorKind;
use modo::router::{method_from_name, Method};
use modo::error::{Error, HttpError};

#[test]
fn ulid_is_lowercase() {
    let id = generate_ulid();
    assert_eq!(id.len(), 26);
    assert!(id.chars().all(|c| c.is_ascii_digit() || c.is_ascii_lowercase()));
    assert!(ulid::Ulid::from_string(&id).is_ok());
}

#[test]
fn nanoid_shape() {
    let id = generate_nanoid();
    assert_eq!(id.chars().count(), 21);
    assert!(id.chars().all(|c| c.is_ascii_alphanumeric() || c == '_' || c == '-'));
}

#[test]
fn methods_by_name() {
    assert_eq!(method_from_name("get").unwrap(), Method::GET);
    assert_eq!(method_from_name("POST").unwrap(), Method::POST);
    assert_eq!(method_from_name("Patch").unwrap(), Method::PATCH);
    assert_eq!(method_from_name("options").unwrap(), Method::OPTIONS);
    assert_eq!(method_from_name("trace").unwrap_err(), "unsupported HTTP method: TRACE");
}

#[test]
fn database_failures_map_to_statuses() {
    let e = error_for_db_failure(Some(SqlErrorKind::UniqueConstraintViolation), false, "x".into());
    assert_eq!(e.status_code(), 409);
    let e = error_for_db_failure(Some(SqlErrorKind::ForeignKeyConstraintViolation), true, "x".into());
    assert_eq!(e.status_code(), 409);
    let e = error_for_db_failure(None, true, "x".into());
    assert_eq!(e.status_code(), 404);
    match error_for_db_failure(None, false, "boom".into()) {
        Error::Internal(m) => assert_eq!(m, "boom"),
        other => panic!("unexpected {other:?}"),
    }
}

#[test]
fn record_not_found_from_sea_orm() {
    let e = modo::db::error::db_err_to_error(sea_orm::DbErr::RecordNotFound("user".into()));
    assert_eq!(e.status_code(), 404);
    let e = modo::db::error::db_err_to_error(sea_orm::DbErr::Custom("bad".into()));
    match e {
        Error::Internal(m) => assert_eq!(m, "Custom Error: bad"),
        other => panic!("unexpected {other:?}"),
    }
}

#[test]
fn error_statuses() {
    assert_eq!(HttpError::BadRequest.status_code(), 400);
    assert_eq!(HttpError::Conflict.with_message("dup".into()).status_code(), 409);
    assert_eq!(Error::Validation(vec![]).status_code(), 422);
}

#[test]
fn uppercase_names_and_ids() {
    assert_eq!(modo::router::method_from_uppercase("DELETE").unwrap(), Method::DELETE);
    assert!(modo::router::method_from_uppercase("delete").is_err());
    assert_eq!(modo::db::id::lowercase_id("01ARZ3NDEKTSV4RRFFQ69G5FAV"), "01arz3ndektsv4rrffq69g5fav");
}
