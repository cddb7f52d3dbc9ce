//! Mapping database errors onto HTTP errors.

use vstd::prelude::*;
use crate::error::{Error, HttpError};

verus! {

/// `sea_orm::DbErr`, carried through as an opaque value.
#[verifier::external_type_specification]
#[verifier::external_body]
pub struct ExDbErr(sea_orm::DbErr);

/// The constraint violations that a database reports.
#[derive(Debug, Clone, Copy, PartialEq, Eq, Structural)]
pub enum SqlErrorKind {
    UniqueConstraintViolation,
    ForeignKeyConstraintViolation,
}

/// The kind of constraint violation that `DbErr::sql_err` reports for an
/// error. `DbErr` has no view, so the name takes the error itself.
pub uninterp spec fn db_sql_error_kind(e: sea_orm::DbErr) -> Option<SqlErrorKind>;

/// Whether an error is the `DbErr::RecordNotFound` variant.
pub uninterp spec fn db_err_is_record_not_found(e: sea_orm::DbErr) -> bool;

/// The `Display` text of an error.
pub uninterp spec fn db_err_message(e: sea_orm::DbErr) -> Seq<char>;

/// Calls `DbErr::sql_err` and keeps the kind of constraint violation it
/// reports. Claimed: the result is the name `db_sql_error_kind` of the
/// error; which database error becomes which kind is decided inside
/// `sea_orm` by driver and error code, and is not spelled out here.
#[verifier::external_body]
fn sql_error_kind(e: &sea_orm::DbErr) -> (r: Option<SqlErrorKind>)
    ensures
        r == db_sql_error_kind(*e),
{
    match e.sql_err() {
        Some(sea_orm::error::SqlErr::UniqueConstraintViolation(_)) => Some(
            SqlErrorKind::UniqueConstraintViolation,
        ),
        Some(sea_orm::error::SqlErr::ForeignKeyConstraintViolation(_)) => Some(
            SqlErrorKind::ForeignKeyConstraintViolation,
        ),
        _ => None,
    }
}

/// Tells the `DbErr::RecordNotFound` variant apart from the others.
/// Claimed: the result is the name `db_err_is_record_not_found` of the
/// error.
#[verifier::external_body]
fn is_record_not_found(e: &sea_orm::DbErr) -> (r: bool)
    ensures
        r == db_err_is_record_not_found(*e),
{
    match e {
        sea_orm::DbErr::RecordNotFound(_) => true,
        _ => false,
    }
}

/// Calls `DbErr::to_string` (its `Display` text). Claimed: the text is the
/// name `db_err_message` of the error.
#[verifier::external_body]
fn db_err_text(e: &sea_orm::DbErr) -> (r: String)
    ensures
        r@ == db_err_message(*e),
{
    e.to_string()
}

/// The HTTP error for a database error, from what was read off it: a
/// constraint violation is a conflict, a missing record is not found,
/// anything else is an internal error carrying the database's message.
pub fn error_for_db_failure(sql: Option<SqlErrorKind>, record_not_found: bool, message: String) -> (r:
    Error)
    ensures
        sql is Some ==> r == Error::Http(HttpError::Conflict),
        sql is None && record_not_found ==> r == Error::Http(HttpError::NotFound),
        sql is None && !record_not_found ==> r == Error::Internal(message),
{
    match sql {
        Some(_) => Error::Http(HttpError::Conflict),
        None => {
            if record_not_found {
                Error::Http(HttpError::NotFound)
            } else {
                Error::Internal(message)
            }
        },
    }
}

/// Converts a `sea_orm::DbErr` into an `Error`: unique and foreign-key
/// violations answer 409, a missing record 404, anything else 500.
pub fn db_err_to_error(e: sea_orm::DbErr) -> (r: Error)
    ensures
        db_sql_error_kind(e) is Some ==> r == Error::Http(HttpError::Conflict),
        db_sql_error_kind(e) is None && db_err_is_record_not_found(e) ==> r == Error::Http(
            HttpError::NotFound,
        ),
        db_sql_error_kind(e) is None && !db_err_is_record_not_found(e) ==> (r matches Error::Internal(
            m,
        ) && m@ == db_err_message(e)),
{
    let sql = sql_error_kind(&e);
    let not_found = is_record_not_found(&e);
    let text = db_err_text(&e);
    error_for_db_failure(sql, not_found, text)
}

} // verus!
