//! Resolving the current member's role, and what the role guards decide.

use vstd::prelude::*;
use crate::error::{Error, HttpError};
use crate::tenant::guard::{check_allowed, check_denied};
use crate::text::{lemma_listed_elements, listed};

verus! {

broadcast use vstd::string::group_string_axioms;

/// The next step of role resolution.
#[derive(Debug, Clone)]
pub enum RoleStep {
    /// The role is known.
    Resolved(String),
    /// Resolution failed.
    Failed(Error),
    /// The member of `tenant_id` that `user_id` is must be looked up.
    LookUpMember { user_id: String, tenant_id: String },
}

/// The message given when no tenant was resolved before the guard ran.
pub open spec fn tenant_missing_message() -> Seq<char> {
    "Role guard requires tenant to be resolved first (use Tenant<T> extractor or TenantContextLayer)"@
}

/// The first step of resolving the current user's role for the current
/// tenant, from what the request already carries: a cached role wins; a
/// tenant must have been resolved (else an internal error) and the session
/// must name a user (else 401); then the member is looked up.
pub fn begin_role_resolution(
    cached_role: Option<String>,
    tenant_id: Option<String>,
    user_id: Option<String>,
) -> (r: RoleStep)
    ensures
        match cached_role {
            Some(role) => r == RoleStep::Resolved(role),
            None => match tenant_id {
                None => r matches RoleStep::Failed(Error::Internal(m)) && m@
                    == tenant_missing_message(),
                Some(t) => match user_id {
                    None => r == RoleStep::Failed(Error::Http(HttpError::Unauthorized)),
                    Some(u) => r == (RoleStep::LookUpMember { user_id: u, tenant_id: t }),
                },
            },
        },
{
    match cached_role {
        Some(role) => RoleStep::Resolved(role),
        None => match tenant_id {
            None => RoleStep::Failed(
                Error::Internal(
                    String::from_str(
                        "Role guard requires tenant to be resolved first (use Tenant<T> extractor or TenantContextLayer)",
                    ),
                ),
            ),
            Some(t) => match user_id {
                None => RoleStep::Failed(Error::Http(HttpError::Unauthorized)),
                Some(u) => RoleStep::LookUpMember { user_id: u, tenant_id: t },
            },
        },
    }
}

/// The last step of role resolution, from the member lookup: the member's
/// role, 403 when the user is no member of the tenant, or the lookup's own
/// error.
pub fn finish_role_resolution(member_role: Result<Option<String>, Error>) -> (r: Result<
    String,
    Error,
>)
    ensures
        match member_role {
            Ok(Some(role)) => r == Ok::<String, Error>(role),
            Ok(None) => r == Err::<String, Error>(Error::Http(HttpError::Forbidden)),
            Err(e) => r == Err::<String, Error>(e),
        },
{
    match member_role {
        Ok(Some(role)) => Ok(role),
        Ok(None) => Err(Error::Http(HttpError::Forbidden)),
        Err(e) => Err(e),
    }
}

/// Which roles a guard lets through.
#[derive(Debug, Clone, Copy, PartialEq, Eq, Structural)]
pub enum GuardMode {
    /// Only the listed roles (`require_roles`).
    Allow,
    /// Every role but the listed ones (`exclude_roles`).
    Deny,
}

/// Whether a guard in `mode` over `roles` lets `role` through.
pub open spec fn guard_admits(mode: GuardMode, roles: Seq<&str>, role: Seq<char>) -> bool {
    match mode {
        GuardMode::Allow => listed(roles, role),
        GuardMode::Deny => !listed(roles, role),
    }
}

/// The allow guard lets through every role of its list, wherever it stands
/// in the list, and no other; the deny guard is the opposite.
pub proof fn lemma_guard_on_listed_roles(roles: Seq<&str>, role: Seq<char>)
    ensures
        forall|i: int|
            0 <= i < roles.len() ==> guard_admits(GuardMode::Allow, roles, #[trigger] roles[i]@)
                && !guard_admits(GuardMode::Deny, roles, roles[i]@),
        (forall|i: int| 0 <= i < roles.len() ==> roles[i]@ != role) ==> !guard_admits(
            GuardMode::Allow,
            roles,
            role,
        ) && guard_admits(GuardMode::Deny, roles, role),
{
    lemma_listed_elements(roles, role);
}

/// What a role guard answers for the outcome of role resolution: the
/// resolution's error, 403 for a role that the guard does not admit, or
/// `Ok` to run the handler.
pub fn role_guard(mode: GuardMode, roles: &[&str], resolved: Result<String, Error>) -> (r: Result<
    (),
    Error,
>)
    ensures
        match resolved {
            Err(e) => r == Err::<(), Error>(e),
            Ok(role) => if guard_admits(mode, roles@, role@) {
                r is Ok
            } else {
                r == Err::<(), Error>(Error::Http(HttpError::Forbidden))
            },
        },
{
    match resolved {
        Err(e) => Err(e),
        Ok(role) => match mode {
            GuardMode::Allow => check_allowed(role.as_str(), roles),
            GuardMode::Deny => check_denied(role.as_str(), roles),
        },
    }
}

/// For the same role list, exactly one of the two guards admits a role:
/// `require_roles` and `exclude_roles` split the roles between them.
pub proof fn lemma_guards_complementary(roles: Seq<&str>, role: Seq<char>)
    ensures
        guard_admits(GuardMode::Allow, roles, role) != guard_admits(GuardMode::Deny, roles, role),
{
}

} // verus!
