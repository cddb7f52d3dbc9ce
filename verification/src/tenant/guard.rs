//! Role checks applied to a member's resolved role.

use vstd::prelude::*;
use crate::error::{Error, HttpError};
use crate::text::{listed, str_listed};

verus! {

/// Check that the resolved role is in the allowed list.
pub fn check_allowed(role: &str, allowed: &[&str]) -> (r: Result<(), Error>)
    ensures
        r is Ok <==> listed(allowed@, role@),
        r matches Err(e) ==> e == Error::Http(HttpError::Forbidden),
{
    if str_listed(allowed, role) {
        Ok(())
    } else {
        Err(Error::Http(HttpError::Forbidden))
    }
}

/// Check that the resolved role is NOT in the denied list.
pub fn check_denied(role: &str, denied: &[&str]) -> (r: Result<(), Error>)
    ensures
        r is Ok <==> !listed(denied@, role@),
        r matches Err(e) ==> e == Error::Http(HttpError::Forbidden),
{
    if str_listed(denied, role) {
        Err(Error::Http(HttpError::Forbidden))
    } else {
        Ok(())
    }
}

} // verus!
