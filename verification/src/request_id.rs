//! Per-request identifiers.

use vstd::prelude::*;
use crate::db::id::{generate_ulid, is_lower_ulid};

verus! {

/// A per-request ULID identifier, propagated via the `X-Request-ID` request
/// and response headers.
#[derive(Debug, Clone)]
pub struct RequestId(pub String);

impl RequestId {
    /// Generate a new ULID-based request ID (lowercase).
    pub fn generate() -> (r: Self)
        ensures
            is_lower_ulid(r.0@),
    {
        RequestId(generate_ulid())
    }

    /// Return the ID as a string slice.
    pub fn as_str(&self) -> (r: &str)
        ensures
            r@ == self.0@,
    {
        self.0.as_str()
    }

    /// The ID as an owned string, as it is displayed.
    pub fn to_string(&self) -> (r: String)
        ensures
            r@ == self.0@,
    {
        self.0.clone()
    }

    /// The ID for a request whose `X-Request-ID` header reads `header` (none
    /// when absent or not visible ASCII): a non-empty header value is kept,
    /// otherwise a fresh ID is generated.
    pub fn from_header(header: Option<&str>) -> (r: Self)
        ensures
            match header {
                Some(v) => v@.len() > 0 ==> r.0@ == v@,
                None => true,
            },
            (match header {
                Some(v) => v@.len() == 0,
                None => true,
            }) ==> is_lower_ulid(r.0@),
    {
        match header {
            Some(v) => {
                if v.is_empty() {
                    RequestId::generate()
                } else {
                    RequestId(String::from_str(v))
                }
            },
            None => RequestId::generate(),
        }
    }
}

} // verus!
