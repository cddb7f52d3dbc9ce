//! CSRF configuration.

use vstd::prelude::*;

verus! {

broadcast use vstd::string::group_string_axioms;

/// Names, lifetimes and limits of the CSRF double-submit cookie.
#[derive(Debug, Clone)]
pub struct CsrfConfig {
    pub cookie_name: String,
    pub field_name: String,
    pub header_name: String,
    pub cookie_max_age: u64,
    pub token_length: usize,
    pub secure: bool,
    pub max_body_bytes: usize,
}

impl Default for CsrfConfig {
    fn default() -> (r: Self)
        ensures
            r.cookie_name@ == "_csrf"@,
            r.field_name@ == "_csrf_token"@,
            r.header_name@ == "x-csrf-token"@,
            r.cookie_max_age == 86400,
            r.token_length == 32,
            r.secure,
            r.max_body_bytes == 1048576,
    {
        CsrfConfig {
            cookie_name: String::from_str("_csrf"),
            field_name: String::from_str("_csrf_token"),
            header_name: String::from_str("x-csrf-token"),
            cookie_max_age: 86400,
            token_length: 32,
            secure: true,
            max_body_bytes: 1_048_576,
        }
    }
}

} // verus!
