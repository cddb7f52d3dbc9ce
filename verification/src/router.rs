//! HTTP methods of route registrations.

use vstd::prelude::*;
use crate::text::{str_eq, to_uppercase, unicode_uppercase};

verus! {

broadcast use vstd::string::group_string_axioms;

/// HTTP method variants used in route registrations.
#[derive(Debug, Clone, Copy, PartialEq, Eq, Structural)]
pub enum Method {
    GET,
    POST,
    PUT,
    PATCH,
    DELETE,
    HEAD,
    OPTIONS,
}

/// The name of a method, in uppercase.
pub open spec fn method_name(m: Method) -> Seq<char> {
    match m {
        Method::GET => "GET"@,
        Method::POST => "POST"@,
        Method::PUT => "PUT"@,
        Method::PATCH => "PATCH"@,
        Method::DELETE => "DELETE"@,
        Method::HEAD => "HEAD"@,
        Method::OPTIONS => "OPTIONS"@,
    }
}

/// The message for a method name that names no supported method.
pub open spec fn unsupported_method_message(upper: Seq<char>) -> Seq<char> {
    "unsupported HTTP method: "@ + upper
}

/// The method that a handler attribute names, in any case: its uppercase
/// form must be one of the supported names.
pub fn method_from_name(name: &str) -> (r: Result<Method, String>)
    ensures
        match r {
            Ok(m) => method_name(m) == unicode_uppercase(name@),
            Err(msg) => (forall|m: Method| method_name(m) != unicode_uppercase(name@))
                && msg@ == unsupported_method_message(unicode_uppercase(name@)),
        },
{
    let upper = to_uppercase(name);
    method_from_uppercase(upper.as_str())
}

/// The method named by an uppercase name.
pub fn method_from_uppercase(upper: &str) -> (r: Result<Method, String>)
    ensures
        match r {
            Ok(m) => method_name(m) == upper@,
            Err(msg) => (forall|m: Method| method_name(m) != upper@) && msg@
                == unsupported_method_message(upper@),
        },
{
    if str_eq(upper, "GET") {
        Ok(Method::GET)
    } else if str_eq(upper, "POST") {
        Ok(Method::POST)
    } else if str_eq(upper, "PUT") {
        Ok(Method::PUT)
    } else if str_eq(upper, "PATCH") {
        Ok(Method::PATCH)
    } else if str_eq(upper, "DELETE") {
        Ok(Method::DELETE)
    } else if str_eq(upper, "HEAD") {
        Ok(Method::HEAD)
    } else if str_eq(upper, "OPTIONS") {
        Ok(Method::OPTIONS)
    } else {
        assert forall|m: Method| method_name(m) != upper@ by {
            match m {
                Method::GET => {},
                Method::POST => {},
                Method::PUT => {},
                Method::PATCH => {},
                Method::DELETE => {},
                Method::HEAD => {},
                Method::OPTIONS => {},
            }
        }
        Err(String::from_str("unsupported HTTP method: ").concat(upper))
    }
}

/// Each method is named by its standard token in uppercase, and no two
/// methods share a name; so the name of a method resolves to that method
/// and to no other.
pub proof fn lemma_method_names()
    ensures
        method_name(Method::GET) == "GET"@,
        method_name(Method::POST) == "POST"@,
        method_name(Method::PUT) == "PUT"@,
        method_name(Method::PATCH) == "PATCH"@,
        method_name(Method::DELETE) == "DELETE"@,
        method_name(Method::HEAD) == "HEAD"@,
        method_name(Method::OPTIONS) == "OPTIONS"@,
        forall|m1: Method, m2: Method| #[trigger]
            method_name(m1) == #[trigger] method_name(m2) ==> m1 == m2,
{
    reveal_strlit("GET");
    reveal_strlit("POST");
    reveal_strlit("PUT");
    reveal_strlit("PATCH");
    reveal_strlit("DELETE");
    reveal_strlit("HEAD");
    reveal_strlit("OPTIONS");
    assert forall|m1: Method, m2: Method| #[trigger]
        method_name(m1) == #[trigger] method_name(m2) implies m1 == m2 by {
        if m1 != m2 {
            let a = method_name(m1);
            let b = method_name(m2);
            if a.len() == b.len() {
                assert(a[0] != b[0] || a[1] != b[1]);
            }
        }
    }
}

/// Resolving a method's own name gives back that method: any answer that
/// `method_from_uppercase` may give for the name of `m` (a method of that
/// name, or an error when no method has it) is `Ok(m)`.
pub proof fn lemma_name_resolves_to_method(m: Method, r: Result<Method, String>)
    requires
        match r {
            Ok(found) => method_name(found) == method_name(m),
            Err(_) => forall|other: Method| method_name(other) != method_name(m),
        },
    ensures
        r == Ok::<Method, String>(m),
{
    lemma_method_names();
}

} // verus!
