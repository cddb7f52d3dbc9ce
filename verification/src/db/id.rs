//! Unique identifiers: ULIDs and NanoIDs.

use vstd::prelude::*;
use crate::text::{ascii_lower, ascii_lower_seq, chars_of, lower_ascii, string_of_chars};

verus! {

/// A character of the Crockford base32 alphabet that ULIDs are written in.
pub open spec fn crockford_upper(c: char) -> bool {
    ('0' <= c && c <= '9') || ('A' <= c && c <= 'Z' && c != 'I' && c != 'L' && c != 'O'
        && c != 'U')
}

/// A character of the lowercase Crockford base32 alphabet.
pub open spec fn crockford_lower(c: char) -> bool {
    ('0' <= c && c <= '9') || ('a' <= c && c <= 'z' && c != 'i' && c != 'l' && c != 'o'
        && c != 'u')
}

/// A lowercase ULID: 26 characters of the lowercase Crockford alphabet.
pub open spec fn is_lower_ulid(s: Seq<char>) -> bool {
    s.len() == 26 && forall|i: int| 0 <= i < s.len() ==> crockford_lower(#[trigger] s[i])
}

/// A character of NanoID's URL-safe alphabet `_-0-9a-zA-Z`.
pub open spec fn nanoid_safe(c: char) -> bool {
    c == '_' || c == '-' || ('0' <= c && c <= '9') || ('a' <= c && c <= 'z') || ('A' <= c
        && c <= 'Z')
}

/// A default NanoID: 21 characters of the URL-safe alphabet.
pub open spec fn is_nanoid(s: Seq<char>) -> bool {
    s.len() == 21 && forall|i: int| 0 <= i < s.len() ==> nanoid_safe(#[trigger] s[i])
}

/// Calls `Ulid::new` and `Ulid::to_string`. Claimed: 26 characters of the
/// uppercase Crockford base32 alphabet (the encoding `ulid` writes). The
/// value depends on the clock and on randomness and is not stated.
#[verifier::external_body]
fn new_ulid_string() -> (r: String)
    ensures
        r@.len() == 26,
        forall|i: int| 0 <= i < r@.len() ==> crockford_upper(#[trigger] r@[i]),
{
    ::ulid::Ulid::new().to_string()
}

/// Calls `nanoid::format` with `nanoid::rngs::default`, the URL-safe
/// alphabet and 21 characters, as `nanoid!()` does. Claimed: 21 characters
/// of that alphabet; which ones is random and not stated.
#[verifier::external_body]
fn new_nanoid_string() -> (r: String)
    ensures
        is_nanoid(r@),
{
    ::nanoid::format(::nanoid::rngs::default, &::nanoid::alphabet::SAFE, 21)
}

/// The ASCII lowercase of an identifier.
pub fn lowercase_id(s: &str) -> (r: String)
    ensures
        r@ == ascii_lower_seq(s@),
{
    let cs = chars_of(s);
    let low = lower_ascii(&cs);
    string_of_chars(&low)
}

/// The lowercase of an uppercase ULID is a lowercase ULID.
pub proof fn lemma_lowercase_ulid(s: Seq<char>)
    requires
        s.len() == 26,
        forall|i: int| 0 <= i < s.len() ==> crockford_upper(#[trigger] s[i]),
    ensures
        is_lower_ulid(ascii_lower_seq(s)),
{
    let low = ascii_lower_seq(s);
    assert forall|i: int| 0 <= i < low.len() implies crockford_lower(#[trigger] low[i]) by {
        assert(crockford_upper(s[i]));
        assert(low[i] == ascii_lower(s[i]));
    }
}

/// Generate a new ULID as a lowercase string (26 chars).
pub fn generate_ulid() -> (r: String)
    ensures
        is_lower_ulid(r@),
{
    let up = new_ulid_string();
    proof {
        lemma_lowercase_ulid(up@);
    }
    lowercase_id(up.as_str())
}

/// Generate a new NanoID (21 chars, default alphabet).
pub fn generate_nanoid() -> (r: String)
    ensures
        is_nanoid(r@),
{
    new_nanoid_string()
}

} // verus!
