//! Session identifiers, tokens and records.

use vstd::prelude::*;
use crate::db::id::{generate_ulid, is_lower_ulid};
use crate::session::fingerprint::{hex_encode, hex_lower, is_hex_lower, lemma_hex_len};

verus! {

/// `serde_json::Value`, the JSON data attached to a session; carried
/// through as an opaque value.
#[verifier::external_type_specification]
#[verifier::external_body]
pub struct ExJsonValue(serde_json::Value);

/// `Value::clone` of `serde_json`. Claimed: the clone is the same JSON
/// value.
pub assume_specification[ <serde_json::Value as std::clone::Clone>::clone ](
    v: &serde_json::Value,
) -> (r: serde_json::Value)
    ensures
        r == *v,
;

/// `serde_json::Map`, the entries of a JSON object.
#[verifier::external_type_specification]
#[verifier::external_body]
#[verifier::reject_recursive_types(K)]
#[verifier::reject_recursive_types(V)]
pub struct ExJsonMap<K, V>(serde_json::Map<K, V>);

/// The entries of a JSON object map, by key.
pub uninterp spec fn json_map_entries(m: serde_json::Map<String, serde_json::Value>) -> Map<
    Seq<char>,
    serde_json::Value,
>;

/// The entries of a JSON value that is an object; `None` for any other
/// JSON value.
pub uninterp spec fn json_object(v: serde_json::Value) -> Option<Map<Seq<char>, serde_json::Value>>;

/// No entries at all.
pub open spec fn no_entries() -> Map<Seq<char>, serde_json::Value> {
    Map::empty()
}

/// The entries of `v` where it is an object, and no entries otherwise.
pub open spec fn object_entries(v: serde_json::Value) -> Map<Seq<char>, serde_json::Value> {
    match json_object(v) {
        Some(m) => m,
        None => no_entries(),
    }
}

/// What `v` holds under `key`: nothing unless `v` is an object with that key.
pub open spec fn json_entry(v: serde_json::Value, key: Seq<char>) -> Option<serde_json::Value> {
    match json_object(v) {
        Some(m) => if m.dom().contains(key) {
            Some(m[key])
        } else {
            None
        },
        None => None,
    }
}

/// `Value::as_object` of `serde_json`, the map cloned. Claimed: `Some` of
/// the object's entries exactly when `v` is an object.
#[verifier::external_body]
pub(crate) fn json_as_object(v: &serde_json::Value) -> (r: Option<
    serde_json::Map<String, serde_json::Value>,
>)
    ensures
        match r {
            Some(m) => json_object(*v) == Some(json_map_entries(m)),
            None => json_object(*v) is None,
        },
{
    v.as_object().cloned()
}

/// `Value::get` of `serde_json` with a string key, the entry cloned.
/// Claimed: the entry under `key` when `v` is an object that has one, and
/// `None` otherwise.
#[verifier::external_body]
pub(crate) fn json_get(v: &serde_json::Value, key: &str) -> (r: Option<serde_json::Value>)
    ensures
        r == json_entry(*v, key@),
{
    v.get(key).cloned()
}

/// `Map::new` of `serde_json`. Claimed: no entries.
#[verifier::external_body]
pub(crate) fn json_map_new() -> (r: serde_json::Map<String, serde_json::Value>)
    ensures
        json_map_entries(r) == no_entries(),
{
    serde_json::Map::new()
}

/// `Map::insert` of `serde_json`. Claimed: `key` maps to `value` afterwards,
/// the other entries stay.
#[verifier::external_body]
pub(crate) fn json_map_insert(
    m: &mut serde_json::Map<String, serde_json::Value>,
    key: String,
    value: serde_json::Value,
)
    ensures
        json_map_entries(*final(m)) == json_map_entries(*old(m)).insert(key@, value),
{
    m.insert(key, value);
}

/// `Map::remove` of `serde_json`. Claimed: `key` has no entry afterwards,
/// the other entries stay.
#[verifier::external_body]
pub(crate) fn json_map_remove(m: &mut serde_json::Map<String, serde_json::Value>, key: &str)
    ensures
        json_map_entries(*final(m)) == json_map_entries(*old(m)).remove(key@),
{
    m.remove(key);
}

/// `Value::Object` of `serde_json`. Claimed: an object value with exactly
/// the map's entries.
#[verifier::external_body]
pub(crate) fn json_from_map(m: serde_json::Map<String, serde_json::Value>) -> (r: serde_json::Value)
    ensures
        json_object(r) == Some(json_map_entries(m)),
{
    serde_json::Value::Object(m)
}

/// The database identity of a session.
#[derive(Debug, Clone)]
pub struct SessionId(pub String);

impl SessionId {
    /// A fresh identifier: a lowercase ULID.
    pub fn new() -> (r: Self)
        ensures
            is_lower_ulid(r.0@),
    {
        SessionId(generate_ulid())
    }

    /// The identifier as a string slice.
    pub fn as_str(&self) -> (r: &str)
        ensures
            r@ == self.0@,
    {
        self.0.as_str()
    }
}

/// The secret that the session cookie carries.
#[derive(Debug, Clone)]
pub struct SessionToken(pub String);

/// Calls `nanoid::rngs::default`, which fills a buffer from an
/// entropy-seeded `StdRng`. Claimed: `n` bytes; their values are random and
/// not stated.
#[verifier::external_body]
fn random_bytes(n: usize) -> (r: Vec<u8>)
    ensures
        r@.len() == n,
{
    ::nanoid::rngs::default(n)
}

impl SessionToken {
    /// A fresh token: 32 random bytes as 64 lowercase hex characters.
    pub fn generate() -> (r: Self)
        ensures
            r.0@.len() == 64,
            forall|i: int| 0 <= i < r.0@.len() ==> is_hex_lower(#[trigger] r.0@[i]),
    {
        let bytes = random_bytes(32);
        SessionToken::from_bytes(bytes.as_slice())
    }

    /// The token written for `bytes`: two lowercase hex characters per byte.
    pub fn from_bytes(bytes: &[u8]) -> (r: Self)
        ensures
            r.0@ == hex_lower(bytes@),
            r.0@.len() == 2 * bytes@.len(),
            forall|i: int| 0 <= i < r.0@.len() ==> is_hex_lower(#[trigger] r.0@[i]),
    {
        proof {
            lemma_hex_len(bytes@);
        }
        SessionToken(hex_encode(bytes))
    }

    /// The token as a string slice.
    pub fn as_str(&self) -> (r: &str)
        ensures
            r@ == self.0@,
    {
        self.0.as_str()
    }
}

/// A generated token never equals a generated session ID: the one is 64
/// characters long, the other 26.
pub proof fn lemma_token_is_not_an_id(token: SessionToken, id: SessionId)
    requires
        token.0@.len() == 64,
        is_lower_ulid(id.0@),
    ensures
        token.0@ != id.0@,
{
}

/// What is recorded about the client when a session is created.
#[derive(Debug, Clone)]
pub struct SessionMeta {
    pub ip_address: String,
    pub user_agent: String,
    pub device_name: String,
    pub device_type: String,
    pub fingerprint: String,
}

/// A stored session. Timestamps are Unix times in seconds (UTC).
#[derive(Debug)]
pub struct SessionData {
    pub id: SessionId,
    pub token: SessionToken,
    pub user_id: String,
    pub ip_address: String,
    pub user_agent: String,
    pub device_name: String,
    pub device_type: String,
    pub fingerprint: String,
    pub data: serde_json::Value,
    pub created_at: i64,
    pub last_active_at: i64,
    pub expires_at: i64,
}

impl Clone for SessionData {
    fn clone(&self) -> (r: Self)
        ensures
            r == *self,
    {
        SessionData {
            id: SessionId(self.id.0.clone()),
            token: SessionToken(self.token.0.clone()),
            user_id: self.user_id.clone(),
            ip_address: self.ip_address.clone(),
            user_agent: self.user_agent.clone(),
            device_name: self.device_name.clone(),
            device_type: self.device_type.clone(),
            fingerprint: self.fingerprint.clone(),
            data: self.data.clone(),
            created_at: self.created_at,
            last_active_at: self.last_active_at,
            expires_at: self.expires_at,
        }
    }
}

} // verus!
