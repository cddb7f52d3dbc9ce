//! The decisions of the session manager. Each operation that talks to the
//! session store is split into what to ask the store and what the answer
//! does to the manager; whoever owns the store performs the calls in
//! between.

use vstd::prelude::*;
use crate::error::Error;
use crate::session::types::{
    json_as_object, json_entry, json_from_map, json_get, json_map_insert, json_map_new,
    json_map_remove, json_map_entries, json_object, object_entries, SessionData, SessionId,
    SessionMeta, SessionToken,
};

verus! {

broadcast use vstd::string::group_string_axioms;

/// What the response should do with the session cookie.
#[derive(Debug, Clone)]
pub enum SessionAction {
    /// Leave the cookie as it is.
    Keep,
    /// Set the cookie to this token.
    SetToken(SessionToken),
    /// Remove the cookie.
    Remove,
}

/// The message of the error given when an operation needs a session and
/// there is none.
pub open spec fn no_session_message() -> Seq<char> {
    "no active session"@
}

/// The message of the error given when a freshly created session cannot be
/// read back.
pub open spec fn missing_after_create_message() -> Seq<char> {
    "session not found after create"@
}

/// The entries of `data` as a map to edit: its own where it is an object,
/// none otherwise.
fn object_map(data: &serde_json::Value) -> (r: serde_json::Map<String, serde_json::Value>)
    ensures
        json_map_entries(r) == object_entries(*data),
{
    match json_as_object(data) {
        Some(m) => m,
        None => json_map_new(),
    }
}

/// Session data with `key` set to `value`. Data that is not a JSON object
/// is first replaced by an empty object.
pub fn data_with_key(data: &serde_json::Value, key: &str, value: serde_json::Value) -> (r:
    serde_json::Value)
    ensures
        json_object(r) == Some(object_entries(*data).insert(key@, value)),
{
    let mut m = object_map(data);
    json_map_insert(&mut m, String::from_str(key), value);
    json_from_map(m)
}

/// Session data without `key`. Data that is not a JSON object becomes an
/// empty object.
pub fn data_without_key(data: &serde_json::Value, key: &str) -> (r: serde_json::Value)
    ensures
        json_object(r) == Some(object_entries(*data).remove(key@)),
{
    let mut m = object_map(data);
    json_map_remove(&mut m, key);
    json_from_map(m)
}

/// What session data holds under `key`: nothing unless the data is an
/// object with that key.
pub fn data_entry(data: &serde_json::Value, key: &str) -> (r: Option<serde_json::Value>)
    ensures
        r == match json_object(*data) {
            Some(m) => if m.dom().contains(key@) {
                Some(m[key@])
            } else {
                None
            },
            None => None,
        },
{
    json_get(data, key)
}

/// Reading a key back after it was set gives the value that was set, and
/// every other key reads as it did before, also where the data was not an
/// object.
pub proof fn lemma_entry_after_set(
    data: serde_json::Value,
    key: Seq<char>,
    value: serde_json::Value,
    written: serde_json::Value,
    other: Seq<char>,
)
    requires
        json_object(written) == Some(object_entries(data).insert(key, value)),
    ensures
        json_entry(written, key) == Some(value),
        other != key ==> json_entry(written, other) == json_entry(data, other),
{
}

/// Reading a key back after it was removed gives nothing, and every other
/// key reads as it did before.
pub proof fn lemma_entry_after_remove(
    data: serde_json::Value,
    key: Seq<char>,
    written: serde_json::Value,
    other: Seq<char>,
)
    requires
        json_object(written) == Some(object_entries(data).remove(key)),
    ensures
        json_entry(written, key) is None,
        other != key ==> json_entry(written, other) == json_entry(data, other),
{
}

/// High-level session state for a request: the cookie action, what is known
/// of the client, and the current session if the request is authenticated.
pub struct SessionManager {
    action: SessionAction,
    meta: SessionMeta,
    current_session: Option<SessionData>,
}

impl SessionManager {
    /// The cookie action decided so far.
    pub closed spec fn action_view(&self) -> SessionAction {
        self.action
    }

    /// What is known of the client.
    pub closed spec fn meta_view(&self) -> SessionMeta {
        self.meta
    }

    /// The current session.
    pub closed spec fn current_view(&self) -> Option<SessionData> {
        self.current_session
    }

    /// The manager for a request: the session the middleware loaded (if
    /// any), and no cookie change yet.
    pub fn new(meta: SessionMeta, current: Option<SessionData>) -> (r: Self)
        ensures
            r.action_view() is Keep,
            r.meta_view() == meta,
            r.current_view() == current,
    {
        SessionManager { action: SessionAction::Keep, meta, current_session: current }
    }

    /// The cookie action decided so far.
    pub fn action(&self) -> (r: &SessionAction)
        ensures
            *r == self.action_view(),
    {
        &self.action
    }

    /// What is known of the client; handed to the store on create.
    pub fn meta(&self) -> (r: &SessionMeta)
        ensures
            *r == self.meta_view(),
    {
        &self.meta
    }

    /// Access the current session data (if authenticated).
    pub fn current(&self) -> (r: Option<&SessionData>)
        ensures
            match r {
                Some(s) => self.current_view() == Some(*s),
                None => self.current_view() is None,
            },
    {
        match &self.current_session {
            Some(s) => Some(s),
            None => None,
        }
    }

    /// Read the current session's data field.
    pub fn data(&self) -> (r: Option<&serde_json::Value>)
        ensures
            match r {
                Some(d) => self.current_view() matches Some(s) && s.data == *d,
                None => self.current_view() is None,
            },
    {
        match &self.current_session {
            Some(s) => Some(&s.data),
            None => None,
        }
    }

    /// Get a value from the current session's data by key: nothing without
    /// a session, or where the data holds nothing under `key`.
    pub fn get(&self, key: &str) -> (r: Option<serde_json::Value>)
        ensures
            r == match self.current_view() {
                Some(s) => json_entry(s.data, key@),
                None => None,
            },
    {
        match &self.current_session {
            Some(s) => data_entry(&s.data, key),
            None => None,
        }
    }

    /// Setting a single key, first step: the session to write and the data
    /// to write, the current data with `key` set to `value`. It fails
    /// without a current session.
    pub fn set_target(&self, key: &str, value: serde_json::Value) -> (r: Result<
        (SessionId, serde_json::Value),
        Error,
    >)
        ensures
            match self.current_view() {
                Some(s) => r matches Ok(p) && p.0.0@ == s.id.0@ && json_object(p.1) == Some(
                    object_entries(s.data).insert(key@, value),
                ),
                None => r matches Err(Error::Internal(m)) && m@ == no_session_message(),
            },
    {
        match &self.current_session {
            Some(s) => Ok((SessionId(s.id.0.clone()), data_with_key(&s.data, key, value))),
            None => Err(Error::Internal(String::from_str("no active session"))),
        }
    }

    /// Removing a key, first step: the session to write and the data to
    /// write, the current data without `key`. It fails without a current
    /// session.
    pub fn remove_key_target(&self, key: &str) -> (r: Result<(SessionId, serde_json::Value), Error>)
        ensures
            match self.current_view() {
                Some(s) => r matches Ok(p) && p.0.0@ == s.id.0@ && json_object(p.1) == Some(
                    object_entries(s.data).remove(key@),
                ),
                None => r matches Err(Error::Internal(m)) && m@ == no_session_message(),
            },
    {
        match &self.current_session {
            Some(s) => Ok((SessionId(s.id.0.clone()), data_without_key(&s.data, key))),
            None => Err(Error::Internal(String::from_str("no active session"))),
        }
    }

    /// Authentication, first step: the session to destroy before a new one
    /// is created (fixation prevention). A failure to destroy it does not
    /// stop authentication.
    pub fn session_to_replace(&self) -> (r: Option<SessionId>)
        ensures
            match self.current_view() {
                Some(s) => r matches Some(id) && id.0@ == s.id.0@,
                None => r is None,
            },
    {
        match &self.current_session {
            Some(s) => Some(SessionId(s.id.0.clone())),
            None => None,
        }
    }

    /// Authentication, last step, once the store created a session and was
    /// asked for it back: `loaded` becomes the current session, and the
    /// cookie is set to its token; when the store has no such session the
    /// request fails and the cookie is left alone.
    pub fn finish_authenticate(&mut self, loaded: Option<SessionData>) -> (r: Result<(), Error>)
        ensures
            final(self).current_view() == loaded,
            final(self).meta_view() == old(self).meta_view(),
            match loaded {
                Some(s) => r is Ok && final(self).action_view() == SessionAction::SetToken(s.token),
                None => (r matches Err(Error::Internal(m)) && m@ == missing_after_create_message())
                    && final(self).action_view() == old(self).action_view(),
            },
    {
        let token = match &loaded {
            Some(s) => Some(SessionToken(s.token.0.clone())),
            None => None,
        };
        self.current_session = loaded;
        match token {
            Some(t) => {
                self.action = SessionAction::SetToken(t);
                Ok(())
            },
            None => Err(Error::Internal(String::from_str("session not found after create"))),
        }
    }

    /// Logout, first step: the session to destroy, if there is one.
    pub fn logout_target(&self) -> (r: Option<SessionId>)
        ensures
            match self.current_view() {
                Some(s) => r matches Some(id) && id.0@ == s.id.0@,
                None => r is None,
            },
    {
        self.session_to_replace()
    }

    /// Logout of every device, first step: the user whose sessions are all
    /// destroyed, if there is a current session.
    pub fn logout_all_target(&self) -> (r: Option<String>)
        ensures
            match self.current_view() {
                Some(s) => r matches Some(u) && u@ == s.user_id@,
                None => r is None,
            },
    {
        match &self.current_session {
            Some(s) => Some(s.user_id.clone()),
            None => None,
        }
    }

    /// Logout (of this device or of all), last step, once the store
    /// destroyed what it was asked to: no current session, and the cookie
    /// is removed.
    pub fn finish_logout(&mut self)
        ensures
            final(self).current_view() is None,
            final(self).action_view() is Remove,
            final(self).meta_view() == old(self).meta_view(),
    {
        self.action = SessionAction::Remove;
        self.current_session = None;
    }

    /// Logout of every other device: the user and the session to keep. It
    /// fails without a current session; otherwise the store destroys the
    /// user's other sessions and this manager stays as it is.
    pub fn logout_other_target(&self) -> (r: Result<(String, SessionId), Error>)
        ensures
            match self.current_view() {
                Some(s) => r matches Ok(p) && p.0@ == s.user_id@ && p.1.0@ == s.id.0@,
                None => r matches Err(Error::Internal(m)) && m@ == no_session_message(),
            },
    {
        match &self.current_session {
            Some(s) => Ok((s.user_id.clone(), SessionId(s.id.0.clone()))),
            None => Err(Error::Internal(String::from_str("no active session"))),
        }
    }

    /// The current session's ID, for an operation that needs a session: the
    /// store is asked to change that session. It fails without one.
    pub fn active_session_id(&self) -> (r: Result<SessionId, Error>)
        ensures
            match self.current_view() {
                Some(s) => r matches Ok(id) && id.0@ == s.id.0@,
                None => r matches Err(Error::Internal(m)) && m@ == no_session_message(),
            },
    {
        match &self.current_session {
            Some(s) => Ok(SessionId(s.id.0.clone())),
            None => Err(Error::Internal(String::from_str("no active session"))),
        }
    }

    /// Token rotation, last step, once the store recorded `token` for the
    /// current session: the session keeps its ID and everything else, its
    /// token is `token`, and the cookie is set to it.
    pub fn finish_rotate(&mut self, token: SessionToken)
        requires
            old(self).current_view() is Some,
        ensures
            final(self).current_view() == Some(SessionData {
                token: token,
                ..old(self).current_view().unwrap()
            }),
            final(self).action_view() == SessionAction::SetToken(token),
            final(self).meta_view() == old(self).meta_view(),
    {
        let t2 = SessionToken(token.0.clone());
        match self.current_session.take() {
            Some(s) => {
                self.current_session = Some(SessionData { token: t2, ..s });
            },
            None => {},
        }
        self.action = SessionAction::SetToken(token);
    }

    /// Data replacement, last step, once the store recorded `data` for the
    /// current session: the session's data is `data`, the rest stays.
    pub fn finish_update_data(&mut self, data: serde_json::Value)
        requires
            old(self).current_view() is Some,
        ensures
            final(self).current_view() == Some(SessionData {
                data: data,
                ..old(self).current_view().unwrap()
            }),
            final(self).action_view() == old(self).action_view(),
            final(self).meta_view() == old(self).meta_view(),
    {
        match self.current_session.take() {
            Some(s) => {
                self.current_session = Some(SessionData { data, ..s });
            },
            None => {},
        }
    }
}

} // verus!
