//! The user provider that the authentication extractor consults.

use vstd::prelude::*;
use crate::error::Error;

verus! {

/// Loads a user by the ID stored in their session. Implement it on your own
/// type (a repository holding a database pool, say) and register it with
/// `UserProviderService::new`.
pub trait UserProvider: Send + Sync + 'static {
    type User: Clone + Send + Sync + 'static;

    /// Look up a user by their ID (as stored in the session). Returns
    /// `Ok(None)` if the user doesn't exist and `Err` only for
    /// infrastructure failures.
    fn find_by_id(&self, id: &str) -> Result<Option<Self::User>, Error>;
}

/// A user provider registered as a service.
pub struct UserProviderService<P: UserProvider> {
    inner: std::sync::Arc<P>,
}

impl<P: UserProvider> UserProviderService<P> {
    /// The wrapped provider.
    pub closed spec fn provider(&self) -> P {
        *self.inner
    }

    /// Wrap a `UserProvider` implementation for registration in the service
    /// registry.
    pub fn new(provider: P) -> (r: Self)
        ensures
            r.provider() == provider,
    {
        UserProviderService { inner: std::sync::Arc::new(provider) }
    }

    /// Delegate to the wrapped provider: what it answers for `id` is
    /// returned unchanged.
    pub fn find_by_id(&self, id: &str) -> (r: Result<Option<P::User>, Error>)
        ensures
            call_ensures(P::find_by_id, (&self.provider(), id), r),
    {
        self.inner.find_by_id(id)
    }
}

} // verus!
