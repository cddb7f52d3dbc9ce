use modo::auth::provider::{UserProvider, UserProviderService};
use modo::error::Error;

#[derive(Clone, Debug, PartialEq)]
struct TestUser {
    id: String,
    name: String,
}

struct TestProvider;

impl UserProvider for TestProvider {
    type User = TestUser;

    fn find_by_id(&self, id: &str) -> Result<Option<Self::User>, Error> {
        if id == "user-1" {
            Ok(Some(TestUser { id: "user-1".to_string(), name: "Alice".to_string() }))
        } else {
            Ok(None)
        }
    }
}

#[test]
fn user_provider_service_finds_existing_user() {
    let svc = UserProviderService::new(TestProvider);
    let user = svc.find_by_id("user-1").unwrap();
    assert_eq!(user, Some(TestUser { id: "user-1".to_string(), name: "Alice".to_string() }));
}

#[test]
fn user_provider_service_returns_none_for_missing_user() {
    let svc = UserProviderService::new(TestProvider);
    let user = svc.find_by_id("nonexistent").unwrap();
    assert_eq!(user, None);
}
