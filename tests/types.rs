use sure_client::types::AccountId;
use sure_client::{ApiKey, Auth, BearerToken};
use uuid::Uuid;

#[test]
fn test_bearer_token() {
    let token = BearerToken::new("test_token");
    assert_eq!(token.as_str(), "test_token");
    assert_eq!(&*token.as_str(), "test_token");
    assert_eq!(token.to_string(), "test_token");
}

#[test]
fn test_uuid_types() {
    let uuid = Uuid::new_v4();
    let account_id = AccountId::new(uuid);
    assert_eq!(account_id.as_uuid(), &uuid);
    assert_eq!(account_id.to_string(), uuid.to_string());

    let parsed = AccountId::parse(&uuid.to_string())
        .expect("UUID parsing should succeed for valid UUID string");
    assert_eq!(parsed, account_id);
}

#[test]
fn invalid_uuid_is_refused() {
    assert!(AccountId::parse("not-a-uuid").is_err());
}

#[test]
fn auth_constructors() {
    match Auth::bearer("jwt") {
        Auth::Bearer(t) => assert_eq!(t.as_str(), "jwt"),
        other => panic!("{other:?}"),
    }
    match Auth::api_key("key") {
        Auth::ApiKey(k) => assert_eq!(k.as_str(), "key"),
        other => panic!("{other:?}"),
    }
    assert_eq!(Auth::from(ApiKey::new("k")), Auth::api_key("k"));
    assert_eq!(Auth::from(BearerToken::new("t")), Auth::bearer("t"));
}
