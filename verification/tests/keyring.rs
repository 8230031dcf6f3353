use twofauth_client::token_store::{
    credential_entry, delete_token, load_token, report_delete, report_load, report_open, report_save, save_token,
    TokenStoreError, SERVICE_NAME, TOKEN_NAME,
};

const TEST_SERVICE_NAME: &str = "twofauth-client-tests";
const TEST_TOKEN_NAME: &str = "api-token-test";
const TEST_TOKEN: &str = "twofauth-client-keyring-test";

fn use_in_memory_keyring() {
    // the platform store is set up first, so that the in-memory one replaces it
    let _ = keyring::v1::Entry::store_status();
    keyring_core::set_default_store(keyring_core::mock::Store::new().expect("mock store"));
}

#[test]
fn keyring_roundtrip() {
    use_in_memory_keyring();

    let mut entry = credential_entry(TEST_SERVICE_NAME, TEST_TOKEN_NAME)
        .expect("Could not open test keyring entry");

    entry
        .set_password(TEST_TOKEN)
        .expect("Could not save test token");

    let loaded = entry.get_password().expect("Could not load test token");

    assert_eq!(loaded, TEST_TOKEN);

    entry
        .delete_credential()
        .expect("Could not delete test token");
}

#[test]
fn entries_keep_their_service_and_user() {
    use_in_memory_keyring();
    let entry = match credential_entry(TEST_SERVICE_NAME, TEST_TOKEN_NAME) {
        Ok(entry) => entry,
        Err(error) => panic!("could not open entry: {}", error.describe()),
    };
    assert_eq!(entry.service(), TEST_SERVICE_NAME);
    assert_eq!(entry.user(), TEST_TOKEN_NAME);

    let saved = match save_token("abc") {
        Ok(entry) => entry,
        Err(error) => panic!("could not save token: {}", error.describe()),
    };
    assert_eq!(saved.service(), SERVICE_NAME);
    assert_eq!(saved.user(), TOKEN_NAME);
    assert_eq!(SERVICE_NAME, "twofauth-client");
    assert_eq!(TOKEN_NAME, "api-token");
}

#[test]
fn fresh_entries_have_no_token() {
    use_in_memory_keyring();
    // a fresh store holds no token
    assert!(matches!(load_token(), Err(TokenStoreError::LoadFailed(_))));
    assert!(save_token("abc").is_ok());
    let stored = match load_token() {
        Ok(stored) => stored,
        Err(error) => panic!("could not load token: {}", error.describe()),
    };
    assert_eq!(stored.token, "abc");
    assert_eq!(stored.entry.service(), SERVICE_NAME);
    assert_eq!(stored.entry.user(), TOKEN_NAME);
    assert!(delete_token().is_ok());
    assert!(matches!(load_token(), Err(TokenStoreError::LoadFailed(_))));
    assert!(matches!(delete_token(), Err(TokenStoreError::DeleteFailed(_))));
}

#[test]
fn keyring_outcomes_are_reported_by_step() {
    assert!(matches!(report_open(Err(keyring_core::Error::NoDefaultStore)), Err(TokenStoreError::OpenFailed(_))));
    assert!(matches!(report_save(Err(keyring_core::Error::NoEntry)), Err(TokenStoreError::SaveFailed(_))));
    assert!(matches!(report_load(Err(keyring_core::Error::NoEntry)), Err(TokenStoreError::LoadFailed(_))));
    assert!(matches!(report_delete(Err(keyring_core::Error::NoEntry)), Err(TokenStoreError::DeleteFailed(_))));
    assert!(report_save(Ok(())).is_ok());
    assert!(report_delete(Ok(())).is_ok());
    assert_eq!(report_load(Ok("abc".to_string())).unwrap(), "abc");
}
