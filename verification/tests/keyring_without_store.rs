use twofauth_client::token_store::{credential_entry, delete_token, load_token, save_token, TokenStoreError};

// This test removes the process-wide default store, so it lives in a test
// binary of its own.

const TEST_SERVICE_NAME: &str = "twofauth-client-tests";
const TEST_TOKEN_NAME: &str = "api-token-test";

#[test]
fn missing_store_is_an_open_failure() {
    let _ = keyring::v1::Entry::store_status();
    keyring_core::unset_default_store();
    let error = match credential_entry(TEST_SERVICE_NAME, TEST_TOKEN_NAME) {
        Ok(_) => panic!("an entry opened without a store"),
        Err(error) => error,
    };
    assert!(matches!(error, TokenStoreError::OpenFailed(_)));
    assert_eq!(error.describe(), "Failed to open the system keyring");
    assert!(matches!(save_token("x"), Err(TokenStoreError::OpenFailed(_))));
    assert!(matches!(load_token(), Err(TokenStoreError::OpenFailed(_))));
    assert!(matches!(delete_token(), Err(TokenStoreError::OpenFailed(_))));
}
