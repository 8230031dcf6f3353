use reqwest::StatusCode;
use twofauth_client::client::{check_response_status, server_time_from_date_header, ApiError, TwoFAuthClient};
use twofauth_client::config::ServerUrlError;

#[test]
fn successful_status_is_accepted() {
    assert!(check_response_status(StatusCode::OK.as_u16()).is_ok());
}

#[test]
fn unauthorized_status_is_authentication_error() {
    let result = check_response_status(StatusCode::UNAUTHORIZED.as_u16());

    assert!(matches!(result, Err(ApiError::AuthenticationFailed)));
}

#[test]
fn server_error_is_unexpected_status() {
    let result = check_response_status(StatusCode::INTERNAL_SERVER_ERROR.as_u16());

    assert!(matches!(
        result,
        Err(ApiError::UnexpectedStatus(code)) if code == StatusCode::INTERNAL_SERVER_ERROR.as_u16()
    ));
}

#[test]
fn not_found_is_unexpected_status() {
    let result = check_response_status(StatusCode::NOT_FOUND.as_u16());

    assert!(matches!(
        result,
        Err(ApiError::UnexpectedStatus(code)) if code == StatusCode::NOT_FOUND.as_u16()
    ));
}

#[test]
fn success_range_bounds() {
    assert!(check_response_status(200).is_ok());
    assert!(check_response_status(204).is_ok());
    assert!(check_response_status(299).is_ok());
    assert!(matches!(check_response_status(199), Err(ApiError::UnexpectedStatus(199))));
    assert!(matches!(check_response_status(300), Err(ApiError::UnexpectedStatus(300))));
    assert!(matches!(check_response_status(403), Err(ApiError::UnexpectedStatus(403))));
}

#[test]
fn describe_matches_display_texts() {
    assert_eq!(
        ApiError::UnexpectedStatus(500).describe(),
        "2FAuth server returned HTTP 500 Internal Server Error"
    );
    assert_eq!(
        ApiError::UnexpectedStatus(404).describe(),
        "2FAuth server returned HTTP 404 Not Found"
    );
    assert_eq!(
        ApiError::AuthenticationFailed.describe(),
        "Authentication failed: invalid or expired token"
    );
    assert_eq!(
        ApiError::InvalidServerUrl(ServerUrlError::MissingHost).describe(),
        "Invalid server URL: MissingHost"
    );
    assert!(ApiError::AuthenticationFailed.source_error().is_none());
}

#[test]
fn client_trims_trailing_slashes_and_builds_endpoints() {
    let client = TwoFAuthClient::new("https://2fauth.example.com//", "secret", false).unwrap();
    assert_eq!(client.base_url(), "https://2fauth.example.com");
    assert_eq!(client.token(), "secret");
    assert_eq!(client.accounts_url(), "https://2fauth.example.com/api/v1/twofaccounts");
    assert_eq!(client.groups_url(), "https://2fauth.example.com/api/v1/groups");
    assert_eq!(client.otp_url(42), "https://2fauth.example.com/api/v1/twofaccounts/42/otp");
    assert_eq!(client.otp_url(0), "https://2fauth.example.com/api/v1/twofaccounts/0/otp");
    assert_eq!(client.icon_url("abc.png"), "https://2fauth.example.com/storage/icons/abc.png");
}

#[test]
fn client_refuses_bad_addresses() {
    assert!(matches!(
        TwoFAuthClient::new("http://2fauth.example.com", "t", false),
        Err(ApiError::InvalidServerUrl(ServerUrlError::InsecureHttpDisabled))
    ));
    assert!(TwoFAuthClient::new("http://2fauth.example.com", "t", true).is_ok());
    assert!(matches!(
        TwoFAuthClient::new("///", "t", false),
        Err(ApiError::InvalidServerUrl(ServerUrlError::Empty))
    ));
}

#[test]
fn date_header_gives_server_seconds() {
    assert_eq!(server_time_from_date_header("Sun, 06 Nov 1994 08:49:37 GMT"), Some(784111777));
    assert_eq!(server_time_from_date_header("Thu, 01 Jan 1970 00:00:00 GMT"), Some(0));
    assert_eq!(server_time_from_date_header("not a date"), None);
}

#[test]
fn client_uses_the_stored_address() {
    let config = twofauth_client::config::AppConfig::with_settings(" https://2fauth.example.com/// ", "system", false);
    let client = TwoFAuthClient::new(&config.server_url, "t", config.allow_insecure_http).unwrap();
    assert_eq!(client.base_url(), config.server_url);
}
