use twofauth_client::client::ApiError;
use twofauth_client::config::ServerUrlError;
use twofauth_client::gettext::{no_nul, tr, translate, Catalogue, Translation};
use twofauth_client::i18n::{
    api_error_message, api_error_text, choose_locale_dir, locale_dir_candidates, server_url_error_message,
    server_url_error_text, translated_languages,
};

// a text domain without catalogues: every message comes back as it is
fn catalogue() -> Catalogue {
    Catalogue::open("twofauth-client-tests").expect("codeset")
}

#[test]
fn address_errors_have_their_messages() {
    assert_eq!(server_url_error_text(ServerUrlError::Empty), "Please enter a server address.");
    assert_eq!(server_url_error_text(ServerUrlError::InvalidUrl), "The server address is not a valid URL.");
    assert_eq!(
        server_url_error_text(ServerUrlError::MissingHost),
        "The server address does not contain a valid host."
    );
    assert!(server_url_error_text(ServerUrlError::InsecureHttpDisabled).starts_with("HTTP connections are disabled."));
    assert!(server_url_error_text(ServerUrlError::UnsupportedScheme).starts_with("Only HTTPS connections"));
    let c = catalogue();
    assert_eq!(server_url_error_message(&c, ServerUrlError::Empty).into_text(), tr(&c, "Please enter a server address.").into_text());
    assert_eq!(server_url_error_message(&c, ServerUrlError::Empty).into_text(), "Please enter a server address.");
    assert_eq!(
        server_url_error_message(&c, ServerUrlError::MissingHost).into_text(),
        "The server address does not contain a valid host."
    );
}

#[test]
fn request_errors_have_their_messages() {
    assert_eq!(api_error_text(&ApiError::AuthenticationFailed),
        "Authentication failed. The personal access token is invalid or has expired.");
    assert_eq!(api_error_text(&ApiError::InvalidServerUrl(ServerUrlError::Empty)), "Please enter a server address.");
    let c = catalogue();
    let message = api_error_message(&c, &ApiError::UnexpectedStatus(503)).into_text();
    assert!(message.ends_with(" 503"));
    assert_eq!(message, format!("{} 503", tr(&c, "The 2FAuth server returned HTTP status").into_text()));
    assert_eq!(message, "The 2FAuth server returned HTTP status 503");
    assert_eq!(api_error_message(&c, &ApiError::UnexpectedStatus(404)).into_text(), "The 2FAuth server returned HTTP status 404");
    assert_eq!(
        api_error_message(&c, &ApiError::InvalidServerUrl(ServerUrlError::InvalidUrl)).into_text(),
        server_url_error_message(&c, ServerUrlError::InvalidUrl).into_text()
    );
    assert_eq!(
        api_error_message(&c, &ApiError::AuthenticationFailed).into_text(),
        "Authentication failed. The personal access token is invalid or has expired."
    );
}

#[test]
fn locale_directories_in_order() {
    assert_eq!(choose_locale_dir(true, true, true), "po");
    assert_eq!(choose_locale_dir(false, true, true), "/app/share/locale");
    assert_eq!(choose_locale_dir(false, false, true), "/usr/local/share/locale");
    assert_eq!(choose_locale_dir(false, false, false), "/usr/share/locale");
    assert_eq!(locale_dir_candidates()[3], "/usr/share/locale");
    assert_eq!(translated_languages(), ["de", "en", "fr", "es", "pt"]);
}

#[test]
fn catalogues_need_a_plain_domain() {
    assert!(Catalogue::open("bad\0domain").is_none());
    let c = catalogue();
    assert_eq!(c.domain(), "twofauth-client-tests");
    // a message gettext cannot take is shown as it is
    assert_eq!(translate(&c, "a\0b").into_text(), "a\0b");
    assert_eq!(translate(&c, "Cancel").into_text(), "Cancel");
}

#[test]
fn translations_keep_their_text() {
    let c = catalogue();
    let mut t = Translation::untranslated("Cancel");
    t.append(" now");
    assert_eq!(t.text(), "Cancel now");
    assert_eq!(tr(&c, "Copy").text(), "Copy");
    assert!(no_nul("abc"));
    assert!(!no_nul("a\0c"));
}
