//! Translated messages: which message is shown for which error, and where
//! the translations are looked for.
use vstd::prelude::*;

use crate::client::ApiError;
use crate::config::ServerUrlError;
use crate::gettext::{tr, translatable, Catalogue, Translation};
use crate::text::{decimal, push_decimal};

verus! {

/// The untranslated message for a refused server address.
pub open spec fn server_url_error_msgid(error: ServerUrlError) -> Seq<char> {
    match error {
        ServerUrlError::Empty => "Please enter a server address."@,
        ServerUrlError::InvalidUrl => "The server address is not a valid URL."@,
        ServerUrlError::MissingHost => "The server address does not contain a valid host."@,
        ServerUrlError::InsecureHttpDisabled =>
            "HTTP connections are disabled. Enable insecure HTTP connections if you understand and accept the risks."@,
        ServerUrlError::UnsupportedScheme =>
            "Only HTTPS connections are supported by default. HTTP can be enabled explicitly in the security settings."@,
    }
}

/// The untranslated message for a failed request; for an unexpected status
/// the message is followed by the status number.
pub open spec fn api_error_msgid(error: ApiError) -> Seq<char> {
    match error {
        ApiError::InvalidServerUrl(e) => server_url_error_msgid(e),
        ApiError::ConnectionFailed(_) => "Failed to connect to the 2FAuth server."@,
        ApiError::AuthenticationFailed =>
            "Authentication failed. The personal access token is invalid or has expired."@,
        ApiError::UnexpectedStatus(_) => "The 2FAuth server returned HTTP status"@,
        ApiError::InvalidResponse(_) =>
            "The response from the 2FAuth server could not be processed."@,
    }
}

/// The untranslated message for a refused server address.
pub fn server_url_error_text(error: ServerUrlError) -> (r: &'static str)
    ensures
        r@ == server_url_error_msgid(error),
{
    match error {
        ServerUrlError::Empty => "Please enter a server address.",
        ServerUrlError::InvalidUrl => "The server address is not a valid URL.",
        ServerUrlError::MissingHost => "The server address does not contain a valid host.",
        ServerUrlError::InsecureHttpDisabled =>
            "HTTP connections are disabled. Enable insecure HTTP connections if you understand and accept the risks.",
        ServerUrlError::UnsupportedScheme =>
            "Only HTTPS connections are supported by default. HTTP can be enabled explicitly in the security settings.",
    }
}

/// The untranslated message for a failed request, without the status number.
pub fn api_error_text(error: &ApiError) -> (r: &'static str)
    ensures
        r@ == api_error_msgid(*error),
{
    match error {
        ApiError::InvalidServerUrl(e) => server_url_error_text(*e),
        ApiError::ConnectionFailed(_) => "Failed to connect to the 2FAuth server.",
        ApiError::AuthenticationFailed =>
            "Authentication failed. The personal access token is invalid or has expired.",
        ApiError::UnexpectedStatus(_) => "The 2FAuth server returned HTTP status",
        ApiError::InvalidResponse(_) => "The response from the 2FAuth server could not be processed.",
    }
}

/// No message for a refused server address holds a NUL character, so each
/// can be looked up.
proof fn lemma_address_messages_translatable(error: ServerUrlError)
    ensures
        translatable(server_url_error_msgid(error)),
{
    reveal_strlit("Please enter a server address.");
    assert(!"Please enter a server address."@.contains('\0'));
    reveal_strlit("The server address is not a valid URL.");
    assert(!"The server address is not a valid URL."@.contains('\0'));
    reveal_strlit("The server address does not contain a valid host.");
    assert(!"The server address does not contain a valid host."@.contains('\0'));
    reveal_strlit("HTTP connections are disabled. Enable insecure HTTP connections if you understand and accept the risks.");
    assert(!"HTTP connections are disabled. Enable insecure HTTP connections if you understand and accept the risks."@.contains('\0'));
    reveal_strlit("Only HTTPS connections are supported by default. HTTP can be enabled explicitly in the security settings.");
    assert(!"Only HTTPS connections are supported by default. HTTP can be enabled explicitly in the security settings."@.contains('\0'));
}

/// No message for a failed request holds a NUL character, so each can be
/// looked up.
proof fn lemma_request_messages_translatable(error: ApiError)
    ensures
        translatable(api_error_msgid(error)),
{
    if let ApiError::InvalidServerUrl(e) = error {
        lemma_address_messages_translatable(e);
    }
    reveal_strlit("Failed to connect to the 2FAuth server.");
    assert(!"Failed to connect to the 2FAuth server."@.contains('\0'));
    reveal_strlit("Authentication failed. The personal access token is invalid or has expired.");
    assert(!"Authentication failed. The personal access token is invalid or has expired."@.contains('\0'));
    reveal_strlit("The 2FAuth server returned HTTP status");
    assert(!"The 2FAuth server returned HTTP status"@.contains('\0'));
    reveal_strlit("The response from the 2FAuth server could not be processed.");
    assert(!"The response from the 2FAuth server could not be processed."@.contains('\0'));
}

/// The message for a refused server address: `server_url_error_text(error)`
/// looked up in the catalogue, shown as gettext answers it.
pub fn server_url_error_message(catalogue: &Catalogue, error: ServerUrlError) -> (r: Translation)
    requires
        catalogue.codeset() == "UTF-8"@,
    ensures
        r.lookup() == Some((server_url_error_msgid(error), catalogue.domain_name())),
        r.text_view() == r.answer(),
{
    proof {
        lemma_address_messages_translatable(error);
    }
    tr(catalogue, server_url_error_text(error))
}

/// The message for a failed request: `api_error_text(error)` looked up in the
/// catalogue, followed by a space and the status number where the status
/// was unexpected.
pub fn api_error_message(catalogue: &Catalogue, error: &ApiError) -> (r: Translation)
    requires
        catalogue.codeset() == "UTF-8"@,
    ensures
        r.lookup() == Some((api_error_msgid(*error), catalogue.domain_name())),
        (match *error {
            ApiError::UnexpectedStatus(status) => r.text_view() == r.answer() + seq![' '] + decimal(status as nat),
            _ => r.text_view() == r.answer(),
        }),
{
    proof {
        lemma_request_messages_translatable(*error);
    }
    let mut r = tr(catalogue, api_error_text(error));
    match error {
        ApiError::UnexpectedStatus(status) => {
            let mut suffix = String::new();
            crate::text::push_char(&mut suffix, ' ');
            push_decimal(&mut suffix, *status as u64);
            r.append(suffix.as_str());
            assert(suffix@ =~= seq![' '] + decimal(*status as nat));
            assert(r.text_view() =~= r.answer() + seq![' '] + decimal(*status as nat));
        },
        _ => {},
    }
    r
}

/// A request refused for its server address is reported with the address
/// message itself: both look up the same text, and neither adds to it.
pub proof fn law_invalid_address_reported_alike(e: ServerUrlError)
    ensures
        api_error_msgid(ApiError::InvalidServerUrl(e)) == server_url_error_msgid(e),
{
}

/// Each refused server address has a message of its own.
pub proof fn law_address_messages_distinct(e1: ServerUrlError, e2: ServerUrlError)
    requires
        e1 != e2,
    ensures
        server_url_error_msgid(e1) != server_url_error_msgid(e2),
{
    reveal_strlit("Please enter a server address.");
    reveal_strlit("The server address is not a valid URL.");
    reveal_strlit("The server address does not contain a valid host.");
    reveal_strlit(
        "HTTP connections are disabled. Enable insecure HTTP connections if you understand and accept the risks.",
    );
    reveal_strlit(
        "Only HTTPS connections are supported by default. HTTP can be enabled explicitly in the security settings.",
    );
    let m1 = server_url_error_msgid(e1);
    let m2 = server_url_error_msgid(e2);
    assert(m1[0] != m2[0] || m1.len() != m2.len());
}

/// Where the translations are looked for: the first of the development,
/// Flatpak and local directories that holds one, else the system directory.
pub open spec fn chosen_locale_dir(development: bool, flatpak: bool, local: bool) -> Seq<char> {
    if development {
        "po"@
    } else if flatpak {
        "/app/share/locale"@
    } else if local {
        "/usr/local/share/locale"@
    } else {
        "/usr/share/locale"@
    }
}

/// Chooses the translation directory from which of the candidates hold a
/// catalogue; see `chosen_locale_dir`.
pub fn choose_locale_dir(development: bool, flatpak: bool, local: bool) -> (r: &'static str)
    ensures
        r@ == chosen_locale_dir(development, flatpak, local),
{
    if development {
        "po"
    } else if flatpak {
        "/app/share/locale"
    } else if local {
        "/usr/local/share/locale"
    } else {
        "/usr/share/locale"
    }
}

/// The translation directories in the order they are tried, the last being
/// the fallback.
pub fn locale_dir_candidates() -> (r: [&'static str; 4])
    ensures
        r@[0]@ == "po"@,
        r@[1]@ == "/app/share/locale"@,
        r@[2]@ == "/usr/local/share/locale"@,
        r@[3]@ == "/usr/share/locale"@,
{
    ["po", "/app/share/locale", "/usr/local/share/locale", "/usr/share/locale"]
}

/// The languages that catalogues exist for.
pub fn translated_languages() -> (r: [&'static str; 5])
    ensures
        r@[0]@ == "de"@,
        r@[1]@ == "en"@,
        r@[2]@ == "fr"@,
        r@[3]@ == "es"@,
        r@[4]@ == "pt"@,
{
    ["de", "en", "fr", "es", "pt"]
}


/// The translations are taken from the first candidate directory that
/// holds a catalogue, in the order development, Flatpak, local; where none
/// does, from the system directory. What a later candidate holds does not
/// matter once an earlier one holds a catalogue.
pub proof fn law_first_directory_with_catalogue(development: bool, flatpak: bool, local: bool)
    ensures
        ({
            let candidates = seq!["po"@, "/app/share/locale"@, "/usr/local/share/locale"@];
            let holds = seq![development, flatpak, local];
            &&& forall|k: int|
                0 <= k < 3 && #[trigger] holds[k] && (forall|j: int| 0 <= j < k ==> !holds[j])
                    ==> chosen_locale_dir(development, flatpak, local) == candidates[k]
            &&& (!development && !flatpak && !local) ==> chosen_locale_dir(development, flatpak, local)
                == "/usr/share/locale"@
        }),
{
    let candidates = seq!["po"@, "/app/share/locale"@, "/usr/local/share/locale"@];
    let holds = seq![development, flatpak, local];
    assert forall|k: int|
        0 <= k < 3 && #[trigger] holds[k] && (forall|j: int| 0 <= j < k ==> !holds[j])
            implies chosen_locale_dir(development, flatpak, local) == candidates[k] by {
        if k >= 1 {
            assert(!holds[0]);
        }
        if k >= 2 {
            assert(!holds[1]);
        }
    }
}

} // verus!
