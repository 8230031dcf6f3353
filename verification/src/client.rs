//! The 2FAuth API client: its endpoints, the verdict on a response status,
//! the errors of a request, and the server time that a response carries.
use vstd::prelude::*;

use crate::config::{normalized_server_url, server_url_verdict, validate_server_url, ServerUrlError};
use crate::text::{
    decimal, lemma_trim_end_char_idempotent, push_decimal, trim_end_char, trim_end_matching,
    trim_ws,
};

verus! {

#[verifier::external_type_specification]
#[verifier::external_body]
pub struct ExReqwestError(reqwest::Error);

/// Why a request to the server failed.
#[derive(Debug)]
pub enum ApiError {
    /// The configured server address is refused.
    InvalidServerUrl(ServerUrlError),
    /// The server could not be reached.
    ConnectionFailed(reqwest::Error),
    /// The server answered 401: the token is invalid or expired.
    AuthenticationFailed,
    /// The server answered with another status outside 200..=299.
    UnexpectedStatus(u16),
    /// The answer could not be read.
    InvalidResponse(reqwest::Error),
}

/// A status in 200..=299, as `StatusCode::is_success` decides.
pub open spec fn spec_is_success(status: u16) -> bool {
    200 <= status <= 299
}

pub open spec fn status_verdict(status: u16) -> Result<(), ApiError> {
    if status == 401 {
        Err(ApiError::AuthenticationFailed)
    } else if !spec_is_success(status) {
        Err(ApiError::UnexpectedStatus(status))
    } else {
        Ok(())
    }
}

/// Whether a status reports success; see `spec_is_success`.
pub fn is_success(status: u16) -> (b: bool)
    ensures
        b == spec_is_success(status),
{
    200 <= status && status <= 299
}

/// Checks the status of a response: 401 means the token was refused, any
/// other status outside 200..=299 is unexpected.
pub fn check_response_status(status: u16) -> (r: Result<(), ApiError>)
    ensures
        r == status_verdict(status),
{
    if status == 401 {
        return Err(ApiError::AuthenticationFailed);
    }
    if !is_success(status) {
        return Err(ApiError::UnexpectedStatus(status));
    }
    Ok(())
}

/// The reason phrase that `http::StatusCode::canonical_reason` gives for a
/// status, if the status is valid and has one.
pub uninterp spec fn canonical_reason(status: u16) -> Option<Seq<char>>;

/// `reqwest::StatusCode::from_u16` followed by `canonical_reason`: the
/// registered reason phrase of a status, where there is one. The table
/// itself is left to the `http` crate; the result is named.
#[verifier::external_body]
fn status_reason(status: u16) -> (r: Option<String>)
    ensures
        (match r {
            Some(s) => canonical_reason(status) == Some(s@),
            None => canonical_reason(status) is None,
        }),
{
    match reqwest::StatusCode::from_u16(status) {
        Ok(code) => match code.canonical_reason() {
            Some(reason) => Some(reason.to_string()),
            None => None,
        },
        Err(_) => None,
    }
}

pub open spec fn server_url_error_name(e: ServerUrlError) -> Seq<char> {
    match e {
        ServerUrlError::Empty => "Empty"@,
        ServerUrlError::InvalidUrl => "InvalidUrl"@,
        ServerUrlError::MissingHost => "MissingHost"@,
        ServerUrlError::InsecureHttpDisabled => "InsecureHttpDisabled"@,
        ServerUrlError::UnsupportedScheme => "UnsupportedScheme"@,
    }
}

/// The untranslated description of an error, as the error's `Display` writes
/// it; a status is followed by its reason phrase.
pub open spec fn error_description(e: ApiError) -> Seq<char> {
    match e {
        ApiError::InvalidServerUrl(u) => "Invalid server URL: "@ + server_url_error_name(u),
        ApiError::ConnectionFailed(_) => "Failed to connect to the 2FAuth server"@,
        ApiError::AuthenticationFailed => "Authentication failed: invalid or expired token"@,
        ApiError::UnexpectedStatus(s) => "2FAuth server returned HTTP "@ + decimal(s as nat)
            + seq![' '] + match canonical_reason(s) {
            Some(reason) => reason,
            None => "<unknown status code>"@,
        },
        ApiError::InvalidResponse(_) => "Failed to process the response from the 2FAuth server"@,
    }
}

impl ApiError {
    /// The untranslated description of the error; see `error_description`.
    pub fn describe(&self) -> (r: String)
        ensures
            r@ == error_description(*self),
    {
        let mut r = String::new();
        match self {
            ApiError::InvalidServerUrl(u) => {
                r.append("Invalid server URL: ");
                let name = match u {
                    ServerUrlError::Empty => "Empty",
                    ServerUrlError::InvalidUrl => "InvalidUrl",
                    ServerUrlError::MissingHost => "MissingHost",
                    ServerUrlError::InsecureHttpDisabled => "InsecureHttpDisabled",
                    ServerUrlError::UnsupportedScheme => "UnsupportedScheme",
                };
                r.append(name);
            },
            ApiError::ConnectionFailed(_) => {
                r.append("Failed to connect to the 2FAuth server");
            },
            ApiError::AuthenticationFailed => {
                r.append("Authentication failed: invalid or expired token");
            },
            ApiError::UnexpectedStatus(s) => {
                r.append("2FAuth server returned HTTP ");
                push_decimal(&mut r, *s as u64);
                crate::text::push_char(&mut r, ' ');
                match status_reason(*s) {
                    Some(reason) => r.append(reason.as_str()),
                    None => r.append("<unknown status code>"),
                }
            },
            ApiError::InvalidResponse(_) => {
                r.append("Failed to process the response from the 2FAuth server");
            },
        }
        assert(r@ =~= error_description(*self));
        r
    }

    /// The transport error underneath, for the variants that carry one.
    pub fn source_error(&self) -> (r: Option<&reqwest::Error>)
        ensures
            (match *self {
                ApiError::ConnectionFailed(e) => r == Some(&e),
                ApiError::InvalidResponse(e) => r == Some(&e),
                _ => r is None,
            }),
    {
        match self {
            ApiError::ConnectionFailed(e) => Some(e),
            ApiError::InvalidResponse(e) => Some(e),
            _ => None,
        }
    }
}

/// A one-time password as the server returns it, with the server time of the
/// response in seconds since the Unix epoch, where the response had a date.
#[derive(Debug)]
pub struct OtpResponse {
    pub password: String,
    pub server_time: Option<u64>,
}

/// The seconds since the Unix epoch that `httpdate::parse_http_date` reads
/// from an HTTP date, or `None` where it refuses the text.
pub uninterp spec fn http_date_secs(value: Seq<char>) -> Option<u64>;

/// `httpdate::parse_http_date` (IMF-fixdate, RFC 850 and asctime forms),
/// with the time converted to whole seconds since the Unix epoch. The
/// formats are left to the crate; the result is named.
#[verifier::external_body]
fn parse_http_date_secs(value: &str) -> (r: Option<u64>)
    ensures
        r == http_date_secs(value@),
{
    match httpdate::parse_http_date(value) {
        Ok(time) => match time.duration_since(std::time::UNIX_EPOCH) {
            Ok(since) => Some(since.as_secs()),
            Err(_) => None,
        },
        Err(_) => None,
    }
}

/// The server time carried by the `Date` header of a response.
pub fn server_time_from_date_header(value: &str) -> (r: Option<u64>)
    ensures
        r == http_date_secs(value@),
{
    parse_http_date_secs(value)
}

/// The address and token of a 2FAuth server; the transport is held by the
/// caller.
pub struct TwoFAuthClient {
    base_url: String,
    token: String,
}

pub open spec fn accounts_url_of(base: Seq<char>) -> Seq<char> {
    base + "/api/v1/twofaccounts"@
}

pub open spec fn groups_url_of(base: Seq<char>) -> Seq<char> {
    base + "/api/v1/groups"@
}

pub open spec fn otp_url_of(base: Seq<char>, account_id: u64) -> Seq<char> {
    base + "/api/v1/twofaccounts/"@ + decimal(account_id as nat) + "/otp"@
}

pub open spec fn icon_url_of(base: Seq<char>, icon: Seq<char>) -> Seq<char> {
    base + "/storage/icons/"@ + icon
}

impl TwoFAuthClient {
    /// The server address, without trailing slashes.
    pub closed spec fn base(&self) -> Seq<char> {
        self.base_url@
    }

    /// The personal access token.
    pub closed spec fn spec_token(&self) -> Seq<char> {
        self.token@
    }

    /// A client for a server address (trailing slashes removed) that passes
    /// the address checks.
    pub fn new(base_url: &str, token: &str, allow_insecure_http: bool) -> (r: Result<Self, ApiError>)
        ensures
            match server_url_verdict(trim_end_char(base_url@, '/'), allow_insecure_http) {
                Err(e) => r == Err::<Self, ApiError>(ApiError::InvalidServerUrl(e)),
                Ok(_) => r matches Ok(c) && c.base() == trim_end_char(base_url@, '/') && c.spec_token()
                    == token@,
            },
    {
        let base = trim_end_matching(base_url, '/');
        match validate_server_url(base, allow_insecure_http) {
            Err(e) => Err(ApiError::InvalidServerUrl(e)),
            Ok(()) => Ok(TwoFAuthClient { base_url: base.to_owned(), token: token.to_owned() }),
        }
    }

    pub fn base_url(&self) -> (r: &str)
        ensures
            r@ == self.base(),
    {
        self.base_url.as_str()
    }

    pub fn token(&self) -> (r: &str)
        ensures
            r@ == self.spec_token(),
    {
        self.token.as_str()
    }

    /// The endpoint that lists the accounts.
    pub fn accounts_url(&self) -> (r: String)
        ensures
            r@ == accounts_url_of(self.base()),
    {
        let mut r = self.base_url.clone();
        r.append("/api/v1/twofaccounts");
        r
    }

    /// The endpoint that lists the groups.
    pub fn groups_url(&self) -> (r: String)
        ensures
            r@ == groups_url_of(self.base()),
    {
        let mut r = self.base_url.clone();
        r.append("/api/v1/groups");
        r
    }

    /// The endpoint that gives the current password of an account.
    pub fn otp_url(&self, account_id: u64) -> (r: String)
        ensures
            r@ == otp_url_of(self.base(), account_id),
    {
        let mut r = self.base_url.clone();
        r.append("/api/v1/twofaccounts/");
        push_decimal(&mut r, account_id);
        r.append("/otp");
        r
    }

    /// The address of an icon file.
    pub fn icon_url(&self, icon: &str) -> (r: String)
        ensures
            r@ == icon_url_of(self.base(), icon@),
    {
        let mut r = self.base_url.clone();
        r.append("/storage/icons/");
        r.append(icon);
        r
    }
}

/// A client made from a stored server address talks to exactly that
/// address: the stored form has no trailing slash left to remove.
pub proof fn law_client_uses_stored_address(server_url: Seq<char>)
    ensures
        trim_end_char(normalized_server_url(server_url), '/') == normalized_server_url(server_url),
{
    lemma_trim_end_char_idempotent(trim_ws(server_url), '/');
}

} // verus!
