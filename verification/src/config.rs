//! The stored application configuration and the checks on the server address.
use vstd::prelude::*;

use crate::text::{chars_of, trim, trim_end_char, trim_end_matching, trim_ws};

verus! {

/// Why a server address is refused.
#[derive(Debug, Clone, Copy, PartialEq, Eq, Structural)]
pub enum ServerUrlError {
    Empty,
    InvalidUrl,
    MissingHost,
    InsecureHttpDisabled,
    UnsupportedScheme,
}

/// What the address checks read of a parsed URL: its scheme and whether it
/// names a host.
pub struct ParsedUrl {
    pub scheme: String,
    pub has_host: bool,
}

/// The scheme and the presence of a host that `reqwest::Url::parse` (the
/// `url` crate's WHATWG parser) finds in `input`, or `None` where it refuses
/// the input.
pub uninterp spec fn url_parse_summary(input: Seq<char>) -> Option<(Seq<char>, bool)>;

/// Parses `input` with `reqwest::Url::parse` and keeps the scheme
/// (`Url::scheme`) and whether `Url::host_str` is `Some`. The claim is only
/// that the outcome is the named function of the input; the URL grammar
/// itself is left to the `url` crate.
#[verifier::external_body]
fn parse_url(input: &str) -> (r: Option<ParsedUrl>)
    ensures
        (match r {
            Some(p) => url_parse_summary(input@) == Some((p.scheme@, p.has_host)),
            None => url_parse_summary(input@) is None,
        }),
{
    match reqwest::Url::parse(input) {
        Ok(url) => Some(ParsedUrl { scheme: url.scheme().to_string(), has_host: url.host_str().is_some() }),
        Err(_) => None,
    }
}

pub open spec fn https_chars() -> Seq<char> {
    seq!['h', 't', 't', 'p', 's']
}

pub open spec fn http_chars() -> Seq<char> {
    seq!['h', 't', 't', 'p']
}

/// The verdict on a parsed address: HTTPS always, HTTP only where allowed,
/// and nothing without a host.
pub open spec fn parsed_url_verdict(parsed: Option<(Seq<char>, bool)>, allow_insecure_http: bool) -> Result<
    (),
    ServerUrlError,
> {
    match parsed {
        None => Err(ServerUrlError::InvalidUrl),
        Some((scheme, has_host)) => if !has_host {
            Err(ServerUrlError::MissingHost)
        } else if scheme == https_chars() {
            Ok(())
        } else if scheme == http_chars() {
            if allow_insecure_http {
                Ok(())
            } else {
                Err(ServerUrlError::InsecureHttpDisabled)
            }
        } else {
            Err(ServerUrlError::UnsupportedScheme)
        },
    }
}

/// The verdict on a server address as typed: surrounding white space is
/// ignored, an empty address is refused before it is parsed.
pub open spec fn server_url_verdict(server_url: Seq<char>, allow_insecure_http: bool) -> Result<
    (),
    ServerUrlError,
> {
    let t = trim_ws(server_url);
    if t.len() == 0 {
        Err(ServerUrlError::Empty)
    } else {
        parsed_url_verdict(url_parse_summary(t), allow_insecure_http)
    }
}

fn is_http(v: &[char]) -> (r: bool)
    ensures
        r == (v@ == http_chars()),
{
    if v.len() == 4 && v[0] == 'h' && v[1] == 't' && v[2] == 't' && v[3] == 'p' {
        assert(v@ =~= http_chars());
        true
    } else {
        proof {
            if v@ == http_chars() {
                assert(v@[0] == 'h' && v@[1] == 't' && v@[2] == 't' && v@[3] == 'p');
            }
        }
        false
    }
}

fn is_https(v: &[char]) -> (r: bool)
    ensures
        r == (v@ == https_chars()),
{
    if v.len() == 5 && v[0] == 'h' && v[1] == 't' && v[2] == 't' && v[3] == 'p' && v[4] == 's' {
        assert(v@ =~= https_chars());
        true
    } else {
        proof {
            if v@ == https_chars() {
                assert(v@[0] == 'h' && v@[1] == 't' && v@[2] == 't' && v@[3] == 'p' && v@[4] == 's');
            }
        }
        false
    }
}

/// Decides on an address from what the URL parser found in it.
pub fn classify_parsed_url(parsed: &Option<ParsedUrl>, allow_insecure_http: bool) -> (r: Result<
    (),
    ServerUrlError,
>)
    ensures
        r == parsed_url_verdict(
            match parsed {
                Some(p) => Some((p.scheme@, p.has_host)),
                None => None,
            },
            allow_insecure_http,
        ),
{
    match parsed {
        None => Err(ServerUrlError::InvalidUrl),
        Some(p) => {
            if !p.has_host {
                return Err(ServerUrlError::MissingHost);
            }
            let scheme = chars_of(p.scheme.as_str());
            if is_https(scheme.as_slice()) {
                Ok(())
            } else if is_http(scheme.as_slice()) {
                if allow_insecure_http {
                    Ok(())
                } else {
                    Err(ServerUrlError::InsecureHttpDisabled)
                }
            } else {
                Err(ServerUrlError::UnsupportedScheme)
            }
        },
    }
}

/// Checks a server address: it must, once trimmed, be a URL with a host and
/// the scheme `https`, or `http` where insecure HTTP is allowed.
pub fn validate_server_url(server_url: &str, allow_insecure_http: bool) -> (r: Result<
    (),
    ServerUrlError,
>)
    ensures
        r == server_url_verdict(server_url@, allow_insecure_http),
{
    let trimmed = trim(server_url);
    if trimmed.is_empty() {
        return Err(ServerUrlError::Empty);
    }
    let parsed = parse_url(trimmed);
    classify_parsed_url(&parsed, allow_insecure_http)
}

/// A server address as stored: trimmed, without trailing slashes.
pub open spec fn normalized_server_url(server_url: Seq<char>) -> Seq<char> {
    trim_end_char(trim_ws(server_url), '/')
}

/// Trims white space, then removes every trailing `/`.
pub fn normalize_server_url(server_url: &str) -> (r: String)
    ensures
        r@ == normalized_server_url(server_url@),
{
    trim_end_matching(trim(server_url), '/').to_owned()
}

pub open spec fn system_language() -> Seq<char> {
    seq!['s', 'y', 's', 't', 'e', 'm']
}

/// The language setting that follows the system: `"system"`.
pub fn default_language() -> (r: String)
    ensures
        r@ == system_language(),
{
    let mut s = String::new();
    crate::text::push_char(&mut s, 's');
    crate::text::push_char(&mut s, 'y');
    crate::text::push_char(&mut s, 's');
    crate::text::push_char(&mut s, 't');
    crate::text::push_char(&mut s, 'e');
    crate::text::push_char(&mut s, 'm');
    assert(s@ =~= system_language());
    s
}

/// The application configuration: the server address, the interface
/// language (`"system"` or a language code) and whether plain HTTP is allowed.
#[derive(Debug, Clone)]
pub struct AppConfig {
    pub server_url: String,
    pub language: String,
    pub allow_insecure_http: bool,
}

impl AppConfig {
    /// A configuration from the settings dialog; the address is normalized.
    pub fn with_settings(server_url: &str, language: &str, allow_insecure_http: bool) -> (c: Self)
        ensures
            c.server_url@ == normalized_server_url(server_url@),
            c.language@ == language@,
            c.allow_insecure_http == allow_insecure_http,
    {
        AppConfig {
            server_url: normalize_server_url(server_url),
            language: language.to_owned(),
            allow_insecure_http,
        }
    }

    /// A configuration read back from storage, where a missing language means
    /// `"system"` and a missing HTTP setting means HTTPS only. The address is
    /// taken as stored.
    pub fn from_stored(server_url: String, language: Option<String>, allow_insecure_http: Option<
        bool,
    >) -> (c: Self)
        ensures
            c.server_url@ == server_url@,
            c.language@ == (match language {
                Some(l) => l@,
                None => system_language(),
            }),
            c.allow_insecure_http == (match allow_insecure_http {
                Some(b) => b,
                None => false,
            }),
    {
        let language = match language {
            Some(l) => l,
            None => default_language(),
        };
        let allow_insecure_http = match allow_insecure_http {
            Some(b) => b,
            None => false,
        };
        AppConfig { server_url, language, allow_insecure_http }
    }
}

/// HTTPS is required by default: an address accepted without the insecure
/// setting has a host and the scheme `https`.
pub proof fn law_https_required_by_default(server_url: Seq<char>)
    ensures
        server_url_verdict(server_url, false) is Ok ==> url_parse_summary(trim_ws(server_url))
            == Some((https_chars(), true)),
{
}

/// Allowing insecure HTTP only ever admits more addresses, and of those it
/// admits only `http` ones.
pub proof fn law_insecure_setting_only_adds_http(server_url: Seq<char>)
    ensures
        server_url_verdict(server_url, false) is Ok ==> server_url_verdict(server_url, true) is Ok,
        server_url_verdict(server_url, true) is Ok && server_url_verdict(server_url, false) is Err
            ==> url_parse_summary(trim_ws(server_url)) == Some((http_chars(), true)),
{
}

} // verus!
