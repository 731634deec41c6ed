use vstd::prelude::*;
use vstd::string::StringExecFns;

verus! {

#[verifier::external_type_specification]
#[verifier::external_body]
pub struct ExUrl(url::Url);

/// The URL that a text parses to as an absolute URL, if it does.
pub uninterp spec fn parsed_url(s: Seq<char>) -> Option<url::Url>;

/// The scheme of a parsed URL.
pub uninterp spec fn url_scheme(u: url::Url) -> Seq<char>;

/// The host of a parsed URL, when it has one.
pub uninterp spec fn url_host(u: url::Url) -> Option<Seq<char>>;

/// Relies on url::Url::parse: the parsed URL when the text is an absolute
/// URL, `None` where it returns an error.
#[verifier::external_body]
fn parse_url(s: &str) -> (r: Option<url::Url>)
    ensures
        r == parsed_url(s@),
{
    url::Url::parse(s).ok()
}

/// Relies on url::Url::scheme: the scheme of `u`.
#[verifier::external_body]
fn scheme_of(u: &url::Url) -> (r: String)
    ensures
        r@ == url_scheme(*u),
{
    u.scheme().to_string()
}

/// Relies on url::Url::host_str: the host of `u`, `None` when it has none.
#[verifier::external_body]
fn host_of(u: &url::Url) -> (r: Option<String>)
    ensures
        match r {
            Some(h) => url_host(*u) == Some(h@),
            None => url_host(*u) is None,
        },
{
    u.host_str().map(|h| h.to_string())
}

/// What stands in the logs for an address that is not a URL with a host.
pub const INVALID_URL: &'static str = "[INVALID URL]";

/// What stands in the logs for the path and query of an address.
pub const HIDDEN_PATH: &'static str = "/[REDACTED]";

/// The log form of an address: scheme and host, with the rest hidden.
pub open spec fn redacted_spec(s: Seq<char>) -> Seq<char> {
    match parsed_url(s) {
        None => INVALID_URL@,
        Some(u) => match url_host(u) {
            None => INVALID_URL@,
            Some(h) => url_scheme(u) + "://"@ + h + HIDDEN_PATH@,
        },
    }
}

/// Hides the path and query of an address, which may hold an API key, so
/// that it can be shown in logs.
pub fn redact_url(url_str: &str) -> (r: String)
    ensures
        r@ == redacted_spec(url_str@),
{
    match parse_url(url_str) {
        None => INVALID_URL.to_string(),
        Some(u) => match host_of(&u) {
            None => INVALID_URL.to_string(),
            Some(h) => {
                let mut out = scheme_of(&u);
                out.append("://");
                out.append(h.as_str());
                out.append(HIDDEN_PATH);
                out
            },
        },
    }
}

} // verus!
