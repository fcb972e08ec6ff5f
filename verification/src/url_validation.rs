//! Vetting of externally supplied URLs before they reach the wrapped library
//! or an outbound request.
//!
//! Resolving a host name is a network operation and is done by the caller:
//! [`resolution_target`] says what to resolve, and the addresses that came back
//! are handed to [`validate_external_http_url`]. The check is made at one
//! moment; a later request may resolve the name anew, so this narrows the
//! window for DNS rebinding and does not close it.

use vstd::prelude::*;
use crate::error::{unit_result_view, EngineError, EngineResult, ErrorModel};
use crate::features::HTTP_URLS_ENABLED;
use crate::net::{any_blocked, holds_blocked_address, ipv4_is_blocked, ipv6_is_blocked,
    is_blocked_ipv4, is_blocked_ipv6, IpAddress};
use crate::text::str_eq;

verus! {

/// The host of a URL.
#[derive(Debug, Clone)]
pub enum UrlHost {
    Domain(String),
    Ipv4([u8; 4]),
    Ipv6([u16; 8]),
}

/// What validation reads of a parsed URL.
#[derive(Debug, Clone)]
pub struct ParsedUrl {
    /// The scheme in small letters, without the colon.
    pub scheme: String,
    /// The host, where the URL has one.
    pub host: Option<UrlHost>,
    /// The host as it stands in the URL, where the URL has one.
    pub host_text: Option<String>,
}

pub enum UrlHostModel {
    Domain(Seq<char>),
    Ipv4([u8; 4]),
    Ipv6([u16; 8]),
}

pub struct ParsedUrlModel {
    pub scheme: Seq<char>,
    pub host: Option<UrlHostModel>,
    pub host_text: Option<Seq<char>>,
}

impl View for UrlHost {
    type V = UrlHostModel;

    open spec fn view(&self) -> UrlHostModel {
        match self {
            UrlHost::Domain(d) => UrlHostModel::Domain(d@),
            UrlHost::Ipv4(o) => UrlHostModel::Ipv4(*o),
            UrlHost::Ipv6(s) => UrlHostModel::Ipv6(*s),
        }
    }
}

impl View for ParsedUrl {
    type V = ParsedUrlModel;

    open spec fn view(&self) -> ParsedUrlModel {
        ParsedUrlModel {
            scheme: self.scheme@,
            host: match self.host {
                Some(h) => Some(h@),
                None => None,
            },
            host_text: match self.host_text {
                Some(t) => Some(t@),
                None => None,
            },
        }
    }
}

/// The view of an optional parsed URL.
pub open spec fn parsed_view(parsed: Option<ParsedUrl>) -> Option<ParsedUrlModel> {
    match parsed {
        Some(u) => Some(u@),
        None => None,
    }
}

/// What the URL parser makes of `text`: the scheme and host of the URL that
/// it reads, or nothing where it rejects the text.
pub uninterp spec fn url_parse(text: Seq<char>) -> Option<ParsedUrlModel>;

/// `url::Url::parse`, with the scheme (`Url::scheme`), the host (`Url::host`)
/// and the host's text (`Url::host_str`) read off the result. The contract
/// only names what the parser returns for the text; it claims nothing of
/// which texts parse or into what.
#[verifier::external_body]
pub(crate) fn parse_url(text: &str) -> (parsed: Option<ParsedUrl>)
    ensures
        parsed_view(parsed) == url_parse(text@),
{
    let url = url::Url::parse(text).ok()?;
    let host = match url.host() {
        None => None,
        Some(url::Host::Domain(d)) => Some(UrlHost::Domain(d.to_string())),
        Some(url::Host::Ipv4(a)) => Some(UrlHost::Ipv4(a.octets())),
        Some(url::Host::Ipv6(a)) => Some(UrlHost::Ipv6(a.segments())),
    };
    let host_text = url.host_str().map(|h| h.to_string());
    Some(ParsedUrl { scheme: url.scheme().to_string(), host, host_text })
}

impl UrlHostModel {
    /// A literal address in a blocked range. A domain name is never blocked
    /// by itself: the addresses that it resolves to are.
    pub open spec fn blocked_literal(self) -> bool {
        match self {
            UrlHostModel::Domain(_) => false,
            UrlHostModel::Ipv4(o) => ipv4_is_blocked(o),
            UrlHostModel::Ipv6(s) => ipv6_is_blocked(s),
        }
    }
}

/// The decision on scheme and host, before any resolved address is looked at.
pub open spec fn static_decision(
    parsed: Option<ParsedUrlModel>,
    allow_http: bool,
    http_enabled: bool,
) -> Result<(), ErrorModel> {
    match parsed {
        None => Err(ErrorModel::Config("invalid URL"@)),
        Some(u) => {
            if u.scheme != "https"@ && u.scheme != "http"@ {
                Err(ErrorModel::Config("unsupported URL scheme"@))
            } else if u.scheme == "http"@ && u.scheme != "https"@ && !allow_http {
                Err(ErrorModel::Config("HTTP URLs are not allowed"@))
            } else if u.scheme == "http"@ && u.scheme != "https"@ && !http_enabled {
                Err(ErrorModel::Feature("http_urls"@))
            } else {
                match u.host {
                    None => Err(ErrorModel::Config("URL missing host"@)),
                    Some(h) => if h.blocked_literal() {
                        Err(
                            ErrorModel::Config(
                                "URL host is not allowed (private/link-local/loopback)"@,
                            ),
                        )
                    } else {
                        Ok(())
                    },
                }
            }
        },
    }
}

/// The whole decision: the static one, then every resolved address.
pub open spec fn url_decision(
    parsed: Option<ParsedUrlModel>,
    allow_http: bool,
    http_enabled: bool,
    resolved: Seq<IpAddress>,
) -> Result<(), ErrorModel> {
    match static_decision(parsed, allow_http, http_enabled) {
        Err(e) => Err(e),
        Ok(_) => if any_blocked(resolved) {
            Err(ErrorModel::Config("URL resolves to a disallowed private/loopback address"@))
        } else {
            Ok(())
        },
    }
}

/// The default port of the scheme: 443 for `https`, 80 for `http`.
pub open spec fn default_port(scheme: Seq<char>) -> u16 {
    if scheme == "https"@ {
        443
    } else {
        80
    }
}

/// The host and port that a caller resolves before the final decision: those
/// of a URL that passed the static decision and whose host has a text.
pub open spec fn lookup_target(
    parsed: Option<ParsedUrlModel>,
    allow_http: bool,
    http_enabled: bool,
) -> Option<(Seq<char>, u16)> {
    if static_decision(parsed, allow_http, http_enabled) is Ok && parsed->0.host_text is Some {
        Some((parsed->0.host_text->0, default_port(parsed->0.scheme)))
    } else {
        None
    }
}

fn host_is_blocked(host: &UrlHost) -> (b: bool)
    ensures
        b == host@.blocked_literal(),
{
    match host {
        UrlHost::Domain(_) => false,
        UrlHost::Ipv4(o) => is_blocked_ipv4(o),
        UrlHost::Ipv6(s) => is_blocked_ipv6(s),
    }
}

/// The decision on scheme and host of a parsed URL.
pub fn check_scheme_and_host(parsed: &Option<ParsedUrl>, allow_http: bool, http_enabled: bool) -> (r:
    EngineResult<()>)
    ensures
        unit_result_view(r) == static_decision(parsed_view(*parsed), allow_http, http_enabled),
{
    match parsed {
        None => Err(EngineError::config("invalid URL")),
        Some(u) => {
            let https = str_eq(u.scheme.as_str(), "https");
            let http = str_eq(u.scheme.as_str(), "http");
            if !https && !http {
                return Err(EngineError::config("unsupported URL scheme"));
            }
            if !https {
                if !allow_http {
                    return Err(EngineError::config("HTTP URLs are not allowed"));
                }
                if !http_enabled {
                    return Err(EngineError::Feature("http_urls".to_string()));
                }
            }
            match &u.host {
                None => Err(EngineError::config("URL missing host")),
                Some(h) => {
                    if host_is_blocked(h) {
                        Err(
                            EngineError::config(
                                "URL host is not allowed (private/link-local/loopback)",
                            ),
                        )
                    } else {
                        Ok(())
                    }
                },
            }
        },
    }
}

/// Decides on a parsed URL and the addresses that its host resolved to.
///
/// The URL is accepted only if every check passes: it parsed, its scheme is
/// `https` (or `http`, where the caller allows it and the build carries the
/// capability), it has a host, a literal address is not in a blocked range,
/// and no resolved address is.
pub fn check_parsed_url(
    parsed: &Option<ParsedUrl>,
    allow_http: bool,
    http_enabled: bool,
    resolved: &Vec<IpAddress>,
) -> (r: EngineResult<()>)
    ensures
        unit_result_view(r) == url_decision(
            parsed_view(*parsed),
            allow_http,
            http_enabled,
            resolved@,
        ),
{
    match check_scheme_and_host(parsed, allow_http, http_enabled) {
        Err(e) => Err(e),
        Ok(_) => {
            if holds_blocked_address(resolved) {
                Err(EngineError::config("URL resolves to a disallowed private/loopback address"))
            } else {
                Ok(())
            }
        },
    }
}

/// What to resolve for a parsed URL before the final decision.
pub fn lookup_target_of(parsed: &Option<ParsedUrl>, allow_http: bool, http_enabled: bool) -> (target:
    Option<(String, u16)>)
    ensures
        match target {
            Some((host, port)) => lookup_target(parsed_view(*parsed), allow_http, http_enabled)
                == Some((host@, port)),
            None => lookup_target(parsed_view(*parsed), allow_http, http_enabled) is None,
        },
{
    match check_scheme_and_host(parsed, allow_http, http_enabled) {
        Err(_) => None,
        Ok(_) => {
            match parsed {
                None => None,
                Some(u) => {
                    match &u.host_text {
                        None => None,
                        Some(t) => {
                            let port: u16 = if str_eq(u.scheme.as_str(), "https") {
                                443
                            } else {
                                80
                            };
                            Some((t.clone(), port))
                        },
                    }
                },
            }
        },
    }
}

/// The host and port to resolve for `url_str`, where it passes the checks on
/// scheme and host; nothing where it does not, or where there is no host text.
pub fn resolution_target(url_str: &str, allow_http: bool) -> (target: Option<(String, u16)>)
    ensures
        match target {
            Some((host, port)) => lookup_target(url_parse(url_str@), allow_http, HTTP_URLS_ENABLED)
                == Some((host@, port)),
            None => lookup_target(url_parse(url_str@), allow_http, HTTP_URLS_ENABLED) is None,
        },
{
    let parsed = parse_url(url_str);
    lookup_target_of(&parsed, allow_http, HTTP_URLS_ENABLED)
}

/// Validates an externally supplied URL. `resolved` holds the addresses that
/// the URL's host resolved to on the scheme's default port; it is empty where
/// the host was not resolved.
pub fn validate_external_http_url(url_str: &str, allow_http: bool, resolved: &Vec<IpAddress>) -> (r:
    EngineResult<()>)
    ensures
        unit_result_view(r) == url_decision(
            url_parse(url_str@),
            allow_http,
            HTTP_URLS_ENABLED,
            resolved@,
        ),
{
    let parsed = parse_url(url_str);
    check_parsed_url(&parsed, allow_http, HTTP_URLS_ENABLED, resolved)
}

/// The message of the error that a fetch of a remote asset ends in.
pub open spec fn fetch_unavailable() -> Seq<char> {
    "Remote asset fetching not yet implemented - use AssetRef::Path after secure fetching"@
}

/// Validates `url_str` as [`validate_external_http_url`] does and then
/// declines: fetching a remote asset is left to the caller, who hands the
/// fetched file over as a path. The result is the validation's error where
/// validation fails, and a configuration error that says so otherwise.
pub fn validate_and_fetch_remote_asset(
    url_str: &str,
    allowed_http: bool,
    max_content_length: Option<u64>,
    resolved: &Vec<IpAddress>,
) -> (r: EngineResult<(String, Vec<u8>)>)
    ensures
        r is Err,
        r->Err_0@ == match url_decision(
            url_parse(url_str@),
            allowed_http,
            HTTP_URLS_ENABLED,
            resolved@,
        ) {
            Err(e) => e,
            Ok(_) => ErrorModel::Config(fetch_unavailable()),
        },
{
    match validate_external_http_url(url_str, allowed_http, resolved) {
        Err(e) => Err(e),
        Ok(_) => Err(
            EngineError::config(
                "Remote asset fetching not yet implemented - use AssetRef::Path after secure fetching",
            ),
        ),
    }
}

/// An accepted URL passed every check: its scheme is `https`, or `http` with
/// both the caller's consent and the capability; it has a host; a literal
/// address is outside the blocked ranges; and so is every resolved address.
pub proof fn lemma_accepted_url_passed_every_check(
    parsed: Option<ParsedUrlModel>,
    allow_http: bool,
    http_enabled: bool,
    resolved: Seq<IpAddress>,
)
    requires
        url_decision(parsed, allow_http, http_enabled, resolved) is Ok,
    ensures
        parsed is Some,
        parsed->0.scheme == "https"@ || (parsed->0.scheme == "http"@ && allow_http
            && http_enabled),
        parsed->0.host is Some,
        !parsed->0.host->0.blocked_literal(),
        forall|i: int| 0 <= i < resolved.len() ==> !(#[trigger] resolved[i]).blocked(),
{
}

/// Without the capability, no `http` URL is accepted, whatever the caller allows.
pub proof fn lemma_http_needs_capability(
    parsed: Option<ParsedUrlModel>,
    allow_http: bool,
    resolved: Seq<IpAddress>,
)
    requires
        parsed is Some,
        parsed->0.scheme == "http"@,
    ensures
        url_decision(parsed, allow_http, false, resolved) is Err,
{
    assert("http"@ != "https"@) by {
        reveal_strlit("http");
        reveal_strlit("https");
        assert("http"@.len() != "https"@.len());
    }
}

} // verus!
