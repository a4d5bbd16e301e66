//! Urls, taken apart with the `url` crate.

use vstd::prelude::*;

use crate::addr::IpAddr;
use crate::text::text_of;

verus! {

#[verifier::external_type_specification]
#[verifier::external_body]
pub struct ExUrl(url::Url);

#[verifier::external_type_specification]
#[verifier::external_body]
pub struct ExUrlParseError(url::ParseError);

/// The host of a url: an address, or a domain that has to be looked up.
#[derive(Debug, PartialEq, Eq)]
pub enum DohUrlHost {
    Ip(IpAddr),
    Domain(String),
}

/// What a [`DohUrlHost`] stands for.
#[verifier::ext_equal]
pub enum DohUrlHostView {
    Ip(IpAddr),
    Domain(Seq<char>),
}

impl View for DohUrlHost {
    type V = DohUrlHostView;

    open spec fn view(&self) -> DohUrlHostView {
        match *self {
            DohUrlHost::Ip(ip) => DohUrlHostView::Ip(ip),
            DohUrlHost::Domain(domain) => DohUrlHostView::Domain(domain@),
        }
    }
}

impl Clone for DohUrlHost {
    fn clone(&self) -> (copy: DohUrlHost)
        ensures
            copy@ == self@,
    {
        match self {
            DohUrlHost::Ip(ip) => DohUrlHost::Ip(*ip),
            DohUrlHost::Domain(domain) => DohUrlHost::Domain(domain.clone()),
        }
    }
}

/// What an optional host stands for.
pub open spec fn host_of(host: Option<DohUrlHost>) -> Option<DohUrlHostView> {
    match host {
        Some(host) => Some(host@),
        None => None,
    }
}

/// The parts of a url that matter for reaching a server.
#[derive(Debug)]
pub struct UrlParts {
    pub scheme: String,
    pub host: Option<DohUrlHost>,
    /// The port that the url names, unless it is the default of its scheme.
    pub port: Option<u16>,
    /// The port that the url names, or else the default of its scheme.
    pub known_port: Option<u16>,
    pub path: String,
    pub query: Option<String>,
}

/// What [`UrlParts`] hold.
#[verifier::ext_equal]
pub struct UrlPartsView {
    pub scheme: Seq<char>,
    pub host: Option<DohUrlHostView>,
    pub port: Option<u16>,
    pub known_port: Option<u16>,
    pub path: Seq<char>,
    pub query: Option<Seq<char>>,
}

impl View for UrlParts {
    type V = UrlPartsView;

    open spec fn view(&self) -> UrlPartsView {
        UrlPartsView {
            scheme: self.scheme@,
            host: host_of(self.host),
            port: self.port,
            known_port: self.known_port,
            path: self.path@,
            query: text_of(self.query),
        }
    }
}

/// The url that a text stands for, or why it stands for none.
pub uninterp spec fn parsed_url(text: Seq<char>) -> Result<url::Url, url::ParseError>;

/// `Url::parse` reads an absolute url, and fails on a text that is none.
#[verifier::external_body]
pub(crate) fn parse_url(text: &str) -> (r: Result<url::Url, url::ParseError>)
    ensures
        r == parsed_url(text@),
{
    url::Url::parse(text)
}

/// Why a text is no url, in words.
pub uninterp spec fn parse_error_text(error: url::ParseError) -> Seq<char>;

/// `ParseError::to_string` says why a text is no url.
#[verifier::external_body]
pub(crate) fn parse_error_to_string(error: &url::ParseError) -> (text: String)
    ensures
        text@ == parse_error_text(*error),
{
    error.to_string()
}

/// The text of a url.
pub uninterp spec fn url_text(url: url::Url) -> Seq<char>;

/// `Url::as_str` gives the url as text.
#[verifier::external_body]
pub(crate) fn text_of_url(url: &url::Url) -> (text: String)
    ensures
        text@ == url_text(*url),
{
    url.as_str().to_owned()
}

/// The scheme of a url.
pub uninterp spec fn url_scheme(url: url::Url) -> Seq<char>;

/// `Url::scheme` gives the scheme, without the colon.
#[verifier::external_body]
fn scheme_of_url(url: &url::Url) -> (scheme: String)
    ensures
        scheme@ == url_scheme(*url),
{
    url.scheme().to_owned()
}

/// The host of a url.
pub uninterp spec fn url_host(url: url::Url) -> Option<DohUrlHostView>;

/// `Url::host` gives the host, already told apart into an IPv4 address, an
/// IPv6 address and a domain.
#[verifier::external_body]
pub(crate) fn host_of_url(url: &url::Url) -> (host: Option<DohUrlHost>)
    ensures
        host_of(host) == url_host(*url),
{
    match url.host() {
        Some(url::Host::Ipv4(ip)) => Some(DohUrlHost::Ip(IpAddr::V4(u32::from(ip)))),
        Some(url::Host::Ipv6(ip)) => Some(DohUrlHost::Ip(IpAddr::V6(u128::from(ip)))),
        Some(url::Host::Domain(domain)) => Some(DohUrlHost::Domain(domain.to_owned())),
        None => None,
    }
}

/// The port of a url, where it names one that is not its scheme's default.
pub uninterp spec fn url_port(url: url::Url) -> Option<u16>;

/// `Url::port` gives the port, and none where the url names no port or the
/// default one of its scheme.
#[verifier::external_body]
pub(crate) fn port_of_url(url: &url::Url) -> (port: Option<u16>)
    ensures
        port == url_port(*url),
{
    url.port()
}

/// The default port of a scheme, for the schemes that the `url` crate knows.
pub open spec fn default_port(scheme: Seq<char>) -> Option<u16> {
    if scheme == "http"@ || scheme == "ws"@ {
        Some(80)
    } else if scheme == "https"@ || scheme == "wss"@ {
        Some(443)
    } else if scheme == "ftp"@ {
        Some(21)
    } else {
        None
    }
}

/// The port that a url names, or else the default of its scheme.
pub open spec fn known_port(port: Option<u16>, scheme: Seq<char>) -> Option<u16> {
    match port {
        Some(port) => Some(port),
        None => default_port(scheme),
    }
}

/// `Url::port_or_known_default` gives the port that the url names, or else
/// the default of its scheme where that is known.
#[verifier::external_body]
fn known_port_of_url(url: &url::Url) -> (port: Option<u16>)
    ensures
        port == known_port(url_port(*url), url_scheme(*url)),
{
    url.port_or_known_default()
}

/// The path of a url.
pub uninterp spec fn url_path(url: url::Url) -> Seq<char>;

/// `Url::path` gives the path, percent-encoded.
#[verifier::external_body]
fn path_of_url(url: &url::Url) -> (path: String)
    ensures
        path@ == url_path(*url),
{
    url.path().to_owned()
}

/// The query string of a url.
pub uninterp spec fn url_query(url: url::Url) -> Option<Seq<char>>;

/// `Url::query` gives the query string, percent-encoded, where there is one.
#[verifier::external_body]
fn query_of_url(url: &url::Url) -> (query: Option<String>)
    ensures
        text_of(query) == url_query(*url),
{
    url.query().map(str::to_owned)
}

/// The parts of a url.
pub open spec fn parts_of(url: url::Url) -> UrlPartsView {
    UrlPartsView {
        scheme: url_scheme(url),
        host: url_host(url),
        port: url_port(url),
        known_port: known_port(url_port(url), url_scheme(url)),
        path: url_path(url),
        query: url_query(url),
    }
}

/// Takes a url apart.
pub fn url_parts(url: &url::Url) -> (parts: UrlParts)
    ensures
        parts@ == parts_of(*url),
{
    UrlParts {
        scheme: scheme_of_url(url),
        host: host_of_url(url),
        port: port_of_url(url),
        known_port: known_port_of_url(url),
        path: path_of_url(url),
        query: query_of_url(url),
    }
}

} // verus!
