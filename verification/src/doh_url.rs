//! The url of a DNS-over-HTTPS server.

use vstd::prelude::*;

use crate::addr::{ip_text, IpAddr};
use crate::endpoint::{
    parse_error_text, parse_error_to_string, parse_url, parsed_url, parts_of, url_parts,
    DohUrlHost, DohUrlHostView, UrlParts, UrlPartsView,
};
use crate::error::{failure, failure_because, DnsError, DnsErrorKind, DnsErrorView};
use crate::text::slice_text_of;

verus! {

/// The port of a DoH server whose url names none.
pub const DOH_DEFAULT_PORT: u16 = 443;

/// The path that a DoH server is asked at where its url has none.
pub open spec fn default_endpoint() -> Seq<char> {
    "/dns-query"@
}

/// Where a DoH server listens: its host, its port and its http path.
#[verifier::ext_equal]
pub struct DohEndpointView {
    pub host: DohUrlHostView,
    pub port: u16,
    pub path: Seq<char>,
}

/// What a result of [`parse_doh_url`] tells.
pub open spec fn endpoint_view(
    r: Result<(DohUrlHost, u16, String), DnsError>,
) -> Result<DohEndpointView, DnsErrorView> {
    match r {
        Ok((host, port, path)) => Ok(DohEndpointView { host: host@, port, path: path@ }),
        Err(error) => Err(error@),
    }
}

/// Where the DoH server of a url listens. `url` is the text of the url, and
/// `parts` are its parts.
pub open spec fn doh_endpoint(url: Seq<char>, parts: UrlPartsView) -> Result<
    DohEndpointView,
    DnsErrorView,
> {
    if parts.scheme != "https"@ {
        Err(failure(DnsErrorKind::DohUrlNotHttps, url))
    } else if parts.query is Some {
        Err(failure(DnsErrorKind::DohUrlHasQuery, url))
    } else {
        match parts.host {
            None => Err(failure(DnsErrorKind::DohUrlWithoutHost, url)),
            Some(host) => Ok(
                DohEndpointView {
                    host,
                    port: match parts.known_port {
                        Some(port) => port,
                        None => DOH_DEFAULT_PORT,
                    },
                    path: if parts.path.len() == 0 || parts.path == "/"@ {
                        default_endpoint()
                    } else {
                        parts.path
                    },
                },
            ),
        }
    }
}

/// Where the DoH server that a text names listens.
pub open spec fn doh_endpoint_of_text(url: Seq<char>) -> Result<DohEndpointView, DnsErrorView> {
    match parsed_url(url) {
        Err(error) => Err(
            failure_because(DnsErrorKind::InvalidDohUrl, url, parse_error_text(error)),
        ),
        Ok(parsed) => doh_endpoint(url, parts_of(parsed)),
    }
}

/// Checks the parts of a DoH url and finds in them its host, port and http
/// path.
pub fn check_doh_url(url: &str, parts: UrlParts) -> (r: Result<
    (DohUrlHost, u16, String),
    DnsError,
>)
    ensures
        endpoint_view(r) == doh_endpoint(url@, parts@),
{
    if parts.scheme != "https".to_owned() {
        return Err(DnsError::new(DnsErrorKind::DohUrlNotHttps, url));
    }
    if parts.query.is_some() {
        return Err(DnsError::new(DnsErrorKind::DohUrlHasQuery, url));
    }
    let host = match parts.host {
        Some(host) => host,
        None => return Err(DnsError::new(DnsErrorKind::DohUrlWithoutHost, url)),
    };
    let port: u16 = match parts.known_port {
        Some(port) => port,
        None => DOH_DEFAULT_PORT,
    };
    let endpoint = if parts.path.as_str().is_empty() || parts.path == "/".to_owned() {
        "/dns-query".to_owned()
    } else {
        parts.path
    };
    Ok((host, port, endpoint))
}

/// Parses and validates the url of a DoH server into its host, port and http
/// path.
pub fn parse_doh_url(url: &str) -> (r: Result<(DohUrlHost, u16, String), DnsError>)
    ensures
        endpoint_view(r) == doh_endpoint_of_text(url@),
{
    match parse_url(url) {
        Ok(parsed) => check_doh_url(url, url_parts(&parsed)),
        Err(error) => Err(
            DnsError::because(DnsErrorKind::InvalidDohUrl, url, parse_error_to_string(&error)),
        ),
    }
}

/// How a DoH server is reached: its address and port, the name that its
/// certificate must bear, and its http path.
#[derive(Debug)]
pub struct DohServer {
    pub ip: IpAddr,
    pub port: u16,
    pub tls_name: String,
    pub endpoint: String,
}

/// What a [`DohServer`] tells.
#[verifier::ext_equal]
pub struct DohServerView {
    pub ip: IpAddr,
    pub port: u16,
    pub tls_name: Seq<char>,
    pub endpoint: Seq<char>,
}

impl View for DohServer {
    type V = DohServerView;

    open spec fn view(&self) -> DohServerView {
        DohServerView {
            ip: self.ip,
            port: self.port,
            tls_name: self.tls_name@,
            endpoint: self.endpoint@,
        }
    }
}

/// What a result of [`locate_doh_server`] tells.
pub open spec fn server_view(r: Result<DohServer, DnsError>) -> Result<
    DohServerView,
    DnsErrorView,
> {
    match r {
        Ok(server) => Ok(server@),
        Err(error) => Err(error@),
    }
}

/// The address at which a DoH server is reached: the one in its url, or else
/// the pinned one.
pub open spec fn server_ip(host: DohUrlHostView, bootstrap_ip: Option<IpAddr>) -> Option<IpAddr> {
    match host {
        DohUrlHostView::Ip(ip) => Some(ip),
        DohUrlHostView::Domain(_) => bootstrap_ip,
    }
}

/// The name that the certificate of a DoH server must bear: the override, or
/// else the host of its url.
pub open spec fn tls_name(host: DohUrlHostView, tls_name_override: Option<Seq<char>>) -> Seq<char> {
    match tls_name_override {
        Some(name) => name,
        None => match host {
            DohUrlHostView::Ip(ip) => ip_text(ip),
            DohUrlHostView::Domain(domain) => domain,
        },
    }
}

/// How the DoH server at an endpoint is reached.
pub open spec fn doh_server(
    endpoint: DohEndpointView,
    bootstrap_ip: Option<IpAddr>,
    tls_name_override: Option<Seq<char>>,
) -> Result<DohServerView, DnsErrorView> {
    match server_ip(endpoint.host, bootstrap_ip) {
        None => Err(
            failure(DnsErrorKind::DohWithoutBootstrap, endpoint.host->Domain_0),
        ),
        Some(ip) => Ok(
            DohServerView {
                ip,
                port: endpoint.port,
                tls_name: tls_name(endpoint.host, tls_name_override),
                endpoint: endpoint.path,
            },
        ),
    }
}

/// How the DoH server that a text names is reached.
pub open spec fn doh_server_of_text(
    url: Seq<char>,
    bootstrap_ip: Option<IpAddr>,
    tls_name_override: Option<Seq<char>>,
) -> Result<DohServerView, DnsErrorView> {
    match doh_endpoint_of_text(url) {
        Err(error) => Err(error),
        Ok(endpoint) => doh_server(endpoint, bootstrap_ip, tls_name_override),
    }
}

/// Finds out how the DoH server at a host, port and http path is reached. The
/// name in its certificate does not depend on the pinned address.
pub fn locate_doh_server(
    host: DohUrlHost,
    port: u16,
    endpoint: String,
    bootstrap_ip: Option<IpAddr>,
    tls_name_override: Option<&str>,
) -> (r: Result<DohServer, DnsError>)
    ensures
        server_view(r) == doh_server(
            DohEndpointView { host: host@, port, path: endpoint@ },
            bootstrap_ip,
            slice_text_of(tls_name_override),
        ),
        host is Ip && tls_name_override is None && r is Ok ==> !r->Ok_0.tls_name@.contains('[')
            && !r->Ok_0.tls_name@.contains(']'),
{
    let ip = match &host {
        DohUrlHost::Ip(ip) => *ip,
        DohUrlHost::Domain(domain) => match bootstrap_ip {
            Some(ip) => ip,
            None => return Err(DnsError::new(DnsErrorKind::DohWithoutBootstrap, domain.as_str())),
        },
    };
    let tls_name = match tls_name_override {
        Some(name) => name.to_owned(),
        None => match host {
            DohUrlHost::Ip(ip) => ip.to_text(),
            DohUrlHost::Domain(domain) => domain,
        },
    };
    Ok(DohServer { ip, port, tls_name, endpoint })
}

} // verus!
