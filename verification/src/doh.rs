//! The configuration of a DNS-over-HTTPS server.

use std::sync::Arc;

use vstd::prelude::*;

use crate::addr::{socket_addr, IpAddr, SocketAddr};
use crate::doh_url::{
    doh_endpoint_of_text, doh_server, doh_server_of_text, locate_doh_server, parse_doh_url,
    DohEndpointView, DohServer, DohServerView,
};
use crate::endpoint::DohUrlHost;
use crate::error::{failure, failure_because, DnsError, DnsErrorKind, DnsErrorView};
use crate::name_servers::{
    name_server, new_name_server, plain_name_server, set_http_endpoint, set_tls_dns_name,
    NameServer, Protocol,
};
use crate::pem::{bytes_of, certs_view, parse_pem_certs, pem_certs};
use crate::text::{slice_text_of, text_of};
use crate::tls::{
    all_certificates, are_certificates, client_trust, config_trusting, handshake, safe_handshake,
    trusted_by,
};

verus! {

/// User-facing DNS-over-HTTPS settings.
#[derive(Debug)]
pub struct DohSettings {
    /// DoH endpoint, e.g. `https://dns.google/dns-query` or `https://1.1.1.1/dns-query`.
    pub url: String,
    /// Pinned IP used to reach the DoH server. Required when the url host is a
    /// domain and `only` is set; otherwise a single plaintext bootstrap lookup
    /// resolves it.
    pub bootstrap_ip: Option<IpAddr>,
    /// Overrides the TLS server name used for SNI and certificate validation.
    pub tls_name: Option<String>,
    /// Forbids falling back to plaintext DNS.
    pub only: bool,
    /// PEM file with a CA chain to trust instead of the webpki roots, for
    /// privately hosted DoH servers.
    pub ca_cert_path: Option<String>,
}

/// What [`DohSettings`] say.
#[verifier::ext_equal]
pub struct DohSettingsView {
    pub url: Seq<char>,
    pub bootstrap_ip: Option<IpAddr>,
    pub tls_name: Option<Seq<char>>,
    pub only: bool,
    pub ca_cert_path: Option<Seq<char>>,
}

impl View for DohSettings {
    type V = DohSettingsView;

    open spec fn view(&self) -> DohSettingsView {
        DohSettingsView {
            url: self.url@,
            bootstrap_ip: self.bootstrap_ip,
            tls_name: text_of(self.tls_name),
            only: self.only,
            ca_cert_path: text_of(self.ca_cert_path),
        }
    }
}

impl Clone for DohSettings {
    fn clone(&self) -> (copy: DohSettings)
        ensures
            copy@ == self@,
    {
        DohSettings {
            url: self.url.clone(),
            bootstrap_ip: self.bootstrap_ip,
            tls_name: self.tls_name.clone(),
            only: self.only,
            ca_cert_path: self.ca_cert_path.clone(),
        }
    }
}

/// A validated, bootstrap-resolved DoH name server.
#[derive(Debug)]
pub struct DohServerConfig {
    pub name_server: hickory_resolver::config::NameServerConfig,
    /// DER-encoded CA certificates to trust instead of the webpki roots.
    pub ca_certs_der: Vec<Vec<u8>>,
    pub only: bool,
}

/// What a [`DohServerConfig`] says.
#[verifier::ext_equal]
pub struct DohServerConfigView {
    pub name_server: NameServer,
    pub ca_certs_der: Seq<Seq<u8>>,
    pub only: bool,
}

impl DohServerConfigView {
    /// Whether each of the byte strings to trust is a certificate.
    pub open spec fn validated(self) -> bool {
        all_certificates(self.ca_certs_der)
    }
}

impl View for DohServerConfig {
    type V = DohServerConfigView;

    open spec fn view(&self) -> DohServerConfigView {
        DohServerConfigView {
            name_server: name_server(self.name_server),
            ca_certs_der: bytes_of(self.ca_certs_der@),
            only: self.only,
        }
    }
}

/// The name server that a DoH server is: asked over https at its address and
/// port, by its TLS name and at its http path.
pub open spec fn doh_name_server(server: DohServerView) -> NameServer {
    NameServer {
        tls_dns_name: Some(server.tls_name),
        http_endpoint: Some(server.endpoint),
        ..plain_name_server(socket_addr(server.ip, server.port), Protocol::Https)
    }
}

/// Puts a DoH server into the form of a name server.
pub fn name_server_config(
    server: DohServer,
) -> (config: hickory_resolver::config::NameServerConfig)
    ensures
        name_server(config) == doh_name_server(server@),
{
    let mut config = new_name_server(server.ip, server.port, Protocol::Https);
    set_tls_dns_name(&mut config, server.tls_name);
    set_http_endpoint(&mut config, server.endpoint);
    config
}

/// What a result of [`build_doh_name_server`] tells.
pub open spec fn name_server_view(
    r: Result<hickory_resolver::config::NameServerConfig, DnsError>,
) -> Result<NameServer, DnsErrorView> {
    match r {
        Ok(config) => Ok(name_server(config)),
        Err(error) => Err(error@),
    }
}

/// The name server that a DoH url names.
pub open spec fn doh_name_server_of_text(
    url: Seq<char>,
    bootstrap_ip: Option<IpAddr>,
    tls_name_override: Option<Seq<char>>,
) -> Result<NameServer, DnsErrorView> {
    match doh_server_of_text(url, bootstrap_ip, tls_name_override) {
        Ok(server) => Ok(doh_name_server(server)),
        Err(error) => Err(error),
    }
}

/// Maps a DoH endpoint url onto a name server config. The pinned
/// `bootstrap_ip` (or the literal IP in the url) becomes the socket address,
/// while the domain (or the explicit override) stays the TLS server name, so
/// certificate validation is independent of how the server is reached.
pub fn build_doh_name_server(
    url: &str,
    bootstrap_ip: Option<IpAddr>,
    tls_name_override: Option<&str>,
) -> (r: Result<hickory_resolver::config::NameServerConfig, DnsError>)
    ensures
        name_server_view(r) == doh_name_server_of_text(
            url@,
            bootstrap_ip,
            slice_text_of(tls_name_override),
        ),
{
    match parse_doh_url(url) {
        Ok((host, port, endpoint)) => match locate_doh_server(
            host,
            port,
            endpoint,
            bootstrap_ip,
            tls_name_override,
        ) {
            Ok(server) => Ok(name_server_config(server)),
            Err(error) => Err(error),
        },
        Err(error) => Err(error),
    }
}

impl DohServerConfig {
    /// The TLS configuration to reach the server with.
    pub fn tls_client_config(&self) -> (config: rustls::ClientConfig)
        requires
            self@.validated(),
        ensures
            trusted_by(config) == client_trust(self@.ca_certs_der),
            trusted_by(config).len() > 0,
            handshake(config) == safe_handshake(),
    {
        config_trusting(&self.ca_certs_der)
    }

    /// The TLS configuration to reach the server with, unless one of its CA
    /// certificates is no certificate.
    pub fn try_tls_client_config(&self) -> (config: Option<rustls::ClientConfig>)
        ensures
            config is Some <==> self@.validated(),
            config matches Some(config) ==> trusted_by(config) == client_trust(
                self@.ca_certs_der,
            ) && handshake(config) == safe_handshake(),
    {
        if are_certificates(&self.ca_certs_der) {
            Some(self.tls_client_config())
        } else {
            None
        }
    }
}

/// What the configuration of a DoH server needs next.
#[derive(Debug)]
pub enum DohConfigStep {
    /// Look up `domain`, with `port`, through the system resolver, and go on
    /// with [`resume_doh_config`].
    Bootstrap { domain: String, port: u16 },
    /// Read the CA certificates at `path`, and go on with
    /// [`finish_doh_config`].
    ReadCa { path: String, name_server: hickory_resolver::config::NameServerConfig },
    /// Nothing: it is complete.
    Done(DohServerConfig),
}

/// What a [`DohConfigStep`] says.
#[verifier::ext_equal]
pub enum DohConfigStepView {
    Bootstrap { domain: Seq<char>, port: u16 },
    ReadCa { path: Seq<char>, name_server: NameServer },
    Done(DohServerConfigView),
}

impl View for DohConfigStep {
    type V = DohConfigStepView;

    open spec fn view(&self) -> DohConfigStepView {
        match *self {
            DohConfigStep::Bootstrap { domain, port } => DohConfigStepView::Bootstrap {
                domain: domain@,
                port,
            },
            DohConfigStep::ReadCa { path, name_server: server } => DohConfigStepView::ReadCa {
                path: path@,
                name_server: name_server(server),
            },
            DohConfigStep::Done(config) => DohConfigStepView::Done(config@),
        }
    }
}

/// What a result of [`resolve_doh_config`] tells.
pub open spec fn step_view(r: Result<DohConfigStep, DnsError>) -> Result<
    DohConfigStepView,
    DnsErrorView,
> {
    match r {
        Ok(step) => Ok(step@),
        Err(error) => Err(error@),
    }
}

/// What is needed once the name server is known: the CA certificates, if the
/// settings name any.
pub open spec fn ca_step(settings: DohSettingsView, server: NameServer) -> DohConfigStepView {
    match settings.ca_cert_path {
        Some(path) => DohConfigStepView::ReadCa { path, name_server: server },
        None => DohConfigStepView::Done(
            DohServerConfigView {
                name_server: server,
                ca_certs_der: Seq::empty(),
                only: settings.only,
            },
        ),
    }
}

/// What is needed first: the address of the server, if only its domain is
/// known and plaintext DNS is allowed.
pub open spec fn first_step(settings: DohSettingsView, endpoint: DohEndpointView) -> Result<
    DohConfigStepView,
    DnsErrorView,
> {
    if endpoint.host is Domain && settings.bootstrap_ip is None {
        let domain = endpoint.host->Domain_0;
        if settings.only {
            Err(failure(DnsErrorKind::DohOnlyWithoutBootstrap, domain))
        } else {
            Ok(DohConfigStepView::Bootstrap { domain, port: endpoint.port })
        }
    } else {
        match doh_server(endpoint, settings.bootstrap_ip, settings.tls_name) {
            Ok(server) => Ok(ca_step(settings, doh_name_server(server))),
            Err(error) => Err(error),
        }
    }
}

/// Finds out what is needed once the name server is known.
fn next_ca_step(
    settings: &DohSettings,
    server: hickory_resolver::config::NameServerConfig,
) -> (step: DohConfigStep)
    ensures
        step@ == ca_step(settings@, name_server(server)),
        step matches DohConfigStep::Done(config) ==> config@.validated(),
{
    match &settings.ca_cert_path {
        Some(path) => DohConfigStep::ReadCa { path: path.clone(), name_server: server },
        None => {
            let ca_certs_der: Vec<Vec<u8>> = Vec::new();
            assert(bytes_of(ca_certs_der@) == Seq::<Seq<u8>>::empty());
            DohConfigStep::Done(
                DohServerConfig { name_server: server, ca_certs_der, only: settings.only },
            )
        },
    }
}

/// What an optional override of the TLS name says.
fn tls_name_of(settings: &DohSettings) -> (name: Option<&str>)
    ensures
        slice_text_of(name) == settings@.tls_name,
{
    match &settings.tls_name {
        Some(name) => Some(name.as_str()),
        None => None,
    }
}

/// Finds out what the configuration of the DoH server at a host, port and
/// http path needs first.
pub fn start_doh_config(
    settings: &DohSettings,
    host: DohUrlHost,
    port: u16,
    endpoint: String,
) -> (r: Result<DohConfigStep, DnsError>)
    ensures
        step_view(r) == first_step(
            settings@,
            DohEndpointView { host: host@, port, path: endpoint@ },
        ),
        r matches Ok(DohConfigStep::Done(config)) ==> config@.validated(),
{
    if settings.bootstrap_ip.is_none() {
        if let DohUrlHost::Domain(domain) = &host {
            if settings.only {
                return Err(
                    DnsError::new(DnsErrorKind::DohOnlyWithoutBootstrap, domain.as_str()),
                );
            }
            return Ok(DohConfigStep::Bootstrap { domain: domain.clone(), port });
        }
    }
    match locate_doh_server(host, port, endpoint, settings.bootstrap_ip, tls_name_of(settings)) {
        Ok(server) => Ok(next_ca_step(settings, name_server_config(server))),
        Err(error) => Err(error),
    }
}

/// Validates DoH settings, and finds out what their configuration needs
/// first.
pub fn resolve_doh_config(settings: &DohSettings) -> (r: Result<DohConfigStep, DnsError>)
    ensures
        step_view(r) == (match doh_endpoint_of_text(settings@.url) {
            Ok(endpoint) => first_step(settings@, endpoint),
            Err(error) => Err(error),
        }),
        r matches Ok(DohConfigStep::Done(config)) ==> config@.validated(),
{
    match parse_doh_url(settings.url.as_str()) {
        Ok((host, port, endpoint)) => start_doh_config(settings, host, port, endpoint),
        Err(error) => Err(error),
    }
}

/// What a result of [`resolve_doh_bootstrap`] tells.
pub open spec fn bootstrap_view(r: Result<IpAddr, DnsError>) -> Result<IpAddr, DnsErrorView> {
    match r {
        Ok(ip) => Ok(ip),
        Err(error) => Err(error@),
    }
}

/// The addresses that a lookup found, or what it failed with.
pub open spec fn found_addrs(reply: Result<Vec<SocketAddr>, String>) -> Result<
    Seq<SocketAddr>,
    Seq<char>,
> {
    match reply {
        Ok(addrs) => Ok(addrs@),
        Err(text) => Err(text@),
    }
}

/// The address that a lookup of the DoH server's domain gives: the first one
/// that it found.
pub open spec fn bootstrap_ip(
    host: Seq<char>,
    reply: Result<Seq<SocketAddr>, Seq<char>>,
) -> Result<IpAddr, DnsErrorView> {
    match reply {
        Err(text) => Err(failure_because(DnsErrorKind::BootstrapLookupFailed, host, text)),
        Ok(addrs) => if addrs.len() == 0 {
            Err(failure(DnsErrorKind::BootstrapLookupEmpty, host))
        } else {
            Ok(addrs[0].ip_spec())
        },
    }
}

/// Picks the address of the DoH server out of what the lookup of its domain
/// found.
pub fn resolve_doh_bootstrap(host: &str, reply: Result<Vec<SocketAddr>, String>) -> (r: Result<
    IpAddr,
    DnsError,
>)
    ensures
        bootstrap_view(r) == bootstrap_ip(host@, found_addrs(reply)),
{
    match reply {
        Err(text) => Err(DnsError::because(DnsErrorKind::BootstrapLookupFailed, host, text)),
        Ok(addrs) => if addrs.len() == 0 {
            Err(DnsError::new(DnsErrorKind::BootstrapLookupEmpty, host))
        } else {
            Ok(addrs[0].ip())
        },
    }
}

/// Goes on with the configuration of a DoH server once its domain has been
/// looked up. There is no second lookup.
pub fn resume_doh_config(
    settings: &DohSettings,
    domain: &str,
    reply: Result<Vec<SocketAddr>, String>,
) -> (r: Result<DohConfigStep, DnsError>)
    ensures
        step_view(r) == (match bootstrap_ip(domain@, found_addrs(reply)) {
            Err(error) => Err(error),
            Ok(ip) => match doh_name_server_of_text(
                settings@.url,
                Some(ip),
                settings@.tls_name,
            ) {
                Err(error) => Err(error),
                Ok(server) => Ok(ca_step(settings@, server)),
            },
        }),
        r matches Ok(DohConfigStep::Done(config)) ==> config@.validated(),
        r matches Ok(step) ==> !(step is Bootstrap),
{
    match resolve_doh_bootstrap(domain, reply) {
        Ok(ip) => match build_doh_name_server(
            settings.url.as_str(),
            Some(ip),
            tls_name_of(settings),
        ) {
            Ok(server) => Ok(next_ca_step(settings, server)),
            Err(error) => Err(error),
        },
        Err(error) => Err(error),
    }
}

/// What a result of [`finish_doh_config`] tells.
pub open spec fn config_view(r: Result<DohServerConfig, DnsError>) -> Result<
    DohServerConfigView,
    DnsErrorView,
> {
    match r {
        Ok(config) => Ok(config@),
        Err(error) => Err(error@),
    }
}

/// The configuration of a DoH server with the CA certificates in a PEM text, if
/// all of them are certificates; there is none where the file could not be
/// read.
pub open spec fn config_with_ca(
    server: NameServer,
    only: bool,
    path: Seq<char>,
    content: Result<Seq<char>, Seq<char>>,
) -> Result<DohServerConfigView, DnsErrorView> {
    match content {
        Err(text) => Err(failure_because(DnsErrorKind::CaFileUnreadable, path, text)),
        Ok(content) => match pem_certs(path, content) {
            Err(error) => Err(error),
            Ok(certs) => if all_certificates(certs) {
                Ok(DohServerConfigView { name_server: server, ca_certs_der: certs, only })
            } else {
                Err(failure(DnsErrorKind::CaNotCertificate, path))
            },
        },
    }
}

/// What a file holds, or why it could not be read.
pub open spec fn content_view(content: Result<String, String>) -> Result<Seq<char>, Seq<char>> {
    match content {
        Ok(content) => Ok(content@),
        Err(text) => Err(text@),
    }
}

/// Completes the configuration of a DoH server once the file with its CA
/// certificates has been read. Bytes in it that are no certificate are
/// refused.
pub fn finish_doh_config(
    settings: &DohSettings,
    path: &str,
    server: hickory_resolver::config::NameServerConfig,
    content: Result<String, String>,
) -> (r: Result<DohServerConfig, DnsError>)
    ensures
        config_view(r) == config_with_ca(
            name_server(server),
            settings@.only,
            path@,
            content_view(content),
        ),
        r matches Ok(config) ==> config@.validated(),
{
    match content {
        Err(text) => Err(DnsError::because(DnsErrorKind::CaFileUnreadable, path, text)),
        Ok(content) => {
            let parsed = parse_pem_certs(path, content.as_str());
            assert(certs_view(parsed) == pem_certs(path@, content@));
            match parsed {
                Ok(ca_certs_der) => {
                    if !are_certificates(&ca_certs_der) {
                        return Err(DnsError::new(DnsErrorKind::CaNotCertificate, path));
                    }
                    Ok(DohServerConfig { name_server: server, ca_certs_der, only: settings.only })
                },
                Err(error) => Err(error),
            }
        },
    }
}

/// Installs a DoH configuration. Where there was none to install, the one
/// that is in place stays.
pub fn init_doh(
    current: &mut Option<Arc<DohServerConfig>>,
    outcome: Result<DohServerConfig, DnsError>,
) -> (r: Result<(), DnsError>)
    ensures
        match outcome {
            Ok(config) => r is Ok && *final(current) == Some(Arc::new(config)),
            Err(error) => r == Err::<(), DnsError>(error) && *final(current) == *old(current),
        },
{
    match outcome {
        Ok(config) => {
            *current = Some(Arc::new(config));
            Ok(())
        },
        Err(error) => Err(error),
    }
}

/// The DoH configuration that is in place.
pub fn current_doh(current: &Option<Arc<DohServerConfig>>) -> (r: Option<Arc<DohServerConfig>>)
    ensures
        r == *current,
{
    match current {
        Some(config) => Some(config.clone()),
        None => None,
    }
}

} // verus!
