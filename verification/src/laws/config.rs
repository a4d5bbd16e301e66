//! What holds of the configurations of DoH servers and resolvers.

use std::sync::Arc;

use vstd::prelude::*;

use crate::addr::{ip_text, IpAddr, SocketAddr};
use crate::doh::{
    build_doh_name_server, ca_step, config_with_ca, current_doh, finish_doh_config, init_doh,
    name_server_config, resolve_doh_bootstrap, resolve_doh_config, resume_doh_config,
    start_doh_config, DohConfigStep, DohServerConfig, DohSettings, DohSettingsView,
};
use crate::doh_url::{
    check_doh_url, doh_server, locate_doh_server, parse_doh_url, DohEndpointView, DohServer,
};
use crate::endpoint::{
    default_port, parse_error_text, parsed_url, url_host, url_parts, url_path, url_port, url_query,
    url_scheme, DohUrlHost, DohUrlHostView, UrlParts,
};
use crate::error::{DnsError, DnsErrorKind, DnsErrorView};
use crate::name_servers::{
    append_legacy_name_servers, default_settings, get_default_resolver_config, local_domain,
    lookup_strategy, name_server, name_servers, options_handshake, options_trust, search_domains,
    settings as settings_of, LookupIpStrategy, NameServer, Protocol,
};
use crate::pem::{parse_pem_certs, pem_certs};
use crate::resolver::{resolver_config_with, resolver_options, try_resolver_config_with};
use crate::tls::{
    are_certificates, client_trust, config_trusting, handshake, safe_handshake, trust_anchor,
    trusted_by, with_server_roots, TrustAnchor,
};

verus! {

/// Whether two hosts are the same.
pub open spec fn same_host(host: DohUrlHost, view: DohUrlHostView) -> bool {
    match (host, view) {
        (DohUrlHost::Ip(ip), DohUrlHostView::Ip(other)) => ip == other,
        (DohUrlHost::Domain(domain), DohUrlHostView::Domain(other)) => domain@ == other,
        _ => false,
    }
}

/// Whether two errors tell the same, and of the same cause.
pub open spec fn same_error(a: DnsError, b: DnsError) -> bool {
    &&& a.kind == b.kind
    &&& a.subject@ == b.subject@
    &&& a.cause is Some <==> b.cause is Some
    &&& a.cause is Some ==> a.cause->0@ == b.cause->0@
}

/// Whether a path says nothing about where a DoH server is asked.
pub open spec fn says_nothing(path: Seq<char>) -> bool {
    path.len() == 0 || (path.len() == 1 && path[0] == '/')
}

/// The parts of a url are accepted if and only if they are of an https url with a
/// host and without a query string. The host is kept, and so are the port and the
/// path where they say something; the port is else 443 and the path `/dns-query`.
pub proof fn law_doh_url_parts_are_kept(
    url: &str,
    parts: UrlParts,
    r: Result<(DohUrlHost, u16, String), DnsError>,
)
    requires
        call_ensures(check_doh_url, (url, parts), r),
    ensures
        r is Ok <==> parts.scheme@ == "https"@ && parts.query is None && parts.host is Some,
        r matches Ok((host, port, path)) ==> {
            &&& parts.host->0 matches DohUrlHost::Ip(ip) ==> host is Ip && host->Ip_0 == ip
            &&& parts.host->0 matches DohUrlHost::Domain(domain) ==> host is Domain
                && host->Domain_0@ == domain@
            &&& parts.known_port is Some ==> port == parts.known_port->0
            &&& parts.known_port is None ==> port == 443
            &&& !says_nothing(parts.path@) ==> path@ == parts.path@
            &&& says_nothing(parts.path@) ==> path@ == "/dns-query"@
        },
        r is Err ==> {
            &&& r->Err_0.subject@ == url@
            &&& r->Err_0.cause is None
            &&& r->Err_0.kind == DnsErrorKind::DohUrlNotHttps <==> parts.scheme@ != "https"@
            &&& r->Err_0.kind == DnsErrorKind::DohUrlHasQuery <==> parts.scheme@ == "https"@
                && parts.query is Some
            &&& r->Err_0.kind == DnsErrorKind::DohUrlWithoutHost <==> parts.scheme@ == "https"@
                && parts.query is None
        },
{
    reveal_strlit("/");
    if parts.path@.len() == 1 && parts.path@[0] == '/' {
        assert(parts.path@ == "/"@);
    }
}

/// A text is accepted as the url of a DoH server if and only if it is an https
/// url with a host and without a query string. The host is kept, and so are the
/// port and the path that the url names; the port is else 443 and the path
/// `/dns-query`.
pub proof fn law_doh_url_is_read(url: &str, r: Result<(DohUrlHost, u16, String), DnsError>)
    requires
        call_ensures(parse_doh_url, (url,), r),
    ensures
        r is Ok <==> parsed_url(url@) is Ok && url_scheme(parsed_url(url@)->Ok_0) == "https"@
            && url_query(parsed_url(url@)->Ok_0) is None && url_host(
            parsed_url(url@)->Ok_0,
        ) is Some,
        r matches Ok((host, port, path)) ==> {
            let parsed = parsed_url(url@)->Ok_0;
            &&& same_host(host, url_host(parsed)->0)
            &&& url_port(parsed) is Some ==> port == url_port(parsed)->0
            &&& url_port(parsed) is None ==> port == 443
            &&& !says_nothing(url_path(parsed)) ==> path@ == url_path(parsed)
            &&& says_nothing(url_path(parsed)) ==> path@ == "/dns-query"@
        },
        r is Err ==> r->Err_0.subject@ == url@,
        parsed_url(url@) is Err ==> r->Err_0.kind == DnsErrorKind::InvalidDohUrl
            && r->Err_0.cause is Some && r->Err_0.cause->0@ == parse_error_text(
            parsed_url(url@)->Err_0,
        ),
        parsed_url(url@) is Ok && r is Err ==> r->Err_0.cause is None && r->Err_0.kind == (
        if url_scheme(parsed_url(url@)->Ok_0) != "https"@ {
            DnsErrorKind::DohUrlNotHttps
        } else if url_query(parsed_url(url@)->Ok_0) is Some {
            DnsErrorKind::DohUrlHasQuery
        } else {
            DnsErrorKind::DohUrlWithoutHost
        }),
{
    reveal_strlit("/");
    reveal_strlit("https");
    reveal_strlit("http");
    reveal_strlit("ws");
    assert("https"@.len() == 5 && "http"@.len() == 4 && "ws"@.len() == 2);
    if let Ok(parsed) = parsed_url(url@) {
        if url_path(parsed).len() == 1 && url_path(parsed)[0] == '/' {
            assert(url_path(parsed) == "/"@);
        }
    }
}

/// Where an override of the TLS name is given, it is the TLS name of the server,
/// whatever the host of its url is. Without one, it is the host: a domain as it
/// is, an address in its notation.
pub proof fn law_tls_name_override_wins(
    endpoint: DohEndpointView,
    bootstrap_ip: Option<IpAddr>,
    tls_name_override: Option<Seq<char>>,
)
    ensures
        doh_server(endpoint, bootstrap_ip, tls_name_override) matches Ok(server) ==> {
            &&& tls_name_override is Some ==> server.tls_name == tls_name_override->0
            &&& tls_name_override is None && endpoint.host is Domain ==> server.tls_name
                == endpoint.host->Domain_0
            &&& tls_name_override is None && endpoint.host is Ip ==> server.tls_name == ip_text(
                endpoint.host->Ip_0,
            )
        },
{
}

/// A DoH server is reached at the address in its url, or else at the pinned one,
/// at the port and the http path of its url. It cannot be reached if and only if
/// there is neither address.
pub proof fn law_server_is_reached_as_its_url_says(
    endpoint: DohEndpointView,
    bootstrap_ip: Option<IpAddr>,
    tls_name_override: Option<Seq<char>>,
)
    ensures
        ({
            let r = doh_server(endpoint, bootstrap_ip, tls_name_override);
            &&& r is Ok <==> endpoint.host is Ip || bootstrap_ip is Some
            &&& r is Ok && endpoint.host is Ip ==> r->Ok_0.ip == endpoint.host->Ip_0
            &&& r is Ok && endpoint.host is Domain ==> r->Ok_0.ip == bootstrap_ip->0
            &&& r is Ok ==> r->Ok_0.port == endpoint.port && r->Ok_0.endpoint == endpoint.path
            &&& r is Err ==> r->Err_0.kind == DnsErrorKind::DohWithoutBootstrap
                && r->Err_0.subject == endpoint.host->Domain_0 && r->Err_0.cause is None
        }),
{
}

/// The same of what is located: address, port, http path and TLS name.
pub proof fn law_server_is_located(
    host: DohUrlHost,
    port: u16,
    endpoint: String,
    bootstrap_ip: Option<IpAddr>,
    tls_name_override: Option<&str>,
    r: Result<DohServer, DnsError>,
)
    requires
        call_ensures(
            locate_doh_server,
            (host, port, endpoint, bootstrap_ip, tls_name_override),
            r,
        ),
    ensures
        r is Ok <==> host is Ip || bootstrap_ip is Some,
        r matches Ok(server) ==> {
            &&& server.port == port
            &&& server.endpoint@ == endpoint@
            &&& host is Ip ==> server.ip == host->Ip_0
            &&& host is Domain ==> server.ip == bootstrap_ip->0
            &&& tls_name_override is Some ==> server.tls_name@ == tls_name_override->0@
            &&& tls_name_override is None && host is Domain ==> server.tls_name@
                == host->Domain_0@
            &&& tls_name_override is None && host is Ip ==> server.tls_name@ == ip_text(
                host->Ip_0,
            )
        },
        r is Err ==> r->Err_0.kind == DnsErrorKind::DohWithoutBootstrap && r->Err_0.subject@
            == host->Domain_0@,
{
}

/// The name server that a DoH server is: asked over https at its address and
/// port, with its TLS name and http path, from any address, its negative
/// responses trusted.
pub proof fn law_name_server_is_the_doh_server(
    server: DohServer,
    config: hickory_resolver::config::NameServerConfig,
)
    requires
        call_ensures(name_server_config, (server,), config),
    ensures
        name_server(config).protocol == Protocol::Https,
        name_server(config).socket_addr.ip_spec() == server.ip,
        name_server(config).socket_addr.port_spec() == server.port,
        name_server(config).tls_dns_name == Some(server.tls_name@),
        name_server(config).http_endpoint == Some(server.endpoint@),
        name_server(config).trust_negative_responses,
        name_server(config).bind_addr is None,
{
}

/// The name server of a DoH url is what its parts say: the address in the url or
/// the pinned one, the port and the path as they are read from it, and the
/// override as TLS name, or else the host.
pub proof fn law_name_server_is_what_the_url_says(
    url: &str,
    bootstrap_ip: Option<IpAddr>,
    tls_name_override: Option<&str>,
    read: Result<(DohUrlHost, u16, String), DnsError>,
    r: Result<hickory_resolver::config::NameServerConfig, DnsError>,
)
    requires
        call_ensures(parse_doh_url, (url,), read),
        call_ensures(build_doh_name_server, (url, bootstrap_ip, tls_name_override), r),
    ensures
        r is Ok <==> read is Ok && (read->Ok_0.0 is Ip || bootstrap_ip is Some),
        r matches Ok(config) ==> {
            let (host, port, path) = read->Ok_0;
            let server = name_server(config);
            &&& server.protocol == Protocol::Https
            &&& server.socket_addr.port_spec() == port
            &&& server.http_endpoint == Some(path@)
            &&& host is Ip ==> server.socket_addr.ip_spec() == host->Ip_0
            &&& host is Domain ==> server.socket_addr.ip_spec() == bootstrap_ip->0
            &&& tls_name_override is Some ==> server.tls_dns_name == Some(tls_name_override->0@)
            &&& tls_name_override is None && host is Domain ==> server.tls_dns_name == Some(
                host->Domain_0@,
            )
            &&& tls_name_override is None && host is Ip ==> server.tls_dns_name == Some(
                ip_text(host->Ip_0),
            )
        },
        read is Err ==> r is Err && same_error(r->Err_0, read->Err_0),
        read is Ok && r is Err ==> r->Err_0.kind == DnsErrorKind::DohWithoutBootstrap
            && r->Err_0.subject@ == read->Ok_0.0->Domain_0@,
{
}

/// Where the settings name a CA file, the next step is to read that file,
/// whatever else they say. A configuration is complete without certificates only
/// where no CA file is named, and then it always is.
pub proof fn law_named_ca_file_is_read(settings: DohSettingsView, server: NameServer)
    ensures
        settings.ca_cert_path is Some ==> ca_step(settings, server) is ReadCa && ca_step(
            settings,
            server,
        )->path == settings.ca_cert_path->0 && ca_step(settings, server)->name_server == server,
        settings.ca_cert_path is None ==> ca_step(settings, server) is Done && ca_step(
            settings,
            server,
        )->Done_0.ca_certs_der.len() == 0 && ca_step(settings, server)->Done_0.name_server == server
            && ca_step(settings, server)->Done_0.only == settings.only,
{
}

/// What the configuration of a DoH server needs first. Its domain is looked up,
/// with its port, if and only if no address is known and plaintext DNS is
/// allowed; where it is forbidden, the settings are refused. Else the CA file
/// that the settings name is read, and without one the configuration is complete,
/// with no certificates and with what the settings say about plaintext DNS.
pub proof fn law_first_need(
    settings: DohSettings,
    host: DohUrlHost,
    port: u16,
    endpoint: String,
    r: Result<DohConfigStep, DnsError>,
)
    requires
        call_ensures(start_doh_config, (&settings, host, port, endpoint), r),
    ensures
        ({
            let unknown = host is Domain && settings.bootstrap_ip is None;
            &&& r is Err <==> unknown && settings.only
            &&& r is Err ==> r->Err_0.kind == DnsErrorKind::DohOnlyWithoutBootstrap
                && r->Err_0.subject@ == host->Domain_0@ && r->Err_0.cause is None
            &&& r is Ok ==> (r->Ok_0 is Bootstrap <==> unknown)
            &&& r is Ok && unknown ==> r->Ok_0->domain@ == host->Domain_0@ && r->Ok_0->port == port
            &&& r is Ok && !unknown ==> (r->Ok_0 is ReadCa <==> settings.ca_cert_path is Some)
            &&& r is Ok && !unknown && settings.ca_cert_path is Some ==> r->Ok_0->path@
                == settings.ca_cert_path->0@
            &&& r is Ok && !unknown && settings.ca_cert_path is None ==> {
                &&& r->Ok_0 is Done
                &&& r->Ok_0->Done_0.ca_certs_der@.len() == 0
                &&& r->Ok_0->Done_0.only == settings.only
            }
        }),
{
    if let Ok(DohConfigStep::Done(config)) = r {
        assert(crate::pem::bytes_of(config.ca_certs_der@).len() == config.ca_certs_der@.len());
    }
}

/// The name server that a step is about.
pub open spec fn server_of(step: DohConfigStep) -> NameServer {
    match step {
        DohConfigStep::ReadCa { name_server: config, .. } => name_server(config),
        DohConfigStep::Done(config) => name_server(config.name_server),
        DohConfigStep::Bootstrap { .. } => arbitrary(),
    }
}

/// Where nothing has to be looked up, the name server is the one at the address
/// in the url, or else at the pinned one, with the settings' TLS name, or else the
/// host's.
pub proof fn law_first_need_keeps_the_server(
    settings: DohSettings,
    host: DohUrlHost,
    port: u16,
    endpoint: String,
    step: DohConfigStep,
)
    requires
        call_ensures(
            start_doh_config,
            (&settings, host, port, endpoint),
            Ok::<DohConfigStep, DnsError>(step),
        ),
        !(step is Bootstrap),
    ensures
        ({
            let server = server_of(step);
            &&& server.protocol == Protocol::Https
            &&& server.socket_addr.port_spec() == port
            &&& server.http_endpoint == Some(endpoint@)
            &&& host is Ip ==> server.socket_addr.ip_spec() == host->Ip_0
            &&& host is Domain ==> server.socket_addr.ip_spec() == settings.bootstrap_ip->0
            &&& settings.tls_name is Some ==> server.tls_dns_name == Some(settings.tls_name->0@)
            &&& settings.tls_name is None && host is Domain ==> server.tls_dns_name == Some(
                host->Domain_0@,
            )
            &&& settings.tls_name is None && host is Ip ==> server.tls_dns_name == Some(
                ip_text(host->Ip_0),
            )
        }),
{
}

/// Settings need what the parts of their url need; a url that cannot be read is
/// refused for that.
pub proof fn law_settings_need_what_their_url_needs(
    settings: DohSettings,
    url: &str,
    read: Result<(DohUrlHost, u16, String), DnsError>,
    r: Result<DohConfigStep, DnsError>,
)
    requires
        settings.url@ == url@,
        call_ensures(parse_doh_url, (url,), read),
        call_ensures(resolve_doh_config, (&settings,), r),
    ensures
        read is Err ==> r is Err && same_error(r->Err_0, read->Err_0),
        read is Ok ==> ({
            let (host, port, path) = read->Ok_0;
            let unknown = host is Domain && settings.bootstrap_ip is None;
            &&& r is Err <==> unknown && settings.only
            &&& r is Err ==> r->Err_0.kind == DnsErrorKind::DohOnlyWithoutBootstrap
                && r->Err_0.subject@ == host->Domain_0@
            &&& r is Ok ==> (r->Ok_0 is Bootstrap <==> unknown)
            &&& r is Ok && unknown ==> r->Ok_0->domain@ == host->Domain_0@ && r->Ok_0->port == port
            &&& r is Ok && !unknown ==> (r->Ok_0 is ReadCa <==> settings.ca_cert_path is Some)
            &&& r is Ok && !unknown && settings.ca_cert_path is Some ==> r->Ok_0->path@
                == settings.ca_cert_path->0@
            &&& r is Ok && !unknown && settings.ca_cert_path is None
                ==> r->Ok_0->Done_0.ca_certs_der@.len() == 0 && r->Ok_0->Done_0.only
                == settings.only
            &&& r is Ok && !unknown ==> {
                let server = server_of(r->Ok_0);
                &&& server.protocol == Protocol::Https
                &&& server.socket_addr.port_spec() == port
                &&& server.http_endpoint == Some(path@)
                &&& host is Ip ==> server.socket_addr.ip_spec() == host->Ip_0
                &&& host is Domain ==> server.socket_addr.ip_spec() == settings.bootstrap_ip->0
                &&& settings.tls_name is Some ==> server.tls_dns_name == Some(
                    settings.tls_name->0@,
                )
                &&& settings.tls_name is None && host is Domain ==> server.tls_dns_name == Some(
                    host->Domain_0@,
                )
                &&& settings.tls_name is None && host is Ip ==> server.tls_dns_name == Some(
                    ip_text(host->Ip_0),
                )
            }
        }),
{
    if let Ok(DohConfigStep::Done(config)) = r {
        assert(crate::pem::bytes_of(config.ca_certs_der@).len() == config.ca_certs_der@.len());
    }
}

/// The lookup of a DoH server's domain gives the first address that was found.
/// A failed lookup is told with what it said, and one that found nothing as such.
pub proof fn law_first_address_is_taken(
    host: &str,
    reply: Result<Vec<SocketAddr>, String>,
    r: Result<IpAddr, DnsError>,
)
    requires
        call_ensures(resolve_doh_bootstrap, (host, reply), r),
    ensures
        r is Ok <==> reply is Ok && reply->Ok_0@.len() > 0,
        r is Ok ==> match reply->Ok_0@[0] {
            SocketAddr::V4 { ip, .. } => r->Ok_0 == IpAddr::V4(ip),
            SocketAddr::V6 { ip, .. } => r->Ok_0 == IpAddr::V6(ip),
        },
        r is Err ==> r->Err_0.subject@ == host@,
        r is Err && reply is Err ==> r->Err_0.kind == DnsErrorKind::BootstrapLookupFailed
            && r->Err_0.cause is Some && r->Err_0.cause->0@ == reply->Err_0@,
        r is Err && reply is Ok ==> r->Err_0.kind == DnsErrorKind::BootstrapLookupEmpty
            && r->Err_0.cause is None,
{
}

/// Once the domain of a DoH server has been looked up, its configuration goes on
/// as if the address found had been pinned: with the name server of the url at
/// that address, and with the CA file that the settings name.
pub proof fn law_found_address_is_pinned(
    settings: DohSettings,
    url: &str,
    tls_name: Option<&str>,
    domain: &str,
    reply: Result<Vec<SocketAddr>, String>,
    found: Result<IpAddr, DnsError>,
    built: Result<hickory_resolver::config::NameServerConfig, DnsError>,
    r: Result<DohConfigStep, DnsError>,
)
    requires
        settings.url@ == url@,
        settings.tls_name is Some <==> tls_name is Some,
        settings.tls_name is Some ==> settings.tls_name->0@ == tls_name->0@,
        call_ensures(resolve_doh_bootstrap, (domain, reply), found),
        found is Ok ==> call_ensures(
            build_doh_name_server,
            (url, Some(found->Ok_0), tls_name),
            built,
        ),
        call_ensures(resume_doh_config, (&settings, domain, reply), r),
    ensures
        r is Ok <==> found is Ok && built is Ok,
        found is Err ==> same_error(r->Err_0, found->Err_0),
        found is Ok && built is Err ==> same_error(r->Err_0, built->Err_0),
        r is Ok ==> {
            &&& !(r->Ok_0 is Bootstrap)
            &&& server_of(r->Ok_0) == name_server(built->Ok_0)
            &&& r->Ok_0 is ReadCa <==> settings.ca_cert_path is Some
            &&& r->Ok_0 is ReadCa ==> r->Ok_0->path@ == settings.ca_cert_path->0@
            &&& r->Ok_0 is Done ==> r->Ok_0->Done_0.only == settings.only
                && r->Ok_0->Done_0.ca_certs_der@.len() == 0
        },
{
    if let Ok(DohConfigStep::Done(config)) = r {
        assert(crate::pem::bytes_of(config.ca_certs_der@).len() == config.ca_certs_der@.len());
    }
}

/// The certificates of a finished configuration are all those that the PEM text
/// holds, in order and none left out.
pub proof fn law_config_holds_every_certificate(
    server: NameServer,
    only: bool,
    path: Seq<char>,
    content: Result<Seq<char>, Seq<char>>,
)
    ensures
        config_with_ca(server, only, path, content) matches Ok(config) ==> {
            &&& content is Ok
            &&& pem_certs(path, content->Ok_0) is Ok
            &&& config.ca_certs_der.len() == pem_certs(path, content->Ok_0)->Ok_0.len()
            &&& forall|i: int|
                0 <= i < config.ca_certs_der.len() ==> #[trigger] config.ca_certs_der[i]
                    == pem_certs(path, content->Ok_0)->Ok_0[i]
            &&& config.name_server == server
            &&& config.only == only
        },
{
}

/// A configuration is finished if and only if the CA file was read, holds
/// certificates in PEM, and each of them is one. It holds just what the file
/// does, and keeps the name server and the mode.
pub proof fn law_finished_config_holds_the_file(
    settings: DohSettings,
    path: &str,
    server: hickory_resolver::config::NameServerConfig,
    content: Result<String, String>,
    text: &str,
    read: Result<Vec<Vec<u8>>, DnsError>,
    r: Result<DohServerConfig, DnsError>,
)
    requires
        content is Ok ==> content->Ok_0@ == text@,
        call_ensures(parse_pem_certs, (path, text), read),
        call_ensures(finish_doh_config, (&settings, path, server, content), r),
    ensures
        r is Ok <==> {
            &&& content is Ok
            &&& read is Ok
            &&& forall|i: int|
                0 <= i < read->Ok_0@.len() ==> trust_anchor((#[trigger] read->Ok_0@[i])@) is Some
        },
        r matches Ok(config) ==> {
            &&& config.ca_certs_der@.len() == read->Ok_0@.len()
            &&& forall|i: int|
                0 <= i < read->Ok_0@.len() ==> (#[trigger] config.ca_certs_der@[i])@
                    == read->Ok_0@[i]@
            &&& config.only == settings.only
            &&& name_server(config.name_server) == name_server(server)
        },
        content is Err ==> r->Err_0.kind == DnsErrorKind::CaFileUnreadable && r->Err_0.subject@
            == path@ && r->Err_0.cause is Some && r->Err_0.cause->0@ == content->Err_0@,
        content is Ok && read is Err ==> same_error(r->Err_0, read->Err_0),
        content is Ok && read is Ok && r is Err ==> r->Err_0.kind == DnsErrorKind::CaNotCertificate
            && r->Err_0.subject@ == path@,
{
    if content is Ok && read is Ok {
        let ders = crate::pem::bytes_of(read->Ok_0@);
        assert(pem_certs(path@, text@) == Ok::<Seq<Seq<u8>>, DnsErrorView>(ders));
        assert forall|i: int| 0 <= i < read->Ok_0@.len() implies ders[i] == (
        #[trigger] read->Ok_0@[i])@ by {}
        if let Ok(config) = r {
            let kept = crate::pem::bytes_of(config.ca_certs_der@);
            assert(kept == ders);
            assert(kept.len() == config.ca_certs_der@.len());
            assert forall|i: int| 0 <= i < read->Ok_0@.len() implies (
            #[trigger] config.ca_certs_der@[i])@ == read->Ok_0@[i]@ by {
                assert(kept[i] == config.ca_certs_der@[i]@);
                assert(ders[i] == read->Ok_0@[i]@);
            }
            assert forall|i: int| 0 <= i < read->Ok_0@.len() implies trust_anchor(
                (#[trigger] read->Ok_0@[i])@,
            ) is Some by {
                assert(trust_anchor(ders[i]) is Some);
            }
        }
        if forall|i: int|
            0 <= i < read->Ok_0@.len() ==> trust_anchor((#[trigger] read->Ok_0@[i])@) is Some {
            assert forall|i: int| 0 <= i < ders.len() implies trust_anchor(
                #[trigger] ders[i],
            ) is Some by {
                assert(trust_anchor(read->Ok_0@[i]@) is Some);
            }
        }
    }
}

/// Byte strings are certificates if and only if each of them is one.
pub proof fn law_each_certificate_is_tested(certs: Vec<Vec<u8>>, r: bool)
    requires
        call_ensures(are_certificates, (&certs,), r),
    ensures
        r <==> forall|i: int|
            0 <= i < certs@.len() ==> trust_anchor((#[trigger] certs@[i])@) is Some,
{
    let ders = crate::pem::bytes_of(certs@);
    assert forall|i: int| 0 <= i < certs@.len() implies ders[i] == (#[trigger] certs@[i])@ by {}
    if r {
        assert forall|i: int| 0 <= i < certs@.len() implies trust_anchor(
            (#[trigger] certs@[i])@,
        ) is Some by {
            assert(trust_anchor(ders[i]) is Some);
        }
    }
    if forall|i: int| 0 <= i < certs@.len() ==> trust_anchor((#[trigger] certs@[i])@) is Some {
        assert forall|i: int| 0 <= i < ders.len() implies trust_anchor(
            #[trigger] ders[i],
        ) is Some by {
            assert(trust_anchor(certs@[i]@) is Some);
        }
    }
}

/// A list of certificates is trusted one by one, in order, none left out; an
/// empty list stands for the CAs that Mozilla trusts, and for no others.
pub proof fn law_trust_is_that_of_the_certificates(certs: Seq<Seq<u8>>)
    ensures
        certs.len() == 0 ==> client_trust(certs) == with_server_roots(Seq::<TrustAnchor>::empty()),
        certs.len() > 0 ==> client_trust(certs).len() == certs.len(),
        certs.len() > 0 ==> forall|i: int|
            0 <= i < certs.len() ==> #[trigger] client_trust(certs)[i] == trust_anchor(certs[i])->0,
{
}

/// A TLS client trusts the certificates of its DoH server one by one, or else the
/// CAs that Mozilla trusts, and shows no certificate of its own.
pub proof fn law_tls_client_trusts_the_certificates(
    config: DohServerConfig,
    client: rustls::ClientConfig,
)
    requires
        call_ensures(DohServerConfig::tls_client_config, (&config,), client),
    ensures
        config.ca_certs_der@.len() == 0 ==> trusted_by(client) == with_server_roots(
            Seq::<TrustAnchor>::empty(),
        ),
        config.ca_certs_der@.len() > 0 ==> {
            &&& trusted_by(client).len() == config.ca_certs_der@.len()
            &&& forall|i: int|
                0 <= i < config.ca_certs_der@.len() ==> #[trigger] trusted_by(client)[i]
                    == trust_anchor(config.ca_certs_der@[i]@)->0
        },
        !handshake(client).client_certificate,
        handshake(client).server_name,
        handshake(client).tls12 && handshake(client).tls13,
{
    let ders = crate::pem::bytes_of(config.ca_certs_der@);
    assert(ders.len() == config.ca_certs_der@.len());
    assert forall|i: int| 0 <= i < config.ca_certs_der@.len() && ders.len() > 0 implies
        #[trigger] trusted_by(client)[i] == trust_anchor(config.ca_certs_der@[i]@)->0 by {
        assert(ders[i] == config.ca_certs_der@[i]@);
    }
}

/// A TLS client is made if and only if each certificate is one, and is then like
/// the one that is made without a test.
pub proof fn law_tls_client_needs_certificates(
    config: DohServerConfig,
    tried: Option<rustls::ClientConfig>,
    client: rustls::ClientConfig,
)
    requires
        call_ensures(DohServerConfig::try_tls_client_config, (&config,), tried),
        call_ensures(DohServerConfig::tls_client_config, (&config,), client),
    ensures
        tried is Some <==> forall|i: int|
            0 <= i < config.ca_certs_der@.len() ==> trust_anchor(
                (#[trigger] config.ca_certs_der@[i])@,
            ) is Some,
        tried is Some ==> trusted_by(tried->0) == trusted_by(client) && handshake(tried->0)
            == handshake(client),
{
    let certs = config.ca_certs_der;
    let ders = crate::pem::bytes_of(certs@);
    assert forall|i: int| 0 <= i < certs@.len() implies ders[i] == (#[trigger] certs@[i])@ by {}
    if tried is Some {
        assert forall|i: int| 0 <= i < certs@.len() implies trust_anchor(
            (#[trigger] certs@[i])@,
        ) is Some by {
            assert(trust_anchor(ders[i]) is Some);
        }
    }
    if forall|i: int| 0 <= i < certs@.len() ==> trust_anchor((#[trigger] certs@[i])@) is Some {
        assert forall|i: int| 0 <= i < ders.len() implies trust_anchor(
            #[trigger] ders[i],
        ) is Some by {
            assert(trust_anchor(certs@[i]@) is Some);
        }
    }
}

/// A client that trusts certificates is like that of a DoH server with them.
pub proof fn law_client_is_that_of_its_certificates(
    config: DohServerConfig,
    client: rustls::ClientConfig,
    other: rustls::ClientConfig,
)
    requires
        call_ensures(DohServerConfig::tls_client_config, (&config,), client),
        call_ensures(config_trusting, (&config.ca_certs_der,), other),
    ensures
        trusted_by(client) == trusted_by(other),
        handshake(client) == handshake(other),
{
}

/// A resolver that asks the two default name servers, over UDP at port 53, and
/// takes each name as it is.
pub proof fn law_default_name_servers(config: hickory_resolver::config::ResolverConfig)
    requires
        call_ensures(get_default_resolver_config, (), config),
    ensures
        name_servers(config).len() == 2,
        name_servers(config)[0].socket_addr == (SocketAddr::V4 { ip: 0xDF050505, port: 53 }),
        name_servers(config)[1].socket_addr == (SocketAddr::V4 { ip: 0xB4B80101, port: 53 }),
        forall|i: int|
            0 <= i < 2 ==> {
                let server = #[trigger] name_servers(config)[i];
                &&& server.protocol == Protocol::Udp
                &&& server.tls_dns_name is None
                &&& server.http_endpoint is None
                &&& server.trust_negative_responses
                &&& server.bind_addr is None
            },
        local_domain(config) is None,
        search_domains(config).len() == 0,
{
}

/// The name servers of a resolver are the DoH server, where there is one, and
/// behind it, unless plaintext DNS is forbidden, the default ones and those of the
/// system, in their order, none left out and none added.
pub proof fn law_resolver_asks_the_right_servers(
    doh: Option<&DohServerConfig>,
    system: Option<
        (hickory_resolver::config::ResolverConfig, hickory_resolver::config::ResolverOpts),
    >,
    default: hickory_resolver::config::ResolverConfig,
    r: (hickory_resolver::config::ResolverConfig, hickory_resolver::config::ResolverOpts),
)
    requires
        call_ensures(get_default_resolver_config, (), default),
        call_ensures(resolver_config_with, (doh, system), r),
    ensures
        ({
            let servers = name_servers(r.0);
            let first: int = if doh is Some {
                1
            } else {
                0
            };
            let known = if system is Some {
                name_servers((system->0).0)
            } else {
                Seq::empty()
            };
            &&& doh is Some ==> servers[0] == name_server(doh->0.name_server)
            &&& doh is Some && doh->0.only ==> servers.len() == 1
            &&& !(doh is Some && doh->0.only) ==> {
                &&& servers.len() == first + 2 + known.len()
                &&& servers.subrange(first, first + 2) == name_servers(default)
                &&& servers.skip(first + 2) == known
            }
            &&& local_domain(r.0) is None
            &&& search_domains(r.0).len() == 0
        }),
{
    let servers = name_servers(r.0);
    let first: int = if doh is Some {
        1
    } else {
        0
    };
    let known = if system is Some {
        name_servers((system->0).0)
    } else {
        Seq::empty()
    };
    if !(doh is Some && doh->0.only) {
        assert(servers.subrange(first, first + 2) == name_servers(default));
        assert(servers.skip(first + 2) == known);
    }
}

/// A resolver looks up both kinds of addresses, and keeps the settings of the
/// system, where they are known, or else the default ones. Its TLS configuration
/// trusts the certificates of the DoH server one by one, or else those that
/// Mozilla trusts; without DoH it is left as it was.
pub proof fn law_resolver_keeps_the_options(
    doh: Option<&DohServerConfig>,
    system: Option<
        (hickory_resolver::config::ResolverConfig, hickory_resolver::config::ResolverOpts),
    >,
    r: (hickory_resolver::config::ResolverConfig, hickory_resolver::config::ResolverOpts),
)
    requires
        call_ensures(resolver_config_with, (doh, system), r),
    ensures
        lookup_strategy(r.1) == LookupIpStrategy::Ipv4AndIpv6,
        system is Some ==> settings_of(r.1) == settings_of((system->0).1),
        system is None ==> settings_of(r.1) == default_settings(),
        doh is Some && doh->0.ca_certs_der@.len() == 0 ==> options_trust(r.1) == with_server_roots(
            Seq::<TrustAnchor>::empty(),
        ),
        doh is Some && doh->0.ca_certs_der@.len() > 0 ==> {
            &&& options_trust(r.1).len() == doh->0.ca_certs_der@.len()
            &&& forall|i: int|
                0 <= i < doh->0.ca_certs_der@.len() ==> #[trigger] options_trust(r.1)[i]
                    == trust_anchor(doh->0.ca_certs_der@[i]@)->0
        },
        doh is Some ==> options_handshake(r.1) == safe_handshake(),
        doh is None && system is Some ==> options_trust(r.1) == options_trust((system->0).1)
            && options_handshake(r.1) == options_handshake((system->0).1),
        doh is None && system is None ==> options_trust(r.1).len() == 0,
{
    if let Some(config) = doh {
        let ders = crate::pem::bytes_of(config.ca_certs_der@);
        assert(ders.len() == config.ca_certs_der@.len());
        if ders.len() > 0 {
            assert forall|i: int| 0 <= i < config.ca_certs_der@.len() implies
                #[trigger] options_trust(r.1)[i] == trust_anchor(config.ca_certs_der@[i]@)->0 by {
                assert(ders[i] == config.ca_certs_der@[i]@);
            }
        }
    }
}

/// The options of a resolver are those that it is made with, however it is made.
pub proof fn law_resolver_options_are_adapted(
    doh: Option<&DohServerConfig>,
    config: hickory_resolver::config::ResolverConfig,
    base: hickory_resolver::config::ResolverOpts,
    options: hickory_resolver::config::ResolverOpts,
    r: (hickory_resolver::config::ResolverConfig, hickory_resolver::config::ResolverOpts),
)
    requires
        call_ensures(resolver_options, (base, doh), options),
        call_ensures(resolver_config_with, (doh, Some((config, base))), r),
    ensures
        lookup_strategy(options) == lookup_strategy(r.1),
        settings_of(options) == settings_of(r.1),
        options_trust(options) == options_trust(r.1),
        options_handshake(options) == options_handshake(r.1),
{
}

/// A resolver can be configured if and only if each certificate of the DoH server
/// is one, and is then configured as without a test.
pub proof fn law_resolver_needs_certificates(
    doh: Option<&DohServerConfig>,
    system: Option<
        (hickory_resolver::config::ResolverConfig, hickory_resolver::config::ResolverOpts),
    >,
    tried: Option<
        (hickory_resolver::config::ResolverConfig, hickory_resolver::config::ResolverOpts),
    >,
    r: (hickory_resolver::config::ResolverConfig, hickory_resolver::config::ResolverOpts),
)
    requires
        call_ensures(try_resolver_config_with, (doh, system), tried),
        call_ensures(resolver_config_with, (doh, system), r),
    ensures
        doh is None ==> tried is Some,
        doh is Some ==> (tried is Some <==> forall|i: int|
            0 <= i < doh->0.ca_certs_der@.len() ==> trust_anchor(
                (#[trigger] doh->0.ca_certs_der@[i])@,
            ) is Some),
        tried is Some ==> {
            &&& name_servers((tried->0).0) == name_servers(r.0)
            &&& lookup_strategy((tried->0).1) == lookup_strategy(r.1)
            &&& settings_of((tried->0).1) == settings_of(r.1)
            &&& options_trust((tried->0).1) == options_trust(r.1)
            &&& options_handshake((tried->0).1) == options_handshake(r.1)
            &&& local_domain((tried->0).0) is None
            &&& search_domains((tried->0).0).len() == 0
        },
{
    if let Some(config) = doh {
        let certs = config.ca_certs_der;
        let ders = crate::pem::bytes_of(certs@);
        assert forall|i: int| 0 <= i < certs@.len() implies ders[i] == (#[trigger] certs@[i])@ by {}
        if tried is Some {
            assert forall|i: int| 0 <= i < certs@.len() implies trust_anchor(
                (#[trigger] certs@[i])@,
            ) is Some by {
                assert(trust_anchor(ders[i]) is Some);
            }
        }
        if forall|i: int| 0 <= i < certs@.len() ==> trust_anchor((#[trigger] certs@[i])@) is Some {
            assert forall|i: int| 0 <= i < ders.len() implies trust_anchor(
                #[trigger] ders[i],
            ) is Some by {
                assert(trust_anchor(certs@[i]@) is Some);
            }
        }
    }
}

/// Installing a configuration puts it in place of whatever was there. Where there
/// is none to install, what is in place stays, and the reason is handed on.
pub proof fn law_installing_replaces(
    current: &mut Option<Arc<DohServerConfig>>,
    outcome: Result<DohServerConfig, DnsError>,
    r: Result<(), DnsError>,
)
    requires
        call_ensures(init_doh, (current, outcome), r),
    ensures
        r is Ok <==> outcome is Ok,
        outcome is Ok ==> *final(current) is Some && *((*final(current))->0) == outcome->Ok_0,
        outcome is Err ==> *final(current) == *old(current) && r->Err_0 == outcome->Err_0,
{
}

/// The legacy name servers go behind those that a configuration has: first the
/// default ones, then those of the system. Its domains stay as they are.
pub proof fn law_legacy_servers_go_behind(
    config: &mut hickory_resolver::config::ResolverConfig,
    system: Option<&hickory_resolver::config::ResolverConfig>,
    default: hickory_resolver::config::ResolverConfig,
)
    requires
        call_ensures(get_default_resolver_config, (), default),
        call_ensures(append_legacy_name_servers, (config, system), ()),
    ensures
        ({
            let before = name_servers(*old(config));
            let after = name_servers(*final(config));
            let n = before.len() as int;
            let known = if system is Some {
                name_servers(*system->0)
            } else {
                Seq::empty()
            };
            &&& after.len() == n + 2 + known.len()
            &&& after.take(n) == before
            &&& after.subrange(n, n + 2) == name_servers(default)
            &&& after.skip(n + 2) == known
            &&& local_domain(*final(config)) == local_domain(*old(config))
            &&& search_domains(*final(config)) == search_domains(*old(config))
        }),
{
    let before = name_servers(*old(config));
    let after = name_servers(*final(config));
    let n = before.len() as int;
    let known = if system is Some {
        name_servers(*system->0)
    } else {
        Seq::empty()
    };
    assert(after.take(n) == before);
    assert(after.subrange(n, n + 2) == name_servers(default));
    assert(after.skip(n + 2) == known);
}

/// A copy of settings says the same.
pub proof fn law_settings_are_copied(settings: DohSettings, copy: DohSettings)
    requires
        call_ensures(DohSettings::clone, (&settings,), copy),
    ensures
        copy.url@ == settings.url@,
        copy.bootstrap_ip == settings.bootstrap_ip,
        copy.only == settings.only,
        copy.tls_name is Some <==> settings.tls_name is Some,
        copy.tls_name is Some ==> copy.tls_name->0@ == settings.tls_name->0@,
        copy.ca_cert_path is Some <==> settings.ca_cert_path is Some,
        copy.ca_cert_path is Some ==> copy.ca_cert_path->0@ == settings.ca_cert_path->0@,
{
}

/// The parts of a url are those that the url has. The known port is the one that
/// it names, or else that of its scheme.
pub proof fn law_url_has_its_parts(url: &url::Url, parts: UrlParts)
    requires
        call_ensures(url_parts, (url,), parts),
    ensures
        parts.scheme@ == url_scheme(*url),
        parts.path@ == url_path(*url),
        parts.port == url_port(*url),
        parts.host is Some <==> url_host(*url) is Some,
        parts.host is Some ==> same_host(parts.host->0, url_host(*url)->0),
        parts.query is Some <==> url_query(*url) is Some,
        parts.query is Some ==> parts.query->0@ == url_query(*url)->0,
        url_port(*url) is Some ==> parts.known_port == url_port(*url),
        url_port(*url) is None ==> parts.known_port == default_port(url_scheme(*url)),
{
}

/// The DoH configuration that is in place is the one that was put there.
pub proof fn law_current_config_is_in_place(
    current: Option<Arc<DohServerConfig>>,
    r: Option<Arc<DohServerConfig>>,
)
    requires
        call_ensures(current_doh, (&current,), r),
    ensures
        r is Some <==> current is Some,
        r is Some ==> r->0 == current->0,
{
}

} // verus!
