//! The name servers that a resolver asks, held in the configuration types of
//! `hickory_resolver`.

use vstd::prelude::*;

use crate::addr::{socket_addr, IpAddr, SocketAddr};
use crate::context::Wait;
use crate::tls::{handshake, safe_handshake, trusted_by, Handshake, TrustAnchor};

verus! {

#[verifier::external_type_specification]
#[verifier::external_body]
pub struct ExResolverConfig(hickory_resolver::config::ResolverConfig);

#[verifier::external_type_specification]
#[verifier::external_body]
pub struct ExNameServerConfig(hickory_resolver::config::NameServerConfig);

#[verifier::external_type_specification]
#[verifier::external_body]
pub struct ExResolverOpts(hickory_resolver::config::ResolverOpts);

/// How a name server is spoken to.
#[derive(Clone, Copy, Debug, PartialEq, Eq, Structural)]
pub enum Protocol {
    Udp,
    Tcp,
    Tls,
    Https,
}

/// Which addresses a lookup asks for.
#[derive(Clone, Copy, Debug, PartialEq, Eq, Structural)]
pub enum LookupIpStrategy {
    Ipv4Only,
    Ipv6Only,
    Ipv4AndIpv6,
    Ipv6thenIpv4,
    Ipv4thenIpv6,
}

/// What the configuration of a name server says.
#[verifier::ext_equal]
pub struct NameServer {
    pub socket_addr: SocketAddr,
    pub protocol: Protocol,
    pub tls_dns_name: Option<Seq<char>>,
    pub http_endpoint: Option<Seq<char>>,
    pub trust_negative_responses: bool,
    pub bind_addr: Option<SocketAddr>,
}

/// What the configuration of a name server says.
pub uninterp spec fn name_server(config: hickory_resolver::config::NameServerConfig) -> NameServer;

/// The name servers of a resolver's configuration, in order.
pub uninterp spec fn name_servers(config: hickory_resolver::config::ResolverConfig) -> Seq<
    NameServer,
>;

/// The domain that a resolver's configuration counts itself to.
pub uninterp spec fn local_domain(config: hickory_resolver::config::ResolverConfig) -> Option<
    Seq<char>,
>;

/// The domains in which a resolver's configuration looks for a host whose name
/// is not complete, in order.
pub uninterp spec fn search_domains(config: hickory_resolver::config::ResolverConfig) -> Seq<
    Seq<char>,
>;

/// Whether a resolver takes each name as it is: its configuration names no
/// domain of its own, and none to search.
pub open spec fn names_no_domains(config: hickory_resolver::config::ResolverConfig) -> bool {
    local_domain(config) is None && search_domains(config) == Seq::<Seq<char>>::empty()
}

/// Whether two configurations name the same domains.
pub open spec fn same_domains(
    a: hickory_resolver::config::ResolverConfig,
    b: hickory_resolver::config::ResolverConfig,
) -> bool {
    local_domain(a) == local_domain(b) && search_domains(a) == search_domains(b)
}

/// A name server at an address, with nothing else said.
pub open spec fn plain_name_server(socket_addr: SocketAddr, protocol: Protocol) -> NameServer {
    NameServer {
        socket_addr,
        protocol,
        tls_dns_name: None,
        http_endpoint: None,
        trust_negative_responses: true,
        bind_addr: None,
    }
}

/// `NameServerConfig::new` gives the configuration of a name server at an
/// address and port, with neither a TLS name nor an http path nor an address
/// to bind to, whose negative responses are trusted.
#[verifier::external_body]
pub(crate) fn new_name_server(
    ip: IpAddr,
    port: u16,
    protocol: Protocol,
) -> (config: hickory_resolver::config::NameServerConfig)
    ensures
        name_server(config) == plain_name_server(socket_addr(ip, port), protocol),
{
    let addr = match ip {
        IpAddr::V4(ip) => (ip.to_be_bytes(), port).into(),
        IpAddr::V6(ip) => (ip.to_be_bytes(), port).into(),
    };
    let protocol = match protocol {
        Protocol::Udp => hickory_proto::xfer::Protocol::Udp,
        Protocol::Tcp => hickory_proto::xfer::Protocol::Tcp,
        Protocol::Tls => hickory_proto::xfer::Protocol::Tls,
        Protocol::Https => hickory_proto::xfer::Protocol::Https,
    };
    hickory_resolver::config::NameServerConfig::new(addr, protocol)
}

/// Sets the field `tls_dns_name` of a `NameServerConfig`.
#[verifier::external_body]
pub(crate) fn set_tls_dns_name(
    config: &mut hickory_resolver::config::NameServerConfig,
    name: String,
)
    ensures
        name_server(*final(config)) == (NameServer {
            tls_dns_name: Some(name@),
            ..name_server(*old(config))
        }),
{
    config.tls_dns_name = Some(name);
}

/// Sets the field `http_endpoint` of a `NameServerConfig`.
#[verifier::external_body]
pub(crate) fn set_http_endpoint(
    config: &mut hickory_resolver::config::NameServerConfig,
    endpoint: String,
)
    ensures
        name_server(*final(config)) == (NameServer {
            http_endpoint: Some(endpoint@),
            ..name_server(*old(config))
        }),
{
    config.http_endpoint = Some(endpoint);
}

/// `NameServerConfig::clone` gives a configuration that says the same.
#[verifier::external_body]
pub(crate) fn clone_name_server(
    config: &hickory_resolver::config::NameServerConfig,
) -> (copy: hickory_resolver::config::NameServerConfig)
    ensures
        name_server(copy) == name_server(*config),
{
    config.clone()
}

/// `ResolverConfig::new` gives a configuration without name servers or
/// domains.
#[verifier::external_body]
pub(crate) fn new_resolver_config() -> (config: hickory_resolver::config::ResolverConfig)
    ensures
        name_servers(config) == Seq::<NameServer>::empty(),
        local_domain(config) is None,
        search_domains(config) == Seq::<Seq<char>>::empty(),
{
    hickory_resolver::config::ResolverConfig::new()
}

/// `ResolverConfig::add_name_server` puts a name server behind the others, and
/// leaves the domains as they are.
#[verifier::external_body]
pub(crate) fn add_name_server(
    config: &mut hickory_resolver::config::ResolverConfig,
    server: hickory_resolver::config::NameServerConfig,
)
    ensures
        name_servers(*final(config)) == name_servers(*old(config)).push(name_server(server)),
        local_domain(*final(config)) == local_domain(*old(config)),
        search_domains(*final(config)) == search_domains(*old(config)),
{
    config.add_name_server(server)
}

/// What a list of name server configurations says.
pub open spec fn servers_of(
    servers: Seq<hickory_resolver::config::NameServerConfig>,
) -> Seq<NameServer> {
    servers.map_values(|server: hickory_resolver::config::NameServerConfig| name_server(server))
}

/// `ResolverConfig::name_servers` gives the name servers in the order in
/// which they were put in.
#[verifier::external_body]
fn list_name_servers(
    config: &hickory_resolver::config::ResolverConfig,
) -> (servers: Vec<hickory_resolver::config::NameServerConfig>)
    ensures
        servers_of(servers@) == name_servers(*config),
{
    config.name_servers().to_vec()
}

/// When a resolver looks into the hosts file of the system.
pub enum HostsFile {
    Always,
    Never,
    Auto,
}

/// The order in which a resolver asks its name servers.
pub enum ServerOrder {
    QueryStatistics,
    UserProvidedOrder,
    RoundRobin,
}

/// What the options of a resolver say, besides the lookup strategy and the TLS
/// configuration.
#[verifier::ext_equal]
pub struct ResolverSettings {
    pub ndots: usize,
    pub timeout: Wait,
    pub attempts: usize,
    pub check_names: bool,
    pub edns0: bool,
    pub validate: bool,
    pub cache_size: usize,
    pub use_hosts_file: HostsFile,
    pub positive_min_ttl: Option<Wait>,
    pub negative_min_ttl: Option<Wait>,
    pub positive_max_ttl: Option<Wait>,
    pub negative_max_ttl: Option<Wait>,
    pub num_concurrent_reqs: usize,
    pub preserve_intermediates: bool,
    pub try_tcp_on_error: bool,
    pub server_ordering_strategy: ServerOrder,
    pub recursion_desired: bool,
    pub avoid_local_udp_ports: Set<u16>,
    pub os_port_selection: bool,
    pub case_randomization: bool,
    /// Whether a file with trust anchors for DNSSEC is named.
    pub has_trust_anchor_file: bool,
}

/// What the options of a resolver say, besides the lookup strategy and the TLS
/// configuration.
pub uninterp spec fn settings(options: hickory_resolver::config::ResolverOpts) -> ResolverSettings;

/// The settings of a resolver where nothing else is said.
pub open spec fn default_settings() -> ResolverSettings {
    ResolverSettings {
        ndots: 1,
        timeout: Wait { secs: 5, nanos: 0 },
        attempts: 2,
        check_names: true,
        edns0: false,
        validate: false,
        cache_size: 32,
        use_hosts_file: HostsFile::Auto,
        positive_min_ttl: None,
        negative_min_ttl: None,
        positive_max_ttl: None,
        negative_max_ttl: None,
        num_concurrent_reqs: 2,
        preserve_intermediates: true,
        try_tcp_on_error: false,
        server_ordering_strategy: ServerOrder::QueryStatistics,
        recursion_desired: true,
        avoid_local_udp_ports: Set::empty(),
        os_port_selection: false,
        case_randomization: false,
        has_trust_anchor_file: false,
    }
}

/// Options like the given ones, but with another lookup strategy.
pub uninterp spec fn with_strategy(
    options: hickory_resolver::config::ResolverOpts,
    strategy: LookupIpStrategy,
) -> hickory_resolver::config::ResolverOpts;

/// Options like the given ones, but with another TLS configuration.
pub uninterp spec fn with_tls_config(
    options: hickory_resolver::config::ResolverOpts,
    config: rustls::ClientConfig,
) -> hickory_resolver::config::ResolverOpts;

/// The lookup strategy of options.
pub uninterp spec fn lookup_strategy(
    options: hickory_resolver::config::ResolverOpts,
) -> LookupIpStrategy;

/// The CAs that the TLS configuration of options trusts.
pub uninterp spec fn options_trust(options: hickory_resolver::config::ResolverOpts) -> Seq<
    TrustAnchor,
>;

/// How the TLS configuration of options shakes hands.
pub uninterp spec fn options_handshake(
    options: hickory_resolver::config::ResolverOpts,
) -> Handshake;

/// Whether options are those of a resolver where nothing else is said. Their
/// TLS configuration trusts nobody.
pub open spec fn are_default_options(options: hickory_resolver::config::ResolverOpts) -> bool {
    &&& settings(options) == default_settings()
    &&& lookup_strategy(options) == LookupIpStrategy::Ipv4thenIpv6
    &&& options_trust(options) == Seq::<TrustAnchor>::empty()
    &&& options_handshake(options) == safe_handshake()
}

/// Sets the field `ip_strategy` of `ResolverOpts`, and no other.
#[verifier::external_body]
pub(crate) fn set_ip_strategy(
    options: &mut hickory_resolver::config::ResolverOpts,
    strategy: LookupIpStrategy,
)
    ensures
        *final(options) == with_strategy(*old(options), strategy),
        lookup_strategy(*final(options)) == strategy,
        options_trust(*final(options)) == options_trust(*old(options)),
        options_handshake(*final(options)) == options_handshake(*old(options)),
        settings(*final(options)) == settings(*old(options)),
{
    options.ip_strategy = match strategy {
        LookupIpStrategy::Ipv4Only => hickory_resolver::config::LookupIpStrategy::Ipv4Only,
        LookupIpStrategy::Ipv6Only => hickory_resolver::config::LookupIpStrategy::Ipv6Only,
        LookupIpStrategy::Ipv4AndIpv6 => hickory_resolver::config::LookupIpStrategy::Ipv4AndIpv6,
        LookupIpStrategy::Ipv6thenIpv4 => hickory_resolver::config::LookupIpStrategy::Ipv6thenIpv4,
        LookupIpStrategy::Ipv4thenIpv6 => hickory_resolver::config::LookupIpStrategy::Ipv4thenIpv6,
    };
}

/// Sets the field `tls_config` of `ResolverOpts`, and no other.
#[verifier::external_body]
pub(crate) fn set_tls_config(
    options: &mut hickory_resolver::config::ResolverOpts,
    config: rustls::ClientConfig,
)
    ensures
        *final(options) == with_tls_config(*old(options), config),
        options_trust(*final(options)) == trusted_by(config),
        options_handshake(*final(options)) == handshake(config),
        lookup_strategy(*final(options)) == lookup_strategy(*old(options)),
        settings(*final(options)) == settings(*old(options)),
{
    options.tls_config = config;
}

/// `ResolverOpts::default` gives the default settings, and looks up IPv4
/// addresses first. Its TLS configuration shakes hands like that of
/// [`crate::tls`], and trusts nobody: `hickory_proto` puts roots into it only
/// with one of its features `webpki-roots` and `rustls-platform-verifier`, which
/// this crate does not ask for.
#[verifier::external_body]
pub(crate) fn default_options() -> (options: hickory_resolver::config::ResolverOpts)
    ensures
        settings(options) == default_settings(),
        lookup_strategy(options) == LookupIpStrategy::Ipv4thenIpv6,
        options_trust(options) == Seq::<TrustAnchor>::empty(),
        options_handshake(options) == safe_handshake(),
{
    hickory_resolver::config::ResolverOpts::default()
}

/// The name servers that are asked besides those of the system: `223.5.5.5`
/// and `180.184.1.1`, both over UDP at port 53.
pub open spec fn default_name_servers() -> Seq<NameServer> {
    seq![
        plain_name_server(SocketAddr::V4 { ip: 0xDF050505, port: 53 }, Protocol::Udp),
        plain_name_server(SocketAddr::V4 { ip: 0xB4B80101, port: 53 }, Protocol::Udp),
    ]
}

/// The configuration of a resolver that asks the two default name servers.
pub fn get_default_resolver_config() -> (config: hickory_resolver::config::ResolverConfig)
    ensures
        name_servers(config) == default_name_servers(),
        names_no_domains(config),
{
    let mut config = new_resolver_config();
    add_name_server(
        &mut config,
        new_name_server(IpAddr::V4(0xDF050505), 53, Protocol::Udp),
    );
    add_name_server(
        &mut config,
        new_name_server(IpAddr::V4(0xB4B80101), 53, Protocol::Udp),
    );
    assert(name_servers(config) == default_name_servers());
    config
}

/// Puts the name servers of one configuration behind those of another.
fn append_name_servers(
    config: &mut hickory_resolver::config::ResolverConfig,
    other: &hickory_resolver::config::ResolverConfig,
)
    ensures
        name_servers(*final(config)) == name_servers(*old(config)) + name_servers(*other),
        same_domains(*final(config), *old(config)),
{
    let servers = list_name_servers(other);
    let ghost all = servers_of(servers@);
    let mut i: usize = 0;
    assert(name_servers(*config) == name_servers(*old(config)) + all.take(0));
    while i < servers.len()
        invariant
            i <= servers.len(),
            all == servers_of(servers@),
            name_servers(*config) == name_servers(*old(config)) + all.take(i as int),
            same_domains(*config, *old(config)),
        decreases servers.len() - i,
    {
        add_name_server(config, clone_name_server(&servers[i]));
        i = i + 1;
        assert(all.take(i as int) == all.take(i - 1).push(all[i - 1]));
        assert(name_servers(*config) == name_servers(*old(config)) + all.take(i as int));
    }
    assert(all.take(i as int) == all);
}

/// The name servers of the system, where its configuration is known.
pub open spec fn system_name_servers(
    system: Option<&hickory_resolver::config::ResolverConfig>,
) -> Seq<NameServer> {
    match system {
        Some(system) => name_servers(*system),
        None => Seq::empty(),
    }
}

/// Puts the default name servers and those of the system behind the ones that
/// a configuration has.
pub fn append_legacy_name_servers(
    config: &mut hickory_resolver::config::ResolverConfig,
    system: Option<&hickory_resolver::config::ResolverConfig>,
)
    ensures
        name_servers(*final(config)) == name_servers(*old(config)) + default_name_servers()
            + system_name_servers(system),
        same_domains(*final(config), *old(config)),
{
    append_name_servers(config, &get_default_resolver_config());
    if let Some(system) = system {
        append_name_servers(config, system);
    }
    assert(name_servers(*config) == name_servers(*old(config)) + default_name_servers()
        + system_name_servers(system));
}

} // verus!
