//! The configuration of the resolvers.

use vstd::prelude::*;

use crate::doh::{DohServerConfig, DohServerConfigView};
use crate::name_servers::{
    add_name_server, append_legacy_name_servers, are_default_options, clone_name_server,
    default_name_servers, default_options, default_settings, lookup_strategy, name_servers,
    names_no_domains, new_resolver_config, options_handshake, options_trust, set_ip_strategy,
    set_tls_config, settings, with_strategy, with_tls_config, LookupIpStrategy, NameServer,
};
use crate::tls::{
    are_certificates, client_trust, handshake, safe_handshake, trusted_by, TrustAnchor,
};

verus! {

/// What an optional DoH configuration says.
pub open spec fn doh_view(doh: Option<&DohServerConfig>) -> Option<DohServerConfigView> {
    match doh {
        Some(doh) => Some(doh@),
        None => None,
    }
}

/// Whether plaintext DNS is forbidden.
pub open spec fn plaintext_forbidden(doh: Option<DohServerConfigView>) -> bool {
    doh is Some && doh->0.only
}

/// The name servers of the system, where its configuration is known.
pub open spec fn system_servers(
    system: Option<
        (hickory_resolver::config::ResolverConfig, hickory_resolver::config::ResolverOpts),
    >,
) -> Seq<NameServer> {
    match system {
        Some((config, _)) => name_servers(config),
        None => Seq::empty(),
    }
}

/// The name servers of a resolver: the DoH server first, and then, unless
/// plaintext DNS is forbidden, the default ones and those of the system.
pub open spec fn resolver_servers(
    doh: Option<DohServerConfigView>,
    system: Seq<NameServer>,
) -> Seq<NameServer> {
    let first = match doh {
        Some(doh) => seq![doh.name_server],
        None => Seq::empty(),
    };
    if plaintext_forbidden(doh) {
        first
    } else {
        first + default_name_servers() + system
    }
}

/// Whether what an optional DoH configuration holds as certificates are
/// certificates.
pub open spec fn trustable(doh: Option<&DohServerConfig>) -> bool {
    match doh {
        Some(doh) => doh@.validated(),
        None => true,
    }
}

/// Whether options are the given ones, with both kinds of addresses looked up
/// and, where there is a DoH server, a TLS configuration that trusts its CAs.
pub open spec fn options_for(
    base: hickory_resolver::config::ResolverOpts,
    doh: Option<&DohServerConfig>,
    options: hickory_resolver::config::ResolverOpts,
) -> bool {
    match doh {
        None => options == with_strategy(base, LookupIpStrategy::Ipv4AndIpv6),
        Some(doh) => exists|config: rustls::ClientConfig|
            trusted_by(config) == client_trust(doh@.ca_certs_der) && handshake(config)
                == safe_handshake() && options == with_strategy(
                #[trigger] with_tls_config(base, config),
                LookupIpStrategy::Ipv4AndIpv6,
            ),
    }
}

/// Adapts the options of a resolver to a DoH server, and lets it look up both
/// kinds of addresses.
pub fn resolver_options(
    base: hickory_resolver::config::ResolverOpts,
    doh: Option<&DohServerConfig>,
) -> (options: hickory_resolver::config::ResolverOpts)
    requires
        trustable(doh),
    ensures
        options_for(base, doh, options),
        lookup_strategy(options) == LookupIpStrategy::Ipv4AndIpv6,
        settings(options) == settings(base),
        match doh {
            Some(doh) => {
                &&& options_trust(options) == client_trust(doh@.ca_certs_der)
                &&& options_handshake(options) == safe_handshake()
            },
            None => {
                &&& options_trust(options) == options_trust(base)
                &&& options_handshake(options) == options_handshake(base)
            },
        },
{
    let mut options = base;
    if let Some(doh) = doh {
        let config = doh.tls_client_config();
        set_tls_config(&mut options, config);
    }
    set_ip_strategy(&mut options, LookupIpStrategy::Ipv4AndIpv6);
    options
}

/// Whether a configuration and options are those of a resolver that asks the
/// servers it should, and takes each name as it is: with the options of the
/// system, where they are known, or else with default ones, and with a TLS
/// configuration that trusts whom the DoH server needs, where there is one.
pub open spec fn resolver_for(
    doh: Option<&DohServerConfig>,
    system: Option<
        (hickory_resolver::config::ResolverConfig, hickory_resolver::config::ResolverOpts),
    >,
    config: hickory_resolver::config::ResolverConfig,
    options: hickory_resolver::config::ResolverOpts,
) -> bool {
    &&& name_servers(config) == resolver_servers(doh_view(doh), system_servers(system))
    &&& names_no_domains(config)
    &&& match system {
        Some((_, base)) => options_for(base, doh, options) && settings(options) == settings(base),
        None => settings(options) == default_settings() && exists|
            base: hickory_resolver::config::ResolverOpts,
        |
            are_default_options(base) && #[trigger] options_for(base, doh, options),
    }
    &&& lookup_strategy(options) == LookupIpStrategy::Ipv4AndIpv6
    &&& match (doh, system) {
        (Some(doh), _) => {
            &&& options_trust(options) == client_trust(doh@.ca_certs_der)
            &&& options_handshake(options) == safe_handshake()
        },
        (None, Some((_, base))) => {
            &&& options_trust(options) == options_trust(base)
            &&& options_handshake(options) == options_handshake(base)
        },
        (None, None) => {
            &&& options_trust(options) == Seq::<TrustAnchor>::empty()
            &&& options_handshake(options) == safe_handshake()
        },
    }
}

/// The configuration and the options of a resolver. `system` is what the
/// system configuration says, where it can be read.
pub fn resolver_config_with(
    doh: Option<&DohServerConfig>,
    system: Option<
        (hickory_resolver::config::ResolverConfig, hickory_resolver::config::ResolverOpts),
    >,
) -> (r: (hickory_resolver::config::ResolverConfig, hickory_resolver::config::ResolverOpts))
    requires
        trustable(doh),
    ensures
        resolver_for(doh, system, r.0, r.1),
{
    let mut config = new_resolver_config();
    let mut doh_only: bool = false;
    if let Some(doh) = doh {
        add_name_server(&mut config, clone_name_server(&doh.name_server));
        doh_only = doh.only;
    }
    let base = match system {
        Some((system_config, options)) => {
            if !doh_only {
                append_legacy_name_servers(&mut config, Some(&system_config));
            }
            options
        },
        None => {
            if !doh_only {
                append_legacy_name_servers(&mut config, None);
            }
            default_options()
        },
    };
    assert(name_servers(config) == resolver_servers(doh_view(doh), system_servers(system)));
    (config, resolver_options(base, doh))
}

/// The configuration and the options of a resolver, unless something that the
/// DoH configuration holds as a certificate is none.
pub fn try_resolver_config_with(
    doh: Option<&DohServerConfig>,
    system: Option<
        (hickory_resolver::config::ResolverConfig, hickory_resolver::config::ResolverOpts),
    >,
) -> (r: Option<
    (hickory_resolver::config::ResolverConfig, hickory_resolver::config::ResolverOpts),
>)
    ensures
        r is Some <==> trustable(doh),
        r matches Some((config, options)) ==> resolver_for(doh, system, config, options),
{
    if let Some(config) = doh {
        if !are_certificates(&config.ca_certs_der) {
            return None;
        }
    }
    Some(resolver_config_with(doh, system))
}

} // verus!
