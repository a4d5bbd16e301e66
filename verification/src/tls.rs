//! Whom a TLS client trusts.

use vstd::prelude::*;

use crate::pem::bytes_of;

verus! {

#[verifier::external_type_specification]
#[verifier::external_body]
pub struct ExRootCertStore(rustls::RootCertStore);

#[verifier::external_type_specification]
#[verifier::external_body]
pub struct ExClientConfig(rustls::ClientConfig);

#[verifier::external_type_specification]
#[verifier::external_body]
pub struct ExTlsError(rustls::Error);

/// What a TLS client keeps of a CA that it trusts, each part as DER.
pub struct TrustAnchor {
    pub subject: Seq<u8>,
    pub subject_public_key_info: Seq<u8>,
    pub name_constraints: Option<Seq<u8>>,
}

/// The CAs in a store, in order.
pub uninterp spec fn trust_anchors(store: rustls::RootCertStore) -> Seq<TrustAnchor>;

/// What a TLS client keeps of a DER-encoded certificate to trust it as that of
/// a CA, where the bytes are a certificate. Whether the certificate itself says
/// that it is of a CA is not looked at.
pub uninterp spec fn trust_anchor(der: Seq<u8>) -> Option<TrustAnchor>;

/// A list of CAs with those that Mozilla trusts for web servers behind them.
pub uninterp spec fn with_server_roots(anchors: Seq<TrustAnchor>) -> Seq<TrustAnchor>;

/// The CAs that a TLS client trusts.
pub uninterp spec fn trusted_by(config: rustls::ClientConfig) -> Seq<TrustAnchor>;

/// How a TLS client shakes hands.
#[verifier::ext_equal]
pub struct Handshake {
    pub tls12: bool,
    pub tls13: bool,
    /// Whether the client has a certificate of its own to show.
    pub client_certificate: bool,
    /// Whether the client tells the server which name it is after.
    pub server_name: bool,
    /// The application protocols that the client offers.
    pub alpn_protocols: Seq<Seq<u8>>,
}

/// How the client of a configuration shakes hands.
pub uninterp spec fn handshake(config: rustls::ClientConfig) -> Handshake;

/// The handshake of a client that speaks TLS 1.2 and 1.3, shows no certificate
/// and leaves the application protocol open.
pub open spec fn safe_handshake() -> Handshake {
    Handshake {
        tls12: true,
        tls13: true,
        client_certificate: false,
        server_name: true,
        alpn_protocols: Seq::empty(),
    }
}

/// `RootCertStore::empty` gives a store without CAs.
#[verifier::external_body]
fn empty_store() -> (store: rustls::RootCertStore)
    ensures
        trust_anchors(store) == Seq::<TrustAnchor>::empty(),
{
    rustls::RootCertStore::empty()
}

/// `RootCertStore::add` puts what is kept of a certificate at the end of the
/// store. It fails, and leaves the store as it is, where the bytes are no
/// certificate.
#[verifier::external_body]
fn add_certificate(store: &mut rustls::RootCertStore, der: &Vec<u8>) -> (r: Result<
    (),
    rustls::Error,
>)
    ensures
        match trust_anchor(der@) {
            Some(anchor) => r is Ok && trust_anchors(*final(store)) == trust_anchors(
                *old(store),
            ).push(anchor),
            None => r is Err && trust_anchors(*final(store)) == trust_anchors(*old(store)),
        },
{
    store.add(rustls::pki_types::CertificateDer::from(der.clone()))
}

/// `RootCertStore::extend` with the `TLS_SERVER_ROOTS` of `webpki_roots` puts
/// the CAs that Mozilla trusts for web servers at the end of the store. Which
/// CAs these are is not stated; there are some.
#[verifier::external_body]
fn add_server_roots(store: &mut rustls::RootCertStore)
    ensures
        trust_anchors(*final(store)) == with_server_roots(trust_anchors(*old(store))),
        trust_anchors(*old(store)).is_prefix_of(trust_anchors(*final(store))),
        trust_anchors(*old(store)).len() < trust_anchors(*final(store)).len(),
{
    store.extend(webpki_roots::TLS_SERVER_ROOTS.iter().cloned())
}

/// `ClientConfig::builder_with_provider`, with the `ring` provider, the safe
/// default protocol versions and no client certificate, gives the
/// configuration of a client that trusts the CAs of a store. The provider
/// supports those versions, which are TLS 1.2 and 1.3. The ciphers, and how
/// sessions are resumed, are not stated.
#[verifier::external_body]
fn client_config(store: rustls::RootCertStore) -> (config: rustls::ClientConfig)
    ensures
        trusted_by(config) == trust_anchors(store),
        handshake(config) == safe_handshake(),
{
    let provider = std::sync::Arc::new(rustls::crypto::ring::default_provider());
    rustls::ClientConfig::builder_with_provider(provider)
        .with_safe_default_protocol_versions()
        .expect("rustls supports the default protocol versions")
        .with_root_certificates(store)
        .with_no_client_auth()
}

/// Whether each of a list of byte strings is a certificate.
pub open spec fn all_certificates(certs: Seq<Seq<u8>>) -> bool {
    forall|i: int| 0 <= i < certs.len() ==> trust_anchor(#[trigger] certs[i]) is Some
}

/// What is kept of each of a list of certificates to trust it.
pub open spec fn anchors_of(certs: Seq<Seq<u8>>) -> Seq<TrustAnchor> {
    certs.map_values(|cert: Seq<u8>| trust_anchor(cert)->0)
}

/// The CAs that a client trusts: those of the given certificates, or else
/// those that Mozilla trusts for web servers.
pub open spec fn client_trust(certs: Seq<Seq<u8>>) -> Seq<TrustAnchor> {
    if certs.len() == 0 {
        with_server_roots(Seq::empty())
    } else {
        anchors_of(certs)
    }
}

/// Puts a list of certificates into a store, up to the first that is none, and
/// tells whether all of them were certificates.
fn add_certificates(store: &mut rustls::RootCertStore, certs: &Vec<Vec<u8>>) -> (all: bool)
    ensures
        all == all_certificates(bytes_of(certs@)),
        all ==> trust_anchors(*final(store)) == trust_anchors(*old(store)) + anchors_of(
            bytes_of(certs@),
        ),
{
    let ghost ders = bytes_of(certs@);
    let ghost anchors = anchors_of(ders);
    let mut i: usize = 0;
    assert(trust_anchors(*store) == trust_anchors(*old(store)) + anchors.take(0));
    while i < certs.len()
        invariant
            i <= certs.len(),
            ders == bytes_of(certs@),
            anchors == anchors_of(ders),
            trust_anchors(*store) == trust_anchors(*old(store)) + anchors.take(i as int),
            forall|j: int| 0 <= j < i ==> trust_anchor(#[trigger] ders[j]) is Some,
        decreases certs.len() - i,
    {
        assert(ders[i as int] == certs@[i as int]@);
        if add_certificate(store, &certs[i]).is_err() {
            return false;
        }
        i = i + 1;
        assert(anchors.take(i as int) == anchors.take(i - 1).push(anchors[i - 1]));
        assert(trust_anchors(*store) == trust_anchors(*old(store)) + anchors.take(i as int));
    }
    assert(anchors.take(i as int) == anchors);
    true
}

/// Tells whether each of a list of byte strings is a certificate.
pub fn are_certificates(certs: &Vec<Vec<u8>>) -> (r: bool)
    ensures
        r == all_certificates(bytes_of(certs@)),
{
    let mut store = empty_store();
    add_certificates(&mut store, certs)
}

/// The TLS configuration of a client that trusts the given certificates as those
/// of CAs, or, where there are none, the CAs that Mozilla trusts for web servers.
pub fn config_trusting(certs: &Vec<Vec<u8>>) -> (config: rustls::ClientConfig)
    requires
        all_certificates(bytes_of(certs@)),
    ensures
        trusted_by(config) == client_trust(bytes_of(certs@)),
        trusted_by(config).len() > 0,
        handshake(config) == safe_handshake(),
{
    let mut roots = empty_store();
    if certs.len() == 0 {
        add_server_roots(&mut roots);
    } else {
        let all = add_certificates(&mut roots, certs);
        assert(trust_anchors(roots) == client_trust(bytes_of(certs@)));
    }
    client_config(roots)
}

} // verus!
