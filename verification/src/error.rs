//! What can go wrong, and how it is told.

use vstd::prelude::*;

use crate::text::{joined, text_of};

verus! {

/// The ways in which a lookup or a configuration can fail.
#[derive(Clone, Copy, Debug, PartialEq, Eq, Structural)]
pub enum DnsErrorKind {
    /// The DoH endpoint is no url.
    InvalidDohUrl,
    /// The DoH endpoint has another scheme than https.
    DohUrlNotHttps,
    /// The DoH endpoint has a query string.
    DohUrlHasQuery,
    /// The DoH endpoint has no host.
    DohUrlWithoutHost,
    /// The DoH server is named by a domain, which may not be looked up in
    /// plaintext.
    DohOnlyWithoutBootstrap,
    /// The DoH server is named by a domain, and no address for it is known.
    DohWithoutBootstrap,
    /// The lookup of the DoH server's own domain failed.
    BootstrapLookupFailed,
    /// The lookup of the DoH server's own domain found no address.
    BootstrapLookupEmpty,
    /// The file with the CA certificates cannot be read.
    CaFileUnreadable,
    /// A PEM end marker stands without a start marker.
    PemEndWithoutStart,
    /// The body of a PEM certificate is not base64.
    PemBodyNotBase64,
    /// A PEM file holds no certificate.
    PemWithoutCertificates,
    /// What a PEM file holds as a certificate is none.
    CaNotCertificate,
    /// The DoH lookup failed, and plaintext DNS is forbidden.
    DohOnlyLookupFailed,
    /// A lookup that may not use the system resolver came to need it.
    SystemResolverDisabled,
    /// A url has no host, or no port can be found for it.
    InvalidUrl,
    /// A lookup through the DoH resolver failed.
    DohLookupFailed,
    /// A lookup through the process-wide resolver failed.
    ResolverLookupFailed,
    /// A lookup through a resolver bound to a socket context failed.
    ContextualLookupFailed,
    /// A lookup through the system resolver failed.
    SystemLookupFailed,
    /// A lookup ran out of time, and no source was left.
    LookupTimedOut,
    /// A lookup of TXT records failed.
    TxtLookupFailed,
    /// A domain has no TXT record.
    TxtRecordMissing,
    /// A TXT record holds no text.
    TxtRecordEmpty,
    /// A lookup needs a resolver that can bind its sockets.
    NeedsResolver,
    /// TXT records cannot be looked up.
    TxtUnsupported,
    /// SRV records cannot be looked up.
    SrvUnsupported,
}

/// A failure.
#[derive(Debug)]
pub struct DnsError {
    pub kind: DnsErrorKind,
    /// What the failure is about: a url, a domain, a host or a path, or what
    /// the system said. Empty where the kind says it all.
    pub subject: String,
    /// What led to the failure, in the words of who failed first.
    pub cause: Option<String>,
}

/// What a [`DnsError`] tells.
#[verifier::ext_equal]
pub struct DnsErrorView {
    pub kind: DnsErrorKind,
    pub subject: Seq<char>,
    pub cause: Option<Seq<char>>,
}

impl View for DnsError {
    type V = DnsErrorView;

    open spec fn view(&self) -> DnsErrorView {
        DnsErrorView { kind: self.kind, subject: self.subject@, cause: text_of(self.cause) }
    }
}

/// The words of a message before what the failure is about.
pub open spec fn message_head(kind: DnsErrorKind) -> Seq<char> {
    match kind {
        DnsErrorKind::InvalidDohUrl => "invalid DoH url: "@,
        DnsErrorKind::DohUrlNotHttps => "DoH url must use the https scheme: "@,
        DnsErrorKind::DohUrlHasQuery => "DoH url must not contain a query string: "@,
        DnsErrorKind::DohUrlWithoutHost => "DoH url has no host: "@,
        DnsErrorKind::DohOnlyWithoutBootstrap =>
            "doh_only requires a bootstrap ip when the DoH url host is a domain ("@,
        DnsErrorKind::DohWithoutBootstrap => "DoH url host is a domain ("@,
        DnsErrorKind::BootstrapLookupFailed =>
            "failed to bootstrap resolve DoH server domain: "@,
        DnsErrorKind::BootstrapLookupEmpty => "DoH server domain resolved to no addresses: "@,
        DnsErrorKind::CaFileUnreadable => "failed to read DoH CA cert file: "@,
        DnsErrorKind::PemEndWithoutStart => "malformed PEM in "@,
        DnsErrorKind::PemBodyNotBase64 => "malformed base64 in PEM file "@,
        DnsErrorKind::PemWithoutCertificates => "no PEM certificates found in "@,
        DnsErrorKind::CaNotCertificate => "invalid certificate in PEM file "@,
        DnsErrorKind::DohOnlyLookupFailed =>
            "DoH lookup failed and plaintext DNS is disabled (doh_only)"@,
        DnsErrorKind::SystemResolverDisabled => "system resolver is disabled for this lookup"@,
        DnsErrorKind::InvalidUrl => "invalid url: "@,
        DnsErrorKind::DohLookupFailed => "DoH lookup_ip failed, host: "@,
        DnsErrorKind::ResolverLookupFailed => "hickory dns lookup_ip failed, host: "@,
        DnsErrorKind::ContextualLookupFailed => "contextual hickory lookup_ip failed, host: "@,
        DnsErrorKind::SystemLookupFailed => ""@,
        DnsErrorKind::LookupTimedOut => "dns lookup timed out, host: "@,
        DnsErrorKind::TxtLookupFailed => "txt_lookup failed, domain_name: "@,
        DnsErrorKind::TxtRecordMissing => "no txt record found, domain_name: "@,
        DnsErrorKind::TxtRecordEmpty => "empty txt record, domain_name: "@,
        DnsErrorKind::NeedsResolver =>
            "socket-marked or VPN-protected DNS requires DNS resolver support"@,
        DnsErrorKind::TxtUnsupported => "this build does not include TXT DNS resolution"@,
        DnsErrorKind::SrvUnsupported => "this build does not include SRV DNS resolution"@,
    }
}

/// The words of a message after what the failure is about.
pub open spec fn message_tail(kind: DnsErrorKind) -> Seq<char> {
    match kind {
        DnsErrorKind::DohOnlyWithoutBootstrap => ")"@,
        DnsErrorKind::DohWithoutBootstrap => "), a bootstrap ip is required"@,
        DnsErrorKind::PemEndWithoutStart => ": end marker without start marker"@,
        _ => ""@,
    }
}

/// The words that a message starts with.
fn head_of(kind: DnsErrorKind) -> (head: &'static str)
    ensures
        head@ == message_head(kind),
{
    match kind {
        DnsErrorKind::InvalidDohUrl => "invalid DoH url: ",
        DnsErrorKind::DohUrlNotHttps => "DoH url must use the https scheme: ",
        DnsErrorKind::DohUrlHasQuery => "DoH url must not contain a query string: ",
        DnsErrorKind::DohUrlWithoutHost => "DoH url has no host: ",
        DnsErrorKind::DohOnlyWithoutBootstrap =>
            "doh_only requires a bootstrap ip when the DoH url host is a domain (",
        DnsErrorKind::DohWithoutBootstrap => "DoH url host is a domain (",
        DnsErrorKind::BootstrapLookupFailed => "failed to bootstrap resolve DoH server domain: ",
        DnsErrorKind::BootstrapLookupEmpty => "DoH server domain resolved to no addresses: ",
        DnsErrorKind::CaFileUnreadable => "failed to read DoH CA cert file: ",
        DnsErrorKind::PemEndWithoutStart => "malformed PEM in ",
        DnsErrorKind::PemBodyNotBase64 => "malformed base64 in PEM file ",
        DnsErrorKind::PemWithoutCertificates => "no PEM certificates found in ",
        DnsErrorKind::CaNotCertificate => "invalid certificate in PEM file ",
        DnsErrorKind::DohOnlyLookupFailed =>
            "DoH lookup failed and plaintext DNS is disabled (doh_only)",
        DnsErrorKind::SystemResolverDisabled => "system resolver is disabled for this lookup",
        DnsErrorKind::InvalidUrl => "invalid url: ",
        DnsErrorKind::DohLookupFailed => "DoH lookup_ip failed, host: ",
        DnsErrorKind::ResolverLookupFailed => "hickory dns lookup_ip failed, host: ",
        DnsErrorKind::ContextualLookupFailed => "contextual hickory lookup_ip failed, host: ",
        DnsErrorKind::SystemLookupFailed => "",
        DnsErrorKind::LookupTimedOut => "dns lookup timed out, host: ",
        DnsErrorKind::TxtLookupFailed => "txt_lookup failed, domain_name: ",
        DnsErrorKind::TxtRecordMissing => "no txt record found, domain_name: ",
        DnsErrorKind::TxtRecordEmpty => "empty txt record, domain_name: ",
        DnsErrorKind::NeedsResolver =>
            "socket-marked or VPN-protected DNS requires DNS resolver support",
        DnsErrorKind::TxtUnsupported => "this build does not include TXT DNS resolution",
        DnsErrorKind::SrvUnsupported => "this build does not include SRV DNS resolution",
    }
}

/// The words that a message ends with.
fn tail_of(kind: DnsErrorKind) -> (tail: &'static str)
    ensures
        tail@ == message_tail(kind),
{
    match kind {
        DnsErrorKind::DohOnlyWithoutBootstrap => ")",
        DnsErrorKind::DohWithoutBootstrap => "), a bootstrap ip is required",
        DnsErrorKind::PemEndWithoutStart => ": end marker without start marker",
        _ => "",
    }
}

/// An error about `subject`, with nothing else behind it.
pub open spec fn failure(kind: DnsErrorKind, subject: Seq<char>) -> DnsErrorView {
    DnsErrorView { kind, subject, cause: None }
}

/// An error about `subject`, and what led to it.
pub open spec fn failure_because(
    kind: DnsErrorKind,
    subject: Seq<char>,
    cause: Seq<char>,
) -> DnsErrorView {
    DnsErrorView { kind, subject, cause: Some(cause) }
}

impl DnsError {
    pub fn new(kind: DnsErrorKind, subject: &str) -> (error: DnsError)
        ensures
            error@ == failure(kind, subject@),
    {
        DnsError { kind, subject: subject.to_owned(), cause: None }
    }

    pub fn because(kind: DnsErrorKind, subject: &str, cause: String) -> (error: DnsError)
        ensures
            error@ == failure_because(kind, subject@, cause@),
    {
        DnsError { kind, subject: subject.to_owned(), cause: Some(cause) }
    }

    /// The failure in words, without what led to it.
    pub fn message(&self) -> (text: String)
        ensures
            text@ == message_head(self.kind) + self.subject@ + message_tail(self.kind),
    {
        joined(head_of(self.kind), self.subject.as_str(), tail_of(self.kind))
    }
}

} // verus!
