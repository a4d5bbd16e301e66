//! What holds of the socket addresses that urls stand for, and of records.

use vstd::prelude::*;

use crate::addr::{ips_of, with_port, IpAddr, SocketAddr};
use crate::doh::DohServerConfig;
use crate::endpoint::{url_host, url_port, url_text, DohUrlHost, DohUrlHostView};
use crate::error::{DnsError, DnsErrorKind};
use crate::laws::texts::read_decimal;
use crate::lookup::{Answer, AnswerView, Exhausted, LookupFailure, Source};
use crate::records::{
    first_txt_string, lossy_text, resolve_srv, resolve_txt, resolve_txt_record, srv_port,
    srv_priority, srv_target, srv_weight, txt_data, DnsSrvRecord,
};
use crate::socket::{
    answer_addrs, resolve_target, resolve_target_system_only, socket_addrs,
    socket_addrs_with_system_resolver, socket_target, url_target, SocketAddrsLookup,
    SocketAddrsStep, SocketTarget,
};

verus! {

/// The addresses in an answer.
pub open spec fn address_at(answer: AnswerView, i: int) -> IpAddr {
    match answer {
        AnswerView::Ips(ips) => ips[i],
        AnswerView::Addrs(addrs) => match addrs[i] {
            SocketAddr::V4 { ip, .. } => IpAddr::V4(ip),
            SocketAddr::V6 { ip, .. } => IpAddr::V6(ip),
        },
    }
}

/// How many addresses an answer holds.
pub open spec fn addresses_in(answer: AnswerView) -> nat {
    match answer {
        AnswerView::Ips(ips) => ips.len(),
        AnswerView::Addrs(addrs) => addrs.len(),
    }
}

/// The socket addresses of an answer are as many as the addresses that were
/// found, each with the address found at its place, whether or not the lookup
/// went by way of DoH. They have the port that was asked for, unless they are
/// the system's own.
pub proof fn law_every_address_found_is_given(
    answer: AnswerView,
    port: u16,
    via_doh: bool,
    i: int,
)
    requires
        0 <= i < addresses_in(answer),
    ensures
        answer_addrs(answer, port, via_doh).len() == addresses_in(answer),
        ({
            let addr = answer_addrs(answer, port, via_doh)[i];
            &&& addr.ip_spec() == address_at(answer, i)
            &&& answer is Ips || via_doh ==> addr.port_spec() == port
            &&& answer is Addrs && !via_doh ==> addr == answer->Addrs_0[i]
        }),
{
}

/// Where nothing was found, there are no socket addresses.
pub proof fn law_nothing_found_gives_nothing(answer: AnswerView, port: u16, via_doh: bool)
    requires
        addresses_in(answer) == 0,
    ensures
        answer_addrs(answer, port, via_doh).len() == 0,
{
}

/// What a lookup makes of addresses: as many socket addresses, each with its
/// address and the port of the lookup, and with no flow and no scope.
pub proof fn law_found_ips_get_the_port(
    lookup: SocketAddrsLookup,
    ips: Vec<IpAddr>,
    addrs: Vec<SocketAddr>,
)
    requires
        call_ensures(SocketAddrsLookup::finish, (&lookup, Answer::Ips(ips)), addrs),
    ensures
        addrs@.len() == ips@.len(),
        forall|i: int|
            0 <= i < ips@.len() ==> (match ips@[i] {
                IpAddr::V4(ip) => #[trigger] addrs@[i] == (SocketAddr::V4 {
                    ip,
                    port: lookup.port,
                }),
                IpAddr::V6(ip) => addrs@[i] == (SocketAddr::V6 {
                    ip,
                    port: lookup.port,
                    flowinfo: 0,
                    scope_id: 0,
                }),
            }),
{
}

/// What a lookup makes of what the system found: without DoH nothing is changed;
/// by way of DoH it is as if only the addresses had been found.
pub proof fn law_system_answers_are_kept_without_doh(
    lookup: SocketAddrsLookup,
    found: Vec<SocketAddr>,
    ips: Vec<IpAddr>,
    addrs: Vec<SocketAddr>,
    of_ips: Vec<SocketAddr>,
)
    requires
        call_ensures(SocketAddrsLookup::finish, (&lookup, Answer::Addrs(found)), addrs),
        call_ensures(SocketAddrsLookup::finish, (&lookup, Answer::Ips(ips)), of_ips),
        call_ensures(ips_of, (&found,), ips),
    ensures
        !lookup.via_doh ==> addrs@ == found@,
        lookup.via_doh ==> addrs@ == of_ips@,
{
}

/// Putting a port to addresses and taking it off again gives the addresses back.
pub proof fn law_ports_come_off_again(
    ips: Vec<IpAddr>,
    port: u16,
    addrs: Vec<SocketAddr>,
    back: Vec<IpAddr>,
)
    requires
        call_ensures(with_port, (&ips, port), addrs),
        call_ensures(ips_of, (&addrs,), back),
    ensures
        back@ == ips@,
        addrs@.len() == ips@.len(),
        forall|i: int| 0 <= i < addrs@.len() ==> (#[trigger] addrs@[i]).port_spec() == port,
{
    assert forall|i: int| 0 <= i < ips@.len() implies back@[i] == ips@[i] by {
        assert(addrs@[i].ip_spec() == ips@[i]);
    }
}

/// A socket address is made of its address and its port, with no flow and no
/// scope, and gives them back.
pub proof fn law_socket_address_has_its_parts(
    ip: IpAddr,
    port: u16,
    addr: SocketAddr,
    ip_back: IpAddr,
    port_back: u16,
)
    requires
        call_ensures(SocketAddr::new, (ip, port), addr),
        call_ensures(SocketAddr::ip, (&addr,), ip_back),
        call_ensures(SocketAddr::port, (&addr,), port_back),
    ensures
        ip_back == ip,
        port_back == port,
        addr is V4 <==> ip is V4,
        addr is V6 ==> addr->flowinfo == 0 && addr->scope_id == 0,
{
}

/// The address and the port of a socket address are those in it.
pub proof fn law_socket_address_shows_its_parts(addr: SocketAddr, ip: IpAddr, port: u16)
    requires
        call_ensures(SocketAddr::ip, (&addr,), ip),
        call_ensures(SocketAddr::port, (&addr,), port),
    ensures
        addr matches SocketAddr::V4 { ip: number, port: named } ==> ip == IpAddr::V4(number) && port
            == named,
        addr matches SocketAddr::V6 { ip: number, port: named, .. } ==> ip == IpAddr::V6(number)
            && port == named,
{
}

/// A host and a port stand for the address in them, or for the host that has to
/// be looked up; without one of them, the url is refused.
pub proof fn law_target_is_what_the_url_names(
    url: &str,
    host: Option<DohUrlHost>,
    port: Option<u16>,
    r: Result<SocketTarget, DnsError>,
)
    requires
        call_ensures(socket_target, (url, host, port), r),
    ensures
        r is Ok <==> host is Some && port is Some,
        r is Err ==> r->Err_0.kind == DnsErrorKind::InvalidUrl && r->Err_0.subject@ == url@,
        r is Ok && host->0 is Ip ==> r->Ok_0 is Addr && r->Ok_0->Addr_0.ip_spec() == host->0->Ip_0
            && r->Ok_0->Addr_0.port_spec() == port->0,
        r is Ok && host->0 is Domain ==> r->Ok_0 is Name && r->Ok_0->host@ == host->0->Domain_0@
            && r->Ok_0->port == port->0,
{
}

/// An address is found without a lookup, whatever may be asked.
pub proof fn law_address_is_found_at_once(
    addr: SocketAddr,
    doh: Option<&DohServerConfig>,
    allow_system_resolver: bool,
    step: SocketAddrsStep,
    alone: SocketAddrsStep,
)
    requires
        call_ensures(
            resolve_target,
            (SocketTarget::Addr(addr), doh, allow_system_resolver),
            step,
        ),
        call_ensures(resolve_target_system_only, (SocketTarget::Addr(addr),), alone),
    ensures
        step is Done && step->Done_0@.len() == 1 && step->Done_0@[0] == addr,
        alone is Done && alone->Done_0@.len() == 1 && alone->Done_0@[0] == addr,
{
}

/// A host is looked up as it is named, with the port that is named, and with
/// DoH in play if and only if it is configured.
pub proof fn law_host_is_looked_up_as_named(
    host: String,
    port: u16,
    doh: Option<&DohServerConfig>,
    allow_system_resolver: bool,
    step: SocketAddrsStep,
)
    requires
        call_ensures(
            resolve_target,
            (SocketTarget::Name { host, port }, doh, allow_system_resolver),
            step,
        ),
    ensures
        step is Ask,
        step->Ask_0.host@ == host@,
        step->Ask_0.port == port,
        step->Ask_0.via_doh <==> doh is Some,
{
}

/// Which sources a lookup for socket addresses asks. With DoH: the DoH server
/// first, for five seconds, and then the system's, if plaintext DNS and the
/// system resolver are allowed. Without: the system's, if allowed, and then the
/// resolver of the process. Nothing but the DoH server has a limit.
pub proof fn law_socket_lookup_sources(
    host: String,
    port: u16,
    doh: Option<&DohServerConfig>,
    allow_system_resolver: bool,
    step: SocketAddrsStep,
    i: int,
)
    requires
        call_ensures(
            resolve_target,
            (SocketTarget::Name { host, port }, doh, allow_system_resolver),
            step,
        ),
        0 <= i < step->Ask_0.plan.attempts@.len(),
    ensures
        ({
            let plan = step->Ask_0.plan;
            let n = plan.attempts@.len();
            let attempt = plan.attempts@[i];
            let system_asked = allow_system_resolver && (doh is Some ==> !doh->0.only);
            &&& n == (if system_asked {
                2int
            } else {
                1
            })
            &&& !attempt.needs_slot
            &&& doh is Some ==> (attempt.source == Source::Doh <==> i == 0)
            &&& doh is Some ==> (attempt.source == Source::System <==> i == 1)
            &&& doh is None ==> (attempt.source == Source::Resolver <==> i == n - 1)
            &&& doh is None ==> (attempt.source == Source::System <==> i < n - 1)
            &&& attempt.source == Source::Doh ==> attempt.timeout_ms == Some(5000u64)
            &&& attempt.source != Source::Doh ==> attempt.timeout_ms is None
            &&& plan.exhausted == Exhausted::DohOnly <==> doh is Some && doh->0.only
            &&& plan.exhausted == Exhausted::SystemDisabled <==> doh is Some && !doh->0.only
                && !allow_system_resolver
        }),
{
}

/// A lookup for socket addresses asks somebody.
pub proof fn law_socket_lookup_asks_somebody(
    target: SocketTarget,
    doh: Option<&DohServerConfig>,
    allow_system_resolver: bool,
    step: SocketAddrsStep,
)
    requires
        call_ensures(resolve_target, (target, doh, allow_system_resolver), step),
    ensures
        step is Ask <==> target is Name,
        step is Ask ==> step->Ask_0.plan.attempts@.len() > 0,
{
}

/// Without a resolver but the system's, the system's is all that is asked, and
/// what it finds is kept.
pub proof fn law_system_alone_is_asked_once(host: String, port: u16, step: SocketAddrsStep)
    requires
        call_ensures(resolve_target_system_only, (SocketTarget::Name { host, port },), step),
    ensures
        step is Ask,
        step->Ask_0.host@ == host@,
        step->Ask_0.port == port,
        !step->Ask_0.via_doh,
        step->Ask_0.plan.attempts@.len() == 1,
        step->Ask_0.plan.attempts@[0].source == Source::System,
        step->Ask_0.plan.attempts@[0].timeout_ms is None,
        !step->Ask_0.plan.attempts@[0].needs_slot,
        step->Ask_0.plan.exhausted == Exhausted::LastFailure,
{
}

/// A url with a host stands for that host, at the port that it names, or else at
/// one that the caller gave; without a host it is refused.
pub proof fn law_url_stands_for_what_it_names<F: Fn() -> Option<u16>>(
    url: &url::Url,
    default_port_number: F,
    r: Result<SocketTarget, DnsError>,
)
    requires
        call_ensures(url_target, (url, default_port_number), r),
    ensures
        url_host(*url) is None ==> r is Err,
        url_port(*url) is Some && url_host(*url) is Some ==> r is Ok,
        r is Err ==> r->Err_0.kind == DnsErrorKind::InvalidUrl && r->Err_0.subject@ == url_text(
            *url,
        ),
        r matches Ok(SocketTarget::Addr(addr)) ==> url_host(*url) == Some(
            DohUrlHostView::Ip(addr.ip_spec()),
        ),
        r matches Ok(SocketTarget::Name { host, .. }) ==> url_host(*url) == Some(
            DohUrlHostView::Domain(host@),
        ),
        r is Ok ==> ({
            let port = match r->Ok_0 {
                SocketTarget::Addr(addr) => addr.port_spec(),
                SocketTarget::Name { port, .. } => port,
            };
            match url_port(*url) {
                Some(named) => port == named,
                None => default_port_number.ensures((), Some(port)),
            }
        }),
        r is Err && url_host(*url) is Some ==> default_port_number.ensures((), None),
{
}

/// The socket addresses of a url are found as those of what it stands for, with
/// the system resolver among the sources where it is allowed.
pub proof fn law_url_is_found_like_its_target<F: Fn() -> Option<u16>>(
    url: &url::Url,
    default_port_number: F,
    allow_system_resolver: bool,
    doh: Option<&DohServerConfig>,
    r: Result<SocketAddrsStep, DnsError>,
)
    requires
        call_ensures(
            socket_addrs_with_system_resolver,
            (url, default_port_number, allow_system_resolver, doh),
            r,
        ),
    ensures
        url_host(*url) is None ==> r is Err,
        r is Err ==> r->Err_0.kind == DnsErrorKind::InvalidUrl && r->Err_0.subject@ == url_text(
            *url,
        ),
        url_port(*url) is Some && url_host(*url) is Some ==> r is Ok,
        r matches Ok(SocketAddrsStep::Done(addrs)) ==> {
            &&& addrs@.len() == 1
            &&& url_host(*url) == Some(DohUrlHostView::Ip(addrs@[0].ip_spec()))
            &&& url_port(*url) is Some ==> addrs@[0].port_spec() == url_port(*url)->0
            &&& url_port(*url) is None ==> default_port_number.ensures(
                (),
                Some(addrs@[0].port_spec()),
            )
        },
        r matches Ok(SocketAddrsStep::Ask(lookup)) ==> {
            &&& url_host(*url) == Some(DohUrlHostView::Domain(lookup.host@))
            &&& url_port(*url) is Some ==> lookup.port == url_port(*url)->0
            &&& url_port(*url) is None ==> default_port_number.ensures((), Some(lookup.port))
            &&& lookup.via_doh <==> doh is Some
            &&& doh is Some ==> lookup.plan.attempts@[0].source == Source::Doh
            &&& !allow_system_resolver ==> forall|i: int|
                0 <= i < lookup.plan.attempts@.len() ==> (#[trigger] lookup.plan.attempts@[i]).source
                    != Source::System
            &&& allow_system_resolver && (doh is Some ==> !doh->0.only) ==> exists|i: int|
                0 <= i < lookup.plan.attempts@.len() && (#[trigger] lookup.plan.attempts@[i]).source
                    == Source::System
        },
        r is Err && url_host(*url) is Some ==> default_port_number.ensures((), None),
{
    if let Ok(SocketAddrsStep::Ask(lookup)) = r {
        if allow_system_resolver && (doh is Some ==> !doh->0.only) {
            let place = if doh is Some {
                1int
            } else {
                0int
            };
            assert(lookup.plan.attempts@[place].source == Source::System);
        }
    }
}

/// Finding the socket addresses of a url is finding them with the system resolver
/// allowed.
pub proof fn law_system_resolver_is_allowed_by_default<F: Fn() -> Option<u16>>(
    url: &url::Url,
    default_port_number: F,
    doh: Option<&DohServerConfig>,
    r: Result<SocketAddrsStep, DnsError>,
    s: Result<SocketAddrsStep, DnsError>,
)
    requires
        call_ensures(socket_addrs, (url, default_port_number, doh), r),
        call_ensures(
            socket_addrs_with_system_resolver,
            (url, default_port_number, true, doh),
            s,
        ),
        url_port(*url) is Some,
    ensures
        r is Ok <==> s is Ok,
        r matches Ok(SocketAddrsStep::Done(addrs)) ==> s is Ok && s->Ok_0 is Done
            && s->Ok_0->Done_0@ == addrs@,
        r matches Ok(SocketAddrsStep::Ask(lookup)) ==> s is Ok && s->Ok_0 is Ask
            && s->Ok_0->Ask_0.host@ == lookup.host@ && s->Ok_0->Ask_0.port == lookup.port
            && s->Ok_0->Ask_0.via_doh == lookup.via_doh && s->Ok_0->Ask_0.plan.attempts@
            == lookup.plan.attempts@ && s->Ok_0->Ask_0.plan.exhausted == lookup.plan.exhausted,
{
}

/// Where a url names no port, the one that its caller knows is used, and the
/// sources are those that the system resolver is among.
pub proof fn law_caller_knows_the_port<F: Fn() -> Option<u16>>(
    url: &url::Url,
    default_port_number: F,
    doh: Option<&DohServerConfig>,
    r: Result<SocketAddrsStep, DnsError>,
)
    requires
        call_ensures(socket_addrs, (url, default_port_number, doh), r),
        url_port(*url) is None,
    ensures
        r matches Ok(SocketAddrsStep::Done(addrs)) ==> {
            &&& addrs@.len() == 1
            &&& url_host(*url) == Some(DohUrlHostView::Ip(addrs@[0].ip_spec()))
            &&& default_port_number.ensures((), Some(addrs@[0].port_spec()))
        },
        r matches Ok(SocketAddrsStep::Ask(lookup)) ==> {
            &&& url_host(*url) == Some(DohUrlHostView::Domain(lookup.host@))
            &&& default_port_number.ensures((), Some(lookup.port))
            &&& lookup.via_doh <==> doh is Some
            &&& lookup.plan.attempts@[0].source == (if doh is Some {
                Source::Doh
            } else {
                Source::System
            })
        },
        r is Err ==> url_host(*url) is None || default_port_number.ensures((), None),
{
}

/// The system resolver is asked for the host, a colon and the port.
pub proof fn law_system_target_reads_back(lookup: SocketAddrsLookup, text: String)
    requires
        call_ensures(SocketAddrsLookup::system_target, (&lookup,), text),
    ensures
        ({
            let n = lookup.host@.len() as int;
            &&& text@.len() > n + 1
            &&& text@.take(n) == lookup.host@
            &&& text@[n] == ':'
            &&& read_decimal(text@.skip(n + 1)) == lookup.port
        }),
{
    reveal_strlit(":");
    let n = lookup.host@.len() as int;
    let digits = crate::text::decimal(lookup.port as nat);
    crate::laws::texts::law_decimal_reads_back(lookup.port as nat);
    assert(text@ == lookup.host@ + ":"@ + digits);
    assert(text@.take(n) == lookup.host@);
    assert(text@.skip(n + 1) == digits);
}

/// The failure of a lookup for socket addresses tells the host and the port,
/// where it tells a host at all.
pub proof fn law_socket_failure_tells_host_and_port(
    lookup: SocketAddrsLookup,
    host: &str,
    failure_of: LookupFailure,
    error: DnsError,
    told: DnsError,
)
    requires
        call_ensures(SocketAddrsLookup::fail, (&lookup, failure_of), error),
        call_ensures(LookupFailure::into_error, (failure_of, host), told),
    ensures
        error.kind == told.kind,
        error.cause is Some <==> told.cause is Some,
        error.cause is Some ==> error.cause->0@ == told.cause->0@,
        error.cause is Some || failure_of is TimedOut ==> {
            let n = lookup.host@.len() as int;
            &&& error.subject@.len() > n + 8
            &&& error.subject@.take(n) == lookup.host@
            &&& error.subject@.subrange(n, n + 8) == ", port: "@
            &&& read_decimal(error.subject@.skip(n + 8)) == lookup.port
        },
        error.cause is None && !(failure_of is TimedOut) ==> error.subject@ == told.subject@,
{
    reveal_strlit(", port: ");
    let n = lookup.host@.len() as int;
    let digits = crate::text::decimal(lookup.port as nat);
    crate::laws::texts::law_decimal_reads_back(lookup.port as nat);
    if error.cause is Some || failure_of is TimedOut {
        assert(error.subject@ == lookup.host@ + ", port: "@ + digits);
        assert(error.subject@.take(n) == lookup.host@);
        assert(error.subject@.subrange(n, n + 8) == ", port: "@);
        assert(error.subject@.skip(n + 8) == digits);
    }
}

/// The answer to a question for a TXT record is the first string that was found.
/// Without one, it is told what was missing, and what a failed lookup said.
pub proof fn law_first_string_answers(
    domain: &str,
    first: Result<Option<Vec<Vec<u8>>>, String>,
    r: Result<Vec<u8>, DnsError>,
)
    requires
        call_ensures(first_txt_string, (domain, first), r),
    ensures
        r is Ok <==> first is Ok && first->Ok_0 is Some && first->Ok_0->0@.len() > 0,
        r is Ok ==> r->Ok_0@ == first->Ok_0->0@[0]@,
        r is Err ==> r->Err_0.subject@ == domain@,
        r is Err && first is Err ==> r->Err_0.kind == DnsErrorKind::TxtLookupFailed
            && r->Err_0.cause is Some && r->Err_0.cause->0@ == first->Err_0@,
        r is Err && first is Ok ==> r->Err_0.cause is None && r->Err_0.kind == (
        if first->Ok_0 is None {
            DnsErrorKind::TxtRecordMissing
        } else {
            DnsErrorKind::TxtRecordEmpty
        }),
{
    if let Ok(bytes) = r {
        assert(bytes@ == crate::pem::bytes_of(first->Ok_0->0@)[0]);
    }
}

/// A question for a TXT record is answered with the first string of the first
/// record that was found, as text, and what stands behind it does not matter.
pub proof fn law_first_record_answers(
    domain: &str,
    reply: Result<Vec<hickory_proto::rr::rdata::TXT>, String>,
    r: Result<String, DnsError>,
)
    requires
        call_ensures(resolve_txt, (domain, reply), r),
    ensures
        r is Ok <==> reply is Ok && reply->Ok_0@.len() > 0 && txt_data(reply->Ok_0@[0]).len() > 0,
        r is Ok ==> r->Ok_0@ == lossy_text(txt_data(reply->Ok_0@[0])[0]),
        r is Err ==> r->Err_0.subject@ == domain@,
        r is Err && reply is Err ==> r->Err_0.kind == DnsErrorKind::TxtLookupFailed
            && r->Err_0.cause is Some && r->Err_0.cause->0@ == reply->Err_0@,
        r is Err && reply is Ok ==> r->Err_0.cause is None && r->Err_0.kind == (
        if reply->Ok_0@.len() == 0 {
            DnsErrorKind::TxtRecordMissing
        } else {
            DnsErrorKind::TxtRecordEmpty
        }),
{
}

/// The resolver of the process answers a question for a TXT record as any other
/// one does.
pub proof fn law_process_answers_like_any_resolver(
    domain: &str,
    reply: Result<Vec<hickory_proto::rr::rdata::TXT>, String>,
    r: Result<String, DnsError>,
    s: Result<String, DnsError>,
)
    requires
        call_ensures(resolve_txt_record, (domain, reply), r),
        call_ensures(resolve_txt, (domain, reply), s),
    ensures
        r is Ok <==> s is Ok,
        r is Ok ==> r->Ok_0@ == s->Ok_0@,
        r is Err ==> r->Err_0.kind == s->Err_0.kind && r->Err_0.subject@ == s->Err_0.subject@,
        r is Err ==> (r->Err_0.cause is Some <==> s->Err_0.cause is Some),
        r is Err && r->Err_0.cause is Some ==> r->Err_0.cause->0@ == s->Err_0.cause->0@,
{
}

/// Services are as many as the SRV records, each with what the record at its
/// place says.
pub proof fn law_every_service_is_listed(
    records: Vec<hickory_proto::rr::rdata::SRV>,
    services: Vec<DnsSrvRecord>,
    i: int,
)
    requires
        call_ensures(resolve_srv, (&records,), services),
        0 <= i < records@.len(),
    ensures
        services@.len() == records@.len(),
        services@[i].priority == srv_priority(records@[i]),
        services@[i].weight == srv_weight(records@[i]),
        services@[i].port == srv_port(records@[i]),
        services@[i].target@ == srv_target(records@[i]),
{
    let listed = services@.map_values(|service: DnsSrvRecord| service@);
    assert(listed.len() == services@.len());
    assert(listed[i] == services@[i]@);
}

/// Where there are no SRV records, there are no services.
pub proof fn law_no_record_no_service(
    records: Vec<hickory_proto::rr::rdata::SRV>,
    services: Vec<DnsSrvRecord>,
)
    requires
        call_ensures(resolve_srv, (&records,), services),
        records@.len() == 0,
    ensures
        services@.len() == 0,
{
    let listed = services@.map_values(|service: DnsSrvRecord| service@);
    assert(listed.len() == services@.len());
}

} // verus!
