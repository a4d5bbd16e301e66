//! What TXT and SRV records say.

use vstd::prelude::*;
use vstd::utf8::{decode_utf8, valid_utf8};

use crate::error::{failure, failure_because, DnsError, DnsErrorKind, DnsErrorView};
use crate::pem::bytes_of;

verus! {

#[verifier::external_type_specification]
#[verifier::external_body]
pub struct ExTxt(hickory_proto::rr::rdata::TXT);

#[verifier::external_type_specification]
#[verifier::external_body]
pub struct ExSrv(hickory_proto::rr::rdata::SRV);

/// The strings in a TXT record, in order.
pub uninterp spec fn txt_data(record: hickory_proto::rr::rdata::TXT) -> Seq<Seq<u8>>;

/// `TXT::txt_data` gives the strings in a TXT record.
#[verifier::external_body]
fn strings_of(record: &hickory_proto::rr::rdata::TXT) -> (strings: Vec<Vec<u8>>)
    ensures
        bytes_of(strings@) == txt_data(*record),
{
    record.txt_data().iter().map(|string| string.to_vec()).collect()
}

/// Bytes as text, with replacement characters for what is not UTF-8.
pub uninterp spec fn lossy_text(bytes: Seq<u8>) -> Seq<char>;

/// `String::from_utf8_lossy` gives bytes as text, with replacement characters
/// for what is not UTF-8. Where all of it is UTF-8, it is the text that the
/// bytes encode.
#[verifier::external_body]
fn from_utf8_lossy(bytes: &Vec<u8>) -> (text: String)
    ensures
        text@ == lossy_text(bytes@),
        valid_utf8(bytes@) ==> text@ == decode_utf8(bytes@),
{
    String::from_utf8_lossy(bytes).into_owned()
}

/// The strings of the first TXT record that a lookup found, if it found one, or
/// what the lookup failed with.
pub open spec fn first_record(
    reply: Result<Vec<hickory_proto::rr::rdata::TXT>, String>,
) -> Result<Option<Seq<Seq<u8>>>, Seq<char>> {
    match reply {
        Err(text) => Err(text@),
        Ok(records) => if records@.len() == 0 {
            Ok(None)
        } else {
            Ok(Some(txt_data(records@[0])))
        },
    }
}

/// The bytes that answer a question for the TXT record of a domain: the first
/// string of the first record.
pub open spec fn txt_answer(
    domain: Seq<char>,
    first: Result<Option<Seq<Seq<u8>>>, Seq<char>>,
) -> Result<Seq<u8>, DnsErrorView> {
    match first {
        Err(text) => Err(failure_because(DnsErrorKind::TxtLookupFailed, domain, text)),
        Ok(None) => Err(failure(DnsErrorKind::TxtRecordMissing, domain)),
        Ok(Some(strings)) => if strings.len() == 0 {
            Err(failure(DnsErrorKind::TxtRecordEmpty, domain))
        } else {
            Ok(strings[0])
        },
    }
}

/// What a result of [`first_txt_string`] tells.
pub open spec fn txt_bytes_view(r: Result<Vec<u8>, DnsError>) -> Result<Seq<u8>, DnsErrorView> {
    match r {
        Ok(bytes) => Ok(bytes@),
        Err(error) => Err(error@),
    }
}

/// What the strings of the first record hold, where there is one.
pub open spec fn strings_view(first: Result<Option<Vec<Vec<u8>>>, String>) -> Result<
    Option<Seq<Seq<u8>>>,
    Seq<char>,
> {
    match first {
        Err(text) => Err(text@),
        Ok(None) => Ok(None),
        Ok(Some(strings)) => Ok(Some(bytes_of(strings@))),
    }
}

/// Picks the answer to a question for the TXT record of a domain out of the
/// strings of the first record that was found, if the lookup did not fail.
pub fn first_txt_string(domain: &str, first: Result<Option<Vec<Vec<u8>>>, String>) -> (r: Result<
    Vec<u8>,
    DnsError,
>)
    ensures
        txt_bytes_view(r) == txt_answer(domain@, strings_view(first)),
{
    match first {
        Err(text) => Err(DnsError::because(DnsErrorKind::TxtLookupFailed, domain, text)),
        Ok(None) => Err(DnsError::new(DnsErrorKind::TxtRecordMissing, domain)),
        Ok(Some(strings)) => {
            if strings.len() == 0 {
                return Err(DnsError::new(DnsErrorKind::TxtRecordEmpty, domain));
            }
            let bytes = strings[0].clone();
            assert(bytes@ == bytes_of(strings@)[0]);
            Ok(bytes)
        },
    }
}

/// What a result of [`resolve_txt`] tells.
pub open spec fn txt_view(r: Result<String, DnsError>) -> Result<Seq<char>, DnsErrorView> {
    match r {
        Ok(text) => Ok(text@),
        Err(error) => Err(error@),
    }
}

/// The text that answers a question for the TXT record of a domain.
pub open spec fn txt_text(
    domain: Seq<char>,
    first: Result<Option<Seq<Seq<u8>>>, Seq<char>>,
) -> Result<Seq<char>, DnsErrorView> {
    match txt_answer(domain, first) {
        Ok(bytes) => Ok(lossy_text(bytes)),
        Err(error) => Err(error),
    }
}

/// Answers a question for the TXT record of a domain with what a lookup
/// found, if it did not fail.
pub fn resolve_txt(
    domain: &str,
    reply: Result<Vec<hickory_proto::rr::rdata::TXT>, String>,
) -> (r: Result<String, DnsError>)
    ensures
        txt_view(r) == txt_text(domain@, first_record(reply)),
        r matches Ok(text) ==> (valid_utf8(txt_data(reply->Ok_0@[0])[0]) ==> text@ == decode_utf8(
            txt_data(reply->Ok_0@[0])[0],
        )),
{
    let first = match reply {
        Err(text) => Err(text),
        Ok(records) => if records.len() == 0 {
            Ok(None)
        } else {
            Ok(Some(strings_of(&records[0])))
        },
    };
    match first_txt_string(domain, first) {
        Ok(bytes) => Ok(from_utf8_lossy(&bytes)),
        Err(error) => Err(error),
    }
}

/// Answers a question for the TXT record of a domain through the resolver of
/// the process. The first record that it found has to hold a string.
pub fn resolve_txt_record(
    domain_name: &str,
    reply: Result<Vec<hickory_proto::rr::rdata::TXT>, String>,
) -> (r: Result<String, DnsError>)
    requires
        first_record(reply) matches Ok(Some(strings)) ==> strings.len() > 0,
    ensures
        txt_view(r) == txt_text(domain_name@, first_record(reply)),
        r matches Ok(text) ==> (valid_utf8(txt_data(reply->Ok_0@[0])[0]) ==> text@ == decode_utf8(
            txt_data(reply->Ok_0@[0])[0],
        )),
        r matches Err(error) ==> error@.kind != DnsErrorKind::TxtRecordEmpty,
{
    resolve_txt(domain_name, reply)
}

/// Where a service is offered.
#[derive(Debug)]
pub struct DnsSrvRecord {
    pub priority: u16,
    pub weight: u16,
    pub port: u16,
    pub target: String,
}

/// What a [`DnsSrvRecord`] says.
#[verifier::ext_equal]
pub struct DnsSrvRecordView {
    pub priority: u16,
    pub weight: u16,
    pub port: u16,
    pub target: Seq<char>,
}

impl View for DnsSrvRecord {
    type V = DnsSrvRecordView;

    open spec fn view(&self) -> DnsSrvRecordView {
        DnsSrvRecordView {
            priority: self.priority,
            weight: self.weight,
            port: self.port,
            target: self.target@,
        }
    }
}

/// The priority that an SRV record gives its target.
pub uninterp spec fn srv_priority(record: hickory_proto::rr::rdata::SRV) -> u16;

/// `SRV::priority` gives the priority of the target.
#[verifier::external_body]
fn priority_of(record: &hickory_proto::rr::rdata::SRV) -> (priority: u16)
    ensures
        priority == srv_priority(*record),
{
    record.priority()
}

/// The weight that an SRV record gives its target.
pub uninterp spec fn srv_weight(record: hickory_proto::rr::rdata::SRV) -> u16;

/// `SRV::weight` gives the weight of the target among those of its priority.
#[verifier::external_body]
fn weight_of(record: &hickory_proto::rr::rdata::SRV) -> (weight: u16)
    ensures
        weight == srv_weight(*record),
{
    record.weight()
}

/// The port of the service that an SRV record names.
pub uninterp spec fn srv_port(record: hickory_proto::rr::rdata::SRV) -> u16;

/// `SRV::port` gives the port of the service.
#[verifier::external_body]
fn port_of(record: &hickory_proto::rr::rdata::SRV) -> (port: u16)
    ensures
        port == srv_port(*record),
{
    record.port()
}

/// The domain of the target that an SRV record names, as text.
pub uninterp spec fn srv_target(record: hickory_proto::rr::rdata::SRV) -> Seq<char>;

/// `SRV::target` gives the domain of the target, here as `Name::to_utf8` writes
/// it.
#[verifier::external_body]
fn target_of(record: &hickory_proto::rr::rdata::SRV) -> (target: String)
    ensures
        target@ == srv_target(*record),
{
    record.target().to_utf8()
}

/// What an SRV record says.
pub open spec fn srv_data(record: hickory_proto::rr::rdata::SRV) -> DnsSrvRecordView {
    DnsSrvRecordView {
        priority: srv_priority(record),
        weight: srv_weight(record),
        port: srv_port(record),
        target: srv_target(record),
    }
}

/// Puts what an SRV record says into plain values.
fn srv_record(record: &hickory_proto::rr::rdata::SRV) -> (data: DnsSrvRecord)
    ensures
        data@ == srv_data(*record),
{
    DnsSrvRecord {
        priority: priority_of(record),
        weight: weight_of(record),
        port: port_of(record),
        target: target_of(record),
    }
}

/// What a list of SRV records says.
pub open spec fn srv_list(records: Seq<hickory_proto::rr::rdata::SRV>) -> Seq<DnsSrvRecordView> {
    records.map_values(|record: hickory_proto::rr::rdata::SRV| srv_data(record))
}

/// Answers a question for SRV records with what a lookup found, in order.
pub fn resolve_srv(records: &Vec<hickory_proto::rr::rdata::SRV>) -> (services: Vec<DnsSrvRecord>)
    ensures
        services@.map_values(|service: DnsSrvRecord| service@) == srv_list(records@),
{
    let mut services: Vec<DnsSrvRecord> = Vec::new();
    let mut i: usize = 0;
    while i < records.len()
        invariant
            i <= records.len(),
            services.len() == i,
            forall|j: int| 0 <= j < i ==> (#[trigger] services@[j])@ == srv_data(records@[j]),
        decreases records.len() - i,
    {
        services.push(srv_record(&records[i]));
        i = i + 1;
    }
    assert(services@.map_values(|service: DnsSrvRecord| service@) =~= srv_list(records@));
    services
}

} // verus!
