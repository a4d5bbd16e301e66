//! TXT and SRV records.

use doh_resolver::error::DnsErrorKind;
use doh_resolver::records::{first_txt_string, resolve_srv, resolve_txt, resolve_txt_record};
use hickory_proto::rr::rdata::{SRV, TXT};
use hickory_proto::rr::Name;

#[test]
fn first_string_of_first_record_answers() {
    let records = vec![
        TXT::new(vec!["one".to_owned(), "two".to_owned()]),
        TXT::new(vec!["three".to_owned()]),
    ];
    assert_eq!(resolve_txt("a", Ok(records.clone())).unwrap(), "one");
    assert_eq!(resolve_txt_record("a", Ok(records)).unwrap(), "one");
}

#[test]
fn broken_text_is_replaced() {
    let records = vec![TXT::from_bytes(vec![&[b'h', 0xff, b'i']])];
    assert_eq!(resolve_txt("a", Ok(records.clone())).unwrap(), "h\u{fffd}i");
    let records = vec![TXT::from_bytes(vec!["gr\u{fc}n".as_bytes()])];
    assert_eq!(resolve_txt("a", Ok(records.clone())).unwrap(), "gr\u{fc}n");
}

#[test]
fn missing_text_is_told() {
    let error = resolve_txt("a.b", Err("refused".to_owned())).unwrap_err();
    assert_eq!(error.kind, DnsErrorKind::TxtLookupFailed);
    assert_eq!(error.message(), "txt_lookup failed, domain_name: a.b");
    assert_eq!(error.cause.as_deref(), Some("refused"));

    let error = resolve_txt("a.b", Ok(Vec::new())).unwrap_err();
    assert_eq!(error.kind, DnsErrorKind::TxtRecordMissing);
    assert_eq!(error.message(), "no txt record found, domain_name: a.b");
    let error = resolve_txt_record("a.b", Ok(Vec::new())).unwrap_err();
    assert_eq!(error.kind, DnsErrorKind::TxtRecordMissing);

    let error = resolve_txt("a.b", Ok(vec![TXT::new(Vec::new())])).unwrap_err();
    assert_eq!(error.kind, DnsErrorKind::TxtRecordEmpty);
    assert_eq!(error.message(), "empty txt record, domain_name: a.b");

    assert_eq!(first_txt_string("a", Ok(Some(vec![vec![1], vec![2]]))).unwrap(), vec![1u8]);
    assert!(first_txt_string("a", Ok(None)).is_err());
}

#[test]
fn services_are_listed_in_order() {
    let records = vec![
        SRV::new(1, 2, 3, Name::from_ascii("one.example.com.").unwrap()),
        SRV::new(4, 5, 6, Name::from_ascii("two.example.com.").unwrap()),
    ];
    let services = resolve_srv(&records);
    assert_eq!(services.len(), 2);
    assert_eq!(services[0].priority, 1);
    assert_eq!(services[0].weight, 2);
    assert_eq!(services[0].port, 3);
    assert_eq!(services[0].target, "one.example.com.");
    assert_eq!(services[1].priority, 4);
    assert_eq!(services[1].weight, 5);
    assert_eq!(services[1].port, 6);
    assert_eq!(services[1].target, "two.example.com.");
}
