//! Certificates in PEM files.

use doh_resolver::doh::{resolve_doh_config, DohConfigStep, DohSettings};
use doh_resolver::error::DnsErrorKind;
use doh_resolver::pem::{collect_certs, find_pem_blocks, parse_pem_certs};
use doh_resolver::tls::are_certificates;

const BEGIN: &str = "-----BEGIN CERTIFICATE-----";
const END: &str = "-----END CERTIFICATE-----";

fn generate_test_cert_pem() -> String {
    let params = rcgen::CertificateParams::new(vec!["localhost".to_owned()]);
    rcgen::Certificate::from_params(params)
        .unwrap()
        .serialize_pem()
        .unwrap()
}

#[test]
fn parses_pem_ca_chain() {
    let pem = generate_test_cert_pem();
    let certs = parse_pem_certs("ca.pem", &pem).unwrap();
    assert_eq!(certs.len(), 1);
    assert!(are_certificates(&certs));

    assert!(parse_pem_certs("ca.pem", "not a pem").is_err());
    let error = parse_pem_certs("ca.pem", "not a pem").unwrap_err();
    assert_eq!(error.kind, DnsErrorKind::PemWithoutCertificates);
    assert_eq!(error.message(), "no PEM certificates found in ca.pem");
}

#[test]
fn tls_config_accepts_custom_ca_and_webpki_default() {
    let settings = DohSettings {
        url: "https://1.1.1.1/dns-query".to_owned(),
        bootstrap_ip: None,
        tls_name: None,
        only: false,
        ca_cert_path: None,
    };
    let mut config = match resolve_doh_config(&settings) {
        Ok(DohConfigStep::Done(config)) => config,
        other => panic!("not complete: {:?}", other),
    };
    config.ca_certs_der = parse_pem_certs("ca.pem", &generate_test_cert_pem()).unwrap();
    let _tls_with_ca = config.tls_client_config();

    config.ca_certs_der.clear();
    let _tls_with_webpki = config.tls_client_config();
}

#[test]
fn chain_is_read_in_order() {
    let first = generate_test_cert_pem();
    let second = generate_test_cert_pem();
    let chain = vec![first.clone(), second.clone()].concat();
    let certs = parse_pem_certs("ca.pem", &chain).unwrap();
    assert_eq!(certs.len(), 2);
    assert_eq!(certs[0], parse_pem_certs("ca.pem", &first).unwrap()[0]);
    assert_eq!(certs[1], parse_pem_certs("ca.pem", &second).unwrap()[0]);
    assert!(are_certificates(&certs));
}

#[test]
fn bodies_are_put_together_from_their_lines() {
    let text = format!("x\n{}\nAQ\n\n  ID\t\r\n{}\r\ny\n {} \nBAUG\n{}", BEGIN, END, BEGIN, END);
    let blocks = find_pem_blocks(&text);
    assert_eq!(blocks.bodies, vec!["AQID", "BAUG"]);
    assert!(!blocks.stray_end);
    assert_eq!(
        parse_pem_certs("ca.pem", &text).unwrap(),
        vec![vec![1u8, 2, 3], vec![4, 5, 6]]
    );
}

#[test]
fn unicode_white_space_is_trimmed() {
    let text = format!("\u{3000}{}\u{a0}\n\u{2003}AQID\u{85}\n{}\u{2028}", BEGIN, END);
    assert_eq!(find_pem_blocks(&text).bodies, vec!["AQID"]);
    for code in 0u32..0x11_0000 {
        if let Some(c) = char::from_u32(code) {
            assert_eq!(doh_resolver::text::white_space(c), c.is_whitespace(), "{:?}", c);
        }
    }
}

#[test]
fn start_marker_begins_anew() {
    let text = format!("{}\nAAAA\n{}\nAQID\n{}\n", BEGIN, BEGIN, END);
    assert_eq!(find_pem_blocks(&text).bodies, vec!["AQID"]);
}

#[test]
fn certificate_without_end_is_left_out() {
    let text = format!("{}\nAQID\n{}\n{}\nBAUG\n", BEGIN, END, BEGIN);
    let blocks = find_pem_blocks(&text);
    assert_eq!(blocks.bodies, vec!["AQID"]);
    assert!(!blocks.stray_end);
}

#[test]
fn end_marker_needs_a_start_marker() {
    let text = format!("{}\nAQID\n{}\n{}\n", BEGIN, END, END);
    let blocks = find_pem_blocks(&text);
    assert_eq!(blocks.bodies, vec!["AQID"]);
    assert!(blocks.stray_end);
    let error = parse_pem_certs("ca.pem", &text).unwrap_err();
    assert_eq!(error.kind, DnsErrorKind::PemEndWithoutStart);
    assert_eq!(
        error.message(),
        "malformed PEM in ca.pem: end marker without start marker"
    );
}

#[test]
fn body_has_to_be_base64() {
    let text = format!("{}\n!!\n{}\n{}\n", BEGIN, END, END);
    let error = parse_pem_certs("ca.pem", &text).unwrap_err();
    assert_eq!(error.kind, DnsErrorKind::PemBodyNotBase64);
    assert_eq!(error.message(), "malformed base64 in PEM file ca.pem");
    assert_eq!(error.cause.as_deref(), Some("Invalid symbol 33, offset 0."));
    // padding is required
    let text = format!("{}\nAQI\n{}\n", BEGIN, END);
    let error = parse_pem_certs("ca.pem", &text).unwrap_err();
    assert_eq!(error.cause.as_deref(), Some("Invalid padding"));
}

#[test]
fn decoded_bodies_are_collected_in_order() {
    let decoded = vec![Ok(vec![1u8]), Ok(vec![2])];
    assert_eq!(collect_certs("p", &decoded, false).unwrap(), vec![vec![1u8], vec![2]]);
    assert_eq!(
        collect_certs("p", &decoded, true).unwrap_err().kind,
        DnsErrorKind::PemEndWithoutStart
    );
    let decoded = vec![Ok(vec![1u8]), Err("first".to_owned()), Err("second".to_owned())];
    let error = collect_certs("p", &decoded, true).unwrap_err();
    assert_eq!(error.kind, DnsErrorKind::PemBodyNotBase64);
    assert_eq!(error.cause.as_deref(), Some("first"));
    assert_eq!(
        collect_certs("p", &Vec::new(), false).unwrap_err().kind,
        DnsErrorKind::PemWithoutCertificates
    );
}
