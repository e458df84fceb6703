//! Verification of certificates against a domain.
use ssl_connector::ip::{matches_ip, IpAddr};
use ssl_connector::verify::{
    check_certificate, match_alt_names, match_certificate, match_subject_name, needs_certificate,
    verify_callback, verify_for_session, verify_hostname, verify_subject_alt_names,
    verify_subject_name, Domain, GeneralName, SessionData, X509, X509Name, X509StoreContext,
};

const LOCALHOST: IpAddr = IpAddr::V4([127, 0, 0, 1]);
const LOCALHOST6: IpAddr = IpAddr::V6([0, 0, 0, 0, 0, 0, 0, 1]);

fn named(name: &str) -> Domain<'_> {
    Domain { name, ip: None }
}

fn local() -> Domain<'static> {
    Domain { name: "127.0.0.1", ip: Some(LOCALHOST) }
}

fn dns(name: &str) -> GeneralName {
    GeneralName::DnsName(name.to_string())
}

fn common(names: &[&[u8]]) -> X509Name {
    X509Name { common_names: names.iter().map(|n| n.to_vec()).collect() }
}

fn cert(alt: Option<Vec<GeneralName>>, cn: &str) -> X509 {
    X509 { subject_alt_names: alt, subject_name: common(&[cn.as_bytes()]) }
}

fn at(error_depth: u32, current_cert: Option<X509>) -> X509StoreContext {
    X509StoreContext { error_depth, current_cert }
}

#[test]
fn ipv4_octets() {
    assert!(matches_ip(&LOCALHOST, &[127, 0, 0, 1]));
    assert!(!matches_ip(&LOCALHOST, &[127, 0, 0, 2]));
    assert!(!matches_ip(&LOCALHOST, &[127, 0, 0]));
    assert!(!matches_ip(&LOCALHOST, &[]));
    assert!(!matches_ip(&LOCALHOST, &[0, 0, 0, 0, 0, 0, 0, 0, 0, 0, 0, 0, 127, 0, 0, 1]));
}

#[test]
fn ipv6_octets() {
    let addr = IpAddr::V6([0x2001, 0xdb8, 0, 0x12, 0xff00, 0x00ff, 0xabcd, 0x0102]);
    let raw = [0x20, 0x01, 0x0d, 0xb8, 0, 0, 0, 0x12, 0xff, 0, 0, 0xff, 0xab, 0xcd, 1, 2];
    assert!(matches_ip(&addr, &raw));
    for i in 0..16 {
        let mut other = raw;
        other[i] = other[i].wrapping_add(1);
        assert!(!matches_ip(&addr, &other));
    }
    assert!(!matches_ip(&addr, &raw[..15]));
    assert!(!matches_ip(&LOCALHOST6, &[0, 0, 0, 1]));
}

#[test]
fn alternative_dns_names() {
    let names = vec![GeneralName::Other, dns("a.example.com"), dns("*.example.org")];
    assert!(verify_subject_alt_names("a.example.com", &names));
    assert!(verify_subject_alt_names("b.example.org", &names));
    assert!(!verify_subject_alt_names("b.example.com", &names));
    assert!(!verify_subject_alt_names("a.example.com", &vec![]));
}

#[test]
fn alternative_addresses() {
    let names = vec![dns("127.0.0.1"), GeneralName::IpAddress(vec![127, 0, 0, 2])];
    assert!(!verify_subject_alt_names("127.0.0.1", &names));
    let names = vec![dns("example.com"), GeneralName::IpAddress(vec![127, 0, 0, 1])];
    assert!(verify_subject_alt_names("127.0.0.1", &names));
    let names = vec![GeneralName::IpAddress(b"name".to_vec())];
    assert!(!verify_subject_alt_names("name", &names));
}

#[test]
fn common_names() {
    assert!(verify_subject_name("foobar.com", &common(&[b"foobar.com"])));
    assert!(verify_subject_name("www.foobar.com", &common(&[b"*.foobar.com"])));
    assert!(!verify_subject_name("foobar.com", &common(&[])));
    assert!(!verify_subject_name("foobar.com", &common(&[b"other.com", b"foobar.com"])));
    assert!(verify_subject_name("foobar.com", &common(&[b"foobar.com", b"other.com"])));
}

#[test]
fn common_name_that_is_an_address() {
    assert!(verify_subject_name("127.0.0.1", &common(&[b"127.0.0.1"])));
    assert!(!verify_subject_name("127.0.0.1", &common(&[b"*.0.0.1"])));
}

#[test]
fn common_name_as_text() {
    assert!(!verify_subject_name("foobar.com", &common(&[b"\xff\xfe"])));
    assert!(!verify_subject_name("", &common(&[b"\xc3"])));
    assert!(verify_subject_name("café.com", &common(&["café.com".as_bytes()])));
    assert!(verify_subject_name("é", &common(&[b"\xc3\xa9"])));
}

#[test]
fn alternative_names_replace_the_subject() {
    let with_names = cert(Some(vec![dns("a.example.com")]), "b.example.com");
    assert!(verify_hostname("a.example.com", &with_names));
    assert!(!verify_hostname("b.example.com", &with_names));
    assert!(!verify_hostname("b.example.com", &cert(Some(vec![]), "b.example.com")));
    assert!(verify_hostname("b.example.com", &cert(None, "b.example.com")));
}

#[test]
fn callback_keeps_a_failure() {
    let good = cert(None, "foobar.com");
    assert!(!verify_callback("foobar.com", false, &at(0, Some(good.clone()))));
    assert!(!verify_callback("foobar.com", false, &at(1, Some(good))));
    assert!(!verify_callback("foobar.com", false, &at(0, None)));
}

#[test]
fn callback_checks_the_peer_only() {
    let other = cert(None, "other.com");
    assert!(!verify_callback("foobar.com", true, &at(0, Some(other.clone()))));
    assert!(verify_callback("foobar.com", true, &at(1, Some(other))));
    assert!(verify_callback("foobar.com", true, &at(0, Some(cert(None, "foobar.com")))));
    assert!(verify_callback("foobar.com", true, &at(0, None)));
}

#[test]
fn session_without_a_hostname_keeps_the_verdict() {
    let ctx = at(0, Some(cert(None, "other.com")));
    let with: Result<Option<SessionData>, ()> =
        Ok(Some(SessionData { hostname: Some("foobar.com") }));
    assert!(!verify_for_session(&with, true, &ctx));
    let matching: Result<Option<SessionData>, ()> =
        Ok(Some(SessionData { hostname: Some("other.com") }));
    assert!(verify_for_session(&matching, true, &ctx));
    assert!(!verify_for_session(&matching, false, &ctx));
    let without: Result<Option<SessionData>, ()> = Ok(Some(SessionData { hostname: None }));
    let unknown: Result<Option<SessionData>, ()> = Ok(None);
    let failed: Result<Option<SessionData>, ()> = Err(());
    for session in [without, unknown, failed] {
        assert!(verify_for_session(&session, true, &ctx));
        assert!(!verify_for_session(&session, false, &ctx));
    }
}

#[test]
fn certificate_is_needed_for_the_peer_only() {
    let with: Result<Option<SessionData>, ()> =
        Ok(Some(SessionData { hostname: Some("foobar.com") }));
    assert!(needs_certificate(&with, true, 0));
    assert!(!needs_certificate(&with, true, 1));
    assert!(!needs_certificate(&with, false, 0));
    let without: Result<Option<SessionData>, ()> = Ok(Some(SessionData { hostname: None }));
    assert!(!needs_certificate(&without, true, 0));
    let unknown: Result<Option<SessionData>, ()> = Ok(None);
    assert!(!needs_certificate(&unknown, true, 0));
    let failed: Result<Option<SessionData>, ()> = Err(());
    assert!(!needs_certificate(&failed, true, 0));
}

#[test]
fn domain_of_a_text() {
    assert_eq!(Domain::new("127.0.0.1"), local());
    assert_eq!(Domain::new("::1"), Domain { name: "::1", ip: Some(LOCALHOST6) });
    assert_eq!(
        Domain::new("::ffff:192.0.2.1").ip,
        Some(IpAddr::V6([0, 0, 0, 0, 0, 0xffff, 0xc000, 0x0201]))
    );
    for name in [
        "foobar.com", "", "127.0.0.256", "127.0.0", "127.0.0.1.", "1::2::3", "[::1]", " ::1",
    ] {
        assert_eq!(Domain::new(name), named(name));
    }
}

#[test]
fn parsed_domains() {
    let names = vec![dns("a.example.com"), GeneralName::IpAddress(vec![127, 0, 0, 1])];
    assert!(match_alt_names(named("a.example.com"), &names));
    assert!(match_alt_names(local(), &names));
    assert!(!match_alt_names(named("127.0.0.1"), &names));
    assert!(!match_subject_name(local(), &common(&[b"*.0.0.1"])));
    assert!(match_subject_name(named("127.0.0.1"), &common(&[b"*.0.0.1"])));
    let with_names = cert(Some(names), "b.example.com");
    assert!(match_certificate(local(), &with_names));
    assert!(!match_certificate(named("b.example.com"), &with_names));
    assert!(check_certificate(local(), true, &at(0, Some(with_names.clone()))));
    assert!(!check_certificate(named("b.example.com"), true, &at(0, Some(with_names.clone()))));
    assert!(check_certificate(named("b.example.com"), true, &at(1, Some(with_names))));
}

#[test]
fn session_hostname_that_is_an_address() {
    let session: Result<Option<SessionData>, ()> =
        Ok(Some(SessionData { hostname: Some("127.0.0.1") }));
    let wildcard = at(0, Some(cert(None, "*.0.0.1")));
    assert!(!verify_for_session(&session, true, &wildcard));
    let exact = at(0, Some(cert(Some(vec![GeneralName::IpAddress(vec![127, 0, 0, 1])]), "")));
    assert!(verify_for_session(&session, true, &exact));
}
