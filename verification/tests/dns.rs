//! Matching of DNS name patterns.
use ssl_connector::dns::{matches_dns, matches_wildcard};

#[test]
fn equal_names_match() {
    assert!(matches_dns("foobar.com", "foobar.com", false));
    assert!(matches_dns("localhost", "localhost", false));
    assert!(matches_dns("", "", false));
    assert!(matches_dns("127.0.0.1", "127.0.0.1", true));
}

#[test]
fn different_names_do_not_match() {
    assert!(!matches_dns("foobar.com", "bogus.com", false));
    assert!(!matches_dns("foobar.com", "www.foobar.com", false));
    assert!(!matches_dns("foobar.com", "", false));
    assert!(!matches_dns("Foobar.com", "foobar.com", false));
}

#[test]
fn one_trailing_dot_is_ignored() {
    assert!(matches_dns("foobar.com.", "foobar.com", false));
    assert!(matches_dns("foobar.com", "foobar.com.", false));
    assert!(matches_dns("*.foobar.com.", "www.foobar.com", false));
    assert!(matches_dns("*.foobar.com", "www.foobar.com.", false));
    assert!(!matches_dns("foobar.com..", "foobar.com", false));
    assert!(matches_dns(".", "", false));
}

#[test]
fn wildcard_stands_for_a_label() {
    assert!(matches_dns("*.foobar.com", "www.foobar.com", false));
    assert!(matches_dns("*.foobar.com", ".foobar.com", false));
    assert!(!matches_dns("*.foobar.com", "foobar.com", false));
    assert!(!matches_dns("*.foobar.com", "a.b.foobar.com", false));
    assert!(!matches_dns("*.foobar.com", "www.foobar.org", false));
}

#[test]
fn wildcard_stands_for_a_part_of_a_label() {
    assert!(matches_dns("w*w.foobar.com", "www.foobar.com", false));
    assert!(matches_dns("ww*.foobar.com", "www.foobar.com", false));
    assert!(matches_dns("*w.foobar.com", "www.foobar.com", false));
    assert!(matches_dns("w*w.foobar.com", "ww.foobar.com", false));
    assert!(!matches_dns("w*w.foobar.com", "w.foobar.com", false));
    assert!(!matches_dns("x*.foobar.com", "www.foobar.com", false));
    assert!(!matches_dns("*x.foobar.com", "www.foobar.com", false));
}

#[test]
fn second_wildcard_is_literal() {
    assert!(matches_dns("*b*.foobar.com", "ab*.foobar.com", false));
    assert!(!matches_dns("*b*.foobar.com", "abc.foobar.com", false));
    assert!(matches_dns("*.*.com", "www.*.com", false));
    assert!(!matches_dns("*.*.com", "www.foobar.com", false));
}

#[test]
fn wildcard_needs_two_dots() {
    assert!(!matches_dns("*.com", "foobar.com", false));
    assert!(!matches_dns("*.com.", "foobar.com", false));
    assert!(!matches_dns("*", "foobar", false));
    assert!(matches_dns("*.com", "*.com", false));
}

#[test]
fn wildcard_only_counts_in_the_first_label() {
    assert!(!matches_dns("www.*.com", "www.foobar.com", false));
    assert!(matches_dns("www.*.com", "www.*.com", false));
}

#[test]
fn internationalized_names_are_exact() {
    assert!(!matches_dns("xn--*.foobar.com", "xn--a.foobar.com", false));
    assert!(matches_dns("xn--a.foobar.com", "xn--a.foobar.com", false));
    assert!(matches_dns("xn-*.foobar.com", "xn-a.foobar.com", false));
}

#[test]
fn ip_addresses_have_no_wildcards() {
    assert!(!matches_dns("*.0.0.1", "127.0.0.1", true));
    assert!(matches_dns("*.0.0.1", "127.0.0.1", false));
    assert!(matches_dns("127.0.0.1.", "127.0.0.1", true));
}

#[test]
fn names_beyond_ascii() {
    assert!(matches_dns("*é.foobar.com", "caffé.foobar.com", false));
    assert!(!matches_dns("*é.foobar.com", "caffè.foobar.com", false));
    assert!(matches_dns("日*.foobar.com", "日本.foobar.com", false));
}

#[test]
fn wildcard_verdicts() {
    assert_eq!(matches_wildcard("*.foobar.com", "www.foobar.com", false), Some(true));
    assert_eq!(matches_wildcard("*.foobar.com", "www.foobar.org", false), Some(false));
    assert_eq!(matches_wildcard("a*.foobar.com", "www.foobar.com", false), Some(false));
    assert_eq!(matches_wildcard("*a.foobar.com", "www.foobar.com", false), Some(false));
    assert_eq!(matches_wildcard("*.foobar.com", "www.foobar.com", true), None);
    assert_eq!(matches_wildcard("xn--*.foobar.com", "xn--a.foobar.com", false), None);
    assert_eq!(matches_wildcard("www.foobar.com", "www.foobar.com", false), None);
    assert_eq!(matches_wildcard("*foobar", "foobar", false), None);
    assert_eq!(matches_wildcard("*.com", "foobar.com", false), None);
    assert_eq!(matches_wildcard("www.*.com", "www.foobar.com", false), None);
    assert_eq!(matches_wildcard("*.foobar.com", "foobar", false), None);
}
