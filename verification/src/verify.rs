//! Verification that the certificate of a peer is made out to the domain that was asked for.
use vstd::prelude::*;
use vstd::utf8::{decode_utf8, valid_utf8};

use crate::dns::{dns_match, law_name_matches_itself, matches_dns};
use crate::ip::{
    law_ipv4_octet_by_octet, law_ipv6_segment_by_segment, matches_ip, parse_ip, parsed_ip, IpAddr,
};

verus! {

/// The domain that a session is opened for, with the IP address that its text denotes, if it
/// denotes one.
#[derive(Clone, Copy, Debug, PartialEq, Eq)]
pub struct Domain<'a> {
    pub name: &'a str,
    pub ip: Option<IpAddr>,
}

/// The domain that a text stands for.
pub open spec fn domain_of<'a>(name: &'a str) -> Domain<'a> {
    Domain { name, ip: parsed_ip(name@) }
}

/// Whether a domain has this text, and the address that the text denotes.
pub open spec fn is_domain_of(domain: Domain, text: Seq<char>) -> bool {
    &&& domain.name@ == text
    &&& domain.ip == parsed_ip(text)
}

impl<'a> Domain<'a> {
    /// The domain that a text stands for.
    pub fn new(name: &'a str) -> (domain: Domain<'a>)
        ensures
            domain == domain_of(name),
            is_domain_of(domain, name@),
    {
        Domain { name, ip: parse_ip(name) }
    }
}

/// An alternative name of a certificate's subject.
#[derive(Clone, Debug, PartialEq, Eq)]
pub enum GeneralName {
    /// A DNS name.
    DnsName(String),
    /// An IP address in its raw form.
    IpAddress(Vec<u8>),
    /// A name of any other kind, which is never matched.
    Other,
}

/// What is read of the subject name of a certificate: the data of its common name entries, in the
/// order in which they stand in it.
#[derive(Clone, Debug, PartialEq, Eq)]
pub struct X509Name {
    pub common_names: Vec<Vec<u8>>,
}

/// What is read of a certificate.
#[derive(Clone, Debug, PartialEq, Eq)]
pub struct X509 {
    /// The alternative names, where the certificate has that extension.
    pub subject_alt_names: Option<Vec<GeneralName>>,
    pub subject_name: X509Name,
}

/// Where the verification of a certificate chain stands.
#[derive(Clone, Debug, PartialEq, Eq)]
pub struct X509StoreContext {
    /// How far the certificate that is being verified is from the peer's own.
    pub error_depth: u32,
    /// The certificate that is being verified.
    pub current_cert: Option<X509>,
}

/// What a session was given for its verification.
#[derive(Clone, Copy, Debug, PartialEq, Eq)]
pub struct SessionData<'a> {
    /// The text of the domain that its peer has to be.
    pub hostname: Option<&'a str>,
}

/// Whether an alternative name is made out to the domain. An IP address is compared with the
/// addresses only, any other domain with the DNS names only.
pub open spec fn alt_name_matches(name: GeneralName, domain: Domain) -> bool {
    match domain.ip {
        Some(ip) => name matches GeneralName::IpAddress(actual) && actual@ == ip.octets(),
        None => name matches GeneralName::DnsName(pattern) && dns_match(
            pattern@,
            domain.name@,
            false,
        ),
    }
}

/// Whether one of the alternative names is made out to the domain.
pub open spec fn alt_names_match(names: Seq<GeneralName>, domain: Domain) -> bool {
    exists|i: int| 0 <= i < names.len() && #[trigger] alt_name_matches(names[i], domain)
}

/// Whether the first common name is text and is made out to the domain. A wildcard does not count
/// where the domain is an IP address.
pub open spec fn subject_matches(common_names: Seq<Vec<u8>>, domain: Domain) -> bool {
    &&& common_names.len() > 0
    &&& valid_utf8(common_names[0]@)
    &&& dns_match(decode_utf8(common_names[0]@), domain.name@, domain.ip is Some)
}

/// Whether a certificate is made out to the domain. The subject name counts only where there are
/// no alternative names.
pub open spec fn certificate_matches(cert: X509, domain: Domain) -> bool {
    match cert.subject_alt_names {
        Some(names) => alt_names_match(names@, domain),
        None => subject_matches(cert.subject_name.common_names@, domain),
    }
}

/// Whether the verification of a chain goes on: a verdict that is already negative stands, and of
/// the other certificates only the peer's own has to be made out to the domain.
pub open spec fn verdict(domain: Domain, preverify_ok: bool, x509_ctx: X509StoreContext) -> bool {
    &&& preverify_ok
    &&& x509_ctx.error_depth == 0 ==> (x509_ctx.current_cert matches Some(cert)
        ==> certificate_matches(cert, domain))
}

/// Whether the verification of a chain goes on for a session. Where the session is not known, or has
/// no hostname, the verdict reached so far stands.
pub open spec fn session_verdict<E>(
    session: Result<Option<SessionData>, E>,
    preverify_ok: bool,
    x509_ctx: X509StoreContext,
) -> bool {
    match session {
        Ok(Some(SessionData { hostname: Some(name) })) => verdict(
            domain_of(name),
            preverify_ok,
            x509_ctx,
        ),
        _ => preverify_ok,
    }
}

/// `core::str::from_utf8`: bytes that are valid UTF-8 are the text that they encode, and no other
/// bytes are text.
#[verifier::external_body]
fn utf8_text(bytes: &[u8]) -> (text: Option<&str>)
    ensures
        match text {
            Some(chars) => valid_utf8(bytes@) && chars@ == decode_utf8(bytes@),
            None => !valid_utf8(bytes@),
        },
{
    core::str::from_utf8(bytes).ok()
}

/// Whether one of the alternative names of a certificate is made out to the domain.
pub fn match_alt_names(domain: Domain, names: &Vec<GeneralName>) -> (verified: bool)
    ensures
        verified == alt_names_match(names@, domain),
{
    let mut i: usize = 0;
    while i < names.len()
        invariant
            i <= names@.len(),
            forall|j: int| 0 <= j < i ==> !#[trigger] alt_name_matches(names@[j], domain),
        decreases names@.len() - i,
    {
        let matched = match (domain.ip, &names[i]) {
            (Some(ip), GeneralName::IpAddress(actual)) => matches_ip(&ip, actual.as_slice()),
            (None, GeneralName::DnsName(pattern)) => matches_dns(
                pattern.as_str(),
                domain.name,
                false,
            ),
            _ => false,
        };
        assert(matched == alt_name_matches(names@[i as int], domain));
        if matched {
            return true;
        }
        i += 1;
    }
    false
}

/// Whether the subject name of a certificate is made out to the domain.
pub fn match_subject_name(domain: Domain, subject_name: &X509Name) -> (verified: bool)
    ensures
        verified == subject_matches(subject_name.common_names@, domain),
{
    if subject_name.common_names.len() == 0 {
        return false;
    }
    match utf8_text(subject_name.common_names[0].as_slice()) {
        // Unlike with alternative names, IP addresses in the subject name don't have a
        // different encoding. Wildcard matches with bogus patterns like *.0.0.1 are
        // disallowed.
        Some(pattern) => matches_dns(pattern, domain.name, domain.ip.is_some()),
        None => false,
    }
}

/// Whether a certificate is made out to the domain.
pub fn match_certificate(domain: Domain, cert: &X509) -> (verified: bool)
    ensures
        verified == certificate_matches(*cert, domain),
{
    match &cert.subject_alt_names {
        Some(names) => match_alt_names(domain, names),
        None => match_subject_name(domain, &cert.subject_name),
    }
}

/// Checks, for each certificate of a chain, the verdict reached so far against the domain.
pub fn check_certificate(
    domain: Domain,
    preverify_ok: bool,
    x509_ctx: &X509StoreContext,
) -> (verified: bool)
    ensures
        verified == verdict(domain, preverify_ok, *x509_ctx),
{
    if !preverify_ok || x509_ctx.error_depth != 0 {
        return preverify_ok;
    }
    match &x509_ctx.current_cert {
        Some(x509) => match_certificate(domain, x509),
        None => true,
    }
}

/// Whether one of the alternative names of a certificate is made out to the domain of this text.
pub fn verify_subject_alt_names(domain: &str, names: &Vec<GeneralName>) -> (verified: bool)
    ensures
        verified == alt_names_match(names@, domain_of(domain)),
{
    match_alt_names(Domain::new(domain), names)
}

/// Whether the subject name of a certificate is made out to the domain of this text.
pub fn verify_subject_name(domain: &str, subject_name: &X509Name) -> (verified: bool)
    ensures
        verified == subject_matches(subject_name.common_names@, domain_of(domain)),
{
    match_subject_name(Domain::new(domain), subject_name)
}

/// Whether a certificate is made out to the domain of this text.
pub fn verify_hostname(domain: &str, cert: &X509) -> (verified: bool)
    ensures
        verified == certificate_matches(*cert, domain_of(domain)),
{
    match &cert.subject_alt_names {
        Some(names) => verify_subject_alt_names(domain, names),
        None => verify_subject_name(domain, &cert.subject_name),
    }
}

/// Checks, for each certificate of a chain, the verdict reached so far against the domain of this
/// text.
pub fn verify_callback(
    domain: &str,
    preverify_ok: bool,
    x509_ctx: &X509StoreContext,
) -> (verified: bool)
    ensures
        verified == verdict(domain_of(domain), preverify_ok, *x509_ctx),
{
    if !preverify_ok || x509_ctx.error_depth != 0 {
        return preverify_ok;
    }
    match &x509_ctx.current_cert {
        Some(x509) => verify_hostname(domain, x509),
        None => true,
    }
}

/// Whether the verdict for a session rests on the current certificate. It does not where the session
/// has no hostname, the verdict is already negative, or the certificate is not the peer's own.
pub fn needs_certificate<E>(
    session: &Result<Option<SessionData>, E>,
    preverify_ok: bool,
    error_depth: u32,
) -> (needed: bool)
    ensures
        needed == (session matches Ok(Some(ssl)) && ssl.hostname is Some && preverify_ok
            && error_depth == 0),
{
    match session {
        Ok(Some(ssl)) => ssl.hostname.is_some() && preverify_ok && error_depth == 0,
        _ => false,
    }
}

/// Checks a certificate for the session that it is verified for: against the session's hostname
/// where the session is known and has one, otherwise the verdict reached so far stands.
pub fn verify_for_session<E>(
    session: &Result<Option<SessionData>, E>,
    preverify_ok: bool,
    x509_ctx: &X509StoreContext,
) -> (verified: bool)
    ensures
        verified == session_verdict(*session, preverify_ok, *x509_ctx),
{
    let hostname = match session {
        Ok(Some(ssl)) => ssl.hostname,
        _ => None,
    };
    match hostname {
        Some(hostname) => verify_callback(hostname, preverify_ok, x509_ctx),
        None => preverify_ok,
    }
}

/// A chain that was already found wanting is never accepted.
pub proof fn law_failure_is_never_overruled(domain: Domain, x509_ctx: X509StoreContext)
    ensures
        !verdict(domain, false, x509_ctx),
{
}

/// The certificates of the issuers need not be made out to the domain.
pub proof fn law_only_the_peer_is_named(
    domain: Domain,
    preverify_ok: bool,
    x509_ctx: X509StoreContext,
)
    requires
        x509_ctx.error_depth != 0,
    ensures
        verdict(domain, preverify_ok, x509_ctx) == preverify_ok,
{
}

/// The certificate of the peer is accepted only if it is made out to the domain.
pub proof fn law_peer_is_the_domain(
    domain: Domain,
    preverify_ok: bool,
    x509_ctx: X509StoreContext,
    cert: X509,
)
    requires
        x509_ctx.error_depth == 0,
        x509_ctx.current_cert == Some(cert),
        verdict(domain, preverify_ok, x509_ctx),
    ensures
        certificate_matches(cert, domain),
{
}

/// Where a certificate has alternative names, its subject name does not count.
pub proof fn law_alt_names_replace_the_subject(cert: X509, subject_name: X509Name, domain: Domain)
    requires
        cert.subject_alt_names is Some,
    ensures
        certificate_matches(cert, domain) == certificate_matches(
            X509 { subject_alt_names: cert.subject_alt_names, subject_name },
            domain,
        ),
{
}

/// An alternative name matches on its own: names in two lists together match exactly if they do in
/// one of them.
pub proof fn law_alt_names_match_one_by_one(
    names: Seq<GeneralName>,
    more: Seq<GeneralName>,
    domain: Domain,
)
    ensures
        alt_names_match(names + more, domain) <==> alt_names_match(names, domain)
            || alt_names_match(more, domain),
{
    let all = names + more;
    if alt_names_match(names, domain) {
        let i = choose|i: int|
            0 <= i < names.len() && #[trigger] alt_name_matches(names[i], domain);
        assert(alt_name_matches(all[i], domain));
    }
    if alt_names_match(more, domain) {
        let i = choose|i: int| 0 <= i < more.len() && #[trigger] alt_name_matches(more[i], domain);
        assert(alt_name_matches(all[names.len() + i], domain));
    }
    if alt_names_match(all, domain) {
        let i = choose|i: int| 0 <= i < all.len() && #[trigger] alt_name_matches(all[i], domain);
        if i < names.len() {
            assert(alt_name_matches(names[i], domain));
        } else {
            assert(alt_name_matches(more[i - names.len()], domain));
        }
    }
}

/// A DNS name is never taken for an IP address, nor an address for a DNS name.
pub proof fn law_kinds_of_names_are_kept_apart(name: GeneralName, domain: Domain)
    requires
        alt_name_matches(name, domain),
    ensures
        domain.ip is Some <==> name is IpAddress,
        domain.ip is None <==> name is DnsName,
{
}

/// Of several common names only the first counts.
pub proof fn law_first_common_name_counts(first: Vec<u8>, rest: Seq<Vec<u8>>, domain: Domain)
    ensures
        subject_matches(seq![first] + rest, domain) == subject_matches(seq![first], domain),
{
    assert((seq![first] + rest)[0] == first);
}

/// Where the certificate is not needed, the verdict is that reached so far, whatever certificate
/// there is.
pub proof fn law_certificate_is_read_only_where_needed<E>(
    session: Result<Option<SessionData>, E>,
    preverify_ok: bool,
    x509_ctx: X509StoreContext,
)
    requires
        !(session matches Ok(Some(ssl)) && ssl.hostname is Some && preverify_ok
            && x509_ctx.error_depth == 0),
    ensures
        session_verdict(session, preverify_ok, x509_ctx) == preverify_ok,
{
}

/// The verdict rests on the text alone: two domains of one text have the same verdict.
pub proof fn law_text_fixes_the_verdict(
    asked: Domain,
    stored: Domain,
    preverify_ok: bool,
    x509_ctx: X509StoreContext,
)
    requires
        is_domain_of(asked, asked.name@),
        is_domain_of(stored, asked.name@),
    ensures
        verdict(stored, preverify_ok, x509_ctx) == verdict(asked, preverify_ok, x509_ctx),
{
    if x509_ctx.current_cert is Some {
        let cert = x509_ctx.current_cert->0;
        if cert.subject_alt_names is Some {
            let names = cert.subject_alt_names->0@;
            assert(forall|i: int|
                0 <= i < names.len() ==> alt_name_matches(#[trigger] names[i], stored)
                    == alt_name_matches(names[i], asked));
        }
    }
}

/// Where alternative names match a domain, one of them, whose index is given back, is a DNS name
/// that matches a domain that is no address, or the raw form of the domain's address.
pub proof fn law_matching_alt_name_is_in_the_list(
    names: Seq<GeneralName>,
    domain: Domain,
) -> (i: int)
    requires
        alt_names_match(names, domain),
    ensures
        0 <= i < names.len(),
        match names[i] {
            GeneralName::DnsName(pattern) => domain.ip is None && dns_match(
                pattern@,
                domain.name@,
                false,
            ),
            GeneralName::IpAddress(actual) => domain.ip is Some && actual@
                == domain.ip->0.octets(),
            GeneralName::Other => false,
        },
{
    choose|i: int| 0 <= i < names.len() && #[trigger] alt_name_matches(names[i], domain)
}

/// Any one of the alternative names is enough, wherever it stands in the list: a DNS name that
/// matches a domain that is no address, or the raw form of the domain's address.
pub proof fn law_any_alt_name_is_enough(names: Seq<GeneralName>, domain: Domain, i: int)
    requires
        0 <= i < names.len(),
        match names[i] {
            GeneralName::DnsName(pattern) => domain.ip is None && dns_match(
                pattern@,
                domain.name@,
                false,
            ),
            GeneralName::IpAddress(actual) => domain.ip is Some && actual@
                == domain.ip->0.octets(),
            GeneralName::Other => false,
        },
    ensures
        alt_names_match(names, domain),
{
    assert(alt_name_matches(names[i], domain));
}

/// The subject name matches a domain exactly if it has a common name, the first of which is text
/// and matches, without wildcards where the domain is an address.
pub proof fn law_subject_is_its_first_common_name(common_names: Seq<Vec<u8>>, domain: Domain)
    ensures
        common_names.len() == 0 ==> !subject_matches(common_names, domain),
        common_names.len() > 0 && !valid_utf8(common_names[0]@) ==> !subject_matches(
            common_names,
            domain,
        ),
        common_names.len() > 0 && valid_utf8(common_names[0]@) ==> subject_matches(
            common_names,
            domain,
        ) == dns_match(decode_utf8(common_names[0]@), domain.name@, domain.ip is Some),
{
}

/// A certificate with alternative names is made out to a domain exactly if one of them matches it:
/// where it is, the index of such a name is given back.
pub proof fn law_certificate_has_a_matching_alt_name(
    cert: X509,
    list: Vec<GeneralName>,
    domain: Domain,
) -> (i: int)
    requires
        cert.subject_alt_names == Some(list),
        certificate_matches(cert, domain),
    ensures
        0 <= i < list@.len(),
        match list@[i] {
            GeneralName::DnsName(pattern) => domain.ip is None && dns_match(
                pattern@,
                domain.name@,
                false,
            ),
            GeneralName::IpAddress(actual) => domain.ip is Some && actual@
                == domain.ip->0.octets(),
            GeneralName::Other => false,
        },
{
    law_matching_alt_name_is_in_the_list(list@, domain)
}

/// A certificate is made out to a domain that one of its alternative names matches, wherever that
/// name stands in the list.
pub proof fn law_alt_name_makes_a_certificate_match(
    cert: X509,
    list: Vec<GeneralName>,
    domain: Domain,
    i: int,
)
    requires
        cert.subject_alt_names == Some(list),
        0 <= i < list@.len(),
        match list@[i] {
            GeneralName::DnsName(pattern) => domain.ip is None && dns_match(
                pattern@,
                domain.name@,
                false,
            ),
            GeneralName::IpAddress(actual) => domain.ip is Some && actual@
                == domain.ip->0.octets(),
            GeneralName::Other => false,
        },
    ensures
        certificate_matches(cert, domain),
{
    law_any_alt_name_is_enough(list@, domain, i);
}

/// Further alternative names, before or behind those of a certificate that is made out to a domain,
/// leave it made out to that domain.
pub proof fn law_more_alt_names_keep_a_match(
    cert: X509,
    list: Vec<GeneralName>,
    longer_cert: X509,
    longer: Vec<GeneralName>,
    before: Seq<GeneralName>,
    behind: Seq<GeneralName>,
    domain: Domain,
)
    requires
        cert.subject_alt_names == Some(list),
        longer_cert.subject_alt_names == Some(longer),
        longer@ == before + list@ + behind,
        certificate_matches(cert, domain),
    ensures
        certificate_matches(longer_cert, domain),
{
    let i = law_certificate_has_a_matching_alt_name(cert, list, domain);
    assert(longer@[before.len() + i] == list@[i]);
    law_alt_name_makes_a_certificate_match(longer_cert, longer, domain, before.len() + i);
}

/// A certificate without alternative names is made out to a domain exactly if its first common name
/// is text and matches, without wildcards where the domain is an address.
pub proof fn law_certificate_falls_back_to_its_common_name(cert: X509, domain: Domain)
    requires
        cert.subject_alt_names is None,
    ensures
        certificate_matches(cert, domain) <==> {
            let common_names = cert.subject_name.common_names@;
            &&& common_names.len() > 0
            &&& valid_utf8(common_names[0]@)
            &&& dns_match(decode_utf8(common_names[0]@), domain.name@, domain.ip is Some)
        },
{
}

/// Where the chain is in order so far, the peer's own certificate is accepted if and only if it is
/// made out to the domain.
pub proof fn law_peer_is_accepted_exactly_if_named(
    domain: Domain,
    x509_ctx: X509StoreContext,
    cert: X509,
)
    requires
        x509_ctx.error_depth == 0,
        x509_ctx.current_cert == Some(cert),
    ensures
        verdict(domain, true, x509_ctx) <==> certificate_matches(cert, domain),
{
}

/// Where there is no certificate to look at, the verdict reached so far stands.
pub proof fn law_missing_certificate_keeps_the_verdict(
    domain: Domain,
    preverify_ok: bool,
    x509_ctx: X509StoreContext,
)
    requires
        x509_ctx.current_cert is None,
    ensures
        verdict(domain, preverify_ok, x509_ctx) == preverify_ok,
{
}

/// A peer whose certificate has the domain itself among its alternative DNS names is accepted, if
/// the chain is in order so far and the domain is no address.
pub proof fn law_peer_with_the_alt_name_is_accepted(
    domain: Domain,
    x509_ctx: X509StoreContext,
    cert: X509,
    list: Vec<GeneralName>,
    i: int,
    text: String,
)
    requires
        x509_ctx.error_depth == 0,
        x509_ctx.current_cert == Some(cert),
        cert.subject_alt_names == Some(list),
        0 <= i < list@.len(),
        list@[i] == GeneralName::DnsName(text),
        text@ == domain.name@,
        domain.ip is None,
    ensures
        verdict(domain, true, x509_ctx),
{
    law_name_matches_itself(domain.name@, false);
    law_alt_name_makes_a_certificate_match(cert, list, domain, i);
}

/// A peer whose certificate has the address of the domain among its alternative names is accepted,
/// if the chain is in order so far.
pub proof fn law_peer_with_the_address_is_accepted(
    domain: Domain,
    ip: IpAddr,
    x509_ctx: X509StoreContext,
    cert: X509,
    list: Vec<GeneralName>,
    i: int,
    raw: Vec<u8>,
)
    requires
        x509_ctx.error_depth == 0,
        x509_ctx.current_cert == Some(cert),
        cert.subject_alt_names == Some(list),
        0 <= i < list@.len(),
        list@[i] == GeneralName::IpAddress(raw),
        domain.ip == Some(ip),
        match ip {
            IpAddr::V4(octets) => raw@ == octets@,
            IpAddr::V6(segments) => raw@.len() == 16 && forall|k: int|
                0 <= k < 8 ==> raw@[2 * k] * 256 + raw@[2 * k + 1] == #[trigger] segments@[k],
        },
    ensures
        verdict(domain, true, x509_ctx),
{
    match ip {
        IpAddr::V4(octets) => {
            law_ipv4_octet_by_octet(octets, raw@);
        },
        IpAddr::V6(segments) => {
            law_ipv6_segment_by_segment(segments, raw@);
        },
    }
    law_alt_name_makes_a_certificate_match(cert, list, domain, i);
}

/// A peer whose certificate has no alternative names and the domain itself as its first common name
/// is accepted, if the chain is in order so far, be the domain an address or not.
pub proof fn law_peer_with_the_common_name_is_accepted(
    domain: Domain,
    x509_ctx: X509StoreContext,
    cert: X509,
)
    requires
        x509_ctx.error_depth == 0,
        x509_ctx.current_cert == Some(cert),
        cert.subject_alt_names is None,
        cert.subject_name.common_names@.len() > 0,
        valid_utf8(cert.subject_name.common_names@[0]@),
        decode_utf8(cert.subject_name.common_names@[0]@) == domain.name@,
    ensures
        verdict(domain, true, x509_ctx),
{
    law_name_matches_itself(domain.name@, domain.ip is Some);
}

/// A session with a hostname has its peer checked against the domain of that text.
pub proof fn law_session_checks_its_hostname<E>(
    name: &str,
    preverify_ok: bool,
    x509_ctx: X509StoreContext,
)
    ensures
        session_verdict::<E>(
            Ok(Some(SessionData { hostname: Some(name) })),
            preverify_ok,
            x509_ctx,
        ) == verdict(Domain { name, ip: parsed_ip(name@) }, preverify_ok, x509_ctx),
{
}

/// A session that has no hostname, or cannot be told, keeps the verdict reached so far.
pub proof fn law_session_without_hostname_keeps_the_verdict<E>(
    error: E,
    preverify_ok: bool,
    x509_ctx: X509StoreContext,
)
    ensures
        session_verdict::<E>(Ok(Some(SessionData { hostname: None })), preverify_ok, x509_ctx)
            == preverify_ok,
        session_verdict::<E>(Ok(None), preverify_ok, x509_ctx) == preverify_ok,
        session_verdict::<E>(Err(error), preverify_ok, x509_ctx) == preverify_ok,
{
}

/// The domain of a text is that text, with the address that it denotes.
pub proof fn law_domain_is_its_text_and_address(name: &str)
    ensures
        domain_of(name).name == name,
        domain_of(name).ip == parsed_ip(name@),
{
}

} // verus!
