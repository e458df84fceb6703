//! A TLS session, as the list of the calls that open it.
use vstd::prelude::*;

use crate::context::{OpensslApi, SslContext};
use crate::ip::IpAddr;
use crate::verify::{domain_of, Domain};

verus! {

/// How OpenSSL compares hostnames.
#[derive(Clone, Copy, Debug, PartialEq, Eq)]
pub enum HostFlags {
    /// A wildcard stands for a whole label or for nothing.
    NoPartialWildcards,
}

/// A call by which a session is made, configured or opened.
#[derive(Clone, Copy, Debug, PartialEq, Eq)]
pub enum SslCall<'a> {
    /// Make the session from its context.
    New,
    /// Name the server in the handshake.
    SetHostname(&'a str),
    SetHostflags(HostFlags),
    /// Have the certificate compared with an address.
    SetIp(IpAddr),
    /// Have the certificate compared with a name.
    SetHost(&'a str),
    /// Keep the hostname with the session, for the verification callback.
    SetHostnameData(&'a str),
    /// Do the handshake as a client.
    Connect,
    /// Do the handshake as a server.
    Accept,
}

/// Whether a call can fail. The host flags and the hostname for the callback are only noted down,
/// which always succeeds.
pub open spec fn can_fail(call: SslCall) -> bool {
    !(call is SetHostflags || call is SetHostnameData)
}

/// A session of a context.
pub struct Ssl<'a> {
    pub context: &'a SslContext,
    /// The calls that open the session, in order.
    pub calls: Vec<SslCall<'a>>,
}

impl<'a> Ssl<'a> {
    /// A new session of a context.
    pub fn new(context: &'a SslContext) -> (ssl: Ssl<'a>)
        ensures
            ssl.context == context,
            ssl.calls@ == seq![SslCall::New],
    {
        let mut ssl = Ssl { context, calls: Vec::new() };
        ssl.call(SslCall::New);
        ssl
    }

    /// Adds a call behind the others.
    pub fn call(&mut self, call: SslCall<'a>)
        ensures
            final(self).context == old(self).context,
            final(self).calls@ == old(self).calls@.push(call),
    {
        self.calls.push(call);
    }
}

/// The calls that have the peer's certificate compared with the domain.
pub open spec fn hostname_calls<'a>(api: OpensslApi, domain: Domain<'a>) -> Seq<SslCall<'a>> {
    match api {
        OpensslApi::V101 => seq![SslCall::SetHostnameData(domain.name)],
        OpensslApi::V102 | OpensslApi::V110 => seq![
            SslCall::SetHostflags(HostFlags::NoPartialWildcards),
            match domain.ip {
                Some(ip) => SslCall::SetIp(ip),
                None => SslCall::SetHost(domain.name),
            },
        ],
    }
}

/// The hostname that a session was given for its verification callback.
pub open spec fn hostname_data<'a>(calls: Seq<SslCall<'a>>) -> Option<&'a str>
    decreases calls.len(),
{
    if calls.len() == 0 {
        None
    } else {
        match calls.last() {
            SslCall::SetHostnameData(name) => Some(name),
            _ => hostname_data(calls.drop_last()),
        }
    }
}

/// Has the peer's certificate compared with the domain.
pub fn setup_verify_domain<'a>(ssl: &mut Ssl<'a>, domain: Domain<'a>)
    ensures
        final(ssl).context == old(ssl).context,
        final(ssl).calls@ == old(ssl).calls@ + hostname_calls(old(ssl).context.api, domain),
{
    match ssl.context.api {
        OpensslApi::V101 => {
            ssl.call(SslCall::SetHostnameData(domain.name));
        },
        OpensslApi::V102 | OpensslApi::V110 => {
            ssl.call(SslCall::SetHostflags(HostFlags::NoPartialWildcards));
            match domain.ip {
                Some(ip) => {
                    ssl.call(SslCall::SetIp(ip));
                },
                None => {
                    ssl.call(SslCall::SetHost(domain.name));
                },
            }
        },
    }
}

/// Has the peer's certificate compared with the domain of this text: with the address that the text
/// denotes, or else with the text.
pub fn setup_verify_hostname<'a>(ssl: &mut Ssl<'a>, domain: &'a str)
    ensures
        final(ssl).context == old(ssl).context,
        final(ssl).calls@ == old(ssl).calls@ + hostname_calls(
            old(ssl).context.api,
            domain_of(domain),
        ),
{
    setup_verify_domain(ssl, Domain::new(domain));
}

/// Whatever the certificate of the peer is compared with is the domain: its address where it has
/// one, else its name, and with the first interface its name for the callback. Nothing else is set,
/// each thing is set once, and partial wildcards are off before OpenSSL compares.
pub proof fn law_comparison_is_with_the_domain(api: OpensslApi, domain: Domain, i: int)
    requires
        0 <= i < hostname_calls(api, domain).len(),
    ensures
        hostname_calls(api, domain).len() == (if api is V101 {
            1nat
        } else {
            2nat
        }),
        match hostname_calls(api, domain)[i] {
            SslCall::SetHost(name) => name == domain.name && domain.ip is None && !(api is V101) && i
                == 1,
            SslCall::SetIp(ip) => domain.ip == Some(ip) && !(api is V101) && i == 1,
            SslCall::SetHostnameData(name) => name == domain.name && api is V101 && i == 0,
            SslCall::SetHostflags(flags) => flags == HostFlags::NoPartialWildcards && !(api is V101)
                && i == 0,
            SslCall::SetHostname(name) => false,
            SslCall::New => false,
            SslCall::Connect => false,
            SslCall::Accept => false,
        },
{
}

} // verus!
