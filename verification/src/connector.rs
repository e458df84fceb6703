//! Connectors, which open TLS sessions as a client.
use vstd::prelude::*;

use crate::cacerts::ANDROID_CACERTS;
use crate::context;
use crate::context::{
    base_calls, ctx, setup_verify, verify_call, ContextCall, OpensslApi, Platform, SslContext,
    SslContextBuilder, SslMethod, VerifyMode,
};
use crate::flags::{modes_of, options_of};
use crate::run::{
    all_succeed, fails_first, is_sound, law_only_calls_that_can_fail_decide,
    law_pending_call_has_its_predecessors, Progress,
};
use crate::session;
use crate::session::{
    hostname_calls, hostname_data, setup_verify_domain, setup_verify_hostname, HostFlags, Ssl, SslCall,
};
use crate::verify::{
    domain_of, law_text_fixes_the_verdict, session_verdict, verdict, Domain, SessionData,
    X509StoreContext,
};

verus! {

/// The cipher suites of a connector, those of Python's `ssl` module.
pub const CONNECTOR_CIPHERS: &'static str = "TLS13-AES-256-GCM-SHA384:TLS13-CHACHA20-POLY1305-SHA256:\
    TLS13-AES-128-GCM-SHA256:\
    ECDH+AESGCM:ECDH+CHACHA20:DH+AESGCM:DH+CHACHA20:ECDH+AES256:DH+AES256:\
    ECDH+AES128:DH+AES:ECDH+HIGH:DH+HIGH:RSA+AESGCM:RSA+AES:RSA+HIGH:\
    !aNULL:!eNULL:!MD5:!3DES";

/// The calls that make the context of a connector.
pub open spec fn connector_calls(method: SslMethod, platform: Platform) -> Seq<ContextCall> {
    base_calls(method, platform) + seq![ContextCall::SetDefaultVerifyPaths] + (if platform.android {
        seq![ContextCall::AddCertificatesOf(ANDROID_CACERTS)]
    } else {
        seq![]
    }) + seq![ContextCall::SetCipherList(CONNECTOR_CIPHERS), verify_call(platform.api)]
}

/// The calls that name a domain to the server, have its certificate compared with the domain, and
/// do the handshake.
pub open spec fn domain_calls<'a>(api: OpensslApi, domain: Domain<'a>) -> Seq<SslCall<'a>> {
    seq![SslCall::SetHostname(domain.name)] + hostname_calls(api, domain) + seq![SslCall::Connect]
}

/// The calls that open a session to a domain.
pub open spec fn connect_calls<'a>(api: OpensslApi, domain: Domain<'a>) -> Seq<SslCall<'a>> {
    seq![SslCall::New] + domain_calls(api, domain)
}

/// A builder for `SslConnector`s.
pub struct SslConnectorBuilder(pub SslContextBuilder);

impl SslConnectorBuilder {
    /// Creates a new builder for TLS connections.
    ///
    /// The default configuration is subject to change, and is currently derived from Python.
    pub fn new(method: SslMethod, platform: &Platform) -> (builder: SslConnectorBuilder)
        ensures
            builder.0.api == platform.api,
            builder.0.calls@ == connector_calls(method, *platform),
    {
        let mut ctx = ctx(method, platform);
        ctx.call(ContextCall::SetDefaultVerifyPaths);
        if platform.android {
            ctx.call(ContextCall::AddCertificatesOf(ANDROID_CACERTS));
        }
        ctx.call(ContextCall::SetCipherList(CONNECTOR_CIPHERS));
        setup_verify(&mut ctx);
        assert(ctx.calls@ =~= connector_calls(method, *platform));
        SslConnectorBuilder(ctx)
    }

    /// The builder of the context.
    pub fn builder(&self) -> (ctx: &SslContextBuilder)
        ensures
            *ctx == self.0,
    {
        &self.0
    }

    /// The builder of the context, for further calls.
    pub fn builder_mut(&mut self) -> (ctx: &mut SslContextBuilder)
        ensures
            *ctx == old(self).0,
            *final(ctx) == final(self).0,
    {
        &mut self.0
    }

    /// Consumes the builder, returning an `SslConnector`.
    pub fn build(self) -> (connector: SslConnector)
        ensures
            connector.0.api == self.0.api,
            connector.0.calls == self.0.calls,
    {
        SslConnector(self.0.build())
    }
}

/// A type which wraps client-side streams in a TLS session.
///
/// OpenSSL's default configuration is highly insecure. This connector manages the OpenSSL
/// structures, configuring cipher suites, session options, hostname verification, and more.
///
/// OpenSSL's built in hostname verification is used with OpenSSL 1.0.2 or 1.1.0, and that of
/// `verify` with OpenSSL 1.0.1.
pub struct SslConnector(pub SslContext);

impl Clone for SslConnector {
    fn clone(&self) -> (copy: Self)
        ensures
            copy.0.api == self.0.api,
            copy.0.calls@ == self.0.calls@,
    {
        SslConnector(self.0.clone())
    }
}

impl SslConnector {
    /// Initiates a client-side TLS session.
    ///
    /// The domain is used for SNI and hostname verification.
    pub fn connect<'a>(&'a self, domain: &'a str) -> (ssl: Ssl<'a>)
        ensures
            *ssl.context == self.0,
            ssl.calls@ == connect_calls(self.0.api, domain_of(domain)),
    {
        self.configure().connect(domain)
    }

    /// Initiates a client-side TLS session without performing hostname verification.
    ///
    /// # Warning
    ///
    /// You should think very carefully before you use this method. If hostname verification is not
    /// used, *any* valid certificate for *any* site will be trusted for use from any other. This
    /// introduces a significant vulnerability to man-in-the-middle attacks.
    pub fn danger_connect_without_providing_domain_for_certificate_verification_and_server_name_indication<
        'a,
    >(&'a self) -> (ssl: Ssl<'a>)
        ensures
            *ssl.context == self.0,
            ssl.calls@ == seq![SslCall::New, SslCall::Connect],
    {
        self.configure()
            .danger_connect_without_providing_domain_for_certificate_verification_and_server_name_indication()
    }

    /// Returns a structure allowing for configuration of a single TLS session before connection.
    pub fn configure<'a>(&'a self) -> (configuration: ConnectConfiguration<'a>)
        ensures
            *configuration.0.context == self.0,
            configuration.0.calls@ == seq![SslCall::New],
    {
        ConnectConfiguration(Ssl::new(&self.0))
    }
}

/// A type which allows for configuration of a client-side TLS session before connection.
pub struct ConnectConfiguration<'a>(pub Ssl<'a>);

impl<'a> ConnectConfiguration<'a> {
    /// The session.
    pub fn ssl(&self) -> (ssl: &Ssl<'a>)
        ensures
            *ssl == self.0,
    {
        &self.0
    }

    /// The session, for further calls.
    pub fn ssl_mut(&mut self) -> (ssl: &mut Ssl<'a>)
        ensures
            *ssl == old(self).0,
            *final(ssl) == final(self).0,
    {
        &mut self.0
    }

    /// Initiates a client-side TLS session.
    ///
    /// The domain is used for SNI and hostname verification.
    pub fn connect(self, domain: &'a str) -> (ssl: Ssl<'a>)
        ensures
            ssl.context == self.0.context,
            ssl.calls@ == self.0.calls@ + domain_calls(self.0.context.api, domain_of(domain)),
    {
        let mut ssl = self.0;
        ssl.call(SslCall::SetHostname(domain));
        setup_verify_hostname(&mut ssl, domain);
        ssl.call(SslCall::Connect);
        assert(ssl.calls@ =~= self.0.calls@ + domain_calls(
            self.0.context.api,
            domain_of(domain),
        ));
        ssl
    }

    /// Initiates a client-side TLS session to a domain whose text has been parsed.
    pub fn connect_to(self, domain: Domain<'a>) -> (ssl: Ssl<'a>)
        ensures
            ssl.context == self.0.context,
            ssl.calls@ == self.0.calls@ + domain_calls(self.0.context.api, domain),
    {
        let mut ssl = self.0;
        ssl.call(SslCall::SetHostname(domain.name));
        setup_verify_domain(&mut ssl, domain);
        ssl.call(SslCall::Connect);
        assert(ssl.calls@ =~= self.0.calls@ + domain_calls(self.0.context.api, domain));
        ssl
    }

    /// Initiates a client-side TLS session without performing hostname verification.
    ///
    /// The verification configuration of the connector's context is not overridden.
    ///
    /// # Warning
    ///
    /// You should think very carefully before you use this method. If hostname verification is not
    /// used, *any* valid certificate for *any* site will be trusted for use from any other. This
    /// introduces a significant vulnerability to man-in-the-middle attacks.
    pub fn danger_connect_without_providing_domain_for_certificate_verification_and_server_name_indication(
        self,
    ) -> (ssl: Ssl<'a>)
        ensures
            ssl.context == self.0.context,
            ssl.calls@ == self.0.calls@.push(SslCall::Connect),
    {
        let mut ssl = self.0;
        ssl.call(SslCall::Connect);
        ssl
    }
}

/// Every connector verifies its peer: that is the last call of its context, so none behind it takes
/// it back.
pub proof fn law_peer_is_always_verified(method: SslMethod, platform: Platform)
    ensures
        connector_calls(method, platform).last() == ContextCall::SetVerify(VerifyMode::Peer)
            || connector_calls(method, platform).last() == ContextCall::SetVerifyCallback(
            VerifyMode::Peer,
        ),
{
}

/// The options and modes of a connector are those that every context starts from: they are set once.
pub proof fn law_connector_options_are_set_once(method: SslMethod, platform: Platform, i: int)
    requires
        0 <= i < connector_calls(method, platform).len(),
    ensures
        connector_calls(method, platform)[i] is SetOptions <==> i == 1,
        connector_calls(method, platform)[i] is SetMode <==> i == 2,
        connector_calls(method, platform)[1] == ContextCall::SetOptions(
            options_of(platform.options),
        ),
        connector_calls(method, platform)[2] == ContextCall::SetMode(
            modes_of(platform.modes, platform.version_number),
        ),
{
}

/// A session to a domain names the domain to the server and has the certificate compared with it.
/// Where OpenSSL does the comparison, the session holds the address or else the name, and partial
/// wildcards are off. Where it does not, the context has the callback and the session the hostname.
pub proof fn law_domain_is_named_and_verified(
    method: SslMethod,
    platform: Platform,
    domain: Domain,
)
    ensures
        ({
            let context = connector_calls(method, platform);
            let session = connect_calls(platform.api, domain);
            &&& session.contains(SslCall::SetHostname(domain.name))
            &&& if platform.api is V101 {
                &&& context.contains(ContextCall::SetVerifyCallback(VerifyMode::Peer))
                &&& hostname_data(session) == Some(domain.name)
            } else {
                &&& context.contains(ContextCall::SetVerify(VerifyMode::Peer))
                &&& session.contains(SslCall::SetHostflags(HostFlags::NoPartialWildcards))
                &&& session.contains(
                    match domain.ip {
                        Some(ip) => SslCall::SetIp(ip),
                        None => SslCall::SetHost(domain.name),
                    },
                )
            }
        }),
{
    let context = connector_calls(method, platform);
    let session = connect_calls(platform.api, domain);
    assert(context[context.len() - 1] == verify_call(platform.api));
    assert(session[1] == SslCall::SetHostname(domain.name));
    if platform.api is V101 {
        let before = session.drop_last();
        assert(before.last() == SslCall::SetHostnameData(domain.name));
        assert(session.last() == SslCall::Connect);
        assert(hostname_data(before) == Some(domain.name));
    } else {
        assert(session[2] == SslCall::SetHostflags(HostFlags::NoPartialWildcards));
        assert(session[3] == hostname_calls(platform.api, domain)[1]);
    }
}

/// The handshake starts only once the domain was named to the server and all that has the
/// certificate compared with it is in place.
pub proof fn law_handshake_waits_for_verification<E>(
    api: OpensslApi,
    domain: Domain,
    outcomes: Seq<Result<(), E>>,
)
    requires
        Progress::<SslCall, E>::start(connect_calls(api, domain)).after_all(outcomes).pending()
            == Some(SslCall::Connect),
    ensures
        outcomes.len() == connect_calls(api, domain).len() - 1,
        forall|i: int| 0 <= i < outcomes.len() ==> outcomes[i] is Ok,
{
    law_pending_call_has_its_predecessors::<SslCall, E>(connect_calls(api, domain), outcomes);
}

/// To open a session without a domain adds nothing that the certificate is compared with.
pub proof fn law_danger_connect_compares_nothing_more(calls: Seq<SslCall>)
    ensures
        hostname_data(calls.push(SslCall::Connect)) == hostname_data(calls),
{
    assert(calls.push(SslCall::Connect).drop_last() =~= calls);
}

/// To make a connector, the calls that can fail are its creation, the trusted roots and the cipher
/// list, which makes three off Android and four on it.
pub proof fn law_connector_calls_that_can_fail(method: SslMethod, platform: Platform, i: int)
    requires
        0 <= i < connector_calls(method, platform).len(),
    ensures
        context::can_fail(connector_calls(method, platform)[i]) <==> {
            ||| i == 0
            ||| i == 3
            ||| i == 4
            ||| i == 5 && platform.android
        },
        connector_calls(method, platform)[0] == ContextCall::New(method),
        connector_calls(method, platform)[3] == ContextCall::SetDefaultVerifyPaths,
        platform.android ==> connector_calls(method, platform)[4] == ContextCall::AddCertificatesOf(
            ANDROID_CACERTS,
        ),
        connector_calls(method, platform)[if platform.android {
            5
        } else {
            4
        }] == ContextCall::SetCipherList(CONNECTOR_CIPHERS),
{
}

/// Making a connector ends with an error exactly if that is the first error among the calls that
/// can fail, and succeeds exactly if all of those do.
pub proof fn law_connector_error_is_the_first<E>(
    method: SslMethod,
    platform: Platform,
    outcomes: Seq<Result<(), E>>,
    error: E,
)
    requires
        outcomes.len() >= connector_calls(method, platform).len(),
        is_sound(
            connector_calls(method, platform),
            outcomes,
            |call: ContextCall| context::can_fail(call),
        ),
    ensures
        ({
            let calls = connector_calls(method, platform);
            let fails = |call: ContextCall| context::can_fail(call);
            let result = Progress::<ContextCall, E>::start(calls).after_all(outcomes).result();
            &&& result == Some(Err::<(), E>(error)) <==> exists|k: int|
                fails_first(calls, outcomes, fails, k, error)
            &&& result == Some(Ok::<(), E>(())) <==> all_succeed(calls, outcomes, fails)
        }),
{
    law_only_calls_that_can_fail_decide::<ContextCall, E>(
        connector_calls(method, platform),
        outcomes,
        |call: ContextCall| context::can_fail(call),
        error,
    );
}

/// To open a session, the calls that can fail are its creation, the naming of the domain, the
/// address or name that OpenSSL compares, where it does, and the handshake.
pub proof fn law_session_calls_that_can_fail(api: OpensslApi, domain: Domain, i: int)
    requires
        0 <= i < connect_calls(api, domain).len(),
    ensures
        session::can_fail(connect_calls(api, domain)[i]) <==> i != 2,
{
}

/// Opening a session ends with an error exactly if that is the first error among the calls that can
/// fail, the handshake among them, and succeeds exactly if all of those do.
pub proof fn law_session_error_is_the_first<E>(
    api: OpensslApi,
    domain: Domain,
    outcomes: Seq<Result<(), E>>,
    error: E,
)
    requires
        outcomes.len() >= connect_calls(api, domain).len(),
        is_sound(
            connect_calls(api, domain),
            outcomes,
            |call: SslCall| session::can_fail(call),
        ),
    ensures
        ({
            let calls = connect_calls(api, domain);
            let fails = |call: SslCall| session::can_fail(call);
            let result = Progress::<SslCall, E>::start(calls).after_all(outcomes).result();
            &&& result == Some(Err::<(), E>(error)) <==> exists|k: int|
                fails_first(calls, outcomes, fails, k, error)
            &&& result == Some(Ok::<(), E>(())) <==> all_succeed(calls, outcomes, fails)
        }),
{
    law_only_calls_that_can_fail_decide::<SslCall, E>(
        connect_calls(api, domain),
        outcomes,
        |call: SslCall| session::can_fail(call),
        error,
    );
}

/// Where OpenSSL does not compare hostnames itself, the callback checks the domain that `connect` was
/// given: the hostname that the session keeps has its text, and whatever is read back with that
/// text is checked as that domain.
pub proof fn law_callback_checks_the_domain<E>(
    domain: &str,
    stored: &str,
    preverify_ok: bool,
    x509_ctx: X509StoreContext,
)
    requires
        hostname_data(connect_calls(OpensslApi::V101, domain_of(domain))) matches Some(kept)
            ==> stored@ == kept@,
    ensures
        hostname_data(connect_calls(OpensslApi::V101, domain_of(domain))) == Some(domain),
        session_verdict::<E>(
            Ok(Some(SessionData { hostname: Some(stored) })),
            preverify_ok,
            x509_ctx,
        ) == verdict(domain_of(domain), preverify_ok, x509_ctx),
{
    let session = connect_calls(OpensslApi::V101, domain_of(domain));
    let before = session.drop_last();
    assert(before.last() == SslCall::SetHostnameData(domain));
    assert(session.last() == SslCall::Connect);
    assert(hostname_data(before) == Some(domain));
    law_text_fixes_the_verdict(domain_of(domain), domain_of(stored), preverify_ok, x509_ctx);
}

/// The calls that make a connector, each of them: it is made for its method, its options and modes
/// are set, the default roots are trusted and on Android those of the system, then the cipher list
/// is set and the peer's certificate made necessary, with the callback where OpenSSL does not
/// compare hostnames. There is no other call, and none of them twice.
pub proof fn law_connector_calls_one_by_one(method: SslMethod, platform: Platform, i: int)
    requires
        0 <= i < connector_calls(method, platform).len(),
    ensures
        connector_calls(method, platform).len() == (if platform.android {
            7nat
        } else {
            6nat
        }),
        match connector_calls(method, platform)[i] {
            ContextCall::New(made_for) => made_for == method && i == 0,
            ContextCall::SetOptions(options) => options == options_of(platform.options) && i == 1,
            ContextCall::SetMode(mode) => mode == modes_of(platform.modes, platform.version_number)
                && i == 2,
            ContextCall::SetDefaultVerifyPaths => i == 3,
            ContextCall::AddCertificatesOf(directory) => directory@
                == "/system/etc/security/cacerts"@ && platform.android && i == 4,
            ContextCall::SetCipherList(list) => i == connector_calls(method, platform).len() - 2
                && list@ == "TLS13-AES-256-GCM-SHA384:TLS13-CHACHA20-POLY1305-SHA256:\
                TLS13-AES-128-GCM-SHA256:ECDH+AESGCM:ECDH+CHACHA20:DH+AESGCM:DH+CHACHA20:\
                ECDH+AES256:DH+AES256:ECDH+AES128:DH+AES:ECDH+HIGH:DH+HIGH:RSA+AESGCM:RSA+AES:\
                RSA+HIGH:!aNULL:!eNULL:!MD5:!3DES"@,
            ContextCall::SetVerify(mode) => mode == VerifyMode::Peer && !(platform.api is V101) && i
                == connector_calls(method, platform).len() - 1,
            ContextCall::SetVerifyCallback(mode) => mode == VerifyMode::Peer && platform.api is V101
                && i == connector_calls(method, platform).len() - 1,
            _ => false,
        },
{
}

/// The calls that open a session to a domain, each of them: the session is made, the server is named
/// once, as the domain, whatever the certificate is compared with is the domain, and the handshake
/// is the last. There is no other call, so none takes an earlier one back.
pub proof fn law_session_calls_are_of_the_domain(api: OpensslApi, domain: Domain, i: int)
    requires
        0 <= i < connect_calls(api, domain).len(),
    ensures
        connect_calls(api, domain).len() == (if api is V101 {
            4nat
        } else {
            5nat
        }),
        match connect_calls(api, domain)[i] {
            SslCall::SetHost(name) => name == domain.name && domain.ip is None && !(api is V101) && i
                == 3,
            SslCall::SetIp(ip) => domain.ip == Some(ip) && !(api is V101) && i == 3,
            SslCall::SetHostnameData(name) => name == domain.name && api is V101 && i == 2,
            SslCall::SetHostflags(flags) => flags == HostFlags::NoPartialWildcards && !(api is V101)
                && i == 2,
            SslCall::SetHostname(name) => name == domain.name && i == 1,
            SslCall::New => i == 0,
            SslCall::Connect => i == connect_calls(api, domain).len() - 1,
            SslCall::Accept => false,
        },
{
}

/// A session that was made before is opened to a domain by the same calls, but for its making.
pub proof fn law_domain_calls_follow_the_making(api: OpensslApi, domain: Domain, i: int)
    ensures
        domain_calls(api, domain).len() + 1 == connect_calls(api, domain).len(),
        0 <= i < domain_calls(api, domain).len() ==> domain_calls(api, domain)[i] == connect_calls(
            api,
            domain,
        )[i + 1],
{
}

/// The name of the server in the handshake is the domain, whatever else was set on the session
/// before: of all the calls it is the last that names the server.
pub proof fn law_last_named_server_is_the_domain<'a>(
    before: Seq<SslCall<'a>>,
    api: OpensslApi,
    domain: Domain<'a>,
    i: int,
)
    ensures
        ({
            let calls = before + domain_calls(api, domain);
            &&& calls[before.len() as int] == SslCall::SetHostname(domain.name)
            &&& calls.last() == SslCall::Connect
            &&& before.len() < i < calls.len() ==> !(calls[i] is SetHostname)
        }),
{
}

} // verus!
