//! Acceptors, which open TLS sessions as a server.
use vstd::prelude::*;

use crate::context::{
    base_calls, can_fail, ctx, curve_calls, setup_curves, CertId, ContextCall, Curve, KeyId,
    OpensslApi, Platform, SslContext, SslContextBuilder, SslMethod, DHPARAM_PEM,
};
use crate::flags::{modes_of, options_of};
use crate::run::{law_first_failure_ends_the_run, Progress};
use crate::session::{Ssl, SslCall};

verus! {

/// The cipher suites of Mozilla's intermediate configuration.
pub const MOZILLA_INTERMEDIATE_CIPHERS: &'static str = "ECDHE-ECDSA-CHACHA20-POLY1305:ECDHE-RSA-CHACHA20-POLY1305:\
    ECDHE-ECDSA-AES128-GCM-SHA256:ECDHE-RSA-AES128-GCM-SHA256:\
    ECDHE-ECDSA-AES256-GCM-SHA384:ECDHE-RSA-AES256-GCM-SHA384:\
    DHE-RSA-AES128-GCM-SHA256:DHE-RSA-AES256-GCM-SHA384:ECDHE-ECDSA-AES128-SHA256:\
    ECDHE-RSA-AES128-SHA256:ECDHE-ECDSA-AES128-SHA:ECDHE-RSA-AES256-SHA384:\
    ECDHE-RSA-AES128-SHA:ECDHE-ECDSA-AES256-SHA384:ECDHE-ECDSA-AES256-SHA:\
    ECDHE-RSA-AES256-SHA:DHE-RSA-AES128-SHA256:DHE-RSA-AES128-SHA:DHE-RSA-AES256-SHA256:\
    DHE-RSA-AES256-SHA:ECDHE-ECDSA-DES-CBC3-SHA:ECDHE-RSA-DES-CBC3-SHA:\
    EDH-RSA-DES-CBC3-SHA:AES128-GCM-SHA256:AES256-GCM-SHA384:AES128-SHA256:AES256-SHA256:\
    AES128-SHA:AES256-SHA:DES-CBC3-SHA:!DSS";

/// The cipher suites of Mozilla's modern configuration.
pub const MOZILLA_MODERN_CIPHERS: &'static str = "ECDHE-ECDSA-AES256-GCM-SHA384:ECDHE-RSA-AES256-GCM-SHA384:\
    ECDHE-ECDSA-CHACHA20-POLY1305:ECDHE-RSA-CHACHA20-POLY1305:\
    ECDHE-ECDSA-AES128-GCM-SHA256:ECDHE-RSA-AES128-GCM-SHA256:ECDHE-ECDSA-AES256-SHA384:\
    ECDHE-RSA-AES256-SHA384:ECDHE-ECDSA-AES128-SHA256:ECDHE-RSA-AES128-SHA256";

/// The calls that make a context of Mozilla's intermediate configuration.
pub open spec fn intermediate_calls(method: SslMethod, platform: Platform) -> Seq<ContextCall> {
    base_calls(method, platform) + seq![
        ContextCall::ParseDhParams(DHPARAM_PEM),
        ContextCall::SetTmpDh,
    ] + curve_calls(platform.api) + seq![ContextCall::SetCipherList(MOZILLA_INTERMEDIATE_CIPHERS)]
}

/// The calls that make a context of Mozilla's modern configuration.
pub open spec fn modern_calls(method: SslMethod, platform: Platform) -> Seq<ContextCall> {
    base_calls(method, platform) + curve_calls(platform.api) + seq![
        ContextCall::SetCipherList(MOZILLA_MODERN_CIPHERS),
    ]
}

/// The calls that give a context its private key, its certificate and the chain behind it.
pub open spec fn identity_calls(
    private_key: KeyId,
    certificate: CertId,
    chain: Seq<CertId>,
) -> Seq<ContextCall> {
    seq![
        ContextCall::SetPrivateKey(private_key),
        ContextCall::SetCertificate(certificate),
        ContextCall::CheckPrivateKey,
    ] + Seq::new(chain.len(), |i: int| ContextCall::AddExtraChainCert(chain[i]))
}

/// A builder for `SslAcceptor`s.
pub struct SslAcceptorBuilder(pub SslContextBuilder);

impl SslAcceptorBuilder {
    /// Creates a new builder configured to connect to non-legacy clients. This should generally be
    /// considered a reasonable default choice.
    ///
    /// This corresponds to the intermediate configuration of Mozilla's server side TLS
    /// recommendations. See its [documentation][docs] for more details on specifics.
    ///
    /// [docs]: https://wiki.mozilla.org/Security/Server_Side_TLS
    pub fn mozilla_intermediate(
        method: SslMethod,
        platform: &Platform,
        private_key: KeyId,
        certificate: CertId,
        chain: &[CertId],
    ) -> (builder: SslAcceptorBuilder)
        ensures
            builder.0.api == platform.api,
            builder.0.calls@ == intermediate_calls(method, *platform) + identity_calls(
                private_key,
                certificate,
                chain@,
            ),
    {
        let builder = SslAcceptorBuilder::mozilla_intermediate_raw(method, platform);
        builder.finish_setup(private_key, certificate, chain)
    }

    /// Creates a new builder configured to connect to modern clients.
    ///
    /// This corresponds to the modern configuration of Mozilla's server side TLS recommendations.
    /// See its [documentation][docs] for more details on specifics.
    ///
    /// [docs]: https://wiki.mozilla.org/Security/Server_Side_TLS
    pub fn mozilla_modern(
        method: SslMethod,
        platform: &Platform,
        private_key: KeyId,
        certificate: CertId,
        chain: &[CertId],
    ) -> (builder: SslAcceptorBuilder)
        ensures
            builder.0.api == platform.api,
            builder.0.calls@ == modern_calls(method, *platform) + identity_calls(
                private_key,
                certificate,
                chain@,
            ),
    {
        let builder = SslAcceptorBuilder::mozilla_modern_raw(method, platform);
        builder.finish_setup(private_key, certificate, chain)
    }

    /// Like `mozilla_intermediate`, but does not load the certificate chain and private key.
    pub fn mozilla_intermediate_raw(method: SslMethod, platform: &Platform) -> (builder:
        SslAcceptorBuilder)
        ensures
            builder.0.api == platform.api,
            builder.0.calls@ == intermediate_calls(method, *platform),
    {
        let mut ctx = ctx(method, platform);
        ctx.call(ContextCall::ParseDhParams(DHPARAM_PEM));
        ctx.call(ContextCall::SetTmpDh);
        setup_curves(&mut ctx);
        ctx.call(ContextCall::SetCipherList(MOZILLA_INTERMEDIATE_CIPHERS));
        assert(ctx.calls@ =~= intermediate_calls(method, *platform));
        SslAcceptorBuilder(ctx)
    }

    /// Like `mozilla_modern`, but does not load the certificate chain and private key.
    pub fn mozilla_modern_raw(method: SslMethod, platform: &Platform) -> (builder:
        SslAcceptorBuilder)
        ensures
            builder.0.api == platform.api,
            builder.0.calls@ == modern_calls(method, *platform),
    {
        let mut ctx = ctx(method, platform);
        setup_curves(&mut ctx);
        ctx.call(ContextCall::SetCipherList(MOZILLA_MODERN_CIPHERS));
        assert(ctx.calls@ =~= modern_calls(method, *platform));
        SslAcceptorBuilder(ctx)
    }

    /// Gives the context its private key, its certificate and the chain behind it.
    pub fn finish_setup(
        self,
        private_key: KeyId,
        certificate: CertId,
        chain: &[CertId],
    ) -> (builder: SslAcceptorBuilder)
        ensures
            builder.0.api == self.0.api,
            builder.0.calls@ == self.0.calls@ + identity_calls(private_key, certificate, chain@),
    {
        let mut ctx = self.0;
        ctx.call(ContextCall::SetPrivateKey(private_key));
        ctx.call(ContextCall::SetCertificate(certificate));
        ctx.call(ContextCall::CheckPrivateKey);
        let mut builder = SslAcceptorBuilder(ctx);
        let mut i: usize = 0;
        while i < chain.len()
            invariant
                i <= chain@.len(),
                builder.0.api == self.0.api,
                builder.0.calls@ == self.0.calls@ + identity_calls(
                    private_key,
                    certificate,
                    chain@.take(i as int),
                ),
            decreases chain@.len() - i,
        {
            builder.add_chain_cert(chain[i]);
            i += 1;
        }
        assert(chain@.take(i as int) =~= chain@);
        builder
    }

    /// Adds a certificate to the chain.
    pub fn add_chain_cert(&mut self, cert: CertId)
        ensures
            final(self).0.api == old(self).0.api,
            final(self).0.calls@ == old(self).0.calls@.push(ContextCall::AddExtraChainCert(cert)),
    {
        self.0.call(ContextCall::AddExtraChainCert(cert));
    }

    /// The builder of the context.
    pub fn builder(&self) -> (ctx: &SslContextBuilder)
        ensures
            *ctx == self.0,
    {
        &self.0
    }

    /// The builder of the context, for further calls.
    pub fn builder_mut(&mut self) -> (ctx: &mut SslContextBuilder)
        ensures
            *ctx == old(self).0,
            *final(ctx) == final(self).0,
    {
        &mut self.0
    }

    /// Consumes the builder, returning a `SslAcceptor`.
    pub fn build(self) -> (acceptor: SslAcceptor)
        ensures
            acceptor.0.api == self.0.api,
            acceptor.0.calls == self.0.calls,
    {
        SslAcceptor(self.0.build())
    }
}

/// A type which wraps server-side streams in a TLS session.
///
/// OpenSSL's default configuration is highly insecure. This connector manages the OpenSSL
/// structures, configuring cipher suites, session options, and more.
pub struct SslAcceptor(pub SslContext);

impl Clone for SslAcceptor {
    fn clone(&self) -> (copy: Self)
        ensures
            copy.0.api == self.0.api,
            copy.0.calls@ == self.0.calls@,
    {
        SslAcceptor(self.0.clone())
    }
}

impl SslAcceptor {
    /// Initiates a server-side TLS session.
    pub fn accept<'a>(&'a self) -> (ssl: Ssl<'a>)
        ensures
            *ssl.context == self.0,
            ssl.calls@ == seq![SslCall::New, SslCall::Accept],
    {
        let mut ssl = Ssl::new(&self.0);
        ssl.call(SslCall::Accept);
        ssl
    }
}

/// The options and modes of an acceptor are those that every context starts from: they are set once.
pub proof fn law_acceptor_options_are_set_once(method: SslMethod, platform: Platform, i: int)
    ensures
        0 <= i < intermediate_calls(method, platform).len() ==> {
            &&& intermediate_calls(method, platform)[i] is SetOptions <==> i == 1
            &&& intermediate_calls(method, platform)[i] is SetMode <==> i == 2
        },
        0 <= i < modern_calls(method, platform).len() ==> {
            &&& modern_calls(method, platform)[i] is SetOptions <==> i == 1
            &&& modern_calls(method, platform)[i] is SetMode <==> i == 2
        },
        intermediate_calls(method, platform).take(3) == base_calls(method, platform),
        modern_calls(method, platform).take(3) == base_calls(method, platform),
{
    assert(intermediate_calls(method, platform).take(3) =~= base_calls(method, platform));
    assert(modern_calls(method, platform).take(3) =~= base_calls(method, platform));
}

/// A private key that is not that of the certificate makes no acceptor: the error of the check is
/// that of the whole, and no certificate of the chain is added.
pub proof fn law_foreign_key_is_refused<E>(
    before: Seq<ContextCall>,
    private_key: KeyId,
    certificate: CertId,
    chain: Seq<CertId>,
    outcomes: Seq<Result<(), E>>,
    error: E,
)
    requires
        outcomes.len() > before.len() + 2,
        forall|i: int| 0 <= i < before.len() + 2 ==> outcomes[i] is Ok,
        outcomes[before.len() as int + 2] == Err::<(), E>(error),
    ensures
        ({
            let calls = before + identity_calls(private_key, certificate, chain);
            let progress = Progress::<ContextCall, E>::start(calls).after_all(outcomes);
            &&& calls[before.len() as int + 2] == ContextCall::CheckPrivateKey
            &&& progress.made == before.len() + 3
            &&& progress.result() == Some(Err::<(), E>(error))
        }),
{
    let calls = before + identity_calls(private_key, certificate, chain);
    law_first_failure_ends_the_run::<ContextCall, E>(calls, outcomes, before.len() as int + 2, error);
}

/// A chain can be added one certificate at a time, behind the check of the key.
pub proof fn law_chain_is_added_one_by_one(
    private_key: KeyId,
    certificate: CertId,
    chain: Seq<CertId>,
    next: CertId,
)
    ensures
        identity_calls(private_key, certificate, chain.push(next)) == identity_calls(
            private_key,
            certificate,
            chain,
        ).push(ContextCall::AddExtraChainCert(next)),
{
    assert(identity_calls(private_key, certificate, chain.push(next)) =~= identity_calls(
        private_key,
        certificate,
        chain,
    ).push(ContextCall::AddExtraChainCert(next)));
}

/// To make an acceptor, every call can fail but the setting of options and modes.
pub proof fn law_acceptor_calls_that_can_fail(
    method: SslMethod,
    platform: Platform,
    private_key: KeyId,
    certificate: CertId,
    chain: Seq<CertId>,
    i: int,
)
    ensures
        ({
            let calls = intermediate_calls(method, platform) + identity_calls(
                private_key,
                certificate,
                chain,
            );
            0 <= i < calls.len() ==> (can_fail(calls[i]) <==> i != 1 && i != 2)
        }),
        ({
            let calls = modern_calls(method, platform) + identity_calls(
                private_key,
                certificate,
                chain,
            );
            0 <= i < calls.len() ==> (can_fail(calls[i]) <==> i != 1 && i != 2)
        }),
{
}

/// The calls that make an acceptor of the intermediate configuration, each of them. The
/// Diffie-Hellman parameters are parsed and used once, the cipher list is the last call, and neither
/// rests on the interface. There is no other call, and none of them twice.
pub proof fn law_intermediate_calls_one_by_one(method: SslMethod, platform: Platform, i: int)
    requires
        0 <= i < intermediate_calls(method, platform).len(),
    ensures
        intermediate_calls(method, platform).len() == 6 + (match platform.api {
            OpensslApi::V101 => 2nat,
            OpensslApi::V102 => 1nat,
            OpensslApi::V110 => 0nat,
        }),
        match intermediate_calls(method, platform)[i] {
            ContextCall::New(made_for) => made_for == method && i == 0,
            ContextCall::SetOptions(options) => options == options_of(platform.options) && i == 1,
            ContextCall::SetMode(mode) => mode == modes_of(platform.modes, platform.version_number)
                && i == 2,
            ContextCall::ParseDhParams(pem) => i == 3 && pem@ == "
-----BEGIN DH PARAMETERS-----
MIIBCAKCAQEA//////////+t+FRYortKmq/cViAnPTzx2LnFg84tNpWp4TZBFGQz
+8yTnc4kmz75fS/jY2MMddj2gbICrsRhetPfHtXV/WVhJDP1H18GbtCFY2VVPe0a
87VXE15/V8k1mE8McODmi3fipona8+/och3xWKE2rec1MKzKT0g6eXq8CrGCsyT7
YdEIqUuyyOP7uWrat2DX9GgdT0Kj3jlN9K5W7edjcrsZCwenyO4KbXCeAvzhzffi
7MA0BM0oNC9hkXL+nOmFg/+OTxIy7vKBg8P+OxtMb61zO7X8vC7CIAXFjvGDfRaD
ssbzSibBsu/6iGtCOGEoXJf//////////wIBAg==
-----END DH PARAMETERS-----
"@,
            ContextCall::SetTmpDh => i == 4,
            ContextCall::MakeEcKey(curve) => curve == Curve::X962Prime256v1 && platform.api is V101
                && i == 5,
            ContextCall::SetTmpEcdh => platform.api is V101 && i == 6,
            ContextCall::SetEcdhAuto(auto) => auto && platform.api is V102 && i == 5,
            ContextCall::SetCipherList(list) => i == intermediate_calls(method, platform).len() - 1
                && list@ == "ECDHE-ECDSA-CHACHA20-POLY1305:ECDHE-RSA-CHACHA20-POLY1305:\
                ECDHE-ECDSA-AES128-GCM-SHA256:ECDHE-RSA-AES128-GCM-SHA256:\
                ECDHE-ECDSA-AES256-GCM-SHA384:ECDHE-RSA-AES256-GCM-SHA384:\
                DHE-RSA-AES128-GCM-SHA256:DHE-RSA-AES256-GCM-SHA384:ECDHE-ECDSA-AES128-SHA256:\
                ECDHE-RSA-AES128-SHA256:ECDHE-ECDSA-AES128-SHA:ECDHE-RSA-AES256-SHA384:\
                ECDHE-RSA-AES128-SHA:ECDHE-ECDSA-AES256-SHA384:ECDHE-ECDSA-AES256-SHA:\
                ECDHE-RSA-AES256-SHA:DHE-RSA-AES128-SHA256:DHE-RSA-AES128-SHA:\
                DHE-RSA-AES256-SHA256:DHE-RSA-AES256-SHA:ECDHE-ECDSA-DES-CBC3-SHA:\
                ECDHE-RSA-DES-CBC3-SHA:EDH-RSA-DES-CBC3-SHA:AES128-GCM-SHA256:\
                AES256-GCM-SHA384:AES128-SHA256:AES256-SHA256:AES128-SHA:AES256-SHA:\
                DES-CBC3-SHA:!DSS"@,
            _ => false,
        },
{
}

/// The calls that make an acceptor of the modern configuration, each of them. The cipher list is the
/// last call, and does not rest on the interface. There is no other call, and none of them twice.
pub proof fn law_modern_calls_one_by_one(method: SslMethod, platform: Platform, i: int)
    requires
        0 <= i < modern_calls(method, platform).len(),
    ensures
        modern_calls(method, platform).len() == 4 + (match platform.api {
            OpensslApi::V101 => 2nat,
            OpensslApi::V102 => 1nat,
            OpensslApi::V110 => 0nat,
        }),
        match modern_calls(method, platform)[i] {
            ContextCall::New(made_for) => made_for == method && i == 0,
            ContextCall::SetOptions(options) => options == options_of(platform.options) && i == 1,
            ContextCall::SetMode(mode) => mode == modes_of(platform.modes, platform.version_number)
                && i == 2,
            ContextCall::MakeEcKey(curve) => curve == Curve::X962Prime256v1 && platform.api is V101
                && i == 3,
            ContextCall::SetTmpEcdh => platform.api is V101 && i == 4,
            ContextCall::SetEcdhAuto(auto) => auto && platform.api is V102 && i == 3,
            ContextCall::SetCipherList(list) => i == modern_calls(method, platform).len() - 1
                && list@ == "ECDHE-ECDSA-AES256-GCM-SHA384:ECDHE-RSA-AES256-GCM-SHA384:\
                ECDHE-ECDSA-CHACHA20-POLY1305:ECDHE-RSA-CHACHA20-POLY1305:\
                ECDHE-ECDSA-AES128-GCM-SHA256:ECDHE-RSA-AES128-GCM-SHA256:\
                ECDHE-ECDSA-AES256-SHA384:ECDHE-RSA-AES256-SHA384:ECDHE-ECDSA-AES128-SHA256:\
                ECDHE-RSA-AES128-SHA256"@,
            _ => false,
        },
{
}

/// Each configuration has one cipher list, its last call, whatever OpenSSL is linked.
pub proof fn law_cipher_list_rests_on_the_configuration_alone(
    method: SslMethod,
    platform: Platform,
    other_method: SslMethod,
    other: Platform,
    i: int,
)
    ensures
        modern_calls(method, platform).last() == ContextCall::SetCipherList(MOZILLA_MODERN_CIPHERS),
        modern_calls(method, platform).last() == modern_calls(other_method, other).last(),
        0 <= i < modern_calls(method, platform).len() - 1 ==> !(modern_calls(
            method,
            platform,
        )[i] is SetCipherList),
        intermediate_calls(method, platform).last() == ContextCall::SetCipherList(
            MOZILLA_INTERMEDIATE_CIPHERS,
        ),
        intermediate_calls(method, platform).last() == intermediate_calls(
            other_method,
            other,
        ).last(),
        0 <= i < intermediate_calls(method, platform).len() - 1 ==> !(intermediate_calls(
            method,
            platform,
        )[i] is SetCipherList),
{
}

/// The identity of an acceptor is its private key, its certificate, the check that they belong
/// together, and then the chain in its order.
pub proof fn law_identity_calls_one_by_one(
    private_key: KeyId,
    certificate: CertId,
    chain: Seq<CertId>,
    i: int,
)
    ensures
        identity_calls(private_key, certificate, chain).len() == chain.len() + 3,
        identity_calls(private_key, certificate, chain)[0] == ContextCall::SetPrivateKey(
            private_key,
        ),
        identity_calls(private_key, certificate, chain)[1] == ContextCall::SetCertificate(
            certificate,
        ),
        identity_calls(private_key, certificate, chain)[2] == ContextCall::CheckPrivateKey,
        0 <= i < chain.len() ==> identity_calls(private_key, certificate, chain)[i + 3]
            == ContextCall::AddExtraChainCert(chain[i]),
{
}

} // verus!
