//! The configuration of a TLS context, as the list of the calls that make it.
use vstd::prelude::*;

use crate::flags::{default_modes, default_options, modes_of, options_of, ModeBits, OptionBits};
use crate::run::{all_succeed, fails_first, is_sound, law_only_calls_that_can_fail_decide, Progress};

verus! {

/// The Diffie-Hellman parameters of servers, ffdhe2048 from
/// <https://wiki.mozilla.org/Security/Server_Side_TLS#ffdhe2048>.
pub const DHPARAM_PEM: &'static str = "
-----BEGIN DH PARAMETERS-----
MIIBCAKCAQEA//////////+t+FRYortKmq/cViAnPTzx2LnFg84tNpWp4TZBFGQz
+8yTnc4kmz75fS/jY2MMddj2gbICrsRhetPfHtXV/WVhJDP1H18GbtCFY2VVPe0a
87VXE15/V8k1mE8McODmi3fipona8+/och3xWKE2rec1MKzKT0g6eXq8CrGCsyT7
YdEIqUuyyOP7uWrat2DX9GgdT0Kj3jlN9K5W7edjcrsZCwenyO4KbXCeAvzhzffi
7MA0BM0oNC9hkXL+nOmFg/+OTxIy7vKBg8P+OxtMb61zO7X8vC7CIAXFjvGDfRaD
ssbzSibBsu/6iGtCOGEoXJf//////////wIBAg==
-----END DH PARAMETERS-----
";

/// The protocol family of a context.
#[derive(Clone, Copy, Debug, PartialEq, Eq)]
pub enum SslMethod {
    Tls,
    Dtls,
}

/// The generation of the OpenSSL interface that is linked.
#[derive(Clone, Copy, Debug, PartialEq, Eq)]
pub enum OpensslApi {
    V101,
    V102,
    V110,
}

/// What a configuration depends on outside of the caller's choice.
#[derive(Clone, Copy, Debug, PartialEq, Eq)]
pub struct Platform {
    pub api: OpensslApi,
    /// The version number of the linked OpenSSL.
    pub version_number: i64,
    pub options: OptionBits,
    pub modes: ModeBits,
    /// Whether the trusted roots are those of an Android system.
    pub android: bool,
}

/// How the certificate of a peer is verified.
#[derive(Clone, Copy, Debug, PartialEq, Eq)]
pub enum VerifyMode {
    /// Not at all.
    Off,
    /// The peer's certificate has to be valid.
    Peer,
}

/// A private key that the caller holds, by the number that the caller gave it.
#[derive(Clone, Copy, Debug, PartialEq, Eq)]
pub struct KeyId(pub usize);

/// A certificate that the caller holds, by the number that the caller gave it.
#[derive(Clone, Copy, Debug, PartialEq, Eq)]
pub struct CertId(pub usize);

/// An elliptic curve.
#[derive(Clone, Copy, Debug, PartialEq, Eq)]
pub enum Curve {
    X962Prime256v1,
}

/// A call by which a context is made or configured.
#[derive(Clone, Copy, Debug, PartialEq, Eq)]
pub enum ContextCall {
    /// Make the context.
    New(SslMethod),
    SetOptions(u64),
    SetMode(u64),
    /// Trust the roots at OpenSSL's default places.
    SetDefaultVerifyPaths,
    /// Trust the roots that stand in the files of a directory.
    AddCertificatesOf(&'static str),
    SetCipherList(&'static str),
    SetVerify(VerifyMode),
    /// Verify in this mode, with the check of each certificate against the session's hostname.
    SetVerifyCallback(VerifyMode),
    /// Parse Diffie-Hellman parameters.
    ParseDhParams(&'static str),
    /// Use the parameters that were parsed.
    SetTmpDh,
    /// Make the key of a curve.
    MakeEcKey(Curve),
    /// Use the key that was made.
    SetTmpEcdh,
    SetEcdhAuto(bool),
    SetPrivateKey(KeyId),
    SetCertificate(CertId),
    /// Check that the private key is that of the certificate.
    CheckPrivateKey,
    AddExtraChainCert(CertId),
}

/// Whether a call can fail. Options, modes and the verification of the peer are only noted down,
/// which always succeeds.
pub open spec fn can_fail(call: ContextCall) -> bool {
    !(call is SetOptions || call is SetMode || call is SetVerify || call is SetVerifyCallback)
}

/// A context in the making.
pub struct SslContextBuilder {
    /// The OpenSSL interface that the calls are made for.
    pub api: OpensslApi,
    /// The calls that make the context, in order.
    pub calls: Vec<ContextCall>,
}

/// A context.
pub struct SslContext {
    /// The OpenSSL interface that the calls are made for.
    pub api: OpensslApi,
    /// The calls that make the context, in order.
    pub calls: Vec<ContextCall>,
}

impl SslContextBuilder {
    /// Adds a call behind the others.
    pub fn call(&mut self, call: ContextCall)
        ensures
            final(self).api == old(self).api,
            final(self).calls@ == old(self).calls@.push(call),
    {
        self.calls.push(call);
    }

    /// Consumes the builder, returning the context.
    pub fn build(self) -> (context: SslContext)
        ensures
            context.api == self.api,
            context.calls == self.calls,
    {
        SslContext { api: self.api, calls: self.calls }
    }
}

impl Clone for SslContext {
    fn clone(&self) -> (context: Self)
        ensures
            context.api == self.api,
            context.calls@ == self.calls@,
    {
        SslContext { api: self.api, calls: self.calls.clone() }
    }
}

/// The calls with which every context starts.
pub open spec fn base_calls(method: SslMethod, platform: Platform) -> Seq<ContextCall> {
    seq![
        ContextCall::New(method),
        ContextCall::SetOptions(options_of(platform.options)),
        ContextCall::SetMode(modes_of(platform.modes, platform.version_number)),
    ]
}

/// The calls that let a server agree on a curve.
pub open spec fn curve_calls(api: OpensslApi) -> Seq<ContextCall> {
    match api {
        OpensslApi::V101 => seq![
            ContextCall::MakeEcKey(Curve::X962Prime256v1),
            ContextCall::SetTmpEcdh,
        ],
        OpensslApi::V102 => seq![ContextCall::SetEcdhAuto(true)],
        OpensslApi::V110 => seq![],
    }
}

/// The call that has the peer verified. The first interface does not compare hostnames itself.
pub open spec fn verify_call(api: OpensslApi) -> ContextCall {
    match api {
        OpensslApi::V101 => ContextCall::SetVerifyCallback(VerifyMode::Peer),
        OpensslApi::V102 | OpensslApi::V110 => ContextCall::SetVerify(VerifyMode::Peer),
    }
}

/// A context with the options and modes that connectors and acceptors share.
pub fn ctx(method: SslMethod, platform: &Platform) -> (ctx: SslContextBuilder)
    ensures
        ctx.api == platform.api,
        ctx.calls@ == base_calls(method, *platform),
{
    let mut ctx = SslContextBuilder { api: platform.api, calls: Vec::new() };
    ctx.call(ContextCall::New(method));
    ctx.call(ContextCall::SetOptions(default_options(&platform.options)));
    ctx.call(ContextCall::SetMode(default_modes(&platform.modes, platform.version_number)));
    ctx
}

/// Lets a server agree on a curve.
pub fn setup_curves(ctx: &mut SslContextBuilder)
    ensures
        final(ctx).api == old(ctx).api,
        final(ctx).calls@ == old(ctx).calls@ + curve_calls(old(ctx).api),
{
    match ctx.api {
        OpensslApi::V101 => {
            ctx.call(ContextCall::MakeEcKey(Curve::X962Prime256v1));
            ctx.call(ContextCall::SetTmpEcdh);
        },
        OpensslApi::V102 => {
            ctx.call(ContextCall::SetEcdhAuto(true));
        },
        OpensslApi::V110 => {},
    }
}

/// Has the peer verified.
pub fn setup_verify(ctx: &mut SslContextBuilder)
    ensures
        final(ctx).api == old(ctx).api,
        final(ctx).calls@ == old(ctx).calls@.push(verify_call(old(ctx).api)),
{
    match ctx.api {
        OpensslApi::V101 => {
            ctx.call(ContextCall::SetVerifyCallback(VerifyMode::Peer));
        },
        OpensslApi::V102 | OpensslApi::V110 => {
            ctx.call(ContextCall::SetVerify(VerifyMode::Peer));
        },
    }
}

/// Of the calls with which every context starts, only the first can fail: what comes of it comes of
/// them all.
pub proof fn law_only_creation_fails<E>(
    method: SslMethod,
    platform: Platform,
    outcomes: Seq<Result<(), E>>,
)
    requires
        outcomes.len() >= base_calls(method, platform).len(),
        is_sound(base_calls(method, platform), outcomes, |call: ContextCall| can_fail(call)),
    ensures
        Progress::<ContextCall, E>::start(base_calls(method, platform)).after_all(outcomes).result()
            == Some(
            match outcomes[0] {
                Ok(_) => Ok::<(), E>(()),
                Err(e) => Err::<(), E>(e),
            },
        ),
{
    let calls = base_calls(method, platform);
    let fails = |call: ContextCall| can_fail(call);
    match outcomes[0] {
        Ok(_) => {
            law_only_calls_that_can_fail_decide::<ContextCall, E>(
                calls,
                outcomes,
                fails,
                arbitrary(),
            );
            assert(all_succeed(calls, outcomes, fails));
        },
        Err(e) => {
            law_only_calls_that_can_fail_decide::<ContextCall, E>(calls, outcomes, fails, e);
            assert(fails_first(calls, outcomes, fails, 0, e));
        },
    }
}

/// Every context is first made for its method and then given, once each, the options and the modes
/// of the linked OpenSSL.
pub proof fn law_base_calls_one_by_one(method: SslMethod, platform: Platform)
    ensures
        base_calls(method, platform).len() == 3,
        base_calls(method, platform)[0] == ContextCall::New(method),
        base_calls(method, platform)[1] == ContextCall::SetOptions(options_of(platform.options)),
        base_calls(method, platform)[2] == ContextCall::SetMode(
            modes_of(platform.modes, platform.version_number),
        ),
{
}

/// A server agrees on a curve by the key of one curve with the first interface, by OpenSSL's choice
/// with the second, and needs no call with the third.
pub proof fn law_curves_by_interface(api: OpensslApi, i: int)
    ensures
        curve_calls(api).len() == match api {
            OpensslApi::V101 => 2nat,
            OpensslApi::V102 => 1nat,
            OpensslApi::V110 => 0nat,
        },
        0 <= i < curve_calls(api).len() ==> curve_calls(api)[i] == (if api is V102 {
            ContextCall::SetEcdhAuto(true)
        } else if i == 0 {
            ContextCall::MakeEcKey(Curve::X962Prime256v1)
        } else {
            ContextCall::SetTmpEcdh
        }),
{
}

/// The peer has to have a valid certificate with every interface, and with the first one, and only
/// with that, each certificate also goes through the callback.
pub proof fn law_verification_by_interface(api: OpensslApi)
    ensures
        verify_call(api) is SetVerifyCallback <==> api is V101,
        verify_call(api) is SetVerify <==> !(api is V101),
        verify_call(api) matches ContextCall::SetVerifyCallback(mode) ==> mode == VerifyMode::Peer,
        verify_call(api) matches ContextCall::SetVerify(mode) ==> mode == VerifyMode::Peer,
{
}

} // verus!
