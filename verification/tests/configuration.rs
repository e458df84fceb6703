//! The configuration of contexts and sessions, and the running of their calls.
use ssl_connector::acceptor::{
    SslAcceptorBuilder, MOZILLA_INTERMEDIATE_CIPHERS, MOZILLA_MODERN_CIPHERS,
};
use ssl_connector::cacerts::{next_action, CaAction, CaEvent, ANDROID_CACERTS};
use ssl_connector::connector::{SslConnectorBuilder, CONNECTOR_CIPHERS};
use ssl_connector::context::{
    CertId, ContextCall, Curve, KeyId, OpensslApi, Platform, SslMethod, VerifyMode, DHPARAM_PEM,
};
use ssl_connector::flags::{default_modes, default_options, ModeBits, OptionBits};
use ssl_connector::ip::IpAddr;
use ssl_connector::run::Run;
use ssl_connector::session::{setup_verify_domain, setup_verify_hostname, HostFlags, Ssl, SslCall};
use ssl_connector::verify::Domain;

// The values of OpenSSL 1.0.1.
const OPTIONS: OptionBits = OptionBits {
    all: 0x80000BFF,
    netscape_reuse_cipher_change_bug: 0x00000008,
    dont_insert_empty_fragments: 0x00000800,
    no_ticket: 0x00004000,
    no_compression: 0x00020000,
    no_sslv2: 0x01000000,
    no_sslv3: 0x02000000,
    single_dh_use: 0x00100000,
    single_ecdh_use: 0x00080000,
    cipher_server_preference: 0x00400000,
};

const MODES: ModeBits = ModeBits {
    auto_retry: 4,
    accept_moving_write_buffer: 2,
    enable_partial_write: 1,
    release_buffers: 16,
};

const SET_OPTIONS: ContextCall = ContextCall::SetOptions(0x835A43F7);
const SET_MODE: ContextCall = ContextCall::SetMode(23);

fn platform(api: OpensslApi, android: bool) -> Platform {
    Platform { api, version_number: 0x100020bf, options: OPTIONS, modes: MODES, android }
}

#[test]
fn options_of_a_context() {
    assert_eq!(default_options(&OPTIONS), 0x835A43F7);
    let none = OptionBits { all: 0, ..OPTIONS };
    assert_eq!(default_options(&none), 0x035A4000);
    // an option that is both removed and forced is set
    let both = OptionBits { no_ticket: 0x00000800, ..OPTIONS };
    assert_eq!(default_options(&both) & 0x00000800, 0x00000800);
}

#[test]
fn modes_of_a_context() {
    assert_eq!(default_modes(&MODES, 0x1000108e), 7);
    assert_eq!(default_modes(&MODES, 0x1000108f), 23);
    assert_eq!(default_modes(&MODES, 0x1010006f), 23);
    assert_eq!(default_modes(&MODES, 0), 7);
}

#[test]
fn connector_with_builtin_verification() {
    for api in [OpensslApi::V102, OpensslApi::V110] {
        let builder = SslConnectorBuilder::new(SslMethod::Tls, &platform(api, false));
        assert_eq!(
            builder.builder().calls,
            vec![
                ContextCall::New(SslMethod::Tls),
                SET_OPTIONS,
                SET_MODE,
                ContextCall::SetDefaultVerifyPaths,
                ContextCall::SetCipherList(CONNECTOR_CIPHERS),
                ContextCall::SetVerify(VerifyMode::Peer),
            ]
        );
    }
}

#[test]
fn connector_with_callback_on_android() {
    let builder = SslConnectorBuilder::new(SslMethod::Dtls, &platform(OpensslApi::V101, true));
    assert_eq!(
        builder.builder().calls,
        vec![
            ContextCall::New(SslMethod::Dtls),
            SET_OPTIONS,
            SET_MODE,
            ContextCall::SetDefaultVerifyPaths,
            ContextCall::AddCertificatesOf(ANDROID_CACERTS),
            ContextCall::SetCipherList(CONNECTOR_CIPHERS),
            ContextCall::SetVerifyCallback(VerifyMode::Peer),
        ]
    );
    assert_eq!(ANDROID_CACERTS, "/system/etc/security/cacerts");
}

#[test]
fn builder_takes_further_calls() {
    let mut builder = SslConnectorBuilder::new(SslMethod::Tls, &platform(OpensslApi::V110, false));
    builder.builder_mut().call(ContextCall::SetVerify(VerifyMode::Off));
    let connector = builder.build();
    assert_eq!(connector.0.calls.len(), 7);
    assert_eq!(connector.0.calls[6], ContextCall::SetVerify(VerifyMode::Off));
    assert_eq!(connector.clone().0.calls, connector.0.calls);
}

#[test]
fn cipher_lists() {
    assert_eq!(
        CONNECTOR_CIPHERS,
        "TLS13-AES-256-GCM-SHA384:TLS13-CHACHA20-POLY1305-SHA256:TLS13-AES-128-GCM-SHA256:ECDH+AESGCM:ECDH+CHACHA20:DH+AESGCM:DH+CHACHA20:ECDH+AES256:DH+AES256:ECDH+AES128:DH+AES:ECDH+HIGH:DH+HIGH:RSA+AESGCM:RSA+AES:RSA+HIGH:!aNULL:!eNULL:!MD5:!3DES"
    );
    assert_eq!(
        MOZILLA_MODERN_CIPHERS,
        "ECDHE-ECDSA-AES256-GCM-SHA384:ECDHE-RSA-AES256-GCM-SHA384:ECDHE-ECDSA-CHACHA20-POLY1305:ECDHE-RSA-CHACHA20-POLY1305:ECDHE-ECDSA-AES128-GCM-SHA256:ECDHE-RSA-AES128-GCM-SHA256:ECDHE-ECDSA-AES256-SHA384:ECDHE-RSA-AES256-SHA384:ECDHE-ECDSA-AES128-SHA256:ECDHE-RSA-AES128-SHA256"
    );
    assert_eq!(MOZILLA_INTERMEDIATE_CIPHERS.split(':').count(), 31);
    assert!(!MOZILLA_INTERMEDIATE_CIPHERS.contains(' '));
    assert!(MOZILLA_INTERMEDIATE_CIPHERS.ends_with(":!DSS"));
    assert!(DHPARAM_PEM.starts_with("\n-----BEGIN DH PARAMETERS-----\nMIIBCAKCAQEA"));
    assert!(DHPARAM_PEM.ends_with("wIBAg==\n-----END DH PARAMETERS-----\n"));
}

#[test]
fn session_to_a_domain() {
    let domain = "foobar.com";
    let connector =
        SslConnectorBuilder::new(SslMethod::Tls, &platform(OpensslApi::V102, false)).build();
    assert_eq!(
        connector.connect(domain).calls,
        vec![
            SslCall::New,
            SslCall::SetHostname("foobar.com"),
            SslCall::SetHostflags(HostFlags::NoPartialWildcards),
            SslCall::SetHost("foobar.com"),
            SslCall::Connect,
        ]
    );
    let old = SslConnectorBuilder::new(SslMethod::Tls, &platform(OpensslApi::V101, false)).build();
    assert_eq!(
        old.connect(domain).calls,
        vec![
            SslCall::New,
            SslCall::SetHostname("foobar.com"),
            SslCall::SetHostnameData("foobar.com"),
            SslCall::Connect,
        ]
    );
}

#[test]
fn session_to_an_address() {
    let ip = IpAddr::V4([127, 0, 0, 1]);
    let connector =
        SslConnectorBuilder::new(SslMethod::Tls, &platform(OpensslApi::V110, false)).build();
    let expected = vec![
        SslCall::New,
        SslCall::SetHostname("127.0.0.1"),
        SslCall::SetHostflags(HostFlags::NoPartialWildcards),
        SslCall::SetIp(ip),
        SslCall::Connect,
    ];
    assert_eq!(connector.connect("127.0.0.1").calls, expected);
    let domain = Domain { name: "127.0.0.1", ip: Some(ip) };
    assert_eq!(connector.configure().connect_to(domain).calls, expected);
    let ssl = connector.connect("2001:db8::1");
    assert_eq!(
        ssl.calls[3],
        SslCall::SetIp(IpAddr::V6([0x2001, 0xdb8, 0, 0, 0, 0, 0, 1]))
    );
    assert_eq!(connector.connect("127.0.0.256").calls[3], SslCall::SetHost("127.0.0.256"));
}

#[test]
fn hostname_of_a_session() {
    for api in [OpensslApi::V101, OpensslApi::V102, OpensslApi::V110] {
        let connector = SslConnectorBuilder::new(SslMethod::Tls, &platform(api, false)).build();
        for name in ["foobar.com", "::1"] {
            let mut by_text = Ssl::new(&connector.0);
            setup_verify_hostname(&mut by_text, name);
            let mut by_domain = Ssl::new(&connector.0);
            setup_verify_domain(&mut by_domain, Domain::new(name));
            assert_eq!(by_text.calls, by_domain.calls);
        }
    }
}

#[test]
fn session_without_a_domain() {
    let connector =
        SslConnectorBuilder::new(SslMethod::Tls, &platform(OpensslApi::V110, false)).build();
    let ssl = connector
        .danger_connect_without_providing_domain_for_certificate_verification_and_server_name_indication();
    assert_eq!(ssl.calls, vec![SslCall::New, SslCall::Connect]);
    assert_eq!(ssl.context.calls, connector.0.calls);
}

#[test]
fn configured_session() {
    let connector =
        SslConnectorBuilder::new(SslMethod::Tls, &platform(OpensslApi::V101, false)).build();
    let mut configuration = connector.configure();
    assert_eq!(configuration.ssl().calls, vec![SslCall::New]);
    configuration.ssl_mut().call(SslCall::SetHost("other.com"));
    let ssl = configuration.connect("foobar.com");
    assert_eq!(
        ssl.calls,
        vec![
            SslCall::New,
            SslCall::SetHost("other.com"),
            SslCall::SetHostname("foobar.com"),
            SslCall::SetHostnameData("foobar.com"),
            SslCall::Connect,
        ]
    );
    let ssl = connector
        .configure()
        .danger_connect_without_providing_domain_for_certificate_verification_and_server_name_indication();
    assert_eq!(ssl.calls, vec![SslCall::New, SslCall::Connect]);
}

#[test]
fn intermediate_acceptor() {
    let head = vec![
        ContextCall::New(SslMethod::Tls),
        SET_OPTIONS,
        SET_MODE,
        ContextCall::ParseDhParams(DHPARAM_PEM),
        ContextCall::SetTmpDh,
    ];
    let cases = [
        (
            OpensslApi::V101,
            vec![ContextCall::MakeEcKey(Curve::X962Prime256v1), ContextCall::SetTmpEcdh],
        ),
        (OpensslApi::V102, vec![ContextCall::SetEcdhAuto(true)]),
        (OpensslApi::V110, vec![]),
    ];
    for (api, curves) in cases {
        let raw = SslAcceptorBuilder::mozilla_intermediate_raw(SslMethod::Tls, &platform(api, false));
        let mut expected = head.clone();
        expected.extend(curves);
        expected.push(ContextCall::SetCipherList(MOZILLA_INTERMEDIATE_CIPHERS));
        assert_eq!(raw.builder().calls, expected);
    }
}

#[test]
fn modern_acceptor_with_identity() {
    let platform = platform(OpensslApi::V102, false);
    let chain = [CertId(2), CertId(1)];
    let mut builder = SslAcceptorBuilder::mozilla_modern(
        SslMethod::Tls,
        &platform,
        KeyId(7),
        CertId(5),
        &chain,
    );
    let expected = vec![
        ContextCall::New(SslMethod::Tls),
        SET_OPTIONS,
        SET_MODE,
        ContextCall::SetEcdhAuto(true),
        ContextCall::SetCipherList(MOZILLA_MODERN_CIPHERS),
        ContextCall::SetPrivateKey(KeyId(7)),
        ContextCall::SetCertificate(CertId(5)),
        ContextCall::CheckPrivateKey,
        ContextCall::AddExtraChainCert(CertId(2)),
        ContextCall::AddExtraChainCert(CertId(1)),
    ];
    assert_eq!(builder.builder_mut().calls, expected);
    let raw = SslAcceptorBuilder::mozilla_modern_raw(SslMethod::Tls, &platform);
    assert_eq!(raw.builder().calls, expected[..5].to_vec());
    let acceptor = builder.build();
    assert_eq!(acceptor.accept().calls, vec![SslCall::New, SslCall::Accept]);
}

#[test]
fn intermediate_acceptor_with_identity() {
    let platform = platform(OpensslApi::V110, false);
    let builder =
        SslAcceptorBuilder::mozilla_intermediate(SslMethod::Tls, &platform, KeyId(0), CertId(0), &[]);
    let raw = SslAcceptorBuilder::mozilla_intermediate_raw(SslMethod::Tls, &platform);
    let mut expected = raw.builder().calls.clone();
    expected.push(ContextCall::SetPrivateKey(KeyId(0)));
    expected.push(ContextCall::SetCertificate(CertId(0)));
    expected.push(ContextCall::CheckPrivateKey);
    assert_eq!(builder.builder().calls, expected);
    let mut finished = raw.finish_setup(KeyId(0), CertId(0), &[]);
    assert_eq!(finished.builder().calls, expected);
    finished.add_chain_cert(CertId(4));
    expected.push(ContextCall::AddExtraChainCert(CertId(4)));
    assert_eq!(finished.builder().calls, expected);
    let raw = SslAcceptorBuilder::mozilla_intermediate_raw(SslMethod::Tls, &platform);
    assert_eq!(raw.finish_setup(KeyId(0), CertId(0), &[CertId(4)]).builder().calls, expected);
}

#[test]
fn run_makes_every_call() {
    let mut run: Run<u8, &str> = Run::new(vec![10, 20, 30]);
    for call in [10, 20, 30] {
        assert_eq!(run.pending(), Some(call));
        run.reply(Ok(()));
    }
    assert_eq!(run.pending(), None);
    run.reply(Err("late"));
    assert_eq!(run.result(), Some(Ok(())));
}

#[test]
fn run_stops_at_the_first_failure() {
    let mut run: Run<u8, &str> = Run::new(vec![10, 20, 30]);
    run.reply(Ok(()));
    run.reply(Err("no"));
    assert_eq!(run.pending(), None);
    run.reply(Err("again"));
    assert_eq!(run.result(), Some(Err("no")));
}

#[test]
fn connector_error_is_that_of_the_first_call_that_fails() {
    let builder = SslConnectorBuilder::new(SslMethod::Tls, &platform(OpensslApi::V110, false));
    let fails = |failing: &dyn Fn(ContextCall) -> Option<&'static str>| {
        let mut run: Run<ContextCall, &str> = Run::new(builder.builder().calls.clone());
        while let Some(call) = run.pending() {
            run.reply(match failing(call) {
                Some(error) => Err(error),
                None => Ok(()),
            });
        }
        run.result()
    };
    assert_eq!(fails(&|_| None), Some(Ok(())));
    assert_eq!(
        fails(&|call| match call {
            ContextCall::SetDefaultVerifyPaths => Some("paths"),
            ContextCall::SetCipherList(_) => Some("ciphers"),
            _ => None,
        }),
        Some(Err("paths"))
    );
    assert_eq!(
        fails(&|call| match call {
            ContextCall::New(_) => Some("new"),
            _ => None,
        }),
        Some(Err("new"))
    );
}

#[test]
fn run_has_no_result_while_a_call_is_pending() {
    let run: Run<u8, &str> = Run::new(vec![10]);
    assert_eq!(run.result(), None);
    let empty: Run<u8, &str> = Run::new(vec![]);
    assert_eq!(empty.result(), Some(Ok(())));
}

#[test]
fn loading_certificates() {
    let cases: Vec<(CaEvent<u8>, CaAction<u8>)> = vec![
        (CaEvent::Directory { opened: true }, CaAction::NextEntry),
        (CaEvent::Directory { opened: false }, CaAction::Finish),
        (CaEvent::NoMoreEntries, CaAction::Finish),
        (CaEvent::EntryUnreadable, CaAction::NextEntry),
        (CaEvent::Entry { is_file: true }, CaAction::ReadFile),
        (CaEvent::Entry { is_file: false }, CaAction::NextEntry),
        (CaEvent::File { read: true }, CaAction::ParseCertificate),
        (CaEvent::File { read: false }, CaAction::NextEntry),
        (CaEvent::Certificate { parsed: true }, CaAction::AddCertificate),
        (CaEvent::Certificate { parsed: false }, CaAction::NextEntry),
        (CaEvent::Added, CaAction::NextEntry),
        (CaEvent::Refused(3), CaAction::Abort(3)),
    ];
    for (event, action) in cases {
        assert_eq!(next_action(event), action);
    }
}
