use rquest_tls::{
    BackendError, BackendErrorEntry, BackendReply, BaseConnector, BoringTlsConnector, BuilderStep,
    CaCertStore, CertCompressionAlgorithm, ConfigurationError, ConnectorProgress, HandshakeSettings,
    HandshakeStep, HttpVersionPref, HttpsLayerSettings, LayerSlot, ListOption, AlpnProtocol,
    TlsError, TlsSettings, TrustStore, TrustStorePolicy, Version,
};

fn backend_error(code: u32) -> BackendError {
    BackendError {
        entries: vec![BackendErrorEntry {
            code,
            file: String::from("ssl_lib.cc"),
            line: 42,
            data: Some(String::from("detail")),
        }],
    }
}

/// Performs every call with a backend that accepts all but the call at
/// position `reject_at`, and records the calls that were asked for.
fn drive(
    start: ConnectorProgress,
    reject_at: Option<(usize, BackendReply)>,
) -> (ConnectorProgress, Vec<(LayerSlot, BuilderStep)>) {
    let mut calls = Vec::new();
    let mut progress = start;
    loop {
        match progress {
            ConnectorProgress::Pending(build) => {
                let step = build.step().expect("a pending build has a call that is due");
                calls.push((build.slot(), step));
                let reply = match &reject_at {
                    Some((at, reply)) if *at + 1 == calls.len() => reply.clone(),
                    _ => BackendReply::Accepted,
                };
                progress = build.resume(reply);
            }
            ended => return (ended, calls),
        }
    }
}

fn build(settings: TlsSettings, policy: TrustStorePolicy) -> BoringTlsConnector {
    match drive(BoringTlsConnector::new(settings, policy), None).0 {
        ConnectorProgress::Ready(connector) => connector,
        other => panic!("the connector does not stand: {:?}", other),
    }
}

fn steps_of(calls: &[(LayerSlot, BuilderStep)], slot: LayerSlot) -> Vec<BuilderStep> {
    calls.iter().filter(|(s, _)| *s == slot).map(|(_, step)| step.clone()).collect()
}

#[test]
fn http1_preference_builds_one_layer() {
    let settings = TlsSettings::builder().http_version_pref(HttpVersionPref::Http1).build();
    let (progress, calls) = drive(BoringTlsConnector::new(settings, TrustStorePolicy::NoOverride), None);
    let connector = match progress {
        ConnectorProgress::Ready(connector) => connector,
        other => panic!("the connector does not stand: {:?}", other),
    };
    assert!(connector.ws_connect_layer().is_none());
    assert_eq!(connector.connect_layer().alpn_protocols(), vec![AlpnProtocol::Http1]);
    assert!(calls.iter().all(|(slot, _)| *slot == LayerSlot::Main));
    assert_eq!(calls.len(), 6);
}

#[test]
fn http2_preference_builds_a_websocket_layer() {
    for pref in [HttpVersionPref::Http2, HttpVersionPref::All] {
        let settings = TlsSettings::builder().http_version_pref(pref).build();
        let (progress, calls) =
            drive(BoringTlsConnector::new(settings, TrustStorePolicy::NoOverride), None);
        let connector = match progress {
            ConnectorProgress::Ready(connector) => connector,
            other => panic!("the connector does not stand: {:?}", other),
        };
        let main = connector.connect_layer();
        let ws = connector.ws_connect_layer().expect("a second layer");
        assert_eq!(main.alpn_protocols(), pref.alpn_protocols());
        assert_eq!(ws.alpn_protocols(), vec![AlpnProtocol::Http1]);
        let names: Vec<&str> = ws.alpn_protocols().into_iter().map(|p| p.name()).collect();
        assert_eq!(names, vec!["http/1.1"]);
        assert_ne!(main, ws);
        assert_eq!(ws.settings, main.settings);
        assert_eq!(ws.trust_store, main.trust_store);
        assert_eq!(ws.session, main.session);
        assert_eq!(steps_of(&calls, LayerSlot::Main).len(), 6);
        assert_eq!(steps_of(&calls, LayerSlot::WebSocket).len(), 6);
        assert_eq!(calls[2], (LayerSlot::Main, BuilderStep::AlpnProtos(pref)));
        assert_eq!(calls[8], (LayerSlot::WebSocket, BuilderStep::AlpnProtos(HttpVersionPref::Http1)));
    }
}

#[test]
fn main_layer_calls_come_before_websocket_calls() {
    let settings = TlsSettings::builder().http_version_pref(HttpVersionPref::All).build();
    let (_, calls) = drive(BoringTlsConnector::new(settings, TrustStorePolicy::NoOverride), None);
    let slots: Vec<LayerSlot> = calls.iter().map(|(slot, _)| *slot).collect();
    let mut expected = vec![LayerSlot::Main; 6];
    expected.extend(vec![LayerSlot::WebSocket; 6]);
    assert_eq!(slots, expected);
}

#[test]
fn every_option_becomes_a_call_in_order() {
    let store = CaCertStore::new(vec![vec![0x30, 0x03, 0x02, 0x01, 0x00]]);
    let settings = TlsSettings::builder()
        .connector(BaseConnector::Supplied)
        .http_version_pref(HttpVersionPref::Http1)
        .certs_verification(false)
        .min_tls_version(Version::TLS_1_2)
        .max_tls_version(Version::TLS_1_3)
        .enable_ocsp_stapling(true)
        .enable_signed_cert_timestamps(true)
        .session_ticket(false)
        .grease_enabled(true)
        .permute_extensions(false)
        .curves(String::from("X25519:P-256"))
        .sigalgs_list(String::from("ecdsa_secp256r1_sha256"))
        .cipher_list(String::from("TLS_AES_128_GCM_SHA256"))
        .cert_compression_algorithm(CertCompressionAlgorithm::Brotli)
        .ca_cert_store(store.share())
        .pre_shared_key(true)
        .build();
    let (progress, calls) =
        drive(BoringTlsConnector::new(settings, TrustStorePolicy::WebPreferredOverNative), None);
    assert!(matches!(progress, ConnectorProgress::Ready(_)));
    let expected = vec![
        BuilderStep::Connector(BaseConnector::Supplied),
        BuilderStep::CertVerification(false),
        BuilderStep::AlpnProtos(HttpVersionPref::Http1),
        BuilderStep::MinTlsVersion(Some(Version::TLS_1_2)),
        BuilderStep::MaxTlsVersion(Some(Version::TLS_1_3)),
        BuilderStep::OcspStapling,
        BuilderStep::SignedCertTimestamps,
        BuilderStep::NoSessionTicket,
        BuilderStep::GreaseEnabled(true),
        BuilderStep::PermuteExtensions(false),
        BuilderStep::Curves(String::from("X25519:P-256")),
        BuilderStep::SigalgsList(String::from("ecdsa_secp256r1_sha256")),
        BuilderStep::CipherList(String::from("TLS_AES_128_GCM_SHA256")),
        BuilderStep::CertCompression(CertCompressionAlgorithm::Brotli),
        BuilderStep::VerifyCertStore(TrustStore::Custom(store)),
        BuilderStep::Session(HttpsLayerSettings { session_cache_capacity: 8, session_cache: true }),
    ];
    assert_eq!(steps_of(&calls, LayerSlot::Main), expected);
    assert_eq!(calls.len(), 16);
}

#[test]
fn unset_options_make_no_call() {
    let settings = TlsSettings::builder()
        .http_version_pref(HttpVersionPref::Http1)
        .session_ticket(true)
        .build();
    let (_, calls) = drive(BoringTlsConnector::new(settings, TrustStorePolicy::NoOverride), None);
    let expected = vec![
        BuilderStep::Connector(BaseConnector::Default),
        BuilderStep::CertVerification(true),
        BuilderStep::AlpnProtos(HttpVersionPref::Http1),
        BuilderStep::MinTlsVersion(None),
        BuilderStep::MaxTlsVersion(None),
        BuilderStep::Session(HttpsLayerSettings { session_cache_capacity: 8, session_cache: false }),
    ];
    assert_eq!(steps_of(&calls, LayerSlot::Main), expected);
}

#[test]
fn session_cache_follows_pre_shared_key() {
    for psk in [false, true] {
        for pref in [HttpVersionPref::Http1, HttpVersionPref::Http2, HttpVersionPref::All] {
            let settings =
                TlsSettings::builder().http_version_pref(pref).pre_shared_key(psk).build();
            let connector = build(settings, TrustStorePolicy::NoOverride);
            assert_eq!(connector.connect_layer().session.session_cache_capacity, 8);
            assert_eq!(connector.connect_layer().session.session_cache, psk);
            if let Some(ws) = connector.ws_connect_layer() {
                assert_eq!(ws.session.session_cache_capacity, 8);
                assert_eq!(ws.session.session_cache, psk);
            }
        }
    }
}

#[test]
fn trust_store_precedence_in_layers() {
    let own = CaCertStore::new(vec![vec![1, 2, 3]]);
    let cases = [
        (TrustStorePolicy::NoOverride, TrustStore::BackendDefault),
        (TrustStorePolicy::NativeOnly, TrustStore::Native),
        (TrustStorePolicy::WebOnly, TrustStore::WebTrust),
        (TrustStorePolicy::WebPreferredOverNative, TrustStore::WebTrust),
    ];
    for (policy, expected) in cases {
        let plain = build(TlsSettings::builder().build(), policy);
        assert_eq!(plain.connect_layer().trust_store, expected);
        assert_eq!(plain.ws_connect_layer().unwrap().trust_store, expected);
        let custom = build(TlsSettings::builder().ca_cert_store(own.share()).build(), policy);
        assert_eq!(custom.connect_layer().trust_store, TrustStore::Custom(own.share()));
        assert_eq!(custom.ws_connect_layer().unwrap().trust_store, TrustStore::Custom(own.share()));
    }
}

#[test]
fn backend_default_store_makes_no_call() {
    let (_, calls) = drive(
        BoringTlsConnector::new(TlsSettings::builder().build(), TrustStorePolicy::NoOverride),
        None,
    );
    assert!(!calls.iter().any(|(_, step)| matches!(step, BuilderStep::VerifyCertStore(_))));
    let (_, calls) = drive(
        BoringTlsConnector::new(TlsSettings::builder().build(), TrustStorePolicy::NativeOnly),
        None,
    );
    assert_eq!(calls[5], (LayerSlot::Main, BuilderStep::VerifyCertStore(TrustStore::Native)));
    assert_eq!(calls[12], (LayerSlot::WebSocket, BuilderStep::VerifyCertStore(TrustStore::Native)));
}

#[test]
fn same_settings_give_the_same_connector() {
    let settings = TlsSettings::builder()
        .http_version_pref(HttpVersionPref::All)
        .min_tls_version(Version::TLS_1_0)
        .max_tls_version(Version::TLS_1_3)
        .curves(String::from("X25519"))
        .build();
    let first = build(settings.snapshot(), TrustStorePolicy::WebOnly);
    let second = build(settings.snapshot(), TrustStorePolicy::WebOnly);
    assert_eq!(first, second);
    assert_eq!(first.connect_layer().alpn_protocols(), second.connect_layer().alpn_protocols());
    assert_eq!(
        first.connect_layer().settings.min_tls_version,
        second.connect_layer().settings.min_tls_version
    );
    assert_eq!(
        first.connect_layer().settings.max_tls_version,
        second.connect_layer().settings.max_tls_version
    );
    assert_eq!(first.connect_layer().trust_store, second.connect_layer().trust_store);
    assert_eq!(first.ws_connect_layer(), second.ws_connect_layer());
    assert_eq!(*first.connect_layer().settings, settings);
}

#[test]
fn ech_grease_and_alps_for_all_and_http1_for_websocket() {
    let settings = TlsSettings::builder()
        .http_version_pref(HttpVersionPref::All)
        .enable_ech_grease(true)
        .application_settings(true)
        .build();
    let connector = build(settings, TrustStorePolicy::NoOverride);

    let plain = connector.create_connector("transport", false);
    assert_eq!(plain.http, "transport");
    assert_eq!(plain.slot, LayerSlot::Main);
    assert_eq!(
        plain.handshake,
        HandshakeSettings {
            enable_ech_grease: true,
            verify_hostname: true,
            application_settings: Some(HttpVersionPref::All),
        }
    );
    assert_eq!(
        plain.handshake.steps(),
        vec![
            HandshakeStep::EchGrease(true),
            HandshakeStep::VerifyHostname(true),
            HandshakeStep::ApplicationSettings(HttpVersionPref::All),
        ]
    );
    let names: Vec<&str> = plain.layer.alpn_protocols().into_iter().map(|p| p.name()).collect();
    assert_eq!(names, vec!["h2", "http/1.1"]);

    let ws = connector.create_connector("transport", true);
    assert_eq!(ws.slot, LayerSlot::WebSocket);
    let names: Vec<&str> = ws.layer.alpn_protocols().into_iter().map(|p| p.name()).collect();
    assert_eq!(names, vec!["http/1.1"]);
    assert_eq!(ws.layer.http_version_pref.alpn_wire_format(), b"\x08http/1.1".to_vec());
    assert_eq!(ws.handshake, plain.handshake);
    assert_eq!(&ws.layer, connector.ws_connect_layer().unwrap());
    assert_eq!(&plain.layer, connector.connect_layer());
}

#[test]
fn websocket_falls_back_to_the_main_layer() {
    let settings = TlsSettings::builder()
        .http_version_pref(HttpVersionPref::Http1)
        .tls_sni(false)
        .build();
    let connector = build(settings, TrustStorePolicy::NoOverride);
    let ws = connector.create_connector(7u8, true);
    let plain = connector.create_connector(7u8, false);
    assert_eq!(ws, plain);
    assert_eq!(ws.slot, LayerSlot::Main);
    assert_eq!(&ws.layer, connector.connect_layer());
    assert_eq!(ws.layer.alpn_protocols(), vec![AlpnProtocol::Http1]);
    assert_eq!(
        ws.handshake,
        HandshakeSettings {
            enable_ech_grease: false,
            verify_hostname: false,
            application_settings: None,
        }
    );
    assert_eq!(
        ws.handshake.steps(),
        vec![HandshakeStep::EchGrease(false), HandshakeStep::VerifyHostname(false)]
    );
}

#[test]
fn connector_copies_flags_from_settings() {
    let settings = TlsSettings::builder()
        .tls_sni(false)
        .enable_ech_grease(true)
        .application_settings(true)
        .http_version_pref(HttpVersionPref::Http2)
        .build();
    let connector = build(settings, TrustStorePolicy::NoOverride);
    assert!(!connector.tls_sni());
    assert!(connector.enable_ech_grease());
    assert!(connector.application_settings());
    assert_eq!(connector.http_version_pref(), HttpVersionPref::Http2);
    let copy = connector.clone();
    assert_eq!(copy, connector);
}

#[test]
fn rejection_ends_construction_with_the_backend_error() {
    let settings = TlsSettings::builder().curves(String::from("no-such-curve")).build();
    let error = backend_error(0x1000_0084);
    let (progress, calls) = drive(
        BoringTlsConnector::new(settings, TrustStorePolicy::NoOverride),
        Some((5, BackendReply::Rejected(error.clone()))),
    );
    assert_eq!(progress, ConnectorProgress::Failed(TlsError::CryptoBackend(error)));
    assert_eq!(calls.len(), 6);
    assert_eq!(calls[5], (LayerSlot::Main, BuilderStep::Curves(String::from("no-such-curve"))));
}

#[test]
fn rejection_in_the_websocket_layer_fails_the_whole_connector() {
    let settings = TlsSettings::builder().http_version_pref(HttpVersionPref::Http2).build();
    let error = backend_error(7);
    let (progress, calls) = drive(
        BoringTlsConnector::new(settings, TrustStorePolicy::NoOverride),
        Some((11, BackendReply::Rejected(error.clone()))),
    );
    assert_eq!(progress, ConnectorProgress::Failed(TlsError::CryptoBackend(error)));
    assert_eq!(calls.len(), 12);
    assert_eq!(calls[11].0, LayerSlot::WebSocket);
}

#[test]
fn rejection_of_the_first_call_fails() {
    let error = backend_error(1);
    let (progress, calls) = drive(
        BoringTlsConnector::new(TlsSettings::default(), TrustStorePolicy::NoOverride),
        Some((0, BackendReply::Rejected(error.clone()))),
    );
    assert_eq!(progress, ConnectorProgress::Failed(TlsError::CryptoBackend(error)));
    assert_eq!(calls, vec![(LayerSlot::Main, BuilderStep::Connector(BaseConnector::Default))]);
}

#[test]
fn unusable_store_is_a_trust_store_error() {
    let store = CaCertStore::new(vec![vec![0xff]]);
    let settings = TlsSettings::builder()
        .http_version_pref(HttpVersionPref::Http1)
        .ca_cert_store(store.share())
        .build();
    let error = backend_error(0x0b00_0074);
    let (progress, calls) = drive(
        BoringTlsConnector::new(settings, TrustStorePolicy::NoOverride),
        Some((5, BackendReply::StoreUnusable(error.clone()))),
    );
    assert_eq!(progress, ConnectorProgress::Failed(TlsError::TrustStore(error)));
    assert_eq!(calls[5], (LayerSlot::Main, BuilderStep::VerifyCertStore(TrustStore::Custom(store))));
}

#[test]
fn list_with_zero_octet_fails_before_any_call() {
    let cases = [
        (TlsSettings::builder().curves(String::from("X25519\0P-256")).build(), ListOption::Curves),
        (
            TlsSettings::builder().sigalgs_list(String::from("\0")).build(),
            ListOption::SignatureAlgorithms,
        ),
        (TlsSettings::builder().cipher_list(String::from("A\0")).build(), ListOption::Ciphers),
        (
            TlsSettings::builder()
                .cipher_list(String::from("A\0"))
                .curves(String::from("\0B"))
                .build(),
            ListOption::Curves,
        ),
    ];
    for (settings, list) in cases {
        let (progress, calls) =
            drive(BoringTlsConnector::new(settings, TrustStorePolicy::NoOverride), None);
        assert_eq!(
            progress,
            ConnectorProgress::Failed(TlsError::Configuration(ConfigurationError::MalformedList(
                list
            )))
        );
        assert!(calls.is_empty());
    }
}

#[test]
fn backend_reply_into_error() {
    let error = backend_error(3);
    assert_eq!(BackendReply::Accepted.into_error(), None);
    assert_eq!(
        BackendReply::Rejected(error.clone()).into_error(),
        Some(TlsError::CryptoBackend(error.clone()))
    );
    assert_eq!(
        BackendReply::StoreUnusable(error.clone()).into_error(),
        Some(TlsError::TrustStore(error))
    );
}
