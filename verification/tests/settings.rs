use rquest_tls::settings::{has_zero_octet, list_is_well_formed};
use rquest_tls::{
    BaseConnector, CaCertStore, CertCompressionAlgorithm, HttpVersionPref, ListOption, TlsSettings,
    Version,
};

#[test]
fn default_settings() {
    let settings = TlsSettings::builder().build();
    assert_eq!(settings, TlsSettings::default());
    assert_eq!(settings.connector, BaseConnector::Default);
    assert!(settings.tls_sni);
    assert_eq!(settings.http_version_pref, HttpVersionPref::All);
    assert!(!settings.enable_ech_grease);
    assert!(!settings.application_settings);
    assert!(settings.certs_verification);
    assert_eq!(settings.min_tls_version, None);
    assert_eq!(settings.max_tls_version, None);
    assert!(!settings.enable_ocsp_stapling);
    assert!(!settings.enable_signed_cert_timestamps);
    assert_eq!(settings.session_ticket, None);
    assert_eq!(settings.grease_enabled, None);
    assert_eq!(settings.permute_extensions, None);
    assert_eq!(settings.curves, None);
    assert_eq!(settings.sigalgs_list, None);
    assert_eq!(settings.cipher_list, None);
    assert_eq!(settings.cert_compression_algorithm, None);
    assert_eq!(settings.ca_cert_store, None);
    assert!(!settings.pre_shared_key);
}

#[test]
fn each_setter_sets_its_own_option() {
    let store = CaCertStore::new(vec![vec![9]]);
    let settings = TlsSettings::builder()
        .connector(BaseConnector::Supplied)
        .tls_sni(false)
        .http_version_pref(HttpVersionPref::Http2)
        .enable_ech_grease(true)
        .application_settings(true)
        .certs_verification(false)
        .min_tls_version(Version::TLS_1_1)
        .max_tls_version(Version::TLS_1_2)
        .enable_ocsp_stapling(true)
        .enable_signed_cert_timestamps(true)
        .session_ticket(true)
        .grease_enabled(false)
        .permute_extensions(true)
        .curves(String::from("c"))
        .sigalgs_list(String::from("s"))
        .cipher_list(String::from("l"))
        .cert_compression_algorithm(CertCompressionAlgorithm::Zlib)
        .ca_cert_store(store.share())
        .pre_shared_key(true)
        .build();
    let expected = TlsSettings {
        connector: BaseConnector::Supplied,
        tls_sni: false,
        http_version_pref: HttpVersionPref::Http2,
        enable_ech_grease: true,
        application_settings: true,
        certs_verification: false,
        min_tls_version: Some(Version::TLS_1_1),
        max_tls_version: Some(Version::TLS_1_2),
        enable_ocsp_stapling: true,
        enable_signed_cert_timestamps: true,
        session_ticket: Some(true),
        grease_enabled: Some(false),
        permute_extensions: Some(true),
        curves: Some(String::from("c")),
        sigalgs_list: Some(String::from("s")),
        cipher_list: Some(String::from("l")),
        cert_compression_algorithm: Some(CertCompressionAlgorithm::Zlib),
        ca_cert_store: Some(store),
        pre_shared_key: true,
    };
    assert_eq!(settings, expected);
    assert_eq!(settings.snapshot(), expected);
}

#[test]
fn one_setter_leaves_the_rest_at_default() {
    let settings = TlsSettings::builder().pre_shared_key(true).build();
    assert_eq!(settings, TlsSettings { pre_shared_key: true, ..TlsSettings::default() });
}

#[test]
fn zero_octets_are_found() {
    assert!(!has_zero_octet(""));
    assert!(!has_zero_octet("X25519:P-256"));
    assert!(!has_zero_octet("caf\u{e9}\u{20ac}\u{1f600}"));
    assert!(has_zero_octet("\0"));
    assert!(has_zero_octet("abc\0"));
    assert!(has_zero_octet("\u{20ac}\0x"));
    assert!(list_is_well_formed(&None));
    assert!(list_is_well_formed(&Some(String::from("ok"))));
    assert!(!list_is_well_formed(&Some(String::from("o\0k"))));
}

#[test]
fn first_malformed_list_is_named() {
    assert_eq!(TlsSettings::default().malformed_list(), None);
    let settings = TlsSettings::builder()
        .curves(String::from("fine"))
        .sigalgs_list(String::from("\0"))
        .cipher_list(String::from("\0"))
        .build();
    assert_eq!(settings.malformed_list(), Some(ListOption::SignatureAlgorithms));
}
