//! The TLS side of a client profile.

use vstd::prelude::*;
use vstd::string::*;
use vstd::utf8::*;
use crate::error::ListOption;
use crate::protocol::{HttpVersionPref, Version};
use crate::trust::CaCertStore;

verus! {

/// Where the backend's connector builder comes from.
#[derive(Debug, Clone, Copy, PartialEq, Eq, Hash, Structural)]
pub enum BaseConnector {
    /// A fresh client-mode builder with the backend's defaults.
    Default,
    /// A builder that the caller prepared.
    Supplied,
}

/// A certificate compression algorithm.
#[derive(Debug, Clone, Copy, PartialEq, Eq, Hash, Structural)]
pub enum CertCompressionAlgorithm {
    Brotli,
    Zlib,
}

/// The TLS settings of one client identity.
#[derive(Debug, Clone, PartialEq, Eq)]
pub struct TlsSettings {
    /// Where the connector builder comes from.
    pub connector: BaseConnector,
    /// Whether the peer's certificate must match the host name.
    pub tls_sni: bool,
    /// Which HTTP versions are offered through ALPN.
    pub http_version_pref: HttpVersionPref,
    /// Whether a GREASE Encrypted Client Hello is sent.
    pub enable_ech_grease: bool,
    /// Whether application-layer protocol settings are announced.
    pub application_settings: bool,
    /// Whether the peer's certificate chain is verified.
    pub certs_verification: bool,
    /// The lowest protocol version offered; `None` keeps the backend's.
    pub min_tls_version: Option<Version>,
    /// The highest protocol version offered; `None` keeps the backend's.
    pub max_tls_version: Option<Version>,
    /// Whether a stapled OCSP response is requested.
    pub enable_ocsp_stapling: bool,
    /// Whether signed certificate timestamps are requested.
    pub enable_signed_cert_timestamps: bool,
    /// `Some(false)` turns session tickets off; anything else keeps the backend's default.
    pub session_ticket: Option<bool>,
    /// Whether GREASE values are sent; `None` keeps the backend's default.
    pub grease_enabled: Option<bool>,
    /// Whether the extensions of the ClientHello are permuted; `None` keeps the backend's default.
    pub permute_extensions: Option<bool>,
    /// The supported curves, as a colon-separated list.
    pub curves: Option<String>,
    /// The signature algorithms, as a colon-separated list.
    pub sigalgs_list: Option<String>,
    /// The cipher suites, as a colon-separated list.
    pub cipher_list: Option<String>,
    /// The certificate compression algorithm to register.
    pub cert_compression_algorithm: Option<CertCompressionAlgorithm>,
    /// The caller's own trust store.
    pub ca_cert_store: Option<CaCertStore>,
    /// Whether sessions are kept for resumption.
    pub pre_shared_key: bool,
}

/// Whether the UTF-8 encoding of `text` holds a zero octet.
pub open spec fn spec_has_zero_octet(text: Seq<char>) -> bool {
    encode_utf8(text).contains(0u8)
}

/// Whether the UTF-8 encoding of `text` holds a zero octet.
pub fn has_zero_octet(text: &str) -> (found: bool)
    ensures
        found == spec_has_zero_octet(text@),
{
    let octets = text.as_bytes();
    let mut i: usize = 0;
    while i < octets.len()
        invariant
            i <= octets.len(),
            octets@ == encode_utf8(text@),
            forall|k: int| 0 <= k < i ==> octets@[k] != 0u8,
        decreases octets.len() - i,
    {
        if octets[i] == 0u8 {
            return true;
        }
        i += 1;
    }
    false
}

/// Whether a list, if set, can be handed to the backend as a string.
pub open spec fn spec_list_is_well_formed(list: Option<String>) -> bool {
    list matches Some(text) ==> !spec_has_zero_octet(text@)
}

/// Whether a list, if set, can be handed to the backend as a string.
pub fn list_is_well_formed(list: &Option<String>) -> (ok: bool)
    ensures
        ok == spec_list_is_well_formed(*list),
{
    match list {
        Some(text) => !has_zero_octet(text.as_str()),
        None => true,
    }
}

impl TlsSettings {
    /// The first malformed list among curves, signature algorithms and ciphers.
    pub open spec fn spec_malformed_list(self) -> Option<ListOption> {
        if !spec_list_is_well_formed(self.curves) {
            Some(ListOption::Curves)
        } else if !spec_list_is_well_formed(self.sigalgs_list) {
            Some(ListOption::SignatureAlgorithms)
        } else if !spec_list_is_well_formed(self.cipher_list) {
            Some(ListOption::Ciphers)
        } else {
            None
        }
    }

    /// The first malformed list among curves, signature algorithms and ciphers.
    pub fn malformed_list(&self) -> (found: Option<ListOption>)
        ensures
            found == self.spec_malformed_list(),
    {
        if !list_is_well_formed(&self.curves) {
            Some(ListOption::Curves)
        } else if !list_is_well_formed(&self.sigalgs_list) {
            Some(ListOption::SignatureAlgorithms)
        } else if !list_is_well_formed(&self.cipher_list) {
            Some(ListOption::Ciphers)
        } else {
            None
        }
    }
}

impl TlsSettings {
    /// The settings before any option is set: host name verification and
    /// certificate verification on, both HTTP versions offered, everything
    /// else off or left to the backend.
    pub open spec fn spec_default() -> TlsSettings {
        TlsSettings {
            connector: BaseConnector::Default,
            tls_sni: true,
            http_version_pref: HttpVersionPref::All,
            enable_ech_grease: false,
            application_settings: false,
            certs_verification: true,
            min_tls_version: None,
            max_tls_version: None,
            enable_ocsp_stapling: false,
            enable_signed_cert_timestamps: false,
            session_ticket: None,
            grease_enabled: None,
            permute_extensions: None,
            curves: None,
            sigalgs_list: None,
            cipher_list: None,
            cert_compression_algorithm: None,
            ca_cert_store: None,
            pre_shared_key: false,
        }
    }

    /// Starts from the default settings.
    pub fn builder() -> (builder: TlsSettingsBuilder)
        ensures
            builder.settings == TlsSettings::spec_default(),
    {
        TlsSettingsBuilder { settings: TlsSettings::default() }
    }

    /// A copy of the settings, equal to them in every field.
    pub fn snapshot(&self) -> (copy: TlsSettings)
        ensures
            copy == *self,
    {
        TlsSettings {
            connector: self.connector,
            tls_sni: self.tls_sni,
            http_version_pref: self.http_version_pref,
            enable_ech_grease: self.enable_ech_grease,
            application_settings: self.application_settings,
            certs_verification: self.certs_verification,
            min_tls_version: self.min_tls_version,
            max_tls_version: self.max_tls_version,
            enable_ocsp_stapling: self.enable_ocsp_stapling,
            enable_signed_cert_timestamps: self.enable_signed_cert_timestamps,
            session_ticket: self.session_ticket,
            grease_enabled: self.grease_enabled,
            permute_extensions: self.permute_extensions,
            curves: copy_text(&self.curves),
            sigalgs_list: copy_text(&self.sigalgs_list),
            cipher_list: copy_text(&self.cipher_list),
            cert_compression_algorithm: self.cert_compression_algorithm,
            ca_cert_store: match &self.ca_cert_store {
                Some(store) => Some(store.share()),
                None => None,
            },
            pre_shared_key: self.pre_shared_key,
        }
    }
}

fn copy_text(text: &Option<String>) -> (copy: Option<String>)
    ensures
        copy == *text,
{
    match text {
        Some(text) => Some(text.clone()),
        None => None,
    }
}

impl Default for TlsSettings {
    fn default() -> (settings: TlsSettings)
        ensures
            settings == TlsSettings::spec_default(),
    {
        TlsSettings {
            connector: BaseConnector::Default,
            tls_sni: true,
            http_version_pref: HttpVersionPref::All,
            enable_ech_grease: false,
            application_settings: false,
            certs_verification: true,
            min_tls_version: None,
            max_tls_version: None,
            enable_ocsp_stapling: false,
            enable_signed_cert_timestamps: false,
            session_ticket: None,
            grease_enabled: None,
            permute_extensions: None,
            curves: None,
            sigalgs_list: None,
            cipher_list: None,
            cert_compression_algorithm: None,
            ca_cert_store: None,
            pre_shared_key: false,
        }
    }
}

/// Builds `TlsSettings` option by option. No option can fail here: what the
/// backend makes of a list is found out when a connector is built.
#[derive(Debug, Clone, PartialEq, Eq)]
pub struct TlsSettingsBuilder {
    pub settings: TlsSettings,
}

impl TlsSettingsBuilder {
    /// Sets where the backend's connector builder comes from.
    pub fn connector(self, connector: BaseConnector) -> (builder: TlsSettingsBuilder)
        ensures
            builder.settings == (TlsSettings { connector, ..self.settings }),
    {
        TlsSettingsBuilder { settings: TlsSettings { connector, ..self.settings } }
    }

    /// Sets whether the peer's certificate must match the host name.
    pub fn tls_sni(self, tls_sni: bool) -> (builder: TlsSettingsBuilder)
        ensures
            builder.settings == (TlsSettings { tls_sni, ..self.settings }),
    {
        TlsSettingsBuilder { settings: TlsSettings { tls_sni, ..self.settings } }
    }

    /// Sets which HTTP versions are offered through ALPN.
    pub fn http_version_pref(
        self,
        http_version_pref: HttpVersionPref,
    ) -> (builder: TlsSettingsBuilder)
        ensures
            builder.settings == (TlsSettings { http_version_pref, ..self.settings }),
    {
        TlsSettingsBuilder { settings: TlsSettings { http_version_pref, ..self.settings } }
    }

    /// Sets whether a GREASE Encrypted Client Hello is sent.
    pub fn enable_ech_grease(self, enable_ech_grease: bool) -> (builder: TlsSettingsBuilder)
        ensures
            builder.settings == (TlsSettings { enable_ech_grease, ..self.settings }),
    {
        TlsSettingsBuilder { settings: TlsSettings { enable_ech_grease, ..self.settings } }
    }

    /// Sets whether application-layer protocol settings are announced.
    pub fn application_settings(self, application_settings: bool) -> (builder: TlsSettingsBuilder)
        ensures
            builder.settings == (TlsSettings { application_settings, ..self.settings }),
    {
        TlsSettingsBuilder { settings: TlsSettings { application_settings, ..self.settings } }
    }

    /// Sets whether the peer's certificate chain is verified.
    pub fn certs_verification(self, certs_verification: bool) -> (builder: TlsSettingsBuilder)
        ensures
            builder.settings == (TlsSettings { certs_verification, ..self.settings }),
    {
        TlsSettingsBuilder { settings: TlsSettings { certs_verification, ..self.settings } }
    }

    /// Sets the lowest protocol version offered.
    pub fn min_tls_version(self, min_tls_version: Version) -> (builder: TlsSettingsBuilder)
        ensures
            builder.settings == (TlsSettings {
                min_tls_version: Some(min_tls_version),
                ..self.settings
            }),
    {
        TlsSettingsBuilder {
            settings: TlsSettings { min_tls_version: Some(min_tls_version), ..self.settings },
        }
    }

    /// Sets the highest protocol version offered.
    pub fn max_tls_version(self, max_tls_version: Version) -> (builder: TlsSettingsBuilder)
        ensures
            builder.settings == (TlsSettings {
                max_tls_version: Some(max_tls_version),
                ..self.settings
            }),
    {
        TlsSettingsBuilder {
            settings: TlsSettings { max_tls_version: Some(max_tls_version), ..self.settings },
        }
    }

    /// Sets whether a stapled OCSP response is requested.
    pub fn enable_ocsp_stapling(self, enable_ocsp_stapling: bool) -> (builder: TlsSettingsBuilder)
        ensures
            builder.settings == (TlsSettings { enable_ocsp_stapling, ..self.settings }),
    {
        TlsSettingsBuilder { settings: TlsSettings { enable_ocsp_stapling, ..self.settings } }
    }

    /// Sets whether signed certificate timestamps are requested.
    pub fn enable_signed_cert_timestamps(
        self,
        enable_signed_cert_timestamps: bool,
    ) -> (builder: TlsSettingsBuilder)
        ensures
            builder.settings == (TlsSettings { enable_signed_cert_timestamps, ..self.settings }),
    {
        TlsSettingsBuilder {
            settings: TlsSettings { enable_signed_cert_timestamps, ..self.settings },
        }
    }

    /// Sets whether session tickets are used; `false` turns them off.
    pub fn session_ticket(self, session_ticket: bool) -> (builder: TlsSettingsBuilder)
        ensures
            builder.settings == (TlsSettings {
                session_ticket: Some(session_ticket),
                ..self.settings
            }),
    {
        TlsSettingsBuilder {
            settings: TlsSettings { session_ticket: Some(session_ticket), ..self.settings },
        }
    }

    /// Sets whether GREASE values are sent.
    pub fn grease_enabled(self, grease_enabled: bool) -> (builder: TlsSettingsBuilder)
        ensures
            builder.settings == (TlsSettings {
                grease_enabled: Some(grease_enabled),
                ..self.settings
            }),
    {
        TlsSettingsBuilder {
            settings: TlsSettings { grease_enabled: Some(grease_enabled), ..self.settings },
        }
    }

    /// Sets whether the extensions of the ClientHello are permuted.
    pub fn permute_extensions(self, permute_extensions: bool) -> (builder: TlsSettingsBuilder)
        ensures
            builder.settings == (TlsSettings {
                permute_extensions: Some(permute_extensions),
                ..self.settings
            }),
    {
        TlsSettingsBuilder {
            settings: TlsSettings { permute_extensions: Some(permute_extensions), ..self.settings },
        }
    }

    /// Sets the supported curves, as a colon-separated list.
    pub fn curves(self, curves: String) -> (builder: TlsSettingsBuilder)
        ensures
            builder.settings == (TlsSettings { curves: Some(curves), ..self.settings }),
    {
        TlsSettingsBuilder { settings: TlsSettings { curves: Some(curves), ..self.settings } }
    }

    /// Sets the signature algorithms, as a colon-separated list.
    pub fn sigalgs_list(self, sigalgs_list: String) -> (builder: TlsSettingsBuilder)
        ensures
            builder.settings == (TlsSettings { sigalgs_list: Some(sigalgs_list), ..self.settings }),
    {
        TlsSettingsBuilder {
            settings: TlsSettings { sigalgs_list: Some(sigalgs_list), ..self.settings },
        }
    }

    /// Sets the cipher suites, as a colon-separated list.
    pub fn cipher_list(self, cipher_list: String) -> (builder: TlsSettingsBuilder)
        ensures
            builder.settings == (TlsSettings { cipher_list: Some(cipher_list), ..self.settings }),
    {
        TlsSettingsBuilder {
            settings: TlsSettings { cipher_list: Some(cipher_list), ..self.settings },
        }
    }

    /// Sets the certificate compression algorithm to register.
    pub fn cert_compression_algorithm(
        self,
        cert_compression_algorithm: CertCompressionAlgorithm,
    ) -> (builder: TlsSettingsBuilder)
        ensures
            builder.settings == (TlsSettings {
                cert_compression_algorithm: Some(cert_compression_algorithm),
                ..self.settings
            }),
    {
        TlsSettingsBuilder {
            settings: TlsSettings {
                cert_compression_algorithm: Some(cert_compression_algorithm),
                ..self.settings
            },
        }
    }

    /// Sets the caller's own trust store, which then wins over every bundle.
    pub fn ca_cert_store(self, ca_cert_store: CaCertStore) -> (builder: TlsSettingsBuilder)
        ensures
            builder.settings == (TlsSettings {
                ca_cert_store: Some(ca_cert_store),
                ..self.settings
            }),
    {
        TlsSettingsBuilder {
            settings: TlsSettings { ca_cert_store: Some(ca_cert_store), ..self.settings },
        }
    }

    /// Sets whether sessions are kept for resumption.
    pub fn pre_shared_key(self, pre_shared_key: bool) -> (builder: TlsSettingsBuilder)
        ensures
            builder.settings == (TlsSettings { pre_shared_key, ..self.settings }),
    {
        TlsSettingsBuilder { settings: TlsSettings { pre_shared_key, ..self.settings } }
    }

    /// The settings as built.
    pub fn build(self) -> (settings: TlsSettings)
        ensures
            settings == self.settings,
    {
        self.settings
    }
}

} // verus!
