//! The connect layer: what one TLS configuration asks of the backend, call by
//! call, and how the backend's answers turn into a layer or an error.

use vstd::prelude::*;
use std::sync::Arc;
use crate::error::{BackendReply, ConfigurationError, TlsError};
use crate::protocol::{AlpnProtocol, HttpVersionPref, Version};
use crate::settings::{BaseConnector, CertCompressionAlgorithm, TlsSettings};
use crate::trust::{resolve_trust_store, share, spec_resolve_trust_store, TrustStore, TrustStorePolicy};

verus! {

/// How many sessions a layer keeps for resumption.
pub const SESSION_CACHE_CAPACITY: usize = 8;

/// The session handling of a connect layer.
#[derive(Debug, Clone, Copy, PartialEq, Eq, Hash, Structural)]
pub struct HttpsLayerSettings {
    /// How many sessions the cache holds.
    pub session_cache_capacity: usize,
    /// Whether sessions are cached at all.
    pub session_cache: bool,
}

/// One call on the backend's connector builder.
#[derive(Debug, Clone, PartialEq, Eq)]
pub enum BuilderStep {
    /// Obtain the builder.
    Connector(BaseConnector),
    /// Verify the peer's certificate chain, or do not.
    CertVerification(bool),
    /// Offer the protocols of this preference through ALPN.
    AlpnProtos(HttpVersionPref),
    /// Set the lowest protocol version; `None` restores the backend's default.
    MinTlsVersion(Option<Version>),
    /// Set the highest protocol version; `None` restores the backend's default.
    MaxTlsVersion(Option<Version>),
    /// Request a stapled OCSP response.
    OcspStapling,
    /// Request signed certificate timestamps.
    SignedCertTimestamps,
    /// Turn session tickets off.
    NoSessionTicket,
    /// Turn GREASE on or off.
    GreaseEnabled(bool),
    /// Turn the permutation of extensions on or off.
    PermuteExtensions(bool),
    /// Set the supported curves.
    Curves(String),
    /// Set the signature algorithms.
    SigalgsList(String),
    /// Set the cipher suites.
    CipherList(String),
    /// Register a certificate compression algorithm.
    CertCompression(CertCompressionAlgorithm),
    /// Verify peers against this store.
    VerifyCertStore(TrustStore),
    /// Close the builder into a layer with this session handling.
    Session(HttpsLayerSettings),
}

/// A connect layer: the configuration that every connection made through it
/// observes. Handles on a layer are cheap to make and share the settings.
#[derive(Debug, Clone, PartialEq, Eq)]
pub struct ConnectLayer {
    /// The settings the layer was derived from.
    pub settings: Arc<TlsSettings>,
    /// The preference that decides the layer's ALPN list.
    pub http_version_pref: HttpVersionPref,
    /// The store that peers are verified against.
    pub trust_store: TrustStore,
    /// The layer's session handling.
    pub session: HttpsLayerSettings,
}

/// The one step, if `present`; nothing otherwise.
pub open spec fn step_if(present: bool, step: BuilderStep) -> Seq<BuilderStep> {
    if present {
        seq![step]
    } else {
        Seq::empty()
    }
}

/// The layer that the given settings, preference and policy call for.
pub open spec fn spec_connect_layer(
    settings: Arc<TlsSettings>,
    http_version_pref: HttpVersionPref,
    policy: TrustStorePolicy,
) -> ConnectLayer {
    ConnectLayer {
        settings,
        http_version_pref,
        trust_store: spec_resolve_trust_store(settings.ca_cert_store, policy),
        session: HttpsLayerSettings {
            session_cache_capacity: SESSION_CACHE_CAPACITY,
            session_cache: settings.pre_shared_key,
        },
    }
}

impl ConnectLayer {
    /// The calls that always come first: builder, verification, ALPN, version bounds.
    pub open spec fn spec_fixed_steps(self) -> Seq<BuilderStep> {
        seq![
            BuilderStep::Connector(self.settings.connector),
            BuilderStep::CertVerification(self.settings.certs_verification),
            BuilderStep::AlpnProtos(self.http_version_pref),
            BuilderStep::MinTlsVersion(self.settings.min_tls_version),
            BuilderStep::MaxTlsVersion(self.settings.max_tls_version),
        ]
    }

    /// The switches, each present only if the settings ask for it.
    pub open spec fn spec_toggle_steps(self) -> Seq<BuilderStep> {
        let settings = self.settings;
        step_if(settings.enable_ocsp_stapling, BuilderStep::OcspStapling)
            + step_if(settings.enable_signed_cert_timestamps, BuilderStep::SignedCertTimestamps)
            + step_if(settings.session_ticket == Some(false), BuilderStep::NoSessionTicket)
            + step_if(
                settings.grease_enabled is Some,
                BuilderStep::GreaseEnabled(settings.grease_enabled->Some_0),
            )
            + step_if(
                settings.permute_extensions is Some,
                BuilderStep::PermuteExtensions(settings.permute_extensions->Some_0),
            )
    }

    /// The list overrides and the compression algorithm, each present only if set.
    pub open spec fn spec_override_steps(self) -> Seq<BuilderStep> {
        let settings = self.settings;
        step_if(settings.curves is Some, BuilderStep::Curves(settings.curves->Some_0))
            + step_if(
                settings.sigalgs_list is Some,
                BuilderStep::SigalgsList(settings.sigalgs_list->Some_0),
            )
            + step_if(
                settings.cipher_list is Some,
                BuilderStep::CipherList(settings.cipher_list->Some_0),
            )
            + step_if(
                settings.cert_compression_algorithm is Some,
                BuilderStep::CertCompression(settings.cert_compression_algorithm->Some_0),
            )
    }

    /// The trust store, unless the backend's default stays, and the closing call.
    pub open spec fn spec_closing_steps(self) -> Seq<BuilderStep> {
        step_if(
            self.trust_store != TrustStore::BackendDefault,
            BuilderStep::VerifyCertStore(self.trust_store),
        ) + seq![BuilderStep::Session(self.session)]
    }

    /// Every call that the layer asks of the backend, in the order of the calls.
    pub open spec fn spec_steps(self) -> Seq<BuilderStep> {
        self.spec_fixed_steps() + self.spec_toggle_steps() + self.spec_override_steps()
            + self.spec_closing_steps()
    }

    /// The layer that the given settings, preference and policy call for:
    /// the trust store resolved, 8 sessions at most, and sessions cached
    /// exactly if the settings ask for a pre-shared key.
    pub fn derive(
        settings: &Arc<TlsSettings>,
        http_version_pref: HttpVersionPref,
        policy: TrustStorePolicy,
    ) -> (layer: ConnectLayer)
        ensures
            layer == spec_connect_layer(*settings, http_version_pref, policy),
            layer.session.session_cache_capacity == 8,
            layer.session.session_cache == settings.pre_shared_key,
    {
        ConnectLayer {
            settings: share(settings),
            http_version_pref,
            trust_store: resolve_trust_store(&settings.ca_cert_store, policy),
            session: HttpsLayerSettings {
                session_cache_capacity: SESSION_CACHE_CAPACITY,
                session_cache: settings.pre_shared_key,
            },
        }
    }

    /// The protocols that the layer offers through ALPN, most preferred first.
    pub fn alpn_protocols(&self) -> (protocols: Vec<AlpnProtocol>)
        ensures
            protocols@ == self.http_version_pref.spec_alpn_protocols(),
    {
        self.http_version_pref.alpn_protocols()
    }

    /// Another handle on this layer. Nothing is configured again.
    pub fn share(&self) -> (other: ConnectLayer)
        ensures
            other == *self,
    {
        ConnectLayer {
            settings: share(&self.settings),
            http_version_pref: self.http_version_pref,
            trust_store: self.trust_store.share(),
            session: self.session,
        }
    }

    /// Every call that the layer asks of the backend, in the order of the calls.
    pub fn builder_steps(&self) -> (steps: Vec<BuilderStep>)
        ensures
            steps@ == self.spec_steps(),
    {
        let mut steps: Vec<BuilderStep> = Vec::new();
        self.push_fixed_steps(&mut steps);
        self.push_toggle_steps(&mut steps);
        self.push_override_steps(&mut steps);
        self.push_closing_steps(&mut steps);
        assert(steps@ =~= self.spec_steps());
        steps
    }

    fn push_fixed_steps(&self, steps: &mut Vec<BuilderStep>)
        ensures
            final(steps)@ == old(steps)@ + self.spec_fixed_steps(),
    {
        let settings = &self.settings;
        steps.push(BuilderStep::Connector(settings.connector));
        steps.push(BuilderStep::CertVerification(settings.certs_verification));
        steps.push(BuilderStep::AlpnProtos(self.http_version_pref));
        steps.push(BuilderStep::MinTlsVersion(settings.min_tls_version));
        steps.push(BuilderStep::MaxTlsVersion(settings.max_tls_version));
        assert(steps@ =~= old(steps)@ + self.spec_fixed_steps());
    }

    fn push_toggle_steps(&self, steps: &mut Vec<BuilderStep>)
        ensures
            final(steps)@ == old(steps)@ + self.spec_toggle_steps(),
    {
        let settings = &self.settings;
        push_step(
            steps,
            if settings.enable_ocsp_stapling {
                Some(BuilderStep::OcspStapling)
            } else {
                None
            },
        );
        push_step(
            steps,
            if settings.enable_signed_cert_timestamps {
                Some(BuilderStep::SignedCertTimestamps)
            } else {
                None
            },
        );
        push_step(
            steps,
            match settings.session_ticket {
                Some(false) => Some(BuilderStep::NoSessionTicket),
                _ => None,
            },
        );
        push_step(
            steps,
            match settings.grease_enabled {
                Some(enabled) => Some(BuilderStep::GreaseEnabled(enabled)),
                None => None,
            },
        );
        push_step(
            steps,
            match settings.permute_extensions {
                Some(enabled) => Some(BuilderStep::PermuteExtensions(enabled)),
                None => None,
            },
        );
        assert(steps@ =~= old(steps)@ + self.spec_toggle_steps());
    }

    fn push_override_steps(&self, steps: &mut Vec<BuilderStep>)
        ensures
            final(steps)@ == old(steps)@ + self.spec_override_steps(),
    {
        let settings = &self.settings;
        push_step(
            steps,
            match &settings.curves {
                Some(curves) => Some(BuilderStep::Curves(curves.clone())),
                None => None,
            },
        );
        push_step(
            steps,
            match &settings.sigalgs_list {
                Some(sigalgs) => Some(BuilderStep::SigalgsList(sigalgs.clone())),
                None => None,
            },
        );
        push_step(
            steps,
            match &settings.cipher_list {
                Some(ciphers) => Some(BuilderStep::CipherList(ciphers.clone())),
                None => None,
            },
        );
        push_step(
            steps,
            match settings.cert_compression_algorithm {
                Some(algorithm) => Some(BuilderStep::CertCompression(algorithm)),
                None => None,
            },
        );
        assert(steps@ =~= old(steps)@ + self.spec_override_steps());
    }

    fn push_closing_steps(&self, steps: &mut Vec<BuilderStep>)
        ensures
            final(steps)@ == old(steps)@ + self.spec_closing_steps(),
    {
        push_step(
            steps,
            match &self.trust_store {
                TrustStore::BackendDefault => None,
                store => Some(BuilderStep::VerifyCertStore(store.share())),
            },
        );
        steps.push(BuilderStep::Session(self.session));
        assert(steps@ =~= old(steps)@ + self.spec_closing_steps());
    }
}

/// The step that `step` holds, if any, as a sequence.
pub open spec fn step_of(step: Option<BuilderStep>) -> Seq<BuilderStep> {
    match step {
        Some(step) => seq![step],
        None => Seq::empty(),
    }
}

fn push_step(steps: &mut Vec<BuilderStep>, step: Option<BuilderStep>)
    ensures
        final(steps)@ == old(steps)@ + step_of(step),
{
    match step {
        Some(step) => {
            steps.push(step);
        },
        None => {},
    }
    assert(steps@ =~= old(steps)@ + step_of(step));
}

/// A connect layer under construction: the layer asked for, and how many of
/// its calls the backend has accepted so far.
#[derive(Debug, Clone, PartialEq, Eq)]
pub struct LayerBuild {
    /// The layer that is being built.
    pub layer: ConnectLayer,
    /// The position, among the layer's calls, of the call that is due.
    pub stage: usize,
}

/// Where the construction of a connect layer stands.
#[derive(Debug, Clone, PartialEq, Eq)]
pub enum LayerProgress {
    /// A call on the backend is due; its answer goes to `LayerBuild::resume`.
    Pending(LayerBuild),
    /// Every call was accepted: the layer stands.
    Ready(ConnectLayer),
    /// Construction was given up. Nothing of the layer is kept.
    Failed(TlsError),
}

/// Where construction starts: nowhere, if a list is malformed; else at the
/// first call of the layer that settings, preference and policy call for.
pub open spec fn spec_create_connect_layer(
    settings: Arc<TlsSettings>,
    http_version_pref: HttpVersionPref,
    policy: TrustStorePolicy,
) -> LayerProgress {
    match settings.spec_malformed_list() {
        Some(list) => LayerProgress::Failed(
            TlsError::Configuration(ConfigurationError::MalformedList(list)),
        ),
        None => LayerProgress::Pending(
            LayerBuild { layer: spec_connect_layer(settings, http_version_pref, policy), stage: 0 },
        ),
    }
}

/// Starts the construction of a connect layer for the given settings,
/// offering the protocols of `http_version_pref`, which need not be the
/// settings' own preference.
///
/// A list with a zero octet fails at once, before the backend is called.
/// Otherwise the first call of the layer is due. The layer keeps 8 sessions
/// at most, and caches sessions exactly if the settings ask for a pre-shared key.
pub fn create_connect_layer(
    settings: &Arc<TlsSettings>,
    http_version_pref: HttpVersionPref,
    policy: TrustStorePolicy,
) -> (progress: LayerProgress)
    ensures
        progress == spec_create_connect_layer(*settings, http_version_pref, policy),
        progress is Pending || progress is Failed,
        progress is Failed <==> settings.spec_malformed_list() is Some,
        progress matches LayerProgress::Pending(build) ==> {
            &&& build.stage == 0
            &&& build.layer.settings == *settings
            &&& build.layer.http_version_pref == http_version_pref
            &&& build.layer.trust_store == spec_resolve_trust_store(settings.ca_cert_store, policy)
            &&& build.layer.session.session_cache_capacity == 8
            &&& build.layer.session.session_cache == settings.pre_shared_key
        },
{
    match settings.malformed_list() {
        Some(list) => LayerProgress::Failed(
            TlsError::Configuration(ConfigurationError::MalformedList(list)),
        ),
        None => LayerProgress::Pending(
            LayerBuild { layer: ConnectLayer::derive(settings, http_version_pref, policy), stage: 0 },
        ),
    }
}

impl LayerBuild {
    /// The call that is due, if any is left.
    pub open spec fn spec_step(self) -> Option<BuilderStep> {
        if self.stage < self.layer.spec_steps().len() {
            Some(self.layer.spec_steps()[self.stage as int])
        } else {
            None
        }
    }

    /// Whether the call that is due is the layer's last.
    pub open spec fn spec_at_last_step(self) -> bool {
        self.stage + 1 >= self.layer.spec_steps().len()
    }

    /// Where construction stands after the backend's answer to the call that
    /// was due: given up with the answer's error, if it carries one; done, if
    /// the call was the last; else one call further.
    pub open spec fn spec_resume(self, reply: BackendReply) -> LayerProgress {
        match reply.spec_error() {
            Some(error) => LayerProgress::Failed(error),
            None => if self.spec_at_last_step() {
                LayerProgress::Ready(self.layer)
            } else {
                LayerProgress::Pending(
                    LayerBuild { layer: self.layer, stage: (self.stage + 1) as usize },
                )
            },
        }
    }

    /// The call that is due, if any is left.
    pub fn step(&self) -> (step: Option<BuilderStep>)
        ensures
            step == self.spec_step(),
    {
        let mut steps = self.layer.builder_steps();
        if self.stage < steps.len() {
            Some(steps.remove(self.stage))
        } else {
            None
        }
    }

    /// Takes the backend's answer to the call that was due.
    ///
    /// An answer that carries an error ends construction with that error,
    /// unchanged. An acceptance moves on to the next call, or finishes the
    /// layer if the call was the last.
    pub fn resume(self, reply: BackendReply) -> (progress: LayerProgress)
        ensures
            progress == self.spec_resume(reply),
            reply matches BackendReply::Rejected(e) ==> progress == LayerProgress::Failed(
                TlsError::CryptoBackend(e),
            ),
            reply matches BackendReply::StoreUnusable(e) ==> progress == LayerProgress::Failed(
                TlsError::TrustStore(e),
            ),
            reply is Accepted ==> !(progress is Failed),
            progress matches LayerProgress::Ready(layer) ==> layer == self.layer,
            progress matches LayerProgress::Pending(next) ==> next.layer == self.layer
                && next.stage == self.stage + 1,
    {
        match reply.into_error() {
            Some(error) => LayerProgress::Failed(error),
            None => {
                let count = self.layer.builder_steps().len();
                if count == 0 || self.stage >= count - 1 {
                    LayerProgress::Ready(self.layer)
                } else {
                    LayerProgress::Pending(LayerBuild { layer: self.layer, stage: self.stage + 1 })
                }
            },
        }
    }
}

} // verus!
