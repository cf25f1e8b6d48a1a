//! The TLS connector: one or two connect layers built from one settings
//! snapshot, and the per-connection transports it hands out.

use vstd::prelude::*;
use std::sync::Arc;
use crate::error::{BackendReply, ConfigurationError, TlsError};
use crate::layer::{
    create_connect_layer, spec_connect_layer, spec_create_connect_layer, BuilderStep, ConnectLayer,
    LayerBuild, LayerProgress,
};
use crate::protocol::{AlpnProtocol, HttpVersionPref};
use crate::settings::TlsSettings;
use crate::trust::{TrustStore, TrustStorePolicy};

verus! {

/// What is set on a connection before its handshake starts.
#[derive(Debug, Clone, Copy, PartialEq, Eq, Hash, Structural)]
pub struct HandshakeSettings {
    /// Whether a GREASE Encrypted Client Hello is sent.
    pub enable_ech_grease: bool,
    /// Whether the peer's certificate must match the host name.
    pub verify_hostname: bool,
    /// The preference for which application-layer protocol settings are
    /// announced, if they are announced at all.
    pub application_settings: Option<HttpVersionPref>,
}

/// One call on a connection's configuration, made before the handshake.
#[derive(Debug, Clone, Copy, PartialEq, Eq, Hash, Structural)]
pub enum HandshakeStep {
    /// Turn the GREASE Encrypted Client Hello on or off.
    EchGrease(bool),
    /// Turn host name verification on or off.
    VerifyHostname(bool),
    /// Announce application-layer protocol settings for this preference.
    ApplicationSettings(HttpVersionPref),
}

impl HandshakeSettings {
    /// The calls to make, in order: ECH GREASE, host name verification, then
    /// application settings if they are announced.
    pub open spec fn spec_steps(self) -> Seq<HandshakeStep> {
        let always = seq![
            HandshakeStep::EchGrease(self.enable_ech_grease),
            HandshakeStep::VerifyHostname(self.verify_hostname),
        ];
        match self.application_settings {
            Some(pref) => always.push(HandshakeStep::ApplicationSettings(pref)),
            None => always,
        }
    }

    /// The calls to make on a connection's configuration, in order.
    pub fn steps(&self) -> (steps: Vec<HandshakeStep>)
        ensures
            steps@ == self.spec_steps(),
    {
        let mut steps: Vec<HandshakeStep> = Vec::new();
        steps.push(HandshakeStep::EchGrease(self.enable_ech_grease));
        steps.push(HandshakeStep::VerifyHostname(self.verify_hostname));
        if let Some(pref) = self.application_settings {
            steps.push(HandshakeStep::ApplicationSettings(pref));
        }
        assert(steps@ =~= self.spec_steps());
        steps
    }
}

/// One of a connector's layers.
#[derive(Debug, Clone, Copy, PartialEq, Eq, Hash, Structural)]
pub enum LayerSlot {
    /// The main layer, for the settings' own preference.
    Main,
    /// The layer for WebSocket connections, which offers HTTP/1.1 alone.
    WebSocket,
}

/// A base transport wrapped for TLS: the transport, the layer that secures
/// it, and what is set on each connection before its handshake.
#[derive(Debug, Clone, PartialEq, Eq)]
pub struct HttpsConnector<T> {
    /// The transport that was handed in, untouched.
    pub http: T,
    /// Which of the connector's layers secures the transport.
    pub slot: LayerSlot,
    /// The layer that secures connections made through the transport.
    pub layer: ConnectLayer,
    /// What is set on each connection before its handshake.
    pub handshake: HandshakeSettings,
}

/// The mathematical content of a `BoringTlsConnector`.
pub struct ConnectorView {
    pub tls_sni: bool,
    pub enable_ech_grease: bool,
    pub application_settings: bool,
    pub http_version_pref: HttpVersionPref,
    pub connect_layer: ConnectLayer,
    pub ws_connect_layer: Option<ConnectLayer>,
}

/// The connector that settings and policy call for: the flags and the
/// preference of the settings; a main layer for the settings' own
/// preference; and, exactly if that preference offers HTTP/2, a second layer
/// from the same settings that offers HTTP/1.1 alone.
pub open spec fn spec_connector(settings: Arc<TlsSettings>, policy: TrustStorePolicy) -> ConnectorView {
    ConnectorView {
        tls_sni: settings.tls_sni,
        enable_ech_grease: settings.enable_ech_grease,
        application_settings: settings.application_settings,
        http_version_pref: settings.http_version_pref,
        connect_layer: spec_connect_layer(settings, settings.http_version_pref, policy),
        ws_connect_layer: if settings.http_version_pref.spec_allows_http2() {
            Some(spec_connect_layer(settings, HttpVersionPref::Http1, policy))
        } else {
            None
        },
    }
}

impl ConnectorView {
    /// Which layer secures a connection: the second layer for a WebSocket
    /// connection if there is one, the main layer otherwise.
    pub open spec fn slot_for(self, ws: bool) -> LayerSlot {
        if ws && self.ws_connect_layer is Some {
            LayerSlot::WebSocket
        } else {
            LayerSlot::Main
        }
    }

    /// The layer that secures a connection: the second layer for a WebSocket
    /// connection if there is one, the main layer otherwise.
    pub open spec fn layer_for(self, ws: bool) -> ConnectLayer {
        match self.slot_for(ws) {
            LayerSlot::WebSocket => self.ws_connect_layer->Some_0,
            LayerSlot::Main => self.connect_layer,
        }
    }

    /// What is set on every connection before its handshake. Application
    /// settings go by the connector's preference, whatever the connection is for.
    pub open spec fn handshake(self) -> HandshakeSettings {
        HandshakeSettings {
            enable_ech_grease: self.enable_ech_grease,
            verify_hostname: self.tls_sni,
            application_settings: if self.application_settings {
                Some(self.http_version_pref)
            } else {
                None
            },
        }
    }

    /// The layers agree with the connector's own fields: all come from one
    /// settings snapshot; the main layer offers the connector's preference,
    /// keeps 8 sessions at most, caches sessions exactly if the settings ask
    /// for a pre-shared key, and verifies against the caller's own store
    /// exactly if the settings have one; the second layer exists exactly if
    /// the preference offers HTTP/2, and differs from the main layer only in
    /// offering HTTP/1.1 alone.
    pub open spec fn consistent(self) -> bool {
        let settings = self.connect_layer.settings;
        &&& self.tls_sni == settings.tls_sni
        &&& self.enable_ech_grease == settings.enable_ech_grease
        &&& self.application_settings == settings.application_settings
        &&& self.http_version_pref == settings.http_version_pref
        &&& self.connect_layer.http_version_pref == self.http_version_pref
        &&& self.connect_layer.session.session_cache_capacity == 8
        &&& self.connect_layer.session.session_cache == settings.pre_shared_key
        &&& settings.ca_cert_store matches Some(own) ==> self.connect_layer.trust_store
            == TrustStore::Custom(own)
        &&& settings.ca_cert_store is None ==> !(self.connect_layer.trust_store is Custom)
        &&& self.ws_connect_layer is Some <==> self.http_version_pref.spec_allows_http2()
        &&& self.ws_connect_layer matches Some(ws) ==> ws == (ConnectLayer {
            http_version_pref: HttpVersionPref::Http1,
            ..self.connect_layer
        })
    }
}

/// A TLS connector: the connect layers of one client identity.
#[derive(Debug, PartialEq, Eq)]
pub struct BoringTlsConnector {
    tls_sni: bool,
    enable_ech_grease: bool,
    application_settings: bool,
    http_version_pref: HttpVersionPref,
    connect_layer: ConnectLayer,
    ws_connect_layer: Option<ConnectLayer>,
}

impl View for BoringTlsConnector {
    type V = ConnectorView;

    closed spec fn view(&self) -> ConnectorView {
        ConnectorView {
            tls_sni: self.tls_sni,
            enable_ech_grease: self.enable_ech_grease,
            application_settings: self.application_settings,
            http_version_pref: self.http_version_pref,
            connect_layer: self.connect_layer,
            ws_connect_layer: self.ws_connect_layer,
        }
    }
}

impl Clone for BoringTlsConnector {
    /// Another connector on the same layers. Nothing is configured again.
    fn clone(&self) -> (other: Self)
        ensures
            other@ == self@,
    {
        proof {
            use_type_invariant(self);
        }
        BoringTlsConnector {
            tls_sni: self.tls_sni,
            enable_ech_grease: self.enable_ech_grease,
            application_settings: self.application_settings,
            http_version_pref: self.http_version_pref,
            connect_layer: self.connect_layer.share(),
            ws_connect_layer: match &self.ws_connect_layer {
                Some(layer) => Some(layer.share()),
                None => None,
            },
        }
    }
}

impl BoringTlsConnector {
    #[verifier::type_invariant]
    spec fn well_formed(self) -> bool {
        self@.consistent()
    }

    fn assemble(settings: &Arc<TlsSettings>, policy: TrustStorePolicy) -> (connector:
        BoringTlsConnector)
        ensures
            connector@ == spec_connector(*settings, policy),
    {
        let pref = settings.http_version_pref;
        let connect_layer = ConnectLayer::derive(settings, pref, policy);
        let ws_connect_layer = if pref.allows_http2() {
            Some(ConnectLayer::derive(settings, HttpVersionPref::Http1, policy))
        } else {
            None
        };
        BoringTlsConnector {
            tls_sni: settings.tls_sni,
            enable_ech_grease: settings.enable_ech_grease,
            application_settings: settings.application_settings,
            http_version_pref: pref,
            connect_layer,
            ws_connect_layer,
        }
    }

    /// Whether the peer's certificate must match the host name.
    pub fn tls_sni(&self) -> (flag: bool)
        ensures
            flag == self@.tls_sni,
    {
        self.tls_sni
    }

    /// Whether a GREASE Encrypted Client Hello is sent.
    pub fn enable_ech_grease(&self) -> (flag: bool)
        ensures
            flag == self@.enable_ech_grease,
    {
        self.enable_ech_grease
    }

    /// Whether application-layer protocol settings are announced.
    pub fn application_settings(&self) -> (flag: bool)
        ensures
            flag == self@.application_settings,
    {
        self.application_settings
    }

    /// The preference of the settings that the connector was built from.
    pub fn http_version_pref(&self) -> (pref: HttpVersionPref)
        ensures
            pref == self@.http_version_pref,
    {
        self.http_version_pref
    }

    /// The main layer. It offers the protocols of the connector's preference.
    pub fn connect_layer(&self) -> (layer: &ConnectLayer)
        ensures
            *layer == self@.connect_layer,
            self@.consistent(),
            layer.http_version_pref == self@.http_version_pref,
    {
        proof {
            use_type_invariant(self);
        }
        &self.connect_layer
    }

    /// The layer for WebSocket connections. There is one exactly if the
    /// connector's preference offers HTTP/2, and it offers HTTP/1.1 alone.
    pub fn ws_connect_layer(&self) -> (layer: Option<&ConnectLayer>)
        ensures
            layer is Some <==> self@.ws_connect_layer is Some,
            layer matches Some(ws) ==> *ws == self@.ws_connect_layer->Some_0,
            self@.consistent(),
            layer is None <==> self@.http_version_pref == HttpVersionPref::Http1,
            layer matches Some(ws) ==> ws.http_version_pref.spec_alpn_protocols() == seq![
                AlpnProtocol::Http1,
            ],
    {
        proof {
            use_type_invariant(self);
        }
        match &self.ws_connect_layer {
            Some(layer) => Some(layer),
            None => None,
        }
    }

    /// Wraps a base transport for TLS.
    ///
    /// A WebSocket connection gets the second layer if there is one, any other
    /// connection the main layer; either way a WebSocket connection offers
    /// HTTP/1.1 alone. What is set before the handshake follows the
    /// connector's flags and its own preference, not `ws`.
    pub fn create_connector<T>(&self, http: T, ws: bool) -> (connector: HttpsConnector<T>)
        ensures
            connector.http == http,
            connector.slot == self@.slot_for(ws),
            connector.layer == self@.layer_for(ws),
            connector.handshake == self@.handshake(),
            self@.consistent(),
            ws ==> connector.layer.http_version_pref.spec_alpn_protocols() == seq![
                AlpnProtocol::Http1,
            ],
            !ws ==> connector.layer.http_version_pref == self@.http_version_pref,
            connector.layer.session.session_cache_capacity == 8,
    {
        proof {
            use_type_invariant(self);
        }
        let (slot, layer) = if ws {
            match &self.ws_connect_layer {
                Some(layer) => (LayerSlot::WebSocket, layer.share()),
                None => (LayerSlot::Main, self.connect_layer.share()),
            }
        } else {
            (LayerSlot::Main, self.connect_layer.share())
        };
        let handshake = HandshakeSettings {
            enable_ech_grease: self.enable_ech_grease,
            verify_hostname: self.tls_sni,
            application_settings: if self.application_settings {
                Some(self.http_version_pref)
            } else {
                None
            },
        };
        HttpsConnector { http, slot, layer, handshake }
    }
}

/// A connector under construction.
#[derive(Debug, Clone, PartialEq, Eq)]
pub struct ConnectorBuild {
    /// The settings snapshot that the connector is built from.
    pub settings: Arc<TlsSettings>,
    /// Which root bundles the program carries.
    pub policy: TrustStorePolicy,
    /// The layer that is being built.
    pub slot: LayerSlot,
    /// The position, among that layer's calls, of the call that is due.
    pub stage: usize,
}

/// Where the construction of a connector stands.
#[derive(Debug, PartialEq, Eq)]
pub enum ConnectorProgress {
    /// A call on the backend is due; its answer goes to `ConnectorBuild::resume`.
    Pending(ConnectorBuild),
    /// Every call of every layer was accepted: the connector stands.
    Ready(BoringTlsConnector),
    /// Construction was given up. No layer is kept.
    Failed(TlsError),
}

/// The mathematical content of a `ConnectorProgress`.
pub enum ProgressView {
    Pending(ConnectorBuild),
    Ready(ConnectorView),
    Failed(TlsError),
}

impl View for ConnectorProgress {
    type V = ProgressView;

    open spec fn view(&self) -> ProgressView {
        match self {
            ConnectorProgress::Pending(build) => ProgressView::Pending(*build),
            ConnectorProgress::Ready(connector) => ProgressView::Ready(connector@),
            ConnectorProgress::Failed(error) => ProgressView::Failed(*error),
        }
    }
}

/// The preference of the layer in a slot: the settings' own for the main
/// layer, HTTP/1.1 alone for the WebSocket layer.
pub open spec fn spec_slot_pref(settings: Arc<TlsSettings>, slot: LayerSlot) -> HttpVersionPref {
    match slot {
        LayerSlot::Main => settings.http_version_pref,
        LayerSlot::WebSocket => HttpVersionPref::Http1,
    }
}

/// Where the construction of the layer in a slot starts: where the factory
/// starts a layer for the same settings and the slot's preference.
pub open spec fn spec_start_layer(
    settings: Arc<TlsSettings>,
    policy: TrustStorePolicy,
    slot: LayerSlot,
) -> ProgressView {
    match spec_create_connect_layer(settings, spec_slot_pref(settings, slot), policy) {
        LayerProgress::Failed(error) => ProgressView::Failed(error),
        _ => ProgressView::Pending(ConnectorBuild { settings, policy, slot, stage: 0 }),
    }
}

/// Where the construction of a connector starts: nowhere, if a list is
/// malformed; else at the first call of the main layer.
pub open spec fn spec_new(settings: Arc<TlsSettings>, policy: TrustStorePolicy) -> ProgressView {
    spec_start_layer(settings, policy, LayerSlot::Main)
}

fn start_layer(settings: Arc<TlsSettings>, policy: TrustStorePolicy, slot: LayerSlot) -> (progress:
    ConnectorProgress)
    ensures
        progress@ == spec_start_layer(settings, policy, slot),
        progress is Pending || progress is Failed,
{
    let pref = match slot {
        LayerSlot::Main => settings.http_version_pref,
        LayerSlot::WebSocket => HttpVersionPref::Http1,
    };
    match create_connect_layer(&settings, pref, policy) {
        LayerProgress::Failed(error) => ConnectorProgress::Failed(error),
        _ => ConnectorProgress::Pending(ConnectorBuild { settings, policy, slot, stage: 0 }),
    }
}

impl ConnectorBuild {
    /// The preference of the layer that is being built.
    pub open spec fn spec_pref(self) -> HttpVersionPref {
        spec_slot_pref(self.settings, self.slot)
    }

    /// The construction of the layer that is being built.
    pub open spec fn spec_layer_build(self) -> LayerBuild {
        LayerBuild {
            layer: spec_connect_layer(self.settings, self.spec_pref(), self.policy),
            stage: self.stage,
        }
    }

    /// The call that is due, if any is left.
    pub open spec fn spec_step(self) -> Option<BuilderStep> {
        self.spec_layer_build().spec_step()
    }

    /// Whether another layer is to be built once the current one stands.
    pub open spec fn spec_second_layer_due(self) -> bool {
        self.slot == LayerSlot::Main && self.settings.http_version_pref.spec_allows_http2()
    }

    /// Where construction stands after the backend's answer to the call that
    /// was due. An error ends it. An acceptance moves on within the layer;
    /// after a layer's last call the factory starts the WebSocket layer, if
    /// the main layer was built and the preference offers HTTP/2, and
    /// otherwise the connector stands.
    pub open spec fn spec_resume(self, reply: BackendReply) -> ProgressView {
        match self.spec_layer_build().spec_resume(reply) {
            LayerProgress::Failed(error) => ProgressView::Failed(error),
            LayerProgress::Pending(next) => ProgressView::Pending(
                ConnectorBuild { stage: next.stage, ..self },
            ),
            LayerProgress::Ready(_) => if self.spec_second_layer_due() {
                spec_start_layer(self.settings, self.policy, LayerSlot::WebSocket)
            } else {
                ProgressView::Ready(spec_connector(self.settings, self.policy))
            },
        }
    }

    /// The layer that the call that is due belongs to.
    pub fn slot(&self) -> (slot: LayerSlot)
        ensures
            slot == self.slot,
    {
        self.slot
    }

    fn layer_build(&self) -> (build: LayerBuild)
        ensures
            build == self.spec_layer_build(),
    {
        let pref = match self.slot {
            LayerSlot::Main => self.settings.http_version_pref,
            LayerSlot::WebSocket => HttpVersionPref::Http1,
        };
        LayerBuild { layer: ConnectLayer::derive(&self.settings, pref, self.policy), stage: self.stage }
    }

    /// The call that is due, if any is left.
    pub fn step(&self) -> (step: Option<BuilderStep>)
        ensures
            step == self.spec_step(),
    {
        self.layer_build().step()
    }

    /// Takes the backend's answer to the call that was due.
    ///
    /// An answer that carries an error ends construction with that error,
    /// unchanged: no layer is kept and nothing is tried again. An acceptance
    /// moves on to the next call. After the last call of the main layer, a
    /// preference that offers HTTP/2 starts the WebSocket layer; after the
    /// last call of all, the connector stands.
    pub fn resume(self, reply: BackendReply) -> (progress: ConnectorProgress)
        ensures
            progress@ == self.spec_resume(reply),
            reply matches BackendReply::Rejected(e) ==> progress@ == ProgressView::Failed(
                TlsError::CryptoBackend(e),
            ),
            reply matches BackendReply::StoreUnusable(e) ==> progress@ == ProgressView::Failed(
                TlsError::TrustStore(e),
            ),
            reply is Accepted && self.settings.spec_malformed_list() is None ==> !(progress
                is Failed),
            progress matches ConnectorProgress::Ready(connector) ==> {
                &&& connector@ == spec_connector(self.settings, self.policy)
                &&& connector@.consistent()
            },
            progress matches ConnectorProgress::Pending(next) ==> {
                &&& next.settings == self.settings
                &&& next.policy == self.policy
            },
    {
        let build = self.layer_build();
        match build.resume(reply) {
            LayerProgress::Failed(error) => ConnectorProgress::Failed(error),
            LayerProgress::Pending(next) => ConnectorProgress::Pending(
                ConnectorBuild {
                    settings: self.settings,
                    policy: self.policy,
                    slot: self.slot,
                    stage: next.stage,
                },
            ),
            LayerProgress::Ready(_) => {
                let second = match self.slot {
                    LayerSlot::Main => self.settings.http_version_pref.allows_http2(),
                    LayerSlot::WebSocket => false,
                };
                if second {
                    start_layer(self.settings, self.policy, LayerSlot::WebSocket)
                } else {
                    ConnectorProgress::Ready(
                        BoringTlsConnector::assemble(&self.settings, self.policy),
                    )
                }
            },
        }
    }
}

impl BoringTlsConnector {
    /// Starts the construction of a connector from a settings snapshot: the
    /// factory starts the main layer, for the settings' own preference.
    ///
    /// A list with a zero octet fails at once, before the backend is called.
    /// Otherwise the first call of the main layer is due.
    pub fn new(settings: TlsSettings, policy: TrustStorePolicy) -> (progress: ConnectorProgress)
        ensures
            progress is Pending || progress is Failed,
            settings.spec_malformed_list() matches Some(list) ==> progress@ == ProgressView::Failed(
                TlsError::Configuration(ConfigurationError::MalformedList(list)),
            ),
            settings.spec_malformed_list() is None ==> {
                &&& progress matches ConnectorProgress::Pending(build)
                &&& *build.settings == settings
                &&& build.policy == policy
                &&& build.slot == LayerSlot::Main
                &&& build.stage == 0
                &&& progress@ == spec_new(build.settings, policy)
            },
    {
        start_layer(Arc::new(settings), policy, LayerSlot::Main)
    }
}

} // verus!
