//! Connectors whose TLS and HTTP/2 handshake parameters follow a declared
//! client profile.
//!
//! A profile says what a client puts on the wire: which protocols it offers
//! and in what order, which TLS options it sets, in what order it sends its
//! HTTP/2 settings and pseudo-headers. From a profile's TLS settings this
//! library derives the connect layers of a connector and the calls that bring
//! them about in a cryptographic backend, one call at a time: the caller
//! makes each call and hands back the backend's answer.

pub mod connector;
pub mod error;
pub mod http2;
pub mod impersonate;
pub mod info;
pub mod laws;
pub mod layer;
pub mod order;
pub mod protocol;
pub mod session;
pub mod settings;
pub mod trust;

pub use connector::{
    BoringTlsConnector, ConnectorBuild, ConnectorProgress, HandshakeSettings, HandshakeStep,
    HttpsConnector, LayerSlot,
};
pub use error::{
    BackendError, BackendErrorEntry, BackendReply, ConfigurationError, ListOption, TlsError,
};
pub use http2::{Http2Settings, Http2SettingsBuilder, PseudoOrder, SettingsOrder, StreamPriority};
pub use impersonate::{Header, HeaderStrategy, ImpersonateSettings, KeepHeaders};
pub use info::TlsInfo;
pub use layer::{
    create_connect_layer, BuilderStep, ConnectLayer, HttpsLayerSettings, LayerBuild, LayerProgress,
    SESSION_CACHE_CAPACITY,
};
pub use protocol::{AlpnProtocol, HttpVersionPref, Version};
pub use session::{SessionCache, SessionKey};
pub use settings::{BaseConnector, CertCompressionAlgorithm, TlsSettings, TlsSettingsBuilder};
pub use trust::{resolve_trust_store, CaCertStore, TrustStore, TrustStorePolicy};
