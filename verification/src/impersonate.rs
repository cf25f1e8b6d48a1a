//! A client profile: the TLS settings, the HTTP/2 settings and the default
//! headers of one client identity.

use vstd::prelude::*;
use crate::connector::{spec_new, BoringTlsConnector, ConnectorProgress, LayerSlot, ProgressView};
use crate::error::{ConfigurationError, TlsError};
use crate::http2::{spec_order_is_valid, Http2Settings};
use crate::order::spec_is_defect_of;
use crate::settings::TlsSettings;
use crate::trust::TrustStorePolicy;

verus! {

/// One header of a request.
#[derive(Debug, Clone, PartialEq, Eq)]
pub struct Header {
    pub name: String,
    pub value: String,
}

/// What a profile does to the default headers of a request. It is applied
/// once, when a request is created, and touches nothing of the handshake.
pub trait HeaderStrategy {
    /// The headers that come out for the headers that go in.
    spec fn spec_apply(&self, headers: Seq<Header>) -> Seq<Header>;

    /// Applies the strategy to the default headers of a request.
    fn apply(&self, headers: Vec<Header>) -> (applied: Vec<Header>)
        ensures
            applied@ == self.spec_apply(headers@),
    ;
}

/// The strategy that leaves the default headers as they are.
#[derive(Debug, Clone, Copy, PartialEq, Eq, Hash, Structural)]
pub struct KeepHeaders;

impl HeaderStrategy for KeepHeaders {
    open spec fn spec_apply(&self, headers: Seq<Header>) -> Seq<Header> {
        headers
    }

    fn apply(&self, headers: Vec<Header>) -> (applied: Vec<Header>) {
        headers
    }
}

/// The profile of one client identity. It is built once and serves any
/// number of clients.
#[derive(Debug, Clone)]
pub struct ImpersonateSettings<H: HeaderStrategy> {
    /// The TLS side of the identity.
    pub tls: TlsSettings,
    /// The HTTP/2 side of the identity.
    pub http2: Http2Settings,
    /// What the identity does to the default headers of a request.
    pub headers: H,
}

impl<H: HeaderStrategy> ImpersonateSettings<H> {
    /// A profile of the three parts.
    pub fn new(tls: TlsSettings, http2: Http2Settings, headers: H) -> (profile: Self)
        ensures
            profile.tls == tls,
            profile.http2 == http2,
            profile.headers == headers,
    {
        ImpersonateSettings { tls, http2, headers }
    }

    /// Applies the profile's header strategy to the default headers of a request.
    pub fn apply_headers(&self, headers: Vec<Header>) -> (applied: Vec<Header>)
        ensures
            applied@ == self.headers.spec_apply(headers@),
    {
        self.headers.apply(headers)
    }

    /// Starts the construction of a connector for this identity.
    ///
    /// The two HTTP/2 orders are checked first: a defective order fails at
    /// once, before the backend is called and before any connection can be
    /// made. Otherwise construction starts as `BoringTlsConnector::new` does
    /// for a copy of the profile's TLS settings.
    pub fn connector(&self, policy: TrustStorePolicy) -> (progress: ConnectorProgress)
        ensures
            progress is Pending || progress is Failed,
            !self.http2.spec_is_valid() ==> {
                &&& progress matches ConnectorProgress::Failed(TlsError::Configuration(error))
                &&& if !spec_order_is_valid(self.http2.settings_order) {
                    &&& error.spec_settings_defect() matches Some(defect)
                    &&& spec_is_defect_of(self.http2.settings_order->Some_0@, defect)
                } else {
                    &&& error.spec_pseudo_defect() matches Some(defect)
                    &&& spec_is_defect_of(self.http2.headers_pseudo_order->Some_0@, defect)
                }
            },
            self.http2.spec_is_valid() ==> {
                match self.tls.spec_malformed_list() {
                    Some(list) => progress@ == ProgressView::Failed(
                        TlsError::Configuration(ConfigurationError::MalformedList(list)),
                    ),
                    None => {
                        &&& progress matches ConnectorProgress::Pending(build)
                        &&& *build.settings == self.tls
                        &&& build.policy == policy
                        &&& build.slot == LayerSlot::Main
                        &&& build.stage == 0
                        &&& progress@ == spec_new(build.settings, policy)
                    },
                }
            },
    {
        match self.http2.validate() {
            Err(error) => ConnectorProgress::Failed(TlsError::Configuration(error)),
            Ok(()) => BoringTlsConnector::new(self.tls.snapshot(), policy),
        }
    }
}

} // verus!
