//! What can go wrong while a connector is configured.

use vstd::prelude::*;
use crate::http2::{PseudoOrder, SettingsOrder};

verus! {

/// One entry of the cryptographic backend's error queue, as the backend reported it.
#[derive(Debug, Clone, PartialEq, Eq)]
pub struct BackendErrorEntry {
    /// The packed error code.
    pub code: u32,
    /// The backend source file that raised the error.
    pub file: String,
    /// The line in that file.
    pub line: u32,
    /// Free-form detail attached to the error, if any.
    pub data: Option<String>,
}

/// A failure of the cryptographic backend: its error queue, oldest entry first.
#[derive(Debug, Clone, PartialEq, Eq)]
pub struct BackendError {
    pub entries: Vec<BackendErrorEntry>,
}

/// The string-encoded lists of a TLS configuration.
#[derive(Debug, Clone, Copy, PartialEq, Eq, Hash, Structural)]
pub enum ListOption {
    Curves,
    SignatureAlgorithms,
    Ciphers,
}

/// A setting that can never be applied, whatever the backend.
#[derive(Debug, Clone, Copy, PartialEq, Eq, Hash, Structural)]
pub enum ConfigurationError {
    /// The list holds a zero octet, so it cannot be handed to the backend as a string.
    MalformedList(ListOption),
    /// The SETTINGS order names this parameter more than once.
    DuplicateSetting(SettingsOrder),
    /// The SETTINGS order leaves this parameter out.
    MissingSetting(SettingsOrder),
    /// The pseudo-header order names this header more than once.
    DuplicatePseudoHeader(PseudoOrder),
    /// The pseudo-header order leaves this header out.
    MissingPseudoHeader(PseudoOrder),
}

/// Why a connector could not be built.
#[derive(Debug, Clone, PartialEq, Eq)]
pub enum TlsError {
    /// The settings are malformed; the caller can fix them.
    Configuration(ConfigurationError),
    /// The backend rejected a configuration call; its error is carried unchanged.
    CryptoBackend(BackendError),
    /// The trust store could not be read or is not a valid store.
    TrustStore(BackendError),
}

/// What the backend answered to one configuration call.
#[derive(Debug, Clone, PartialEq, Eq)]
pub enum BackendReply {
    /// The call took effect.
    Accepted,
    /// The backend rejected the call.
    Rejected(BackendError),
    /// The trust store named by the call could not be read or parsed.
    StoreUnusable(BackendError),
}

impl BackendReply {
    /// The error that a reply other than `Accepted` stands for.
    pub open spec fn spec_error(self) -> Option<TlsError> {
        match self {
            BackendReply::Accepted => None,
            BackendReply::Rejected(e) => Some(TlsError::CryptoBackend(e)),
            BackendReply::StoreUnusable(e) => Some(TlsError::TrustStore(e)),
        }
    }

    /// The error that a reply other than `Accepted` stands for.
    pub fn into_error(self) -> (error: Option<TlsError>)
        ensures
            error == self.spec_error(),
    {
        match self {
            BackendReply::Accepted => None,
            BackendReply::Rejected(e) => Some(TlsError::CryptoBackend(e)),
            BackendReply::StoreUnusable(e) => Some(TlsError::TrustStore(e)),
        }
    }
}

} // verus!
