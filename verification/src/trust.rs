//! Where the roots that peers are verified against come from.

use vstd::prelude::*;
use std::sync::Arc;

verus! {

/// Another handle on the value that `handle` points to.
///
/// Calls `std::sync::Arc::clone`, which returns a pointer to the same
/// allocation and copies nothing: the new handle stands for the same value.
#[verifier::external_body]
pub(crate) fn share<T>(handle: &Arc<T>) -> (other: Arc<T>)
    ensures
        other == *handle,
{
    Arc::clone(handle)
}

/// Which root bundles the program carries.
#[derive(Debug, Clone, Copy, PartialEq, Eq, Hash, Structural)]
pub enum TrustStorePolicy {
    /// No bundle: the backend's own default stays in place.
    NoOverride,
    /// The operating system's store.
    NativeOnly,
    /// The web-trust bundle.
    WebOnly,
    /// Both; the web-trust bundle is used.
    WebPreferredOverNative,
}

impl TrustStorePolicy {
    /// The policy of a program that carries the given bundles.
    pub open spec fn spec_from_capabilities(web_trust: bool, native: bool) -> TrustStorePolicy {
        if web_trust && native {
            TrustStorePolicy::WebPreferredOverNative
        } else if web_trust {
            TrustStorePolicy::WebOnly
        } else if native {
            TrustStorePolicy::NativeOnly
        } else {
            TrustStorePolicy::NoOverride
        }
    }

    /// The policy of a program that carries the given bundles.
    pub fn from_capabilities(web_trust: bool, native: bool) -> (policy: TrustStorePolicy)
        ensures
            policy == Self::spec_from_capabilities(web_trust, native),
    {
        if web_trust && native {
            TrustStorePolicy::WebPreferredOverNative
        } else if web_trust {
            TrustStorePolicy::WebOnly
        } else if native {
            TrustStorePolicy::NativeOnly
        } else {
            TrustStorePolicy::NoOverride
        }
    }

    /// Whether the web-trust bundle is carried.
    pub open spec fn has_web_trust(self) -> bool {
        self == TrustStorePolicy::WebOnly || self == TrustStorePolicy::WebPreferredOverNative
    }

    /// Whether the operating system's store is carried.
    pub open spec fn has_native(self) -> bool {
        self == TrustStorePolicy::NativeOnly || self == TrustStorePolicy::WebPreferredOverNative
    }
}

/// A caller-supplied set of trusted roots, each DER encoded.
#[derive(Debug, Clone, PartialEq, Eq)]
pub struct CaCertStore {
    pub certificates: Arc<Vec<Vec<u8>>>,
}

impl CaCertStore {
    /// A store of the given DER encoded certificates.
    pub fn new(certificates: Vec<Vec<u8>>) -> (store: CaCertStore)
        ensures
            *store.certificates == certificates,
    {
        CaCertStore { certificates: Arc::new(certificates) }
    }

    /// Another handle on this store; no certificate is copied.
    pub fn share(&self) -> (other: CaCertStore)
        ensures
            other == *self,
    {
        CaCertStore { certificates: share(&self.certificates) }
    }
}

/// The trust store that a connect layer verifies peers against.
#[derive(Debug, Clone, PartialEq, Eq)]
pub enum TrustStore {
    /// The caller's own store.
    Custom(CaCertStore),
    /// The web-trust bundle carried by the program.
    WebTrust,
    /// The operating system's store.
    Native,
    /// Whatever the backend uses when nothing is assigned.
    BackendDefault,
}

/// The store in force: the caller's own store if there is one, else the
/// web-trust bundle if the program carries it, else the native store if the
/// program carries that, else the backend's default.
pub open spec fn spec_resolve_trust_store(
    custom: Option<CaCertStore>,
    policy: TrustStorePolicy,
) -> TrustStore {
    match custom {
        Some(store) => TrustStore::Custom(store),
        None => match policy {
            TrustStorePolicy::WebOnly | TrustStorePolicy::WebPreferredOverNative => TrustStore::WebTrust,
            TrustStorePolicy::NativeOnly => TrustStore::Native,
            TrustStorePolicy::NoOverride => TrustStore::BackendDefault,
        },
    }
}

/// Resolves the store in force for a custom store, if any, and a policy.
pub fn resolve_trust_store(custom: &Option<CaCertStore>, policy: TrustStorePolicy) -> (store:
    TrustStore)
    ensures
        store == spec_resolve_trust_store(*custom, policy),
        custom is Some ==> store == TrustStore::Custom(custom->Some_0),
        custom is None && policy.has_web_trust() ==> store == TrustStore::WebTrust,
        custom is None && !policy.has_web_trust() && policy.has_native() ==> store
            == TrustStore::Native,
        custom is None && !policy.has_web_trust() && !policy.has_native() ==> store
            == TrustStore::BackendDefault,
{
    match custom {
        Some(own) => TrustStore::Custom(own.share()),
        None => match policy {
            TrustStorePolicy::WebOnly | TrustStorePolicy::WebPreferredOverNative => TrustStore::WebTrust,
            TrustStorePolicy::NativeOnly => TrustStore::Native,
            TrustStorePolicy::NoOverride => TrustStore::BackendDefault,
        },
    }
}

impl TrustStore {
    /// Another handle on this store.
    pub fn share(&self) -> (other: TrustStore)
        ensures
            other == *self,
    {
        match self {
            TrustStore::Custom(own) => TrustStore::Custom(own.share()),
            TrustStore::WebTrust => TrustStore::WebTrust,
            TrustStore::Native => TrustStore::Native,
            TrustStore::BackendDefault => TrustStore::BackendDefault,
        }
    }
}

} // verus!
