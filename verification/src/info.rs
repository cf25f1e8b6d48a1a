//! What a completed handshake leaves behind for the caller.

use vstd::prelude::*;

verus! {

/// What is known of the peer once a handshake has completed.
#[derive(Debug, Clone, PartialEq, Eq)]
pub struct TlsInfo {
    /// The DER encoded leaf certificate of the peer, if one was captured.
    pub peer_certificate: Option<Vec<u8>>,
}

impl TlsInfo {
    /// The DER encoded leaf certificate of the peer: the octets that were
    /// captured, or `None` if none were.
    pub fn peer_certificate(&self) -> (der: Option<&[u8]>)
        ensures
            der is Some <==> self.peer_certificate is Some,
            der matches Some(octets) ==> octets@ == self.peer_certificate->Some_0@,
    {
        match &self.peer_certificate {
            Some(der) => Some(der.as_slice()),
            None => None,
        }
    }
}

} // verus!
