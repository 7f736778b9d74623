//! State of a pairing handshake.

use vstd::prelude::*;

verus! {

#[derive(PartialEq, Eq, Structural, Clone, Copy, Debug)]
pub enum PairingPhase {
    Idle,
    AwaitingResponse,
    AwaitingConfirmation,
    Confirming,
    Failed,
}

/// The pairing source: the phase plus every fragment the handshake
/// produced.
pub struct Pairing {
    pub phase: PairingPhase,
    pub code: Option<String>,
    pub server_fingerprint: Option<String>,
    pub server_cert_pem: Option<String>,
    pub client_cert_pem: Option<String>,
    pub client_key_pem: Option<String>,
    pub error: Option<String>,
}

impl Pairing {
    /// No handshake recorded.
    pub open spec fn is_reset(self) -> bool {
        &&& self.phase == PairingPhase::Idle
        &&& self.code is None
        &&& self.server_fingerprint is None
        &&& self.server_cert_pem is None
        &&& self.client_cert_pem is None
        &&& self.client_key_pem is None
        &&& self.error is None
    }

    pub fn new() -> (p: Self)
        ensures
            p.is_reset(),
    {
        Pairing {
            phase: PairingPhase::Idle,
            code: None,
            server_fingerprint: None,
            server_cert_pem: None,
            client_cert_pem: None,
            client_key_pem: None,
            error: None,
        }
    }
}

} // verus!
