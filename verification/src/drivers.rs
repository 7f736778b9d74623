//! The command / event ABIs of the credentials and discovery drivers.

use vstd::prelude::*;
use crate::state::credentials::PairingEntry;
use crate::state::discovery::ServerAd;

verus! {

/// Commands the runtime ships to the credentials worker.
pub enum CredCmd {
    Load,
    Save(PairingEntry),
    Delete { fingerprint: String },
}

/// Events the credentials worker posts back.
pub enum CredEvent {
    Loaded(Vec<PairingEntry>),
    Saved(PairingEntry),
    Deleted { fingerprint: String },
    Error { op: String, message: String },
}

/// Events the discovery worker posts: a server appeared, was seen
/// again, or went away.
pub enum DiscoveryEvent {
    Added(ServerAd),
    Refreshed(ServerAd),
    Removed { name: String },
}

/// Hooks a front end implements to watch the credentials driver. Each
/// does nothing unless overridden.
pub trait CredentialsTrace {
    fn cred_load_start(&self) {
    }

    fn cred_load_done(&self, n: usize) {
    }

    fn cred_save(&self, fingerprint: &str) {
    }

    fn cred_delete(&self, fingerprint: &str) {
    }

    fn cred_error(&self, op: &str, message: &str) {
    }
}

/// Hooks a front end implements to watch discovery. Each does nothing
/// unless overridden.
pub trait DiscoveryTrace {
    fn discovery_added(&self, ad: &ServerAd) {
    }

    fn discovery_refreshed(&self, ad: &ServerAd) {
    }

    fn discovery_removed(&self, name: &str) {
    }
}

/// Trace sink that records nothing.
pub struct NoopTrace;

impl CredentialsTrace for NoopTrace {
}

impl DiscoveryTrace for NoopTrace {
}

} // verus!
