//! Core data of the transport layer: server identity and per-client session.

use vstd::prelude::*;

verus! {

/// Descriptive information a server publishes in its announcement.
#[derive(Debug, Clone)]
pub struct ServerInfo {
    pub name: Option<String>,
    pub version: Option<String>,
    pub picture: Option<String>,
    pub website: Option<String>,
    pub about: Option<String>,
}

impl Default for ServerInfo {
    fn default() -> (r: Self)
        ensures
            r.name is None,
            r.version is None,
            r.picture is None,
            r.website is None,
            r.about is None,
    {
        ServerInfo { name: None, version: None, picture: None, website: None, about: None }
    }
}

/// Per-counterparty session state, owned by the server role.
///
/// A session is created on the first inbound message from an unseen
/// identity, refreshed on every further inbound message, and destroyed by
/// the periodic idle sweep.  `last_activity` is a caller-supplied monotonic
/// timestamp (seconds); the embedding application reads the clock.
#[derive(Debug, Clone)]
pub struct ClientSession {
    /// Counterparty identity: its public key, hex encoded.
    pub client_pubkey: String,
    /// Whether the handshake has completed.
    pub is_initialized: bool,
    /// Observed encryption state of the counterparty's traffic.
    pub is_encrypted: bool,
    /// Monotonic timestamp of the last inbound message.
    pub last_activity: u64,
}

impl ClientSession {
    /// A fresh session: not yet initialized, with the encryption state
    /// observed on the first message and the current time as its activity.
    pub fn new(client_pubkey: String, is_encrypted: bool, now: u64) -> (r: Self)
        ensures
            r.client_pubkey@ == client_pubkey@,
            !r.is_initialized,
            r.is_encrypted == is_encrypted,
            r.last_activity == now,
    {
        ClientSession { client_pubkey, is_initialized: false, is_encrypted, last_activity: now }
    }

    /// Refresh the activity timestamp; nothing else changes.
    pub fn update_activity(&mut self, now: u64)
        ensures
            final(self).client_pubkey@ == old(self).client_pubkey@,
            final(self).is_initialized == old(self).is_initialized,
            final(self).is_encrypted == old(self).is_encrypted,
            final(self).last_activity == now,
    {
        self.last_activity = now;
    }

    /// Record that the handshake completed; nothing else changes.
    pub fn mark_initialized(&mut self)
        ensures
            final(self).client_pubkey@ == old(self).client_pubkey@,
            final(self).is_initialized,
            final(self).is_encrypted == old(self).is_encrypted,
            final(self).last_activity == old(self).last_activity,
    {
        self.is_initialized = true;
    }
}

} // verus!
