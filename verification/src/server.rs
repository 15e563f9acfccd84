//! Server-side transport: session lifecycle and outbound replies.
//!
//! The network half lives in the embedding application: it connects to
//! relays, subscribes to the two inbound kinds filtered to this server's
//! identity, feeds each arriving event to [`NostrServerTransport::process_event`],
//! and publishes what [`NostrServerTransport::build_response`] and the
//! announcement builders hand back.  Everything the server decides —
//! envelope opening, session creation and refresh, the encryption policy
//! for replies, idle eviction — is verified here.

use vstd::prelude::*;
use crate::constants::{CTXVM_MESSAGES_KIND, MAX_MESSAGE_SIZE};
use crate::error::Error;
use crate::policy::{spec_should_encrypt, should_encrypt, EncryptionMode};
use crate::session::{spec_contains, spec_index_of, spec_sweep, SessionTable};
use crate::types::{ClientSession, ServerInfo};
use crate::wire::{event_id_of, EventParts, SignedMessage};

verus! {

/// Server transport configuration, fixed at construction.
pub struct NostrServerTransportConfig {
    /// Relay endpoints the embedding application connects to.
    pub relay_urls: Vec<String>,
    /// The encryption policy of this role.
    pub encryption_mode: EncryptionMode,
    /// What `announce` publishes; announcing without it is refused.
    pub server_info: Option<ServerInfo>,
    /// Sessions idle for this many seconds are evicted by the sweep.
    pub session_timeout: u64,
}

impl Default for NostrServerTransportConfig {
    /// One public relay, mirroring encryption, no announcement payload,
    /// a five-minute session timeout.
    fn default() -> (r: Self)
        ensures
            r.relay_urls@.len() == 1,
            r.encryption_mode == EncryptionMode::Optional,
            r.server_info is None,
            r.session_timeout == 300,
    {
        let mut urls: Vec<String> = Vec::new();
        urls.push("wss://relay.damus.io".to_owned());
        NostrServerTransportConfig {
            relay_urls: urls,
            encryption_mode: EncryptionMode::Optional,
            server_info: None,
            session_timeout: 300,
        }
    }
}

/// An inbound message after envelope handling, as handed to the dispatch
/// layer above.
pub struct IncomingMessage {
    /// The decoded payload.
    pub content: String,
    /// The sender's identity, hex encoded.
    pub sender_pubkey: String,
    /// Identifier of the (inner) message: what a reply's in-reply-to tag
    /// must carry.
    pub event_id: String,
    /// Whether the message arrived inside an encrypted envelope.
    pub is_encrypted: bool,
}

/// An outbound reply, signed (and possibly wrapped), ready to publish.
pub struct OutboundResponse {
    /// What goes on the wire: the signed reply, or the envelope around it.
    pub event: nostr::prelude::Event,
    /// Identifier of the inner signed reply.
    pub inner_id: String,
    /// The author identity of the reply, hex encoded.
    pub pubkey: String,
    /// The timestamp the signer placed on the reply.
    pub created_at: u64,
    /// Identifier of `event` as published on the wire; equals `inner_id`
    /// exactly when no envelope was used.
    pub wire_id: String,
    /// Whether the reply was wrapped.
    pub encrypted: bool,
}

/// The server role: its configuration and its session table.
pub struct NostrServerTransport {
    config: NostrServerTransportConfig,
    sessions: SessionTable,
}

impl NostrServerTransport {
    /// The sessions, in creation order.
    pub closed spec fn sessions_view(&self) -> Seq<ClientSession> {
        self.sessions@
    }

    pub closed spec fn wf(&self) -> bool {
        self.sessions.wf()
    }

    /// The configured encryption mode.
    pub closed spec fn spec_mode(&self) -> EncryptionMode {
        self.config.encryption_mode
    }

    /// The configured session timeout, in seconds.
    pub closed spec fn spec_timeout(&self) -> u64 {
        self.config.session_timeout
    }

    /// The configured announcement payload.
    pub closed spec fn spec_server_info(&self) -> Option<ServerInfo> {
        self.config.server_info
    }

    /// A new server transport with no sessions.
    pub fn new(config: NostrServerTransportConfig) -> (r: Self)
        ensures
            r.wf(),
            r.sessions_view().len() == 0,
            r.spec_mode() == config.encryption_mode,
            r.spec_timeout() == config.session_timeout,
            r.spec_server_info() == config.server_info,
    {
        NostrServerTransport { config, sessions: SessionTable::new() }
    }

    pub fn config(&self) -> (r: &NostrServerTransportConfig)
        ensures
            r.encryption_mode == self.spec_mode(),
            r.session_timeout == self.spec_timeout(),
            r.server_info == self.spec_server_info(),
    {
        &self.config
    }

    /// The announcement document, or a configuration error when no
    /// server info was configured: never silently defaulted.
    pub fn announcement_json(&self) -> (r: Result<Vec<u8>, Error>)
        ensures
            r is Ok <==> self.spec_server_info() is Some,
            r is Ok ==> r->Ok_0@ == crate::json::spec_announcement(self.spec_server_info()->0),
            r is Err ==> r->Err_0 is Other,
    {
        match &self.config.server_info {
            Some(info) => Ok(crate::json::announcement_json(info)),
            None => Err(Error::Other("server info not configured for announcement".to_owned())),
        }
    }

    /// Handle one inbound message, already reduced to plain values: get
    /// or create the sender's session and refresh its activity.  The
    /// session of a new sender records the encryption state observed on
    /// this first message; an existing session only has its activity
    /// refreshed.  The decoded message is handed back for dispatch.
    pub fn process_parts(&mut self, parts: EventParts, was_wrapped: bool, now: u64) -> (r:
        IncomingMessage)
        requires
            old(self).wf(),
        ensures
            final(self).wf(),
            final(self).spec_mode() == old(self).spec_mode(),
            final(self).spec_timeout() == old(self).spec_timeout(),
            final(self).spec_server_info() == old(self).spec_server_info(),
            r.content@ == parts.content@,
            r.sender_pubkey@ == parts.pubkey@,
            r.event_id@ == parts.id@,
            r.is_encrypted == was_wrapped,
            spec_contains(final(self).sessions_view(), parts.pubkey@),
            !spec_contains(old(self).sessions_view(), parts.pubkey@) ==> {
                let c = final(self).sessions_view().last();
                final(self).sessions_view().len() == old(self).sessions_view().len() + 1 && (
                forall|j: int|
                    0 <= j < old(self).sessions_view().len()
                        ==> #[trigger] final(self).sessions_view()[j]
                        == old(self).sessions_view()[j]) && c.client_pubkey@
                    == parts.pubkey@ && !c.is_initialized && c.is_encrypted == was_wrapped
                    && c.last_activity == now
            },
            spec_contains(old(self).sessions_view(), parts.pubkey@) ==> {
                let i = spec_index_of(old(self).sessions_view(), parts.pubkey@);
                final(self).sessions_view().len() == old(self).sessions_view().len() && (
                forall|j: int|
                    0 <= j < old(self).sessions_view().len() && j != i
                        ==> #[trigger] final(self).sessions_view()[j]
                        == old(self).sessions_view()[j]) && {
                    let c0 = old(self).sessions_view()[i];
                    let c1 = final(self).sessions_view()[i];
                    c1.client_pubkey@ == c0.client_pubkey@ && c1.is_initialized
                        == c0.is_initialized && c1.is_encrypted == c0.is_encrypted
                        && c1.last_activity == now
                }
            },
    {
        self.sessions.touch(parts.pubkey.as_str(), was_wrapped, now);
        IncomingMessage {
            content: parts.content,
            sender_pubkey: parts.pubkey,
            event_id: parts.id,
            is_encrypted: was_wrapped,
        }
    }

    /// Handle one inbound event: open the envelope when it is one, then
    /// process the inner message.  An envelope that cannot be opened is a
    /// `Decryption` error, which the receive loop logs and drops — it
    /// never touches the sessions and never stops the loop.
    pub fn process_event(
        &mut self,
        keys: &nostr::prelude::Keys,
        ev: &nostr::prelude::Event,
        now: u64,
    ) -> (r: Result<IncomingMessage, Error>)
        requires
            old(self).wf(),
        ensures
            final(self).wf(),
            final(self).spec_mode() == old(self).spec_mode(),
            final(self).spec_timeout() == old(self).spec_timeout(),
            final(self).spec_server_info() == old(self).spec_server_info(),
            r is Err ==> r->Err_0 is Decryption && final(self).sessions_view() == old(self).sessions_view(),
            r is Ok ==> spec_contains(final(self).sessions_view(), r->Ok_0.sender_pubkey@),
    {
        match crate::wire::open_inbound(keys, ev) {
            Some((parts, was_wrapped)) => Ok(self.process_parts(parts, was_wrapped, now)),
            None => Err(Error::Decryption("could not open envelope".to_owned())),
        }
    }

    /// Whether a reply to a message that arrived with the given
    /// encryption state must be wrapped, under this server's policy.
    pub fn reply_should_be_encrypted(&self, inbound_encrypted: bool) -> (r: bool)
        ensures
            r == spec_should_encrypt(self.spec_mode(), inbound_encrypted),
    {
        should_encrypt(self.config.encryption_mode, inbound_encrypted)
    }

    /// Build a reply to `request_event_id` addressed to `client_pubkey`:
    /// sign it with the recipient tag and the in-reply-to tag, and wrap
    /// it exactly when `use_encryption` says so.  The identifier of the
    /// inner signed reply is a pure function of its fields; when no
    /// envelope is used it is also the wire identifier.
    pub fn build_response(
        &self,
        keys: &nostr::prelude::Keys,
        client_pubkey: &str,
        response_json: &str,
        request_event_id: &String,
        use_encryption: bool,
    ) -> (r: Result<OutboundResponse, Error>)
        ensures
            r is Ok ==> {
                let o = r->Ok_0;
                o.encrypted == use_encryption && o.inner_id@.len() == 64 && (!use_encryption
                    ==> o.wire_id@ == o.inner_id@) && o.inner_id@ == event_id_of(
                    o.pubkey@,
                    o.created_at as int,
                    CTXVM_MESSAGES_KIND as int,
                    client_pubkey@,
                    Some(request_event_id@),
                    vstd::utf8::encode_utf8(response_json@),
                )
            },
            r is Err ==> r->Err_0 is InvalidMessage || r->Err_0 is Other || r->Err_0
                is Encryption,
            !crate::wire::valid_event_id_hex(request_event_id@) ==> r is Err && r->Err_0
                is InvalidMessage,
            crate::wire::valid_event_id_hex(request_event_id@) && vstd::utf8::encode_utf8(
                response_json@,
            ).len() > MAX_MESSAGE_SIZE ==> r is Err && r->Err_0 is InvalidMessage,
            crate::wire::valid_event_id_hex(request_event_id@) && vstd::utf8::encode_utf8(
                response_json@,
            ).len() <= MAX_MESSAGE_SIZE && !crate::wire::valid_pk_hex(client_pubkey@) ==> r is Err
                && r->Err_0 is InvalidMessage,
            crate::wire::valid_event_id_hex(request_event_id@) && vstd::utf8::encode_utf8(
                response_json@,
            ).len() <= MAX_MESSAGE_SIZE && crate::wire::valid_pk_hex(client_pubkey@) && r is Err
                ==> r->Err_0 is Other || r->Err_0 is Encryption,
            crate::wire::valid_event_id_hex(request_event_id@) && vstd::utf8::encode_utf8(
                response_json@,
            ).len() <= MAX_MESSAGE_SIZE && crate::wire::valid_pk_hex(client_pubkey@)
                && !use_encryption && r is Err ==> r->Err_0 is Other,
    {
        if !crate::wire::validate_event_id_hex(request_event_id.as_str()) {
            return Err(Error::InvalidMessage("invalid request identifier".to_owned()));
        }
        let reply_to = Some(crate::bytes::clone_string(request_event_id));
        let signed = match crate::wire::sign_message(
            keys,
            CTXVM_MESSAGES_KIND,
            client_pubkey,
            &reply_to,
            response_json.as_bytes(),
        ) {
            Ok(m) => m,
            Err(e) => {
                return Err(e);
            },
        };
        if use_encryption {
            let outer = match crate::wire::wrap_message(keys, client_pubkey, &signed) {
                Ok(ev) => ev,
                Err(e) => {
                    return Err(e);
                },
            };
            let wire_id = crate::wire::wire_id_hex(&outer);
            Ok(OutboundResponse {
                event: outer,
                inner_id: signed.id,
                pubkey: signed.pubkey,
                created_at: signed.created_at,
                wire_id,
                encrypted: true,
            })
        } else {
            let wire_id = crate::bytes::clone_string(&signed.id);
            Ok(OutboundResponse {
                event: signed.event,
                inner_id: signed.id,
                pubkey: signed.pubkey,
                created_at: signed.created_at,
                wire_id,
                encrypted: false,
            })
        }
    }

    /// Evict every session idle past the configured timeout.  Running it
    /// twice in a row with no intervening activity is a no-op the second
    /// time (see `crate::session::lemma_sweep_idempotent`).
    pub fn cleanup_inactive_sessions(&mut self, now: u64)
        requires
            old(self).wf(),
        ensures
            final(self).wf(),
            final(self).spec_mode() == old(self).spec_mode(),
            final(self).spec_timeout() == old(self).spec_timeout(),
            final(self).spec_server_info() == old(self).spec_server_info(),
            final(self).sessions_view() == spec_sweep(
                old(self).sessions_view(),
                now,
                old(self).spec_timeout(),
            ),
    {
        let timeout = self.config.session_timeout;
        self.sessions.sweep(now, timeout);
    }

    /// How many sessions are live.
    pub fn session_count(&self) -> (r: usize)
        ensures
            r == self.sessions_view().len(),
    {
        self.sessions.len()
    }

    /// A copy of the session for `client_pubkey`, if one is live.
    pub fn get_session(&self, client_pubkey: &str) -> (r: Option<ClientSession>)
        ensures
            r is Some <==> spec_contains(self.sessions_view(), client_pubkey@),
            r is Some ==> {
                let c = self.sessions_view()[spec_index_of(self.sessions_view(), client_pubkey@)];
                r->0.client_pubkey@ == c.client_pubkey@ && r->0.is_initialized == c.is_initialized
                    && r->0.is_encrypted == c.is_encrypted && r->0.last_activity == c.last_activity
            },
    {
        self.sessions.get(client_pubkey)
    }

    /// Mark the session for `client_pubkey` as having completed the
    /// handshake; false (and no change) when no such session is live.
    /// The marked session keeps its key, encryption flag and activity;
    /// every other session is untouched.
    pub fn mark_session_initialized(&mut self, client_pubkey: &str) -> (r: bool)
        requires
            old(self).wf(),
        ensures
            final(self).wf(),
            final(self).spec_mode() == old(self).spec_mode(),
            final(self).spec_timeout() == old(self).spec_timeout(),
            final(self).spec_server_info() == old(self).spec_server_info(),
            r == spec_contains(old(self).sessions_view(), client_pubkey@),
            !r ==> final(self).sessions_view() == old(self).sessions_view(),
            r ==> final(self).sessions_view().len() == old(self).sessions_view().len() && {
                let i = spec_index_of(old(self).sessions_view(), client_pubkey@);
                (forall|j: int|
                    0 <= j < old(self).sessions_view().len() && j != i
                        ==> #[trigger] final(self).sessions_view()[j]
                        == old(self).sessions_view()[j]) && {
                    let c0 = old(self).sessions_view()[i];
                    let c1 = final(self).sessions_view()[i];
                    c1.client_pubkey@ == c0.client_pubkey@ && c1.is_initialized
                        && c1.is_encrypted == c0.is_encrypted && c1.last_activity
                        == c0.last_activity
                }
            },
    {
        self.sessions.mark_initialized(client_pubkey)
    }
}

} // verus!
