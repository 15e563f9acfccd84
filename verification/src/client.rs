//! Client-side transport: request/response correlation with timeout.
//!
//! The embedding application owns the network: it connects, subscribes to
//! the two inbound kinds filtered to the caller's identity, runs the one
//! background drain task that feeds every arriving event to
//! [`NostrClientTransport::handle_event`], and publishes what
//! [`NostrClientTransport::prepare_request`] hands back (wrapped through
//! [`crate::wire::wrap_message`] when asked to).  A caller blocks on its
//! own fulfillment slot; when the configured timeout elapses first it
//! calls [`NostrClientTransport::fail_timeout`], which removes the stale
//! entry and yields the `Timeout` error.
//!
//! The correlation entry is registered before the request is transmitted,
//! so a reply can never be missed by a register-after-send race; and it is
//! keyed by the identifier of the inner signed message, which the signing
//! contract pins as a pure function of the message fields — wrapping the
//! request in an encrypted envelope does not change the key.

use vstd::prelude::*;
use crate::constants::{CTXVM_MESSAGES_KIND, MAX_MESSAGE_SIZE};
use crate::correlation::{spec_contains, spec_index_of, CorrelationTable, PendingRequest};
use crate::error::Error;
use crate::policy::EncryptionMode;
use crate::wire::{event_id_of, valid_pk_hex, EventParts, SignedMessage};

verus! {

/// Client transport configuration, fixed at construction.
pub struct NostrClientTransportConfig {
    /// Relay endpoints the embedding application connects to.
    pub relay_urls: Vec<String>,
    /// The encryption policy of this role.
    pub encryption_mode: EncryptionMode,
    /// How long a request waits for its reply, in seconds.
    pub request_timeout: u64,
}

impl Default for NostrClientTransportConfig {
    /// One public relay, mirroring encryption, a thirty-second wait.
    fn default() -> (r: Self)
        ensures
            r.relay_urls@.len() == 1,
            r.encryption_mode == EncryptionMode::Optional,
            r.request_timeout == 30,
    {
        let mut urls: Vec<String> = Vec::new();
        urls.push("wss://relay.damus.io".to_owned());
        NostrClientTransportConfig {
            relay_urls: urls,
            encryption_mode: EncryptionMode::Optional,
            request_timeout: 30,
        }
    }
}

/// A request ready to transmit: the signed event (to publish as it is, or
/// to wrap first), and the correlation identifier its reply will carry.
pub struct OutboundRequest {
    /// The signed request message.
    pub message: SignedMessage,
    /// The identifier the reply is matched on: the identifier of the
    /// inner signed message, never of any envelope around it.
    pub correlation_id: String,
    /// Whether the caller asked for the request to travel wrapped.
    pub encrypt: bool,
}

/// What became of one inbound event in the drain task.
pub enum InboundOutcome {
    /// Its correlation tag matched a waiting entry, which now holds the
    /// reply payload.
    Delivered,
    /// An encrypted envelope that could not be opened: logged, dropped.
    Undecryptable,
    /// No correlation tag on the message: dropped.
    NoCorrelation,
    /// A correlation tag with no waiting entry (unsolicited, or already
    /// timed out, or already answered): dropped.
    Unmatched,
}

/// The client role: its configuration, its correlation table, and the
/// flag that keeps the background drain task from being spawned twice.
pub struct NostrClientTransport {
    config: NostrClientTransportConfig,
    pending: CorrelationTable,
    started: bool,
}

impl NostrClientTransport {
    /// The in-flight entries, in registration order.
    pub closed spec fn pending_view(&self) -> Seq<PendingRequest> {
        self.pending@
    }

    pub closed spec fn wf(&self) -> bool {
        self.pending.wf()
    }

    pub closed spec fn spec_started(&self) -> bool {
        self.started
    }

    pub closed spec fn spec_mode(&self) -> EncryptionMode {
        self.config.encryption_mode
    }

    pub closed spec fn spec_timeout(&self) -> u64 {
        self.config.request_timeout
    }

    /// A new client transport: nothing in flight, drain task not started.
    pub fn new(config: NostrClientTransportConfig) -> (r: Self)
        ensures
            r.wf(),
            r.pending_view().len() == 0,
            !r.spec_started(),
            r.spec_mode() == config.encryption_mode,
            r.spec_timeout() == config.request_timeout,
    {
        NostrClientTransport { config, pending: CorrelationTable::new(), started: false }
    }

    pub fn config(&self) -> (r: &NostrClientTransportConfig)
        ensures
            r.encryption_mode == self.spec_mode(),
            r.request_timeout == self.spec_timeout(),
    {
        &self.config
    }

    /// Guard for `connect`: the first call reports that the single
    /// background drain task must be spawned; every later call reports
    /// false, so connecting twice never spawns a second drain task.
    pub fn begin_connect(&mut self) -> (spawn: bool)
        requires
            old(self).wf(),
        ensures
            final(self).wf(),
            final(self).pending_view() == old(self).pending_view(),
            final(self).spec_started(),
            spawn == !old(self).spec_started(),
            final(self).spec_mode() == old(self).spec_mode(),
            final(self).spec_timeout() == old(self).spec_timeout(),
    {
        let spawn = !self.started;
        self.started = true;
        spawn
    }

    /// Sign a request to `server_pubkey` and register its correlation
    /// entry, before anything is transmitted.  Whether or not the caller
    /// asked for encryption, the correlation identifier equals the
    /// identifier of the inner signed message — a pure function of the
    /// author, timestamp, kind, recipient tag and payload; the `encrypt`
    /// flag only tells the transmit step to wrap.  An oversized payload
    /// or an invalid recipient key is rejected before signing.
    pub fn prepare_request(
        &mut self,
        keys: &nostr::prelude::Keys,
        server_pubkey: &str,
        request_json: &str,
        use_encryption: bool,
    ) -> (r: Result<OutboundRequest, Error>)
        requires
            old(self).wf(),
        ensures
            final(self).wf(),
            final(self).spec_started() == old(self).spec_started(),
            final(self).spec_mode() == old(self).spec_mode(),
            final(self).spec_timeout() == old(self).spec_timeout(),
            vstd::utf8::encode_utf8(request_json@).len() > MAX_MESSAGE_SIZE ==> r is Err
                && r->Err_0 is InvalidMessage,
            vstd::utf8::encode_utf8(request_json@).len() <= MAX_MESSAGE_SIZE && !valid_pk_hex(
                server_pubkey@,
            ) ==> r is Err && r->Err_0 is InvalidMessage,
            r is Err ==> final(self).pending_view() == old(self).pending_view() && (r->Err_0
                is InvalidMessage || r->Err_0 is Other),
            vstd::utf8::encode_utf8(request_json@).len() <= MAX_MESSAGE_SIZE && valid_pk_hex(
                server_pubkey@,
            ) && r is Err ==> r->Err_0 is Other,
            r is Ok ==> {
                let o = r->Ok_0;
                o.correlation_id@ == o.message.id@ && o.message.id@ == event_id_of(
                    o.message.pubkey@,
                    o.message.created_at as int,
                    CTXVM_MESSAGES_KIND as int,
                    server_pubkey@,
                    None,
                    vstd::utf8::encode_utf8(request_json@),
                ) && o.encrypt == use_encryption && spec_contains(
                    final(self).pending_view(),
                    o.correlation_id@,
                ) && final(self).pending_view()[spec_index_of(
                    final(self).pending_view(),
                    o.correlation_id@,
                )].reply is None
            },
    {
        let signed = match crate::wire::sign_message(
            keys,
            CTXVM_MESSAGES_KIND,
            server_pubkey,
            &None,
            request_json.as_bytes(),
        ) {
            Ok(m) => m,
            Err(e) => {
                return Err(e);
            },
        };
        let correlation_id = crate::bytes::clone_string(&signed.id);
        // A hash collision aside, the identifier is fresh; if an entry
        // somehow exists (the same request re-signed within one second),
        // the stale entry is dropped so the new caller owns the slot.
        if self.pending.contains(correlation_id.as_str()) {
            self.pending.cancel(correlation_id.as_str());
        }
        self.pending.register(correlation_id.as_str());
        proof {
            crate::correlation::lemma_index_of(self.pending_view(), correlation_id@);
        }
        Ok(OutboundRequest { message: signed, correlation_id, encrypt: use_encryption })
    }

    /// Feed one inbound event from the drain task: open the envelope if
    /// it is one, extract the correlation tag, and deliver the payload to
    /// the matching entry.  Failures here are local to the one event —
    /// the drain loop drops it and goes on.
    pub fn handle_event(
        &mut self,
        keys: &nostr::prelude::Keys,
        ev: &nostr::prelude::Event,
    ) -> (r: InboundOutcome)
        requires
            old(self).wf(),
        ensures
            final(self).wf(),
            final(self).spec_started() == old(self).spec_started(),
            final(self).spec_mode() == old(self).spec_mode(),
            final(self).spec_timeout() == old(self).spec_timeout(),
            !(r is Delivered) ==> final(self).pending_view() == old(self).pending_view(),
    {
        match crate::wire::open_inbound(keys, ev) {
            Some((parts, _was_wrapped)) => self.handle_inbound(&parts),
            None => InboundOutcome::Undecryptable,
        }
    }

    /// Deliver an inbound message, already reduced to plain values, to
    /// the entry its correlation tag names.  Only that entry changes:
    /// every other in-flight request keeps its own slot untouched, so
    /// concurrent requests with distinct identifiers each resolve to
    /// their own reply, however the replies are ordered.
    pub fn handle_inbound(&mut self, parts: &EventParts) -> (r: InboundOutcome)
        requires
            old(self).wf(),
        ensures
            final(self).wf(),
            final(self).spec_started() == old(self).spec_started(),
            final(self).spec_mode() == old(self).spec_mode(),
            final(self).spec_timeout() == old(self).spec_timeout(),
            parts.reply_to is None <==> r is NoCorrelation,
            !(r is Delivered) ==> final(self).pending_view() == old(self).pending_view(),
            parts.reply_to is Some ==> {
                let id = parts.reply_to->0@;
                let was = spec_contains(old(self).pending_view(), id) && old(self).pending_view()[spec_index_of(old(self).pending_view(), id)].reply is None;
                (r is Delivered <==> was) && (was ==> {
                    let i = spec_index_of(old(self).pending_view(), id);
                    final(self).pending_view().len() == old(self).pending_view().len() && (
                    forall|j: int|
                        0 <= j < old(self).pending_view().len() && j != i
                            ==> #[trigger] final(self).pending_view()[j]
                            == old(self).pending_view()[j]) && final(self).pending_view()[i].request_id@
                        == id && final(self).pending_view()[i].reply is Some
                        && final(self).pending_view()[i].reply->0@ == parts.content@
                })
            },
    {
        match &parts.reply_to {
            Some(request_id) => {
                let delivered = self.pending.fulfill(
                    request_id.as_str(),
                    crate::bytes::clone_string(&parts.content),
                );
                if delivered {
                    InboundOutcome::Delivered
                } else {
                    InboundOutcome::Unmatched
                }
            },
            None => InboundOutcome::NoCorrelation,
        }
    }

    /// Take the reply delivered for `correlation_id`, consuming the
    /// entry; `None` while the slot is still waiting.
    pub fn take_reply(&mut self, correlation_id: &str) -> (r: Option<String>)
        requires
            old(self).wf(),
        ensures
            final(self).wf(),
            final(self).spec_started() == old(self).spec_started(),
            final(self).spec_mode() == old(self).spec_mode(),
            final(self).spec_timeout() == old(self).spec_timeout(),
            r is Some <==> spec_contains(old(self).pending_view(), correlation_id@) && old(self).pending_view()[spec_index_of(old(self).pending_view(), correlation_id@)].reply
                is Some,
            r is Some ==> r == old(self).pending_view()[spec_index_of(
                old(self).pending_view(),
                correlation_id@,
            )].reply && !spec_contains(final(self).pending_view(), correlation_id@),
            r is None ==> final(self).pending_view() == old(self).pending_view(),
    {
        self.pending.take_reply(correlation_id)
    }

    /// The timeout path: no reply arrived within the configured wait, so
    /// the stale entry is removed — a reply arriving later finds nothing
    /// and is discarded — and the caller gets the `Timeout` error.
    pub fn fail_timeout(&mut self, correlation_id: &str) -> (r: Error)
        requires
            old(self).wf(),
        ensures
            final(self).wf(),
            final(self).spec_started() == old(self).spec_started(),
            final(self).spec_mode() == old(self).spec_mode(),
            final(self).spec_timeout() == old(self).spec_timeout(),
            r is Timeout,
            !spec_contains(final(self).pending_view(), correlation_id@),
            spec_contains(old(self).pending_view(), correlation_id@) ==> final(self).pending_view() == old(self).pending_view().remove(spec_index_of(
                old(self).pending_view(),
                correlation_id@,
            )),
            !spec_contains(old(self).pending_view(), correlation_id@) ==> final(self).pending_view() == old(self).pending_view(),
    {
        self.pending.cancel(correlation_id);
        Error::Timeout
    }

    /// The dropped-channel path: the resolution channel closed without a
    /// value.  The stale entry is removed and the caller gets a
    /// `Transport` error.
    pub fn fail_closed(&mut self, correlation_id: &str) -> (r: Error)
        requires
            old(self).wf(),
        ensures
            final(self).wf(),
            final(self).spec_started() == old(self).spec_started(),
            final(self).spec_mode() == old(self).spec_mode(),
            final(self).spec_timeout() == old(self).spec_timeout(),
            r is Transport,
            !spec_contains(final(self).pending_view(), correlation_id@),
            spec_contains(old(self).pending_view(), correlation_id@) ==> final(self).pending_view() == old(self).pending_view().remove(spec_index_of(
                old(self).pending_view(),
                correlation_id@,
            )),
            !spec_contains(old(self).pending_view(), correlation_id@) ==> final(self).pending_view() == old(self).pending_view(),
    {
        self.pending.cancel(correlation_id);
        Error::Transport("response channel closed".to_owned())
    }

    /// How many requests are in flight.
    pub fn pending_count(&self) -> (r: usize)
        ensures
            r == self.pending_view().len(),
    {
        self.pending.len()
    }

    /// Whether a correlation entry is registered for `correlation_id`.
    pub fn is_pending(&self, correlation_id: &str) -> (r: bool)
        ensures
            r == spec_contains(self.pending_view(), correlation_id@),
    {
        self.pending.contains(correlation_id)
    }
}

} // verus!
