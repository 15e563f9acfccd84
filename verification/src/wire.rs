//! Wire messages: the bridge between the verified transport logic and the
//! `nostr` protocol crate that signs, wraps and unwraps them.
//!
//! Every item here that Verus takes on trust names the outside function it
//! relies on in its doc comment.  The identifier of a signed message is a
//! pure function of its fields (a hash of their canonical serialization),
//! which is named `event_id_of`; the correlation layer's guarantees rest on
//! that name being stable.

use vstd::prelude::*;
use nostr::nips::nip59::GiftWrapBuilder;
use nostr::prelude::{
    EventBuilder, EventId, FinalizeEvent, Kind, PublicKey, Tag, UnsignedEvent, UnwrappedGift,
};

verus! {

#[verifier::external_type_specification]
#[verifier::external_body]
pub struct ExKeys(nostr::prelude::Keys);

#[verifier::external_type_specification]
#[verifier::external_body]
pub struct ExEvent(nostr::prelude::Event);

/// The identifier that signing computes for a message with the given
/// author (hex public key), timestamp, kind, recipient tag, optional
/// in-reply-to tag and content bytes.  It is a SHA-256 digest of the
/// serialized fields: the same fields always give the same identifier, on
/// every machine, and it does not depend on any later encryption step.
pub uninterp spec fn event_id_of(
    pubkey: Seq<char>,
    created_at: int,
    kind: int,
    recipient: Seq<char>,
    reply_to: Option<Seq<char>>,
    content: Seq<u8>,
) -> Seq<char>;

/// Whether `s` parses as a hex-encoded public key.
pub uninterp spec fn valid_pk_hex(s: Seq<char>) -> bool;

/// Whether `s` parses as a hex-encoded message identifier.
pub uninterp spec fn valid_event_id_hex(s: Seq<char>) -> bool;

/// The view of an optional string.
pub open spec fn opt_view(o: Option<String>) -> Option<Seq<char>> {
    match o {
        Some(s) => Some(s@),
        None => None,
    }
}

/// An inbound message reduced to plain values: what the transport logic
/// reads of an event once the network and envelope layers are done.
pub struct EventParts {
    /// Identifier of the (inner) message, hex encoded.
    pub id: String,
    /// Author identity, hex encoded.
    pub pubkey: String,
    /// Message kind number.
    pub kind: u16,
    /// UNIX timestamp (seconds) the author placed on the message.
    pub created_at: u64,
    /// Payload.
    pub content: String,
    /// First in-reply-to tag: the identifier of the request this message
    /// answers, if any.
    pub reply_to: Option<String>,
    /// First recipient tag, if any.
    pub recipient: Option<String>,
}

/// An outbound message after signing: the opaque signed event to hand to
/// the network, together with the plain values the logic needs.
pub struct SignedMessage {
    /// The signed event, ready to publish or to wrap.
    pub event: nostr::prelude::Event,
    /// Its identifier, hex encoded: the correlation key.
    pub id: String,
    /// The author identity, hex encoded.
    pub pubkey: String,
    /// The timestamp the signer placed on the message.
    pub created_at: u64,
}

/// Relies on `PublicKey::from_hex`: whether a hex public key parses.
#[verifier::external_body]
pub fn validate_pk_hex(s: &str) -> (r: bool)
    ensures
        r == valid_pk_hex(s@),
{
    nostr::prelude::PublicKey::from_hex(s).is_ok()
}

/// Relies on `EventId::from_hex`: whether a hex message identifier parses.
#[verifier::external_body]
pub fn validate_event_id_hex(s: &str) -> (r: bool)
    ensures
        r == valid_event_id_hex(s@),
{
    nostr::prelude::EventId::from_hex(s).is_ok()
}

/// Relies on `EventBuilder::new` + `finalize` with `Keys` (NIP-01
/// signing): the signed event's identifier is `EventId::compute` of the
/// author key, the chosen timestamp, the kind, the tag list (here: one
/// recipient tag, then one optional in-reply-to tag) and the content,
/// which `event_id_of` names.  Invalid recipient or reply identifiers make
/// it return `None`.  Identifiers and keys are rendered as 64 hex chars.
#[verifier::external_body]
fn sign_tagged(
    keys: &nostr::prelude::Keys,
    kind: u16,
    recipient: &str,
    reply_to: &Option<String>,
    content: &[u8],
) -> (r: Option<SignedMessage>)
    ensures
        r is Some ==> {
            let m = r->0;
            m.id@ == event_id_of(
                m.pubkey@,
                m.created_at as int,
                kind as int,
                recipient@,
                opt_view(*reply_to),
                content@,
            ) && m.id@.len() == 64 && m.pubkey@.len() == 64
        },
{
    let pk = PublicKey::from_hex(recipient).ok()?;
    let mut builder = EventBuilder::new(Kind::from(kind), String::from_utf8_lossy(content))
        .tag(Tag::public_key(pk));
    if let Some(reply) = reply_to {
        let rid = EventId::from_hex(reply).ok()?;
        builder = builder.tag(Tag::event(rid));
    }
    let ev = builder.finalize(keys).ok()?;
    Some(SignedMessage {
        id: ev.id.to_hex(),
        pubkey: ev.pubkey.to_hex(),
        created_at: ev.created_at.as_secs(),
        event: ev,
    })
}

/// Relies on `GiftWrapBuilder::finalize` (NIP-59): wraps the signed
/// message, as a rumor with the same fields, in an encrypted envelope
/// addressed to `receiver`.  The envelope is a fresh outer event; the
/// inner fields (and so the inner identifier) are untouched.
#[verifier::external_body]
fn gift_wrap(
    keys: &nostr::prelude::Keys,
    receiver: &str,
    message: &SignedMessage,
) -> (r: Option<nostr::prelude::Event>)
{
    let pk = PublicKey::from_hex(receiver).ok()?;
    let ev = &message.event;
    let rumor = UnsignedEvent::new(
        ev.pubkey,
        ev.created_at,
        ev.kind,
        ev.tags.clone().to_vec(),
        ev.content.clone(),
    );
    GiftWrapBuilder::new(pk, rumor).finalize(keys).ok()
}

/// Relies on the public `Event` fields, `EventId::to_hex`,
/// `PublicKey::to_hex`, `Kind::as_u16`, `Timestamp::as_secs`,
/// `Tags::event_ids` and `Tags::public_keys`: reads an event's fields and
/// its first in-reply-to and recipient tags into plain values.
#[verifier::external_body]
fn event_to_parts(ev: &nostr::prelude::Event) -> (r: EventParts)
    ensures
        r.id@.len() == 64,
{
    EventParts {
        id: ev.id.to_hex(),
        pubkey: ev.pubkey.to_hex(),
        kind: ev.kind.as_u16(),
        created_at: ev.created_at.as_secs(),
        content: ev.content.clone(),
        reply_to: ev.tags.event_ids().next().map(|e| e.to_hex()),
        recipient: ev.tags.public_keys().next().map(|p| p.to_hex()),
    }
}

/// Relies on `EventId::to_hex`: the wire identifier of an event, as it
/// is published: 64 hex chars.
#[verifier::external_body]
pub(crate) fn wire_id_hex(ev: &nostr::prelude::Event) -> (r: String)
    ensures
        r@.len() == 64,
{
    ev.id.to_hex()
}

/// Relies on `Kind::as_u16`: the kind number of an event.
#[verifier::external_body]
fn event_kind(ev: &nostr::prelude::Event) -> (r: u16) {
    ev.kind.as_u16()
}

/// Relies on `UnwrappedGift::from_gift_wrap` (NIP-59): opens an encrypted
/// envelope addressed to `keys` and reads the inner message's fields.  The
/// identifier handed back is the one the rumor document carries (set when
/// the message was sealed; computed from the fields only when absent).
/// Fails on an envelope this key cannot open or one that is malformed.
#[verifier::external_body]
fn open_gift(
    keys: &nostr::prelude::Keys,
    ev: &nostr::prelude::Event,
) -> (r: Option<EventParts>)
    ensures
        r is Some ==> r->0.id@.len() == 64,
{
    let unwrapped = UnwrappedGift::from_gift_wrap(keys, ev).ok()?;
    let mut rumor = unwrapped.rumor;
    let id = rumor.id();
    let reply_to = rumor.tags.event_ids().next().map(|e| e.to_hex());
    let recipient = rumor.tags.public_keys().next().map(|p| p.to_hex());
    Some(EventParts {
        id: id.to_hex(),
        pubkey: rumor.pubkey.to_hex(),
        kind: rumor.kind.as_u16(),
        created_at: rumor.created_at.as_secs(),
        reply_to,
        recipient,
        content: rumor.content,
    })
}

/// Sign a message of `kind` addressed to `recipient`, optionally carrying
/// an in-reply-to tag.  The payload is rejected before signing when it
/// exceeds the maximum message size, and an unparsable recipient or reply
/// identifier is rejected as invalid; a remaining signing failure
/// surfaces as `Other`.
pub fn sign_message(
    keys: &nostr::prelude::Keys,
    kind: u16,
    recipient: &str,
    reply_to: &Option<String>,
    content: &[u8],
) -> (r: Result<SignedMessage, crate::error::Error>)
    ensures
        content@.len() > crate::constants::MAX_MESSAGE_SIZE ==> r is Err
            && r->Err_0 is InvalidMessage,
        content@.len() <= crate::constants::MAX_MESSAGE_SIZE && !valid_pk_hex(recipient@) ==> r
            is Err && r->Err_0 is InvalidMessage,
        r is Ok ==> {
            let m = r->Ok_0;
            m.id@ == event_id_of(
                m.pubkey@,
                m.created_at as int,
                kind as int,
                recipient@,
                opt_view(*reply_to),
                content@,
            ) && m.id@.len() == 64 && m.pubkey@.len() == 64
        },
        r is Err ==> r->Err_0 is InvalidMessage || r->Err_0 is Other,
        content@.len() <= crate::constants::MAX_MESSAGE_SIZE && valid_pk_hex(recipient@) && r
            is Err ==> r->Err_0 is Other,
{
    if content.len() > crate::constants::MAX_MESSAGE_SIZE {
        return Err(
            crate::error::Error::InvalidMessage("message exceeds maximum size".to_owned()),
        );
    }
    if !validate_pk_hex(recipient) {
        return Err(crate::error::Error::InvalidMessage("invalid recipient key".to_owned()));
    }
    match sign_tagged(keys, kind, recipient, reply_to, content) {
        Some(m) => Ok(m),
        None => Err(crate::error::Error::Other("signing failed".to_owned())),
    }
}

/// Wrap an already signed message in an encrypted envelope addressed to
/// `receiver`; the correlation identifier of the inner message is not
/// affected.  An unparsable receiver key is rejected before anything is
/// wrapped; a failure of the wrap itself is also an `Encryption` error.
pub fn wrap_message(
    keys: &nostr::prelude::Keys,
    receiver: &str,
    message: &SignedMessage,
) -> (r: Result<nostr::prelude::Event, crate::error::Error>)
    ensures
        r is Err ==> r->Err_0 is Encryption,
        !valid_pk_hex(receiver@) ==> r is Err,
{
    if !validate_pk_hex(receiver) {
        return Err(crate::error::Error::Encryption("invalid receiver key".to_owned()));
    }
    match gift_wrap(keys, receiver, message) {
        Some(ev) => Ok(ev),
        None => Err(crate::error::Error::Encryption("gift wrap failed".to_owned())),
    }
}

/// Reduce an inbound event to plain values, opening the envelope first
/// when it is one.  Returns the inner parts and whether the message
/// arrived encrypted; `None` when an envelope cannot be opened (such an
/// event is dropped by the receive loops, never fatal).
pub fn open_inbound(
    keys: &nostr::prelude::Keys,
    ev: &nostr::prelude::Event,
) -> (r: Option<(EventParts, bool)>)
    ensures
        r is Some ==> (r->0).0.id@.len() == 64,
{
    let kind = event_kind(ev);
    if kind == crate::constants::GIFT_WRAP_KIND {
        match open_gift(keys, ev) {
            Some(parts) => Some((parts, true)),
            None => None,
        }
    } else {
        Some((event_to_parts(ev), false))
    }
}

} // verus!
