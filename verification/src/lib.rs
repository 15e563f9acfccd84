//! Session-oriented, correlated, optionally end-to-end-encrypted RPC on top
//! of a broadcast-only pub/sub relay network.
//!
//! The relay network offers only "publish a signed message" and "subscribe to
//! messages matching a filter".  This crate builds the session and
//! correlation layer above that substrate: an encryption-mode policy, a
//! client-side request/response correlation table with timeout handling, a
//! server-side session table with idle eviction, and the plumbing that keys
//! correlation on the identifier of the inner signed message even when the
//! message travels inside an encrypted envelope.
//!
//! Network I/O itself (relay connections, publishing, subscription streams)
//! is left to the embedding application; the logic here is written against
//! plain values and the few signing and envelope primitives of the `nostr`
//! protocol crate, which are declared as trusted items.  Protocol payloads
//! travel through this layer as raw JSON documents: the layer's own
//! responsibility ends at framing, correlating and delivering them, and a
//! request/response/notification union would carry no logic here.

pub mod bootstrap;
pub mod bytes;
pub mod client;
pub mod config;
pub mod constants;
pub mod correlation;
pub mod encryption;
pub mod error;
pub mod imagen;
pub mod json;
pub mod policy;
pub mod server;
pub mod session;
pub mod ollama;
pub mod orchestration;
pub mod signer;
pub mod text;
pub mod types;
pub mod watch;
pub mod wire;
