//! Error taxonomy of the transport layer.

use vstd::prelude::*;
use vstd::string::StringExecFns;

verus! {

/// Every failure a transport operation can surface.
///
/// Request-path failures (signing, publishing, timeout) surface to the
/// caller of the request; passive-loop failures are recovered locally and
/// never carried here.  Configuration failures are fatal to the operation
/// that required the configuration.
#[derive(Debug)]
pub enum Error {
    /// Network, publish or subscribe failure.
    Transport(String),
    /// Wrapping a message in an encrypted envelope failed.
    Encryption(String),
    /// Opening an encrypted envelope failed.
    Decryption(String),
    /// No reply arrived within the deadline.
    Timeout,
    /// A referenced session is absent (used by higher layers, not by the
    /// eviction sweep itself).
    SessionNotFound(String),
    /// A malformed message or identifier was rejected at decode time.
    InvalidMessage(String),
    /// A message kind or tag did not match the protocol.
    Protocol(String),
    /// Configuration or otherwise unclassified failure.
    Other(String),
}

impl Error {
    /// A short, stable label for the error class.
    pub fn label(&self) -> (r: &'static str)
        ensures
            r@ == spec_label(self),
    {
        match self {
            Error::Transport(_) => "transport",
            Error::Encryption(_) => "encryption",
            Error::Decryption(_) => "decryption",
            Error::Timeout => "timeout",
            Error::SessionNotFound(_) => "session not found",
            Error::InvalidMessage(_) => "invalid message",
            Error::Protocol(_) => "protocol",
            Error::Other(_) => "other",
        }
    }

    /// A human-readable rendering: the class label, then the detail.
    pub fn message(&self) -> (r: String)
        ensures
            r@ == spec_label(self) + ": "@ + spec_detail(self),
    {
        let mut out = String::new();
        out.append(self.label());
        out.append(": ");
        match self {
            Error::Transport(d) => out.append(d.as_str()),
            Error::Encryption(d) => out.append(d.as_str()),
            Error::Decryption(d) => out.append(d.as_str()),
            Error::Timeout => (),
            Error::SessionNotFound(d) => out.append(d.as_str()),
            Error::InvalidMessage(d) => out.append(d.as_str()),
            Error::Protocol(d) => out.append(d.as_str()),
            Error::Other(d) => out.append(d.as_str()),
        }
        out
    }
}

/// The label `label` returns, as a sequence of characters.
pub open spec fn spec_label(e: &Error) -> Seq<char> {
    match e {
        Error::Transport(_) => "transport"@,
        Error::Encryption(_) => "encryption"@,
        Error::Decryption(_) => "decryption"@,
        Error::Timeout => "timeout"@,
        Error::SessionNotFound(_) => "session not found"@,
        Error::InvalidMessage(_) => "invalid message"@,
        Error::Protocol(_) => "protocol"@,
        Error::Other(_) => "other"@,
    }
}

/// The detail string carried by the error, empty for `Timeout`.
pub open spec fn spec_detail(e: &Error) -> Seq<char> {
    match e {
        Error::Transport(d) => d@,
        Error::Encryption(d) => d@,
        Error::Decryption(d) => d@,
        Error::Timeout => Seq::<char>::empty(),
        Error::SessionNotFound(d) => d@,
        Error::InvalidMessage(d) => d@,
        Error::Protocol(d) => d@,
        Error::Other(d) => d@,
    }
}

} // verus!
