//! Keys: the signing identity of a transport role.

use vstd::prelude::*;

verus! {

/// Whether `s` parses as a private key (hex or bech32 form).
pub uninterp spec fn valid_secret_key(s: Seq<char>) -> bool;

/// Relies on `Keys::parse`: builds a signer from a private key string,
/// succeeding exactly on parsable keys.
#[verifier::external_body]
fn keys_parse(sk: &str) -> (r: Option<nostr::prelude::Keys>)
    ensures
        r is Some <==> valid_secret_key(sk@),
{
    nostr::prelude::Keys::parse(sk).ok()
}

/// Relies on `Keys::generate`: a fresh random signer.  Nothing can be
/// promised of a random key.
#[verifier::external_body]
pub fn generate() -> (r: nostr::prelude::Keys) {
    nostr::prelude::Keys::generate()
}

/// Relies on `Keys::public_key` and `PublicKey::to_hex`: the signer's
/// identity as 64 hex chars.
#[verifier::external_body]
pub fn public_key_hex(keys: &nostr::prelude::Keys) -> (r: String)
    ensures
        r@.len() == 64,
        crate::wire::valid_pk_hex(r@),
{
    keys.public_key().to_hex()
}

/// Build a signer from a private key string (hex or bech32); rejected
/// exactly when the string does not parse as a key.
pub fn from_sk(sk: &str) -> (r: Result<nostr::prelude::Keys, crate::error::Error>)
    ensures
        r is Ok <==> valid_secret_key(sk@),
{
    match keys_parse(sk) {
        Some(keys) => Ok(keys),
        None => Err(crate::error::Error::Other("invalid private key".to_owned())),
    }
}

} // verus!
