//! Payload encryption between two identities (NIP-44).

use vstd::prelude::*;

verus! {

/// Relies on `nip44::encrypt`: encrypts `plaintext` from `keys` to the
/// key `receiver`.  The ciphertext involves a random nonce, so nothing
/// beyond success or failure can be promised of it.
#[verifier::external_body]
fn nip44_encrypt(
    keys: &nostr::prelude::Keys,
    receiver: &str,
    plaintext: &str,
) -> (r: Option<String>) {
    let pk = nostr::prelude::PublicKey::from_hex(receiver).ok()?;
    nostr::nips::nip44::encrypt(
        keys.secret_key(),
        &pk,
        plaintext,
        nostr::nips::nip44::Version::default(),
    ).ok()
}

/// Relies on `nip44::decrypt`: decrypts a payload sent from the key
/// `sender` to `keys`; fails on a payload not encrypted between the two.
#[verifier::external_body]
fn nip44_decrypt(
    keys: &nostr::prelude::Keys,
    sender: &str,
    ciphertext: &str,
) -> (r: Option<String>) {
    let pk = nostr::prelude::PublicKey::from_hex(sender).ok()?;
    nostr::nips::nip44::decrypt(keys.secret_key(), &pk, ciphertext).ok()
}

/// Encrypt a payload for `receiver_pubkey` (hex); a failure (or an
/// unparsable receiver key) is an `Encryption` error.
pub fn encrypt_nip44(
    keys: &nostr::prelude::Keys,
    receiver_pubkey: &str,
    plaintext: &str,
) -> (r: Result<String, crate::error::Error>)
    ensures
        r is Err ==> r->Err_0 is Encryption,
{
    match nip44_encrypt(keys, receiver_pubkey, plaintext) {
        Some(c) => Ok(c),
        None => Err(crate::error::Error::Encryption("encryption failed".to_owned())),
    }
}

/// Decrypt a payload sent by `sender_pubkey` (hex); a failure (or an
/// unparsable sender key) is a `Decryption` error.
pub fn decrypt_nip44(
    keys: &nostr::prelude::Keys,
    sender_pubkey: &str,
    ciphertext: &str,
) -> (r: Result<String, crate::error::Error>)
    ensures
        r is Err ==> r->Err_0 is Decryption,
{
    match nip44_decrypt(keys, sender_pubkey, ciphertext) {
        Some(p) => Ok(p),
        None => Err(crate::error::Error::Decryption("decryption failed".to_owned())),
    }
}

} // verus!
