//! Encryption policy: when must an outbound message be wrapped.

use vstd::prelude::*;

verus! {

/// Encryption mode of a transport role, fixed at construction time.
#[derive(Debug, Clone, Copy, PartialEq, Eq, Structural)]
pub enum EncryptionMode {
    /// Encrypt a reply exactly when the triggering message arrived encrypted.
    Optional,
    /// Always encrypt.
    Required,
    /// Never encrypt.
    Disabled,
}

impl Default for EncryptionMode {
    /// The default policy mirrors the counterparty's choice.
    fn default() -> (r: Self)
        ensures
            r == EncryptionMode::Optional,
    {
        EncryptionMode::Optional
    }
}

/// What the policy decides for a given mode and inbound encryption state.
pub open spec fn spec_should_encrypt(mode: EncryptionMode, inbound_encrypted: bool) -> bool {
    match mode {
        EncryptionMode::Optional => inbound_encrypted,
        EncryptionMode::Required => true,
        EncryptionMode::Disabled => false,
    }
}

/// Decide whether an outbound reply must be wrapped: `Optional` mirrors the
/// inbound state, `Required` always wraps, `Disabled` never wraps.
///
/// This is the full policy table; it holds for every one of the six
/// (mode, inbound-encrypted) combinations.
pub fn should_encrypt(mode: EncryptionMode, inbound_encrypted: bool) -> (r: bool)
    ensures
        r == spec_should_encrypt(mode, inbound_encrypted),
        mode == EncryptionMode::Optional ==> r == inbound_encrypted,
        mode == EncryptionMode::Required ==> r,
        mode == EncryptionMode::Disabled ==> !r,
{
    match mode {
        EncryptionMode::Optional => inbound_encrypted,
        EncryptionMode::Required => true,
        EncryptionMode::Disabled => false,
    }
}

/// Parse a configured mode string; an unrecognized string is a
/// configuration error, never silently defaulted.
pub fn parse_encryption_mode(s: &str) -> (r: Option<EncryptionMode>)
    ensures
        s@ == "optional"@ ==> r == Some(EncryptionMode::Optional),
        s@ == "required"@ ==> r == Some(EncryptionMode::Required),
        s@ == "disabled"@ ==> r == Some(EncryptionMode::Disabled),
        s@ != "optional"@ && s@ != "required"@ && s@ != "disabled"@ ==> r is None,
{
    proof {
        reveal_strlit("optional");
        reveal_strlit("required");
        reveal_strlit("disabled");
        assert("optional"@[0] != "required"@[0]);
        assert("optional"@[0] != "disabled"@[0]);
        assert("required"@[0] != "disabled"@[0]);
    }
    if crate::bytes::str_eq(s, "optional") {
        Some(EncryptionMode::Optional)
    } else if crate::bytes::str_eq(s, "required") {
        Some(EncryptionMode::Required)
    } else if crate::bytes::str_eq(s, "disabled") {
        Some(EncryptionMode::Disabled)
    } else {
        None
    }
}

} // verus!
