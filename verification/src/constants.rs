//! Wire vocabulary: message-kind numbers, tag names and size limits.

use vstd::prelude::*;

verus! {

/// RPC payload messages (ephemeral events).
pub const CTXVM_MESSAGES_KIND: u16 = 25910;

/// Encrypted envelope ("gift wrap") around any inner message (ephemeral).
pub const GIFT_WRAP_KIND: u16 = 1059;

/// Server announcement (addressable: the latest replaces the prior one).
pub const SERVER_ANNOUNCEMENT_KIND: u16 = 11316;

/// Tools list (addressable).
pub const TOOLS_LIST_KIND: u16 = 11317;

/// Resources list (addressable).
pub const RESOURCES_LIST_KIND: u16 = 11318;

/// Resource templates list (addressable).
pub const RESOURCETEMPLATES_LIST_KIND: u16 = 11319;

/// Prompts list (addressable).
pub const PROMPTS_LIST_KIND: u16 = 11320;

/// Maximum message payload size in bytes (1 MiB).  Larger payloads are
/// rejected before signing.
pub const MAX_MESSAGE_SIZE: usize = 1048576;

/// Both transport roles subscribe to exactly these two kinds: the plain RPC
/// payload kind and the encrypted envelope kind.
pub fn subscription_kinds() -> (r: Vec<u16>)
    ensures
        r@ =~= seq![CTXVM_MESSAGES_KIND, GIFT_WRAP_KIND],
{
    let mut v: Vec<u16> = Vec::new();
    v.push(CTXVM_MESSAGES_KIND);
    v.push(GIFT_WRAP_KIND);
    v
}

} // verus!
