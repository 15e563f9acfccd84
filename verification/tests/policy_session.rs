//! The encryption-policy table and the session lifecycle.

use clarity::policy::{parse_encryption_mode, should_encrypt, EncryptionMode};
use clarity::server::{NostrServerTransport, NostrServerTransportConfig};
use clarity::session::SessionTable;
use clarity::types::ClientSession;

#[test]
fn encryption_policy_full_table() {
    // Optional mirrors the inbound state; Required always wraps;
    // Disabled never wraps.  All six combinations:
    assert_eq!(should_encrypt(EncryptionMode::Optional, false), false);
    assert_eq!(should_encrypt(EncryptionMode::Optional, true), true);
    assert_eq!(should_encrypt(EncryptionMode::Required, false), true);
    assert_eq!(should_encrypt(EncryptionMode::Required, true), true);
    assert_eq!(should_encrypt(EncryptionMode::Disabled, false), false);
    assert_eq!(should_encrypt(EncryptionMode::Disabled, true), false);
}

#[test]
fn encryption_mode_strings() {
    assert_eq!(parse_encryption_mode("optional"), Some(EncryptionMode::Optional));
    assert_eq!(parse_encryption_mode("required"), Some(EncryptionMode::Required));
    assert_eq!(parse_encryption_mode("disabled"), Some(EncryptionMode::Disabled));
    assert_eq!(parse_encryption_mode("Optional"), None);
    assert_eq!(parse_encryption_mode(""), None);
    assert_eq!(EncryptionMode::default(), EncryptionMode::Optional);
}

#[test]
fn session_lifecycle() {
    let mut sessions = SessionTable::new();
    assert_eq!(sessions.len(), 0);

    // First message from an unseen identity creates the session.
    let created = sessions.touch("alice", true, 10);
    assert!(created);
    let s = sessions.get("alice").unwrap();
    assert!(s.is_encrypted);
    assert!(!s.is_initialized);
    assert_eq!(s.last_activity, 10);

    // A later message only refreshes the activity.
    let created = sessions.touch("alice", false, 20);
    assert!(!created);
    let s = sessions.get("alice").unwrap();
    assert!(s.is_encrypted);
    assert_eq!(s.last_activity, 20);

    // The handshake flag is set once observed.
    assert!(sessions.mark_initialized("alice"));
    assert!(sessions.get("alice").unwrap().is_initialized);
    assert!(!sessions.mark_initialized("nobody"));
}

#[test]
fn sweep_evicts_only_idle_sessions() {
    let mut sessions = SessionTable::new();
    sessions.touch("old", false, 0);
    sessions.touch("fresh", false, 250);
    // At time 310 with a 300 second timeout, only "old" has idled out.
    sessions.sweep(310, 300);
    assert_eq!(sessions.len(), 1);
    assert!(sessions.get("old").is_none());
    assert!(sessions.get("fresh").is_some());
}

#[test]
fn sweep_twice_is_a_no_op() {
    let mut server = NostrServerTransport::new(NostrServerTransportConfig::default());
    let mk = |pk: &str, t: u64, server: &mut NostrServerTransport| {
        let parts = clarity::wire::EventParts {
            id: "4".repeat(64),
            pubkey: pk.to_string(),
            kind: 25910,
            created_at: t,
            content: "{}".to_string(),
            reply_to: None,
            recipient: None,
        };
        server.process_parts(parts, false, t);
    };
    mk("a", 0, &mut server);
    mk("b", 100, &mut server);
    mk("c", 395, &mut server);
    assert_eq!(server.session_count(), 3);

    // The default timeout is 300 seconds; at 400 only "c" survives.
    server.cleanup_inactive_sessions(400);
    assert_eq!(server.session_count(), 1);
    assert!(server.get_session("c").is_some());
    let before = server.get_session("c").unwrap();

    // A second sweep at the same time removes nothing more.
    server.cleanup_inactive_sessions(400);
    assert_eq!(server.session_count(), 1);
    let after = server.get_session("c").unwrap();
    assert_eq!(after.client_pubkey, before.client_pubkey);
    assert_eq!(after.last_activity, before.last_activity);
}

#[test]
fn client_session_fields() {
    let mut s = ClientSession::new("pk".to_string(), true, 5);
    assert_eq!(s.client_pubkey, "pk");
    assert!(s.is_encrypted);
    assert!(!s.is_initialized);
    assert_eq!(s.last_activity, 5);
    s.update_activity(9);
    assert_eq!(s.last_activity, 9);
    s.mark_initialized();
    assert!(s.is_initialized);
}

#[test]
fn session_state_machine_recreates_after_eviction() {
    let mut sessions = SessionTable::new();
    sessions.touch("peer", true, 0);
    sessions.mark_initialized("peer");
    sessions.sweep(1000, 300);
    assert!(sessions.get("peer").is_none());

    // A message after eviction recreates the session from scratch.
    let created = sessions.touch("peer", false, 1001);
    assert!(created);
    let s = sessions.get("peer").unwrap();
    assert!(!s.is_initialized);
    assert!(!s.is_encrypted);
}
