//! End-to-end exercises of the client and server transports: correlation
//! across encryption, out-of-order replies, timeouts, and the ping/pong
//! round trips.

use clarity::client::{InboundOutcome, NostrClientTransport, NostrClientTransportConfig};
use clarity::error::Error;
use clarity::server::{NostrServerTransport, NostrServerTransportConfig};
use clarity::signer::{generate, public_key_hex};
use clarity::types::ServerInfo;
use clarity::wire::{wrap_message, EventParts};

fn client_and_server() -> (
    NostrClientTransport,
    nostr::prelude::Keys,
    NostrServerTransport,
    nostr::prelude::Keys,
    String,
) {
    let client_keys = generate();
    let server_keys = generate();
    let server_pub = public_key_hex(&server_keys);
    let client = NostrClientTransport::new(NostrClientTransportConfig::default());
    let server = NostrServerTransport::new(NostrServerTransportConfig::default());
    (client, client_keys, server, server_keys, server_pub)
}

#[test]
fn correlation_id_is_inner_id_after_wrap_round_trip() {
    // A request sent encrypted is correlated on the identifier of the
    // inner signed message: wrapping and unwrapping must preserve it.
    let (mut client, client_keys, _server, server_keys, server_pub) = client_and_server();
    let req = client
        .prepare_request(&client_keys, &server_pub, "{\"op\":\"ping\"}", true)
        .unwrap();
    assert!(req.encrypt);
    assert_eq!(req.correlation_id, req.message.id);

    let outer = wrap_message(&client_keys, &server_pub, &req.message).unwrap();
    let mut server = NostrServerTransport::new(NostrServerTransportConfig::default());
    let inner = server.process_event(&server_keys, &outer, 7).unwrap();
    assert!(inner.is_encrypted);
    assert_eq!(inner.event_id, req.correlation_id);
    assert_eq!(inner.content, "{\"op\":\"ping\"}");
}

#[test]
fn ping_pong_plaintext_round_trip() {
    let (mut client, client_keys, mut server, server_keys, server_pub) = client_and_server();
    let client_pub = public_key_hex(&client_keys);

    let req = client
        .prepare_request(&client_keys, &server_pub, "{\"op\":\"ping\"}", false)
        .unwrap();
    assert!(!req.encrypt);

    // The "network" hands the published event to the server.
    let msg = server.process_event(&server_keys, &req.message.event, 100).unwrap();
    assert_eq!(msg.sender_pubkey, client_pub);
    assert!(!msg.is_encrypted);
    let session = server.get_session(&client_pub).unwrap();
    assert!(!session.is_encrypted);
    assert!(!session.is_initialized);
    assert_eq!(session.last_activity, 100);

    // The dispatch handler answers; the reply mirrors the plain request.
    let use_enc = server.reply_should_be_encrypted(msg.is_encrypted);
    assert!(!use_enc);
    let resp = server
        .build_response(&server_keys, &msg.sender_pubkey, "{\"op\":\"pong\"}", &msg.event_id, use_enc)
        .unwrap();
    assert!(!resp.encrypted);
    assert_eq!(resp.wire_id, resp.inner_id);

    // The reply comes back to the client and resolves the caller.
    let outcome = client.handle_event(&client_keys, &resp.event);
    assert!(matches!(outcome, InboundOutcome::Delivered));
    let reply = client.take_reply(&req.correlation_id).unwrap();
    assert_eq!(reply, "{\"op\":\"pong\"}");
    assert!(!client.is_pending(&req.correlation_id));
}

#[test]
fn ping_pong_encrypted_round_trip() {
    let (mut client, client_keys, mut server, server_keys, server_pub) = client_and_server();
    let client_pub = public_key_hex(&client_keys);

    let req = client
        .prepare_request(&client_keys, &server_pub, "{\"op\":\"ping\"}", true)
        .unwrap();
    let outer = wrap_message(&client_keys, &server_pub, &req.message).unwrap();

    let msg = server.process_event(&server_keys, &outer, 100).unwrap();
    assert!(msg.is_encrypted);
    let session = server.get_session(&client_pub).unwrap();
    assert!(session.is_encrypted);

    // Optional mode mirrors the encrypted request: the reply is wrapped.
    let use_enc = server.reply_should_be_encrypted(msg.is_encrypted);
    assert!(use_enc);
    let resp = server
        .build_response(&server_keys, &msg.sender_pubkey, "{\"op\":\"pong\"}", &msg.event_id, use_enc)
        .unwrap();
    assert!(resp.encrypted);
    assert_ne!(resp.wire_id, resp.inner_id);

    let outcome = client.handle_event(&client_keys, &resp.event);
    assert!(matches!(outcome, InboundOutcome::Delivered));
    let reply = client.take_reply(&req.correlation_id).unwrap();
    assert_eq!(reply, "{\"op\":\"pong\"}");
}

#[test]
fn out_of_order_replies_resolve_their_own_requests() {
    let (mut client, client_keys, mut server, server_keys, server_pub) = client_and_server();

    let req_a = client
        .prepare_request(&client_keys, &server_pub, "{\"op\":\"a\"}", false)
        .unwrap();
    let req_b = client
        .prepare_request(&client_keys, &server_pub, "{\"op\":\"b\"}", false)
        .unwrap();
    assert_ne!(req_a.correlation_id, req_b.correlation_id);
    assert_eq!(client.pending_count(), 2);

    let msg_a = server.process_event(&server_keys, &req_a.message.event, 1).unwrap();
    let msg_b = server.process_event(&server_keys, &req_b.message.event, 2).unwrap();
    let resp_a = server
        .build_response(&server_keys, &msg_a.sender_pubkey, "reply a", &msg_a.event_id, false)
        .unwrap();
    let resp_b = server
        .build_response(&server_keys, &msg_b.sender_pubkey, "reply b", &msg_b.event_id, false)
        .unwrap();

    // Replies arrive in the opposite order of the requests.
    assert!(matches!(client.handle_event(&client_keys, &resp_b.event), InboundOutcome::Delivered));
    assert!(matches!(client.handle_event(&client_keys, &resp_a.event), InboundOutcome::Delivered));

    assert_eq!(client.take_reply(&req_a.correlation_id).unwrap(), "reply a");
    assert_eq!(client.take_reply(&req_b.correlation_id).unwrap(), "reply b");
    assert_eq!(client.pending_count(), 0);
}

#[test]
fn timeout_removes_the_entry() {
    let (mut client, client_keys, _server, _server_keys, server_pub) = client_and_server();
    let req = client
        .prepare_request(&client_keys, &server_pub, "{\"op\":\"ping\"}", false)
        .unwrap();
    assert!(client.is_pending(&req.correlation_id));

    // No reply ever arrives; the caller's wait elapses.
    let err = client.fail_timeout(&req.correlation_id);
    assert!(matches!(err, Error::Timeout));
    assert!(!client.is_pending(&req.correlation_id));
    assert_eq!(client.pending_count(), 0);

    // A reply that straggles in afterwards is discarded.
    let parts = EventParts {
        id: "0".repeat(64),
        pubkey: "1".repeat(64),
        kind: 25910,
        created_at: 0,
        content: "late".to_string(),
        reply_to: Some(req.correlation_id.clone()),
        recipient: None,
    };
    assert!(matches!(client.handle_inbound(&parts), InboundOutcome::Unmatched));
}

#[test]
fn dropped_channel_is_a_transport_error() {
    let (mut client, client_keys, _server, _server_keys, server_pub) = client_and_server();
    let req = client
        .prepare_request(&client_keys, &server_pub, "x", false)
        .unwrap();
    let err = client.fail_closed(&req.correlation_id);
    assert!(matches!(err, Error::Transport(_)));
    assert_eq!(err.message(), "transport: response channel closed");
    assert!(!client.is_pending(&req.correlation_id));
}

#[test]
fn connect_spawns_the_drain_task_once() {
    let (mut client, _k, _s, _sk, _p) = client_and_server();
    assert!(client.begin_connect());
    assert!(!client.begin_connect());
    assert!(!client.begin_connect());
}

#[test]
fn invalid_recipient_is_rejected_before_signing() {
    let (mut client, client_keys, _s, _sk, _p) = client_and_server();
    let r = client.prepare_request(&client_keys, "not a key", "{}", false);
    assert!(matches!(r, Err(Error::InvalidMessage(_))));
    assert_eq!(client.pending_count(), 0);
}

#[test]
fn oversized_payload_is_rejected_before_signing() {
    let (mut client, client_keys, _s, _sk, server_pub) = client_and_server();
    let big = "x".repeat(1024 * 1024 + 1);
    let r = client.prepare_request(&client_keys, &server_pub, &big, false);
    assert!(matches!(r, Err(Error::InvalidMessage(_))));

    // Exactly the limit still goes through.
    let ok = "x".repeat(1024 * 1024);
    assert!(client.prepare_request(&client_keys, &server_pub, &ok, false).is_ok());
}

#[test]
fn response_to_invalid_request_id_is_rejected() {
    let (_c, _ck, server, server_keys, _p) = client_and_server();
    let client_pub = public_key_hex(&generate());
    let r = server.build_response(&server_keys, &client_pub, "{}", &"zz".to_string(), false);
    assert!(matches!(r, Err(Error::InvalidMessage(_))));
}

#[test]
fn announcement_requires_server_info() {
    let server = NostrServerTransport::new(NostrServerTransportConfig::default());
    let r = server.announcement_json();
    assert!(matches!(r, Err(Error::Other(_))));

    let mut config = NostrServerTransportConfig::default();
    config.server_info = Some(ServerInfo {
        name: Some("clarity".to_string()),
        version: Some("0.1.0".to_string()),
        picture: None,
        website: None,
        about: Some("a \"test\" server".to_string()),
    });
    let server = NostrServerTransport::new(config);
    let doc = server.announcement_json().unwrap();
    assert_eq!(
        String::from_utf8(doc).unwrap(),
        "{\"about\":\"a \\\"test\\\" server\",\"name\":\"clarity\",\"version\":\"0.1.0\"}",
    );
}

#[test]
fn tools_list_document_wraps_the_items() {
    let tools = vec!["{\"name\":\"ping\"}".to_string(), "{\"name\":\"echo\"}".to_string()];
    let doc = clarity::json::tools_list_json(&tools);
    assert_eq!(
        String::from_utf8(doc).unwrap(),
        "{\"tools\":[{\"name\":\"ping\"},{\"name\":\"echo\"}]}",
    );
    let empty = clarity::json::tools_list_json(&Vec::new());
    assert_eq!(String::from_utf8(empty).unwrap(), "{\"tools\":[]}");
}

#[test]
fn unsolicited_and_untagged_messages_are_dropped() {
    let (mut client, _ck, _s, _sk, _p) = client_and_server();
    let untagged = EventParts {
        id: "2".repeat(64),
        pubkey: "1".repeat(64),
        kind: 25910,
        created_at: 0,
        content: "hello".to_string(),
        reply_to: None,
        recipient: None,
    };
    assert!(matches!(client.handle_inbound(&untagged), InboundOutcome::NoCorrelation));

    let unsolicited = EventParts {
        reply_to: Some("3".repeat(64)),
        ..untagged
    };
    assert!(matches!(client.handle_inbound(&unsolicited), InboundOutcome::Unmatched));
}

#[test]
fn an_envelope_for_someone_else_is_dropped() {
    let (mut client, client_keys, _s, _sk, _p) = client_and_server();
    // A wrapped message addressed to a third party cannot be opened by
    // this client; the drain loop drops it and carries on.
    let sender = generate();
    let third = generate();
    let third_pub = public_key_hex(&third);
    let mut other = NostrClientTransport::new(NostrClientTransportConfig::default());
    let req = other
        .prepare_request(&sender, &third_pub, "{}", true)
        .unwrap();
    let outer = wrap_message(&sender, &third_pub, &req.message).unwrap();
    let outcome = client.handle_event(&client_keys, &outer);
    assert!(matches!(outcome, InboundOutcome::Undecryptable));
    assert_eq!(client.pending_count(), 0);
}

#[test]
fn server_marks_sessions_initialized() {
    let (mut client, client_keys, mut server, server_keys, server_pub) = client_and_server();
    let client_pub = public_key_hex(&client_keys);
    let req = client
        .prepare_request(&client_keys, &server_pub, "{\"op\":\"initialize\"}", false)
        .unwrap();
    server.process_event(&server_keys, &req.message.event, 1).unwrap();
    assert!(!server.get_session(&client_pub).unwrap().is_initialized);
    assert!(server.mark_session_initialized(&client_pub));
    assert!(server.get_session(&client_pub).unwrap().is_initialized);
    assert!(!server.mark_session_initialized("unseen"));
}
