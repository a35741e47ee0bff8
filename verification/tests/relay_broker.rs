use ada_remote::registry::{RelayRegistry, RelaySession};
use ada_remote::relay::{handle_incoming, handle_readonly_message, handle_signaling_message};
use ada_remote::signaling::SignalingMessage;

fn register(registry: &mut RelayRegistry, session_id: &str, from: u64) -> SignalingMessage {
    let (reply, forward) = handle_signaling_message(
        registry,
        SignalingMessage::Register { session_id: session_id.to_string() },
        from,
    );
    assert!(forward.is_none());
    reply
}

fn join(registry: &mut RelayRegistry, session_id: &str, from: u64) -> SignalingMessage {
    let (reply, forward) = handle_signaling_message(
        registry,
        SignalingMessage::Join { session_id: session_id.to_string() },
        from,
    );
    assert!(forward.is_none());
    reply
}

#[test]
fn test_register_then_join_succeeds() {
    let mut registry = RelayRegistry::new();

    let reply = register(&mut registry, "123456789", 1);
    match reply {
        SignalingMessage::Success { message } => {
            assert_eq!(message, "Session 123456789 registered");
        }
        other => panic!("expected success, got {:?}", other),
    }

    let reply = join(&mut registry, "123456789", 2);
    match reply {
        SignalingMessage::Success { message } => {
            assert_eq!(message, "Joined session 123456789");
        }
        other => panic!("expected success, got {:?}", other),
    }

    // A third connection joining the same id still succeeds: no client
    // exclusivity is enforced.
    let reply = join(&mut registry, "123456789", 3);
    assert!(matches!(reply, SignalingMessage::Success { .. }));
}

#[test]
fn test_join_unknown_session_fails() {
    let mut registry = RelayRegistry::new();
    let reply = join(&mut registry, "999999999", 7);
    match reply {
        SignalingMessage::Error { message } => {
            assert_eq!(message, "Session not found");
        }
        other => panic!("expected error, got {:?}", other),
    }
}

#[test]
fn test_register_invalid_identifier_fails() {
    let mut registry = RelayRegistry::new();
    let reply = register(&mut registry, "not-an-id!", 1);
    match reply {
        SignalingMessage::Error { message } => {
            assert_eq!(message, "Invalid session ID");
        }
        other => panic!("expected error, got {:?}", other),
    }
    let reply = join(&mut registry, "not-an-id!", 2);
    assert!(matches!(reply, SignalingMessage::Error { .. }));
}

#[test]
fn test_malformed_input_keeps_connection_usable() {
    let mut registry = RelayRegistry::new();
    let (reply, forward) = handle_incoming(&mut registry, None, 4);
    assert!(forward.is_none());
    match reply {
        SignalingMessage::Error { message } => {
            assert_eq!(message, "Invalid message format");
        }
        other => panic!("expected error, got {:?}", other),
    }
    // The same connection can still register afterwards.
    let reply = register(&mut registry, "123456789", 4);
    assert!(matches!(reply, SignalingMessage::Success { .. }));
}

#[test]
fn test_two_registrations_both_kept() {
    let mut registry = RelayRegistry::new();
    assert!(matches!(register(&mut registry, "111111111", 1), SignalingMessage::Success { .. }));
    assert!(matches!(register(&mut registry, "222222222", 2), SignalingMessage::Success { .. }));

    let first = registry.lookup(&"111111111".to_string()).expect("first registration kept");
    assert_eq!(first.host_handle, Some(1));
    assert_eq!(first.client_handle, None);

    let second = registry.lookup(&"222222222".to_string()).expect("second registration kept");
    assert_eq!(second.host_handle, Some(2));
}

#[test]
fn test_reregistration_overwrites() {
    let mut registry = RelayRegistry::new();
    register(&mut registry, "123456789", 1);
    register(&mut registry, "123456789", 5);
    let record = registry.lookup(&"123456789".to_string()).unwrap();
    assert_eq!(record.host_handle, Some(5));
    assert_eq!(record.client_handle, None);
}

#[test]
fn test_registry_direct_operations() {
    let mut registry = RelayRegistry::new();
    assert!(registry.lookup(&"123456789".to_string()).is_none());
    registry.register(
        "123456789".to_string(),
        RelaySession { session_id: 123_456_789, host_handle: Some(10), client_handle: None },
    );
    assert!(registry.join(&"123456789".to_string(), 11));
    assert!(!registry.join(&"987654321".to_string(), 12));
    let record = registry.lookup(&"123456789".to_string()).unwrap();
    assert_eq!(record.session_id, 123_456_789);
    assert_eq!(record.host_handle, Some(10));
    assert_eq!(record.client_handle, Some(11));
}

#[test]
fn test_offer_forwarded_to_counterpart() {
    let mut registry = RelayRegistry::new();
    register(&mut registry, "123456789", 1);
    join(&mut registry, "123456789", 2);

    // From the client, the payload goes to the host.
    let (reply, forward) = handle_signaling_message(
        &mut registry,
        SignalingMessage::Offer {
            session_id: "123456789".to_string(),
            sdp: "sdp-blob".to_string(),
        },
        2,
    );
    match reply {
        SignalingMessage::Success { message } => assert_eq!(message, "Offer received"),
        other => panic!("expected success, got {:?}", other),
    }
    let forward = forward.expect("offer must be forwarded");
    assert_eq!(forward.to, 1);
    match forward.message {
        SignalingMessage::Offer { session_id, sdp } => {
            assert_eq!(session_id, "123456789");
            assert_eq!(sdp, "sdp-blob");
        }
        other => panic!("expected forwarded offer, got {:?}", other),
    }

    // From the host, the payload goes to the client.
    let (_, forward) = handle_signaling_message(
        &mut registry,
        SignalingMessage::Answer {
            session_id: "123456789".to_string(),
            sdp: "answer-blob".to_string(),
        },
        1,
    );
    let forward = forward.expect("answer must be forwarded");
    assert_eq!(forward.to, 2);
    assert!(matches!(forward.message, SignalingMessage::Answer { .. }));
}

#[test]
fn test_ice_candidate_relay() {
    let mut registry = RelayRegistry::new();
    register(&mut registry, "123456789", 1);

    // Before a client joins there is no counterpart for the host's
    // candidate; it is acknowledged and dropped.
    let (reply, forward) = handle_signaling_message(
        &mut registry,
        SignalingMessage::IceCandidate {
            session_id: "123456789".to_string(),
            candidate: "candidate-1".to_string(),
        },
        1,
    );
    assert!(matches!(reply, SignalingMessage::Success { .. }));
    assert!(forward.is_none());

    join(&mut registry, "123456789", 2);
    let (reply, forward) = handle_signaling_message(
        &mut registry,
        SignalingMessage::IceCandidate {
            session_id: "123456789".to_string(),
            candidate: "candidate-2".to_string(),
        },
        1,
    );
    match reply {
        SignalingMessage::Success { message } => assert_eq!(message, "ICE candidate received"),
        other => panic!("expected success, got {:?}", other),
    }
    assert_eq!(forward.expect("candidate must be forwarded").to, 2);
}

#[test]
fn test_payload_for_unknown_session_fails() {
    let mut registry = RelayRegistry::new();
    let (reply, forward) = handle_signaling_message(
        &mut registry,
        SignalingMessage::Offer {
            session_id: "999999999".to_string(),
            sdp: "sdp".to_string(),
        },
        1,
    );
    assert!(forward.is_none());
    match reply {
        SignalingMessage::Error { message } => assert_eq!(message, "Session not found"),
        other => panic!("expected error, got {:?}", other),
    }
}

#[test]
fn test_reply_messages_rejected() {
    let mut registry = RelayRegistry::new();
    let (reply, forward) = handle_signaling_message(
        &mut registry,
        SignalingMessage::Success { message: "spoofed".to_string() },
        1,
    );
    assert!(forward.is_none());
    match reply {
        SignalingMessage::Error { message } => assert_eq!(message, "Invalid message type"),
        other => panic!("expected error, got {:?}", other),
    }
}

#[test]
fn test_readonly_payload_routing() {
    let mut registry = RelayRegistry::new();
    register(&mut registry, "123456789", 1);
    join(&mut registry, "123456789", 2);

    // The read-only entry point routes a payload without touching the table.
    let (reply, forward) = handle_readonly_message(
        &registry,
        SignalingMessage::Offer {
            session_id: "123456789".to_string(),
            sdp: "read-path-sdp".to_string(),
        },
        1,
    );
    assert!(matches!(reply, SignalingMessage::Success { .. }));
    let forward = forward.expect("offer must be forwarded");
    assert_eq!(forward.to, 2);
    match forward.message {
        SignalingMessage::Offer { sdp, .. } => assert_eq!(sdp, "read-path-sdp"),
        other => panic!("expected forwarded offer, got {:?}", other),
    }

    let record = registry.lookup(&"123456789".to_string()).unwrap();
    assert_eq!(record.host_handle, Some(1));
    assert_eq!(record.client_handle, Some(2));
}
