use rainbow_ai::chat::MessageType;
use rainbow_ai::envelope::{decode_envelope, Envelope, MessagePayload, OutboundFrame};
use rainbow_ai::hub::{Hub, RouteAction};

fn payload(from: &str, to: &str, content: &str, is_group: bool) -> MessagePayload {
    MessagePayload {
        from_user: from.to_string(),
        to_user: to.to_string(),
        content: content.to_string(),
        message_type: MessageType::Text,
        is_group,
        file_id: None,
        extends: None,
        at: None,
    }
}

fn chat_frames(frames: &[OutboundFrame]) -> Vec<&rainbow_ai::chat::Message> {
    frames
        .iter()
        .filter_map(|f| match f {
            OutboundFrame::Chat(m) => Some(m),
            _ => None,
        })
        .collect()
}

fn pong_count(frames: &[OutboundFrame]) -> usize {
    frames
        .iter()
        .filter(|f| matches!(f, OutboundFrame::Pong { .. }))
        .count()
}

/// A hub with the given connections accepted and bound, outboxes drained.
fn hub_with(bindings: &[(&str, &str)]) -> Hub {
    let mut hub = Hub::new();
    for (conn, user) in bindings {
        assert!(hub.accept(conn.to_string()));
        hub.handle_bind(conn, user);
        hub.take_outbox(conn);
    }
    hub
}

#[test]
fn accept_enqueues_init_once() {
    let mut hub = Hub::new();
    assert!(hub.accept("c1".to_string()));
    assert!(hub.contains_connection("c1"));
    let frames = hub.take_outbox("c1");
    assert_eq!(frames.len(), 1);
    match &frames[0] {
        OutboundFrame::Init { client_id } => assert_eq!(client_id, "c1"),
        _ => panic!("expected the init frame"),
    }
    // The same identifier cannot be registered twice.
    assert!(!hub.accept("c1".to_string()));
}

#[test]
fn register_returns_fresh_identifier() {
    let mut hub = Hub::new();
    let id = hub.register().expect("a fresh identifier collides with nothing");
    assert_eq!(id.chars().count(), 36);
    assert!(hub.contains_connection(&id));
    let frames = hub.take_outbox(&id);
    assert_eq!(frames.len(), 1);
    assert!(matches!(&frames[0], OutboundFrame::Init { client_id } if *client_id == id));
}

#[test]
fn teardown_clears_registry_and_sessions() {
    let mut hub = hub_with(&[("c1", "alice")]);
    assert!(hub.contains_connection("c1"));
    assert!(hub.is_bound("c1"));
    hub.teardown("c1");
    assert!(!hub.contains_connection("c1"));
    assert!(!hub.is_bound("c1"));
    assert!(hub.connections_for("alice").is_empty());
    // Tearing down an already-removed connection is a no-op.
    hub.teardown("c1");
    assert!(!hub.contains_connection("c1"));
}

#[test]
fn bind_same_user_twice_is_idempotent() {
    let mut hub = hub_with(&[("c1", "alice")]);
    hub.handle_bind("c1", "alice");
    let conns = hub.connections_for("alice");
    assert_eq!(conns.len(), 1);
    assert_eq!(conns[0], "c1");
}

#[test]
fn rebind_moves_connection_between_users() {
    let mut hub = hub_with(&[("c1", "alice")]);
    hub.handle_bind("c1", "bob");
    assert!(hub.connections_for("alice").is_empty());
    let conns = hub.connections_for("bob");
    assert_eq!(conns.len(), 1);
    assert_eq!(conns[0], "c1");
}

#[test]
fn multi_device_bind_keeps_both_connections() {
    let mut hub = hub_with(&[("c1", "alice"), ("c2", "alice")]);
    let mut conns = hub.connections_for("alice");
    conns.sort();
    assert_eq!(conns, vec!["c1".to_string(), "c2".to_string()]);
}

#[test]
fn direct_delivery_reaches_recipient_and_echoes_sender() {
    let mut hub = hub_with(&[("c1", "u1"), ("c2", "u2")]);
    let msg = hub
        .handle_chat("c1", payload("u1", "u2", "hi", false))
        .expect("a bound sender routes");
    assert_eq!(msg.chat_identify, "u1-u2");
    let action = hub.commit_route("c1", &msg, true);
    assert!(matches!(action, RouteAction::Delivered));

    let to_c2 = hub.take_outbox("c2");
    let received = chat_frames(&to_c2);
    assert_eq!(received.len(), 1);
    assert_eq!(received[0].content, "hi");
    assert_eq!(received[0].from_user, "u1");

    let to_c1 = hub.take_outbox("c1");
    let echoed = chat_frames(&to_c1);
    assert_eq!(echoed.len(), 1);
    assert_eq!(echoed[0].msg_id, msg.msg_id);
    assert!(!echoed[0].msg_id.is_empty());
}

#[test]
fn direct_delivery_reaches_every_device_of_recipient() {
    let mut hub = hub_with(&[("c1", "u1"), ("c2a", "u2"), ("c2b", "u2")]);
    let msg = hub.handle_chat("c1", payload("u1", "u2", "hi", false)).unwrap();
    hub.commit_route("c1", &msg, true);
    for conn in ["c2a", "c2b"] {
        let frames = hub.take_outbox(conn);
        assert_eq!(chat_frames(&frames).len(), 1, "one copy on {conn}");
    }
}

#[test]
fn group_fanout_delivers_one_copy_per_bound_connection() {
    let mut hub = hub_with(&[("c1", "u1"), ("c2a", "u2"), ("c2b", "u2"), ("c3", "u3")]);
    let msg = hub.handle_chat("c1", payload("u1", "g1", "all hands", true)).unwrap();
    assert_eq!(msg.chat_identify, "group-g1");
    let action = hub.commit_route("c1", &msg, true);
    let group_id = match action {
        RouteAction::NeedGroupMembers(g) => g,
        _ => panic!("a group message needs its membership"),
    };
    assert_eq!(group_id, "g1");
    // Membership from storage, with one member named twice.
    let members = vec![
        "u1".to_string(),
        "u2".to_string(),
        "u2".to_string(),
        "u3".to_string(),
        "offline_user".to_string(),
    ];
    hub.deliver_group("c1", &msg, &members);

    // Each bound connection of u2 and u3 receives exactly one copy.
    for conn in ["c2a", "c2b", "c3"] {
        let frames = hub.take_outbox(conn);
        let copies = chat_frames(&frames);
        assert_eq!(copies.len(), 1, "exactly one copy on {conn}");
        assert_eq!(copies[0].content, "all hands");
        assert_eq!(copies[0].from_user, "u1");
    }
    // The sender's connection holds its member copy and the echo.
    let frames = hub.take_outbox("c1");
    assert_eq!(chat_frames(&frames).len(), 2);
}

#[test]
fn group_fanout_skips_connections_outside_the_group() {
    let mut hub = hub_with(&[("c1", "u1"), ("c2", "u2"), ("c4", "outsider")]);
    let msg = hub.handle_chat("c1", payload("u1", "g1", "members only", true)).unwrap();
    hub.commit_route("c1", &msg, true);
    hub.deliver_group("c1", &msg, &vec!["u1".to_string(), "u2".to_string()]);
    assert!(hub.take_outbox("c4").is_empty());
    assert_eq!(chat_frames(&hub.take_outbox("c2")).len(), 1);
}

#[test]
fn failed_persistence_delivers_nothing() {
    let mut hub = hub_with(&[("c1", "u1"), ("c2", "u2")]);
    let msg = hub.handle_chat("c1", payload("u1", "u2", "lost", false)).unwrap();
    let action = hub.commit_route("c1", &msg, false);
    assert!(matches!(action, RouteAction::Aborted));
    assert!(hub.take_outbox("c2").is_empty());
    // The sender's echo is withheld too.
    assert!(hub.take_outbox("c1").is_empty());
}

#[test]
fn ping_yields_exactly_one_pong_on_that_connection() {
    let mut hub = hub_with(&[("c1", "u1"), ("c2", "u2")]);
    hub.handle_ping("c1");
    let frames = hub.take_outbox("c1");
    assert_eq!(frames.len(), 1);
    assert!(matches!(frames[0], OutboundFrame::Pong { bind_ack: false }));
    assert!(hub.take_outbox("c2").is_empty());
}

#[test]
fn unbound_sender_is_rejected_with_nothing_to_persist() {
    let mut hub = Hub::new();
    assert!(hub.accept("c1".to_string()));
    hub.take_outbox("c1");
    let r = hub.handle_chat("c1", payload("u1", "u2", "too early", false));
    assert!(r.is_none());
    assert!(hub.take_outbox("c1").is_empty());
}

#[test]
fn bind_acknowledges_with_the_multiport_pong() {
    let mut hub = Hub::new();
    assert!(hub.accept("c1".to_string()));
    hub.take_outbox("c1");
    hub.handle_bind("c1", "alice");
    let frames = hub.take_outbox("c1");
    assert_eq!(frames.len(), 1);
    assert!(matches!(frames[0], OutboundFrame::Pong { bind_ack: true }));
    assert!(hub.is_bound("c1"));
}

#[test]
fn bind_on_unknown_connection_is_ignored() {
    let mut hub = Hub::new();
    hub.handle_bind("ghost", "alice");
    assert!(!hub.is_bound("ghost"));
    assert!(hub.connections_for("alice").is_empty());
}

#[test]
fn send_to_vanished_connection_is_a_silent_no_op() {
    let mut hub = hub_with(&[("c1", "u1"), ("c2", "u2")]);
    hub.teardown("c2");
    let msg = hub.handle_chat("c1", payload("u1", "u2", "gone", false)).unwrap();
    let action = hub.commit_route("c1", &msg, true);
    assert!(matches!(action, RouteAction::Delivered));
    // Only the sender's echo exists; nothing was delivered elsewhere.
    assert_eq!(chat_frames(&hub.take_outbox("c1")).len(), 1);
    assert!(!hub.contains_connection("c2"));
}

#[test]
fn process_envelope_dispatches_by_discriminant() {
    let mut hub = Hub::new();
    assert!(hub.accept("c1".to_string()));
    hub.take_outbox("c1");

    assert!(hub.process_envelope("c1", decode_envelope(r#"{"type":"ping","data":{}}"#)).is_none());
    let frames = hub.take_outbox("c1");
    assert_eq!(pong_count(&frames), 1);

    assert!(hub
        .process_envelope("c1", decode_envelope(r#"{"type":"bindUid","data":{"token":"u9"}}"#))
        .is_none());
    hub.take_outbox("c1");
    assert!(hub.is_bound("c1"));
    assert_eq!(hub.connections_for("u9"), vec!["c1".to_string()]);

    let msg = hub
        .process_envelope(
            "c1",
            decode_envelope(
                r#"{"type":"message","data":{"from_user":"u9","to_user":"u9","content":"self","is_group":false}}"#,
            ),
        )
        .expect("a bound sender routes");
    assert_eq!(msg.content, "self");
    assert_eq!(msg.chat_identify, "u9-u9");

    assert!(hub.process_envelope("c1", Envelope::Ignore).is_none());
    assert!(hub.take_outbox("c1").is_empty());
}

#[test]
fn group_fanout_with_no_members_only_echoes() {
    let mut hub = hub_with(&[("c1", "u1"), ("c2", "u2")]);
    let msg = hub.handle_chat("c1", payload("u1", "g-empty", "anyone?", true)).unwrap();
    hub.commit_route("c1", &msg, true);
    hub.deliver_group("c1", &msg, &Vec::new());
    assert_eq!(chat_frames(&hub.take_outbox("c1")).len(), 1);
    assert!(hub.take_outbox("c2").is_empty());
}

#[test]
fn self_directed_message_arrives_as_copy_and_echo() {
    let mut hub = hub_with(&[("c1", "u1")]);
    let msg = hub.handle_chat("c1", payload("u1", "u1", "note to self", false)).unwrap();
    hub.commit_route("c1", &msg, true);
    // One copy as the recipient, one as the sender's own echo.
    assert_eq!(chat_frames(&hub.take_outbox("c1")).len(), 2);
}
