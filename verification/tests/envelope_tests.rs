use rainbow_ai::chat::{Message, MessageType};
use rainbow_ai::envelope::{decode_envelope, encode_frame, Envelope, OutboundFrame};

#[test]
fn decode_ping() {
    assert!(matches!(decode_envelope(r#"{"type":"ping","data":{}}"#), Envelope::Ping));
}

#[test]
fn decode_bind_uid_extracts_token() {
    match decode_envelope(r#"{"type":"bindUid","data":{"token":"user-7"}}"#) {
        Envelope::BindUid { token } => assert_eq!(token, "user-7"),
        _ => panic!("expected a bind request"),
    }
}

#[test]
fn decode_bind_uid_without_token_is_ignored() {
    assert!(matches!(
        decode_envelope(r#"{"type":"bindUid","data":{}}"#),
        Envelope::Ignore
    ));
    assert!(matches!(
        decode_envelope(r#"{"type":"bindUid","data":{"token":17}}"#),
        Envelope::Ignore
    ));
}

#[test]
fn decode_message_with_all_fields() {
    let text = r#"{"type":"message","data":{"from_user":"a","to_user":"b","content":"hello","type":"image","is_group":true,"file_id":"f1","extends":"x","at":"@b"}}"#;
    match decode_envelope(text) {
        Envelope::Chat(p) => {
            assert_eq!(p.from_user, "a");
            assert_eq!(p.to_user, "b");
            assert_eq!(p.content, "hello");
            assert_eq!(p.message_type, MessageType::Image);
            assert!(p.is_group);
            assert_eq!(p.file_id.as_deref(), Some("f1"));
            assert_eq!(p.extends.as_deref(), Some("x"));
            assert_eq!(p.at.as_deref(), Some("@b"));
        },
        _ => panic!("expected a chat payload"),
    }
}

#[test]
fn decode_message_defaults_to_text_and_empty_options() {
    let text = r#"{"type":"message","data":{"from_user":"a","to_user":"b","content":"hi","is_group":false}}"#;
    match decode_envelope(text) {
        Envelope::Chat(p) => {
            assert_eq!(p.message_type, MessageType::Text);
            assert!(p.file_id.is_none());
            assert!(p.extends.is_none());
            assert!(p.at.is_none());
        },
        _ => panic!("expected a chat payload"),
    }
}

#[test]
fn decode_message_with_unknown_tag_is_text() {
    let text = r#"{"type":"message","data":{"from_user":"a","to_user":"b","content":"hi","type":"hologram","is_group":false}}"#;
    match decode_envelope(text) {
        Envelope::Chat(p) => assert_eq!(p.message_type, MessageType::Text),
        _ => panic!("expected a chat payload"),
    }
}

#[test]
fn decode_message_missing_required_field_is_ignored() {
    let text = r#"{"type":"message","data":{"from_user":"a","to_user":"b","content":"hi"}}"#;
    assert!(matches!(decode_envelope(text), Envelope::Ignore));
}

#[test]
fn decode_unknown_discriminant_is_ignored() {
    assert!(matches!(
        decode_envelope(r#"{"type":"subscribe","data":{}}"#),
        Envelope::Ignore
    ));
}

#[test]
fn decode_invalid_json_is_ignored() {
    assert!(matches!(decode_envelope("{\"type\":"), Envelope::Ignore));
    assert!(matches!(decode_envelope(""), Envelope::Ignore));
    assert!(matches!(decode_envelope("[1,2,3]"), Envelope::Ignore));
}

#[test]
fn encode_pong_frames() {
    assert_eq!(
        encode_frame(&OutboundFrame::Pong { bind_ack: false }),
        r#"{"type":"pong","data":{}}"#
    );
    assert_eq!(
        encode_frame(&OutboundFrame::Pong { bind_ack: true }),
        r#"{"type":"pong","data":{"multiport":false}}"#
    );
}

#[test]
fn encode_init_frame() {
    assert_eq!(
        encode_frame(&OutboundFrame::Init { client_id: "abc-123".to_string() }),
        r#"{"type":"init","data":{"client_id":"abc-123"}}"#
    );
}

fn sample_message() -> Message {
    Message {
        id: "id1".to_string(),
        msg_id: "m1".to_string(),
        from_user: "alice".to_string(),
        to_user: "bob".to_string(),
        content: "hi".to_string(),
        message_type: MessageType::Text,
        is_group: false,
        is_read: false,
        is_last: true,
        chat_identify: "alice-bob".to_string(),
        file_id: None,
        extends: None,
        at: None,
        created_at: 1700000000,
        updated_at: 1700000000,
    }
}

#[test]
fn encode_chat_frame_lists_every_field_in_order() {
    let expected = r#"{"type":"message","data":{"id":"id1","msg_id":"m1","from_user":"alice","to_user":"bob","content":"hi","message_type":"Text","is_group":false,"is_read":false,"is_last":true,"chat_identify":"alice-bob","file_id":null,"extends":null,"at":null,"created_at":1700000000,"updated_at":1700000000}}"#;
    assert_eq!(encode_frame(&OutboundFrame::Chat(sample_message())), expected);
}

#[test]
fn encode_escapes_quotes_backslashes_and_controls() {
    let mut m = sample_message();
    m.content = "say \"hi\"\\\n\t\r\u{8}\u{c}\u{1}end".to_string();
    let encoded = encode_frame(&OutboundFrame::Chat(m));
    assert!(encoded.contains(r#""content":"say \"hi\"\\\n\t\r\b\f\u0001end""#));
}

#[test]
fn encode_keeps_unicode_text_as_is() {
    let mut m = sample_message();
    m.content = "你好 café".to_string();
    let encoded = encode_frame(&OutboundFrame::Chat(m));
    assert!(encoded.contains("\"content\":\"你好 café\""));
}

#[test]
fn encode_renders_options_and_negative_timestamps() {
    let mut m = sample_message();
    m.file_id = Some("f-9".to_string());
    m.created_at = -5;
    m.updated_at = 0;
    let encoded = encode_frame(&OutboundFrame::Chat(m));
    assert!(encoded.contains(r#""file_id":"f-9""#));
    assert!(encoded.contains(r#""created_at":-5"#));
    assert!(encoded.contains(r#""updated_at":0"#));
}

#[test]
fn encoded_chat_frame_round_trips_through_the_decoder() {
    let mut m = sample_message();
    m.message_type = MessageType::Voice;
    let encoded = encode_frame(&OutboundFrame::Chat(m));
    // The fan-out frame parses as a (server-to-client) message envelope.
    let value: serde_json::Value = serde_json::from_str(&encoded).unwrap();
    assert_eq!(value["type"], "message");
    assert_eq!(value["data"]["from_user"], "alice");
    assert_eq!(value["data"]["message_type"], "Voice");
    assert_eq!(value["data"]["created_at"], 1700000000i64);
}
