use social_space::models::MessageResponse;
use social_space::protocol::WsMessage;

fn sample_message() -> MessageResponse {
    MessageResponse {
        id: "m-1".to_string(),
        sender_id: "alice".to_string(),
        receiver_id: "bob".to_string(),
        encrypted_content: "3q2+7w==".to_string(),
        iv: "AAECAwQF".to_string(),
        created_at: "2024-05-01T10:00:00+00:00".to_string(),
        is_read: false,
    }
}

fn every_kind() -> Vec<WsMessage> {
    vec![
        WsMessage::Auth { token: "a.b.c".to_string() },
        WsMessage::ChatMessage {
            receiver_id: "bob".to_string(),
            encrypted_content: "3q2+7w==".to_string(),
            iv: "AAECAwQF".to_string(),
        },
        WsMessage::MessageReceived { message: sample_message() },
        WsMessage::Typing { receiver_id: "bob".to_string() },
        WsMessage::TypingIndicator { sender_id: "alice".to_string() },
        WsMessage::Error { message: "Invalid token".to_string() },
        WsMessage::Connected { user_id: "alice".to_string() },
    ]
}

#[test]
fn auth_frame_is_written_tag_first() {
    let frame = WsMessage::Auth { token: "a.b.c".to_string() };
    assert_eq!(frame.encode(), r#"{"type":"auth","token":"a.b.c"}"#);
}

#[test]
fn chat_frame_is_written_with_its_three_fields() {
    let frame = WsMessage::ChatMessage {
        receiver_id: "bob".to_string(),
        encrypted_content: "3q2+7w==".to_string(),
        iv: "AAECAwQF".to_string(),
    };
    assert_eq!(
        frame.encode(),
        r#"{"type":"message","receiver_id":"bob","encrypted_content":"3q2+7w==","iv":"AAECAwQF"}"#
    );
}

#[test]
fn relayed_message_is_written_as_a_nested_object() {
    let frame = WsMessage::MessageReceived { message: sample_message() };
    assert_eq!(
        frame.encode(),
        concat_all(&[
            r#"{"type":"message_received","message":{"id":"m-1","sender_id":"alice","#,
            r#""receiver_id":"bob","encrypted_content":"3q2+7w==","iv":"AAECAwQF","#,
            r#""created_at":"2024-05-01T10:00:00+00:00","is_read":false}}"#,
        ])
    );
}

fn concat_all(parts: &[&str]) -> String {
    let mut whole = String::new();
    for part in parts {
        whole.push_str(part);
    }
    whole
}

#[test]
fn server_frames_are_written_with_their_tags() {
    assert_eq!(
        WsMessage::Typing { receiver_id: "bob".to_string() }.encode(),
        r#"{"type":"typing","receiver_id":"bob"}"#
    );
    assert_eq!(
        WsMessage::TypingIndicator { sender_id: "alice".to_string() }.encode(),
        r#"{"type":"typing_indicator","sender_id":"alice"}"#
    );
    assert_eq!(
        WsMessage::Error { message: "Not authenticated".to_string() }.encode(),
        r#"{"type":"error","message":"Not authenticated"}"#
    );
    assert_eq!(
        WsMessage::Connected { user_id: "alice".to_string() }.encode(),
        r#"{"type":"connected","user_id":"alice"}"#
    );
}

#[test]
fn tags_name_the_kinds() {
    let tags: Vec<&str> = every_kind().iter().map(|frame| frame.tag()).collect();
    assert_eq!(
        tags,
        vec![
            "auth",
            "message",
            "message_received",
            "typing",
            "typing_indicator",
            "error",
            "connected"
        ]
    );
}

#[test]
fn decode_reads_every_kind() {
    assert_eq!(
        WsMessage::decode(r#"{"type":"auth","token":"a.b.c"}"#),
        Some(WsMessage::Auth { token: "a.b.c".to_string() })
    );
    assert_eq!(
        WsMessage::decode(r#"{"type":"typing","receiver_id":"bob"}"#),
        Some(WsMessage::Typing { receiver_id: "bob".to_string() })
    );
    assert_eq!(
        WsMessage::decode(
            r#"{"type":"message","receiver_id":"bob","encrypted_content":"ct","iv":"iv"}"#
        ),
        Some(WsMessage::ChatMessage {
            receiver_id: "bob".to_string(),
            encrypted_content: "ct".to_string(),
            iv: "iv".to_string(),
        })
    );
}

#[test]
fn round_trip_of_every_kind() {
    for frame in every_kind() {
        let text = frame.encode();
        assert_eq!(WsMessage::decode(&text), Some(frame));
    }
}

#[test]
fn round_trip_through_documents() {
    for frame in every_kind() {
        let doc = frame.to_json();
        assert_eq!(WsMessage::from_json(&doc), Some(frame));
    }
}

#[test]
fn reencoding_a_decoded_text_gives_an_equivalent_frame() {
    let text = r#" { "token" : "t", "extra": [1, 2.5, null], "type" : "auth" } "#;
    let first = WsMessage::decode(text).unwrap();
    let again = WsMessage::decode(&first.encode()).unwrap();
    assert_eq!(first, again);
    assert_eq!(first.encode(), r#"{"type":"auth","token":"t"}"#);
}

#[test]
fn round_trip_keeps_awkward_text() {
    let awkward = "quote \" backslash \\ newline \n tab \t nul \u{0} snowman \u{2603} astral \u{1F600}";
    let frame = WsMessage::Error { message: awkward.to_string() };
    assert_eq!(WsMessage::decode(&frame.encode()), Some(frame));
    let empty = WsMessage::Auth { token: String::new() };
    assert_eq!(WsMessage::decode(&empty.encode()), Some(empty));
}

#[test]
fn unknown_members_are_passed_over() {
    assert_eq!(
        WsMessage::decode(r#"{"type":"typing","receiver_id":"bob","since":12,"deep":{"a":[{}]}}"#),
        Some(WsMessage::Typing { receiver_id: "bob".to_string() })
    );
}

#[test]
fn members_may_come_in_any_order() {
    assert_eq!(
        WsMessage::decode(r#"{"token":"t","type":"auth"}"#),
        Some(WsMessage::Auth { token: "t".to_string() })
    );
}

#[test]
fn unknown_tag_is_no_frame() {
    assert_eq!(WsMessage::decode(r#"{"type":"shout","text":"hi"}"#), None);
    assert_eq!(WsMessage::decode(r#"{"type":"Auth","token":"t"}"#), None);
    assert_eq!(WsMessage::decode(r#"{"type":"","token":"t"}"#), None);
}

#[test]
fn missing_tag_is_no_frame() {
    assert_eq!(WsMessage::decode(r#"{"token":"t"}"#), None);
    assert_eq!(WsMessage::decode(r#"{}"#), None);
}

#[test]
fn missing_or_mistyped_field_is_no_frame() {
    assert_eq!(WsMessage::decode(r#"{"type":"auth"}"#), None);
    assert_eq!(WsMessage::decode(r#"{"type":"auth","token":5}"#), None);
    assert_eq!(WsMessage::decode(r#"{"type":"auth","token":null}"#), None);
    assert_eq!(WsMessage::decode(r#"{"type":"message","receiver_id":"bob","iv":"iv"}"#), None);
    assert_eq!(WsMessage::decode(r#"{"type":"typing","receiver_id":["bob"]}"#), None);
    assert_eq!(WsMessage::decode(r#"{"type":7,"token":"t"}"#), None);
}

#[test]
fn malformed_text_is_no_frame() {
    assert_eq!(WsMessage::decode(""), None);
    assert_eq!(WsMessage::decode("not json"), None);
    assert_eq!(WsMessage::decode(r#"{"type":"auth","token":"t""#), None);
    assert_eq!(WsMessage::decode(r#"{"type":"auth","token":"t"} trailing"#), None);
    assert_eq!(WsMessage::decode(r#""auth""#), None);
    assert_eq!(WsMessage::decode("[]"), None);
    assert_eq!(WsMessage::decode("null"), None);
}

#[test]
fn relayed_message_needs_all_seven_fields() {
    let whole = concat_all(&[
        r#"{"type":"message_received","message":{"id":"m-1","sender_id":"alice","#,
        r#""receiver_id":"bob","encrypted_content":"ct","iv":"iv","#,
        r#""created_at":"now","is_read":true}}"#,
    ]);
    assert_eq!(
        WsMessage::decode(&whole),
        Some(WsMessage::MessageReceived {
            message: MessageResponse {
                id: "m-1".to_string(),
                sender_id: "alice".to_string(),
                receiver_id: "bob".to_string(),
                encrypted_content: "ct".to_string(),
                iv: "iv".to_string(),
                created_at: "now".to_string(),
                is_read: true,
            }
        })
    );
    let without_flag = concat_all(&[
        r#"{"type":"message_received","message":{"id":"m-1","sender_id":"alice","#,
        r#""receiver_id":"bob","encrypted_content":"ct","iv":"iv","created_at":"now"}}"#,
    ]);
    assert_eq!(WsMessage::decode(&without_flag), None);
    assert_eq!(WsMessage::decode(r#"{"type":"message_received","message":"m-1"}"#), None);
    assert_eq!(WsMessage::decode(r#"{"type":"message_received"}"#), None);
}

#[test]
fn message_round_trip_through_documents() {
    let message = sample_message();
    assert_eq!(MessageResponse::from_json(&message.to_json()), Some(message));
}

#[test]
fn duplicate_copies_every_field() {
    let message = sample_message();
    assert_eq!(message.duplicate(), message);
}
