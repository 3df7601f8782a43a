use social_space::auth::{create_token, Claims, VerificationError};
use social_space::models::MessageResponse;
use social_space::protocol::WsMessage;
use social_space::registry::{Handle, Registry};
use social_space::session::{Outcome, Session};
use tokio::sync::mpsc::{unbounded_channel, UnboundedReceiver};

const SECRET: &str = "a secret for the tests";

fn connect(id: u64) -> (Session, UnboundedReceiver<String>) {
    let (sink, inbox) = unbounded_channel::<String>();
    (Session::new(Handle { id, sink }), inbox)
}

fn signed_in(id: u64, identity: &str, registry: &mut Registry) -> (Session, UnboundedReceiver<String>) {
    let (mut session, inbox) = connect(id);
    let claims = Claims { sub: identity.to_string(), exp: 2_000_000_000, iat: 1_700_000_000 };
    session.authenticate(Ok(claims), registry);
    (session, inbox)
}

fn take_all(inbox: &mut UnboundedReceiver<String>) -> Vec<String> {
    let mut frames = Vec::new();
    while let Ok(frame) = inbox.try_recv() {
        frames.push(frame);
    }
    frames
}

fn refusal(words: &str) -> Option<WsMessage> {
    Some(WsMessage::Error { message: words.to_string() })
}

fn assert_only_reply(outcome: &Outcome, reply: Option<WsMessage>) {
    assert_eq!(outcome.reply, reply);
    assert_eq!(outcome.store, None);
    assert_eq!(outcome.relayed, None);
    assert!(outcome.reached.is_empty());
}

fn chat(receiver: &str) -> WsMessage {
    WsMessage::ChatMessage {
        receiver_id: receiver.to_string(),
        encrypted_content: "3q2+7w==".to_string(),
        iv: "AAECAwQF".to_string(),
    }
}

#[test]
fn a_new_session_speaks_for_nobody() {
    let (session, _inbox) = connect(1);
    assert_eq!(session.identity(), None);
}

#[test]
fn valid_auth_connects_and_registers() {
    let mut registry = Registry::new();
    let (mut session, mut inbox) = connect(1);
    let token = create_token("alice", SECRET).unwrap();
    let outcome = session.receive(WsMessage::Auth { token }, SECRET, &mut registry);
    assert_only_reply(&outcome, Some(WsMessage::Connected { user_id: "alice".to_string() }));
    assert_eq!(session.identity(), Some("alice"));
    assert!(registry.is_present("alice"));
    assert_eq!(registry.deliver("alice", "ping"), vec![1]);
    assert_eq!(take_all(&mut inbox), vec!["ping".to_string()]);
}

#[test]
fn valid_auth_as_text() {
    let mut registry = Registry::new();
    let (mut session, _inbox) = connect(1);
    let token = create_token("alice", SECRET).unwrap();
    let text = WsMessage::Auth { token }.encode();
    let outcome = session.receive_text(&text, SECRET, &mut registry);
    assert_only_reply(&outcome, Some(WsMessage::Connected { user_id: "alice".to_string() }));
    assert_eq!(outcome.reply.unwrap().encode(), r#"{"type":"connected","user_id":"alice"}"#);
}

#[test]
fn invalid_auth_is_refused_and_changes_nothing() {
    let mut registry = Registry::new();
    let (mut session, _inbox) = connect(1);
    let outcome =
        session.receive(WsMessage::Auth { token: "garbage".to_string() }, SECRET, &mut registry);
    assert_only_reply(&outcome, refusal("Invalid token"));
    assert_eq!(session.identity(), None);
    assert!(!registry.is_present("alice"));
}

#[test]
fn auth_frame_under_another_secret_is_refused() {
    let mut registry = Registry::new();
    let (mut session, _inbox) = connect(1);
    let token = create_token("alice", "another secret").unwrap();
    let outcome = session.receive(WsMessage::Auth { token }, SECRET, &mut registry);
    assert_only_reply(&outcome, refusal("Invalid token"));
    assert_eq!(session.identity(), None);
    assert!(!registry.is_present("alice"));
}

#[test]
fn valid_auth_after_invalid_auth_succeeds() {
    let mut registry = Registry::new();
    let (mut session, _inbox) = connect(1);
    session.receive(WsMessage::Auth { token: "garbage".to_string() }, SECRET, &mut registry);
    let token = create_token("alice", SECRET).unwrap();
    let outcome = session.receive(WsMessage::Auth { token }, SECRET, &mut registry);
    assert_only_reply(&outcome, Some(WsMessage::Connected { user_id: "alice".to_string() }));
    assert_eq!(session.identity(), Some("alice"));
}

#[test]
fn verdict_of_the_verifier_is_taken_as_given() {
    let mut registry = Registry::new();
    let (mut session, _inbox) = connect(1);
    let refused = session.authenticate(Err(VerificationError::Refused), &mut registry);
    assert_only_reply(&refused, refusal("Invalid token"));
    let incomplete = session.authenticate(Err(VerificationError::IncompleteClaims), &mut registry);
    assert_only_reply(&incomplete, refusal("Invalid token"));
    assert_eq!(session.identity(), None);
}

#[test]
fn invalid_auth_keeps_an_authenticated_session() {
    let mut registry = Registry::new();
    let (mut session, _inbox) = signed_in(1, "alice", &mut registry);
    let outcome =
        session.receive(WsMessage::Auth { token: "garbage".to_string() }, SECRET, &mut registry);
    assert_only_reply(&outcome, refusal("Invalid token"));
    assert_eq!(session.identity(), Some("alice"));
    assert!(registry.is_present("alice"));
}

#[test]
fn authenticating_twice_registers_once() {
    let mut registry = Registry::new();
    let (mut session, mut inbox) = signed_in(1, "alice", &mut registry);
    let token = create_token("alice", SECRET).unwrap();
    let outcome = session.receive(WsMessage::Auth { token }, SECRET, &mut registry);
    assert_only_reply(&outcome, Some(WsMessage::Connected { user_id: "alice".to_string() }));
    assert_eq!(registry.deliver("alice", "ping"), vec![1]);
    assert_eq!(take_all(&mut inbox), vec!["ping".to_string()]);
}

#[test]
fn authenticating_as_another_identity_moves_the_handle() {
    let mut registry = Registry::new();
    let (mut session, mut inbox) = signed_in(1, "alice", &mut registry);
    let token = create_token("bob", SECRET).unwrap();
    session.receive(WsMessage::Auth { token }, SECRET, &mut registry);
    assert_eq!(session.identity(), Some("bob"));
    assert!(!registry.is_present("alice"));
    assert_eq!(registry.deliver("bob", "ping"), vec![1]);
    assert_eq!(take_all(&mut inbox), vec!["ping".to_string()]);
}

#[test]
fn unauthenticated_chat_is_refused() {
    let mut registry = Registry::new();
    let (_bob, mut bob_inbox) = signed_in(2, "bob", &mut registry);
    let (mut session, _inbox) = connect(1);
    let outcome = session.receive(chat("bob"), SECRET, &mut registry);
    assert_only_reply(&outcome, refusal("Not authenticated"));
    assert!(take_all(&mut bob_inbox).is_empty());
    assert_eq!(session.identity(), None);
}

#[test]
fn unauthenticated_typing_is_refused() {
    let mut registry = Registry::new();
    let (_bob, mut bob_inbox) = signed_in(2, "bob", &mut registry);
    let (mut session, _inbox) = connect(1);
    let outcome =
        session.receive(WsMessage::Typing { receiver_id: "bob".to_string() }, SECRET, &mut registry);
    assert_only_reply(&outcome, refusal("Not authenticated"));
    assert!(take_all(&mut bob_inbox).is_empty());
    let direct = session.typing("bob", &registry);
    assert_only_reply(&direct, refusal("Not authenticated"));
    assert!(take_all(&mut bob_inbox).is_empty());
}

#[test]
fn unauthenticated_relay_is_refused() {
    let mut registry = Registry::new();
    let (_bob, mut bob_inbox) = signed_in(2, "bob", &mut registry);
    let (session, _inbox) = connect(1);
    let message = MessageResponse {
        id: "m".to_string(),
        sender_id: "mallory".to_string(),
        receiver_id: "bob".to_string(),
        encrypted_content: "ct".to_string(),
        iv: "iv".to_string(),
        created_at: "now".to_string(),
        is_read: false,
    };
    let outcome = session.relay(message, true, &registry);
    assert_only_reply(&outcome, refusal("Not authenticated"));
    assert!(take_all(&mut bob_inbox).is_empty());
}

#[test]
fn chat_is_stored_then_relayed_to_every_handle_of_the_receiver() {
    let mut registry = Registry::new();
    let (mut alice, mut alice_inbox) = signed_in(1, "alice", &mut registry);
    let (_bob_phone, mut phone_inbox) = signed_in(2, "bob", &mut registry);
    let (_bob_laptop, mut laptop_inbox) = signed_in(3, "bob", &mut registry);
    let (_carol, mut carol_inbox) = signed_in(4, "carol", &mut registry);

    let asked = alice.receive(chat("bob"), SECRET, &mut registry);
    assert_eq!(asked.reply, None);
    assert_eq!(asked.relayed, None);
    assert!(asked.reached.is_empty());
    let message = asked.store.unwrap();
    assert_eq!(message.sender_id, "alice");
    assert_eq!(message.receiver_id, "bob");
    assert_eq!(message.encrypted_content, "3q2+7w==");
    assert_eq!(message.iv, "AAECAwQF");
    assert!(!message.is_read);
    assert_eq!(message.id.len(), 36);
    assert!(!message.created_at.is_empty());
    assert!(take_all(&mut phone_inbox).is_empty());

    let done = alice.relay(message.duplicate(), true, &registry);
    let confirmation = WsMessage::MessageReceived { message };
    assert_eq!(done.reply, Some(confirmation.clone()));
    assert_eq!(done.relayed, Some(confirmation.clone()));
    assert_eq!(done.store, None);
    assert_eq!(done.reached, vec![2, 3]);
    assert_eq!(take_all(&mut phone_inbox), vec![confirmation.encode()]);
    assert_eq!(take_all(&mut laptop_inbox), vec![confirmation.encode()]);
    assert!(take_all(&mut carol_inbox).is_empty());
    assert!(take_all(&mut alice_inbox).is_empty());
}

#[test]
fn chat_to_an_absent_receiver_is_confirmed_and_reaches_nobody() {
    let mut registry = Registry::new();
    let (mut alice, mut alice_inbox) = signed_in(1, "alice", &mut registry);
    let asked = alice.receive(chat("bob"), SECRET, &mut registry);
    let message = asked.store.unwrap();
    let done = alice.relay(message.duplicate(), true, &registry);
    assert_eq!(done.reply, Some(WsMessage::MessageReceived { message }));
    assert!(done.reached.is_empty());
    assert!(take_all(&mut alice_inbox).is_empty());
}

#[test]
fn chat_that_was_not_stored_is_not_relayed() {
    let mut registry = Registry::new();
    let (mut alice, _alice_inbox) = signed_in(1, "alice", &mut registry);
    let (_bob, mut bob_inbox) = signed_in(2, "bob", &mut registry);
    let asked = alice.receive(chat("bob"), SECRET, &mut registry);
    let done = alice.relay(asked.store.unwrap(), false, &registry);
    assert_only_reply(&done, refusal("Failed to send message"));
    assert!(take_all(&mut bob_inbox).is_empty());
}

#[test]
fn chat_to_oneself_reaches_the_own_handle_and_is_confirmed() {
    let mut registry = Registry::new();
    let (mut alice, mut alice_inbox) = signed_in(1, "alice", &mut registry);
    let asked = alice.receive(chat("alice"), SECRET, &mut registry);
    let message = asked.store.unwrap();
    let done = alice.relay(message.duplicate(), true, &registry);
    let confirmation = WsMessage::MessageReceived { message };
    assert_eq!(done.reached, vec![1]);
    assert_eq!(done.reply, Some(confirmation.clone()));
    assert_eq!(take_all(&mut alice_inbox), vec![confirmation.encode()]);
}

#[test]
fn compose_takes_the_id_and_the_time_it_is_given() {
    let mut registry = Registry::new();
    let (alice, _inbox) = signed_in(1, "alice", &mut registry);
    let outcome = alice.compose(
        "bob".to_string(),
        "ct".to_string(),
        "iv".to_string(),
        "id-1".to_string(),
        "2024-05-01T10:00:00+00:00".to_string(),
    );
    assert_eq!(
        outcome.store,
        Some(MessageResponse {
            id: "id-1".to_string(),
            sender_id: "alice".to_string(),
            receiver_id: "bob".to_string(),
            encrypted_content: "ct".to_string(),
            iv: "iv".to_string(),
            created_at: "2024-05-01T10:00:00+00:00".to_string(),
            is_read: false,
        })
    );
    assert_eq!(outcome.reply, None);
}

#[test]
fn two_chats_get_different_ids() {
    let mut registry = Registry::new();
    let (mut alice, _inbox) = signed_in(1, "alice", &mut registry);
    let first = alice.receive(chat("bob"), SECRET, &mut registry).store.unwrap();
    let second = alice.receive(chat("bob"), SECRET, &mut registry).store.unwrap();
    assert_ne!(first.id, second.id);
}

#[test]
fn typing_reaches_the_receiver_and_stores_nothing() {
    let mut registry = Registry::new();
    let (mut alice, mut alice_inbox) = signed_in(1, "alice", &mut registry);
    let (_bob_phone, mut phone_inbox) = signed_in(2, "bob", &mut registry);
    let (_bob_laptop, mut laptop_inbox) = signed_in(3, "bob", &mut registry);
    let outcome =
        alice.receive(WsMessage::Typing { receiver_id: "bob".to_string() }, SECRET, &mut registry);
    let indicator = WsMessage::TypingIndicator { sender_id: "alice".to_string() };
    assert_eq!(outcome.reply, None);
    assert_eq!(outcome.store, None);
    assert_eq!(outcome.relayed, Some(indicator.clone()));
    assert_eq!(outcome.reached, vec![2, 3]);
    assert_eq!(take_all(&mut phone_inbox), vec![r#"{"type":"typing_indicator","sender_id":"alice"}"#]);
    assert_eq!(take_all(&mut laptop_inbox), vec![indicator.encode()]);
    assert!(take_all(&mut alice_inbox).is_empty());
}

#[test]
fn typing_to_an_absent_receiver_does_nothing() {
    let mut registry = Registry::new();
    let (mut alice, mut alice_inbox) = signed_in(1, "alice", &mut registry);
    let outcome =
        alice.receive(WsMessage::Typing { receiver_id: "bob".to_string() }, SECRET, &mut registry);
    assert_eq!(outcome.reply, None);
    assert_eq!(outcome.store, None);
    assert!(outcome.reached.is_empty());
    assert!(take_all(&mut alice_inbox).is_empty());
}

#[test]
fn server_frames_from_a_client_are_passed_over() {
    let mut registry = Registry::new();
    let (mut alice, _inbox) = signed_in(1, "alice", &mut registry);
    let (_bob, mut bob_inbox) = signed_in(2, "bob", &mut registry);
    for frame in [
        WsMessage::Connected { user_id: "bob".to_string() },
        WsMessage::Error { message: "x".to_string() },
        WsMessage::TypingIndicator { sender_id: "bob".to_string() },
    ] {
        let outcome = alice.receive(frame, SECRET, &mut registry);
        assert_only_reply(&outcome, None);
    }
    assert_eq!(alice.identity(), Some("alice"));
    assert!(take_all(&mut bob_inbox).is_empty());
}

#[test]
fn text_that_holds_no_frame_is_passed_over() {
    let mut registry = Registry::new();
    let (mut session, _inbox) = connect(1);
    for text in ["", "not json", "{}", r#"{"type":"shout"}"#, r#"{"type":"auth"}"#, "[1,2]"] {
        let outcome = session.receive_text(text, SECRET, &mut registry);
        assert_only_reply(&outcome, None);
    }
    assert_eq!(session.identity(), None);
}

#[test]
fn text_frames_are_handled_like_frames() {
    let mut registry = Registry::new();
    let (mut alice, _alice_inbox) = signed_in(1, "alice", &mut registry);
    let (_bob, mut bob_inbox) = signed_in(2, "bob", &mut registry);
    let typing = alice.receive_text(r#"{"type":"typing","receiver_id":"bob"}"#, SECRET, &mut registry);
    assert_eq!(typing.reached, vec![2]);
    assert_eq!(take_all(&mut bob_inbox).len(), 1);
    let asked = alice.receive_text(
        r#"{"type":"message","receiver_id":"bob","encrypted_content":"ct","iv":"iv"}"#,
        SECRET,
        &mut registry,
    );
    let message = asked.store.unwrap();
    assert_eq!(message.sender_id, "alice");
    assert_eq!(message.receiver_id, "bob");
    assert_eq!(message.encrypted_content, "ct");
}

#[test]
fn close_removes_the_entry_of_the_identity() {
    let mut registry = Registry::new();
    let (alice, mut alice_inbox) = signed_in(1, "alice", &mut registry);
    let (mut bob, _bob_inbox) = signed_in(2, "bob", &mut registry);
    alice.close(&mut registry);
    assert!(!registry.is_present("alice"));
    assert!(registry.is_present("bob"));
    let typing =
        bob.receive(WsMessage::Typing { receiver_id: "alice".to_string() }, SECRET, &mut registry);
    assert!(typing.reached.is_empty());
    assert!(take_all(&mut alice_inbox).is_empty());
}

#[test]
fn close_of_one_connection_removes_all_handles_of_its_identity() {
    let mut registry = Registry::new();
    let (phone, _phone_inbox) = signed_in(1, "alice", &mut registry);
    let (_laptop, mut laptop_inbox) = signed_in(2, "alice", &mut registry);
    phone.close(&mut registry);
    assert!(!registry.is_present("alice"));
    assert_eq!(registry.deliver("alice", "ping"), Vec::<u64>::new());
    assert!(take_all(&mut laptop_inbox).is_empty());
}

#[test]
fn close_of_an_unauthenticated_session_changes_nothing() {
    let mut registry = Registry::new();
    let (_alice, _inbox) = signed_in(1, "alice", &mut registry);
    let (stranger, _stranger_inbox) = connect(2);
    stranger.close(&mut registry);
    assert!(registry.is_present("alice"));
}

#[test]
fn message_of_another_sender_is_not_relayed() {
    let mut registry = Registry::new();
    let (alice, _alice_inbox) = signed_in(1, "alice", &mut registry);
    let (_bob, mut bob_inbox) = signed_in(2, "bob", &mut registry);
    let forged = MessageResponse {
        id: "m".to_string(),
        sender_id: "carol".to_string(),
        receiver_id: "bob".to_string(),
        encrypted_content: "ct".to_string(),
        iv: "iv".to_string(),
        created_at: "now".to_string(),
        is_read: false,
    };
    let outcome = alice.relay(forged, true, &registry);
    assert_only_reply(&outcome, refusal("Failed to send message"));
    assert!(take_all(&mut bob_inbox).is_empty());
}

#[test]
fn auth_frame_authenticates_as_the_sub_of_its_token() {
    let mut registry = Registry::new();
    let (mut session, _inbox) = connect(1);
    let claims = Claims { sub: "dora".to_string(), exp: 4_000_000_000, iat: 1_700_000_000 };
    let token = claims.sign(SECRET).unwrap();
    let outcome = session.receive(WsMessage::Auth { token }, SECRET, &mut registry);
    assert_only_reply(&outcome, Some(WsMessage::Connected { user_id: "dora".to_string() }));
    assert_eq!(session.identity(), Some("dora"));
    assert!(registry.is_present("dora"));
    assert!(!registry.is_present("admin"));
}

#[test]
fn the_registry_keeps_the_sink_that_was_handed_in() {
    let mut registry = Registry::new();
    let (first, mut first_inbox) = connect(1);
    let (second, mut second_inbox) = connect(2);
    drop(first);
    drop(second);
    let (sink_a, mut inbox_a) = unbounded_channel::<String>();
    let (sink_b, mut inbox_b) = unbounded_channel::<String>();
    registry.register("alice", Handle { id: 1, sink: sink_a });
    registry.register("bob", Handle { id: 2, sink: sink_b });
    registry.deliver("alice", "for one");
    registry.deliver("bob", "for two");
    assert_eq!(take_all(&mut inbox_a), vec!["for one".to_string()]);
    assert_eq!(take_all(&mut inbox_b), vec!["for two".to_string()]);
    assert!(take_all(&mut first_inbox).is_empty());
    assert!(take_all(&mut second_inbox).is_empty());
}
