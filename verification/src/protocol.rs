//! The relay protocol: the tagged frames that travel over a connection, and
//! their JSON form.
//!
//! A frame is written as one JSON object. Its member `type` names the kind
//! of frame; the other members are the fields of that kind, each under its
//! own name. A chat message inside a frame is an object of its fields.
//! Reading is lenient: members that a kind does not know are passed over,
//! and whatever cannot be read as a frame is no frame.

use crate::json::{
    exact, lemma_member_at, parsed, read_json, rendered, write_json, Json, JsonDoc, Member,
};
use crate::models::{ChatRecord, MessageResponse};
use crate::text::same_text;
use vstd::prelude::*;

verus! {

/// One frame of the relay protocol.
#[derive(Debug, Clone, PartialEq, Eq)]
#[allow(inconsistent_fields)]
pub enum WsMessage {
    /// Client to server: a credential for this connection.
    Auth { token: String },
    /// Client to server: a chat message for `receiver_id`.
    ChatMessage { receiver_id: String, encrypted_content: String, iv: String },
    /// Server to client: a message that was stored and relayed.
    MessageReceived { message: MessageResponse },
    /// Client to server: the sender is typing to `receiver_id`.
    Typing { receiver_id: String },
    /// Server to client: `sender_id` is typing.
    TypingIndicator { sender_id: String },
    /// Server to client: something was refused.
    Error { message: String },
    /// Server to client: the connection now speaks for `user_id`.
    Connected { user_id: String },
}

/// The abstract value of a [`WsMessage`].
#[allow(inconsistent_fields)]
pub enum Frame {
    Auth { token: Seq<char> },
    ChatMessage { receiver_id: Seq<char>, encrypted_content: Seq<char>, iv: Seq<char> },
    MessageReceived { message: ChatRecord },
    Typing { receiver_id: Seq<char> },
    TypingIndicator { sender_id: Seq<char> },
    Error { message: Seq<char> },
    Connected { user_id: Seq<char> },
}

impl View for WsMessage {
    type V = Frame;

    open spec fn view(&self) -> Frame {
        match self {
            WsMessage::Auth { token } => Frame::Auth { token: token@ },
            WsMessage::ChatMessage { receiver_id, encrypted_content, iv } => Frame::ChatMessage {
                receiver_id: receiver_id@,
                encrypted_content: encrypted_content@,
                iv: iv@,
            },
            WsMessage::MessageReceived { message } => Frame::MessageReceived { message: message@ },
            WsMessage::Typing { receiver_id } => Frame::Typing { receiver_id: receiver_id@ },
            WsMessage::TypingIndicator { sender_id } => Frame::TypingIndicator {
                sender_id: sender_id@,
            },
            WsMessage::Error { message } => Frame::Error { message: message@ },
            WsMessage::Connected { user_id } => Frame::Connected { user_id: user_id@ },
        }
    }
}

/// A member whose value is a string.
pub open spec fn text_entry(key: Seq<char>, value: Seq<char>) -> (Seq<char>, JsonDoc) {
    (key, JsonDoc::Str(value))
}

/// The JSON object of a chat message: its seven fields in their order.
pub open spec fn record_doc(record: ChatRecord) -> JsonDoc {
    JsonDoc::Object(
        seq![
            text_entry("id"@, record.id),
            text_entry("sender_id"@, record.sender_id),
            text_entry("receiver_id"@, record.receiver_id),
            text_entry("encrypted_content"@, record.encrypted_content),
            text_entry("iv"@, record.iv),
            text_entry("created_at"@, record.created_at),
            ("is_read"@, JsonDoc::Bool(record.is_read)),
        ],
    )
}

/// The word that names the kind of a frame.
pub open spec fn tag_of(frame: Frame) -> Seq<char> {
    match frame {
        Frame::Auth { .. } => "auth"@,
        Frame::ChatMessage { .. } => "message"@,
        Frame::MessageReceived { .. } => "message_received"@,
        Frame::Typing { .. } => "typing"@,
        Frame::TypingIndicator { .. } => "typing_indicator"@,
        Frame::Error { .. } => "error"@,
        Frame::Connected { .. } => "connected"@,
    }
}

/// The JSON object of a frame: the tag first, then the fields of its kind.
pub open spec fn frame_doc(frame: Frame) -> JsonDoc {
    let tag = text_entry("type"@, tag_of(frame));
    match frame {
        Frame::Auth { token } => JsonDoc::Object(seq![tag, text_entry("token"@, token)]),
        Frame::ChatMessage { receiver_id, encrypted_content, iv } => JsonDoc::Object(
            seq![
                tag,
                text_entry("receiver_id"@, receiver_id),
                text_entry("encrypted_content"@, encrypted_content),
                text_entry("iv"@, iv),
            ],
        ),
        Frame::MessageReceived { message } => JsonDoc::Object(
            seq![tag, ("message"@, record_doc(message))],
        ),
        Frame::Typing { receiver_id } => JsonDoc::Object(
            seq![tag, text_entry("receiver_id"@, receiver_id)],
        ),
        Frame::TypingIndicator { sender_id } => JsonDoc::Object(
            seq![tag, text_entry("sender_id"@, sender_id)],
        ),
        Frame::Error { message } => JsonDoc::Object(seq![tag, text_entry("message"@, message)]),
        Frame::Connected { user_id } => JsonDoc::Object(seq![tag, text_entry("user_id"@, user_id)]),
    }
}

/// The string that `doc` holds under `key`, if it is an object that holds
/// one there.
pub open spec fn text_at(doc: JsonDoc, key: Seq<char>) -> Option<Seq<char>> {
    match doc.field(key) {
        Some(value) => value.text(),
        None => None,
    }
}

/// The boolean that `doc` holds under `key`.
pub open spec fn truth_at(doc: JsonDoc, key: Seq<char>) -> Option<bool> {
    match doc.field(key) {
        Some(value) => value.truth(),
        None => None,
    }
}

/// The chat message that a JSON document holds: an object with the six text
/// fields and the read flag. Anything else holds none.
pub open spec fn record_of(doc: JsonDoc) -> Option<ChatRecord> {
    if text_at(doc, "id"@) is Some && text_at(doc, "sender_id"@) is Some && text_at(
        doc,
        "receiver_id"@,
    ) is Some && text_at(doc, "encrypted_content"@) is Some && text_at(doc, "iv"@) is Some
        && text_at(doc, "created_at"@) is Some && truth_at(doc, "is_read"@) is Some {
        Some(
            ChatRecord {
                id: text_at(doc, "id"@)->0,
                sender_id: text_at(doc, "sender_id"@)->0,
                receiver_id: text_at(doc, "receiver_id"@)->0,
                encrypted_content: text_at(doc, "encrypted_content"@)->0,
                iv: text_at(doc, "iv"@)->0,
                created_at: text_at(doc, "created_at"@)->0,
                is_read: truth_at(doc, "is_read"@)->0,
            },
        )
    } else {
        None
    }
}

/// The frame of kind `tag` that `doc` holds, if it holds the fields of that
/// kind.
pub open spec fn frame_of_kind(tag: Seq<char>, doc: JsonDoc) -> Option<Frame> {
    if tag == "auth"@ {
        match text_at(doc, "token"@) {
            Some(token) => Some(Frame::Auth { token }),
            None => None,
        }
    } else if tag == "message"@ {
        if text_at(doc, "receiver_id"@) is Some && text_at(doc, "encrypted_content"@) is Some
            && text_at(doc, "iv"@) is Some {
            Some(
                Frame::ChatMessage {
                    receiver_id: text_at(doc, "receiver_id"@)->0,
                    encrypted_content: text_at(doc, "encrypted_content"@)->0,
                    iv: text_at(doc, "iv"@)->0,
                },
            )
        } else {
            None
        }
    } else if tag == "message_received"@ {
        match doc.field("message"@) {
            Some(inner) => match record_of(inner) {
                Some(message) => Some(Frame::MessageReceived { message }),
                None => None,
            },
            None => None,
        }
    } else if tag == "typing"@ {
        match text_at(doc, "receiver_id"@) {
            Some(receiver_id) => Some(Frame::Typing { receiver_id }),
            None => None,
        }
    } else if tag == "typing_indicator"@ {
        match text_at(doc, "sender_id"@) {
            Some(sender_id) => Some(Frame::TypingIndicator { sender_id }),
            None => None,
        }
    } else if tag == "error"@ {
        match text_at(doc, "message"@) {
            Some(message) => Some(Frame::Error { message }),
            None => None,
        }
    } else if tag == "connected"@ {
        match text_at(doc, "user_id"@) {
            Some(user_id) => Some(Frame::Connected { user_id }),
            None => None,
        }
    } else {
        None
    }
}

/// The frame that a JSON document holds: an object whose `type` is the tag
/// of a kind and which holds the fields of that kind. A document without a
/// tag, with an unknown tag, or with a field missing or of the wrong sort
/// holds no frame.
pub open spec fn frame_of(doc: JsonDoc) -> Option<Frame> {
    match text_at(doc, "type"@) {
        Some(tag) => frame_of_kind(tag, doc),
        None => None,
    }
}

/// The wire text of a frame.
pub open spec fn encoded(frame: Frame) -> Seq<char> {
    rendered(frame_doc(frame))
}

/// The frame that a wire text holds, if any.
pub open spec fn decoded(text: Seq<char>) -> Option<Frame> {
    match parsed(text) {
        Some(doc) => frame_of(doc),
        None => None,
    }
}

/// The names of the members of a frame and of a chat message differ from
/// one another, and so do the tags of the seven kinds.
proof fn lemma_names_differ()
    ensures
        "type"@ != "token"@,
        "type"@ != "receiver_id"@,
        "type"@ != "encrypted_content"@,
        "type"@ != "iv"@,
        "type"@ != "message"@,
        "type"@ != "sender_id"@,
        "type"@ != "user_id"@,
        "receiver_id"@ != "encrypted_content"@,
        "receiver_id"@ != "iv"@,
        "encrypted_content"@ != "iv"@,
        "id"@ != "sender_id"@,
        "id"@ != "receiver_id"@,
        "id"@ != "encrypted_content"@,
        "id"@ != "iv"@,
        "id"@ != "created_at"@,
        "id"@ != "is_read"@,
        "sender_id"@ != "receiver_id"@,
        "sender_id"@ != "encrypted_content"@,
        "sender_id"@ != "iv"@,
        "sender_id"@ != "created_at"@,
        "sender_id"@ != "is_read"@,
        "receiver_id"@ != "created_at"@,
        "receiver_id"@ != "is_read"@,
        "encrypted_content"@ != "created_at"@,
        "encrypted_content"@ != "is_read"@,
        "iv"@ != "created_at"@,
        "iv"@ != "is_read"@,
        "created_at"@ != "is_read"@,
        "auth"@ != "message"@,
        "auth"@ != "message_received"@,
        "auth"@ != "typing"@,
        "auth"@ != "typing_indicator"@,
        "auth"@ != "error"@,
        "auth"@ != "connected"@,
        "message"@ != "message_received"@,
        "message"@ != "typing"@,
        "message"@ != "typing_indicator"@,
        "message"@ != "error"@,
        "message"@ != "connected"@,
        "message_received"@ != "typing"@,
        "message_received"@ != "typing_indicator"@,
        "message_received"@ != "error"@,
        "message_received"@ != "connected"@,
        "typing"@ != "typing_indicator"@,
        "typing"@ != "error"@,
        "typing"@ != "connected"@,
        "typing_indicator"@ != "error"@,
        "typing_indicator"@ != "connected"@,
        "error"@ != "connected"@,
{
    reveal_strlit("type");
    reveal_strlit("token");
    reveal_strlit("receiver_id");
    reveal_strlit("encrypted_content");
    reveal_strlit("iv");
    reveal_strlit("message");
    reveal_strlit("sender_id");
    reveal_strlit("user_id");
    reveal_strlit("id");
    reveal_strlit("created_at");
    reveal_strlit("is_read");
    reveal_strlit("auth");
    reveal_strlit("message_received");
    reveal_strlit("typing");
    reveal_strlit("typing_indicator");
    reveal_strlit("error");
    reveal_strlit("connected");
    assert("id"@[1] != "iv"@[1]);
    assert("message_received"@[0] != "typing_indicator"@[0]);
    assert("type"@.len() == 4);
    assert("token"@.len() == 5);
    assert("receiver_id"@.len() == 11);
    assert("encrypted_content"@.len() == 17);
    assert("iv"@.len() == 2);
    assert("message"@.len() == 7);
    assert("sender_id"@.len() == 9);
    assert("user_id"@.len() == 7);
    assert("id"@.len() == 2);
    assert("created_at"@.len() == 10);
    assert("is_read"@.len() == 7);
    assert("auth"@.len() == 4);
    assert("message_received"@.len() == 16);
    assert("typing"@.len() == 6);
    assert("typing_indicator"@.len() == 16);
    assert("error"@.len() == 5);
    assert("connected"@.len() == 9);
    assert("sender_id"@[0] != "connected"@[0]);
}

/// Reading the JSON object of a chat message gives the message back.
pub proof fn record_round_trip(record: ChatRecord)
    ensures
        record_of(record_doc(record)) == Some(record),
{
    lemma_names_differ();
    let members = record_doc(record)->Object_0;
    lemma_member_at(members, "id"@, 0);
    lemma_member_at(members, "sender_id"@, 1);
    lemma_member_at(members, "receiver_id"@, 2);
    lemma_member_at(members, "encrypted_content"@, 3);
    lemma_member_at(members, "iv"@, 4);
    lemma_member_at(members, "created_at"@, 5);
    lemma_member_at(members, "is_read"@, 6);
}

/// Encoding a frame and decoding the result gives the frame back: reading
/// the JSON object written for a frame finds that frame, whatever it holds.
pub proof fn frame_round_trip(frame: Frame)
    ensures
        frame_of(frame_doc(frame)) == Some(frame),
{
    lemma_names_differ();
    let doc = frame_doc(frame);
    let members = doc->Object_0;
    lemma_member_at(members, "type"@, 0);
    match frame {
        Frame::Auth { token } => {
            lemma_member_at(members, "token"@, 1);
        },
        Frame::ChatMessage { receiver_id, encrypted_content, iv } => {
            lemma_member_at(members, "receiver_id"@, 1);
            lemma_member_at(members, "encrypted_content"@, 2);
            lemma_member_at(members, "iv"@, 3);
        },
        Frame::MessageReceived { message } => {
            lemma_member_at(members, "message"@, 1);
            record_round_trip(message);
        },
        Frame::Typing { receiver_id } => {
            lemma_member_at(members, "receiver_id"@, 1);
        },
        Frame::TypingIndicator { sender_id } => {
            lemma_member_at(members, "sender_id"@, 1);
        },
        Frame::Error { message } => {
            lemma_member_at(members, "message"@, 1);
        },
        Frame::Connected { user_id } => {
            lemma_member_at(members, "user_id"@, 1);
        },
    }
}

/// Decoding and encoding again keeps the frame: a document that holds a
/// frame, written out anew from that frame, still holds that frame.
pub proof fn reencoding_keeps_the_frame(doc: JsonDoc)
    requires
        frame_of(doc) is Some,
    ensures
        frame_of(frame_doc(frame_of(doc)->0)) == frame_of(doc),
{
    frame_round_trip(frame_of(doc)->0);
}

/// The JSON object of a chat message holds no number, so it is exact.
proof fn lemma_record_doc_exact(record: ChatRecord)
    ensures
        exact(record_doc(record)),
{
    let members = record_doc(record)->Object_0;
    assert forall|i: int| 0 <= i < members.len() implies exact((#[trigger] members[i]).1) by {
        if i == 6 {
        } else if i == 5 {
        } else if i == 4 {
        } else if i == 3 {
        } else if i == 2 {
        } else if i == 1 {
        } else {
        }
    }
}

/// The JSON object of a frame holds no number, so it is exact.
proof fn lemma_frame_doc_exact(frame: Frame)
    ensures
        exact(frame_doc(frame)),
{
    let members = frame_doc(frame)->Object_0;
    assert forall|i: int| 0 <= i < members.len() implies exact((#[trigger] members[i]).1) by {
        if frame is MessageReceived && i == 1 {
            lemma_record_doc_exact(frame->MessageReceived_message);
        } else if i == 0 {
        } else if i == 1 {
        } else if i == 2 {
        } else {
        }
    }
}

/// The string that `doc` holds under `key`.
fn text_field(doc: &Json, key: &str) -> (found: Option<String>)
    ensures
        match found {
            Some(s) => text_at(doc@, key@) == Some(s@),
            None => text_at(doc@, key@) is None,
        },
{
    match doc.field(key) {
        Some(value) => match value.as_str() {
            Some(s) => Some(s.to_string()),
            None => None,
        },
        None => None,
    }
}

/// The boolean that `doc` holds under `key`.
fn flag_field(doc: &Json, key: &str) -> (found: Option<bool>)
    ensures
        found == truth_at(doc@, key@),
{
    match doc.field(key) {
        Some(value) => value.as_bool(),
        None => None,
    }
}

impl MessageResponse {
    /// The JSON object of this message.
    pub fn to_json(&self) -> (doc: Json)
        ensures
            doc@ == record_doc(self@),
    {
        let flag = Member { key: "is_read".to_string(), value: Json::Bool(self.is_read) };
        let members = vec![
            Member::text("id", self.id.as_str()),
            Member::text("sender_id", self.sender_id.as_str()),
            Member::text("receiver_id", self.receiver_id.as_str()),
            Member::text("encrypted_content", self.encrypted_content.as_str()),
            Member::text("iv", self.iv.as_str()),
            Member::text("created_at", self.created_at.as_str()),
            flag,
        ];
        let doc = Json::object(members);
        assert(doc@->Object_0 =~= record_doc(self@)->Object_0);
        doc
    }

    /// The message that a JSON document holds, if it holds one.
    pub fn from_json(doc: &Json) -> (message: Option<MessageResponse>)
        ensures
            match message {
                Some(m) => record_of(doc@) == Some(m@),
                None => record_of(doc@) is None,
            },
    {
        let id = match text_field(doc, "id") {
            Some(s) => s,
            None => return None,
        };
        let sender_id = match text_field(doc, "sender_id") {
            Some(s) => s,
            None => return None,
        };
        let receiver_id = match text_field(doc, "receiver_id") {
            Some(s) => s,
            None => return None,
        };
        let encrypted_content = match text_field(doc, "encrypted_content") {
            Some(s) => s,
            None => return None,
        };
        let iv = match text_field(doc, "iv") {
            Some(s) => s,
            None => return None,
        };
        let created_at = match text_field(doc, "created_at") {
            Some(s) => s,
            None => return None,
        };
        let is_read = match flag_field(doc, "is_read") {
            Some(b) => b,
            None => return None,
        };
        Some(
            MessageResponse { id, sender_id, receiver_id, encrypted_content, iv, created_at, is_read },
        )
    }
}

impl WsMessage {
    /// The word that names the kind of this frame.
    pub fn tag(&self) -> (tag: &'static str)
        ensures
            tag@ == tag_of(self@),
    {
        match self {
            WsMessage::Auth { .. } => "auth",
            WsMessage::ChatMessage { .. } => "message",
            WsMessage::MessageReceived { .. } => "message_received",
            WsMessage::Typing { .. } => "typing",
            WsMessage::TypingIndicator { .. } => "typing_indicator",
            WsMessage::Error { .. } => "error",
            WsMessage::Connected { .. } => "connected",
        }
    }

    /// The JSON object of this frame.
    pub fn to_json(&self) -> (doc: Json)
        ensures
            doc@ == frame_doc(self@),
    {
        let mut members: Vec<Member> = Vec::new();
        members.push(Member::text("type", self.tag()));
        match self {
            WsMessage::Auth { token } => {
                members.push(Member::text("token", token.as_str()));
            },
            WsMessage::ChatMessage { receiver_id, encrypted_content, iv } => {
                members.push(Member::text("receiver_id", receiver_id.as_str()));
                members.push(Member::text("encrypted_content", encrypted_content.as_str()));
                members.push(Member::text("iv", iv.as_str()));
            },
            WsMessage::MessageReceived { message } => {
                members.push(Member { key: "message".to_string(), value: message.to_json() });
            },
            WsMessage::Typing { receiver_id } => {
                members.push(Member::text("receiver_id", receiver_id.as_str()));
            },
            WsMessage::TypingIndicator { sender_id } => {
                members.push(Member::text("sender_id", sender_id.as_str()));
            },
            WsMessage::Error { message } => {
                members.push(Member::text("message", message.as_str()));
            },
            WsMessage::Connected { user_id } => {
                members.push(Member::text("user_id", user_id.as_str()));
            },
        }
        let doc = Json::object(members);
        assert(doc@->Object_0 =~= frame_doc(self@)->Object_0);
        doc
    }

    /// The frame that a JSON document holds, if it holds one.
    pub fn from_json(doc: &Json) -> (frame: Option<WsMessage>)
        ensures
            match frame {
                Some(f) => frame_of(doc@) == Some(f@),
                None => frame_of(doc@) is None,
            },
    {
        let tag = match text_field(doc, "type") {
            Some(s) => s,
            None => return None,
        };
        let kind = tag.as_str();
        if same_text(kind, "auth") {
            match text_field(doc, "token") {
                Some(token) => Some(WsMessage::Auth { token }),
                None => None,
            }
        } else if same_text(kind, "message") {
            let receiver_id = match text_field(doc, "receiver_id") {
                Some(s) => s,
                None => return None,
            };
            let encrypted_content = match text_field(doc, "encrypted_content") {
                Some(s) => s,
                None => return None,
            };
            let iv = match text_field(doc, "iv") {
                Some(s) => s,
                None => return None,
            };
            Some(WsMessage::ChatMessage { receiver_id, encrypted_content, iv })
        } else if same_text(kind, "message_received") {
            match doc.field("message") {
                Some(inner) => match MessageResponse::from_json(inner) {
                    Some(message) => Some(WsMessage::MessageReceived { message }),
                    None => None,
                },
                None => None,
            }
        } else if same_text(kind, "typing") {
            match text_field(doc, "receiver_id") {
                Some(receiver_id) => Some(WsMessage::Typing { receiver_id }),
                None => None,
            }
        } else if same_text(kind, "typing_indicator") {
            match text_field(doc, "sender_id") {
                Some(sender_id) => Some(WsMessage::TypingIndicator { sender_id }),
                None => None,
            }
        } else if same_text(kind, "error") {
            match text_field(doc, "message") {
                Some(message) => Some(WsMessage::Error { message }),
                None => None,
            }
        } else if same_text(kind, "connected") {
            match text_field(doc, "user_id") {
                Some(user_id) => Some(WsMessage::Connected { user_id }),
                None => None,
            }
        } else {
            None
        }
    }

    /// The wire text of this frame.
    pub fn encode(&self) -> (text: String)
        ensures
            text@ == encoded(self@),
    {
        let doc = self.to_json();
        proof {
            lemma_frame_doc_exact(self@);
        }
        write_json(&doc)
    }

    /// The frame that a wire text holds; `None` for text that is no JSON and
    /// for a document that holds no frame.
    pub fn decode(text: &str) -> (frame: Option<WsMessage>)
        ensures
            match frame {
                Some(f) => decoded(text@) == Some(f@),
                None => decoded(text@) is None,
            },
    {
        match read_json(text) {
            Some(doc) => WsMessage::from_json(&doc),
            None => None,
        }
    }
}

} // verus!
