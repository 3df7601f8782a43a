//! The connection session: the state machine of one open connection.
//!
//! A session starts unauthenticated. A verified credential makes it speak
//! for an identity and registers its delivery handle under that identity;
//! there is no way back. Chat and typing frames of an authenticated session
//! are relayed through the registry; those of an unauthenticated one are
//! refused. When the connection ends, the entry of the session's identity
//! leaves the registry.
//!
//! A chat message is handled in two steps, because it is stored between
//! them: [`Session::compose`] makes the message to store, and
//! [`Session::relay`] fans it out once the store has answered.
//!
//! Authenticating again is allowed. With the same identity it changes
//! nothing; with another identity the handle moves to that identity.

use crate::auth::{carried, grant_of, verify_token, Claims, VerificationError};
use crate::models::{ChatRecord, MessageResponse};
use crate::protocol::{decoded, Frame, WsMessage};
use crate::registry::{handles_of, registered, well_formed, Handle, Presence, Registry};
use crate::stamps::{fresh_id, now_rfc3339};
use tokio::sync::mpsc::UnboundedSender;
use vstd::prelude::*;

verus! {

/// Whom a session speaks for.
pub enum Standing {
    Unauthenticated,
    Authenticated(Seq<char>),
}

/// What handling one event asks of the connection and did to others.
#[derive(Debug)]
pub struct Outcome {
    /// The frame to send to the session's own client.
    pub reply: Option<WsMessage>,
    /// The message to store; it is relayed once the store has it.
    pub store: Option<MessageResponse>,
    /// The frame that was pushed to other connections.
    pub relayed: Option<WsMessage>,
    /// The ids of the handles that `relayed` was pushed to.
    pub reached: Vec<u64>,
}

/// The abstract value of an [`Outcome`].
pub struct Effects {
    pub reply: Option<Frame>,
    pub store: Option<ChatRecord>,
    pub relayed: Option<Frame>,
    pub reached: Seq<u64>,
}

/// The abstract value of an optional frame.
pub open spec fn frame_view(frame: Option<WsMessage>) -> Option<Frame> {
    match frame {
        Some(f) => Some(f@),
        None => None,
    }
}

impl View for Outcome {
    type V = Effects;

    open spec fn view(&self) -> Effects {
        Effects {
            reply: frame_view(self.reply),
            store: match self.store {
                Some(m) => Some(m@),
                None => None,
            },
            relayed: frame_view(self.relayed),
            reached: self.reached@,
        }
    }
}

/// No effect at all.
pub open spec fn nothing() -> Effects {
    Effects { reply: None, store: None, relayed: None, reached: Seq::empty() }
}

/// Only a frame for the session's own client.
pub open spec fn answer(frame: Frame) -> Effects {
    Effects { reply: Some(frame), store: None, relayed: None, reached: Seq::empty() }
}

/// The refusal of a frame with the given words.
pub open spec fn refusal(words: Seq<char>) -> Effects {
    answer(Frame::Error { message: words })
}

/// A credential was checked. `verdict` is the verified identity, `None` for
/// a credential that was not accepted.
///
/// An accepted credential makes the session speak for the identity,
/// registers its handle there and is answered with `Connected`. A refused
/// one changes nothing and is answered with an error.
pub open spec fn after_auth(
    standing: Standing,
    handle: u64,
    presence: Presence,
    verdict: Option<Seq<char>>,
) -> (Standing, Presence, Effects) {
    match verdict {
        Some(identity) => (
            Standing::Authenticated(identity),
            registered(presence, identity, handle),
            answer(Frame::Connected { user_id: identity }),
        ),
        None => (standing, presence, refusal("Invalid token"@)),
    }
}

/// A chat frame arrived; `id` and `now` are the id and the time for the
/// message. An authenticated session asks for the message to be stored, an
/// unauthenticated one is refused.
pub open spec fn after_chat(
    standing: Standing,
    receiver_id: Seq<char>,
    encrypted_content: Seq<char>,
    iv: Seq<char>,
    id: Seq<char>,
    now: Seq<char>,
) -> Effects {
    match standing {
        Standing::Authenticated(sender_id) => Effects {
            reply: None,
            store: Some(
                ChatRecord {
                    id,
                    sender_id,
                    receiver_id,
                    encrypted_content,
                    iv,
                    created_at: now,
                    is_read: false,
                },
            ),
            relayed: None,
            reached: Seq::empty(),
        },
        Standing::Unauthenticated => refusal("Not authenticated"@),
    }
}

/// The store has answered for `message`. A message of this session that
/// was stored goes to every handle of its receiver and back to the sender as
/// confirmation. A message that was not stored goes nowhere, and the sender
/// is told; so does a message that is not this session's own, whose sender
/// is another identity.
pub open spec fn after_store(
    standing: Standing,
    presence: Presence,
    message: ChatRecord,
    stored: bool,
) -> Effects {
    match standing {
        Standing::Authenticated(identity) => if stored && message.sender_id == identity {
            Effects {
                reply: Some(Frame::MessageReceived { message }),
                store: None,
                relayed: Some(Frame::MessageReceived { message }),
                reached: handles_of(presence, message.receiver_id),
            }
        } else {
            refusal("Failed to send message"@)
        },
        Standing::Unauthenticated => refusal("Not authenticated"@),
    }
}

/// A typing frame arrived. An authenticated session has a typing indicator
/// pushed to every handle of the receiver and gets no answer; an
/// unauthenticated one is refused.
pub open spec fn after_typing(standing: Standing, presence: Presence, receiver_id: Seq<char>)
    -> Effects {
    match standing {
        Standing::Authenticated(sender_id) => Effects {
            reply: None,
            store: None,
            relayed: Some(Frame::TypingIndicator { sender_id }),
            reached: handles_of(presence, receiver_id),
        },
        Standing::Unauthenticated => refusal("Not authenticated"@),
    }
}

/// The connection ended: the entry of the session's identity leaves the
/// registry.
pub open spec fn after_close(standing: Standing, presence: Presence) -> Presence {
    match standing {
        Standing::Authenticated(identity) => presence.remove(identity),
        Standing::Unauthenticated => presence,
    }
}

/// Whether handling `frame` under `secret` may lead from the state before
/// to the state after with the given effects.
///
/// An `Auth` frame is handled as [`after_auth`] says: either for a refused
/// credential, or for the identity named by the claims that the frame's
/// token carries under the secret. A chat frame is handled as
/// [`after_chat`] says for some id and time, a typing frame as
/// [`after_typing`] says. The frames that only the server sends are passed
/// over. Only an `Auth` frame changes the session or the registry.
pub open spec fn handled(
    before: Standing,
    handle: u64,
    secret: Seq<char>,
    presence: Presence,
    frame: Frame,
    after: Standing,
    presence_after: Presence,
    effects: Effects,
) -> bool {
    match frame {
        Frame::Auth { token } => {
            ||| after_auth(before, handle, presence, None) == (after, presence_after, effects)
            ||| {
                &&& carried(token, secret) matches Some(payload)
                &&& grant_of(payload) matches Some(grant)
                &&& after_auth(before, handle, presence, Some(grant.sub)) == (
                    after,
                    presence_after,
                    effects,
                )
            }
        },
        Frame::ChatMessage { receiver_id, encrypted_content, iv } => {
            &&& after == before
            &&& presence_after == presence
            &&& exists|id: Seq<char>, now: Seq<char>|
                #[trigger] after_chat(before, receiver_id, encrypted_content, iv, id, now)
                    == effects
        },
        Frame::Typing { receiver_id } => {
            &&& after == before
            &&& presence_after == presence
            &&& effects == after_typing(before, presence, receiver_id)
        },
        _ => after == before && presence_after == presence && effects == nothing(),
    }
}

enum SessionState {
    Unauthenticated,
    Authenticated(String),
}

/// The session of one connection.
pub struct Session {
    state: SessionState,
    handle: Handle,
}

impl Outcome {
    fn idle() -> (outcome: Outcome)
        ensures
            outcome@ == nothing(),
    {
        Outcome { reply: None, store: None, relayed: None, reached: Vec::new() }
    }

    fn refuse(words: &str) -> (outcome: Outcome)
        ensures
            outcome@ == refusal(words@),
    {
        Outcome {
            reply: Some(WsMessage::Error { message: words.to_string() }),
            store: None,
            relayed: None,
            reached: Vec::new(),
        }
    }
}

impl Session {
    /// Whom the session speaks for.
    pub closed spec fn standing(&self) -> Standing {
        match self.state {
            SessionState::Unauthenticated => Standing::Unauthenticated,
            SessionState::Authenticated(identity) => Standing::Authenticated(identity@),
        }
    }

    /// The id of the session's delivery handle.
    pub closed spec fn handle_id(&self) -> u64 {
        self.handle.id
    }

    /// The sink of the session's delivery handle.
    pub closed spec fn sink(&self) -> UnboundedSender<String> {
        self.handle.sink
    }

    /// The session of a connection that was just accepted. `handle` is the
    /// connection's delivery handle; its id must not be in use by another
    /// open connection.
    pub fn new(handle: Handle) -> (session: Session)
        ensures
            session.standing() == Standing::Unauthenticated,
            session.handle_id() == handle.id,
            session.sink() == handle.sink,
    {
        Session { state: SessionState::Unauthenticated, handle }
    }

    /// The identity that the session speaks for, if any.
    pub fn identity(&self) -> (identity: Option<&str>)
        ensures
            match identity {
                Some(name) => self.standing() == Standing::Authenticated(name@),
                None => self.standing() == Standing::Unauthenticated,
            },
    {
        match &self.state {
            SessionState::Unauthenticated => None,
            SessionState::Authenticated(identity) => Some(identity.as_str()),
        }
    }

    /// Takes the verifier's verdict on a credential.
    pub fn authenticate(
        &mut self,
        verdict: Result<Claims, VerificationError>,
        registry: &mut Registry,
    ) -> (outcome: Outcome)
        ensures
            (final(self).standing(), final(registry)@, outcome@) == after_auth(
                old(self).standing(),
                old(self).handle_id(),
                old(registry)@,
                match verdict {
                    Ok(claims) => Some(claims.sub@),
                    Err(_) => None,
                },
            ),
            final(self).handle_id() == old(self).handle_id(),
            final(self).sink() == old(self).sink(),
            verdict is Ok ==> well_formed(final(registry)@),
    {
        match verdict {
            Ok(claims) => {
                registry.register(claims.sub.as_str(), self.handle.duplicate());
                self.state = SessionState::Authenticated(claims.sub.clone());
                Outcome {
                    reply: Some(WsMessage::Connected { user_id: claims.sub }),
                    store: None,
                    relayed: None,
                    reached: Vec::new(),
                }
            },
            Err(_) => Outcome::refuse("Invalid token"),
        }
    }

    /// Makes the message of a chat frame, with the given id and time.
    pub fn compose(
        &self,
        receiver_id: String,
        encrypted_content: String,
        iv: String,
        id: String,
        now: String,
    ) -> (outcome: Outcome)
        ensures
            outcome@ == after_chat(
                self.standing(),
                receiver_id@,
                encrypted_content@,
                iv@,
                id@,
                now@,
            ),
    {
        match &self.state {
            SessionState::Authenticated(sender_id) => Outcome {
                reply: None,
                store: Some(
                    MessageResponse {
                        id,
                        sender_id: sender_id.clone(),
                        receiver_id,
                        encrypted_content,
                        iv,
                        created_at: now,
                        is_read: false,
                    },
                ),
                relayed: None,
                reached: Vec::new(),
            },
            SessionState::Unauthenticated => Outcome::refuse("Not authenticated"),
        }
    }

    /// Relays `message` once the store has answered; `stored` says whether
    /// the message was stored.
    pub fn relay(&self, message: MessageResponse, stored: bool, registry: &Registry) -> (outcome:
        Outcome)
        ensures
            outcome@ == after_store(self.standing(), registry@, message@, stored),
            outcome.reached@.no_duplicates(),
    {
        match &self.state {
            SessionState::Authenticated(identity) => {
                if stored && message.sender_id == *identity {
                    let echo = WsMessage::MessageReceived { message: message.duplicate() };
                    let text = echo.encode();
                    let reached = registry.deliver(message.receiver_id.as_str(), text.as_str());
                    let frame = WsMessage::MessageReceived { message };
                    Outcome { reply: Some(echo), store: None, relayed: Some(frame), reached }
                } else {
                    Outcome::refuse("Failed to send message")
                }
            },
            SessionState::Unauthenticated => Outcome::refuse("Not authenticated"),
        }
    }

    /// Handles a typing frame for `receiver_id`.
    pub fn typing(&self, receiver_id: &str, registry: &Registry) -> (outcome: Outcome)
        ensures
            outcome@ == after_typing(self.standing(), registry@, receiver_id@),
            outcome.reached@.no_duplicates(),
    {
        match &self.state {
            SessionState::Authenticated(sender_id) => {
                let frame = WsMessage::TypingIndicator { sender_id: sender_id.clone() };
                let text = frame.encode();
                let reached = registry.deliver(receiver_id, text.as_str());
                Outcome { reply: None, store: None, relayed: Some(frame), reached }
            },
            SessionState::Unauthenticated => Outcome::refuse("Not authenticated"),
        }
    }

    /// Handles one frame from the client.
    ///
    /// An `Auth` frame has its token verified under `secret` and the verdict
    /// taken as [`Session::authenticate`] does. A chat frame gets a fresh id
    /// and the current time and is made into a message to store, as
    /// [`Session::compose`] does. A typing frame is handled as
    /// [`Session::typing`] does. Every other frame is passed over.
    pub fn receive(&mut self, frame: WsMessage, secret: &str, registry: &mut Registry) -> (outcome:
        Outcome)
        ensures
            handled(
                old(self).standing(),
                old(self).handle_id(),
                secret@,
                old(registry)@,
                frame@,
                final(self).standing(),
                final(registry)@,
                outcome@,
            ),
            final(self).handle_id() == old(self).handle_id(),
    {
        let ghost before = self.standing();
        let ghost handle = self.handle_id();
        let ghost presence = registry@;
        match frame {
            WsMessage::Auth { token } => {
                let verdict = verify_token(token.as_str(), secret);
                let ghost accepted = verdict is Ok;
                let ghost sub = if verdict is Ok {
                    verdict->Ok_0.sub@
                } else {
                    Seq::empty()
                };
                let outcome = self.authenticate(verdict, registry);
                proof {
                    if accepted {
                        let payload = carried(token@, secret@)->0;
                        assert(grant_of(payload)->0.sub == sub);
                    }
                }
                outcome
            },
            WsMessage::ChatMessage { receiver_id, encrypted_content, iv } => {
                let id = fresh_id();
                let now = now_rfc3339();
                let outcome = self.compose(receiver_id, encrypted_content, iv, id, now);
                assert(after_chat(before, receiver_id@, encrypted_content@, iv@, id@, now@)
                    == outcome@);
                outcome
            },
            WsMessage::Typing { receiver_id } => self.typing(receiver_id.as_str(), registry),
            _ => Outcome::idle(),
        }
    }

    /// Handles one text frame from the client: the frame that the text
    /// holds is handled as [`Session::receive`] does; text that holds no
    /// frame is passed over.
    pub fn receive_text(&mut self, text: &str, secret: &str, registry: &mut Registry) -> (outcome:
        Outcome)
        ensures
            match decoded(text@) {
                Some(frame) => handled(
                    old(self).standing(),
                    old(self).handle_id(),
                    secret@,
                    old(registry)@,
                    frame,
                    final(self).standing(),
                    final(registry)@,
                    outcome@,
                ),
                None => final(self).standing() == old(self).standing() && final(registry)@ == old(
                    registry,
                )@ && outcome@ == nothing(),
            },
            final(self).handle_id() == old(self).handle_id(),
    {
        match WsMessage::decode(text) {
            Some(frame) => self.receive(frame, secret, registry),
            None => Outcome::idle(),
        }
    }

    /// Ends the session: the entry of its identity leaves the registry.
    pub fn close(self, registry: &mut Registry)
        ensures
            final(registry)@ == after_close(self.standing(), old(registry)@),
    {
        match &self.state {
            SessionState::Authenticated(identity) => {
                registry.unregister(identity.as_str());
            },
            SessionState::Unauthenticated => {},
        }
    }
}

/// A session never goes back: whatever the verifier says of a credential,
/// an authenticated session stays authenticated.
pub proof fn authentication_is_stable(
    standing: Standing,
    handle: u64,
    presence: Presence,
    verdict: Option<Seq<char>>,
)
    requires
        standing is Authenticated,
    ensures
        after_auth(standing, handle, presence, verdict).0 is Authenticated,
{
}

/// A valid credential authenticates: the session then speaks for the
/// verified identity, is answered with `Connected` for that identity, and
/// its handle is registered there.
pub proof fn valid_credential_authenticates(
    standing: Standing,
    handle: u64,
    presence: Presence,
    identity: Seq<char>,
)
    ensures
        after_auth(standing, handle, presence, Some(identity)).0 == Standing::Authenticated(
            identity,
        ),
        after_auth(standing, handle, presence, Some(identity)).2 == answer(
            Frame::Connected { user_id: identity },
        ),
        handles_of(after_auth(standing, handle, presence, Some(identity)).1, identity).contains(
            handle,
        ),
{
    let rest = crate::registry::released(presence, handle);
    let grown = handles_of(rest, identity).push(handle);
    assert(grown[grown.len() - 1] == handle);
}

/// An `Auth` frame authenticates as nobody but the identity that its token
/// names: where it makes an unauthenticated session speak for an identity,
/// that identity is the `sub` of the claims that the token carries under the
/// secret, and the answer is `Connected` for it.
pub proof fn auth_frame_authenticates_as_its_claims(
    handle: u64,
    secret: Seq<char>,
    presence: Presence,
    token: Seq<char>,
    after: Standing,
    presence_after: Presence,
    effects: Effects,
)
    requires
        handled(
            Standing::Unauthenticated,
            handle,
            secret,
            presence,
            Frame::Auth { token },
            after,
            presence_after,
            effects,
        ),
        after is Authenticated,
    ensures
        carried(token, secret) matches Some(payload) && grant_of(payload) matches Some(grant)
            && after == Standing::Authenticated(grant.sub) && effects == answer(
            Frame::Connected { user_id: grant.sub },
        ) && presence_after == registered(presence, grant.sub, handle),
{
}

/// An invalid credential changes nothing and is answered with `Invalid
/// token`; a valid credential after it still authenticates.
pub proof fn invalid_credential_then_valid(
    handle: u64,
    presence: Presence,
    identity: Seq<char>,
)
    ensures
        after_auth(Standing::Unauthenticated, handle, presence, None) == (
            Standing::Unauthenticated,
            presence,
            refusal("Invalid token"@),
        ),
        ({
            let failed = after_auth(Standing::Unauthenticated, handle, presence, None);
            let retried = after_auth(failed.0, handle, failed.1, Some(identity));
            retried.0 == Standing::Authenticated(identity) && retried.2 == answer(
                Frame::Connected { user_id: identity },
            )
        }),
{
}

/// An unauthenticated session refuses chat and typing frames with `Not
/// authenticated`: nothing is to be stored, nothing is pushed to anyone, and
/// the registry is as before.
pub proof fn unauthenticated_frames_are_refused(
    handle: u64,
    secret: Seq<char>,
    presence: Presence,
    frame: Frame,
    after: Standing,
    presence_after: Presence,
    effects: Effects,
)
    requires
        frame is ChatMessage || frame is Typing,
        handled(
            Standing::Unauthenticated,
            handle,
            secret,
            presence,
            frame,
            after,
            presence_after,
            effects,
        ),
    ensures
        effects == refusal("Not authenticated"@),
        effects.store is None,
        effects.reached.len() == 0,
        presence_after == presence,
        after == Standing::Unauthenticated,
{
}

/// A chat message from A to B: exactly one message is to be stored, from A
/// to B and unread; once stored, it is pushed once to each handle of B and
/// comes back to A once as confirmation.
pub proof fn chat_is_stored_then_relayed(
    a: Seq<char>,
    b: Seq<char>,
    presence: Presence,
    encrypted_content: Seq<char>,
    iv: Seq<char>,
    id: Seq<char>,
    now: Seq<char>,
)
    requires
        well_formed(presence),
    ensures
        ({
            let asked = after_chat(Standing::Authenticated(a), b, encrypted_content, iv, id, now);
            let message = asked.store->0;
            let done = after_store(Standing::Authenticated(a), presence, message, true);
            &&& asked.store is Some
            &&& asked.reply is None
            &&& asked.reached.len() == 0
            &&& message.sender_id == a
            &&& message.receiver_id == b
            &&& message.encrypted_content == encrypted_content
            &&& message.iv == iv
            &&& !message.is_read
            &&& done.store is None
            &&& done.relayed == Some(Frame::MessageReceived { message })
            &&& done.reached == handles_of(presence, b)
            &&& done.reached.no_duplicates()
            &&& done.reply == Some(Frame::MessageReceived { message })
        }),
{
    if presence.contains_key(b) {
        let ids = presence[b];
        assert forall|i: int, j: int| 0 <= i < ids.len() && 0 <= j < ids.len() && i != j implies ids[i]
            != ids[j] by {
            if presence[b][i] == presence[b][j] {
                assert(i == j);
            }
        }
    }
}

/// A chat message to someone who is not present is stored all the same; it
/// is pushed to nobody, and the sender gets the confirmation, not an error.
pub proof fn chat_to_absent_receiver(
    a: Seq<char>,
    presence: Presence,
    message: ChatRecord,
)
    requires
        message.sender_id == a,
        !presence.contains_key(message.receiver_id),
    ensures
        after_store(Standing::Authenticated(a), presence, message, true).reached.len() == 0,
        after_store(Standing::Authenticated(a), presence, message, true).reply == Some(
            Frame::MessageReceived { message },
        ),
{
}

/// A message that could not be stored is relayed to nobody; the sender
/// alone is told. Nor is a message relayed that is not the session's own.
pub proof fn unstored_chat_is_not_relayed(a: Seq<char>, presence: Presence, message: ChatRecord)
    ensures
        after_store(Standing::Authenticated(a), presence, message, false) == refusal(
            "Failed to send message"@,
        ),
        message.sender_id != a ==> after_store(
            Standing::Authenticated(a),
            presence,
            message,
            true,
        ) == refusal("Failed to send message"@),
{
}

/// Typing from A to B stores nothing and pushes a typing indicator for A to
/// exactly the handles of B: to none where B is not present.
pub proof fn typing_reaches_the_receiver(a: Seq<char>, b: Seq<char>, presence: Presence)
    ensures
        after_typing(Standing::Authenticated(a), presence, b).store is None,
        after_typing(Standing::Authenticated(a), presence, b).reply is None,
        after_typing(Standing::Authenticated(a), presence, b).relayed == Some(
            Frame::TypingIndicator { sender_id: a },
        ),
        after_typing(Standing::Authenticated(a), presence, b).reached == handles_of(presence, b),
        !presence.contains_key(b) ==> after_typing(
            Standing::Authenticated(a),
            presence,
            b,
        ).reached.len() == 0,
{
}

/// After the session of an identity has ended, nothing is delivered to
/// that identity any more, whoever sends: its entry is gone, with the handles
/// of all its connections.
pub proof fn closed_session_is_unreachable(identity: Seq<char>, presence: Presence)
    ensures
        !after_close(Standing::Authenticated(identity), presence).contains_key(identity),
        handles_of(after_close(Standing::Authenticated(identity), presence), identity).len() == 0,
        forall|other: Seq<char>|
            other != identity ==> handles_of(
                after_close(Standing::Authenticated(identity), presence),
                other,
            ) == handles_of(presence, other),
{
}

} // verus!
