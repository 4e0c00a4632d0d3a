//! One connection as the server sees it: the join handshake against the
//! registry, the relaying of lines the client writes, and the delivery of
//! what others broadcast. The functions here decide; reading the socket,
//! writing to it and broadcasting are the caller's.

use vstd::prelude::*;
use vstd::string::StringExecFns;
use crate::clock::unix_time_now;
use crate::frame::{bytes_of, FrameError};
use crate::json::object_text;
use crate::message::{message_view, Message, MessageStyle, MessageView};
use crate::registry::{known_after, outcome_of, JoinOutcome, Origin, Registry};
use crate::text::trimmed;
use crate::wire::{
    framed_text, message_members, payload_object, read_join_request, receive_json,
    requested_name, send_message, JoinReply, JoinReplyView,
};

verus! {

/// How many broadcast messages are kept for a connection that has fallen
/// behind. The oldest are dropped for that connection alone once more wait
/// for it; whoever broadcasts is never held up.
pub const HUB_CAPACITY: usize = 64;

/// Where a connection stands.
#[derive(Clone, Copy, Debug, PartialEq, Eq, Structural)]
pub enum Phase {
    /// The server waits for the join request.
    Handshaking,
    /// The user has joined: lines are relayed and broadcasts delivered.
    Relaying,
    /// The connection is over.
    Closed,
}

/// The answer that each outcome of a join request gets.
pub open spec fn reply_for(outcome: JoinOutcome) -> JoinReplyView {
    match outcome {
        JoinOutcome::Accepted => JoinReplyView { accepted: true, reason: "Welcome new user"@ },
        JoinOutcome::Rejoined => JoinReplyView { accepted: true, reason: "Welcome back"@ },
        JoinOutcome::Rejected(_) => JoinReplyView {
            accepted: false,
            reason: "Username already taken"@,
        },
    }
}

/// The message by which the server announces a new user.
pub open spec fn join_announcement(username: Seq<char>, now: i64) -> MessageView {
    MessageView {
        timestamp: now,
        sender: "Server"@,
        style: MessageStyle::Server,
        text: username + " joined chat"@,
    }
}

/// The message that a line written by `username` becomes.
pub open spec fn chat_message(username: Seq<char>, line: Seq<char>, now: i64) -> MessageView {
    MessageView { timestamp: now, sender: username, style: MessageStyle::User, text: trimmed(line) }
}

/// A broadcast message as the connection of `reader` passes it on: marked as
/// the reader's own where the reader wrote it, and untouched otherwise.
pub open spec fn delivered(reader: Seq<char>, message: MessageView) -> MessageView {
    if message.sender == reader {
        MessageView { style: MessageStyle::Yourself, ..message }
    } else {
        message
    }
}

/// The user name that a handshake payload asks for, if it asks for one: the
/// payload is a JSON object with a string under `username`.
pub open spec fn asked_name(payload: Seq<u8>) -> Option<Seq<char>> {
    match payload_object(payload) {
        Some(object) => requested_name(object),
        None => None,
    }
}

/// The answer for an outcome of a join request.
pub fn join_reply(outcome: JoinOutcome) -> (reply: JoinReply)
    ensures
        reply@ == reply_for(outcome),
{
    match outcome {
        JoinOutcome::Accepted => JoinReply { accepted: true, reason: "Welcome new user".to_owned() },
        JoinOutcome::Rejoined => JoinReply { accepted: true, reason: "Welcome back".to_owned() },
        JoinOutcome::Rejected(_) => JoinReply {
            accepted: false,
            reason: "Username already taken".to_owned(),
        },
    }
}

/// What the server does once the handshake payload is read.
#[derive(Debug, PartialEq, Eq)]
pub struct Handshake {
    /// The answer to send to the client; none where the payload asked for no
    /// name.
    pub reply: Option<JoinReply>,
    /// The announcement to broadcast; there is one for a new user only.
    pub announcement: Option<Message>,
}

/// A handshake step as a mathematical value.
pub struct HandshakeView {
    pub reply: Option<JoinReplyView>,
    pub announcement: Option<MessageView>,
}

impl View for Handshake {
    type V = HandshakeView;

    open spec fn view(&self) -> HandshakeView {
        HandshakeView {
            reply: match self.reply {
                Some(reply) => Some(reply@),
                None => None,
            },
            announcement: message_view(self.announcement),
        }
    }
}

/// One connection.
#[derive(Debug)]
pub struct Connection {
    phase: Phase,
    username: String,
    origin: Origin,
}

/// A connection as a mathematical value.
pub struct ConnectionView {
    pub phase: Phase,
    pub username: Seq<char>,
    pub origin: Origin,
}

impl View for Connection {
    type V = ConnectionView;

    closed spec fn view(&self) -> ConnectionView {
        ConnectionView { phase: self.phase, username: self.username@, origin: self.origin }
    }
}

/// The handshake as one step, taken at the time `now`: from the connection
/// `before`, the registry `known` and the payload read, to the connection
/// `after`, the registry `known_then` and what the server is to do. A payload
/// that asks for no name closes the connection and changes nothing else. A
/// name is asked of the registry: the user goes on to relay unless refused, is
/// answered in any case, and is announced if new.
pub open spec fn handshake_done(
    before: ConnectionView,
    known: Map<Seq<char>, Origin>,
    payload: Seq<u8>,
    now: i64,
    after: ConnectionView,
    known_then: Map<Seq<char>, Origin>,
    step: HandshakeView,
) -> bool {
    match asked_name(payload) {
        None => {
            &&& after == ConnectionView { phase: Phase::Closed, ..before }
            &&& known_then == known
            &&& step == HandshakeView { reply: None, announcement: None }
        },
        Some(username) => {
            let outcome = outcome_of(known, username, before.origin);
            &&& after == ConnectionView {
                phase: if outcome is Rejected {
                    Phase::Closed
                } else {
                    Phase::Relaying
                },
                username,
                origin: before.origin,
            }
            &&& known_then == known_after(known, username, before.origin)
            &&& step == HandshakeView {
                reply: Some(reply_for(outcome)),
                announcement: if outcome is Accepted {
                    Some(join_announcement(username, now))
                } else {
                    None
                },
            }
        },
    }
}

/// One line from the client as one step, taken at the time `now`: an empty
/// line is the end of the stream and closes the connection; any other line
/// is broadcast as a message in the user's name and leaves the connection as
/// it is.
pub open spec fn line_relayed(
    before: ConnectionView,
    line: Seq<char>,
    now: i64,
    after: ConnectionView,
    published: Option<MessageView>,
) -> bool {
    if line.len() == 0 {
        after == (ConnectionView { phase: Phase::Closed, ..before }) && published is None
    } else {
        after == before && published == Some(chat_message(before.username, line, now))
    }
}

impl Connection {
    /// A connection that was just accepted from `origin`: no user name yet.
    pub fn new(origin: Origin) -> (connection: Connection)
        ensures
            connection@ == (ConnectionView { phase: Phase::Handshaking, username: Seq::empty(), origin }),
    {
        Connection { phase: Phase::Handshaking, username: String::new(), origin }
    }

    /// Where the connection stands.
    pub fn phase(&self) -> (phase: Phase)
        ensures
            phase == self@.phase,
    {
        self.phase
    }

    /// The name the user joined under; empty before the handshake.
    pub fn username(&self) -> (username: &str)
        ensures
            username@ == self@.username,
    {
        self.username.as_str()
    }

    /// The address the connection comes from.
    pub fn origin(&self) -> (origin: Origin)
        ensures
            origin == self@.origin,
    {
        self.origin
    }

    /// Ends the connection: the stream ended, or a write to the peer failed.
    /// The registry keeps the name.
    pub fn close(&mut self)
        ensures
            final(self)@ == (ConnectionView { phase: Phase::Closed, ..old(self)@ }),
    {
        self.phase = Phase::Closed;
    }

    /// The handshake, with `now` as the time of the announcement. A payload
    /// that asks for no name ends the connection and leaves the registry
    /// alone. Otherwise the name is asked of the registry: a new user and a
    /// returning one go on to relay, a new user is announced, and a refused
    /// one is closed after the answer.
    pub fn handshake_at(&mut self, registry: &mut Registry, payload: &[u8], now: i64) -> (step: Handshake)
        requires
            old(self)@.phase == Phase::Handshaking,
        ensures
            handshake_done(old(self)@, old(registry)@, payload@, now, final(self)@, final(registry)@, step@),
    {
        let asked = match receive_json(payload) {
            Some(object) => read_join_request(&object),
            None => Err(crate::wire::MalformedMessage),
        };
        let username = match asked {
            Ok(username) => username,
            Err(_) => {
                self.phase = Phase::Closed;
                return Handshake { reply: None, announcement: None };
            },
        };
        let outcome = registry.register(username.as_str(), self.origin);
        let announcement = match outcome {
            JoinOutcome::Accepted => {
                let mut text = username.clone();
                text.append(" joined chat");
                Some(Message {
                    timestamp: now,
                    sender: "Server".to_owned(),
                    style: MessageStyle::Server,
                    text,
                })
            },
            _ => None,
        };
        self.phase = match outcome {
            JoinOutcome::Rejected(_) => Phase::Closed,
            _ => Phase::Relaying,
        };
        self.username = username;
        Handshake { reply: Some(join_reply(outcome)), announcement }
    }

    /// The handshake at the time the system clock shows. All is as in
    /// `handshake_at`, for some time `now`.
    pub fn handshake(&mut self, registry: &mut Registry, payload: &[u8]) -> (step: Handshake)
        requires
            old(self)@.phase == Phase::Handshaking,
        ensures
            exists|now: i64| handshake_done(old(self)@, old(registry)@, payload@, now, final(self)@, final(registry)@, step@),
    {
        let now = unix_time_now();
        self.handshake_at(registry, payload, now)
    }

    /// One line read from the client, with `now` as the time it was taken
    /// in. An empty line is the end of the stream and closes the connection;
    /// any other line becomes a message in the user's name, trimmed, for the
    /// caller to broadcast.
    pub fn relay_line_at(&mut self, line: &str, now: i64) -> (published: Option<Message>)
        requires
            old(self)@.phase == Phase::Relaying,
        ensures
            line_relayed(old(self)@, line@, now, final(self)@, message_view(published)),
    {
        if line.is_empty() {
            self.phase = Phase::Closed;
            return None;
        }
        Some(Message {
            timestamp: now,
            sender: self.username.clone(),
            style: MessageStyle::User,
            text: line.trim().to_owned(),
        })
    }

    /// One line read from the client, taken in at the time the system clock
    /// shows. All is as in `relay_line_at`, for some time `now`.
    pub fn relay_line(&mut self, line: &str) -> (published: Option<Message>)
        requires
            old(self)@.phase == Phase::Relaying,
        ensures
            exists|now: i64| line_relayed(old(self)@, line@, now, final(self)@, message_view(published)),
    {
        let now = unix_time_now();
        self.relay_line_at(line, now)
    }

    /// A broadcast message as this connection passes it on to its client:
    /// in the style `Yourself` where the user of this connection wrote it,
    /// and as it was broadcast otherwise. Only a connection that relays
    /// passes anything on.
    pub fn deliver(&self, message: Message) -> (res: Message)
        requires
            self@.phase == Phase::Relaying,
        ensures
            res@ == delivered(self@.username, message@),
    {
        if message.sender == self.username {
            message.with_style(MessageStyle::Yourself)
        } else {
            message
        }
    }

    /// The frame that carries a broadcast message to this connection's
    /// client. A message too long for a frame gives `PayloadTooLarge`; the
    /// connection goes on without it.
    pub fn deliver_frame(&self, message: Message) -> (res: Result<Vec<u8>, FrameError>)
        requires
            self@.phase == Phase::Relaying,
        ensures
            bytes_of(res) == framed_text(object_text(message_members(delivered(self@.username, message@)))),
    {
        send_message(self.deliver(message))
    }
}

/// A connection changes nothing of a broadcast message but its style, and
/// that only for the message's own sender.
pub proof fn lemma_delivery_keeps_message(reader: Seq<char>, message: MessageView)
    ensures
        delivered(reader, message).timestamp == message.timestamp,
        delivered(reader, message).sender == message.sender,
        delivered(reader, message).text == message.text,
        delivered(reader, message).style == if message.sender == reader {
            MessageStyle::Yourself
        } else {
            message.style
        },
{
}

/// The line that a user writes comes back to that user's own connection in
/// the style `Yourself`, and reaches the connection of every user of another
/// name as it was broadcast, in the style `User`.
pub proof fn lemma_own_line_marked(writer: Seq<char>, reader: Seq<char>, line: Seq<char>, now: i64)
    ensures
        delivered(writer, chat_message(writer, line, now)) == (MessageView {
            style: MessageStyle::Yourself,
            ..chat_message(writer, line, now)
        }),
        reader != writer ==> delivered(reader, chat_message(writer, line, now)) == chat_message(writer, line, now),
        chat_message(writer, line, now).style == MessageStyle::User,
{
}

/// What is broadcast bears the true role of its author: a user's line goes
/// out in the style `User` under the user's name, and an announcement in the
/// style `Server`. No broadcast is in the style `Yourself`; only a delivery
/// is.
pub proof fn lemma_broadcast_bears_true_role(username: Seq<char>, line: Seq<char>, now: i64)
    ensures
        chat_message(username, line, now).style == MessageStyle::User,
        chat_message(username, line, now).sender == username,
        join_announcement(username, now).style == MessageStyle::Server,
{
}

} // verus!
