//! What travels between server and client: JSON objects in frames. The join
//! request, the join reply and the chat message each have their own keys.

use vstd::prelude::*;
use vstd::utf8::{decode_utf8, encode_utf8, valid_utf8};
use crate::frame::{bytes_of, encode, encoded, FrameError};
use crate::json::{
    member, members, new_object, no_members, object_text, parse, parsed_object, put, render,
    Found, Member, Scalar,
};
use crate::message::{Message, MessageStyle, MessageView};

verus! {

/// A JSON object that lacks a key of its kind, holds a value of the wrong
/// type under one, or holds a style number that stands for no style.
#[derive(Clone, Copy, Debug, PartialEq, Eq, Structural)]
pub struct MalformedMessage;

/// The frame that carries a JSON text.
pub open spec fn framed_text(text: Seq<char>) -> Result<Seq<u8>, FrameError> {
    encoded(encode_utf8(text))
}

/// Frames the compact text of a JSON object. A text of more than 65535
/// bytes is refused with `PayloadTooLarge` and no frame is made.
pub fn send_json(data: serde_json::Map<String, serde_json::Value>) -> (res: Result<Vec<u8>, FrameError>)
    ensures
        bytes_of(res) == framed_text(object_text(members(data))),
{
    let text = render(data);
    encode(text.as_str().as_bytes())
}

/// What a payload holds as a JSON object: its members, if the payload is
/// UTF-8 and parses.
pub open spec fn payload_object(payload: Seq<u8>) -> Option<Map<Seq<char>, Member>> {
    if valid_utf8(payload) {
        parsed_object(decode_utf8(payload))
    } else {
        None
    }
}

/// Reads the payload of one frame as a JSON object. Bytes that are not UTF-8
/// and text that does not parse give `None`.
pub fn receive_json(payload: &[u8]) -> (res: Option<serde_json::Map<String, serde_json::Value>>)
    ensures
        match res {
            Some(object) => payload_object(payload@) == Some(members(object)),
            None => payload_object(payload@) is None,
        },
{
    match core::str::from_utf8(payload) {
        Ok(text) => match parse(text) {
            Ok(object) => Some(object),
            Err(_) => None,
        },
        Err(_) => None,
    }
}

/// The members of the JSON object that stands for a chat message.
pub open spec fn message_members(message: MessageView) -> Map<Seq<char>, Member> {
    no_members()
        .insert("timestamp"@, Member::Integer(message.timestamp))
        .insert("sender"@, Member::Text(message.sender))
        .insert("style"@, Member::Integer(message.style.spec_code()))
        .insert("text"@, Member::Text(message.text))
}

/// The chat message that a JSON object stands for: all four keys present,
/// numbers and strings where they belong, and a style number that stands for
/// a style.
pub open spec fn message_of(object: Map<Seq<char>, Member>) -> Option<MessageView> {
    if object.contains_key("timestamp"@) && object.contains_key("sender"@)
        && object.contains_key("style"@) && object.contains_key("text"@) {
        match (object["timestamp"@], object["sender"@], object["style"@], object["text"@]) {
            (
                Member::Integer(timestamp),
                Member::Text(sender),
                Member::Integer(code),
                Member::Text(text),
            ) => match MessageStyle::spec_from_code(code) {
                Some(style) => Some(MessageView { timestamp, sender, style, text }),
                None => None,
            },
            _ => None,
        }
    } else {
        None
    }
}

/// The JSON object that stands for a chat message.
pub fn message_object(message: &Message) -> (object: serde_json::Map<String, serde_json::Value>)
    ensures
        members(object) == message_members(message@),
{
    let mut object = new_object();
    put(&mut object, "timestamp", Scalar::Integer(message.timestamp));
    put(&mut object, "sender", Scalar::Text(message.sender.as_str()));
    put(&mut object, "style", Scalar::Integer(message.style.code()));
    put(&mut object, "text", Scalar::Text(message.text.as_str()));
    object
}

/// Reads a chat message from a JSON object.
pub fn read_message(object: &serde_json::Map<String, serde_json::Value>) -> (res: Result<Message, MalformedMessage>)
    ensures
        match res {
            Ok(message) => message_of(members(*object)) == Some(message@),
            Err(_) => message_of(members(*object)) is None,
        },
{
    let timestamp = match member(object, "timestamp") {
        Found::Integer(timestamp) => timestamp,
        _ => return Err(MalformedMessage),
    };
    let sender = match member(object, "sender") {
        Found::Text(sender) => sender,
        _ => return Err(MalformedMessage),
    };
    let code = match member(object, "style") {
        Found::Integer(code) => code,
        _ => return Err(MalformedMessage),
    };
    let text = match member(object, "text") {
        Found::Text(text) => text,
        _ => return Err(MalformedMessage),
    };
    match MessageStyle::from_code(code) {
        Some(style) => Ok(Message { timestamp, sender, style, text }),
        None => Err(MalformedMessage),
    }
}

/// Frames a chat message as its JSON object.
pub fn send_message(data: Message) -> (res: Result<Vec<u8>, FrameError>)
    ensures
        bytes_of(res) == framed_text(object_text(message_members(data@))),
{
    send_json(message_object(&data))
}

/// The members of a join request: the user name that the client asks for.
pub open spec fn join_request_members(username: Seq<char>) -> Map<Seq<char>, Member> {
    no_members().insert("username"@, Member::Text(username))
}

/// The user name that a join request asks for: the string under `username`.
pub open spec fn requested_name(object: Map<Seq<char>, Member>) -> Option<Seq<char>> {
    if object.contains_key("username"@) {
        match object["username"@] {
            Member::Text(username) => Some(username),
            _ => None,
        }
    } else {
        None
    }
}

/// The join request of a client that wants to be known as `username`.
pub fn join_request(username: &str) -> (object: serde_json::Map<String, serde_json::Value>)
    ensures
        members(object) == join_request_members(username@),
{
    let mut object = new_object();
    put(&mut object, "username", Scalar::Text(username));
    object
}

/// Reads the user name from a join request.
pub fn read_join_request(object: &serde_json::Map<String, serde_json::Value>) -> (res: Result<String, MalformedMessage>)
    ensures
        match res {
            Ok(username) => requested_name(members(*object)) == Some(username@),
            Err(_) => requested_name(members(*object)) is None,
        },
{
    match member(object, "username") {
        Found::Text(username) => Ok(username),
        _ => Err(MalformedMessage),
    }
}

/// The server's answer to a join request.
#[derive(Debug, PartialEq, Eq)]
pub struct JoinReply {
    /// Whether the client may go on to chat.
    pub accepted: bool,
    /// A sentence for the user.
    pub reason: String,
}

/// A join reply as a mathematical value.
pub struct JoinReplyView {
    pub accepted: bool,
    pub reason: Seq<char>,
}

impl View for JoinReply {
    type V = JoinReplyView;

    open spec fn view(&self) -> JoinReplyView {
        JoinReplyView { accepted: self.accepted, reason: self.reason@ }
    }
}

/// The word under `result` in a join reply.
pub open spec fn result_word(accepted: bool) -> Seq<char> {
    if accepted {
        "ok"@
    } else {
        "no"@
    }
}

/// The members of the JSON object that stands for a join reply.
pub open spec fn join_reply_members(reply: JoinReplyView) -> Map<Seq<char>, Member> {
    no_members()
        .insert("result"@, Member::Text(result_word(reply.accepted)))
        .insert("reason"@, Member::Text(reply.reason))
}

/// The join reply that a JSON object stands for: `result` holds `ok` or
/// `no`, and `reason` holds a string.
pub open spec fn join_reply_of(object: Map<Seq<char>, Member>) -> Option<JoinReplyView> {
    if object.contains_key("result"@) && object.contains_key("reason"@) {
        match (object["result"@], object["reason"@]) {
            (Member::Text(word), Member::Text(reason)) => if word == "ok"@ {
                Some(JoinReplyView { accepted: true, reason })
            } else if word == "no"@ {
                Some(JoinReplyView { accepted: false, reason })
            } else {
                None
            },
            _ => None,
        }
    } else {
        None
    }
}

/// The JSON object that stands for a join reply.
pub fn join_reply_object(reply: &JoinReply) -> (object: serde_json::Map<String, serde_json::Value>)
    ensures
        members(object) == join_reply_members(reply@),
{
    let mut object = new_object();
    if reply.accepted {
        put(&mut object, "result", Scalar::Text("ok"));
    } else {
        put(&mut object, "result", Scalar::Text("no"));
    }
    put(&mut object, "reason", Scalar::Text(reply.reason.as_str()));
    object
}

/// Reads a join reply from a JSON object.
pub fn read_join_reply(object: &serde_json::Map<String, serde_json::Value>) -> (res: Result<JoinReply, MalformedMessage>)
    ensures
        match res {
            Ok(reply) => join_reply_of(members(*object)) == Some(reply@),
            Err(_) => join_reply_of(members(*object)) is None,
        },
{
    let word = match member(object, "result") {
        Found::Text(word) => word,
        _ => return Err(MalformedMessage),
    };
    let reason = match member(object, "reason") {
        Found::Text(reason) => reason,
        _ => return Err(MalformedMessage),
    };
    if word == "ok".to_owned() {
        Ok(JoinReply { accepted: true, reason })
    } else if word == "no".to_owned() {
        Ok(JoinReply { accepted: false, reason })
    } else {
        Err(MalformedMessage)
    }
}

/// Every join request and every join reply is read back from its own JSON
/// object.
pub proof fn lemma_join_round_trip(username: Seq<char>, reply: JoinReplyView)
    ensures
        requested_name(join_request_members(username)) == Some(username),
        join_reply_of(join_reply_members(reply)) == Some(reply),
{
    reveal_strlit("result");
    reveal_strlit("reason");
    reveal_strlit("ok");
    reveal_strlit("no");
    assert("result"@[2] != "reason"@[2]);
    assert("ok"@[0] != "no"@[0]);
}

/// The four keys of a chat message differ from one another.
pub proof fn lemma_message_keys_differ()
    ensures
        "timestamp"@ != "sender"@,
        "timestamp"@ != "style"@,
        "timestamp"@ != "text"@,
        "sender"@ != "style"@,
        "sender"@ != "text"@,
        "style"@ != "text"@,
{
    reveal_strlit("timestamp");
    reveal_strlit("sender");
    reveal_strlit("style");
    reveal_strlit("text");
    assert("timestamp"@.len() == 9);
    assert("sender"@.len() == 6);
    assert("style"@.len() == 5);
    assert("text"@.len() == 4);
}

/// Every chat message is read back from its own JSON object.
pub proof fn lemma_message_round_trip(message: MessageView)
    ensures
        message_of(message_members(message)) == Some(message),
{
    lemma_message_keys_differ();
    crate::message::lemma_style_code_round_trip(message.style, 0);
}

} // verus!
