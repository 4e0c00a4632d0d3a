//! The chat message and the style it is shown in.

use vstd::prelude::*;

verus! {

/// How a message is to be shown: by whose hand it came.
#[derive(Clone, Copy, Debug, PartialEq, Eq, Structural)]
pub enum MessageStyle {
    /// Written by another user.
    User,
    /// Written by the user who is reading it.
    Yourself,
    /// Written by an administrator.
    Admin,
    /// Announced by the server itself.
    Server,
}

impl MessageStyle {
    /// The number that stands for this style on the wire.
    pub open spec fn spec_code(self) -> i64 {
        match self {
            MessageStyle::User => 0,
            MessageStyle::Yourself => 1,
            MessageStyle::Admin => 2,
            MessageStyle::Server => 3,
        }
    }

    /// The style that a wire number stands for, if it stands for one.
    pub open spec fn spec_from_code(code: i64) -> Option<MessageStyle> {
        if code == 0 {
            Some(MessageStyle::User)
        } else if code == 1 {
            Some(MessageStyle::Yourself)
        } else if code == 2 {
            Some(MessageStyle::Admin)
        } else if code == 3 {
            Some(MessageStyle::Server)
        } else {
            None
        }
    }

    /// The number that stands for this style on the wire.
    #[verifier::when_used_as_spec(spec_code)]
    pub fn code(self) -> (code: i64)
        ensures
            code == self.spec_code(),
            0 <= code <= 3,
    {
        match self {
            MessageStyle::User => 0,
            MessageStyle::Yourself => 1,
            MessageStyle::Admin => 2,
            MessageStyle::Server => 3,
        }
    }

    /// Reads a style from its wire number; numbers outside `0..=3` stand for
    /// no style.
    #[verifier::when_used_as_spec(spec_from_code)]
    pub fn from_code(code: i64) -> (style: Option<MessageStyle>)
        ensures
            style == MessageStyle::spec_from_code(code),
            style is Some <==> 0 <= code <= 3,
    {
        if code == 0 {
            Some(MessageStyle::User)
        } else if code == 1 {
            Some(MessageStyle::Yourself)
        } else if code == 2 {
            Some(MessageStyle::Admin)
        } else if code == 3 {
            Some(MessageStyle::Server)
        } else {
            None
        }
    }
}

/// Every style is read back from its own wire number, and a wire number that
/// stands for a style is the number of that style.
pub proof fn lemma_style_code_round_trip(style: MessageStyle, code: i64)
    ensures
        MessageStyle::spec_from_code(style.spec_code()) == Some(style),
        MessageStyle::spec_from_code(code) matches Some(s) ==> s.spec_code() == code,
{
}

/// One chat message.
#[derive(Debug, PartialEq, Eq)]
pub struct Message {
    /// Seconds since the epoch at which the server took the message in.
    pub timestamp: i64,
    /// The user name of the author, or the server's own name.
    pub sender: String,
    /// How the reader is to show it.
    pub style: MessageStyle,
    /// What was said.
    pub text: String,
}

/// A message as a mathematical value.
pub struct MessageView {
    pub timestamp: i64,
    pub sender: Seq<char>,
    pub style: MessageStyle,
    pub text: Seq<char>,
}

impl View for Message {
    type V = MessageView;

    open spec fn view(&self) -> MessageView {
        MessageView {
            timestamp: self.timestamp,
            sender: self.sender@,
            style: self.style,
            text: self.text@,
        }
    }
}

/// A message that may be missing, as a mathematical value.
pub open spec fn message_view(message: Option<Message>) -> Option<MessageView> {
    match message {
        Some(message) => Some(message@),
        None => None,
    }
}

impl Clone for Message {
    fn clone(&self) -> (res: Message)
        ensures
            res@ == self@,
    {
        Message {
            timestamp: self.timestamp,
            sender: self.sender.clone(),
            style: self.style,
            text: self.text.clone(),
        }
    }
}

impl Message {
    /// The same message in another style.
    pub fn with_style(self, style: MessageStyle) -> (res: Message)
        ensures
            res@ == (MessageView { style: style, ..self@ }),
    {
        Message { timestamp: self.timestamp, sender: self.sender, style: style, text: self.text }
    }
}

} // verus!
