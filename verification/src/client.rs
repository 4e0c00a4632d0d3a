//! The client's side of a chat: which user names it lets through, what it
//! keeps of the conversation, and what each key does to the line being
//! written. The functions here decide; the terminal and the socket are the
//! caller's.

use vstd::prelude::*;
use vstd::string::{StrSliceExecFns, StringExecFns};
use vstd::utf8::encode_utf8;
use crate::clock::{format_time, time_of_day, unix_time_now};
use crate::message::{Message, MessageStyle, MessageView};
use crate::text::lowercase;
use crate::wire::{message_of, payload_object, read_message, receive_json, MalformedMessage};

verus! {

/// The most characters that the line being written may hold.
pub const MESSAGE_MAX_LENGTH: usize = 256;

/// The milliseconds that must pass between two drawings of the screen.
pub const MIN_FRAMETIME: i64 = 41;

/// The fewest characters of a user name.
pub const USERNAME_MIN_LENGTH: usize = 3;

/// The most characters of a user name.
pub const USERNAME_MAX_LENGTH: usize = 16;

/// Whether the client lets a user name through to the server: it has 3 to 16
/// characters.
pub fn username_allowed(username: &str) -> (allowed: bool)
    ensures
        allowed == (USERNAME_MIN_LENGTH <= username@.len() <= USERNAME_MAX_LENGTH),
{
    let length = username.unicode_len();
    USERNAME_MIN_LENGTH <= length && length <= USERNAME_MAX_LENGTH
}

/// Whether the screen is to be drawn now: something changed since the last
/// drawing, and more than `MIN_FRAMETIME` milliseconds have passed since.
pub fn redraw_due(pending: bool, now: i64, last: i64) -> (due: bool)
    ensures
        due == (pending && now - last > MIN_FRAMETIME),
{
    pending && (now as i128) - (last as i128) > (MIN_FRAMETIME as i128)
}

/// The bytes that carry one line of chat to the server: the text and a line
/// feed.
pub fn outgoing_line(text: String) -> (bytes: Vec<u8>)
    ensures
        bytes@ == encode_utf8(text@.push('\n')),
{
    let mut line = text;
    line.push('\n');
    line.as_str().as_bytes_vec()
}

/// What the line being written is for.
#[derive(Clone, Copy, Debug, PartialEq, Eq, Structural)]
pub enum InputMode {
    /// It is sent to the chat.
    Chatting,
    /// It is a command to the client itself.
    System,
}

impl InputMode {
    /// The other mode.
    pub open spec fn spec_toggled(self) -> InputMode {
        match self {
            InputMode::Chatting => InputMode::System,
            InputMode::System => InputMode::Chatting,
        }
    }

    /// The other mode.
    #[verifier::when_used_as_spec(spec_toggled)]
    pub fn toggled(self) -> (mode: InputMode)
        ensures
            mode == self.spec_toggled(),
    {
        match self {
            InputMode::Chatting => InputMode::System,
            InputMode::System => InputMode::Chatting,
        }
    }

    /// The characters of the label in front of the line being written.
    pub open spec fn spec_label_width(self) -> usize {
        match self {
            InputMode::Chatting => 5,
            InputMode::System => 8,
        }
    }

    /// The label in front of the line being written.
    pub fn label(self) -> (label: &'static str)
        ensures
            label@ == (if self == InputMode::Chatting {
                "CHAT>"@
            } else {
                "COMMAND>"@
            }),
            label@.len() == self.spec_label_width(),
    {
        proof {
            reveal_strlit("CHAT>");
            reveal_strlit("COMMAND>");
        }
        match self {
            InputMode::Chatting => "CHAT>",
            InputMode::System => "COMMAND>",
        }
    }
}

/// A key as the client tells them apart.
#[derive(Clone, Copy, Debug, PartialEq, Eq, Structural)]
pub enum Key {
    Enter,
    Char(char),
    Backspace,
    Esc,
    /// Any other key.
    Other,
}

/// A command to the client itself.
#[derive(Clone, Copy, Debug, PartialEq, Eq, Structural)]
pub enum Command {
    /// Leave the chat.
    Quit,
    /// Show which commands there are.
    Help,
    /// Anything else.
    Unknown,
}

/// The command that a line in lower case stands for.
pub open spec fn command_of(lowered: Seq<char>) -> Command {
    if lowered == "exit"@ || lowered == "e"@ || lowered == "quit"@ || lowered == "q"@ {
        Command::Quit
    } else if lowered == "help"@ || lowered == "?"@ {
        Command::Help
    } else {
        Command::Unknown
    }
}

/// Reads a command from a line that is already in lower case.
pub fn read_command(lowered: &str) -> (command: Command)
    ensures
        command == command_of(lowered@),
{
    let word = lowered.to_owned();
    if word == "exit".to_owned() || word == "e".to_owned() || word == "quit".to_owned()
        || word == "q".to_owned() {
        Command::Quit
    } else if word == "help".to_owned() || word == "?".to_owned() {
        Command::Help
    } else {
        Command::Unknown
    }
}

/// One line of the conversation as the client keeps it.
#[derive(Debug, PartialEq, Eq)]
pub enum Entry {
    /// A message that the server delivered.
    Delivered(Message),
    /// A note of the client's own, with the time it was made.
    Notice { timestamp: i64, text: String },
}

/// An entry as a mathematical value.
pub enum EntryView {
    Delivered(MessageView),
    Notice { timestamp: i64, text: Seq<char> },
}

impl View for Entry {
    type V = EntryView;

    open spec fn view(&self) -> EntryView {
        match *self {
            Entry::Delivered(message) => EntryView::Delivered(message@),
            Entry::Notice { timestamp, text } => EntryView::Notice { timestamp, text: text@ },
        }
    }
}

/// How a piece of a line on the screen is painted.
#[derive(Clone, Copy, Debug, PartialEq, Eq, Structural)]
pub enum Paint {
    Green,
    Yellow,
    Magenta,
    Blue,
    White,
    /// White and bold.
    WhiteBold,
    /// Grey and italic.
    GreyItalic,
    /// On a blue ground.
    OnBlue,
    /// On a white ground.
    OnWhite,
}

/// The paints of a message in a style: first that of the sender's name, then
/// that of the text.
pub open spec fn paints_of(style: MessageStyle) -> (Paint, Paint) {
    match style {
        MessageStyle::User => (Paint::Green, Paint::White),
        MessageStyle::Yourself => (Paint::Yellow, Paint::White),
        MessageStyle::Admin => (Paint::Magenta, Paint::White),
        MessageStyle::Server => (Paint::OnBlue, Paint::Blue),
    }
}

/// The paints of a note of the client's own.
pub open spec fn notice_paints() -> (Paint, Paint) {
    (Paint::OnWhite, Paint::WhiteBold)
}

/// The paint of the time in front of every line.
pub const TIME_PAINT: Paint = Paint::GreyItalic;

/// The name under which the client's own notes are shown.
pub open spec fn notice_sender() -> Seq<char> {
    "System"@
}

/// The paints of a message in a style: first that of the sender's name, then
/// that of the text.
pub fn paints(style: MessageStyle) -> (res: (Paint, Paint))
    ensures
        res == paints_of(style),
{
    match style {
        MessageStyle::User => (Paint::Green, Paint::White),
        MessageStyle::Yourself => (Paint::Yellow, Paint::White),
        MessageStyle::Admin => (Paint::Magenta, Paint::White),
        MessageStyle::Server => (Paint::OnBlue, Paint::Blue),
    }
}

/// Hour and minute, in UTC, of the instant `timestamp` seconds from the
/// epoch, as `chrono` shows them; `None` for a number of seconds that
/// `chrono` has no instant for.
pub fn time_of_day_text(timestamp: i64) -> (text: Option<String>)
    ensures
        match text {
            Some(shown) => time_of_day(timestamp) == Some(shown@),
            None => time_of_day(timestamp) is None,
        },
{
    format_time(timestamp, "%H:%M")
}

/// One line of the conversation as it is laid out on the screen: the time in
/// square brackets, the sender, a colon, and the text.
pub fn message_line(time: &str, sender: &str, text: &str) -> (line: String)
    ensures
        line@ == "["@ + time@ + "] "@ + sender@ + ": "@ + text@,
{
    let mut line = "[".to_owned();
    line.append(time);
    line.append("] ");
    line.append(sender);
    line.append(": ");
    line.append(text);
    line
}

/// The time an entry bears.
pub open spec fn entry_timestamp(entry: EntryView) -> i64 {
    match entry {
        EntryView::Delivered(message) => message.timestamp,
        EntryView::Notice { timestamp, .. } => timestamp,
    }
}

/// The name an entry is shown under: the sender of a message, and the
/// client's own name for its notes.
pub open spec fn entry_sender(entry: EntryView) -> Seq<char> {
    match entry {
        EntryView::Delivered(message) => message.sender,
        EntryView::Notice { .. } => notice_sender(),
    }
}

/// What an entry says.
pub open spec fn entry_text(entry: EntryView) -> Seq<char> {
    match entry {
        EntryView::Delivered(message) => message.text,
        EntryView::Notice { text, .. } => text,
    }
}

/// The paints of an entry: first that of the sender's name, then that of the
/// text.
pub open spec fn entry_paints(entry: EntryView) -> (Paint, Paint) {
    match entry {
        EntryView::Delivered(message) => paints_of(message.style),
        EntryView::Notice { .. } => notice_paints(),
    }
}

impl Entry {
    /// The time the entry bears.
    pub fn timestamp(&self) -> (timestamp: i64)
        ensures
            timestamp == entry_timestamp(self@),
    {
        match self {
            Entry::Delivered(message) => message.timestamp,
            Entry::Notice { timestamp, .. } => *timestamp,
        }
    }

    /// The name the entry is shown under.
    pub fn sender(&self) -> (sender: &str)
        ensures
            sender@ == entry_sender(self@),
    {
        match self {
            Entry::Delivered(message) => message.sender.as_str(),
            Entry::Notice { .. } => "System",
        }
    }

    /// What the entry says.
    pub fn text(&self) -> (text: &str)
        ensures
            text@ == entry_text(self@),
    {
        match self {
            Entry::Delivered(message) => message.text.as_str(),
            Entry::Notice { text, .. } => text.as_str(),
        }
    }

    /// The paints of the entry: first that of the sender's name, then that
    /// of the text.
    pub fn paints(&self) -> (res: (Paint, Paint))
        ensures
            res == entry_paints(self@),
    {
        match self {
            Entry::Delivered(message) => paints(message.style),
            Entry::Notice { .. } => (Paint::OnWhite, Paint::WhiteBold),
        }
    }
}

/// What the caller is to do after a key.
#[derive(Debug, PartialEq, Eq)]
pub enum Reaction {
    /// Draw the screen anew.
    Redraw,
    /// Send this line to the server, and draw the screen anew.
    Send(String),
    /// Leave the chat.
    Quit,
}

/// A reaction as a mathematical value.
pub enum ReactionView {
    Redraw,
    Send(Seq<char>),
    Quit,
}

impl View for Reaction {
    type V = ReactionView;

    open spec fn view(&self) -> ReactionView {
        match *self {
            Reaction::Redraw => ReactionView::Redraw,
            Reaction::Send(line) => ReactionView::Send(line@),
            Reaction::Quit => ReactionView::Quit,
        }
    }
}

/// The conversation and the line being written.
#[derive(Debug)]
pub struct Chat {
    log: Vec<Entry>,
    input: String,
    input_mode: InputMode,
}

/// A chat as a mathematical value.
pub struct ChatView {
    /// What waits to be drawn, oldest first.
    pub log: Seq<EntryView>,
    pub input: Seq<char>,
    pub input_mode: InputMode,
}

/// The entries of a list as mathematical values.
pub open spec fn entries_view(log: Seq<Entry>) -> Seq<EntryView> {
    log.map_values(|entry: Entry| entry@)
}

impl View for Chat {
    type V = ChatView;

    closed spec fn view(&self) -> ChatView {
        ChatView { log: entries_view(self.log@), input: self.input@, input_mode: self.input_mode }
    }
}

/// The note that answers the command `Help`.
pub open spec fn help_text() -> Seq<char> {
    "(E)xit, (Q)uit - closes app"@
}

/// The note that answers a command the client does not know.
pub open spec fn unknown_text() -> Seq<char> {
    "Unknown command"@
}

/// A chat with one more note at the end of its conversation and an empty
/// line.
pub open spec fn noted(chat: ChatView, now: i64, text: Seq<char>) -> ChatView {
    ChatView {
        log: chat.log.push(EntryView::Notice { timestamp: now, text }),
        input: Seq::empty(),
        ..chat
    }
}

/// The chat after a key was pressed at the time `now`.
pub open spec fn chat_after_key(chat: ChatView, key: Key, now: i64) -> ChatView {
    match key {
        Key::Enter => match chat.input_mode {
            InputMode::Chatting => ChatView { input: Seq::empty(), ..chat },
            InputMode::System => match command_of(lowercase(chat.input)) {
                Command::Quit => chat,
                Command::Help => noted(chat, now, help_text()),
                Command::Unknown => noted(chat, now, unknown_text()),
            },
        },
        Key::Char(c) => if chat.input.len() < MESSAGE_MAX_LENGTH {
            ChatView { input: chat.input.push(c), ..chat }
        } else {
            chat
        },
        Key::Backspace => if chat.input.len() > 0 {
            ChatView { input: chat.input.drop_last(), ..chat }
        } else {
            chat
        },
        Key::Esc => ChatView {
            input: Seq::empty(),
            input_mode: chat.input_mode.spec_toggled(),
            ..chat
        },
        Key::Other => chat,
    }
}

/// What the caller is to do after a key was pressed.
pub open spec fn reaction_to_key(chat: ChatView, key: Key) -> ReactionView {
    match key {
        Key::Enter => match chat.input_mode {
            InputMode::Chatting => ReactionView::Send(chat.input),
            InputMode::System => match command_of(lowercase(chat.input)) {
                Command::Quit => ReactionView::Quit,
                _ => ReactionView::Redraw,
            },
        },
        _ => ReactionView::Redraw,
    }
}

/// The part of the line being written that fits on `capacity` columns: its
/// end.
pub open spec fn visible_part(input: Seq<char>, capacity: int) -> Seq<char> {
    if input.len() > capacity {
        input.subrange(input.len() - capacity, input.len() as int)
    } else {
        input
    }
}

/// The chat message that a payload holds, if it holds one.
pub open spec fn payload_message(payload: Seq<u8>) -> Option<MessageView> {
    match payload_object(payload) {
        Some(object) => message_of(object),
        None => None,
    }
}

impl Default for Chat {
    /// A chat in which nothing was said or written yet.
    fn default() -> (chat: Chat)
        ensures
            chat@ == (ChatView { log: Seq::empty(), input: Seq::empty(), input_mode: InputMode::Chatting }),
    {
        let chat = Chat { log: Vec::new(), input: String::new(), input_mode: InputMode::Chatting };
        assert(entries_view(chat.log@) =~= Seq::empty());
        chat
    }
}

impl Chat {
    /// The line being written.
    pub fn input(&self) -> (input: &str)
        ensures
            input@ == self@.input,
    {
        self.input.as_str()
    }

    /// What the line being written is for.
    pub fn input_mode(&self) -> (mode: InputMode)
        ensures
            mode == self@.input_mode,
    {
        self.input_mode
    }

    /// How many entries wait to be drawn.
    pub fn pending(&self) -> (count: usize)
        ensures
            count == self@.log.len(),
    {
        self.log.len()
    }

    /// Whether the line being written has reached `MESSAGE_MAX_LENGTH`
    /// characters and takes no more.
    pub fn input_full(&self) -> (full: bool)
        ensures
            full == (self@.input.len() >= MESSAGE_MAX_LENGTH),
    {
        self.input.as_str().unicode_len() >= MESSAGE_MAX_LENGTH
    }

    /// Puts a note of the client's own at the end of the conversation and
    /// empties the line being written.
    fn note(&mut self, now: i64, text: &str)
        ensures
            final(self)@ == noted(old(self)@, now, text@),
    {
        self.log.push(Entry::Notice { timestamp: now, text: text.to_owned() });
        self.input.clear();
        assert(entries_view(self.log@) =~= entries_view(old(self).log@).push(
            EntryView::Notice { timestamp: now, text: text@ },
        ));
    }

    /// One key, pressed at the time `now`. Enter sends the line in chat mode
    /// and runs it as a command otherwise; a character goes to the end of
    /// the line while there is room; backspace takes the last one off; escape
    /// empties the line and changes the mode.
    pub fn on_key_at(&mut self, key: Key, now: i64) -> (reaction: Reaction)
        ensures
            final(self)@ == chat_after_key(old(self)@, key, now),
            reaction@ == reaction_to_key(old(self)@, key),
    {
        match key {
            Key::Enter => match self.input_mode {
                InputMode::Chatting => {
                    let mut line = String::new();
                    core::mem::swap(&mut self.input, &mut line);
                    Reaction::Send(line)
                },
                InputMode::System => {
                    let lowered = self.input.as_str().to_lowercase();
                    match read_command(lowered.as_str()) {
                        Command::Quit => Reaction::Quit,
                        Command::Help => {
                            self.note(now, "(E)xit, (Q)uit - closes app");
                            Reaction::Redraw
                        },
                        Command::Unknown => {
                            self.note(now, "Unknown command");
                            Reaction::Redraw
                        },
                    }
                },
            },
            Key::Char(c) => {
                if self.input.as_str().unicode_len() < MESSAGE_MAX_LENGTH {
                    self.input.push(c);
                }
                Reaction::Redraw
            },
            Key::Backspace => {
                let _ = self.input.pop();
                Reaction::Redraw
            },
            Key::Esc => {
                self.input.clear();
                self.input_mode = self.input_mode.toggled();
                Reaction::Redraw
            },
            Key::Other => Reaction::Redraw,
        }
    }

    /// One key, pressed at the time the system clock shows. All is as in
    /// `on_key_at`, for some time `now`.
    pub fn on_key(&mut self, key: Key) -> (reaction: Reaction)
        ensures
            exists|now: i64| final(self)@ == chat_after_key(old(self)@, key, now),
            reaction@ == reaction_to_key(old(self)@, key),
    {
        let now = unix_time_now();
        self.on_key_at(key, now)
    }

    /// Takes in the payload of one frame from the server. A chat message
    /// goes to the end of the conversation; anything else is refused and
    /// changes nothing.
    pub fn take_in(&mut self, payload: &[u8]) -> (res: Result<(), MalformedMessage>)
        ensures
            match payload_message(payload@) {
                Some(message) => res is Ok && final(self)@ == (ChatView {
                    log: old(self)@.log.push(EntryView::Delivered(message)),
                    ..old(self)@
                }),
                None => res is Err && final(self)@ == old(self)@,
            },
    {
        let message = match receive_json(payload) {
            Some(object) => match read_message(&object) {
                Ok(message) => message,
                Err(e) => return Err(e),
            },
            None => return Err(MalformedMessage),
        };
        self.log.push(Entry::Delivered(message));
        assert(entries_view(self.log@) =~= entries_view(old(self).log@).push(
            EntryView::Delivered(message@),
        ));
        Ok(())
    }

    /// Hands out what waits to be drawn, newest first, and keeps none of it.
    pub fn drain_log(&mut self) -> (entries: Vec<Entry>)
        ensures
            entries_view(entries@) == old(self)@.log.reverse(),
            final(self)@ == (ChatView { log: Seq::empty(), ..old(self)@ }),
    {
        let mut entries: Vec<Entry> = Vec::new();
        let ghost all = self.log@;
        while self.log.len() > 0
            invariant
                self.input == old(self).input,
                self.input_mode == old(self).input_mode,
                self.log@.len() + entries@.len() == all.len(),
                self.log@ == all.subrange(0, self.log@.len() as int),
                forall|i: int| 0 <= i < entries@.len() ==> entries@[i] == all[all.len() - 1 - i],
            decreases self.log.len(),
        {
            let entry = self.log.pop().unwrap();
            entries.push(entry);
        }
        assert(entries_view(self.log@) =~= Seq::empty());
        entries
    }

    /// The part of the line being written that fits beside the label on a
    /// screen `width` columns wide: the end of the line, one column being
    /// left free between label and line.
    pub fn visible_input(&self, width: usize) -> (shown: String)
        requires
            width > self@.input_mode.spec_label_width(),
        ensures
            shown@ == visible_part(self@.input, width - self@.input_mode.spec_label_width() - 1),
    {
        let label_width = self.input_mode.label().unicode_len();
        let capacity = width - label_width - 1;
        let length = self.input.as_str().unicode_len();
        if length > capacity {
            self.input.as_str().substring_char(length - capacity, length).to_owned()
        } else {
            self.input.clone()
        }
    }
}

} // verus!
