//! State of the chat client once logged in: the message list, the input
//! line, the participants, and how keys and server notices change them.

use vstd::prelude::*;
use crate::clock::clock_text;
use crate::crypto::{decryption, max_plaintext_len, sealed_message, Crypto, NONCE_LEN};
use crate::protocol::Notice;
use crate::editor::{last_index, EditOp, InputView, ScrollOp, ScrollView};
use crate::text::{append, decimal, decimal_string, insert_char_at, remove_char_at, text, trim, trimmed};
use vstd::string::*;
use vstd::utf8::encode_utf8;

verus! {

/// Which part of the chat screen receives the keys.
#[derive(Debug, Clone, Copy, PartialEq, Eq, Structural)]
pub enum FocusedSection {
    MessageList,
    Input,
}

/// The other section.
pub open spec fn toggled(f: FocusedSection) -> FocusedSection {
    match f {
        FocusedSection::MessageList => FocusedSection::Input,
        FocusedSection::Input => FocusedSection::MessageList,
    }
}

/// Law: a text that `Crypto::encrypt` produced under the room's key (its
/// contract states this decryption) is shown to every member holding the
/// same key as the plaintext that was sent.
pub proof fn members_read_what_was_sent(key: Seq<u8>, sent: Seq<char>, plaintext: Seq<char>)
    requires
        decryption(key, sent) == Ok::<Seq<char>, Seq<char>>(plaintext),
    ensures
        shown_text(key, sent) == plaintext,
{
}

/// Law: toggling the focus twice leaves it where it was.
pub proof fn toggle_twice(f: FocusedSection)
    ensures
        toggled(toggled(f)) == f,
{
}

/// A key of the chat screen.
#[derive(Debug, Clone, Copy)]
pub enum ChatKey {
    Char(char),
    Backspace,
    Delete,
    Left,
    Right,
    Up,
    Down,
    Home,
    End,
    PageUp,
    PageDown,
    Enter,
    Esc,
    /// Shift+Tab.
    ToggleFocus,
    Other,
}

/// What the caller has to do after a key of the chat screen.
#[derive(Debug, PartialEq, Eq, Structural)]
pub enum ChatAction {
    Nothing,
    /// Send the input line (see `App::submit_input`).
    Submit,
    Exit,
}

/// The first line of a session.
pub open spec fn welcome_line(ts: Seq<char>, username: Seq<char>) -> Seq<char> {
    "["@ + ts + "] system: Welcome "@ + username + "! Type a message to broadcast."@
}

/// The first line of a session, stamped `ts`, welcoming `username`.
pub fn welcome_line_text(ts: &str, username: &str) -> (line: String)
    ensures
        line@ == welcome_line(ts@, username@),
{
    let mut line = text("[");
    append(&mut line, ts);
    append(&mut line, "] system: Welcome ");
    append(&mut line, username);
    append(&mut line, "! Type a message to broadcast.");
    line
}

/// A chat line: `[ts] who: what`.
pub open spec fn chat_line(ts: Seq<char>, who: Seq<char>, what: Seq<char>) -> Seq<char> {
    "["@ + ts + "] "@ + who + ": "@ + what
}

/// What is shown of a received message: the decrypted text, or the
/// ciphertext marked as unreadable.
pub open spec fn shown_text(key: Seq<u8>, encrypted: Seq<char>) -> Seq<char> {
    match decryption(key, encrypted) {
        Ok(plain) => plain,
        Err(_) => "[encrypted: "@ + encrypted + "]"@,
    }
}

/// The text of an optional field, or a default.
pub open spec fn or_default(v: Option<String>, default: Seq<char>) -> Seq<char> {
    match v {
        Some(s) => s@,
        None => default,
    }
}

/// The chat client once logged in.
pub struct App {
    pub username: String,
    pub messages: Vec<String>,
    pub input: String,
    pub input_scroll: u16,
    pub input_cursor_pos: usize,
    pub message_scroll: usize,
    pub participants: Vec<String>,
    pub authenticated: bool,
    pub auto_scroll: bool,
    pub focus: FocusedSection,
    pub server_address: String,
    pub room: String,
    pub connected: bool,
}

impl App {
    /// The input line.
    pub open spec fn input_view(&self) -> InputView {
        InputView { text: self.input@, cursor: self.input_cursor_pos as nat }
    }

    /// The message list.
    pub open spec fn scroll_view(&self) -> ScrollView {
        ScrollView {
            count: self.messages@.len(),
            scroll: self.message_scroll as nat,
            auto_scroll: self.auto_scroll,
        }
    }

    /// Everything but the message list (messages, selection, auto-scroll) is
    /// the same in both states.
    pub open spec fn same_besides_messages(&self, other: &App) -> bool {
        &&& self.username == other.username
        &&& self.input == other.input
        &&& self.input_scroll == other.input_scroll
        &&& self.input_cursor_pos == other.input_cursor_pos
        &&& self.participants == other.participants
        &&& self.authenticated == other.authenticated
        &&& self.focus == other.focus
        &&& self.server_address == other.server_address
        &&& self.room == other.room
        &&& self.connected == other.connected
    }

    /// Everything but the input line is the same in both states.
    pub open spec fn same_besides_input(&self, other: &App) -> bool {
        &&& self.username == other.username
        &&& self.messages == other.messages
        &&& self.input_scroll == other.input_scroll
        &&& self.message_scroll == other.message_scroll
        &&& self.participants == other.participants
        &&& self.authenticated == other.authenticated
        &&& self.auto_scroll == other.auto_scroll
        &&& self.focus == other.focus
        &&& self.server_address == other.server_address
        &&& self.room == other.room
        &&& self.connected == other.connected
    }

    /// `other` is this state after appending `line` to the message list.
    pub open spec fn appended(&self, other: &App, line: Seq<char>) -> bool {
        &&& other.same_besides_messages(self)
        &&& other.messages@.len() == self.messages@.len() + 1
        &&& other.messages@.take(self.messages@.len() as int) == self.messages@
        &&& other.messages@.last()@ == line
        &&& other.scroll_view() == self.scroll_view().apply(ScrollOp::Append)
    }

    /// A client that has not logged in yet: empty, focused on the input,
    /// following new messages.
    pub fn new() -> (app: Self)
        ensures
            app.username@.len() == 0,
            app.messages@.len() == 0,
            app.input@.len() == 0,
            app.input_scroll == 0,
            app.input_cursor_pos == 0,
            app.message_scroll == 0,
            app.participants@.len() == 0,
            !app.authenticated,
            app.auto_scroll,
            app.focus == FocusedSection::Input,
            app.server_address@.len() == 0,
            app.room@.len() == 0,
            !app.connected,
    {
        App {
            username: String::new(),
            messages: Vec::new(),
            input: String::new(),
            input_scroll: 0,
            input_cursor_pos: 0,
            message_scroll: 0,
            participants: Vec::new(),
            authenticated: false,
            auto_scroll: true,
            focus: FocusedSection::Input,
            server_address: String::new(),
            room: String::new(),
            connected: false,
        }
    }

    /// Starts a session after a successful login: records the server, the
    /// user and the room, replaces the messages by the welcome line stamped
    /// with the current time, and marks the client authenticated and
    /// connected.
    pub fn init(&mut self, server_address: String, username: String, room: String)
        ensures
            final(self).username@ == username@,
            final(self).server_address@ == server_address@,
            final(self).room@ == room@,
            final(self).messages@.len() == 1,
            exists|secs: u64| final(self).messages@[0]@ == welcome_line(#[trigger] clock_text(secs as nat), username@),
            final(self).authenticated,
            final(self).connected,
            final(self).input == old(self).input,
            final(self).input_scroll == old(self).input_scroll,
            final(self).input_cursor_pos == old(self).input_cursor_pos,
            final(self).message_scroll == old(self).message_scroll,
            final(self).participants == old(self).participants,
            final(self).auto_scroll == old(self).auto_scroll,
            final(self).focus == old(self).focus,
    {
        let ts = crate::clock::get_timestamp();
        let line = welcome_line_text(ts.as_str(), username.as_str());
        self.username = username;
        self.server_address = server_address;
        self.room = room;
        self.messages = vec![line];
        self.authenticated = true;
        self.connected = true;
    }

    /// Appends a line to the message list; with auto-scroll on, the new line
    /// becomes the selected one.
    pub fn add_message(&mut self, msg: String)
        ensures
            old(self).appended(final(self), msg@),
    {
        self.messages.push(msg);
        if self.auto_scroll {
            self.message_scroll = self.messages.len() - 1;
        }
        assert(self.messages@.take(old(self).messages@.len() as int) == old(self).messages@);
    }

    /// Everything but the focus is the same in both states.
    pub open spec fn same_besides_focus(&self, other: &App) -> bool {
        &&& self.username == other.username
        &&& self.messages == other.messages
        &&& self.input == other.input
        &&& self.input_scroll == other.input_scroll
        &&& self.input_cursor_pos == other.input_cursor_pos
        &&& self.message_scroll == other.message_scroll
        &&& self.participants == other.participants
        &&& self.authenticated == other.authenticated
        &&& self.auto_scroll == other.auto_scroll
        &&& self.server_address == other.server_address
        &&& self.room == other.room
        &&& self.connected == other.connected
    }

    /// Replaces the participant list.
    pub fn set_participants(&mut self, participants: Vec<String>)
        ensures
            final(self).participants == participants,
            final(self).same_besides_participants(old(self)),
    {
        self.participants = participants;
    }

    /// Everything but the participants is the same in both states.
    pub open spec fn same_besides_participants(&self, other: &App) -> bool {
        &&& self.username == other.username
        &&& self.messages == other.messages
        &&& self.input == other.input
        &&& self.input_scroll == other.input_scroll
        &&& self.input_cursor_pos == other.input_cursor_pos
        &&& self.message_scroll == other.message_scroll
        &&& self.authenticated == other.authenticated
        &&& self.auto_scroll == other.auto_scroll
        &&& self.focus == other.focus
        &&& self.server_address == other.server_address
        &&& self.room == other.room
        &&& self.connected == other.connected
    }

    /// Selects the previous message and stops following new ones.
    pub fn scroll_up(&mut self)
        ensures
            final(self).scroll_view() == old(self).scroll_view().apply(ScrollOp::Up),
            final(self).messages == old(self).messages,
            final(self).same_besides_messages(old(self)),
    {
        if self.message_scroll > 0 {
            self.message_scroll = self.message_scroll - 1;
            self.auto_scroll = false;
        }
    }

    /// Selects the next message; reaching the last one turns auto-scroll
    /// back on.
    pub fn scroll_down(&mut self)
        ensures
            final(self).scroll_view() == old(self).scroll_view().apply(ScrollOp::Down),
            final(self).messages == old(self).messages,
            final(self).same_besides_messages(old(self)),
    {
        let last = if self.messages.len() > 0 { self.messages.len() - 1 } else { 0 };
        if self.message_scroll < last {
            self.message_scroll = self.message_scroll + 1;
            if self.message_scroll >= last {
                self.auto_scroll = true;
            }
        }
    }

    /// Selects the last message and follows new ones again.
    pub fn scroll_to_bottom(&mut self)
        ensures
            final(self).scroll_view() == old(self).scroll_view().apply(ScrollOp::Bottom),
            final(self).messages == old(self).messages,
            final(self).same_besides_messages(old(self)),
    {
        self.message_scroll = if self.messages.len() > 0 { self.messages.len() - 1 } else { 0 };
        self.auto_scroll = true;
    }

    /// Selects the first message and stops following new ones.
    pub fn scroll_to_top(&mut self)
        ensures
            final(self).scroll_view() == old(self).scroll_view().apply(ScrollOp::Top),
            final(self).messages == old(self).messages,
            final(self).same_besides_messages(old(self)),
    {
        self.message_scroll = 0;
        self.auto_scroll = false;
    }

    /// Moves the focus to the other section.
    pub fn toggle_focus(&mut self)
        ensures
            final(self).focus == toggled(old(self).focus),
            final(self).same_besides_focus(old(self)),
    {
        self.focus = match self.focus {
            FocusedSection::MessageList => FocusedSection::Input,
            FocusedSection::Input => FocusedSection::MessageList,
        };
    }

    /// Moves the cursor one character left.
    pub fn move_cursor_left(&mut self)
        ensures
            final(self).input_view() == old(self).input_view().apply(EditOp::Left),
            final(self).same_besides_input(old(self)),
    {
        if self.input_cursor_pos > 0 {
            self.input_cursor_pos = self.input_cursor_pos - 1;
        }
    }

    /// Moves the cursor one character right, up to the end of the input.
    pub fn move_cursor_right(&mut self)
        ensures
            final(self).input_view() == old(self).input_view().apply(EditOp::Right),
            final(self).same_besides_input(old(self)),
    {
        let char_count = self.input.as_str().unicode_len();
        if self.input_cursor_pos < char_count {
            self.input_cursor_pos = self.input_cursor_pos + 1;
        }
    }

    /// Moves the cursor one wrapped line (of `line_width` characters) up.
    pub fn move_cursor_up(&mut self, line_width: usize)
        ensures
            final(self).input_view() == old(self).input_view().apply(EditOp::Up(line_width as nat)),
            final(self).same_besides_input(old(self)),
    {
        if line_width > 0 && self.input_cursor_pos >= line_width {
            self.input_cursor_pos = self.input_cursor_pos - line_width;
        }
    }

    /// Moves the cursor one wrapped line (of `line_width` characters) down,
    /// at most to the end of the input.
    pub fn move_cursor_down(&mut self, line_width: usize)
        requires
            old(self).input_cursor_pos + line_width <= usize::MAX,
        ensures
            final(self).input_view() == old(self).input_view().apply(EditOp::Down(line_width as nat)),
            final(self).same_besides_input(old(self)),
    {
        let char_count = self.input.as_str().unicode_len();
        if line_width > 0 {
            let new_pos = self.input_cursor_pos + line_width;
            if new_pos <= char_count {
                self.input_cursor_pos = new_pos;
            } else {
                self.input_cursor_pos = char_count;
            }
        }
    }

    /// Inserts a character at the cursor (at the end when the cursor lies
    /// beyond it) and moves the cursor past it.
    pub fn insert_char(&mut self, c: char)
        requires
            old(self).input_cursor_pos < usize::MAX,
        ensures
            final(self).input_view() == old(self).input_view().apply(EditOp::Insert(c)),
            final(self).same_besides_input(old(self)),
    {
        let n = self.input.as_str().unicode_len();
        let at = if self.input_cursor_pos <= n { self.input_cursor_pos } else { n };
        self.input = insert_char_at(self.input.as_str(), at, c);
        self.input_cursor_pos = self.input_cursor_pos + 1;
    }

    /// Deletes the character before the cursor.
    pub fn delete_char(&mut self)
        requires
            old(self).input_view().can_apply(EditOp::Delete),
        ensures
            final(self).input_view() == old(self).input_view().apply(EditOp::Delete),
            final(self).same_besides_input(old(self)),
    {
        if self.input_cursor_pos > 0 {
            self.input = remove_char_at(self.input.as_str(), self.input_cursor_pos - 1);
            self.input_cursor_pos = self.input_cursor_pos - 1;
        }
    }

    /// Deletes the character under the cursor.
    pub fn delete_char_forward(&mut self)
        ensures
            final(self).input_view() == old(self).input_view().apply(EditOp::DeleteForward),
            final(self).same_besides_input(old(self)),
    {
        let char_count = self.input.as_str().unicode_len();
        if self.input_cursor_pos < char_count {
            self.input = remove_char_at(self.input.as_str(), self.input_cursor_pos);
        }
    }

    /// Moves the cursor to the start of the input.
    pub fn move_cursor_to_start(&mut self)
        ensures
            final(self).input_view() == old(self).input_view().apply(EditOp::Start),
            final(self).same_besides_input(old(self)),
    {
        self.input_cursor_pos = 0;
    }

    /// Moves the cursor to the end of the input.
    pub fn move_cursor_to_end(&mut self)
        ensures
            final(self).input_view() == old(self).input_view().apply(EditOp::End),
            final(self).same_besides_input(old(self)),
    {
        self.input_cursor_pos = self.input.as_str().unicode_len();
    }
}

/// A system line: `[ts] system: what`.
pub open spec fn system_line(ts: Seq<char>, what: Seq<char>) -> Seq<char> {
    "["@ + ts + "] system: "@ + what
}

/// The scroll change of a key with the message list focused, and how many
/// times it applies.
pub open spec fn scroll_effect(key: ChatKey) -> Option<(ScrollOp, nat)> {
    match key {
        ChatKey::Up => Some((ScrollOp::Up, 1)),
        ChatKey::Down => Some((ScrollOp::Down, 1)),
        ChatKey::PageUp => Some((ScrollOp::Up, 10)),
        ChatKey::PageDown => Some((ScrollOp::Down, 10)),
        ChatKey::Home => Some((ScrollOp::Top, 1)),
        ChatKey::End => Some((ScrollOp::Bottom, 1)),
        _ => None,
    }
}

/// The editing key that a key is with the input focused, for wrapped lines
/// of `width` characters.
pub open spec fn edit_effect(key: ChatKey, width: nat) -> Option<EditOp> {
    match key {
        ChatKey::Char(c) => Some(EditOp::Insert(c)),
        ChatKey::Backspace => Some(EditOp::Delete),
        ChatKey::Delete => Some(EditOp::DeleteForward),
        ChatKey::Left => Some(EditOp::Left),
        ChatKey::Right => Some(EditOp::Right),
        ChatKey::Up => Some(EditOp::Up(width)),
        ChatKey::Down => Some(EditOp::Down(width)),
        ChatKey::Home => Some(EditOp::Start),
        ChatKey::End => Some(EditOp::End),
        _ => None,
    }
}

/// A scroll change applied `n` times.
pub open spec fn repeat_scroll(v: ScrollView, op: ScrollOp, n: nat) -> ScrollView
    decreases n,
{
    if n == 0 {
        v
    } else {
        repeat_scroll(v, op, (n - 1) as nat).apply(op)
    }
}

/// Law: moving the selection up `n` times (Page Up moves it ten times)
/// subtracts `n` from the selection, stopping at the first message; once
/// the selection has moved, auto-scroll is off.
pub proof fn repeated_up_saturates(v: ScrollView, n: nat)
    ensures
        repeat_scroll(v, ScrollOp::Up, n).count == v.count,
        repeat_scroll(v, ScrollOp::Up, n).scroll == (if v.scroll >= n { (v.scroll - n) as nat } else { 0 }),
        repeat_scroll(v, ScrollOp::Up, n).auto_scroll == (if v.scroll > 0 && n > 0 {
            false
        } else {
            v.auto_scroll
        }),
    decreases n,
{
    if n > 0 {
        repeated_up_saturates(v, (n - 1) as nat);
    }
}

/// Law: moving the selection down `n` times (Page Down moves it ten times)
/// adds `n` to the selection, stopping at the last message; auto-scroll
/// comes back on exactly when the last message is reached.
pub proof fn repeated_down_saturates(v: ScrollView, n: nat)
    requires
        v.selection_in_list(),
    ensures
        repeat_scroll(v, ScrollOp::Down, n).count == v.count,
        repeat_scroll(v, ScrollOp::Down, n).scroll == (if v.scroll + n <= last_index(v.count) {
            v.scroll + n
        } else {
            last_index(v.count)
        }),
        repeat_scroll(v, ScrollOp::Down, n).auto_scroll == (v.auto_scroll || (v.scroll < last_index(v.count)
            && v.scroll + n >= last_index(v.count))),
    decreases n,
{
    if n > 0 {
        repeated_down_saturates(v, (n - 1) as nat);
    }
}

/// `new` and `action` are what a key of the chat screen makes of `old`.
pub open spec fn chat_key_result(old: &App, new: &App, key: ChatKey, width: nat, action: ChatAction) -> bool {
    if key is ToggleFocus {
        new.focus == toggled(old.focus) && new.same_besides_focus(old) && action == ChatAction::Nothing
    } else if key is Esc {
        *new == *old && action == ChatAction::Exit
    } else if old.focus == FocusedSection::Input {
        match edit_effect(key, width) {
            Some(op) => new.input_view() == old.input_view().apply(op) && new.same_besides_input(old)
                && action == ChatAction::Nothing,
            None => *new == *old && action == (if key is Enter && old.input@.len() > 0 && old.connected {
                ChatAction::Submit
            } else {
                ChatAction::Nothing
            }),
        }
    } else {
        action == ChatAction::Nothing && match scroll_effect(key) {
            Some((op, n)) => new.scroll_view() == repeat_scroll(old.scroll_view(), op, n)
                && new.messages == old.messages && new.same_besides_messages(old),
            None => *new == *old,
        }
    }
}

/// Law: a new line goes at the end of the list and the lines before it
/// stay; with auto-scroll on it becomes the selected line, otherwise the
/// selection stays where it was.
pub proof fn new_lines_go_last(old: App, new: App, line: Seq<char>)
    requires
        old.appended(&new, line),
    ensures
        new.messages@.len() == old.messages@.len() + 1,
        forall|i: int| 0 <= i < old.messages@.len() ==> #[trigger] new.messages@[i] == old.messages@[i],
        new.messages@[old.messages@.len() as int]@ == line,
        new.message_scroll == (if old.auto_scroll { old.messages@.len() as int } else { old.message_scroll as int }),
        new.auto_scroll == old.auto_scroll,
{
    assert forall|i: int| 0 <= i < old.messages@.len() implies #[trigger] new.messages@[i] == old.messages@[i] by {
        assert(new.messages@.take(old.messages@.len() as int)[i] == new.messages@[i]);
    }
}

/// Law: Shift+Tab moves the focus to the other section and changes nothing
/// else; Esc asks to exit and changes nothing.
pub proof fn focus_and_exit_keys(old: App, new: App, key: ChatKey, width: nat, action: ChatAction)
    requires
        chat_key_result(&old, &new, key, width, action),
    ensures
        key is ToggleFocus ==> new.focus == (if old.focus == FocusedSection::Input {
            FocusedSection::MessageList
        } else {
            FocusedSection::Input
        }) && new.input == old.input && new.input_cursor_pos == old.input_cursor_pos
            && new.messages == old.messages && new.message_scroll == old.message_scroll
            && action == ChatAction::Nothing,
        key is Esc ==> new == old && action == ChatAction::Exit,
{
}

/// Law: with the input focused, every key edits the input line as it says
/// and leaves the message list alone: a character goes in at the cursor,
/// Backspace deletes the character before the cursor and moves back, Delete
/// deletes the character under the cursor, the arrows move one character or
/// one wrapped line of `width`, Home and End jump to the ends, and Enter asks
/// to send a non-empty input while connected.
pub proof fn input_keys_edit_the_line(old: App, new: App, key: ChatKey, width: nat, action: ChatAction)
    requires
        chat_key_result(&old, &new, key, width, action),
        old.focus == FocusedSection::Input,
        !(key is ToggleFocus),
        !(key is Esc),
    ensures
        new.focus == old.focus,
        new.messages == old.messages,
        new.message_scroll == old.message_scroll,
        new.auto_scroll == old.auto_scroll,
        key matches ChatKey::Char(c) ==> new.input@ == old.input@.insert(
            (if old.input_cursor_pos <= old.input@.len() { old.input_cursor_pos as int } else { old.input@.len() as int }),
            c,
        ) && new.input_cursor_pos == old.input_cursor_pos + 1,
        key is Backspace && old.input_cursor_pos > 0 ==> new.input@ == old.input@.remove(old.input_cursor_pos - 1)
            && new.input_cursor_pos == old.input_cursor_pos - 1,
        key is Backspace && old.input_cursor_pos == 0 ==> new.input@ == old.input@ && new.input_cursor_pos == 0,
        key is Delete && old.input_cursor_pos < old.input@.len() ==> new.input@ == old.input@.remove(
            old.input_cursor_pos as int,
        ) && new.input_cursor_pos == old.input_cursor_pos,
        key is Delete && old.input_cursor_pos >= old.input@.len() ==> new.input@ == old.input@
            && new.input_cursor_pos == old.input_cursor_pos,
        key is Left ==> new.input@ == old.input@ && new.input_cursor_pos == (if old.input_cursor_pos > 0 {
            old.input_cursor_pos - 1
        } else {
            0
        }),
        key is Right ==> new.input@ == old.input@ && new.input_cursor_pos == (if old.input_cursor_pos
            < old.input@.len() {
            old.input_cursor_pos + 1
        } else {
            old.input_cursor_pos as int
        }),
        key is Up ==> new.input@ == old.input@ && new.input_cursor_pos == (if width > 0 && old.input_cursor_pos >= width {
            old.input_cursor_pos - width
        } else {
            old.input_cursor_pos as int
        }),
        key is Down ==> new.input@ == old.input@ && new.input_cursor_pos == (if width == 0 {
            old.input_cursor_pos as int
        } else if old.input_cursor_pos + width <= old.input@.len() {
            old.input_cursor_pos + width
        } else {
            old.input@.len() as int
        }),
        key is Home ==> new.input@ == old.input@ && new.input_cursor_pos == 0,
        key is End ==> new.input@ == old.input@ && new.input_cursor_pos == old.input@.len(),
        key is Enter ==> new == old && (action == ChatAction::Submit <==> (old.input@.len() > 0 && old.connected)),
        !(key is Enter) ==> action == ChatAction::Nothing,
{
}

/// Law: with the message list focused, Up selects the previous message and
/// stops following new ones, Down selects the next one (following again
/// once the last is reached), Page Up and Page Down move ten, Home jumps to
/// the first message and End to the last; the input is left alone and other
/// keys do nothing.
pub proof fn list_keys_move_the_selection(old: App, new: App, key: ChatKey, width: nat, action: ChatAction)
    requires
        chat_key_result(&old, &new, key, width, action),
        old.focus == FocusedSection::MessageList,
        !(key is ToggleFocus),
        !(key is Esc),
    ensures
        action == ChatAction::Nothing,
        new.focus == old.focus,
        new.input == old.input,
        new.input_cursor_pos == old.input_cursor_pos,
        new.messages == old.messages,
        key is Up ==> new.message_scroll == (if old.message_scroll > 0 {
            old.message_scroll - 1
        } else {
            old.message_scroll as int
        }) && new.auto_scroll == (if old.message_scroll > 0 { false } else { old.auto_scroll }),
        key is Down ==> new.message_scroll == (if old.message_scroll < last_index(old.messages@.len()) {
            old.message_scroll + 1
        } else {
            old.message_scroll as int
        }) && new.auto_scroll == (if old.message_scroll < last_index(old.messages@.len()) {
            old.message_scroll + 1 >= last_index(old.messages@.len()) || old.auto_scroll
        } else {
            old.auto_scroll
        }),
        key is PageUp ==> new.message_scroll == (if old.message_scroll >= 10 {
            old.message_scroll - 10
        } else {
            0
        }) && new.auto_scroll == (if old.message_scroll > 0 { false } else { old.auto_scroll }),
        key is PageDown && old.message_scroll <= last_index(old.messages@.len()) ==> new.message_scroll == (if old.message_scroll
            + 10 <= last_index(old.messages@.len()) {
            old.message_scroll + 10
        } else {
            last_index(old.messages@.len()) as int
        }) && new.auto_scroll == (old.auto_scroll || (old.message_scroll < last_index(old.messages@.len())
            && old.message_scroll + 10 >= last_index(old.messages@.len()))),
        key is Home ==> new.message_scroll == 0 && !new.auto_scroll,
        key is End ==> new.message_scroll == last_index(old.messages@.len()) && new.auto_scroll,
        key is Char || key is Backspace || key is Delete || key is Left || key is Right || key is Enter
            || key is Other ==> new == old,
{
    reveal_with_fuel(repeat_scroll, 2);
    repeated_up_saturates(old.scroll_view(), 10);
    if old.scroll_view().selection_in_list() {
        repeated_down_saturates(old.scroll_view(), 10);
    }
}

impl App {
    /// Handles a key of the chat screen: Shift+Tab moves the focus, Esc asks
    /// to exit; with the input focused the editing keys edit it and Enter
    /// asks to send a non-empty input while connected; with the message list
    /// focused the arrows, Page Up/Down (ten messages), Home and End move
    /// the selection. `input_width` is the width of a wrapped input line.
    pub fn handle_key(&mut self, key: ChatKey, input_width: usize) -> (action: ChatAction)
        requires
            old(self).focus == FocusedSection::Input && key is Backspace ==> old(self).input_view().cursor_in_text(),
            old(self).focus == FocusedSection::Input && key is Char ==> old(self).input_cursor_pos < usize::MAX,
            old(self).focus == FocusedSection::Input && key is Down ==> old(self).input_cursor_pos + input_width
                <= usize::MAX,
        ensures
            chat_key_result(old(self), final(self), key, input_width as nat, action),
    {
        proof {
            reveal_with_fuel(repeat_scroll, 2);
        }
        if let ChatKey::ToggleFocus = key {
            self.toggle_focus();
            return ChatAction::Nothing;
        }
        if let ChatKey::Esc = key {
            return ChatAction::Exit;
        }
        match self.focus {
            FocusedSection::Input => match key {
                ChatKey::Char(c) => self.insert_char(c),
                ChatKey::Backspace => self.delete_char(),
                ChatKey::Delete => self.delete_char_forward(),
                ChatKey::Left => self.move_cursor_left(),
                ChatKey::Right => self.move_cursor_right(),
                ChatKey::Up => self.move_cursor_up(input_width),
                ChatKey::Down => self.move_cursor_down(input_width),
                ChatKey::Home => self.move_cursor_to_start(),
                ChatKey::End => self.move_cursor_to_end(),
                ChatKey::Enter => {
                    if !self.input.as_str().is_empty() && self.connected {
                        return ChatAction::Submit;
                    }
                },
                _ => {},
            },
            FocusedSection::MessageList => match key {
                ChatKey::Up => self.scroll_up(),
                ChatKey::Down => self.scroll_down(),
                ChatKey::PageUp => self.scroll_up_times(10),
                ChatKey::PageDown => self.scroll_down_times(10),
                ChatKey::Home => self.scroll_to_top(),
                ChatKey::End => self.scroll_to_bottom(),
                _ => {},
            },
        }
        ChatAction::Nothing
    }

    /// Selects the message `n` places up (Page Up moves ten), stopping at
    /// the first; once the selection moved, new messages no longer pull it
    /// down.
    pub fn scroll_up_times(&mut self, n: u64)
        ensures
            final(self).scroll_view() == repeat_scroll(old(self).scroll_view(), ScrollOp::Up, n as nat),
            final(self).message_scroll == (if old(self).message_scroll >= n {
                (old(self).message_scroll - n) as nat
            } else {
                0
            }),
            final(self).auto_scroll == (if old(self).message_scroll > 0 && n > 0 {
                false
            } else {
                old(self).auto_scroll
            }),
            final(self).messages == old(self).messages,
            final(self).same_besides_messages(old(self)),
    {
        let mut i: u64 = 0;
        while i < n
            invariant
                i <= n,
                self.scroll_view() == repeat_scroll(old(self).scroll_view(), ScrollOp::Up, i as nat),
                self.messages == old(self).messages,
                self.same_besides_messages(old(self)),
            decreases n - i,
        {
            self.scroll_up();
            i = i + 1;
        }
        proof {
            repeated_up_saturates(old(self).scroll_view(), n as nat);
        }
    }

    /// Selects the message `n` places down (Page Down moves ten), stopping
    /// at the last; reaching the last one turns auto-scroll back on.
    pub fn scroll_down_times(&mut self, n: u64)
        ensures
            final(self).scroll_view() == repeat_scroll(old(self).scroll_view(), ScrollOp::Down, n as nat),
            old(self).scroll_view().selection_in_list() ==> final(self).message_scroll == (if old(
                self,
            ).message_scroll + n <= last_index(old(self).messages@.len()) {
                old(self).message_scroll + n
            } else {
                last_index(old(self).messages@.len()) as int
            }),
            old(self).scroll_view().selection_in_list() ==> final(self).auto_scroll == (old(self).auto_scroll || (
            old(self).message_scroll < last_index(old(self).messages@.len()) && old(self).message_scroll + n
                >= last_index(old(self).messages@.len()))),
            final(self).messages == old(self).messages,
            final(self).same_besides_messages(old(self)),
    {
        let mut i: u64 = 0;
        while i < n
            invariant
                i <= n,
                self.scroll_view() == repeat_scroll(old(self).scroll_view(), ScrollOp::Down, i as nat),
                self.messages == old(self).messages,
                self.same_besides_messages(old(self)),
            decreases n - i,
        {
            self.scroll_down();
            i = i + 1;
        }
        proof {
            if old(self).scroll_view().selection_in_list() {
                repeated_down_saturates(old(self).scroll_view(), n as nat);
            }
        }
    }

    /// Sends the input line: encrypts its trimmed text; on success shows it
    /// as the user's own line (the selection does not move) and returns the
    /// text to broadcast, otherwise reports the encryption error. The input
    /// stays; the caller clears it (`clear_input`) once the text went out or
    /// the error was shown.
    pub fn submit_input(&mut self, crypto: &Crypto, now: &str) -> (sent: Option<String>)
        ensures
            final(self).input == old(self).input,
            final(self).input_cursor_pos == old(self).input_cursor_pos,
            final(self).input_scroll == old(self).input_scroll,
            final(self).username == old(self).username,
            final(self).participants == old(self).participants,
            final(self).focus == old(self).focus,
            final(self).connected == old(self).connected,
            final(self).authenticated == old(self).authenticated,
            final(self).server_address == old(self).server_address,
            final(self).room == old(self).room,
            sent is None <==> encode_utf8(trimmed(old(self).input@)).len() > max_plaintext_len(),
            sent matches Some(e) ==> decryption(crypto.key(), e@) == Ok::<Seq<char>, Seq<char>>(trimmed(old(self).input@)),
            sent matches Some(e) ==> exists|nonce: Seq<u8>| nonce.len() == NONCE_LEN
                && e@ == #[trigger] sealed_message(crypto.key(), nonce, trimmed(old(self).input@)),
            sent is Some ==> final(self).messages@ == old(self).messages@.push(final(self).messages@.last())
                && final(self).messages@.last()@ == chat_line(now@, old(self).username@, trimmed(old(self).input@))
                && final(self).message_scroll == old(self).message_scroll
                && final(self).auto_scroll == old(self).auto_scroll,
            sent is None ==> final(self).messages@ == old(self).messages@.push(final(self).messages@.last())
                && final(self).messages@.last()@ == "[system] Encryption error: "@ + "Encryption failed: aead::Error"@
                && final(self).scroll_view() == old(self).scroll_view().apply(ScrollOp::Append),
    {
        let line = trim(self.input.as_str());
        let sent = match crypto.encrypt(line.as_str()) {
            Ok(encrypted) => {
                let mut shown = text("[");
                append(&mut shown, now);
                append(&mut shown, "] ");
                append(&mut shown, self.username.as_str());
                append(&mut shown, ": ");
                append(&mut shown, line.as_str());
                self.messages.push(shown);
                Some(encrypted)
            },
            Err(e) => {
                let mut shown = text("[system] Encryption error: ");
                append(&mut shown, e.as_str());
                self.add_message(shown);
                assert(self.messages@ == old(self).messages@.push(self.messages@.last()));
                None
            },
        };
        sent
    }

    /// Empties the input line and puts the cursor at its start.
    pub fn clear_input(&mut self)
        ensures
            final(self).input@.len() == 0,
            final(self).input_cursor_pos == 0,
            final(self).same_besides_input(old(self)),
    {
        self.input = String::new();
        self.input_cursor_pos = 0;
    }

    /// Handles a server notice during the chat: a message is decrypted and
    /// shown as `[now] from: text` (or as `[encrypted: ..]` when it cannot be
    /// decrypted), a list replaces the participants, an error and a system
    /// notice are shown; anything else is ignored.
    pub fn apply_notice(&mut self, notice: Notice, crypto: &Crypto, now: &str)
        ensures
            match notice {
                Notice::Message { from, msg } => old(self).appended(
                    final(self),
                    chat_line(now@, or_default(from, "unknown"@), shown_text(crypto.key(), or_default(msg, ""@))),
                ),
                Notice::List { clients: Some(ids) } => final(self).participants == ids
                    && final(self).same_besides_participants(old(self)),
                Notice::Error { msg } => old(self).appended(
                    final(self),
                    "[system] Error: "@ + or_default(msg, "Unknown error"@),
                ),
                Notice::System { msg } => old(self).appended(final(self), system_line(now@, or_default(msg, ""@))),
                _ => *final(self) == *old(self),
            },
    {
        match notice {
            Notice::Message { from, msg } => {
                let from = match from {
                    Some(f) => f,
                    None => text("unknown"),
                };
                let encrypted = match msg {
                    Some(m) => m,
                    None => text(""),
                };
                let shown = match crypto.decrypt(encrypted.as_str()) {
                    Ok(plain) => plain,
                    Err(_) => {
                        let mut marked = text("[encrypted: ");
                        append(&mut marked, encrypted.as_str());
                        append(&mut marked, "]");
                        marked
                    },
                };
                let mut line = text("[");
                append(&mut line, now);
                append(&mut line, "] ");
                append(&mut line, from.as_str());
                append(&mut line, ": ");
                append(&mut line, shown.as_str());
                self.add_message(line);
            },
            Notice::List { clients: Some(ids) } => self.set_participants(ids),
            Notice::Error { msg } => {
                let mut line = text("[system] Error: ");
                match msg {
                    Some(m) => append(&mut line, m.as_str()),
                    None => append(&mut line, "Unknown error"),
                }
                self.add_message(line);
            },
            Notice::System { msg } => {
                let mut line = text("[");
                append(&mut line, now);
                append(&mut line, "] system: ");
                match msg {
                    Some(m) => append(&mut line, m.as_str()),
                    None => append(&mut line, ""),
                }
                self.add_message(line);
            },
            _ => {},
        }
    }

    /// Handles a notice that arrived while logging in: only a participant
    /// list is kept.
    pub fn apply_pending_notice(&mut self, notice: Notice)
        ensures
            match notice {
                Notice::List { clients: Some(ids) } => final(self).participants == ids
                    && final(self).same_besides_participants(old(self)),
                _ => *final(self) == *old(self),
            },
    {
        if let Notice::List { clients: Some(ids) } = notice {
            self.set_participants(ids);
        }
    }

    /// Shows `[now] system: what` and jumps to the bottom.
    fn note_at_bottom(&mut self, now: &str, what: &str)
        ensures
            final(self).messages@ == old(self).messages@.push(final(self).messages@.last()),
            final(self).messages@.last()@ == system_line(now@, what@),
            final(self).scroll_view() == old(self).scroll_view().apply(ScrollOp::Append).apply(ScrollOp::Bottom),
            final(self).same_besides_messages(old(self)),
    {
        let mut line = text("[");
        append(&mut line, now);
        append(&mut line, "] system: ");
        append(&mut line, what);
        self.add_message(line);
        self.scroll_to_bottom();
        assert(self.messages@ == old(self).messages@.push(self.messages@.last()));
    }

    /// Records that the connection was lost: the client is no longer
    /// connected, says so, and jumps to the bottom.
    pub fn note_connection_lost(&mut self, now: &str)
        ensures
            !final(self).connected,
            final(self).messages@ == old(self).messages@.push(final(self).messages@.last()),
            final(self).messages@.last()@ == system_line(now@, "Connection lost. Reconnecting..."@),
            final(self).scroll_view() == old(self).scroll_view().apply(ScrollOp::Append).apply(ScrollOp::Bottom),
            final(self).input == old(self).input,
            final(self).participants == old(self).participants,
            final(self).username == old(self).username,
            final(self).input_cursor_pos == old(self).input_cursor_pos,
            final(self).input_scroll == old(self).input_scroll,
            final(self).authenticated == old(self).authenticated,
            final(self).focus == old(self).focus,
            final(self).server_address == old(self).server_address,
            final(self).room == old(self).room,
    {
        self.connected = false;
        self.note_at_bottom(now, "Connection lost. Reconnecting...");
    }

    /// Records the start of a reconnection attempt.
    pub fn note_reconnecting(&mut self, now: &str)
        ensures
            final(self).messages@ == old(self).messages@.push(final(self).messages@.last()),
            final(self).messages@.last()@ == system_line(now@, "Reconnecting..."@),
            final(self).scroll_view() == old(self).scroll_view().apply(ScrollOp::Append).apply(ScrollOp::Bottom),
            final(self).same_besides_messages(old(self)),
    {
        self.note_at_bottom(now, "Reconnecting...");
    }

    /// Records a failed reconnection and the delay before the next one.
    pub fn note_retry(&mut self, now: &str, delay_secs: u64)
        ensures
            final(self).messages@ == old(self).messages@.push(final(self).messages@.last()),
            final(self).messages@.last()@ == system_line(
                now@,
                "Reconnect failed, retrying in "@ + decimal(delay_secs as nat) + "s..."@,
            ),
            final(self).scroll_view() == old(self).scroll_view().apply(ScrollOp::Append).apply(ScrollOp::Bottom),
            final(self).same_besides_messages(old(self)),
    {
        let mut what = text("Reconnect failed, retrying in ");
        let d = decimal_string(delay_secs);
        append(&mut what, d.as_str());
        append(&mut what, "s...");
        self.note_at_bottom(now, what.as_str());
    }

    /// Records a successful reconnection: the client is connected again.
    pub fn note_reconnected(&mut self, now: &str)
        ensures
            final(self).connected,
            final(self).messages@ == old(self).messages@.push(final(self).messages@.last()),
            final(self).messages@.last()@ == system_line(now@, "Reconnected"@),
            final(self).scroll_view() == old(self).scroll_view().apply(ScrollOp::Append),
            final(self).input == old(self).input,
            final(self).participants == old(self).participants,
            final(self).username == old(self).username,
            final(self).input_cursor_pos == old(self).input_cursor_pos,
            final(self).input_scroll == old(self).input_scroll,
            final(self).authenticated == old(self).authenticated,
            final(self).focus == old(self).focus,
            final(self).server_address == old(self).server_address,
            final(self).room == old(self).room,
    {
        self.connected = true;
        let mut line = text("[");
        append(&mut line, now);
        append(&mut line, "] system: ");
        append(&mut line, "Reconnected");
        self.add_message(line);
        assert(self.messages@ == old(self).messages@.push(self.messages@.last()));
    }
}

/// The delay before the next reconnection attempt: twice the last one, at
/// most 30 seconds.
pub fn next_retry_delay(delay_secs: u64) -> (next: u64)
    requires
        delay_secs <= u64::MAX / 2,
    ensures
        next == if 2 * delay_secs < 30 { 2 * delay_secs } else { 30 },
{
    let doubled = delay_secs * 2;
    if doubled < 30 { doubled } else { 30 }
}

/// Law: starting from at most 30 seconds, the delays never exceed 30
/// seconds, and they grow until they reach it.
pub proof fn retry_delay_is_capped(delay_secs: nat)
    requires
        delay_secs <= 30,
    ensures
        (if 2 * delay_secs < 30 { 2 * delay_secs } else { 30 }) <= 30,
        delay_secs > 0 && delay_secs < 30 ==> (if 2 * delay_secs < 30 { 2 * delay_secs } else { 30 }) > delay_secs,
{
}

} // verus!
