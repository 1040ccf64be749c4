//! The login form of the chat client: five fields filled in turn, then the
//! server's answer to the credentials.

use vstd::prelude::*;
use crate::client::or_default;
use crate::protocol::{ClientCommand, Notice};
use crate::text::{append, pop_char, push_char, text};

verus! {

/// The number of fields of the form.
pub const FIELD_COUNT: u8 = 5;

/// The login form. Fields, in the order TAB visits them: server address,
/// room, username, password, encryption key.
pub struct LoginState {
    pub server_address: String,
    pub room: String,
    pub username: String,
    pub password: String,
    pub encryption_key: String,
    pub active_field: u8,
    pub error: String,
}

/// A key of the login screen.
#[derive(Debug, Clone, Copy)]
pub enum LoginKey {
    Tab,
    Char(char),
    Backspace,
    Enter,
    Esc,
    Other,
}

/// What the caller has to do after a key of the login screen.
#[derive(Debug, PartialEq, Eq, Structural)]
pub enum LoginAction {
    Nothing,
    /// Every field is filled: send the credentials.
    Submit,
    Exit,
}

/// How the server answered the credentials.
pub enum AuthProgress {
    /// Logged in, as this user, in this room.
    Authenticated { username: String, room: String },
    /// No answer yet, or a refusal (shown as the form's error).
    Waiting,
    /// A notice meant for the chat, to handle once logged in.
    Pending(Notice),
}

/// The message shown when Enter is pressed with a field left empty.
pub open spec fn fields_required_message() -> Seq<char> {
    "All fields are required"@
}

impl LoginState {
    /// The text of field `i` (0 to 4); other indices have no field.
    pub open spec fn field(&self, i: int) -> Seq<char> {
        if i == 0 {
            self.server_address@
        } else if i == 1 {
            self.room@
        } else if i == 2 {
            self.username@
        } else if i == 3 {
            self.password@
        } else if i == 4 {
            self.encryption_key@
        } else {
            Seq::empty()
        }
    }

    /// Every field holds some text.
    pub open spec fn all_filled(&self) -> bool {
        forall|i: int| 0 <= i < FIELD_COUNT ==> #[trigger] self.field(i).len() > 0
    }

    /// The fields other than `i` are the same in both forms.
    pub open spec fn same_fields_except(&self, other: &LoginState, i: int) -> bool {
        forall|j: int| 0 <= j < FIELD_COUNT && j != i ==> #[trigger] self.field(j) == other.field(j)
    }

    /// An empty form, on the server address, which defaults to
    /// `ws://127.0.0.1:8080`.
    pub fn new() -> (state: Self)
        ensures
            state.server_address@ == "ws://127.0.0.1:8080"@,
            state.room@.len() == 0,
            state.username@.len() == 0,
            state.password@.len() == 0,
            state.encryption_key@.len() == 0,
            state.active_field == 0,
            state.error@.len() == 0,
    {
        LoginState {
            server_address: text("ws://127.0.0.1:8080"),
            room: String::new(),
            username: String::new(),
            password: String::new(),
            encryption_key: String::new(),
            active_field: 0,
            error: String::new(),
        }
    }

    /// Handles a key: TAB moves to the next field (cyclically), a character
    /// is typed into the active field and clears the error, BACKSPACE erases
    /// the active field's last character, ENTER submits when every field is
    /// filled (clearing the error) and otherwise sets the error, ESC exits.
    pub fn handle_key(&mut self, key: LoginKey) -> (action: LoginAction)
        requires
            old(self).active_field < 255,
        ensures
            match key {
                LoginKey::Tab => final(self).active_field == (old(self).active_field + 1) % (FIELD_COUNT as int)
                    && final(self).same_fields_except(old(self), -1)
                    && final(self).error == old(self).error && action == LoginAction::Nothing,
                LoginKey::Char(c) => final(self).field(old(self).active_field as int)
                    == (if old(self).active_field < FIELD_COUNT {
                        old(self).field(old(self).active_field as int).push(c)
                    } else {
                        Seq::empty()
                    })
                    && final(self).same_fields_except(old(self), old(self).active_field as int)
                    && final(self).active_field == old(self).active_field
                    && final(self).error@.len() == 0 && action == LoginAction::Nothing,
                LoginKey::Backspace => final(self).field(old(self).active_field as int)
                    == (if old(self).field(old(self).active_field as int).len() > 0 {
                        old(self).field(old(self).active_field as int).drop_last()
                    } else {
                        old(self).field(old(self).active_field as int)
                    })
                    && final(self).same_fields_except(old(self), old(self).active_field as int)
                    && final(self).active_field == old(self).active_field
                    && final(self).error == old(self).error && action == LoginAction::Nothing,
                LoginKey::Enter => final(self).same_fields_except(old(self), -1)
                    && final(self).active_field == old(self).active_field
                    && (if old(self).all_filled() {
                        final(self).error@.len() == 0 && action == LoginAction::Submit
                    } else {
                        final(self).error@ == fields_required_message() && action == LoginAction::Nothing
                    }),
                LoginKey::Esc => *final(self) == *old(self) && action == LoginAction::Exit,
                LoginKey::Other => *final(self) == *old(self) && action == LoginAction::Nothing,
            },
    {
        match key {
            LoginKey::Tab => {
                self.active_field = (self.active_field + 1) % FIELD_COUNT;
                LoginAction::Nothing
            },
            LoginKey::Char(c) => {
                match self.active_field {
                    0 => push_char(&mut self.server_address, c),
                    1 => push_char(&mut self.room, c),
                    2 => push_char(&mut self.username, c),
                    3 => push_char(&mut self.password, c),
                    4 => push_char(&mut self.encryption_key, c),
                    _ => {},
                }
                self.error = String::new();
                LoginAction::Nothing
            },
            LoginKey::Backspace => {
                match self.active_field {
                    0 => {
                        pop_char(&mut self.server_address);
                    },
                    1 => {
                        pop_char(&mut self.room);
                    },
                    2 => {
                        pop_char(&mut self.username);
                    },
                    3 => {
                        pop_char(&mut self.password);
                    },
                    4 => {
                        pop_char(&mut self.encryption_key);
                    },
                    _ => {},
                }
                LoginAction::Nothing
            },
            LoginKey::Enter => {
                let filled = !self.server_address.as_str().is_empty() && !self.room.as_str().is_empty()
                    && !self.username.as_str().is_empty() && !self.password.as_str().is_empty()
                    && !self.encryption_key.as_str().is_empty();
                proof {
                    if filled {
                        assert forall|i: int| 0 <= i < FIELD_COUNT implies #[trigger] self.field(i).len() > 0 by {}
                    } else {
                        assert(!self.all_filled()) by {
                            if self.server_address@.len() == 0 {
                                assert(self.field(0).len() == 0);
                            } else if self.room@.len() == 0 {
                                assert(self.field(1).len() == 0);
                            } else if self.username@.len() == 0 {
                                assert(self.field(2).len() == 0);
                            } else if self.password@.len() == 0 {
                                assert(self.field(3).len() == 0);
                            } else {
                                assert(self.field(4).len() == 0);
                            }
                        }
                    }
                }
                if filled {
                    self.error = String::new();
                    LoginAction::Submit
                } else {
                    self.error = text("All fields are required");
                    LoginAction::Nothing
                }
            },
            LoginKey::Esc => LoginAction::Exit,
            LoginKey::Other => LoginAction::Nothing,
        }
    }

    /// The address of the chosen room on the chosen server:
    /// `<server>/room/<room>`.
    pub fn room_url(&self) -> (url: String)
        ensures
            url@ == self.server_address@ + "/room/"@ + self.room@,
    {
        let mut url = self.server_address.clone();
        append(&mut url, "/room/");
        append(&mut url, self.room.as_str());
        url
    }

    /// The login command for the entered credentials.
    pub fn credentials(&self) -> (cmd: ClientCommand)
        ensures
            cmd matches ClientCommand::Auth { username, password } && username == self.username
                && password == self.password,
    {
        ClientCommand::Auth { username: self.username.clone(), password: self.password.clone() }
    }

    /// Handles a notice that arrives while waiting for the server's answer:
    /// an `authenticated` notice with a username logs in (the room defaults
    /// to `?`); an error is shown on the form (by default "Unknown error");
    /// any other notice is kept for the chat.
    pub fn apply_auth_notice(&mut self, notice: Notice) -> (progress: AuthProgress)
        ensures
            match notice {
                Notice::Authenticated { username: Some(u), room } => *final(self) == *old(self)
                    && (progress matches AuthProgress::Authenticated { username, room: r }
                    && username@ == u@ && r@ == or_default(room, "?"@)),
                Notice::Authenticated { username: None, room: _ } => *final(self) == *old(self)
                    && progress is Waiting,
                Notice::Error { msg } => final(self).error@ == or_default(msg, "Unknown error"@)
                    && final(self).same_fields_except(old(self), -1)
                    && final(self).active_field == old(self).active_field
                    && progress is Waiting,
                _ => *final(self) == *old(self) && progress == AuthProgress::Pending(notice),
            },
    {
        match notice {
            Notice::Authenticated { username: Some(u), room } => {
                let r = match room {
                    Some(r) => r,
                    None => text("?"),
                };
                AuthProgress::Authenticated { username: u, room: r }
            },
            Notice::Authenticated { username: None, room: _ } => AuthProgress::Waiting,
            Notice::Error { msg } => {
                self.error = match msg {
                    Some(m) => m,
                    None => text("Unknown error"),
                };
                AuthProgress::Waiting
            },
            other => AuthProgress::Pending(other),
        }
    }
}

/// Law: the form's fields, in the order TAB visits them, are the server
/// address, the room, the username, the password and the encryption key,
/// and there is no other.
pub proof fn login_fields_in_order(s: LoginState, i: int)
    ensures
        s.field(0) == s.server_address@,
        s.field(1) == s.room@,
        s.field(2) == s.username@,
        s.field(3) == s.password@,
        s.field(4) == s.encryption_key@,
        FIELD_COUNT == 5,
        (i < 0 || i >= 5) ==> s.field(i).len() == 0,
{
}

/// Law: pressing TAB once per field brings the focus back to the field it
/// started on.
pub proof fn tab_cycles_through_fields(start: u8)
    requires
        start < FIELD_COUNT,
    ensures
        ({
            let a1 = (start + 1) % (FIELD_COUNT as int);
            let a2 = (a1 + 1) % (FIELD_COUNT as int);
            let a3 = (a2 + 1) % (FIELD_COUNT as int);
            let a4 = (a3 + 1) % (FIELD_COUNT as int);
            (a4 + 1) % (FIELD_COUNT as int) == start
        }),
{
}

} // verus!
