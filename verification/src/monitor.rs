//! The server dashboard: received messages, a fixed contact list to move
//! through, and a line to type notes into.

use vstd::prelude::*;
use crate::client::ChatKey;
use crate::text::{append, decimal, decimal_string, pop_char, push_char, text, views};

verus! {

/// The dashboard.
pub struct App {
    pub messages: Vec<String>,
    pub input: String,
    pub contacts: Vec<String>,
    pub selected_contact: usize,
    pub connected_clients: usize,
}

/// The contacts the dashboard lists.
pub open spec fn dashboard_contacts() -> Seq<Seq<char>> {
    seq!["shadow_runner"@, "ghost"@, "zero_cool"@, "acid_burn"@, "cerealkiller"@, "phantom"@]
}

impl App {
    /// A dashboard that has started listening, with the first contact
    /// selected and no client counted.
    pub fn new() -> (app: Self)
        ensures
            views(app.messages@) == seq![
                "[00:00:01] system: WebSocket server started on port 8080"@,
                "[00:00:02] system: Waiting for connections..."@,
            ],
            app.input@.len() == 0,
            views(app.contacts@) == dashboard_contacts(),
            app.selected_contact == 0,
            app.connected_clients == 0,
    {
        let mut messages: Vec<String> = Vec::new();
        messages.push(text("[00:00:01] system: WebSocket server started on port 8080"));
        messages.push(text("[00:00:02] system: Waiting for connections..."));
        let mut contacts: Vec<String> = Vec::new();
        contacts.push(text("shadow_runner"));
        contacts.push(text("ghost"));
        contacts.push(text("zero_cool"));
        contacts.push(text("acid_burn"));
        contacts.push(text("cerealkiller"));
        contacts.push(text("phantom"));
        let app = App { messages, input: String::new(), contacts, selected_contact: 0, connected_clients: 0 };
        assert(views(app.messages@) =~= seq![
            "[00:00:01] system: WebSocket server started on port 8080"@,
            "[00:00:02] system: Waiting for connections..."@,
        ]);
        assert(views(app.contacts@) =~= dashboard_contacts());
        app
    }

    /// Appends a line to the messages.
    pub fn add_message(&mut self, msg: String)
        ensures
            final(self).messages@ == old(self).messages@.push(msg),
            final(self).input == old(self).input,
            final(self).contacts == old(self).contacts,
            final(self).selected_contact == old(self).selected_contact,
            final(self).connected_clients == old(self).connected_clients,
    {
        self.messages.push(msg);
    }

    /// Records a message received from a client: it is shown, and counted
    /// as a connected client.
    pub fn receive(&mut self, msg: String)
        requires
            old(self).connected_clients < usize::MAX,
        ensures
            final(self).messages@ == old(self).messages@.push(msg),
            final(self).connected_clients == old(self).connected_clients + 1,
            final(self).input == old(self).input,
            final(self).contacts == old(self).contacts,
            final(self).selected_contact == old(self).selected_contact,
    {
        self.add_message(msg);
        self.connected_clients = self.connected_clients + 1;
    }

    /// Handles a key: characters are typed, BACKSPACE erases, ENTER shows a
    /// non-empty input as `[00:02:00] you: ..` and clears it, UP and DOWN
    /// move through the contacts (staying on the list), ESC asks to exit.
    pub fn handle_key(&mut self, key: ChatKey) -> (exit: bool)
        requires
            old(self).contacts@.len() > 0,
        ensures
            exit == (key is Esc),
            final(self).contacts == old(self).contacts,
            final(self).connected_clients == old(self).connected_clients,
            match key {
                ChatKey::Char(c) => final(self).input@ == old(self).input@.push(c)
                    && final(self).messages == old(self).messages
                    && final(self).selected_contact == old(self).selected_contact,
                ChatKey::Backspace => final(self).input@ == (if old(self).input@.len() > 0 {
                    old(self).input@.drop_last()
                } else {
                    old(self).input@
                }) && final(self).messages == old(self).messages
                    && final(self).selected_contact == old(self).selected_contact,
                ChatKey::Enter => final(self).selected_contact == old(self).selected_contact && if old(self).input@.len() > 0 {
                    final(self).input@.len() == 0 && final(self).messages@.len() == old(self).messages@.len() + 1
                        && final(self).messages@.take(old(self).messages@.len() as int) == old(self).messages@
                        && final(self).messages@.last()@ == "[00:02:00] you: "@ + old(self).input@
                } else {
                    final(self).input == old(self).input && final(self).messages == old(self).messages
                },
                ChatKey::Up => final(self).input == old(self).input && final(self).messages == old(self).messages
                    && final(self).selected_contact == if old(self).selected_contact > 0 {
                    (old(self).selected_contact - 1) as usize
                } else {
                    old(self).selected_contact
                },
                ChatKey::Down => final(self).input == old(self).input && final(self).messages == old(self).messages
                    && final(self).selected_contact == if old(self).selected_contact + 1 < old(self).contacts@.len() {
                    (old(self).selected_contact + 1) as usize
                } else {
                    old(self).selected_contact
                },
                _ => *final(self) == *old(self),
            },
    {
        match key {
            ChatKey::Char(c) => {
                push_char(&mut self.input, c);
                false
            },
            ChatKey::Backspace => {
                pop_char(&mut self.input);
                false
            },
            ChatKey::Enter => {
                if !self.input.as_str().is_empty() {
                    let mut line = text("[00:02:00] you: ");
                    append(&mut line, self.input.as_str());
                    self.messages.push(line);
                    self.input = String::new();
                    assert(self.messages@.take(old(self).messages@.len() as int) == old(self).messages@);
                }
                false
            },
            ChatKey::Up => {
                if self.selected_contact > 0 {
                    self.selected_contact = self.selected_contact - 1;
                }
                false
            },
            ChatKey::Down => {
                if self.selected_contact < self.contacts.len() - 1 {
                    self.selected_contact = self.selected_contact + 1;
                }
                false
            },
            ChatKey::Esc => true,
            _ => false,
        }
    }

    /// The header's status: the number of clients counted, or waiting.
    pub fn status(&self) -> (status: String)
        requires
            self.connected_clients < u64::MAX,
        ensures
            status@ == if self.connected_clients > 0 {
                "ONLINE | "@ + decimal(self.connected_clients as nat) + " client(s) connected"@
            } else {
                "WAITING"@
            },
    {
        if self.connected_clients > 0 {
            let mut s = text("ONLINE | ");
            let n = decimal_string(self.connected_clients as u64);
            append(&mut s, n.as_str());
            append(&mut s, " client(s) connected");
            s
        } else {
            text("WAITING")
        }
    }

    /// The lines of the contact list: `> name` for the selected contact,
    /// `  name` for the others.
    pub fn contact_lines(&self) -> (lines: Vec<String>)
        ensures
            lines@.len() == self.contacts@.len(),
            forall|i: int| 0 <= i < self.contacts@.len() ==> #[trigger] lines@[i]@ == (if i == self.selected_contact {
                ">"@
            } else {
                " "@
            }) + " "@ + self.contacts@[i]@,
    {
        let mut lines: Vec<String> = Vec::new();
        let mut i: usize = 0;
        while i < self.contacts.len()
            invariant
                i <= self.contacts@.len(),
                lines@.len() == i,
                forall|k: int| 0 <= k < i ==> #[trigger] lines@[k]@ == (if k == self.selected_contact {
                    ">"@
                } else {
                    " "@
                }) + " "@ + self.contacts@[k]@,
            decreases self.contacts@.len() - i,
        {
            let mut line = if i == self.selected_contact { text(">") } else { text(" ") };
            append(&mut line, " ");
            append(&mut line, self.contacts[i].as_str());
            lines.push(line);
            i = i + 1;
        }
        lines
    }
}

} // verus!
