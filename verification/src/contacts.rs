//! The direct-message client: a random id, a contact list, commands to add
//! and open contacts, and messages sent to the open contact.

use vstd::prelude::*;
use crate::client::{or_default, ChatAction, ChatKey};
use crate::protocol::{Notice, SendTo};
use crate::registry::{lists_exactly, Registry};
use vstd::string::*;
use crate::text::{append, has_prefix, pop_char, push_char, same_text, starts_with, suffix_from, text, trim, trimmed, views};

verus! {

/// Calls `rand::Rng::gen_range(0..bound)` on `rand::thread_rng()`: a random
/// number below the bound (which must be positive; the crate panics on an
/// empty range). It can also panic if the operating system's random source
/// fails, which no argument causes.
#[verifier::external_body]
fn random_below(bound: u8) -> (n: u8)
    requires
        bound > 0,
    ensures
        n < bound,
{
    rand::Rng::gen_range(&mut rand::thread_rng(), 0..bound)
}

/// The character of an id digit: `0`-`9`, then `a`-`z`.
pub open spec fn id_char(n: nat) -> char {
    if n < 10 {
        (('0' as nat) + n) as char
    } else {
        (('a' as nat) + n - 10) as char
    }
}

/// A character that ids are made of.
pub open spec fn is_id_char(c: char) -> bool {
    ('0' <= c && c <= '9') || ('a' <= c && c <= 'z')
}

/// The length of a generated id.
pub const ID_LEN: usize = 6;

/// The characters that draws spell, one per draw.
pub open spec fn spelled(draws: Seq<u8>) -> Seq<char> {
    Seq::new(draws.len(), |i: int| id_char(draws[i] as nat))
}

/// The id spelled by six draws below 36: each draw is a digit `0`-`9` or
/// a letter `a`-`z`.
pub fn id_from_draws(draws: &Vec<u8>) -> (id: String)
    requires
        draws@.len() == ID_LEN,
        forall|i: int| 0 <= i < ID_LEN ==> #[trigger] draws@[i] < 36,
    ensures
        id@ == spelled(draws@),
{
    let mut id = String::new();
    let mut i: usize = 0;
    while i < ID_LEN
        invariant
            i <= ID_LEN,
            draws@.len() == ID_LEN,
            forall|k: int| 0 <= k < ID_LEN ==> #[trigger] draws@[k] < 36,
            id@ == Seq::new(i as nat, |k: int| id_char(draws@[k] as nat)),
        decreases ID_LEN - i,
    {
        let n = draws[i];
        assert(n < 36);
        let c = if n < 10 { (48u8 + n) as char } else { (97u8 + n - 10) as char };
        assert(c == id_char(n as nat));
        push_char(&mut id, c);
        i = i + 1;
        assert(id@ =~= Seq::new(i as nat, |k: int| id_char(draws@[k] as nat)));
    }
    id
}

/// A random id: six draws below 36, spelled by `id_from_draws`, so six
/// characters from `0`-`9` and `a`-`z`.
pub fn generate_id() -> (id: String)
    ensures
        id@.len() == ID_LEN,
        forall|i: int| 0 <= i < ID_LEN ==> is_id_char(#[trigger] id@[i]),
        exists|draws: Seq<u8>| draws.len() == ID_LEN && (forall|i: int| 0 <= i < ID_LEN ==> #[trigger] draws[i] < 36)
            && id@ == #[trigger] spelled(draws),
{
    let mut draws: Vec<u8> = Vec::new();
    let mut i: usize = 0;
    while i < ID_LEN
        invariant
            i <= ID_LEN,
            draws@.len() == i,
            forall|k: int| 0 <= k < i ==> #[trigger] draws@[k] < 36,
        decreases ID_LEN - i,
    {
        draws.push(random_below(36));
        i = i + 1;
    }
    let id = id_from_draws(&draws);
    proof {
        assert(id@ == spelled(draws@));
        assert forall|k: int| 0 <= k < ID_LEN implies is_id_char(#[trigger] id@[k]) by {
            assert(id@[k] == id_char(draws@[k] as nat));
        }
    }
    id
}

/// The direct-message client.
pub struct App {
    pub my_id: String,
    pub messages: Vec<String>,
    pub input: String,
    pub contacts: Registry<String>,
    pub selected_contact: Option<String>,
}

/// The label of a contact in the contact list: `> name (id)` when it is
/// the open contact, `  name (id)` otherwise.
pub open spec fn contact_label(id: Seq<char>, name: Seq<char>, selected: Option<String>) -> Seq<char> {
    (if selected matches Some(s) && s@ == id { ">"@ } else { " "@ }) + " "@ + name + " ("@ + id + ")"@
}

/// `new` is `old` with `line` appended to its messages, and nothing else
/// changed.
pub open spec fn appended(old: &App, new: &App, line: Seq<char>) -> bool {
    &&& new.messages@.len() == old.messages@.len() + 1
    &&& new.messages@.take(old.messages@.len() as int) == old.messages@
    &&& new.messages@.last()@ == line
    &&& new.my_id == old.my_id
    &&& new.input == old.input
    &&& new.contacts == old.contacts
    &&& new.selected_contact == old.selected_contact
}

/// The command a trimmed input line is.
pub enum InputCommand {
    /// `/add <id>`
    Add(Seq<char>),
    /// `/open <id>`
    Open(Seq<char>),
    /// Anything else: a message.
    Say,
}

/// How a trimmed input line reads.
pub open spec fn input_command(line: Seq<char>) -> InputCommand {
    if has_prefix(line, "/add "@) {
        InputCommand::Add(trimmed(line.skip(5)))
    } else if has_prefix(line, "/open "@) {
        InputCommand::Open(trimmed(line.skip(6)))
    } else {
        InputCommand::Say
    }
}

/// Law: a line starting with `/add ` adds the contact named by the rest of
/// the line, trimmed; one starting with `/open ` opens the contact named by
/// the rest, trimmed; any other line is a message.
pub proof fn contact_commands_read_their_id(line: Seq<char>)
    ensures
        line.len() >= 5 && line.take(5) == "/add "@ ==> input_command(line) == InputCommand::Add(
            trimmed(line.skip(5)),
        ),
        !(line.len() >= 5 && line.take(5) == "/add "@) && line.len() >= 6 && line.take(6) == "/open "@
            ==> input_command(line) == InputCommand::Open(trimmed(line.skip(6))),
        !(line.len() >= 5 && line.take(5) == "/add "@) && !(line.len() >= 6 && line.take(6) == "/open "@)
            ==> input_command(line) == InputCommand::Say,
{
    reveal_strlit("/add ");
    reveal_strlit("/open ");
}

impl App {
    /// A client with id `my_id`, greeted by two system lines, without
    /// contacts.
    pub fn new(my_id: String) -> (app: Self)
        ensures
            app.my_id == my_id,
            views(app.messages@) == seq![
                "[00:00:01] system: Connected! Your ID: "@ + my_id@,
                "[00:00:02] system: Press 'a' to add a contact"@,
            ],
            app.input@.len() == 0,
            app.contacts.view() == Map::<Seq<char>, String>::empty(),
            app.selected_contact is None,
    {
        let mut first = text("[00:00:01] system: Connected! Your ID: ");
        append(&mut first, my_id.as_str());
        let mut messages: Vec<String> = Vec::new();
        messages.push(first);
        messages.push(text("[00:00:02] system: Press 'a' to add a contact"));
        let app = App { my_id, messages, input: String::new(), contacts: Registry::new(), selected_contact: None };
        assert(views(app.messages@) =~= seq![
            "[00:00:01] system: Connected! Your ID: "@ + app.my_id@,
            "[00:00:02] system: Press 'a' to add a contact"@,
        ]);
        app
    }

    /// Appends a line to the messages.
    pub fn add_message(&mut self, msg: String)
        ensures
            appended(old(self), final(self), msg@),
    {
        self.messages.push(msg);
        assert(self.messages@.take(old(self).messages@.len() as int) == old(self).messages@);
    }

    /// Adds a contact, or renames it when the id is known.
    pub fn add_contact(&mut self, id: String, name: String)
        ensures
            final(self).contacts.view() == old(self).contacts.view().insert(id@, name),
            final(self).my_id == old(self).my_id,
            final(self).messages == old(self).messages,
            final(self).input == old(self).input,
            final(self).selected_contact == old(self).selected_contact,
    {
        self.contacts.insert(id, name);
    }

    /// The header's status.
    pub fn status(&self) -> (status: String)
        ensures
            status@ == "CONNECTED | ID: "@ + self.my_id@,
    {
        let mut s = text("CONNECTED | ID: ");
        append(&mut s, self.my_id.as_str());
        s
    }

    /// The lines of the contact list, one per contact.
    pub fn contact_lines(&self) -> (lines: Vec<String>)
        ensures
            exists|ids: Seq<Seq<char>>| #![trigger lists_exactly(ids, self.contacts.view().dom())]
                lists_exactly(ids, self.contacts.view().dom()) && lines@.len() == ids.len() && forall|i: int|
                    0 <= i < ids.len() ==> #[trigger] lines@[i]@ == contact_label(
                        ids[i],
                        self.contacts.view()[ids[i]]@,
                        self.selected_contact,
                    ),
    {
        let ids = self.contacts.names();
        let ghost w = views(ids@);
        let mut lines: Vec<String> = Vec::new();
        let mut i: usize = 0;
        while i < ids.len()
            invariant
                w == views(ids@),
                lists_exactly(w, self.contacts.view().dom()),
                i <= ids@.len(),
                lines@.len() == i,
                forall|k: int| 0 <= k < i ==> #[trigger] lines@[k]@ == contact_label(
                    w[k],
                    self.contacts.view()[w[k]]@,
                    self.selected_contact,
                ),
            decreases ids@.len() - i,
        {
            let id = ids[i].as_str();
            assert(w[i as int] == id@);
            assert(w.contains(id@));
            let name = match self.contacts.get(id) {
                Some(n) => n.as_str(),
                None => "",
            };
            let selected = match &self.selected_contact {
                Some(s) => same_text(s.as_str(), id),
                None => false,
            };
            let mut line = if selected { text(">") } else { text(" ") };
            append(&mut line, " ");
            append(&mut line, name);
            append(&mut line, " (");
            append(&mut line, id);
            append(&mut line, ")");
            lines.push(line);
            i = i + 1;
        }
        lines
    }

    /// Handles a key: characters are typed, BACKSPACE erases the last one,
    /// ENTER asks to submit a non-empty input, ESC asks to exit.
    pub fn handle_key(&mut self, key: ChatKey) -> (action: ChatAction)
        ensures
            match key {
                ChatKey::Char(c) => final(self).input@ == old(self).input@.push(c) && action == ChatAction::Nothing,
                ChatKey::Backspace => final(self).input@ == (if old(self).input@.len() > 0 {
                    old(self).input@.drop_last()
                } else {
                    old(self).input@
                }) && action == ChatAction::Nothing,
                ChatKey::Enter => final(self).input == old(self).input && action == (if old(self).input@.len() > 0 {
                    ChatAction::Submit
                } else {
                    ChatAction::Nothing
                }),
                ChatKey::Esc => final(self).input == old(self).input && action == ChatAction::Exit,
                _ => final(self).input == old(self).input && action == ChatAction::Nothing,
            },
            final(self).my_id == old(self).my_id,
            final(self).messages == old(self).messages,
            final(self).contacts == old(self).contacts,
            final(self).selected_contact == old(self).selected_contact,
    {
        match key {
            ChatKey::Char(c) => {
                push_char(&mut self.input, c);
                ChatAction::Nothing
            },
            ChatKey::Backspace => {
                pop_char(&mut self.input);
                ChatAction::Nothing
            },
            ChatKey::Enter => if self.input.as_str().is_empty() {
                ChatAction::Nothing
            } else {
                ChatAction::Submit
            },
            ChatKey::Esc => ChatAction::Exit,
            _ => ChatAction::Nothing,
        }
    }

    /// Submits the input line (trimmed): `/add <id>` adds a new contact and
    /// greets it, `/open <id>` opens a known contact, anything else is sent
    /// to the open contact and shown as `[00:02:00] you: ..`. The input is
    /// cleared; the result is the message to send, if any.
    pub fn submit_input(&mut self) -> (sent: Option<SendTo>)
        ensures
            final(self).input@.len() == 0,
            final(self).my_id == old(self).my_id,
            ({
                let line = trimmed(old(self).input@);
                let known = old(self).contacts.view().dom();
                match input_command(line) {
                    InputCommand::Add(id) => if id.len() == 0 {
                        final(self).messages == old(self).messages && final(self).contacts == old(self).contacts
                            && final(self).selected_contact == old(self).selected_contact && sent is None
                    } else if known.contains(id) {
                        final(self).messages@.len() == old(self).messages@.len() + 1
                            && final(self).messages@.take(old(self).messages@.len() as int) == old(self).messages@
                            && final(self).messages@.last()@ == "[system] Contact "@ + id + " already exists"@
                            && final(self).contacts == old(self).contacts
                            && final(self).selected_contact == old(self).selected_contact && sent is None
                    } else {
                        final(self).messages@.len() == old(self).messages@.len() + 1
                            && final(self).messages@.take(old(self).messages@.len() as int) == old(self).messages@
                            && final(self).messages@.last()@ == "[system] Added contact: "@ + id
                            && final(self).contacts.view() == old(self).contacts.view().insert(
                                id,
                                final(self).contacts.view()[id],
                            ) && final(self).contacts.view()[id]@ == id
                            && final(self).selected_contact == old(self).selected_contact
                            && (sent matches Some(m) && m.to@ == id && m.msg@ == "Hello!"@)
                    },
                    InputCommand::Open(id) => final(self).contacts == old(self).contacts && sent is None
                        && final(self).messages@.len() == old(self).messages@.len() + 1
                        && final(self).messages@.take(old(self).messages@.len() as int) == old(self).messages@
                        && if known.contains(id) {
                        (final(self).selected_contact matches Some(s) && s@ == id)
                            && final(self).messages@.last()@ == "[system] Opened chat with "@ + id
                    } else {
                        final(self).selected_contact == old(self).selected_contact
                            && final(self).messages@.last()@ == "[system] Contact "@ + id + " not found"@
                    },
                    InputCommand::Say => final(self).contacts == old(self).contacts
                        && final(self).selected_contact == old(self).selected_contact
                        && final(self).messages@.len() == old(self).messages@.len() + 1
                        && final(self).messages@.take(old(self).messages@.len() as int) == old(self).messages@
                        && match old(self).selected_contact {
                        Some(to) => final(self).messages@.last()@ == "[00:02:00] you: "@ + line
                            && (sent matches Some(m) && m.to@ == to@ && m.msg@ == line),
                        None => final(self).messages@.last()@ == "[system] Select a contact with /open <id>"@
                            && sent is None,
                    },
                }
            }),
    {
        let line = trim(self.input.as_str());
        self.input = String::new();
        let l = line.as_str();
        proof {
            reveal_strlit("/add ");
            reveal_strlit("/open ");
        }
        if starts_with(l, "/add ") {
            let rest = suffix_from(l, 5);
            let id = trim(rest.as_str());
            if id.as_str().is_empty() {
                return None;
            }
            if self.contacts.contains(id.as_str()) {
                let mut m = text("[system] Contact ");
                append(&mut m, id.as_str());
                append(&mut m, " already exists");
                self.add_message(m);
                None
            } else {
                self.add_contact(id.clone(), id.clone());
                let mut m = text("[system] Added contact: ");
                append(&mut m, id.as_str());
                self.add_message(m);
                Some(SendTo { to: id, msg: text("Hello!") })
            }
        } else if starts_with(l, "/open ") {
            let rest = suffix_from(l, 6);
            let id = trim(rest.as_str());
            if self.contacts.contains(id.as_str()) {
                let mut m = text("[system] Opened chat with ");
                append(&mut m, id.as_str());
                self.selected_contact = Some(id);
                self.add_message(m);
            } else {
                let mut m = text("[system] Contact ");
                append(&mut m, id.as_str());
                append(&mut m, " not found");
                self.add_message(m);
            }
            None
        } else {
            match &self.selected_contact {
                Some(to) => {
                    let to = to.clone();
                    let mut m = text("[00:02:00] you: ");
                    append(&mut m, l);
                    self.add_message(m);
                    Some(SendTo { to, msg: line })
                },
                None => {
                    self.add_message(text("[system] Select a contact with /open <id>"));
                    None
                },
            }
        }
    }

    /// Handles a server notice: a message is shown as
    /// `[00:00:00] from: text`, a registration or an id list adds the
    /// unknown ids (other than this client's) as contacts, an error is shown,
    /// and a text that is not JSON is shown as it is.
    pub fn apply_notice(&mut self, notice: Notice)
        ensures
            final(self).my_id == old(self).my_id,
            final(self).input == old(self).input,
            final(self).selected_contact == old(self).selected_contact,
            match notice {
                Notice::Message { from, msg } => appended(
                    old(self),
                    final(self),
                    "[00:00:00] "@ + or_default(from, "unknown"@) + ": "@ + or_default(msg, ""@),
                ),
                Notice::Registered { id: Some(i) } => final(self).messages == old(self).messages
                    && final(self).contacts.view() == if i@ == old(self).my_id@ {
                    old(self).contacts.view()
                } else {
                    old(self).contacts.view().insert(i@, final(self).contacts.view()[i@])
                } && (i@ != old(self).my_id@ ==> final(self).contacts.view()[i@]@ == i@),
                Notice::List { clients: Some(ids) } => final(self).messages == old(self).messages
                    && final(self).contacts.view().dom() == old(self).contacts.view().dom().union(
                    views(ids@).to_set().remove(old(self).my_id@),
                ) && (forall|k: Seq<char>| #[trigger] old(self).contacts.view().dom().contains(k)
                    ==> final(self).contacts.view()[k] == old(self).contacts.view()[k]) && (forall|k: Seq<char>|
                    #[trigger] final(self).contacts.view().dom().contains(k) && !old(self).contacts.view().dom().contains(k)
                    ==> final(self).contacts.view()[k]@ == k),
                Notice::Error { msg } => appended(
                    old(self),
                    final(self),
                    "[system] Error: "@ + or_default(msg, "Unknown error"@),
                ),
                Notice::Raw(t) => appended(old(self), final(self), t@),
                _ => *final(self) == *old(self),
            },
    {
        match notice {
            Notice::Message { from, msg } => {
                let mut line = text("[00:00:00] ");
                match from {
                    Some(f) => append(&mut line, f.as_str()),
                    None => append(&mut line, "unknown"),
                }
                append(&mut line, ": ");
                match msg {
                    Some(m) => append(&mut line, m.as_str()),
                    None => append(&mut line, ""),
                }
                self.add_message(line);
            },
            Notice::Registered { id: Some(i) } => {
                if !same_text(i.as_str(), self.my_id.as_str()) {
                    self.add_contact(i.clone(), i);
                }
            },
            Notice::List { clients: Some(ids) } => {
                let ghost before = self.contacts.view();
                let ghost w = views(ids@);
                let mut k: usize = 0;
                while k < ids.len()
                    invariant
                        w == views(ids@),
                        k <= ids@.len(),
                        self.my_id == old(self).my_id,
                        self.input == old(self).input,
                        self.selected_contact == old(self).selected_contact,
                        self.messages == old(self).messages,
                        self.contacts.view().dom() == before.dom().union(w.take(k as int).to_set().remove(self.my_id@)),
                        forall|x: Seq<char>| #[trigger] before.dom().contains(x) ==> self.contacts.view()[x] == before[x],
                        forall|x: Seq<char>| #[trigger] self.contacts.view().dom().contains(x) && !before.dom().contains(x)
                            ==> self.contacts.view()[x]@ == x,
                    decreases ids@.len() - k,
                {
                    let id = ids[k].as_str();
                    assert(w[k as int] == id@);
                    let add = !same_text(id, self.my_id.as_str()) && !self.contacts.contains(id);
                    if add {
                        self.add_contact(ids[k].clone(), ids[k].clone());
                    }
                    proof {
                        assert(w.take(k + 1) == w.take(k as int).push(w[k as int]));
                        assert forall|x: Seq<char>|
                            #[trigger] w.take(k + 1).to_set().contains(x)
                                == w.take(k as int).to_set().insert(w[k as int]).contains(x) by {
                            crate::registry::take_push_contains(w, k as int, x);
                        }
                        assert(w.take(k + 1).to_set() =~= w.take(k as int).to_set().insert(w[k as int]));
                        assert(self.contacts.view().dom() =~= before.dom().union(
                            w.take(k + 1).to_set().remove(self.my_id@),
                        ));
                    }
                    k = k + 1;
                }
                assert(w.take(ids@.len() as int) == w);
            },
            Notice::Error { msg } => {
                let mut line = text("[system] Error: ");
                match msg {
                    Some(m) => append(&mut line, m.as_str()),
                    None => append(&mut line, "Unknown error"),
                }
                self.add_message(line);
            },
            Notice::Raw(t) => self.add_message(t),
            _ => {},
        }
    }
}

} // verus!
