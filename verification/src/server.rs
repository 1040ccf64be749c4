//! Routing of the room server: which room a connection joins, how a
//! login changes the room's members, and who receives each message.
//!
//! The server keeps, per room, the connected clients keyed by name (their
//! peer address before they log in, their username after), each with the
//! channel that reaches it. A session decides; the caller performs the
//! deliveries that the returned `Outbox` lists.

use vstd::prelude::*;
use crate::protocol::ServerMessage;
use crate::registry::{lists_exactly, Registry};
use crate::text::{append, has_prefix, starts_with, suffix_from, text, views};

verus! {

/// The room named in a request path `/room/<name>`; empty for any other
/// path or an empty name.
pub open spec fn room_of_path(path: Seq<char>) -> Seq<char> {
    if has_prefix(path, "/room/"@) && path.len() > "/room/"@.len() {
        path.skip("/room/"@.len() as int)
    } else {
        Seq::empty()
    }
}

/// Law: a connection to `/room/<name>` joins the room `<name>`; a path
/// that does not start with `/room/`, or names no room, joins the room with
/// the empty name.
pub proof fn rooms_are_named_in_the_path(name: Seq<char>, path: Seq<char>)
    ensures
        name.len() > 0 ==> room_of_path("/room/"@ + name) == name,
        room_of_path("/room/"@).len() == 0,
        !(path.len() >= 6 && path.take(6) == "/room/"@) ==> room_of_path(path).len() == 0,
{
    reveal_strlit("/room/");
    let p = "/room/"@ + name;
    assert(p.take(6) =~= "/room/"@);
    assert(p.skip(6) =~= name);
}

/// The room named in a request path `/room/<name>`, or an empty name.
pub fn room_from_path(path: &str) -> (room: String)
    ensures
        room@ == room_of_path(path@),
{
    let prefix = "/room/";
    if starts_with(path, prefix) && path.unicode_len() > prefix.unicode_len() {
        suffix_from(path, prefix.unicode_len())
    } else {
        String::new()
    }
}

/// What a session asks the caller to deliver: messages for its own
/// connection, and messages for each of the named recipients, in order.
pub struct Outbox {
    pub own: Vec<ServerMessage>,
    pub recipients: Vec<String>,
    pub shared: Vec<ServerMessage>,
}

/// An outbox that delivers nothing.
pub open spec fn is_empty_outbox(out: &Outbox) -> bool {
    out.own@.len() == 0 && out.recipients@.len() == 0 && out.shared@.len() == 0
}

/// An outbox that only answers the own connection with an error.
pub open spec fn is_error_reply(out: &Outbox, text: Seq<char>) -> bool {
    &&& out.own@.len() == 1
    &&& out.own@[0] matches ServerMessage::Error { msg } && msg@ == text
    &&& out.recipients@.len() == 0
    &&& out.shared@.len() == 0
}

/// `m` is a participant list naming exactly the given clients.
pub open spec fn is_list_of(m: ServerMessage, names: Set<Seq<char>>) -> bool {
    m matches ServerMessage::List { clients } && lists_exactly(views(clients@), names)
}

/// `m` is a system notice with the given text.
pub open spec fn is_system(m: ServerMessage, what: Seq<char>) -> bool {
    m matches ServerMessage::System { msg } && msg@ == what
}

fn error_reply(msg: &str) -> (out: Outbox)
    ensures
        is_error_reply(&out, msg@),
{
    let mut own: Vec<ServerMessage> = Vec::new();
    own.push(ServerMessage::Error { msg: text(msg) });
    Outbox { own, recipients: Vec::new(), shared: Vec::new() }
}

fn empty_outbox() -> (out: Outbox)
    ensures
        is_empty_outbox(&out),
{
    Outbox { own: Vec::new(), recipients: Vec::new(), shared: Vec::new() }
}

/// The rooms of a server, each with its connected clients.
pub struct Rooms<T> {
    rooms: Registry<Registry<T>>,
}

impl<T> Rooms<T> {
    /// The room exists.
    pub closed spec fn has_room(&self, room: Seq<char>) -> bool {
        self.rooms.view().dom().contains(room)
    }

    /// The clients of a room, each with its channel.
    pub closed spec fn members(&self, room: Seq<char>) -> Map<Seq<char>, T> {
        self.rooms.view()[room].view()
    }

    /// Every room but `room` is the same in both.
    pub open spec fn same_rooms_except(&self, other: &Rooms<T>, room: Seq<char>) -> bool {
        forall|r: Seq<char>| r != room ==> (#[trigger] self.has_room(r) == other.has_room(r)
            && (self.has_room(r) ==> self.members(r) == other.members(r)))
    }

    /// No rooms yet.
    pub fn new() -> (rooms: Self)
        ensures
            forall|r: Seq<char>| !#[trigger] rooms.has_room(r),
    {
        Rooms { rooms: Registry::new() }
    }

    /// Does the room exist.
    pub fn contains_room(&self, room: &str) -> (r: bool)
        ensures
            r == self.has_room(room@),
    {
        self.rooms.contains(room)
    }

    /// Makes sure a room exists (an empty one when it did not).
    pub fn open(&mut self, room: &str)
        ensures
            final(self).has_room(room@),
            final(self).members(room@) == if old(self).has_room(room@) {
                old(self).members(room@)
            } else {
                Map::<Seq<char>, T>::empty()
            },
            final(self).same_rooms_except(old(self), room@),
    {
        if !self.rooms.contains(room) {
            let empty: Registry<T> = Registry::new();
            self.rooms.insert(text(room), empty);
        }
    }

    /// Adds (or replaces) a client of a room with its channel; returns the
    /// channel it replaces.
    pub fn join(&mut self, room: &str, name: String, channel: T) -> (replaced: Option<T>)
        requires
            old(self).has_room(room@),
        ensures
            final(self).has_room(room@),
            final(self).members(room@) == old(self).members(room@).insert(name@, channel),
            final(self).same_rooms_except(old(self), room@),
            match replaced {
                Some(c) => old(self).members(room@).dom().contains(name@) && c == old(self).members(room@)[name@],
                None => !old(self).members(room@).dom().contains(name@),
            },
    {
        let mut clients = self.rooms.remove(room).unwrap();
        let replaced = clients.insert(name, channel);
        self.rooms.insert(text(room), clients);
        replaced
    }

    /// Removes a client from a room; returns its channel.
    pub fn leave(&mut self, room: &str, name: &str) -> (removed: Option<T>)
        requires
            old(self).has_room(room@),
        ensures
            final(self).has_room(room@),
            final(self).members(room@) == old(self).members(room@).remove(name@),
            final(self).same_rooms_except(old(self), room@),
            match removed {
                Some(c) => old(self).members(room@).dom().contains(name@) && c == old(self).members(room@)[name@],
                None => !old(self).members(room@).dom().contains(name@),
            },
    {
        let mut clients = self.rooms.remove(room).unwrap();
        let removed = clients.remove(name);
        self.rooms.insert(text(room), clients);
        removed
    }

    /// The channel of a client of a room.
    pub fn channel(&self, room: &str, name: &str) -> (c: Option<&T>)
        ensures
            match c {
                Some(v) => self.has_room(room@) && self.members(room@).dom().contains(name@)
                    && *v == self.members(room@)[name@],
                None => !self.has_room(room@) || !self.members(room@).dom().contains(name@),
            },
    {
        match self.rooms.get(room) {
            Some(clients) => clients.get(name),
            None => None,
        }
    }

    /// The names of a room's clients, each once.
    pub fn names(&self, room: &str) -> (names: Vec<String>)
        requires
            self.has_room(room@),
        ensures
            lists_exactly(views(names@), self.members(room@).dom()),
    {
        self.rooms.get(room).unwrap().names()
    }

    /// The names of a room's clients other than `name`, each once.
    pub fn names_except(&self, room: &str, name: &str) -> (names: Vec<String>)
        requires
            self.has_room(room@),
        ensures
            lists_exactly(views(names@), self.members(room@).dom().remove(name@)),
    {
        self.rooms.get(room).unwrap().names_except(name)
    }
}

/// One connection to a room: the room, the peer address, and the username
/// once logged in (empty before).
pub struct Session {
    pub room: String,
    pub peer: String,
    pub username: String,
}

impl Session {
    /// A connection from `peer` to `room`, not logged in.
    pub fn new(room: String, peer: String) -> (s: Self)
        ensures
            s.room == room,
            s.peer == peer,
            s.username@.len() == 0,
    {
        Session { room, peer, username: String::new() }
    }

    /// Registers the new connection in its room (opening the room's table
    /// when needed), under its peer address.
    pub fn connect<T>(&self, rooms: &mut Rooms<T>, channel: T)
        ensures
            final(rooms).has_room(self.room@),
            final(rooms).members(self.room@) == (if old(rooms).has_room(self.room@) {
                old(rooms).members(self.room@)
            } else {
                Map::<Seq<char>, T>::empty()
            }).insert(self.peer@, channel),
            final(rooms).same_rooms_except(old(rooms), self.room@),
    {
        rooms.open(self.room.as_str());
        rooms.join(self.room.as_str(), self.peer.clone(), channel);
    }

    /// Answers a login. Wrong credentials, and a user without access to the
    /// room, get an error and change nothing. Otherwise the connection
    /// takes the username (its peer entry and any older connection of the
    /// same user leave the room, and `channel` becomes the user's channel);
    /// the user is told it is logged in and who is present, and everyone
    /// else in the room is told that the user joined and who is present.
    /// When the room is not in the table, the user is told it is logged in
    /// and that no one is present, and nothing else changes.
    pub fn authenticate<T>(
        &mut self,
        rooms: &mut Rooms<T>,
        username: String,
        credentials_valid: bool,
        has_access: bool,
        channel: T,
    ) -> (out: Outbox)
        ensures
            final(self).room == old(self).room,
            final(self).peer == old(self).peer,
            !credentials_valid ==> is_error_reply(&out, "Invalid credentials"@) && *final(rooms) == *old(rooms)
                && final(self).username == old(self).username,
            credentials_valid && !has_access ==> is_error_reply(&out, "Access denied to this room"@)
                && *final(rooms) == *old(rooms) && final(self).username == old(self).username,
            credentials_valid && has_access && !old(rooms).has_room(old(self).room@) ==> {
                &&& *final(rooms) == *old(rooms)
                &&& final(self).username == old(self).username
                &&& out.own@.len() == 2
                &&& out.own@[0] matches ServerMessage::Authenticated { username: u, room: r }
                    && u@ == username@ && r@ == old(self).room@
                &&& out.own@[1] matches ServerMessage::List { clients } && clients@.len() == 0
                &&& out.recipients@.len() == 0
                &&& out.shared@.len() == 0
            },
            credentials_valid && has_access && old(rooms).has_room(old(self).room@) ==> {
                let room = old(self).room@;
                let present = final(rooms).members(room).dom();
                &&& final(self).username@ == username@
                &&& final(rooms).has_room(room)
                &&& final(rooms).members(room) == old(rooms).members(room).remove(old(self).peer@).remove(
                    username@,
                ).insert(username@, channel)
                &&& final(rooms).same_rooms_except(old(rooms), room)
                &&& out.own@.len() == 2
                &&& out.own@[0] matches ServerMessage::Authenticated { username: u, room: r }
                    && u@ == username@ && r@ == room
                &&& is_list_of(out.own@[1], present)
                &&& lists_exactly(views(out.recipients@), present.remove(username@))
                &&& out.shared@.len() == 2
                &&& is_system(out.shared@[0], username@ + " joined the chat"@)
                &&& is_list_of(out.shared@[1], present)
            },
    {
        if !credentials_valid {
            return error_reply("Invalid credentials");
        }
        if !has_access {
            return error_reply("Access denied to this room");
        }
        let room = self.room.as_str();
        if !rooms.contains_room(room) {
            let mut own: Vec<ServerMessage> = Vec::new();
            own.push(ServerMessage::Authenticated { username, room: self.room.clone() });
            own.push(ServerMessage::List { clients: Vec::new() });
            return Outbox { own, recipients: Vec::new(), shared: Vec::new() };
        }
        rooms.leave(room, self.peer.as_str());
        rooms.leave(room, username.as_str());
        self.username = username.clone();
        rooms.join(room, username.clone(), channel);
        let mut own: Vec<ServerMessage> = Vec::new();
        own.push(ServerMessage::Authenticated { username: username.clone(), room: self.room.clone() });
        own.push(ServerMessage::List { clients: rooms.names(room) });
        let mut joined = username.clone();
        append(&mut joined, " joined the chat");
        let mut shared: Vec<ServerMessage> = Vec::new();
        shared.push(ServerMessage::System { msg: joined });
        shared.push(ServerMessage::List { clients: rooms.names(room) });
        let recipients = rooms.names_except(room, username.as_str());
        Outbox { own, recipients, shared }
    }

    /// Relays a chat message: before login the sender gets an error;
    /// after, every other client of the room receives it, from the user
    /// (no one, when the room is not in the table).
    pub fn broadcast<T>(&self, rooms: &Rooms<T>, msg: String) -> (out: Outbox)
        ensures
            self.username@.len() == 0 ==> is_error_reply(&out, "Not authenticated"@),
            self.username@.len() > 0 && !rooms.has_room(self.room@) ==> is_empty_outbox(&out),
            self.username@.len() > 0 && rooms.has_room(self.room@) ==> {
                &&& out.own@.len() == 0
                &&& lists_exactly(views(out.recipients@), rooms.members(self.room@).dom().remove(self.username@))
                &&& out.shared@.len() == 1
                &&& out.shared@[0] matches ServerMessage::Message { from, msg: m }
                    && from@ == self.username@ && m@ == msg@
            },
    {
        if self.username.as_str().is_empty() {
            return error_reply("Not authenticated");
        }
        if !rooms.contains_room(self.room.as_str()) {
            return empty_outbox();
        }
        let recipients = rooms.names_except(self.room.as_str(), self.username.as_str());
        let mut shared: Vec<ServerMessage> = Vec::new();
        shared.push(ServerMessage::Message { from: self.username.clone(), msg });
        Outbox { own: Vec::new(), recipients, shared }
    }

    /// Answers a request for the participant list: only after login, and
    /// only while the room is in the table.
    pub fn list<T>(&self, rooms: &Rooms<T>) -> (out: Outbox)
        ensures
            self.username@.len() == 0 || !rooms.has_room(self.room@) ==> is_empty_outbox(&out),
            self.username@.len() > 0 && rooms.has_room(self.room@) ==> out.own@.len() == 1 && is_list_of(
                out.own@[0],
                rooms.members(self.room@).dom(),
            ) && out.recipients@.len() == 0 && out.shared@.len() == 0,
    {
        if self.username.as_str().is_empty() || !rooms.contains_room(self.room.as_str()) {
            return empty_outbox();
        }
        let mut own: Vec<ServerMessage> = Vec::new();
        own.push(ServerMessage::List { clients: rooms.names(self.room.as_str()) });
        Outbox { own, recipients: Vec::new(), shared: Vec::new() }
    }

    /// Ends the connection: a logged-in user leaves the room, and everyone
    /// left is told so and who is present; otherwise the peer entry goes.
    /// Without the room in the table nothing changes and nothing is sent.
    pub fn leave<T>(&self, rooms: &mut Rooms<T>) -> (out: Outbox)
        ensures
            !old(rooms).has_room(self.room@) ==> *final(rooms) == *old(rooms) && is_empty_outbox(&out),
            old(rooms).has_room(self.room@) ==> final(rooms).has_room(self.room@)
                && final(rooms).same_rooms_except(old(rooms), self.room@),
            old(rooms).has_room(self.room@) && self.username@.len() == 0 ==> is_empty_outbox(&out)
                && final(rooms).members(self.room@) == old(rooms).members(self.room@).remove(self.peer@),
            old(rooms).has_room(self.room@) && self.username@.len() > 0 ==> {
                let present = final(rooms).members(self.room@).dom();
                &&& final(rooms).members(self.room@) == old(rooms).members(self.room@).remove(self.username@)
                &&& out.own@.len() == 0
                &&& lists_exactly(views(out.recipients@), present)
                &&& out.shared@.len() == 2
                &&& is_system(out.shared@[0], self.username@ + " left the chat"@)
                &&& is_list_of(out.shared@[1], present)
            },
    {
        let room = self.room.as_str();
        if !rooms.contains_room(room) {
            return empty_outbox();
        }
        if self.username.as_str().is_empty() {
            rooms.leave(room, self.peer.as_str());
            return empty_outbox();
        }
        rooms.leave(room, self.username.as_str());
        let mut left = self.username.clone();
        append(&mut left, " left the chat");
        let mut shared: Vec<ServerMessage> = Vec::new();
        shared.push(ServerMessage::System { msg: left });
        shared.push(ServerMessage::List { clients: rooms.names(room) });
        Outbox { own: Vec::new(), recipients: rooms.names(room), shared }
    }
}

} // verus!
