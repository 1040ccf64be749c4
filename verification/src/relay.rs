//! Routing of the single-channel relay: clients connect under their peer
//! address, register an id, and broadcast to every other client.

use vstd::prelude::*;
use crate::protocol::ServerMessage;
use crate::registry::{lists_exactly, Registry};
use crate::server::{is_empty_outbox, is_list_of, Outbox};
use crate::text::views;

verus! {

/// One connection to the relay: its peer address and, once registered, its
/// id (empty before).
pub struct RelaySession {
    pub peer: String,
    pub my_id: String,
}

/// The name under which a session's messages go out: its id, or its peer
/// address before it registers.
pub open spec fn sender_name(s: &RelaySession) -> Seq<char> {
    if s.my_id@.len() == 0 {
        s.peer@
    } else {
        s.my_id@
    }
}

impl RelaySession {
    /// A connection from `peer`, not registered.
    pub fn new(peer: String) -> (s: Self)
        ensures
            s.peer == peer,
            s.my_id@.len() == 0,
    {
        RelaySession { peer, my_id: String::new() }
    }

    /// Adds the new connection under its peer address.
    pub fn connect<T>(&self, clients: &mut Registry<T>, channel: T)
        ensures
            final(clients).view() == old(clients).view().insert(self.peer@, channel),
    {
        clients.insert(self.peer.clone(), channel);
    }

    /// Registers an id: the peer entry and any older client with the same
    /// id leave, the connection joins under the id with `channel`; every
    /// client (the new one included) receives the id list, and the
    /// connection is told it is registered and who is present.
    pub fn register<T>(&mut self, clients: &mut Registry<T>, id: String, channel: T) -> (out: Outbox)
        ensures
            final(clients).view() == old(clients).view().remove(old(self).peer@).remove(id@).insert(id@, channel),
            final(self).my_id@ == id@,
            final(self).peer == old(self).peer,
            out.own@.len() == 2,
            out.own@[0] matches ServerMessage::Registered { id: r } && r@ == id@,
            is_list_of(out.own@[1], final(clients).view().dom()),
            lists_exactly(views(out.recipients@), final(clients).view().dom()),
            out.shared@.len() == 1,
            is_list_of(out.shared@[0], final(clients).view().dom()),
    {
        clients.remove(self.peer.as_str());
        clients.remove(id.as_str());
        self.my_id = id.clone();
        clients.insert(id.clone(), channel);
        let mut own: Vec<ServerMessage> = Vec::new();
        own.push(ServerMessage::Registered { id });
        own.push(ServerMessage::List { clients: clients.names() });
        let mut shared: Vec<ServerMessage> = Vec::new();
        shared.push(ServerMessage::List { clients: clients.names() });
        Outbox { own, recipients: clients.names(), shared }
    }

    /// Relays a message, from the session's id (or peer address), to every
    /// client whose name differs from the session's id.
    pub fn broadcast<T>(&self, clients: &Registry<T>, msg: String) -> (out: Outbox)
        ensures
            out.own@.len() == 0,
            lists_exactly(views(out.recipients@), clients.view().dom().remove(self.my_id@)),
            out.shared@.len() == 1,
            out.shared@[0] matches ServerMessage::Message { from, msg: m } && from@ == sender_name(self)
                && m@ == msg@,
    {
        let from = if self.my_id.as_str().is_empty() { self.peer.clone() } else { self.my_id.clone() };
        let mut shared: Vec<ServerMessage> = Vec::new();
        shared.push(ServerMessage::Message { from, msg });
        Outbox { own: Vec::new(), recipients: clients.names_except(self.my_id.as_str()), shared }
    }

    /// Answers a request for the id list.
    pub fn list<T>(&self, clients: &Registry<T>) -> (out: Outbox)
        ensures
            out.own@.len() == 1,
            is_list_of(out.own@[0], clients.view().dom()),
            out.recipients@.len() == 0,
            out.shared@.len() == 0,
    {
        let mut own: Vec<ServerMessage> = Vec::new();
        own.push(ServerMessage::List { clients: clients.names() });
        Outbox { own, recipients: Vec::new(), shared: Vec::new() }
    }

    /// Ends the connection: its id (or, unregistered, its peer address)
    /// leaves.
    pub fn close<T>(&self, clients: &mut Registry<T>) -> (out: Outbox)
        ensures
            final(clients).view() == old(clients).view().remove(sender_name(self)),
            is_empty_outbox(&out),
    {
        if self.my_id.as_str().is_empty() {
            clients.remove(self.peer.as_str());
        } else {
            clients.remove(self.my_id.as_str());
        }
        Outbox { own: Vec::new(), recipients: Vec::new(), shared: Vec::new() }
    }
}

} // verus!
