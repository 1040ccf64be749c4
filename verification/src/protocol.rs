//! The messages exchanged between chat clients and servers. Their JSON
//! forms are written and read outside the library; here they are plain
//! values.

use vstd::prelude::*;

verus! {

/// A message from a server as a client reads it: each field may be missing.
#[derive(Debug)]
pub enum Notice {
    /// `{"type": "authenticated", "username": .., "room": ..}`
    Authenticated { username: Option<String>, room: Option<String> },
    /// `{"type": "registered", "id": ..}`
    Registered { id: Option<String> },
    /// `{"type": "message", "from": .., "msg": ..}`
    Message { from: Option<String>, msg: Option<String> },
    /// `{"type": "list", "clients": [..]}`: the string entries of the list,
    /// or `None` when `clients` is not a list.
    List { clients: Option<Vec<String>> },
    /// `{"type": "error", "msg": ..}`
    Error { msg: Option<String> },
    /// `{"type": "system", "msg": ..}`
    System { msg: Option<String> },
    /// A JSON object of another type.
    Other,
    /// A text that is not JSON.
    Raw(String),
}

/// A message that a server sends.
#[derive(Debug)]
pub enum ServerMessage {
    Authenticated { username: String, room: String },
    Registered { id: String },
    List { clients: Vec<String> },
    Error { msg: String },
    System { msg: String },
    Message { from: String, msg: String },
}

/// A command from a client of a room server.
#[derive(Debug)]
pub enum ClientCommand {
    Auth { username: String, password: String },
    Broadcast { msg: String },
    List,
}

/// A command from a client of the direct-message relay.
#[derive(Debug)]
pub enum RelayCommand {
    Register { id: String },
    Broadcast { msg: String },
    List,
}

/// A message that a direct-message client sends to one contact.
#[derive(Debug)]
pub struct SendTo {
    pub to: String,
    pub msg: String,
}

} // verus!
