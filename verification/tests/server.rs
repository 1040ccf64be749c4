use rustui::protocol::ServerMessage;
use rustui::registry::Registry;
use rustui::relay::RelaySession;
use rustui::server::{room_from_path, Rooms, Session};

fn sorted(mut v: Vec<String>) -> Vec<String> {
    v.sort();
    v
}

fn list_of(m: &ServerMessage) -> Vec<String> {
    match m {
        ServerMessage::List { clients } => sorted(clients.clone()),
        other => panic!("not a list: {:?}", other),
    }
}

#[test]
fn room_is_read_from_path() {
    assert_eq!(room_from_path("/room/general"), "general");
    assert_eq!(room_from_path("/room/"), "");
    assert_eq!(room_from_path("/other/general"), "");
    assert_eq!(room_from_path("/"), "");
    assert_eq!(room_from_path("/room/a/b"), "a/b");
}

#[test]
fn registry_inserts_replaces_and_removes() {
    let mut r: Registry<u32> = Registry::new();
    assert_eq!(r.insert("a".to_string(), 1), None);
    assert_eq!(r.insert("b".to_string(), 2), None);
    assert_eq!(r.insert("a".to_string(), 3), Some(1));
    assert_eq!(r.get("a"), Some(&3));
    assert!(r.contains("b"));
    assert_eq!(sorted(r.names()), vec!["a".to_string(), "b".to_string()]);
    assert_eq!(r.names_except("a"), vec!["b".to_string()]);
    assert_eq!(r.remove("a"), Some(3));
    assert_eq!(r.remove("a"), None);
    assert!(!r.contains("a"));
}

#[test]
fn login_with_access_joins_room_and_notifies_others() {
    let mut rooms: Rooms<u32> = Rooms::new();
    let mut bob = Session::new("general".to_string(), "1.1.1.1:1".to_string());
    bob.connect(&mut rooms, 10);
    bob.authenticate(&mut rooms, "bob".to_string(), true, true, 11);
    let mut alice = Session::new("general".to_string(), "2.2.2.2:2".to_string());
    alice.connect(&mut rooms, 20);
    assert_eq!(sorted(rooms.names("general")), vec!["2.2.2.2:2".to_string(), "bob".to_string()]);
    let out = alice.authenticate(&mut rooms, "alice".to_string(), true, true, 21);
    assert_eq!(alice.username, "alice");
    assert_eq!(out.own.len(), 2);
    match &out.own[0] {
        ServerMessage::Authenticated { username, room } => {
            assert_eq!(username, "alice");
            assert_eq!(room, "general");
        }
        other => panic!("{:?}", other),
    }
    assert_eq!(list_of(&out.own[1]), vec!["alice".to_string(), "bob".to_string()]);
    assert_eq!(out.recipients, vec!["bob".to_string()]);
    match &out.shared[0] {
        ServerMessage::System { msg } => assert_eq!(msg, "alice joined the chat"),
        other => panic!("{:?}", other),
    }
    assert_eq!(list_of(&out.shared[1]), vec!["alice".to_string(), "bob".to_string()]);
    assert_eq!(rooms.channel("general", "alice"), Some(&21));
    assert_eq!(rooms.channel("general", "2.2.2.2:2"), None);
}

#[test]
fn refused_logins_change_nothing() {
    let mut rooms: Rooms<u32> = Rooms::new();
    let mut s = Session::new("general".to_string(), "p".to_string());
    s.connect(&mut rooms, 1);
    let out = s.authenticate(&mut rooms, "eve".to_string(), false, true, 2);
    match &out.own[0] {
        ServerMessage::Error { msg } => assert_eq!(msg, "Invalid credentials"),
        other => panic!("{:?}", other),
    }
    let out = s.authenticate(&mut rooms, "eve".to_string(), true, false, 2);
    match &out.own[0] {
        ServerMessage::Error { msg } => assert_eq!(msg, "Access denied to this room"),
        other => panic!("{:?}", other),
    }
    assert!(out.recipients.is_empty());
    assert!(s.username.is_empty());
    assert_eq!(rooms.names("general"), vec!["p".to_string()]);
}

#[test]
fn broadcast_reaches_only_others_in_same_room() {
    let mut rooms: Rooms<u32> = Rooms::new();
    let mut a = Session::new("one".to_string(), "pa".to_string());
    a.connect(&mut rooms, 1);
    a.authenticate(&mut rooms, "a".to_string(), true, true, 1);
    let mut b = Session::new("one".to_string(), "pb".to_string());
    b.connect(&mut rooms, 2);
    b.authenticate(&mut rooms, "b".to_string(), true, true, 2);
    let mut c = Session::new("two".to_string(), "pc".to_string());
    c.connect(&mut rooms, 3);
    c.authenticate(&mut rooms, "c".to_string(), true, true, 3);
    let out = a.broadcast(&rooms, "ciphertext".to_string());
    assert!(out.own.is_empty());
    assert_eq!(out.recipients, vec!["b".to_string()]);
    match &out.shared[0] {
        ServerMessage::Message { from, msg } => {
            assert_eq!(from, "a");
            assert_eq!(msg, "ciphertext");
        }
        other => panic!("{:?}", other),
    }
    let anon = Session::new("one".to_string(), "pz".to_string());
    let out = anon.broadcast(&rooms, "x".to_string());
    match &out.own[0] {
        ServerMessage::Error { msg } => assert_eq!(msg, "Not authenticated"),
        other => panic!("{:?}", other),
    }
    assert!(anon.list(&rooms).own.is_empty());
    assert_eq!(list_of(&a.list(&rooms).own[0]), vec!["a".to_string(), "b".to_string()]);
}

#[test]
fn relogin_replaces_older_connection() {
    let mut rooms: Rooms<u32> = Rooms::new();
    let mut first = Session::new("r".to_string(), "p1".to_string());
    first.connect(&mut rooms, 1);
    first.authenticate(&mut rooms, "sam".to_string(), true, true, 11);
    let mut second = Session::new("r".to_string(), "p2".to_string());
    second.connect(&mut rooms, 2);
    let out = second.authenticate(&mut rooms, "sam".to_string(), true, true, 22);
    assert_eq!(rooms.channel("r", "sam"), Some(&22));
    assert_eq!(rooms.names("r"), vec!["sam".to_string()]);
    assert!(out.recipients.is_empty());
}

#[test]
fn leaving_notifies_the_rest() {
    let mut rooms: Rooms<u32> = Rooms::new();
    let mut a = Session::new("r".to_string(), "pa".to_string());
    a.connect(&mut rooms, 1);
    a.authenticate(&mut rooms, "a".to_string(), true, true, 1);
    let mut b = Session::new("r".to_string(), "pb".to_string());
    b.connect(&mut rooms, 2);
    b.authenticate(&mut rooms, "b".to_string(), true, true, 2);
    let out = a.leave(&mut rooms);
    assert_eq!(out.recipients, vec!["b".to_string()]);
    match &out.shared[0] {
        ServerMessage::System { msg } => assert_eq!(msg, "a left the chat"),
        other => panic!("{:?}", other),
    }
    assert_eq!(list_of(&out.shared[1]), vec!["b".to_string()]);
    let anon = Session::new("r".to_string(), "pz".to_string());
    anon.connect(&mut rooms, 9);
    let out = anon.leave(&mut rooms);
    assert!(out.recipients.is_empty() && out.own.is_empty() && out.shared.is_empty());
    assert_eq!(rooms.names("r"), vec!["b".to_string()]);
}

#[test]
fn relay_registers_and_broadcasts() {
    let mut clients: Registry<u32> = Registry::new();
    let mut x = RelaySession::new("px".to_string());
    x.connect(&mut clients, 1);
    let mut y = RelaySession::new("py".to_string());
    y.connect(&mut clients, 2);
    let out = x.register(&mut clients, "xid".to_string(), 3);
    match &out.own[0] {
        ServerMessage::Registered { id } => assert_eq!(id, "xid"),
        other => panic!("{:?}", other),
    }
    assert_eq!(list_of(&out.own[1]), vec!["py".to_string(), "xid".to_string()]);
    assert_eq!(sorted(out.recipients.clone()), vec!["py".to_string(), "xid".to_string()]);
    let out = y.broadcast(&clients, "hi".to_string());
    match &out.shared[0] {
        ServerMessage::Message { from, msg } => {
            assert_eq!(from, "py");
            assert_eq!(msg, "hi");
        }
        other => panic!("{:?}", other),
    }
    assert_eq!(sorted(out.recipients), vec!["py".to_string(), "xid".to_string()]);
    let out = x.broadcast(&clients, "yo".to_string());
    assert_eq!(out.recipients, vec!["py".to_string()]);
    assert_eq!(list_of(&y.list(&clients).own[0]), vec!["py".to_string(), "xid".to_string()]);
    x.close(&mut clients);
    assert_eq!(clients.names(), vec!["py".to_string()]);
}
