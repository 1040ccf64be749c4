use rustui::client::{ChatAction, ChatKey};
use rustui::contacts::{generate_id, id_from_draws, App};
use rustui::monitor::App as Monitor;
use rustui::protocol::Notice;

fn submit(app: &mut App, line: &str) -> Option<rustui::protocol::SendTo> {
    for c in line.chars() {
        app.handle_key(ChatKey::Char(c));
    }
    assert_eq!(app.handle_key(ChatKey::Enter), ChatAction::Submit);
    app.submit_input()
}

#[test]
fn ids_are_six_lowercase_alphanumerics() {
    for _ in 0..50 {
        let id = generate_id();
        assert_eq!(id.len(), 6);
        assert!(id.chars().all(|c| c.is_ascii_digit() || c.is_ascii_lowercase()));
    }
}

#[test]
fn new_app_greets() {
    let app = App::new("abc123".to_string());
    assert_eq!(app.messages, vec![
        "[00:00:01] system: Connected! Your ID: abc123".to_string(),
        "[00:00:02] system: Press 'a' to add a contact".to_string(),
    ]);
    assert_eq!(app.status(), "CONNECTED | ID: abc123");
    assert!(app.contact_lines().is_empty());
}

#[test]
fn add_and_open_contacts() {
    let mut app = App::new("me".to_string());
    let sent = submit(&mut app, "  /add  friend ").unwrap();
    assert_eq!(sent.to, "friend");
    assert_eq!(sent.msg, "Hello!");
    assert_eq!(app.messages.last().unwrap(), "[system] Added contact: friend");
    assert!(submit(&mut app, "/add friend").is_none());
    assert_eq!(app.messages.last().unwrap(), "[system] Contact friend already exists");
    assert!(submit(&mut app, "hi").is_none());
    assert_eq!(app.messages.last().unwrap(), "[system] Select a contact with /open <id>");
    assert!(submit(&mut app, "/open stranger").is_none());
    assert_eq!(app.messages.last().unwrap(), "[system] Contact stranger not found");
    assert!(submit(&mut app, "/open friend").is_none());
    assert_eq!(app.selected_contact.as_deref(), Some("friend"));
    assert_eq!(app.contact_lines(), vec!["> friend (friend)".to_string()]);
    let sent = submit(&mut app, " how are you ").unwrap();
    assert_eq!(sent.to, "friend");
    assert_eq!(sent.msg, "how are you");
    assert_eq!(app.messages.last().unwrap(), "[00:02:00] you: how are you");
    assert!(app.input.is_empty());
}

#[test]
fn add_without_id_is_a_message() {
    let mut app = App::new("me".to_string());
    assert!(submit(&mut app, "/add    ").is_none());
    assert_eq!(app.messages.last().unwrap(), "[system] Select a contact with /open <id>");
}

#[test]
fn notices_add_contacts_and_lines() {
    let mut app = App::new("me".to_string());
    app.apply_notice(Notice::Registered { id: Some("me".to_string()) });
    assert!(app.contact_lines().is_empty());
    app.apply_notice(Notice::Registered { id: Some("x1".to_string()) });
    app.apply_notice(Notice::List {
        clients: Some(vec!["me".to_string(), "x1".to_string(), "y2".to_string()]),
    });
    let mut lines = app.contact_lines();
    lines.sort();
    assert_eq!(lines, vec!["  x1 (x1)".to_string(), "  y2 (y2)".to_string()]);
    app.apply_notice(Notice::Message { from: Some("x1".to_string()), msg: Some("yo".to_string()) });
    assert_eq!(app.messages.last().unwrap(), "[00:00:00] x1: yo");
    app.apply_notice(Notice::Error { msg: None });
    assert_eq!(app.messages.last().unwrap(), "[system] Error: Unknown error");
    app.apply_notice(Notice::Raw("plain text".to_string()));
    assert_eq!(app.messages.last().unwrap(), "plain text");
}

#[test]
fn contacts_keep_names() {
    let mut app = App::new("me".to_string());
    app.add_contact("id1".to_string(), "Ann".to_string());
    assert_eq!(app.contact_lines(), vec!["  Ann (id1)".to_string()]);
    app.add_contact("id1".to_string(), "Anna".to_string());
    assert_eq!(app.contact_lines(), vec!["  Anna (id1)".to_string()]);
}

#[test]
fn dashboard_counts_and_selects() {
    let mut m = Monitor::new();
    assert_eq!(m.status(), "WAITING");
    assert_eq!(m.contact_lines()[0], "> shadow_runner");
    m.receive("hello".to_string());
    m.receive("again".to_string());
    assert_eq!(m.status(), "ONLINE | 2 client(s) connected");
    assert_eq!(m.messages.last().unwrap(), "again");
    m.handle_key(ChatKey::Up);
    assert_eq!(m.selected_contact, 0);
    for _ in 0..10 {
        m.handle_key(ChatKey::Down);
    }
    assert_eq!(m.selected_contact, 5);
    assert_eq!(m.contact_lines()[5], "> phantom");
    m.handle_key(ChatKey::Char('o'));
    m.handle_key(ChatKey::Char('k'));
    m.handle_key(ChatKey::Enter);
    assert_eq!(m.messages.last().unwrap(), "[00:02:00] you: ok");
    assert!(m.input.is_empty());
    assert!(m.handle_key(ChatKey::Esc));
}

#[test]
fn draws_spell_digits_then_letters() {
    assert_eq!(id_from_draws(&vec![0, 9, 10, 35, 17, 3]), "09azh3");
    assert_eq!(id_from_draws(&vec![35, 35, 35, 35, 35, 35]), "zzzzzz");
}

#[test]
fn listed_contacts_are_named_by_their_id() {
    let mut app = App::new("me".to_string());
    app.add_contact("x1".to_string(), "Xavier".to_string());
    app.apply_notice(Notice::List { clients: Some(vec!["x1".to_string(), "z9".to_string()]) });
    let mut lines = app.contact_lines();
    lines.sort();
    assert_eq!(lines, vec!["  Xavier (x1)".to_string(), "  z9 (z9)".to_string()]);
}
