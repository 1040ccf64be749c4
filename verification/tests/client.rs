use rustui::client::{next_retry_delay, welcome_line_text, App, ChatAction, ChatKey, FocusedSection};
use rustui::clock::{format_clock, get_timestamp};
use rustui::crypto::Crypto;
use rustui::layout::{field_cursor_offset, header_lines, input_title, messages_title, masked, message_heights, message_rows, visible_messages, wrapped_line_count};
use rustui::login::{AuthProgress, LoginAction, LoginKey, LoginState};
use rustui::protocol::Notice;

fn typed(app: &mut App, s: &str) {
    for c in s.chars() {
        app.insert_char(c);
    }
}

#[test]
fn clock_formats_time_of_day() {
    assert_eq!(format_clock(0), "00:00:00");
    assert_eq!(format_clock(3661), "01:01:01");
    assert_eq!(format_clock(86399), "23:59:59");
    assert_eq!(format_clock(86400 + 45296), "12:34:56");
}

#[test]
fn timestamp_has_clock_shape() {
    let ts = get_timestamp();
    let b = ts.as_bytes();
    assert_eq!(b.len(), 8);
    assert_eq!(b[2], b':');
    assert_eq!(b[5], b':');
}

#[test]
fn new_app_is_empty_and_focused_on_input() {
    let app = App::new();
    assert!(app.messages.is_empty());
    assert!(app.input.is_empty());
    assert_eq!(app.focus, FocusedSection::Input);
    assert!(app.auto_scroll);
    assert!(!app.authenticated);
    assert!(!app.connected);
}

#[test]
fn init_welcomes_user() {
    let mut app = App::new();
    app.init("ws://h:1".to_string(), "alice".to_string(), "general".to_string());
    assert_eq!(app.messages.len(), 1);
    assert!(app.messages[0].starts_with('['));
    assert!(app.messages[0].ends_with("] system: Welcome alice! Type a message to broadcast."));
    assert!(app.authenticated);
    assert!(app.connected);
    assert_eq!(app.room, "general");
    assert_eq!(app.server_address, "ws://h:1");
}

#[test]
fn editing_inserts_and_deletes_at_cursor() {
    let mut app = App::new();
    typed(&mut app, "hllo");
    app.move_cursor_to_start();
    app.move_cursor_right();
    app.insert_char('e');
    assert_eq!(app.input, "hello");
    assert_eq!(app.input_cursor_pos, 2);
    app.delete_char();
    assert_eq!(app.input, "hllo");
    assert_eq!(app.input_cursor_pos, 1);
    app.delete_char_forward();
    assert_eq!(app.input, "hlo");
    app.move_cursor_to_end();
    assert_eq!(app.input_cursor_pos, 3);
    app.move_cursor_right();
    assert_eq!(app.input_cursor_pos, 3);
    app.delete_char_forward();
    assert_eq!(app.input, "hlo");
}

#[test]
fn editing_counts_characters_not_bytes() {
    let mut app = App::new();
    typed(&mut app, "żółw");
    assert_eq!(app.input_cursor_pos, 4);
    app.move_cursor_left();
    app.delete_char();
    assert_eq!(app.input, "żów");
    app.move_cursor_to_end();
    assert_eq!(app.input_cursor_pos, 3);
}

#[test]
fn delete_undoes_insert() {
    let mut app = App::new();
    typed(&mut app, "abc");
    app.move_cursor_left();
    app.insert_char('x');
    assert_eq!(app.input, "abxc");
    app.delete_char();
    assert_eq!(app.input, "abc");
    assert_eq!(app.input_cursor_pos, 2);
}

#[test]
fn cursor_moves_by_lines() {
    let mut app = App::new();
    typed(&mut app, "abcdefghij");
    app.move_cursor_to_start();
    app.move_cursor_down(4);
    assert_eq!(app.input_cursor_pos, 4);
    app.move_cursor_down(4);
    assert_eq!(app.input_cursor_pos, 8);
    app.move_cursor_down(4);
    assert_eq!(app.input_cursor_pos, 10);
    app.move_cursor_up(4);
    assert_eq!(app.input_cursor_pos, 6);
    app.move_cursor_up(0);
    assert_eq!(app.input_cursor_pos, 6);
    app.move_cursor_up(7);
    assert_eq!(app.input_cursor_pos, 6);
}

#[test]
fn auto_scroll_follows_and_stops() {
    let mut app = App::new();
    for i in 0..5 {
        app.add_message(format!("m{}", i));
    }
    assert_eq!(app.message_scroll, 4);
    app.scroll_up();
    assert_eq!(app.message_scroll, 3);
    assert!(!app.auto_scroll);
    app.add_message("m5".to_string());
    assert_eq!(app.message_scroll, 3);
    app.scroll_down();
    assert_eq!(app.message_scroll, 4);
    assert!(!app.auto_scroll);
    app.scroll_down();
    assert_eq!(app.message_scroll, 5);
    assert!(app.auto_scroll);
    app.scroll_to_top();
    assert_eq!(app.message_scroll, 0);
    assert!(!app.auto_scroll);
    app.scroll_to_bottom();
    assert_eq!(app.message_scroll, 5);
    assert!(app.auto_scroll);
}

#[test]
fn toggle_focus_twice_is_identity() {
    let mut app = App::new();
    app.toggle_focus();
    assert_eq!(app.focus, FocusedSection::MessageList);
    app.toggle_focus();
    assert_eq!(app.focus, FocusedSection::Input);
}

#[test]
fn keys_edit_or_scroll_by_focus() {
    let mut app = App::new();
    app.connected = true;
    for i in 0..20 {
        app.add_message(format!("m{}", i));
    }
    assert_eq!(app.handle_key(ChatKey::Char('h'), 10), ChatAction::Nothing);
    assert_eq!(app.handle_key(ChatKey::Char('i'), 10), ChatAction::Nothing);
    assert_eq!(app.input, "hi");
    assert_eq!(app.handle_key(ChatKey::Enter, 10), ChatAction::Submit);
    assert_eq!(app.handle_key(ChatKey::ToggleFocus, 10), ChatAction::Nothing);
    assert_eq!(app.handle_key(ChatKey::PageUp, 10), ChatAction::Nothing);
    assert_eq!(app.message_scroll, 9);
    assert_eq!(app.handle_key(ChatKey::Home, 10), ChatAction::Nothing);
    assert_eq!(app.message_scroll, 0);
    assert_eq!(app.handle_key(ChatKey::PageDown, 10), ChatAction::Nothing);
    assert_eq!(app.message_scroll, 10);
    assert_eq!(app.handle_key(ChatKey::End, 10), ChatAction::Nothing);
    assert_eq!(app.message_scroll, 19);
    assert_eq!(app.input, "hi");
    assert_eq!(app.handle_key(ChatKey::Esc, 10), ChatAction::Exit);
}

#[test]
fn enter_needs_connection_and_input() {
    let mut app = App::new();
    assert_eq!(app.handle_key(ChatKey::Enter, 10), ChatAction::Nothing);
    app.insert_char('x');
    assert_eq!(app.handle_key(ChatKey::Enter, 10), ChatAction::Nothing);
    app.connected = true;
    assert_eq!(app.handle_key(ChatKey::Enter, 10), ChatAction::Submit);
}

#[test]
fn submit_encrypts_and_shows_own_line() {
    let crypto = Crypto::new("room-key");
    let mut app = App::new();
    app.init("ws://x".to_string(), "bob".to_string(), "r".to_string());
    typed(&mut app, "  hello there  ");
    let sent = app.submit_input(&crypto, "10:00:00").unwrap();
    assert_eq!(crypto.decrypt(&sent).unwrap(), "hello there");
    assert_eq!(app.messages.last().unwrap(), "[10:00:00] bob: hello there");
    assert_eq!(app.input, "  hello there  ");
    app.clear_input();
    assert!(app.input.is_empty());
    assert_eq!(app.input_cursor_pos, 0);
}

#[test]
fn incoming_notices_update_app() {
    let crypto = Crypto::new("room-key");
    let other = Crypto::new("other-key");
    let mut app = App::new();
    let enc = crypto.encrypt("secret").unwrap();
    app.apply_notice(Notice::Message { from: Some("carol".to_string()), msg: Some(enc) }, &crypto, "01:02:03");
    assert_eq!(app.messages.last().unwrap(), "[01:02:03] carol: secret");
    let enc2 = other.encrypt("hidden").unwrap();
    app.apply_notice(Notice::Message { from: None, msg: Some(enc2.clone()) }, &crypto, "01:02:04");
    assert_eq!(app.messages.last().unwrap(), &format!("[01:02:04] unknown: [encrypted: {}]", enc2));
    app.apply_notice(Notice::List { clients: Some(vec!["a".to_string(), "b".to_string()]) }, &crypto, "t");
    assert_eq!(app.participants, vec!["a".to_string(), "b".to_string()]);
    app.apply_notice(Notice::Error { msg: None }, &crypto, "t");
    assert_eq!(app.messages.last().unwrap(), "[system] Error: Unknown error");
    app.apply_notice(Notice::System { msg: Some("dave joined the chat".to_string()) }, &crypto, "05:06:07");
    assert_eq!(app.messages.last().unwrap(), "[05:06:07] system: dave joined the chat");
    let n = app.messages.len();
    app.apply_notice(Notice::Other, &crypto, "t");
    assert_eq!(app.messages.len(), n);
}

#[test]
fn pending_notices_only_keep_lists() {
    let mut app = App::new();
    app.apply_pending_notice(Notice::System { msg: Some("x".to_string()) });
    assert!(app.messages.is_empty());
    app.apply_pending_notice(Notice::List { clients: Some(vec!["z".to_string()]) });
    assert_eq!(app.participants, vec!["z".to_string()]);
}

#[test]
fn reconnection_notes() {
    let mut app = App::new();
    app.connected = true;
    app.note_connection_lost("00:00:09");
    assert!(!app.connected);
    assert_eq!(app.messages.last().unwrap(), "[00:00:09] system: Connection lost. Reconnecting...");
    app.note_retry("00:00:10", 4);
    assert_eq!(app.messages.last().unwrap(), "[00:00:10] system: Reconnect failed, retrying in 4s...");
    app.note_reconnecting("00:00:11");
    assert_eq!(app.messages.last().unwrap(), "[00:00:11] system: Reconnecting...");
    app.note_reconnected("00:00:12");
    assert!(app.connected);
    assert_eq!(app.messages.last().unwrap(), "[00:00:12] system: Reconnected");
}

#[test]
fn retry_delay_doubles_up_to_thirty() {
    assert_eq!(next_retry_delay(1), 2);
    assert_eq!(next_retry_delay(8), 16);
    assert_eq!(next_retry_delay(16), 30);
    assert_eq!(next_retry_delay(30), 30);
}

#[test]
fn status_counts_self_once() {
    let mut app = App::new();
    assert_eq!(header_lines(&app), vec!["Server: ", "Room: ", "User: ", "State: Not authenticated"]);
    app.init("ws://h:1".to_string(), "alice".to_string(), "general".to_string());
    assert_eq!(
        header_lines(&app),
        vec!["Server: ws://h:1", "Room: general", "User: alice", "State: 1 online"]
    );
    app.set_participants(vec!["alice".to_string(), "bob".to_string()]);
    assert_eq!(header_lines(&app)[3], "State: 2 online");
    app.set_participants(vec!["bob".to_string(), "carol".to_string()]);
    assert_eq!(header_lines(&app)[3], "State: 3 online");
}

#[test]
fn page_keys_move_ten_messages_and_stop_at_the_ends() {
    let mut app = App::new();
    for i in 0..15 {
        app.add_message(format!("m{}", i));
    }
    assert_eq!(app.message_scroll, 14);
    app.handle_key(ChatKey::ToggleFocus, 10);
    app.handle_key(ChatKey::PageUp, 10);
    assert_eq!(app.message_scroll, 4);
    assert!(!app.auto_scroll);
    app.handle_key(ChatKey::PageUp, 10);
    assert_eq!(app.message_scroll, 0);
    app.handle_key(ChatKey::PageDown, 10);
    assert_eq!(app.message_scroll, 10);
    assert!(!app.auto_scroll);
    app.handle_key(ChatKey::PageDown, 10);
    assert_eq!(app.message_scroll, 14);
    assert!(app.auto_scroll);
}

#[test]
fn wrapping_and_visible_window() {
    assert_eq!(wrapped_line_count(0, 10), 1);
    assert_eq!(wrapped_line_count(10, 10), 1);
    assert_eq!(wrapped_line_count(11, 10), 2);
    assert_eq!(wrapped_line_count(5, 0), 1);
    let msgs = vec!["a".repeat(25), "b".to_string(), "é".repeat(10)];
    assert_eq!(message_heights(&msgs, 10), vec![3, 1, 2]);
    let heights = vec![1, 2, 1, 3, 1];
    assert_eq!(visible_messages(&heights, 1, 4), vec![0, 1, 2]);
    assert_eq!(visible_messages(&heights, 4, 4), vec![3, 4]);
    assert_eq!(visible_messages(&heights, 100, 5), vec![2, 3, 4]);
    assert_eq!(visible_messages(&heights, 3, 2), vec![2]);
    assert_eq!(visible_messages(&Vec::new(), 0, 5), Vec::<usize>::new());
}

#[test]
fn shown_messages_are_stacked_and_cut_at_the_bottom() {
    let heights = vec![1, 2, 1, 3, 1];
    assert_eq!(message_rows(&heights, &vec![0, 1, 2], 4), vec![(0, 0, 1), (1, 1, 2), (2, 3, 1)]);
    assert_eq!(message_rows(&heights, &vec![2, 3, 4], 3), vec![(2, 0, 1), (3, 1, 2)]);
    assert_eq!(message_rows(&heights, &vec![3], 0), Vec::<(usize, usize, usize)>::new());
    assert_eq!(message_rows(&heights, &Vec::new(), 5), Vec::<(usize, usize, usize)>::new());
}

#[test]
fn input_cursor_scrolls_into_view() {
    let mut app = App::new();
    typed(&mut app, &"x".repeat(25));
    let c = app.place_input_cursor(12, 5);
    assert_eq!(app.input_scroll, 0);
    assert_eq!(c, Some((6, 3)));
    let c = app.place_input_cursor(12, 4);
    assert_eq!(app.input_scroll, 1);
    assert_eq!(c, Some((6, 2)));
    app.move_cursor_to_start();
    let c = app.place_input_cursor(12, 4);
    assert_eq!(app.input_scroll, 0);
    assert_eq!(c, Some((1, 1)));
    app.toggle_focus();
    assert_eq!(app.place_input_cursor(12, 4), None);
    app.toggle_focus();
    assert_eq!(app.place_input_cursor(2, 4), None);
}

#[test]
fn masking_and_field_cursor() {
    assert_eq!(masked("pässword"), "********");
    assert_eq!(masked(""), "");
    assert_eq!(field_cursor_offset("abc", 10), 4);
    assert_eq!(field_cursor_offset("abcdefghijkl", 10), 9);
}

#[test]
fn login_form_cycles_and_requires_all_fields() {
    let mut s = LoginState::new();
    assert_eq!(s.server_address, "ws://127.0.0.1:8080");
    assert_eq!(s.handle_key(LoginKey::Enter), LoginAction::Nothing);
    assert_eq!(s.error, "All fields are required");
    let fields = ["general", "alice", "pw", "key"];
    for f in fields {
        s.handle_key(LoginKey::Tab);
        for c in f.chars() {
            s.handle_key(LoginKey::Char(c));
        }
    }
    assert_eq!(s.error, "");
    assert_eq!(s.active_field, 4);
    s.handle_key(LoginKey::Backspace);
    assert_eq!(s.encryption_key, "ke");
    s.handle_key(LoginKey::Tab);
    assert_eq!(s.active_field, 0);
    assert_eq!(s.room, "general");
    assert_eq!(s.username, "alice");
    assert_eq!(s.password, "pw");
    assert_eq!(s.handle_key(LoginKey::Enter), LoginAction::Submit);
    assert_eq!(s.room_url(), "ws://127.0.0.1:8080/room/general");
    assert_eq!(s.handle_key(LoginKey::Esc), LoginAction::Exit);
}

#[test]
fn login_answers() {
    let mut s = LoginState::new();
    match s.apply_auth_notice(Notice::Authenticated { username: Some("alice".to_string()), room: None }) {
        AuthProgress::Authenticated { username, room } => {
            assert_eq!(username, "alice");
            assert_eq!(room, "?");
        }
        _ => panic!("expected login"),
    }
    assert!(matches!(s.apply_auth_notice(Notice::Error { msg: Some("Invalid credentials".to_string()) }), AuthProgress::Waiting));
    assert_eq!(s.error, "Invalid credentials");
    assert!(matches!(s.apply_auth_notice(Notice::List { clients: None }), AuthProgress::Pending(_)));
}

#[test]
fn pane_titles_show_position_and_focus() {
    let mut app = App::new();
    assert_eq!(messages_title(&app), " MESSAGES ");
    assert_eq!(input_title(app.focus), " MESSAGE >> [FOCUSED] ");
    app.add_message("a".to_string());
    app.add_message("b".to_string());
    app.add_message("c".to_string());
    app.toggle_focus();
    app.scroll_up();
    assert_eq!(messages_title(&app), " MESSAGES [2/3] \u{2191}\u{2193} scroll | PgUp/PgDn | END to bottom  [FOCUSED] ");
    assert_eq!(input_title(app.focus), " MESSAGE >> ");
}

#[test]
fn welcome_line_is_stamped_with_the_given_time() {
    assert_eq!(welcome_line_text("12:34:56", "alice"), "[12:34:56] system: Welcome alice! Type a message to broadcast.");
}

#[test]
fn scrolling_several_messages_saturates() {
    let mut app = App::new();
    for i in 0..5 {
        app.add_message(format!("m{}", i));
    }
    app.scroll_up_times(3);
    assert_eq!(app.message_scroll, 1);
    assert!(!app.auto_scroll);
    app.scroll_up_times(7);
    assert_eq!(app.message_scroll, 0);
    app.scroll_down_times(2);
    assert_eq!(app.message_scroll, 2);
    assert!(!app.auto_scroll);
    app.scroll_down_times(100);
    assert_eq!(app.message_scroll, 4);
    assert!(app.auto_scroll);
    app.scroll_up_times(0);
    assert_eq!(app.message_scroll, 4);
    assert!(app.auto_scroll);
}
