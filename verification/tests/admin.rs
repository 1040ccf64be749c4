use rustui::admin::{
    access_granted_report, access_revoked_report, created_report, deleted_report, is_valid_room_name,
    is_valid_username, listing, not_found, parse_command, room_name_error, username_error, usage_lines,
    Command, Entity, Listing,
};

#[test]
fn room_names_are_alphanumeric_or_dash() {
    assert!(is_valid_room_name("general"));
    assert!(is_valid_room_name("dev-Team-2"));
    assert!(!is_valid_room_name(""));
    assert!(!is_valid_room_name("has space"));
    assert!(!is_valid_room_name("under_score"));
    assert!(!is_valid_room_name("café"));
}

#[test]
fn usernames_reject_reserved_names_in_any_case() {
    assert!(is_valid_username("alice"));
    assert!(is_valid_username("admins"));
    assert!(!is_valid_username("admin"));
    assert!(!is_valid_username("Root"));
    assert!(!is_valid_username("SUPERUSER"));
    assert!(!is_valid_username("mod"));
    assert!(!is_valid_username("bad name"));
}

#[test]
fn validation_errors() {
    assert_eq!(room_name_error("ok"), None);
    assert_eq!(
        room_name_error("no!").unwrap(),
        "Error: Room name must be alphanumeric or dash only, and non-empty"
    );
    assert_eq!(username_error("bob"), None);
    assert_eq!(username_error("Daemon").unwrap(), "Error: Username 'Daemon' is reserved (blacklisted).");
    assert_eq!(
        username_error("a b").unwrap(),
        "Error: Username must be alphanumeric or dash only, and non-empty"
    );
}

#[test]
fn creation_reports() {
    assert_eq!(created_report(Entity::Room, "general", None).unwrap(), "Room 'general' created.");
    assert_eq!(
        created_report(Entity::User, "bob", Some("UNIQUE constraint failed: users.username".to_string()))
            .unwrap_err(),
        "Error: User 'bob' already exists."
    );
    assert_eq!(
        created_report(Entity::Room, "x", Some("disk I/O error".to_string())).unwrap_err(),
        "Error: disk I/O error"
    );
}

#[test]
fn deletion_reports() {
    assert_eq!(deleted_report(Entity::Room, "general", 1).unwrap(), "Room 'general' deleted.");
    assert_eq!(deleted_report(Entity::User, "bob", 0).unwrap_err(), "Error: User 'bob' not found.");
    assert_eq!(not_found(Entity::Room, "nope"), "Error: Room 'nope' not found.");
}

#[test]
fn access_reports() {
    assert_eq!(access_granted_report("bob", "general", None).unwrap(), "User 'bob' added to room 'general'.");
    assert_eq!(
        access_granted_report("bob", "general", Some("UNIQUE constraint failed".to_string())).unwrap_err(),
        "Error: User 'bob' is already in room 'general'."
    );
    assert_eq!(
        access_granted_report("bob", "general", Some("PRIMARY KEY must be unique".to_string())).unwrap_err(),
        "Error: User 'bob' is already in room 'general'."
    );
    assert_eq!(access_granted_report("bob", "g", Some("locked".to_string())).unwrap_err(), "Error: locked");
    assert_eq!(access_revoked_report("bob", "g", 1).unwrap(), "User 'bob' removed from room 'g'.");
    assert_eq!(access_revoked_report("bob", "g", 0).unwrap_err(), "Error: User 'bob' is not in room 'g'.");
}

#[test]
fn listings() {
    assert_eq!(listing(Listing::Rooms, &vec![]), vec!["No rooms found.".to_string()]);
    assert_eq!(
        listing(Listing::Users, &vec!["alice".to_string(), "bob".to_string()]),
        vec!["Users:".to_string(), "  1. alice".to_string(), "  2. bob".to_string()]
    );
    assert_eq!(listing(Listing::RoomUsers("g".to_string()), &vec![]), vec!["Room 'g' has no users.".to_string()]);
    assert_eq!(listing(Listing::UserRooms("u".to_string()), &vec![]), vec!["User 'u' has no rooms.".to_string()]);
    let many: Vec<String> = (0..12).map(|i| format!("r{}", i)).collect();
    let lines = listing(Listing::UserRooms("u".to_string()), &many);
    assert_eq!(lines[0], "Rooms for user 'u':");
    assert_eq!(lines[12], "  12. r11");
    assert_eq!(listing(Listing::RoomUsers("g".to_string()), &vec!["a".to_string()])[0], "Users in room 'g':");
}

fn args(words: &[&str]) -> Vec<String> {
    words.iter().map(|w| w.to_string()).collect()
}

#[test]
fn command_line_parsing() {
    assert_eq!(parse_command(&args(&["m"])).unwrap_err(), usage_lines());
    assert_eq!(usage_lines().len(), 13);
    match parse_command(&args(&["m", "user:add-room", "bob", "general"])).unwrap() {
        Command::UserAddRoom { username, room } => {
            assert_eq!(username, "bob");
            assert_eq!(room, "general");
        }
        other => panic!("{:?}", other),
    }
    assert!(matches!(parse_command(&args(&["m", "room:list", "extra"])).unwrap(), Command::RoomList));
    assert_eq!(
        parse_command(&args(&["m", "room:create"])).unwrap_err(),
        vec!["Usage: room:create <room_name>".to_string()]
    );
    let err = parse_command(&args(&["m", "fly"])).unwrap_err();
    assert_eq!(err[0], "Error: Unknown command 'fly'");
    assert_eq!(err[1..].to_vec(), usage_lines());
}
