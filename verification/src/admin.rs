//! The rules of the administration tool: which room names and usernames
//! are accepted, how passwords are stored, how the command line is read,
//! and what each outcome reports.

use vstd::prelude::*;
use vstd::string::*;
use crate::crypto::{sha256, sha256_digest};
use crate::text::{
    append, ascii_alphanumeric, ascii_lower, contains, contains_text, decimal, decimal_string,
    is_ascii_alphanumeric, same_text, text, to_ascii_lower, views,
};

verus! {

/// The lower-case hexadecimal digit of `n` (`n < 16`).
pub open spec fn hex_digit(n: nat) -> char {
    if n < 10 {
        (('0' as nat) + n) as char
    } else {
        (('a' as nat) + n - 10) as char
    }
}

/// Lower-case hexadecimal text of bytes: two digits per byte, high digit
/// first.
pub open spec fn hex_lower(bytes: Seq<u8>) -> Seq<char> {
    Seq::new(
        2 * bytes.len(),
        |i: int| if i % 2 == 0 { hex_digit((bytes[i / 2] / 16) as nat) } else { hex_digit((bytes[i / 2] % 16) as nat) },
    )
}

/// Calls `hex::encode`, which writes each byte as two lower-case
/// hexadecimal digits.
#[verifier::external_body]
fn hex_encode(data: &[u8]) -> (text: String)
    ensures
        text@ == hex_lower(data@),
{
    hex::encode(data)
}

/// The stored form of a password: the lower-case hexadecimal SHA-256
/// digest of its UTF-8 bytes.
pub fn hash_password(password: &str) -> (hash: String)
    ensures
        hash@ == hex_lower(sha256_digest(password.spec_bytes())),
        hash@.len() == 64,
{
    let digest = sha256(password.as_bytes());
    hex_encode(digest.as_slice())
}

/// A room name: non-empty, ASCII letters, digits and dashes only.
pub open spec fn valid_room_name(name: Seq<char>) -> bool {
    name.len() > 0 && forall|i: int| 0 <= i < name.len() ==> is_ascii_alphanumeric(#[trigger] name[i]) || name[i]
        == '-'
}

/// The reserved usernames.
pub open spec fn is_reserved_lower(name: Seq<char>) -> bool {
    ||| name == "admin"@
    ||| name == "root"@
    ||| name == "system"@
    ||| name == "server"@
    ||| name == "mod"@
    ||| name == "moderator"@
    ||| name == "operator"@
    ||| name == "superuser"@
    ||| name == "sys"@
    ||| name == "daemon"@
}

/// A reserved username, compared without regard to case.
pub open spec fn is_reserved(name: Seq<char>) -> bool {
    is_reserved_lower(ascii_lower(name))
}

/// A username: shaped like a room name and not reserved.
pub open spec fn valid_username(name: Seq<char>) -> bool {
    valid_room_name(name) && !is_reserved(name)
}

/// Law: the reserved names are refused in every case: two well-shaped
/// names that differ only in the case of their ASCII letters are both
/// acceptable usernames or both refused.
pub proof fn usernames_are_refused_in_every_case(a: Seq<char>, b: Seq<char>)
    requires
        valid_room_name(a),
        valid_room_name(b),
        ascii_lower(a) == ascii_lower(b),
    ensures
        valid_username(a) == valid_username(b),
{
}

/// Law: admin, root, system, server, mod, moderator, operator, superuser,
/// sys and daemon are refused as usernames in any ASCII case, and reported
/// as reserved; every other well-shaped name is accepted.
pub proof fn reserved_usernames_are_exactly_the_ten(name: Seq<char>)
    ensures
        (ascii_lower(name) == "admin"@ || ascii_lower(name) == "root"@ || ascii_lower(name) == "system"@
            || ascii_lower(name) == "server"@ || ascii_lower(name) == "mod"@ || ascii_lower(name) == "moderator"@
            || ascii_lower(name) == "operator"@ || ascii_lower(name) == "superuser"@ || ascii_lower(name) == "sys"@
            || ascii_lower(name) == "daemon"@) ==> is_reserved(name) && !valid_username(name),
        !(ascii_lower(name) == "admin"@ || ascii_lower(name) == "root"@ || ascii_lower(name) == "system"@
            || ascii_lower(name) == "server"@ || ascii_lower(name) == "mod"@ || ascii_lower(name) == "moderator"@
            || ascii_lower(name) == "operator"@ || ascii_lower(name) == "superuser"@ || ascii_lower(name) == "sys"@
            || ascii_lower(name) == "daemon"@) ==> !is_reserved(name) && (valid_username(name) == valid_room_name(name)),
{
}

/// Law: lowering a text changes only its ASCII capitals, each into the
/// small letter 32 code points later.
pub proof fn lowering_changes_only_capitals(s: Seq<char>)
    ensures
        ascii_lower(s).len() == s.len(),
        forall|i: int| 0 <= i < s.len() ==> (if 'A' <= s[i] <= 'Z' {
            #[trigger] ascii_lower(s)[i] as u32 == s[i] as u32 + 32
        } else {
            ascii_lower(s)[i] == s[i]
        }),
{
}

/// Law: a room name is a non-empty run of ASCII letters, digits and dashes,
/// and nothing else is one.
pub proof fn room_names_are_letters_digits_and_dashes(name: Seq<char>)
    ensures
        valid_room_name(name) <==> name.len() > 0 && forall|i: int| 0 <= i < name.len() ==> ('a' <= #[trigger] name[i]
            <= 'z' || 'A' <= name[i] <= 'Z' || '0' <= name[i] <= '9' || name[i] == '-'),
{
}

/// Is `name` acceptable as a room name.
pub fn is_valid_room_name(name: &str) -> (valid: bool)
    ensures
        valid == valid_room_name(name@),
{
    let n = name.unicode_len();
    if n == 0 {
        return false;
    }
    let mut i: usize = 0;
    while i < n
        invariant
            n == name@.len(),
            i <= n,
            forall|k: int| 0 <= k < i ==> is_ascii_alphanumeric(#[trigger] name@[k]) || name@[k] == '-',
        decreases n - i,
    {
        let c = name.get_char(i);
        if !(ascii_alphanumeric(c) || c == '-') {
            return false;
        }
        i = i + 1;
    }
    true
}

/// Is `name` one of the reserved usernames, in any case.
pub fn is_reserved_username(name: &str) -> (reserved: bool)
    ensures
        reserved == is_reserved(name@),
{
    let lower = to_ascii_lower(name);
    let l = lower.as_str();
    same_text(l, "admin") || same_text(l, "root") || same_text(l, "system") || same_text(l, "server")
        || same_text(l, "mod") || same_text(l, "moderator") || same_text(l, "operator") || same_text(
        l,
        "superuser",
    ) || same_text(l, "sys") || same_text(l, "daemon")
}

/// Is `name` acceptable as a username.
pub fn is_valid_username(name: &str) -> (valid: bool)
    ensures
        valid == valid_username(name@),
{
    is_valid_room_name(name) && !is_reserved_username(name)
}

/// The error reported for an unacceptable room name, or `None`.
pub fn room_name_error(name: &str) -> (error: Option<String>)
    ensures
        match error {
            None => valid_room_name(name@),
            Some(e) => !valid_room_name(name@) && e@ == "Error: Room name must be alphanumeric or dash only, and non-empty"@,
        },
{
    if is_valid_room_name(name) {
        None
    } else {
        Some(text("Error: Room name must be alphanumeric or dash only, and non-empty"))
    }
}

/// The error reported for an unacceptable username, or `None`: a reserved
/// name is reported as such, anything else by the naming rule.
pub fn username_error(name: &str) -> (error: Option<String>)
    ensures
        match error {
            None => valid_username(name@),
            Some(e) => !valid_username(name@) && if is_reserved(name@) {
                e@ == "Error: Username '"@ + name@ + "' is reserved (blacklisted)."@
            } else {
                e@ == "Error: Username must be alphanumeric or dash only, and non-empty"@
            },
        },
{
    if is_valid_username(name) {
        None
    } else if is_reserved_username(name) {
        let mut e = text("Error: Username '");
        append(&mut e, name);
        append(&mut e, "' is reserved (blacklisted).");
        Some(e)
    } else {
        Some(text("Error: Username must be alphanumeric or dash only, and non-empty"))
    }
}

/// What a record is.
#[derive(Debug, Clone, Copy, PartialEq, Eq, Structural)]
pub enum Entity {
    Room,
    User,
}

/// How a kind of record is named in reports.
pub open spec fn entity_label(entity: Entity) -> Seq<char> {
    match entity {
        Entity::Room => "Room"@,
        Entity::User => "User"@,
    }
}

fn label(entity: Entity) -> (l: &'static str)
    ensures
        l@ == entity_label(entity),
{
    match entity {
        Entity::Room => "Room",
        Entity::User => "User",
    }
}

/// `Room 'name'` or `User 'name'`.
pub open spec fn named(entity: Entity, name: Seq<char>) -> Seq<char> {
    entity_label(entity) + " '"@ + name + "'"@
}

fn named_text(entity: Entity, name: &str) -> (s: String)
    ensures
        s@ == named(entity, name@),
{
    let mut s = text(label(entity));
    append(&mut s, " '");
    append(&mut s, name);
    append(&mut s, "'");
    s
}

/// The report of a lookup that found nothing.
pub fn not_found(entity: Entity, name: &str) -> (report: String)
    ensures
        report@ == "Error: "@ + named(entity, name@) + " not found."@,
{
    let mut s = text("Error: ");
    let n = named_text(entity, name);
    append(&mut s, n.as_str());
    append(&mut s, " not found.");
    s
}

/// The report of creating a record, given the database's error, if any: a
/// uniqueness violation means it already exists.
pub fn created_report(entity: Entity, name: &str, db_error: Option<String>) -> (report: Result<String, String>)
    ensures
        match db_error {
            None => report matches Ok(r) && r@ == named(entity, name@) + " created."@,
            Some(e) => report matches Err(r) && if contains_text(e@, "UNIQUE"@) {
                r@ == "Error: "@ + named(entity, name@) + " already exists."@
            } else {
                r@ == "Error: "@ + e@
            },
        },
{
    match db_error {
        None => {
            let mut r = named_text(entity, name);
            append(&mut r, " created.");
            Ok(r)
        },
        Some(e) => {
            let mut r = text("Error: ");
            if contains(e.as_str(), "UNIQUE") {
                let n = named_text(entity, name);
                append(&mut r, n.as_str());
                append(&mut r, " already exists.");
            } else {
                append(&mut r, e.as_str());
            }
            Err(r)
        },
    }
}

/// The report of deleting a record, given how many rows went.
pub fn deleted_report(entity: Entity, name: &str, deleted: usize) -> (report: Result<String, String>)
    ensures
        deleted == 0 ==> (report matches Err(r) && r@ == "Error: "@ + named(entity, name@) + " not found."@),
        deleted > 0 ==> (report matches Ok(r) && r@ == named(entity, name@) + " deleted."@),
{
    if deleted == 0 {
        Err(not_found(entity, name))
    } else {
        let mut r = named_text(entity, name);
        append(&mut r, " deleted.");
        Ok(r)
    }
}

/// `User 'user'` and `room 'room'`, joined by `middle`.
pub open spec fn membership(user: Seq<char>, middle: Seq<char>, room: Seq<char>) -> Seq<char> {
    "User '"@ + user + "'"@ + middle + " room '"@ + room + "'"@
}

fn membership_text(user: &str, middle: &str, room: &str) -> (s: String)
    ensures
        s@ == membership(user@, middle@, room@),
{
    let mut s = text("User '");
    append(&mut s, user);
    append(&mut s, "'");
    append(&mut s, middle);
    append(&mut s, " room '");
    append(&mut s, room);
    append(&mut s, "'");
    s
}

/// The report of granting a user access to a room, given the database's
/// error, if any: a key violation means the access exists already.
pub fn access_granted_report(user: &str, room: &str, db_error: Option<String>) -> (report: Result<String, String>)
    ensures
        match db_error {
            None => report matches Ok(r) && r@ == membership(user@, " added to"@, room@) + "."@,
            Some(e) => report matches Err(r) && if contains_text(e@, "UNIQUE"@) || contains_text(e@, "PRIMARY KEY"@) {
                r@ == "Error: "@ + membership(user@, " is already in"@, room@) + "."@
            } else {
                r@ == "Error: "@ + e@
            },
        },
{
    match db_error {
        None => {
            let mut r = membership_text(user, " added to", room);
            append(&mut r, ".");
            Ok(r)
        },
        Some(e) => {
            let mut r = text("Error: ");
            if contains(e.as_str(), "UNIQUE") || contains(e.as_str(), "PRIMARY KEY") {
                let m = membership_text(user, " is already in", room);
                append(&mut r, m.as_str());
                append(&mut r, ".");
            } else {
                append(&mut r, e.as_str());
            }
            Err(r)
        },
    }
}

/// The report of revoking a user's access to a room, given how many rows
/// went.
pub fn access_revoked_report(user: &str, room: &str, deleted: usize) -> (report: Result<String, String>)
    ensures
        deleted == 0 ==> (report matches Err(r) && r@ == "Error: "@ + membership(user@, " is not in"@, room@) + "."@),
        deleted > 0 ==> (report matches Ok(r) && r@ == membership(user@, " removed from"@, room@) + "."@),
{
    if deleted == 0 {
        let mut r = text("Error: ");
        let m = membership_text(user, " is not in", room);
        append(&mut r, m.as_str());
        append(&mut r, ".");
        Err(r)
    } else {
        let mut r = membership_text(user, " removed from", room);
        append(&mut r, ".");
        Ok(r)
    }
}

/// A listing of the administration tool.
#[derive(Debug)]
pub enum Listing {
    Rooms,
    Users,
    /// The users with access to a room.
    RoomUsers(String),
    /// The rooms a user can access.
    UserRooms(String),
}

/// The line printed when a listing is empty.
pub open spec fn empty_line(kind: Listing) -> Seq<char> {
    match kind {
        Listing::Rooms => "No rooms found."@,
        Listing::Users => "No users found."@,
        Listing::RoomUsers(r) => "Room '"@ + r@ + "' has no users."@,
        Listing::UserRooms(u) => "User '"@ + u@ + "' has no rooms."@,
    }
}

/// The line that heads a non-empty listing.
pub open spec fn heading(kind: Listing) -> Seq<char> {
    match kind {
        Listing::Rooms => "Rooms:"@,
        Listing::Users => "Users:"@,
        Listing::RoomUsers(r) => "Users in room '"@ + r@ + "':"@,
        Listing::UserRooms(u) => "Rooms for user '"@ + u@ + "':"@,
    }
}

/// The line of the `i`-th item (counted from 0) of a listing.
pub open spec fn item_line(i: nat, item: Seq<char>) -> Seq<char> {
    "  "@ + decimal(i + 1) + ". "@ + item
}

/// The lines that present a listing: one line when it is empty, otherwise
/// a heading and one numbered line per item.
pub fn listing(kind: Listing, items: &Vec<String>) -> (lines: Vec<String>)
    requires
        items@.len() < u64::MAX,
    ensures
        items@.len() == 0 ==> views(lines@) == seq![empty_line(kind)],
        items@.len() > 0 ==> {
            &&& lines@.len() == items@.len() + 1
            &&& lines@[0]@ == heading(kind)
            &&& forall|i: int| 0 <= i < items@.len() ==> #[trigger] lines@[i + 1]@ == item_line(i as nat, items@[i]@)
        },
{
    let mut lines: Vec<String> = Vec::new();
    if items.len() == 0 {
        let line = match kind {
            Listing::Rooms => text("No rooms found."),
            Listing::Users => text("No users found."),
            Listing::RoomUsers(r) => {
                let mut l = text("Room '");
                append(&mut l, r.as_str());
                append(&mut l, "' has no users.");
                l
            },
            Listing::UserRooms(u) => {
                let mut l = text("User '");
                append(&mut l, u.as_str());
                append(&mut l, "' has no rooms.");
                l
            },
        };
        lines.push(line);
        assert(views(lines@) =~= seq![empty_line(kind)]);
        return lines;
    }
    let head = match kind {
        Listing::Rooms => text("Rooms:"),
        Listing::Users => text("Users:"),
        Listing::RoomUsers(r) => {
            let mut l = text("Users in room '");
            append(&mut l, r.as_str());
            append(&mut l, "':");
            l
        },
        Listing::UserRooms(u) => {
            let mut l = text("Rooms for user '");
            append(&mut l, u.as_str());
            append(&mut l, "':");
            l
        },
    };
    lines.push(head);
    let mut i: usize = 0;
    while i < items.len()
        invariant
            i <= items@.len(),
            items@.len() < u64::MAX,
            lines@.len() == i + 1,
            lines@[0]@ == heading(kind),
            forall|k: int| 0 <= k < i ==> #[trigger] lines@[k + 1]@ == item_line(k as nat, items@[k]@),
        decreases items@.len() - i,
    {
        let mut line = text("  ");
        let number = decimal_string(i as u64 + 1);
        append(&mut line, number.as_str());
        append(&mut line, ". ");
        append(&mut line, items[i].as_str());
        lines.push(line);
        i = i + 1;
    }
    lines
}

/// A command of the administration tool.
#[derive(Debug)]
pub enum Command {
    RoomCreate { name: String },
    RoomDelete { name: String },
    RoomList,
    RoomUsers { name: String },
    UserCreate { username: String, password: String },
    UserDelete { username: String },
    UserList,
    UserRooms { username: String },
    UserAddRoom { username: String, room: String },
    UserRemoveRoom { username: String, room: String },
}

/// The usage text of the tool.
pub open spec fn usage_text() -> Seq<Seq<char>> {
    seq![
        "Usage: rustui-management <command> [args...]"@,
        ""@,
        "Commands:"@,
        "  room:create <room_name>"@,
        "  room:delete <room_name>"@,
        "  room:list"@,
        "  room:users <room_name>"@,
        "  user:create <username> <password>"@,
        "  user:delete <username>"@,
        "  user:list"@,
        "  user:rooms <username>"@,
        "  user:add-room <username> <room_name>"@,
        "  user:remove-room <username> <room_name>"@,
    ]
}

/// The usage text of the tool, line by line.
pub fn usage_lines() -> (lines: Vec<String>)
    ensures
        views(lines@) == usage_text(),
{
    let mut lines: Vec<String> = Vec::new();
    lines.push(text("Usage: rustui-management <command> [args...]"));
    lines.push(text(""));
    lines.push(text("Commands:"));
    lines.push(text("  room:create <room_name>"));
    lines.push(text("  room:delete <room_name>"));
    lines.push(text("  room:list"));
    lines.push(text("  room:users <room_name>"));
    lines.push(text("  user:create <username> <password>"));
    lines.push(text("  user:delete <username>"));
    lines.push(text("  user:list"));
    lines.push(text("  user:rooms <username>"));
    lines.push(text("  user:add-room <username> <room_name>"));
    lines.push(text("  user:remove-room <username> <room_name>"));
    assert(views(lines@) =~= usage_text());
    lines
}

/// The number of words a command takes (the program name and the command
/// included), and its usage line; `None` for the listings, which take any.
pub open spec fn command_shape(cmd: Seq<char>) -> Option<(nat, Seq<char>)> {
    if cmd == "room:create"@ {
        Some((3, "Usage: room:create <room_name>"@))
    } else if cmd == "room:delete"@ {
        Some((3, "Usage: room:delete <room_name>"@))
    } else if cmd == "room:users"@ {
        Some((3, "Usage: room:users <room_name>"@))
    } else if cmd == "user:create"@ {
        Some((4, "Usage: user:create <username> <password>"@))
    } else if cmd == "user:delete"@ {
        Some((3, "Usage: user:delete <username>"@))
    } else if cmd == "user:rooms"@ {
        Some((3, "Usage: user:rooms <username>"@))
    } else if cmd == "user:add-room"@ {
        Some((4, "Usage: user:add-room <username> <room_name>"@))
    } else if cmd == "user:remove-room"@ {
        Some((4, "Usage: user:remove-room <username> <room_name>"@))
    } else {
        None
    }
}

/// The command names.
pub open spec fn is_known_command(cmd: Seq<char>) -> bool {
    command_shape(cmd) is Some || cmd == "room:list"@ || cmd == "user:list"@
}

/// `c` is the command that the words `args` (program name first) ask for.
pub open spec fn command_matches(c: Command, args: Seq<Seq<char>>) -> bool {
    let cmd = args[1];
    match c {
        Command::RoomCreate { name } => cmd == "room:create"@ && name@ == args[2],
        Command::RoomDelete { name } => cmd == "room:delete"@ && name@ == args[2],
        Command::RoomList => cmd == "room:list"@,
        Command::RoomUsers { name } => cmd == "room:users"@ && name@ == args[2],
        Command::UserCreate { username, password } => cmd == "user:create"@ && username@ == args[2]
            && password@ == args[3],
        Command::UserDelete { username } => cmd == "user:delete"@ && username@ == args[2],
        Command::UserList => cmd == "user:list"@,
        Command::UserRooms { username } => cmd == "user:rooms"@ && username@ == args[2],
        Command::UserAddRoom { username, room } => cmd == "user:add-room"@ && username@ == args[2]
            && room@ == args[3],
        Command::UserRemoveRoom { username, room } => cmd == "user:remove-room"@ && username@ == args[2]
            && room@ == args[3],
    }
}

/// The command names are all different.
proof fn command_names_differ()
    ensures
        "room:create"@ != "room:delete"@,
        "room:create"@ != "room:list"@,
        "room:create"@ != "room:users"@,
        "room:create"@ != "user:create"@,
        "room:create"@ != "user:delete"@,
        "room:create"@ != "user:list"@,
        "room:create"@ != "user:rooms"@,
        "room:create"@ != "user:add-room"@,
        "room:create"@ != "user:remove-room"@,
        "room:delete"@ != "room:list"@,
        "room:delete"@ != "room:users"@,
        "room:delete"@ != "user:create"@,
        "room:delete"@ != "user:delete"@,
        "room:delete"@ != "user:list"@,
        "room:delete"@ != "user:rooms"@,
        "room:delete"@ != "user:add-room"@,
        "room:delete"@ != "user:remove-room"@,
        "room:list"@ != "room:users"@,
        "room:list"@ != "user:create"@,
        "room:list"@ != "user:delete"@,
        "room:list"@ != "user:list"@,
        "room:list"@ != "user:rooms"@,
        "room:list"@ != "user:add-room"@,
        "room:list"@ != "user:remove-room"@,
        "room:users"@ != "user:create"@,
        "room:users"@ != "user:delete"@,
        "room:users"@ != "user:list"@,
        "room:users"@ != "user:rooms"@,
        "room:users"@ != "user:add-room"@,
        "room:users"@ != "user:remove-room"@,
        "user:create"@ != "user:delete"@,
        "user:create"@ != "user:list"@,
        "user:create"@ != "user:rooms"@,
        "user:create"@ != "user:add-room"@,
        "user:create"@ != "user:remove-room"@,
        "user:delete"@ != "user:list"@,
        "user:delete"@ != "user:rooms"@,
        "user:delete"@ != "user:add-room"@,
        "user:delete"@ != "user:remove-room"@,
        "user:list"@ != "user:rooms"@,
        "user:list"@ != "user:add-room"@,
        "user:list"@ != "user:remove-room"@,
        "user:rooms"@ != "user:add-room"@,
        "user:rooms"@ != "user:remove-room"@,
        "user:add-room"@ != "user:remove-room"@,
{
    reveal_strlit("room:create");
    reveal_strlit("room:delete");
    reveal_strlit("room:list");
    reveal_strlit("room:users");
    reveal_strlit("user:create");
    reveal_strlit("user:delete");
    reveal_strlit("user:list");
    reveal_strlit("user:rooms");
    reveal_strlit("user:add-room");
    reveal_strlit("user:remove-room");
    assert("room:create"@.len() == 11);
    assert("room:create"@[0] == 'r');
    assert("room:create"@[5] == 'c');
    assert("room:delete"@.len() == 11);
    assert("room:delete"@[0] == 'r');
    assert("room:delete"@[5] == 'd');
    assert("room:list"@.len() == 9);
    assert("room:list"@[0] == 'r');
    assert("room:list"@[5] == 'l');
    assert("room:users"@.len() == 10);
    assert("room:users"@[0] == 'r');
    assert("room:users"@[5] == 'u');
    assert("user:create"@.len() == 11);
    assert("user:create"@[0] == 'u');
    assert("user:create"@[5] == 'c');
    assert("user:delete"@.len() == 11);
    assert("user:delete"@[0] == 'u');
    assert("user:delete"@[5] == 'd');
    assert("user:list"@.len() == 9);
    assert("user:list"@[0] == 'u');
    assert("user:list"@[5] == 'l');
    assert("user:rooms"@.len() == 10);
    assert("user:rooms"@[0] == 'u');
    assert("user:rooms"@[5] == 'r');
    assert("user:add-room"@.len() == 13);
    assert("user:add-room"@[0] == 'u');
    assert("user:add-room"@[5] == 'a');
    assert("user:remove-room"@.len() == 16);
    assert("user:remove-room"@[0] == 'u');
    assert("user:remove-room"@[5] == 'r');
}

/// Law: each command takes its words in the order of its usage line:
/// `user:add-room` and `user:remove-room` take the user, then the room;
/// `user:create` the user, then the password.
pub proof fn commands_take_their_words_in_order(c: Command, w: Seq<Seq<char>>)
    requires
        w.len() >= 2,
        command_matches(c, w),
    ensures
        w[1] == "room:create"@ ==> (c matches Command::RoomCreate { name } && name@ == w[2]),
        w[1] == "room:delete"@ ==> (c matches Command::RoomDelete { name } && name@ == w[2]),
        w[1] == "room:list"@ ==> (c matches Command::RoomList),
        w[1] == "room:users"@ ==> (c matches Command::RoomUsers { name } && name@ == w[2]),
        w[1] == "user:create"@ ==> (c matches Command::UserCreate { username, password } && username@ == w[2]
            && password@ == w[3]),
        w[1] == "user:delete"@ ==> (c matches Command::UserDelete { username } && username@ == w[2]),
        w[1] == "user:list"@ ==> (c matches Command::UserList),
        w[1] == "user:rooms"@ ==> (c matches Command::UserRooms { username } && username@ == w[2]),
        w[1] == "user:add-room"@ ==> (c matches Command::UserAddRoom { username, room } && username@ == w[2]
            && room@ == w[3]),
        w[1] == "user:remove-room"@ ==> (c matches Command::UserRemoveRoom { username, room } && username@ == w[2]
            && room@ == w[3]),
{
    command_names_differ();
    reveal_strlit("room:create");
    reveal_strlit("room:delete");
    reveal_strlit("room:list");
    reveal_strlit("room:users");
    reveal_strlit("user:create");
    reveal_strlit("user:delete");
    reveal_strlit("user:list");
    reveal_strlit("user:rooms");
    reveal_strlit("user:add-room");
    reveal_strlit("user:remove-room");
}

/// Law: the commands that take words take exactly these many (program
/// name and command included), and a wrong count is answered with the
/// usage line of the command.
pub proof fn command_arities(cmd: Seq<char>)
    ensures
        cmd == "room:create"@ ==> command_shape(cmd) == Some((3nat, "Usage: room:create <room_name>"@)),
        cmd == "room:delete"@ ==> command_shape(cmd) == Some((3nat, "Usage: room:delete <room_name>"@)),
        cmd == "room:users"@ ==> command_shape(cmd) == Some((3nat, "Usage: room:users <room_name>"@)),
        cmd == "user:create"@ ==> command_shape(cmd) == Some((4nat, "Usage: user:create <username> <password>"@)),
        cmd == "user:delete"@ ==> command_shape(cmd) == Some((3nat, "Usage: user:delete <username>"@)),
        cmd == "user:rooms"@ ==> command_shape(cmd) == Some((3nat, "Usage: user:rooms <username>"@)),
        cmd == "user:add-room"@ ==> command_shape(cmd) == Some(
            (4nat, "Usage: user:add-room <username> <room_name>"@),
        ),
        cmd == "user:remove-room"@ ==> command_shape(cmd) == Some(
            (4nat, "Usage: user:remove-room <username> <room_name>"@),
        ),
        cmd == "room:list"@ || cmd == "user:list"@ ==> command_shape(cmd) is None && is_known_command(cmd),
{
    command_names_differ();
    reveal_strlit("room:create");
    reveal_strlit("room:delete");
    reveal_strlit("room:list");
    reveal_strlit("room:users");
    reveal_strlit("user:create");
    reveal_strlit("user:delete");
    reveal_strlit("user:list");
    reveal_strlit("user:rooms");
    reveal_strlit("user:add-room");
    reveal_strlit("user:remove-room");
}

fn arg(args: &Vec<String>, i: usize) -> (a: String)
    requires
        i < args@.len(),
    ensures
        a@ == args@[i as int]@,
{
    args[i].clone()
}

fn arity_error(line: &str) -> (lines: Vec<String>)
    ensures
        views(lines@) == seq![line@],
{
    let mut lines: Vec<String> = Vec::new();
    lines.push(text(line));
    assert(views(lines@) =~= seq![line@]);
    lines
}

/// Reads the command line (program name first). Without a command it
/// answers with the usage text; for a command with the wrong number of
/// words, with its usage line; for an unknown command, with an error and
/// the usage text. These lines go to the error output.
pub fn parse_command(args: &Vec<String>) -> (parsed: Result<Command, Vec<String>>)
    ensures
        args@.len() < 2 ==> (parsed matches Err(lines) && views(lines@) == usage_text()),
        args@.len() >= 2 ==> {
            let w = views(args@);
            let cmd = w[1];
            match command_shape(cmd) {
                Some((n, usage)) => if w.len() == n {
                    parsed matches Ok(c) && command_matches(c, w)
                } else {
                    parsed matches Err(lines) && views(lines@) == seq![usage]
                },
                None => if is_known_command(cmd) {
                    parsed matches Ok(c) && command_matches(c, w)
                } else {
                    parsed matches Err(lines) && views(lines@) == seq![
                        "Error: Unknown command '"@ + cmd + "'"@,
                    ] + usage_text()
                },
            }
        },
{
    if args.len() < 2 {
        return Err(usage_lines());
    }
    let n = args.len();
    let cmd = args[1].as_str();
    if same_text(cmd, "room:create") {
        if n != 3 {
            return Err(arity_error("Usage: room:create <room_name>"));
        }
        Ok(Command::RoomCreate { name: arg(args, 2) })
    } else if same_text(cmd, "room:delete") {
        if n != 3 {
            return Err(arity_error("Usage: room:delete <room_name>"));
        }
        Ok(Command::RoomDelete { name: arg(args, 2) })
    } else if same_text(cmd, "room:users") {
        if n != 3 {
            return Err(arity_error("Usage: room:users <room_name>"));
        }
        Ok(Command::RoomUsers { name: arg(args, 2) })
    } else if same_text(cmd, "user:create") {
        if n != 4 {
            return Err(arity_error("Usage: user:create <username> <password>"));
        }
        Ok(Command::UserCreate { username: arg(args, 2), password: arg(args, 3) })
    } else if same_text(cmd, "user:delete") {
        if n != 3 {
            return Err(arity_error("Usage: user:delete <username>"));
        }
        Ok(Command::UserDelete { username: arg(args, 2) })
    } else if same_text(cmd, "user:rooms") {
        if n != 3 {
            return Err(arity_error("Usage: user:rooms <username>"));
        }
        Ok(Command::UserRooms { username: arg(args, 2) })
    } else if same_text(cmd, "user:add-room") {
        if n != 4 {
            return Err(arity_error("Usage: user:add-room <username> <room_name>"));
        }
        Ok(Command::UserAddRoom { username: arg(args, 2), room: arg(args, 3) })
    } else if same_text(cmd, "user:remove-room") {
        if n != 4 {
            return Err(arity_error("Usage: user:remove-room <username> <room_name>"));
        }
        Ok(Command::UserRemoveRoom { username: arg(args, 2), room: arg(args, 3) })
    } else if same_text(cmd, "room:list") {
        Ok(Command::RoomList)
    } else if same_text(cmd, "user:list") {
        Ok(Command::UserList)
    } else {
        let mut first = text("Error: Unknown command '");
        append(&mut first, cmd);
        append(&mut first, "'");
        let mut lines: Vec<String> = Vec::new();
        lines.push(first);
        let mut usage = usage_lines();
        lines.append(&mut usage);
        assert(views(lines@) =~= seq!["Error: Unknown command '"@ + cmd@ + "'"@] + usage_text());
        Err(lines)
    }
}

} // verus!
