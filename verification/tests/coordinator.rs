use chat_relay::message::{
    ClientMessage, Connect, Delivery, Disconnect, GetInfo, Join, ListRooms, MError, MMessage,
    Request, User, UserRename, T_SENDER_SYSTEM, T_SENDER_SYSTEM_ERR, T_SENDER_USER,
};
use chat_relay::server::{contains_forbidden_char, ChatServer};

const A: u128 = 0xa1a2a3a4_b1b2_c1c2_d1d2_d3d4d5d6d7d8;
const B: u128 = 0x00000000_0000_4000_8000_000000000001;
const C: u128 = 0xffffffff_ffff_4fff_bfff_ffffffffffff;
const A_TEXT: &str = "a1a2a3a4-b1b2-c1c2-d1d2-d3d4d5d6d7d8";
const B_TEXT: &str = "00000000-0000-4000-8000-000000000001";

fn recipients(out: &[Delivery]) -> Vec<u128> {
    let mut ids: Vec<u128> = out.iter().map(|d| d.to).collect();
    ids.sort();
    ids
}

fn sorted(mut ids: Vec<u128>) -> Vec<u128> {
    ids.sort();
    ids
}

fn members(server: &ChatServer<u32>, room: &str) -> Vec<u128> {
    recipients(&server.send_to(room, None, "probe"))
}

fn snapshot(server: &ChatServer<u32>, id: u128) -> Option<(String, String)> {
    let out = server.get_info(GetInfo { id });
    match out.len() {
        0 => None,
        1 => {
            assert_eq!(out[0].to, id);
            out[0].message.set_info.clone()
        }
        n => panic!("{} snapshots", n),
    }
}

fn rooms(server: &ChatServer<u32>, id: u128) -> Vec<String> {
    let out = server.list_rooms(ListRooms { id });
    assert_eq!(out.len(), 1);
    let body = &out[0].message.message;
    assert!(body.starts_with('\n'));
    assert!(body.ends_with('\n'));
    let mut names: Vec<String> = body[1..].lines().map(|l| l.to_string()).collect();
    names.sort();
    names
}

fn assert_text(m: &MMessage, message: &str, sender_type: &str, sender_name: &str) {
    assert_eq!(m.message, message);
    assert_eq!(m.sender_type, sender_type);
    assert_eq!(m.sender_name, sender_name);
    assert_eq!(m.set_info, None);
}

fn handle_of(id: u128) -> u32 {
    (id % 1000) as u32
}

fn server_with(ids: &[u128]) -> ChatServer<u32> {
    let mut server = ChatServer::new();
    for id in ids {
        assert!(server.connect_as(*id, handle_of(*id)).is_ok());
    }
    server
}

#[test]
fn message_from_fills_the_text_fields() {
    let m = MMessage::from("hello", "user", "ann");
    assert_text(&m, "hello", "user", "ann");
}

#[test]
fn message_from_set_info_carries_only_the_snapshot() {
    let user = User { name: "ann".to_string(), room: "lobby".to_string() };
    let m = MMessage::from_set_info(&user);
    assert_eq!(m.message, "");
    assert_eq!(m.sender_type, "");
    assert_eq!(m.sender_name, "");
    assert_eq!(m.set_info, Some(("ann".to_string(), "lobby".to_string())));
}

#[test]
fn sender_tags_have_their_wire_values() {
    assert_eq!(T_SENDER_USER, "user");
    assert_eq!(T_SENDER_SYSTEM, "system");
    assert_eq!(T_SENDER_SYSTEM_ERR, "error");
}

#[test]
fn user_default_is_unnamed_and_in_no_room() {
    let user = User::default();
    assert_eq!(user.name, "");
    assert_eq!(user.room, "");
    let copy = user.clone();
    assert_eq!(copy.name, "");
}

#[test]
fn new_server_has_no_room_and_no_session() {
    let server: ChatServer<u32> = ChatServer::new();
    assert!(members(&server, "main").is_empty());
    assert_eq!(server.recipient(A), None);
    assert_eq!(snapshot(&server, A), None);
    assert!(server.list_rooms(ListRooms { id: A }).is_empty());
}

#[test]
fn connect_registers_under_the_identifier_text_and_joins_main() {
    let mut server = ChatServer::new();
    let out = server.connect_as(A, 17u32).expect("fresh identifier");
    assert_eq!(server.recipient(A), Some(&17));
    assert_eq!(server.recipient(B), None);
    assert_eq!(recipients(&out), vec![A]);
    assert_text(
        &out[0].message,
        "[new user a1a2a3a4-b1b2-c1c2-d1d2-d3d4d5d6d7d8 Joined to main room]",
        "system",
        "system",
    );
    assert_eq!(snapshot(&server, A), Some((A_TEXT.to_string(), "main".to_string())));
    assert_eq!(members(&server, "main"), vec![A]);
    assert_eq!(rooms(&server, A), vec!["main".to_string()]);
}

#[test]
fn connect_notice_reaches_everyone_in_main() {
    let mut server = server_with(&[A]);
    let out = server.connect_as(B, 2).expect("fresh identifier");
    assert_eq!(recipients(&out), sorted(vec![A, B]));
    for d in &out {
        assert_text(
            &d.message,
            "[new user 00000000-0000-4000-8000-000000000001 Joined to main room]",
            "system",
            "system",
        );
    }
}

#[test]
fn connect_refuses_a_registered_identifier() {
    let mut server = server_with(&[A]);
    let out = server.rename(UserRename { id: A, new_name: "ann".to_string() });
    assert_eq!(out.len(), 2);
    assert_eq!(server.connect_as(A, 99).err(), Some(99));
    assert_eq!(server.recipient(A), Some(&handle_of(A)));
    assert_eq!(snapshot(&server, A), Some(("ann".to_string(), "main".to_string())));
    assert_eq!(members(&server, "main"), vec![A]);
}

#[test]
fn connect_assigns_identifiers_that_were_not_registered() {
    let mut server = ChatServer::new();
    let mut seen: Vec<u128> = Vec::new();
    for handle in 0..50u32 {
        match server.connect(Connect { addr: handle }) {
            Ok(granted) => {
                let id = granted.id;
                assert!(!seen.contains(&id));
                assert_eq!((id >> 76) & 0xf, 4);
                assert_eq!((id >> 62) & 0x3, 2);
                assert!(recipients(&granted.notices).contains(&id));
                assert_eq!(server.recipient(id), Some(&handle));
                assert_eq!(snapshot(&server, id), Some((granted.reply.clone(), "main".to_string())));
                assert_eq!(granted.reply.len(), 36);
                seen.push(id);
            }
            Err(back) => assert_eq!(back.addr, handle),
        }
    }
    assert_eq!(members(&server, "main"), sorted(seen.clone()));
    assert!(!seen.is_empty());
}

#[test]
fn repeated_candidates_are_assigned_once() {
    let mut server = ChatServer::new();
    let mut assigned = Vec::new();
    for (handle, id) in (0u32..).zip([A, B, A, C, B, A]) {
        if server.connect_as(id, handle).is_ok() {
            assigned.push(id);
        }
    }
    assert_eq!(server.recipient(A), Some(&0));
    assert_eq!(server.recipient(B), Some(&1));
    assert_eq!(server.recipient(C), Some(&3));
    assert_eq!(assigned, vec![A, B, C]);
    assert_eq!(members(&server, "main"), sorted(vec![A, B, C]));
}

#[test]
fn join_moves_the_user_and_tells_both_rooms() {
    let mut server = server_with(&[A, B]);
    let out = server.join(Join { id: B, room: "lobby".to_string() });
    assert_eq!(out.len(), 3);
    assert_eq!(out[0].to, B);
    assert_eq!(out[0].message.set_info, Some((B_TEXT.to_string(), "lobby".to_string())));
    assert_eq!(out[1].to, A);
    assert_text(
        &out[1].message,
        "[User 00000000-0000-4000-8000-000000000001 leaved the room main]",
        "system",
        "system",
    );
    assert_eq!(out[2].to, B);
    assert_text(
        &out[2].message,
        "[User 00000000-0000-4000-8000-000000000001 joined the room lobby]",
        "system",
        "system",
    );
    assert_eq!(snapshot(&server, B), Some((B_TEXT.to_string(), "lobby".to_string())));
    assert_eq!(server.recipient(B), Some(&handle_of(B)));
    assert_eq!(members(&server, "main"), vec![A]);
    assert_eq!(members(&server, "lobby"), vec![B]);
    assert_eq!(rooms(&server, A), vec!["lobby".to_string(), "main".to_string()]);
}

#[test]
fn join_by_the_last_member_deletes_the_old_room() {
    let mut server = server_with(&[A]);
    let out = server.join(Join { id: A, room: "lobby".to_string() });
    assert_eq!(out.len(), 2);
    assert_eq!(out[0].message.set_info, Some((A_TEXT.to_string(), "lobby".to_string())));
    assert_eq!(out[1].to, A);
    assert_eq!(out[1].message.message, format!("[User {} joined the room lobby]", A_TEXT));
    assert_eq!(rooms(&server, A), vec!["lobby".to_string()]);
    assert!(members(&server, "main").is_empty());
}

#[test]
fn join_of_the_current_room_leaves_and_enters_again() {
    let mut server = server_with(&[A, B]);
    let out = server.join(Join { id: A, room: "main".to_string() });
    assert_eq!(out.len(), 4);
    assert_eq!(out[0].to, A);
    assert_eq!(out[1].to, B);
    assert_eq!(out[1].message.message, format!("[User {} leaved the room main]", A_TEXT));
    assert_eq!(recipients(&out[2..]), sorted(vec![A, B]));
    assert_eq!(snapshot(&server, A), Some((A_TEXT.to_string(), "main".to_string())));
    assert_eq!(members(&server, "main"), sorted(vec![A, B]));
}

#[test]
fn join_by_an_unknown_session_does_nothing() {
    let mut server = server_with(&[A]);
    assert!(server.join(Join { id: B, room: "lobby".to_string() }).is_empty());
    assert_eq!(rooms(&server, A), vec!["main".to_string()]);
    assert!(members(&server, "lobby").is_empty());
}

#[test]
fn disconnect_removes_the_session_everywhere() {
    let mut server = server_with(&[A, B]);
    let out = server.disconnect(Disconnect { id: A });
    assert_eq!(recipients(&out), vec![B]);
    assert_text(
        &out[0].message,
        "[user a1a2a3a4-b1b2-c1c2-d1d2-d3d4d5d6d7d8 disconnected]",
        "system",
        "system",
    );
    assert_eq!(snapshot(&server, A), None);
    assert_eq!(server.recipient(A), None);
    assert_eq!(server.recipient(B), Some(&handle_of(B)));
    assert_eq!(members(&server, "main"), vec![B]);
}

#[test]
fn disconnect_of_the_last_member_deletes_the_room() {
    let mut server = server_with(&[A, B]);
    server.join(Join { id: B, room: "lobby".to_string() });
    let out = server.disconnect(Disconnect { id: B });
    assert!(out.is_empty());
    assert_eq!(rooms(&server, A), vec!["main".to_string()]);
    assert!(members(&server, "lobby").is_empty());
}

#[test]
fn disconnect_is_idempotent() {
    let mut server = server_with(&[A, B]);
    assert_eq!(server.disconnect(Disconnect { id: A }).len(), 1);
    assert!(server.disconnect(Disconnect { id: A }).is_empty());
    assert_eq!(members(&server, "main"), vec![B]);
    assert_eq!(snapshot(&server, B), Some((B_TEXT.to_string(), "main".to_string())));
}

#[test]
fn disconnect_uses_the_current_name() {
    let mut server = server_with(&[A, B]);
    server.rename(UserRename { id: A, new_name: "ann".to_string() });
    let out = server.disconnect(Disconnect { id: A });
    assert_eq!(out.len(), 1);
    assert_eq!(out[0].message.message, "[user ann disconnected]");
}

#[test]
fn client_message_reaches_the_whole_room_sender_included() {
    let mut server = server_with(&[A, B, C]);
    server.join(Join { id: C, room: "lobby".to_string() });
    let out = server.client_message(ClientMessage { id: A, msg: "hi there".to_string() });
    assert_eq!(recipients(&out), sorted(vec![A, B]));
    for d in &out {
        assert_text(&d.message, "hi there", "user", A_TEXT);
    }
}

#[test]
fn client_message_from_an_unknown_session_is_dropped() {
    let server = server_with(&[A]);
    assert!(server.client_message(ClientMessage { id: B, msg: "hi".to_string() }).is_empty());
}

#[test]
fn client_message_from_a_user_in_no_room_is_dropped() {
    let mut server = server_with(&[A, B]);
    server.join(Join { id: B, room: "".to_string() });
    server.leave_room(&A, "main");
    assert_eq!(snapshot(&server, A), Some((A_TEXT.to_string(), "".to_string())));
    assert!(server.client_message(ClientMessage { id: A, msg: "hi".to_string() }).is_empty());
}

#[test]
fn list_rooms_names_exactly_the_inhabited_rooms() {
    let mut server = server_with(&[A, B, C]);
    server.join(Join { id: B, room: "lobby".to_string() });
    server.join(Join { id: C, room: "attic".to_string() });
    let out = server.list_rooms(ListRooms { id: A });
    assert_eq!(out.len(), 1);
    assert_eq!(out[0].to, A);
    assert_eq!(out[0].message.sender_type, "system");
    assert_eq!(out[0].message.sender_name, "system");
    assert_eq!(out[0].message.set_info, None);
    assert_eq!(
        rooms(&server, A),
        vec!["attic".to_string(), "lobby".to_string(), "main".to_string()]
    );
    server.join(Join { id: C, room: "lobby".to_string() });
    assert_eq!(rooms(&server, A), vec!["lobby".to_string(), "main".to_string()]);
}

#[test]
fn list_rooms_body_is_one_name_per_line() {
    let server = server_with(&[A]);
    let out = server.list_rooms(ListRooms { id: A });
    assert_eq!(out[0].message.message, "\nmain\n");
}

#[test]
fn list_rooms_for_an_unknown_session_is_dropped() {
    let server = server_with(&[A]);
    assert!(server.list_rooms(ListRooms { id: B }).is_empty());
}

#[test]
fn rename_changes_the_name_and_tells_the_room() {
    let mut server = server_with(&[A, B]);
    let out = server.rename(UserRename { id: A, new_name: "ann".to_string() });
    assert_eq!(out.len(), 3);
    assert_eq!(out[0].to, A);
    assert_eq!(out[0].message.set_info, Some(("ann".to_string(), "main".to_string())));
    assert_eq!(recipients(&out[1..]), sorted(vec![A, B]));
    for d in &out[1..] {
        assert_text(
            &d.message,
            "[Successfully changed name from a1a2a3a4-b1b2-c1c2-d1d2-d3d4d5d6d7d8 -> ann]",
            "system",
            "system",
        );
    }
    assert_eq!(snapshot(&server, A), Some(("ann".to_string(), "main".to_string())));
    assert_eq!(snapshot(&server, B), Some((B_TEXT.to_string(), "main".to_string())));
    assert_eq!(server.recipient(A), Some(&handle_of(A)));
}

#[test]
fn rename_refuses_a_space() {
    let mut server = server_with(&[A, B]);
    let out = server.rename(UserRename { id: A, new_name: "ann lee".to_string() });
    assert_eq!(out.len(), 1);
    assert_eq!(out[0].to, A);
    assert_text(
        &out[0].message,
        "[Error \"ann lee\" contains invalid character]",
        "system",
        "system",
    );
    assert_eq!(snapshot(&server, A), Some((A_TEXT.to_string(), "main".to_string())));
}

#[test]
fn rename_refuses_a_single_quote() {
    let mut server = server_with(&[A]);
    let out = server.rename(UserRename { id: A, new_name: "o'neil".to_string() });
    assert_eq!(out.len(), 1);
    assert_eq!(out[0].message.message, "[Error \"o'neil\" contains invalid character]");
    assert_eq!(snapshot(&server, A), Some((A_TEXT.to_string(), "main".to_string())));
}

#[test]
fn rename_refuses_a_double_quote() {
    let mut server = server_with(&[A]);
    let out = server.rename(UserRename { id: A, new_name: "a\"b".to_string() });
    assert_eq!(out.len(), 1);
    assert_eq!(out[0].message.message, "[Error \"a\"b\" contains invalid character]");
    assert_eq!(snapshot(&server, A), Some((A_TEXT.to_string(), "main".to_string())));
}

#[test]
fn rename_refuses_a_name_that_is_held() {
    let mut server = server_with(&[A, B]);
    server.rename(UserRename { id: A, new_name: "ann".to_string() });
    let out = server.rename(UserRename { id: B, new_name: "ann".to_string() });
    assert_eq!(out.len(), 1);
    assert_eq!(out[0].to, B);
    assert_text(
        &out[0].message,
        "[Error changing name. Name ann already exists]",
        "system",
        "system",
    );
    assert_eq!(snapshot(&server, B), Some((B_TEXT.to_string(), "main".to_string())));
}

#[test]
fn rename_to_the_own_name_is_refused_as_held() {
    let mut server = server_with(&[A]);
    server.rename(UserRename { id: A, new_name: "ann".to_string() });
    let out = server.rename(UserRename { id: A, new_name: "ann".to_string() });
    assert_eq!(out.len(), 1);
    assert_eq!(out[0].message.message, "[Error changing name. Name ann already exists]");
    assert_eq!(snapshot(&server, A), Some(("ann".to_string(), "main".to_string())));
}

#[test]
fn rename_checks_the_characters_before_the_collision() {
    let mut server = server_with(&[A, B]);
    server.rename(UserRename { id: A, new_name: "ann".to_string() });
    let out = server.rename(UserRename { id: B, new_name: "an n".to_string() });
    assert_eq!(out[0].message.message, "[Error \"an n\" contains invalid character]");
}

#[test]
fn rename_by_an_unknown_session_does_nothing() {
    let mut server = server_with(&[A]);
    assert!(server.rename(UserRename { id: B, new_name: "bob".to_string() }).is_empty());
    assert!(server.rename(UserRename { id: B, new_name: "b b".to_string() }).is_empty());
    assert!(server.rename(UserRename { id: B, new_name: A_TEXT.to_string() }).is_empty());
}

#[test]
fn rename_accepts_the_empty_name_and_other_text() {
    let mut server = server_with(&[A, B]);
    assert_eq!(server.rename(UserRename { id: A, new_name: "".to_string() }).len(), 3);
    assert_eq!(snapshot(&server, A), Some(("".to_string(), "main".to_string())));
    assert_eq!(server.rename(UserRename { id: B, new_name: "b\u{e9}b\t".to_string() }).len(), 3);
}

#[test]
fn forbidden_characters_are_space_and_the_two_quotes() {
    assert!(contains_forbidden_char(" "));
    assert!(contains_forbidden_char("'"));
    assert!(contains_forbidden_char("\""));
    assert!(contains_forbidden_char("abc\u{e9}'"));
    assert!(!contains_forbidden_char(""));
    assert!(!contains_forbidden_char("ann-lee_2`\u{e9}\u{a0}"));
}

#[test]
fn error_request_yields_an_error_tagged_notice() {
    let server = server_with(&[A]);
    let out = server.error(MError {
        id: A,
        etype: "Unknown Command".to_string(),
        what: "/dance".to_string(),
    });
    assert_eq!(out.len(), 1);
    assert_eq!(out[0].to, A);
    assert_text(&out[0].message, "[Unknown Command /dance]", "error", "system");
    assert!(server
        .error(MError { id: B, etype: "x".to_string(), what: "y".to_string() })
        .is_empty());
}

#[test]
fn get_info_returns_the_snapshot() {
    let mut server = server_with(&[A]);
    server.join(Join { id: A, room: "lobby".to_string() });
    let out = server.get_info(GetInfo { id: A });
    assert_eq!(out.len(), 1);
    assert_eq!(out[0].to, A);
    assert_eq!(out[0].message.message, "");
    assert_eq!(out[0].message.sender_type, "");
    assert_eq!(out[0].message.sender_name, "");
    assert_eq!(out[0].message.set_info, Some((A_TEXT.to_string(), "lobby".to_string())));
    assert!(server.get_info(GetInfo { id: B }).is_empty());
}

#[test]
fn send_to_tags_by_sender() {
    let mut server = server_with(&[A, B]);
    server.rename(UserRename { id: A, new_name: "ann".to_string() });
    let system = server.send_to("main", None, "notice");
    assert_eq!(recipients(&system), sorted(vec![A, B]));
    assert_text(&system[0].message, "notice", "system", "system");
    let user = server.send_to("main", Some(A), "hello");
    assert_eq!(recipients(&user), sorted(vec![A, B]));
    assert_text(&user[0].message, "hello", "user", "ann");
    let stranger = server.send_to("main", Some(C), "hello");
    assert_text(&stranger[0].message, "hello", "user", "system");
    assert!(server.send_to("nowhere", Some(A), "hello").is_empty());
}

#[test]
fn join_room_creates_the_room_and_sets_the_field() {
    let mut server = server_with(&[A]);
    server.leave_room(&A, "main");
    assert_eq!(snapshot(&server, A), Some((A_TEXT.to_string(), "".to_string())));
    assert!(members(&server, "main").is_empty());
    server.join_room(A, "attic");
    assert_eq!(snapshot(&server, A), Some((A_TEXT.to_string(), "attic".to_string())));
    assert_eq!(members(&server, "attic"), vec![A]);
    assert_eq!(rooms(&server, A), vec!["attic".to_string()]);
}

#[test]
fn leave_room_of_a_missing_room_changes_nothing() {
    let mut server = server_with(&[A]);
    server.leave_room(&A, "attic");
    assert_eq!(snapshot(&server, A), Some((A_TEXT.to_string(), "main".to_string())));
    assert_eq!(members(&server, "main"), vec![A]);
}

#[test]
fn handle_dispatches_each_request() {
    let mut server = server_with(&[A, B]);
    let out = server.handle(Request::Rename(UserRename { id: A, new_name: "ann".to_string() }));
    assert_eq!(out.len(), 3);
    let out = server.handle(Request::Join(Join { id: B, room: "lobby".to_string() }));
    assert_eq!(out.len(), 3);
    let out = server.handle(Request::ClientMessage(ClientMessage { id: A, msg: "x".to_string() }));
    assert_eq!(recipients(&out), vec![A]);
    assert_text(&out[0].message, "x", "user", "ann");
    let out = server.handle(Request::ListRooms(ListRooms { id: A }));
    assert_eq!(out.len(), 1);
    let out = server.handle(Request::GetInfo(GetInfo { id: B }));
    assert_eq!(out[0].message.set_info, Some((B_TEXT.to_string(), "lobby".to_string())));
    let out = server.handle(Request::Error(MError {
        id: B,
        etype: "Invalid Argument".to_string(),
        what: "".to_string(),
    }));
    assert_text(&out[0].message, "[Invalid Argument ]", "error", "system");
    let out = server.handle(Request::Disconnect(Disconnect { id: B }));
    assert!(out.is_empty());
    assert_eq!(rooms(&server, A), vec!["main".to_string()]);
}

#[test]
fn default_room_is_deleted_when_empty_and_recreated_on_return() {
    let mut server = server_with(&[A]);
    server.join(Join { id: A, room: "lobby".to_string() });
    assert_eq!(rooms(&server, A), vec!["lobby".to_string()]);
    let out = server.join(Join { id: A, room: "main".to_string() });
    assert_eq!(out.len(), 2);
    assert_eq!(out[1].message.message, format!("[User {} joined the room main]", A_TEXT));
    assert_eq!(rooms(&server, A), vec!["main".to_string()]);
    assert_eq!(members(&server, "main"), vec![A]);
    assert!(members(&server, "lobby").is_empty());
}

#[test]
fn a_session_is_in_one_room_at_a_time() {
    let mut server = server_with(&[A, B, C]);
    for room in ["lobby", "attic", "main", "lobby", "cellar"] {
        server.join(Join { id: A, room: room.to_string() });
        for other in ["main", "lobby", "attic", "cellar"] {
            assert_eq!(members(&server, other).contains(&A), other == room);
        }
        assert_eq!(snapshot(&server, A), Some((A_TEXT.to_string(), room.to_string())));
    }
    assert_eq!(
        rooms(&server, B),
        vec!["cellar".to_string(), "main".to_string()]
    );
}

#[test]
fn default_names_of_the_smallest_and_largest_identifier() {
    let mut server: ChatServer<u32> = ChatServer::new();
    assert!(server.connect_as(0, 0).is_ok());
    assert!(server.connect_as(u128::MAX, 1).is_ok());
    assert_eq!(
        snapshot(&server, 0),
        Some(("00000000-0000-0000-0000-000000000000".to_string(), "main".to_string()))
    );
    assert_eq!(
        snapshot(&server, u128::MAX),
        Some(("ffffffff-ffff-ffff-ffff-ffffffffffff".to_string(), "main".to_string()))
    );
}

#[test]
fn connect_to_an_empty_coordinator_is_granted() {
    for handle in 0..20u32 {
        let mut server = ChatServer::new();
        let granted = server.connect(Connect { addr: handle }).expect("nothing is registered");
        assert_eq!(server.recipient(granted.id), Some(&handle));
        assert_eq!(members(&server, "main"), vec![granted.id]);
        assert_eq!(granted.notices.len(), 1);
        assert_eq!(
            granted.notices[0].message.message,
            format!("[new user {} Joined to main room]", granted.reply)
        );
    }
}
