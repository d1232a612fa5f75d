use chat_relay::message::{Connect, Delivery, Disconnect, GetInfo, ListRooms, Request};
use chat_relay::server::ChatServer;
use chat_relay::session::{Inbound, SessionAction, UserSession};

fn recipients(out: &[Delivery]) -> Vec<u128> {
    let mut ids: Vec<u128> = out.iter().map(|d| d.to).collect();
    ids.sort();
    ids
}

fn sorted(mut ids: Vec<u128>) -> Vec<u128> {
    ids.sort();
    ids
}

fn connect(server: &mut ChatServer<&'static str>, addr: &'static str) -> (UserSession, u128) {
    let mut session = UserSession::new(0);
    let mut request: Connect<&'static str> = session.started(0, addr);
    loop {
        match server.connect(request) {
            Ok(granted) => {
                let id = granted.id;
                assert!(recipients(&granted.notices).contains(&id));
                assert_eq!(server.recipient(id), Some(&addr));
                assert_eq!(name_of(server, id), granted.reply);
                assert!(session.connected(Some(granted.reply.as_str())));
                assert_eq!(session.id(), id);
                return (session, id);
            }
            Err(back) => request = back,
        }
    }
}

fn send(server: &mut ChatServer<&'static str>, session: &mut UserSession, text: &str) -> Vec<Delivery> {
    match session.handle(Inbound::Text(text.to_string()), 1) {
        SessionAction::Forward(request) => server.handle(request),
        other => panic!("unexpected action: {:?}", other),
    }
}

fn name_of(server: &ChatServer<&'static str>, id: u128) -> String {
    let out = server.get_info(GetInfo { id });
    out[0].message.set_info.clone().expect("snapshot").0
}

fn room_of(server: &ChatServer<&'static str>, id: u128) -> String {
    let out = server.get_info(GetInfo { id });
    out[0].message.set_info.clone().expect("snapshot").1
}

fn members(server: &ChatServer<&'static str>, room: &str) -> Vec<u128> {
    recipients(&server.send_to(room, None, "probe"))
}

#[test]
fn two_clients_chat_move_collide_and_leave() {
    let mut server = ChatServer::new();

    let (mut a, a1) = connect(&mut server, "to a");
    assert_eq!(room_of(&server, a1), "main");
    assert_eq!(members(&server, "main"), vec![a1]);

    let (mut b, b1) = connect(&mut server, "to b");
    assert_ne!(a1, b1);
    assert_eq!(members(&server, "main"), sorted(vec![a1, b1]));

    let a_name = name_of(&server, a1);
    let out = send(&mut server, &mut a, "hi");
    assert_eq!(recipients(&out), sorted(vec![a1, b1]));
    for d in &out {
        assert_eq!(d.message.message, "hi");
        assert_eq!(d.message.sender_type, "user");
        assert_eq!(d.message.sender_name, a_name);
        assert_eq!(d.message.set_info, None);
    }

    send(&mut server, &mut b, "/join lobby");
    assert_eq!(members(&server, "main"), vec![a1]);
    assert_eq!(members(&server, "lobby"), vec![b1]);
    assert_eq!(room_of(&server, b1), "lobby");

    let out = send(&mut server, &mut a, "hi");
    assert_eq!(recipients(&out), vec![a1]);

    let out = send(&mut server, &mut a, "/name A");
    assert_eq!(out[0].message.set_info, Some(("A".to_string(), "main".to_string())));
    let b_name = name_of(&server, b1);
    let out = send(&mut server, &mut b, "/name A");
    assert_eq!(out.len(), 1);
    assert_eq!(out[0].to, b1);
    assert_eq!(out[0].message.message, "[Error changing name. Name A already exists]");
    assert_eq!(out[0].message.sender_type, "system");
    assert_eq!(name_of(&server, b1), b_name);

    let out = server.handle(Request::Disconnect(a.stopping()));
    assert!(out.is_empty());
    assert!(members(&server, "main").is_empty());
    assert_eq!(server.recipient(a1), None);
    assert_eq!(server.recipient(b1), Some(&"to b"));
    let listing = server.list_rooms(ListRooms { id: b1 });
    assert_eq!(listing[0].message.message, "\nlobby\n");
    assert!(server.disconnect(Disconnect { id: a1 }).is_empty());
}
