use chat_rooms::error::ChatError;
use chat_rooms::messages::{ClientFrame, ClientMessage, ClientMessageError, ServerMessage};
use chat_rooms::room::Room;
use chat_rooms::session::Outgoing;
use chat_rooms::sources::Timestamp;
use chat_rooms::validation::ValidationError;

fn room(password: Option<&str>, listed: bool) -> Room<u8> {
    Room::new(
        "lobby".to_string(),
        "A place to talk".to_string(),
        listed,
        password.map(|p| p.to_string()),
        7u8,
    )
}

const T0: Timestamp = Timestamp { secs: 1_700_000_000, nanos: 5 };
const T1: Timestamp = Timestamp { secs: 1_700_000_100, nanos: 0 };

#[test]
fn new_room_is_empty_and_keeps_its_channel() {
    let r = room(None, true);
    assert_eq!(*r.broadcast_tx(), 7u8);
    assert!(r.list_members().is_empty());
    assert!(r.all_offline());
    let v = r.as_view(42).unwrap();
    assert_eq!(v.uuid, 42);
    assert_eq!(v.name, "lobby");
    assert_eq!(v.description, "A place to talk");
    assert!(!v.has_password);
    assert_eq!(v.online, 0);
    assert_eq!(v.total, 0);
}

#[test]
fn unlisted_room_has_no_listing() {
    let r = room(Some("pw"), false);
    assert!(r.as_view(1).is_none());
}

#[test]
fn listing_shows_password_protection() {
    let r = room(Some("pw"), true);
    assert!(r.as_view(1).unwrap().has_password);
}

#[test]
fn join_with_exact_inputs() {
    let mut r = room(Some("pw"), true);
    assert_eq!(r.add_member_with("alice".to_string(), Some("pw".to_string()), 11, T0), Ok(11));
    let m = r.view_member(11).unwrap();
    assert_eq!(m.uuid, 11);
    assert_eq!(m.name, "alice");
    assert!(!m.is_online);
    assert_eq!(m.last_seen, T0);
}

#[test]
fn join_refusals() {
    let mut r = room(Some("pw"), true);
    assert_eq!(
        r.add_member_with("al".to_string(), Some("pw".to_string()), 1, T0),
        Err(ChatError::Invalid(ValidationError::NameTooShort { len: 2 }))
    );
    assert_eq!(
        r.add_member_with("alice".to_string(), Some("nope".to_string()), 1, T0),
        Err(ChatError::WrongPassword)
    );
    assert_eq!(r.add_member_with("alice".to_string(), None, 1, T0), Err(ChatError::WrongPassword));
    // name is checked before the password
    assert_eq!(
        r.add_member("a b".to_string(), None),
        Err(ChatError::Invalid(ValidationError::NameHasSymbols))
    );
    assert!(r.list_members().is_empty());
    let mut open = room(None, true);
    assert_eq!(
        open.add_member_with("bob".to_string(), Some("pw".to_string()), 1, T0),
        Err(ChatError::WrongPassword)
    );
    assert_eq!(open.add_member_with("bob".to_string(), None, 1, T0), Ok(1));
}

#[test]
fn join_with_fresh_identifier() {
    let mut r = room(None, true);
    let a = r.add_member("alice".to_string(), None).unwrap();
    let b = r.add_member("bob".to_string(), None).unwrap();
    assert_ne!(a, b);
    assert_eq!(r.view_member(a).unwrap().name, "alice");
    assert_eq!(r.view_member(b).unwrap().name, "bob");
    let mask = chat_rooms::sources::UUID_VERSION_VARIANT_MASK;
    assert_eq!(a & mask, chat_rooms::sources::UUID_V4_BITS);
}

#[test]
fn list_members_shows_each_once() {
    let mut r = room(None, true);
    for (i, n) in ["ann", "ben", "cat"].iter().enumerate() {
        r.add_member_with(n.to_string(), None, i as u128 + 1, T0).unwrap();
    }
    let mut list: Vec<(u128, String)> = r.list_members().into_iter().map(|m| (m.uuid, m.name)).collect();
    list.sort();
    assert_eq!(
        list,
        vec![(1, "ann".to_string()), (2, "ben".to_string()), (3, "cat".to_string())]
    );
}

#[test]
fn update_member_changes_state_and_stamp() {
    let mut r = room(None, true);
    r.add_member_with("ann".to_string(), None, 1, T0).unwrap();
    r.add_member_with("ben".to_string(), None, 2, T0).unwrap();
    assert_eq!(r.update_member_at(1, true, T1), Ok(()));
    let m = r.view_member(1).unwrap();
    assert!(m.is_online);
    assert_eq!(m.last_seen, T1);
    assert!(!r.all_offline());
    let v = r.as_view(9).unwrap();
    assert_eq!((v.online, v.total), (1, 2));
    assert_eq!(r.update_member_at(99, true, T1), Err(ChatError::MemberNotFound));
    assert_eq!(r.update_member(1, false), Ok(()));
    assert!(r.all_offline());
    assert_eq!(r.update_member(98, false), Err(ChatError::MemberNotFound));
}

#[test]
fn view_of_missing_member_is_none() {
    let r = room(None, true);
    assert!(r.view_member(5).is_none());
}

#[test]
fn connect_greets_and_disconnect_announces() {
    let mut r = room(None, true);
    r.add_member_with("ann".to_string(), None, 1, T0).unwrap();
    r.add_member_with("ben".to_string(), None, 2, T0).unwrap();
    let g = r.connect(1).unwrap();
    match g.identity {
        ServerMessage::SyncIdentity { member } => {
            assert_eq!(member.uuid, 1);
            assert!(member.is_online);
        }
        other => panic!("unexpected {other:?}"),
    }
    match g.members {
        ServerMessage::SyncMembers { members } => assert_eq!(members.len(), 2),
        other => panic!("unexpected {other:?}"),
    }
    match g.announcement {
        ServerMessage::MemberState { member } => {
            assert_eq!(member.name, "ann");
            assert!(member.is_online);
        }
        other => panic!("unexpected {other:?}"),
    }
    assert!(!r.all_offline());
    match r.disconnect(1).unwrap() {
        ServerMessage::MemberState { member } => assert!(!member.is_online),
        other => panic!("unexpected {other:?}"),
    }
    assert!(r.all_offline());
    assert!(matches!(r.connect(3), Err(ChatError::MemberNotFound)));
    assert!(matches!(r.disconnect(3), Err(ChatError::MemberNotFound)));
}

#[test]
fn respond_to_each_kind_of_frame() {
    let mut r = room(None, true);
    r.add_member_with("ann".to_string(), None, 1, T0).unwrap();
    assert!(matches!(r.respond(1, Err(ClientMessageError::IgnoreMessage)), Outgoing::Nothing));
    match r.respond(1, Err(ClientMessageError::WrongMessage("bad json".to_string()))) {
        Outgoing::Reply(ServerMessage::BadMessage { reason }) => assert_eq!(reason, "bad json"),
        other => panic!("unexpected {other:?}"),
    }
    match r.respond(1, Ok(ClientMessage::SyncMembers)) {
        Outgoing::Reply(ServerMessage::SyncMembers { members }) => {
            assert_eq!(members.len(), 1);
            assert_eq!(members[0].name, "ann");
        }
        other => panic!("unexpected {other:?}"),
    }
    match r.respond(1, Ok(ClientMessage::PublicMessage { message: "hi".to_string() })) {
        Outgoing::Broadcast(ServerMessage::PublicMessage { sender, message }) => {
            assert_eq!(sender, 1);
            assert_eq!(message, "hi");
        }
        other => panic!("unexpected {other:?}"),
    }
    match r.respond(1, Ok(ClientMessage::PrivateMessage { receiver: 2, message: "psst".to_string() })) {
        Outgoing::Broadcast(ServerMessage::PrivateMessage { sender, receiver, message }) => {
            assert_eq!((sender, receiver), (1, 2));
            assert_eq!(message, "psst");
        }
        other => panic!("unexpected {other:?}"),
    }
}

#[test]
fn handled_frames_only_broadcast_own_accepted_chat() {
    let mut r = room(None, true);
    r.add_member_with("ann".to_string(), None, 1, T0).unwrap();
    assert!(matches!(r.handle_frame(1, ClientFrame::NotText), Outgoing::Nothing));
    match r.handle_frame(1, ClientFrame::Malformed("oops".to_string())) {
        Outgoing::Reply(ServerMessage::BadMessage { reason }) => assert_eq!(reason, "oops"),
        other => panic!("unexpected {other:?}"),
    }
    match r.handle_frame(1, ClientFrame::Decoded(ClientMessage::PublicMessage { message: String::new() })) {
        Outgoing::Reply(ServerMessage::BadMessage { reason }) => {
            assert_eq!(reason, "Message must contain something")
        }
        other => panic!("unexpected {other:?}"),
    }
    match r.handle_frame(1, ClientFrame::Decoded(ClientMessage::PublicMessage { message: "hi".to_string() })) {
        Outgoing::Broadcast(ServerMessage::PublicMessage { sender, message }) => {
            assert_eq!(sender, 1);
            assert_eq!(message, "hi");
        }
        other => panic!("unexpected {other:?}"),
    }
    match r.handle_frame(
        1,
        ClientFrame::Decoded(ClientMessage::PrivateMessage { receiver: 4, message: "psst".to_string() }),
    ) {
        Outgoing::Broadcast(ServerMessage::PrivateMessage { sender, receiver, message }) => {
            assert_eq!((sender, receiver), (1, 4));
            assert_eq!(message, "psst");
        }
        other => panic!("unexpected {other:?}"),
    }
    match r.handle_frame(1, ClientFrame::Decoded(ClientMessage::SyncMembers)) {
        Outgoing::Reply(ServerMessage::SyncMembers { members }) => assert_eq!(members.len(), 1),
        other => panic!("unexpected {other:?}"),
    }
}

#[test]
fn clock_stamps_lie_in_the_clock_range() {
    let mut r = room(None, true);
    let id = r.add_member("ann".to_string(), None).unwrap();
    let t = r.view_member(id).unwrap().last_seen;
    assert!(t.secs >= 0 && t.secs <= chat_rooms::sources::CLOCK_MAX_SECS);
    assert!(t.nanos < 1_000_000_000);
    r.update_member(id, true).unwrap();
    let t = r.view_member(id).unwrap().last_seen;
    assert!(t.secs > 1_600_000_000 && t.nanos < 1_000_000_000);
}
