use chat_rooms::error::ChatError;
use chat_rooms::messages::ServerMessage;
use chat_rooms::requests::{AuthSubmit, RoomSubmit};
use chat_rooms::room_manager::RoomManager;
use chat_rooms::sources::Timestamp;
use chat_rooms::validation::ValidationError;

const T0: Timestamp = Timestamp { secs: 1_700_000_000, nanos: 0 };

fn create(m: &mut RoomManager<u32>, name: &str, listed: bool, pw: Option<&str>, id: u128) -> Result<u128, ChatError> {
    m.create_with(
        name.to_string(),
        "about".to_string(),
        listed,
        pw.map(|p| p.to_string()),
        id as u32,
        id,
    )
}

#[test]
fn create_checks_name_then_description_then_password() {
    let mut m: RoomManager<u32> = RoomManager::new();
    assert_eq!(
        m.create_with("x".to_string(), "".to_string(), true, Some("".to_string()), 0, 1),
        Err(ChatError::Invalid(ValidationError::NameTooShort { len: 1 }))
    );
    assert_eq!(
        m.create_with("room".to_string(), "".to_string(), true, Some("".to_string()), 0, 1),
        Err(ChatError::Invalid(ValidationError::DescriptionEmpty))
    );
    assert_eq!(
        m.create_with("room".to_string(), "d".to_string(), true, Some("".to_string()), 0, 1),
        Err(ChatError::Invalid(ValidationError::PasswordEmpty))
    );
    assert!(m.list().is_empty());
    assert!(m.get(1).is_none());
    assert_eq!(create(&mut m, "room", true, None, 1), Ok(1));
    assert_eq!(*m.get(1).unwrap().broadcast_tx(), 1);
}

#[test]
fn list_shows_listed_rooms_only() {
    let mut m: RoomManager<u32> = RoomManager::new();
    create(&mut m, "open", true, None, 1).unwrap();
    create(&mut m, "hidden", false, None, 2).unwrap();
    create(&mut m, "locked", true, Some("pw"), 3).unwrap();
    let mut list: Vec<(u128, String, bool)> =
        m.list().into_iter().map(|v| (v.uuid, v.name, v.has_password)).collect();
    list.sort();
    assert_eq!(list, vec![(1, "open".to_string(), false), (3, "locked".to_string(), true)]);
}

#[test]
fn random_room_identifiers_are_version_4() {
    let mut m: RoomManager<u32> = RoomManager::new();
    let id = m.create("room".to_string(), "d".to_string(), true, None, 0).unwrap();
    assert_eq!(
        id & chat_rooms::sources::UUID_VERSION_VARIANT_MASK,
        chat_rooms::sources::UUID_V4_BITS
    );
    assert!(m.get(id).is_some());
}

#[test]
fn cleanup_removes_only_empty_rooms() {
    let mut m: RoomManager<u32> = RoomManager::new();
    assert_eq!(m.cleanup(5), Err(ChatError::RoomNotFound));
    create(&mut m, "room", true, None, 5).unwrap();
    let member = m.add_member_with(5, "ann".to_string(), None, 9, T0).unwrap();
    assert_eq!(member, 9);
    m.connect(5, 9).unwrap();
    assert_eq!(m.cleanup(5), Err(ChatError::RoomNotEmpty));
    assert!(m.get(5).is_some());
    m.disconnect(5, 9).unwrap();
    assert_eq!(m.cleanup(5), Ok(()));
    assert!(m.get(5).is_none());
    assert_eq!(m.cleanup(5), Err(ChatError::RoomNotFound));
}

#[test]
fn room_without_members_can_be_cleaned_up() {
    let mut m: RoomManager<u32> = RoomManager::new();
    create(&mut m, "room", true, None, 5).unwrap();
    assert_eq!(m.cleanup(5), Ok(()));
}

#[test]
fn joining_a_missing_room_fails() {
    let mut m: RoomManager<u32> = RoomManager::new();
    assert_eq!(m.add_member(3, "ann".to_string(), None), Err(ChatError::RoomNotFound));
    assert_eq!(
        m.authenticate(AuthSubmit { room_uuid: 3, room_password: None, member_name: "ann".to_string() }),
        Err(ChatError::RoomNotFound)
    );
    assert!(matches!(m.connect(3, 1), Err(ChatError::RoomNotFound)));
    assert!(matches!(m.disconnect(3, 1), Err(ChatError::RoomNotFound)));
}

#[test]
fn authenticate_joins_with_password() {
    let mut m: RoomManager<u32> = RoomManager::new();
    create(&mut m, "room", true, Some("pw"), 4).unwrap();
    assert_eq!(
        m.authenticate(AuthSubmit {
            room_uuid: 4,
            room_password: Some("bad".to_string()),
            member_name: "ann".to_string()
        }),
        Err(ChatError::WrongPassword)
    );
    let id = m
        .authenticate(AuthSubmit {
            room_uuid: 4,
            room_password: Some("pw".to_string()),
            member_name: "ann".to_string(),
        })
        .unwrap();
    let v = m.get(4).unwrap().view_member(id).unwrap();
    assert_eq!(v.name, "ann");
    assert_eq!(m.get(4).unwrap().as_view(4).unwrap().total, 1);
}

#[test]
fn create_room_checks_member_name_first() {
    let mut m: RoomManager<u32> = RoomManager::new();
    let submit = RoomSubmit {
        name: "x".to_string(),
        description: "".to_string(),
        is_listed: true,
        password: None,
        member_name: "a b".to_string(),
    };
    assert_eq!(m.create_room(submit, 0), Err(ChatError::Invalid(ValidationError::NameHasSymbols)));
    let submit = RoomSubmit {
        name: "x".to_string(),
        description: "".to_string(),
        is_listed: true,
        password: None,
        member_name: "ann".to_string(),
    };
    assert_eq!(
        m.create_room(submit, 0),
        Err(ChatError::Invalid(ValidationError::NameTooShort { len: 1 }))
    );
    assert!(m.list().is_empty());
}

#[test]
fn create_room_opens_room_with_first_member() {
    let mut m: RoomManager<u32> = RoomManager::new();
    let submit = RoomSubmit {
        name: "games".to_string(),
        description: "Let us play".to_string(),
        is_listed: true,
        password: Some("pw".to_string()),
        member_name: "ann".to_string(),
    };
    let (room, member) = m.create_room(submit, 77).unwrap();
    let r = m.get(room).unwrap();
    assert_eq!(*r.broadcast_tx(), 77);
    let v = r.as_view(room).unwrap();
    assert_eq!(v.name, "games");
    assert!(v.has_password);
    assert_eq!((v.online, v.total), (0, 1));
    assert_eq!(r.view_member(member).unwrap().name, "ann");
}

#[test]
fn connect_through_manager_sets_online() {
    let mut m: RoomManager<u32> = RoomManager::new();
    create(&mut m, "room", true, None, 5).unwrap();
    m.add_member_with(5, "ann".to_string(), None, 9, T0).unwrap();
    assert!(matches!(m.connect(5, 8), Err(ChatError::MemberNotFound)));
    let g = m.connect(5, 9).unwrap();
    assert!(matches!(g.identity, ServerMessage::SyncIdentity { .. }));
    assert_eq!(m.get(5).unwrap().as_view(5).unwrap().online, 1);
    m.disconnect(5, 9).unwrap();
    assert_eq!(m.get(5).unwrap().as_view(5).unwrap().online, 0);
}

#[test]
fn list_length_is_the_number_of_listed_rooms() {
    let mut m: RoomManager<u32> = RoomManager::new();
    assert_eq!(m.list().len(), 0);
    create(&mut m, "one", true, None, 1).unwrap();
    create(&mut m, "two", false, None, 2).unwrap();
    create(&mut m, "three", true, None, 3).unwrap();
    assert_eq!(m.list().len(), 2);
}
