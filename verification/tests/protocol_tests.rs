use chat_rooms::claims::{authorize_socket, Claims, TOKEN_LIFETIME_SECS};
use chat_rooms::cookie::{cookie_at, produce_cookie, SameSite};
use chat_rooms::messages::{ClientFrame, ClientMessage, ClientMessageError, ServerMessage};
use chat_rooms::member::MemberView;
use chat_rooms::sources::Timestamp;

#[test]
fn frames_that_are_not_text_are_ignored() {
    assert!(matches!(ClientMessage::from_frame(ClientFrame::NotText), Err(ClientMessageError::IgnoreMessage)));
}

#[test]
fn undecodable_frames_are_refused_with_the_reason() {
    match ClientMessage::from_frame(ClientFrame::Malformed("expected value".to_string())) {
        Err(ClientMessageError::WrongMessage(r)) => assert_eq!(r, "expected value"),
        other => panic!("unexpected {other:?}"),
    }
}

#[test]
fn chat_text_is_validated() {
    match ClientMessage::from_frame(ClientFrame::Decoded(ClientMessage::PublicMessage { message: String::new() })) {
        Err(ClientMessageError::WrongMessage(r)) => assert_eq!(r, "Message must contain something"),
        other => panic!("unexpected {other:?}"),
    }
    match ClientMessage::from_frame(ClientFrame::Decoded(ClientMessage::PrivateMessage {
        receiver: 3,
        message: "x".repeat(501),
    })) {
        Err(ClientMessageError::WrongMessage(r)) => assert_eq!(r, "Message must be shorter (501 > 500)"),
        other => panic!("unexpected {other:?}"),
    }
    match ClientMessage::from_frame(ClientFrame::Decoded(ClientMessage::PrivateMessage {
        receiver: 3,
        message: "hello".to_string(),
    })) {
        Ok(ClientMessage::PrivateMessage { receiver, message }) => {
            assert_eq!(receiver, 3);
            assert_eq!(message, "hello");
        }
        other => panic!("unexpected {other:?}"),
    }
    assert!(matches!(
        ClientMessage::from_frame(ClientFrame::Decoded(ClientMessage::SyncMembers)),
        Ok(ClientMessage::SyncMembers)
    ));
}

fn view(uuid: u128) -> MemberView {
    MemberView { uuid, name: "ann".to_string(), is_online: true, last_seen: Timestamp { secs: 0, nanos: 0 } }
}

#[test]
fn private_messages_reach_only_sender_and_receiver() {
    let m = ServerMessage::PrivateMessage { sender: 1, receiver: 2, message: "psst".to_string() };
    assert!(m.delivers_to(1));
    assert!(m.delivers_to(2));
    assert!(!m.delivers_to(3));
}

#[test]
fn other_messages_reach_everyone() {
    let msgs = vec![
        ServerMessage::PublicMessage { sender: 1, message: "hi".to_string() },
        ServerMessage::SyncIdentity { member: view(1) },
        ServerMessage::SyncMembers { members: vec![view(1)] },
        ServerMessage::MemberState { member: view(1) },
        ServerMessage::BadMessage { reason: "no".to_string() },
    ];
    for m in &msgs {
        assert!(m.delivers_to(1));
        assert!(m.delivers_to(42));
    }
}

#[test]
fn token_expires_an_hour_after_issue() {
    let c = Claims::issued_at(5, 6, Timestamp { secs: 1_000, nanos: 999 });
    assert_eq!(c, Claims { iss: 5, sub: 6, exp: 4_600 });
    assert_eq!(TOKEN_LIFETIME_SECS, 3600);
    assert_eq!(c.identity(), (5, 6));
    let now = chrono::Utc::now().timestamp();
    let c = Claims::issue(5, 6);
    assert_eq!((c.iss, c.sub), (5, 6));
    assert!(c.exp as i64 >= now + 3600 && c.exp as i64 <= now + 3600 + 5);
}

#[test]
fn sockets_need_a_token_for_the_same_room() {
    assert_eq!(authorize_socket(1, Some((1, 9))), Some((1, 9)));
    assert_eq!(authorize_socket(2, Some((1, 9))), None);
    assert_eq!(authorize_socket(1, None), None);
}

#[test]
fn cookie_settings() {
    let c = cookie_at("room".to_string(), "tok".to_string(), Timestamp { secs: 100, nanos: 7 });
    assert_eq!(c.name, "room");
    assert_eq!(c.value, "tok");
    assert_eq!(c.expires, Timestamp { secs: 3_700, nanos: 7 });
    assert!(c.http_only);
    assert_eq!(c.path, "/");
    assert_eq!(c.same_site, SameSite::Lax);
    let c = produce_cookie("n".to_string(), "v".to_string());
    assert_eq!(c.path, "/");
    assert!(c.expires.secs > 3600);
}
