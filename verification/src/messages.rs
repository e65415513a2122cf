use vstd::prelude::*;

use crate::member::MemberView;
use crate::validation::{message_verdict, validate_message};

verus! {

/// What a client may ask of the room over its connection.
#[derive(Debug)]
pub enum ClientMessage {
    SyncMembers,
    PublicMessage { message: String },
    PrivateMessage { receiver: u128, message: String },
}

/// Why a frame from a client yields no request.
#[derive(Debug)]
pub enum ClientMessageError {
    /// The frame was text but not an acceptable request; the reason is
    /// shown to the client.
    WrongMessage(String),
    /// The frame was not text and is ignored.
    IgnoreMessage,
}

/// A frame received from a client, as far as decoding it went.
#[derive(Debug)]
pub enum ClientFrame {
    /// Not a text frame.
    NotText,
    /// A text frame that did not decode; the decoder's explanation.
    Malformed(String),
    /// A text frame that decoded into a request.
    Decoded(ClientMessage),
}

/// What the server sends to clients.
#[derive(Debug, Clone)]
pub enum ServerMessage {
    SyncIdentity { member: MemberView },
    SyncMembers { members: Vec<MemberView> },
    MemberState { member: MemberView },
    PublicMessage { sender: u128, message: String },
    PrivateMessage { sender: u128, receiver: u128, message: String },
    BadMessage { reason: String },
}

/// The text of a request, if it carries one.
pub open spec fn carried_text(m: ClientMessage) -> Option<Seq<char>> {
    match m {
        ClientMessage::SyncMembers => None,
        ClientMessage::PublicMessage { message } => Some(message@),
        ClientMessage::PrivateMessage { message, .. } => Some(message@),
    }
}

/// Both requests are the same request.
pub open spec fn same_request(a: ClientMessage, b: ClientMessage) -> bool {
    match (a, b) {
        (ClientMessage::SyncMembers, ClientMessage::SyncMembers) => true,
        (ClientMessage::PublicMessage { message: x }, ClientMessage::PublicMessage { message: y }) => x@
            == y@,
        (
            ClientMessage::PrivateMessage { receiver: r1, message: x },
            ClientMessage::PrivateMessage { receiver: r2, message: y },
        ) => r1 == r2 && x@ == y@,
        _ => false,
    }
}

impl ClientMessage {
    /// Accepts a decoded request whose text, if any, is a valid chat
    /// message; otherwise explains the refusal.
    pub fn checked(self) -> (r: Result<ClientMessage, ClientMessageError>)
        ensures
            match carried_text(self) {
                Some(text) => match message_verdict(text) {
                    Ok(_) => r is Ok && same_request(r->Ok_0, self),
                    Err(e) => r is Err && r->Err_0 is WrongMessage && r->Err_0->WrongMessage_0@ == e.text(),
                },
                None => r is Ok && same_request(r->Ok_0, self),
            },
    {
        let verdict = match &self {
            ClientMessage::SyncMembers => Ok(()),
            ClientMessage::PublicMessage { message } => validate_message(message.as_str()),
            ClientMessage::PrivateMessage { message, .. } => validate_message(message.as_str()),
        };
        match verdict {
            Err(e) => Err(ClientMessageError::WrongMessage(e.message())),
            Ok(()) => Ok(self),
        }
    }

    /// Interprets a frame received from a client: non-text frames are
    /// ignored, undecodable text is refused with the decoder's explanation,
    /// and a decoded request is checked.
    pub fn from_frame(frame: ClientFrame) -> (r: Result<ClientMessage, ClientMessageError>)
        ensures
            match frame {
                ClientFrame::NotText => r is Err && r->Err_0 is IgnoreMessage,
                ClientFrame::Malformed(reason) => r is Err && r->Err_0 is WrongMessage
                    && r->Err_0->WrongMessage_0@ == reason@,
                ClientFrame::Decoded(m) => match carried_text(m) {
                    Some(text) => match message_verdict(text) {
                        Ok(_) => r is Ok && same_request(r->Ok_0, m),
                        Err(e) => r is Err && r->Err_0 is WrongMessage && r->Err_0->WrongMessage_0@
                            == e.text(),
                    },
                    None => r is Ok && same_request(r->Ok_0, m),
                },
            },
    {
        match frame {
            ClientFrame::NotText => Err(ClientMessageError::IgnoreMessage),
            ClientFrame::Malformed(reason) => Err(ClientMessageError::WrongMessage(reason)),
            ClientFrame::Decoded(m) => m.checked(),
        }
    }
}

/// Whether a message reaches member `member`: a private message reaches
/// only its sender and its receiver, every other message reaches everyone.
pub open spec fn reaches(m: ServerMessage, member: u128) -> bool {
    match m {
        ServerMessage::PrivateMessage { sender, receiver, .. } => sender == member || receiver == member,
        _ => true,
    }
}

impl ServerMessage {
    /// Whether this message is to be sent to member `member_uuid`.
    pub fn delivers_to(&self, member_uuid: u128) -> (r: bool)
        ensures
            r == reaches(*self, member_uuid),
    {
        match self {
            ServerMessage::PrivateMessage { sender, receiver, .. } => *sender == member_uuid || *receiver
                == member_uuid,
            _ => true,
        }
    }
}

} // verus!
