use vstd::prelude::*;

use crate::error::ChatError;
use crate::member::{lists_members, MemberModel, MemberView};
use crate::messages::{carried_text, ClientFrame, ClientMessage, ClientMessageError, ServerMessage};
use crate::validation::message_verdict;
use crate::room::{with_member, Room, RoomModel};
use crate::sources::{clock_reading, Timestamp};

verus! {

/// What to do after a frame from a client: answer that client only,
/// send to everyone in the room, or nothing.
#[derive(Debug)]
pub enum Outgoing {
    Reply(ServerMessage),
    Broadcast(ServerMessage),
    Nothing,
}

/// The three messages that open a member's connection: the member's own
/// state to them, the member list to them, and the member's state to the
/// whole room.
#[derive(Debug)]
pub struct Greeting {
    pub identity: ServerMessage,
    pub members: ServerMessage,
    pub announcement: ServerMessage,
}

/// `m` shows member `id` of `members`.
pub open spec fn shows_member(m: MemberView, id: u128, members: Map<u128, MemberModel>) -> bool {
    members.contains_key(id) && m@ == (id, members[id])
}

/// `m` is the member list of `members`.
pub open spec fn is_member_list(m: ServerMessage, members: Map<u128, MemberModel>) -> bool {
    m matches ServerMessage::SyncMembers { members: v } && lists_members(
        v@.map_values(|x: MemberView| x@),
        members,
    )
}

/// The room after member `id`, already a member, changes to online state
/// `online`, stamped `stamp`.
pub open spec fn switched(room: RoomModel, id: u128, online: bool, stamp: Timestamp) -> RoomModel {
    with_member(room, id, MemberModel { is_online: online, last_seen: stamp, ..room.members[id] })
}

/// `m` is a chat message spoken by member `member`, with an acceptable
/// text.
pub open spec fn chat_by(m: ServerMessage, member: u128) -> bool {
    match m {
        ServerMessage::PublicMessage { sender, message } => sender == member && message_verdict(message@) is Ok,
        ServerMessage::PrivateMessage { sender, message, .. } => sender == member && message_verdict(
            message@,
        ) is Ok,
        _ => false,
    }
}

/// Whatever `out` sends to the room is a chat message spoken by `member`.
pub open spec fn broadcasts_only_own_chat(out: Outgoing, member: u128) -> bool {
    match out {
        Outgoing::Broadcast(m) => chat_by(m, member),
        _ => true,
    }
}

impl<C> Room<C> {
    /// Opens member `member_uuid`'s connection: marks them online now and
    /// prepares the greeting.
    pub fn connect(&mut self, member_uuid: u128) -> (r: Result<Greeting, ChatError>)
        ensures
            final(self).channel() == old(self).channel(),
            if old(self)@.members.contains_key(member_uuid) {
                &&& r is Ok
                &&& final(self)@ == switched(
                    old(self)@,
                    member_uuid,
                    true,
                    final(self)@.members[member_uuid].last_seen,
                )
                &&& clock_reading(final(self)@.members[member_uuid].last_seen)
                &&& r->Ok_0.identity matches ServerMessage::SyncIdentity { member } && shows_member(
                    member,
                    member_uuid,
                    final(self)@.members,
                )
                &&& is_member_list(r->Ok_0.members, final(self)@.members)
                &&& r->Ok_0.announcement matches ServerMessage::MemberState { member }
                    && shows_member(member, member_uuid, final(self)@.members)
            } else {
                r == Err::<Greeting, ChatError>(ChatError::MemberNotFound) && final(self)@ == old(self)@
            },
    {
        match self.update_member(member_uuid, true) {
            Err(e) => Err(e),
            Ok(()) => {
                let member = match self.view_member(member_uuid) {
                    Some(m) => m,
                    None => {
                        return Err(ChatError::MemberNotFound);
                    },
                };
                let identity = ServerMessage::SyncIdentity { member: member.duplicate() };
                let members = ServerMessage::SyncMembers { members: self.list_members() };
                let announcement = ServerMessage::MemberState { member };
                Ok(Greeting { identity, members, announcement })
            },
        }
    }

    /// Closes member `member_uuid`'s connection: marks them offline now and
    /// gives the message that tells the room.
    pub fn disconnect(&mut self, member_uuid: u128) -> (r: Result<ServerMessage, ChatError>)
        ensures
            final(self).channel() == old(self).channel(),
            if old(self)@.members.contains_key(member_uuid) {
                &&& r is Ok
                &&& final(self)@ == switched(
                    old(self)@,
                    member_uuid,
                    false,
                    final(self)@.members[member_uuid].last_seen,
                )
                &&& clock_reading(final(self)@.members[member_uuid].last_seen)
                &&& r->Ok_0 matches ServerMessage::MemberState { member } && shows_member(
                    member,
                    member_uuid,
                    final(self)@.members,
                )
            } else {
                r == Err::<ServerMessage, ChatError>(ChatError::MemberNotFound) && final(self)@ == old(
                    self,
                )@
            },
    {
        match self.update_member(member_uuid, false) {
            Err(e) => Err(e),
            Ok(()) => match self.view_member(member_uuid) {
                Some(member) => Ok(ServerMessage::MemberState { member }),
                None => Err(ChatError::MemberNotFound),
            },
        }
    }

    /// Decides what member `member_uuid`'s frame leads to: a refused frame
    /// is answered with its reason, an ignored one with nothing, a request
    /// for the member list with the list, and a chat message, public or
    /// private, is sent to the room with the member as its sender.
    pub fn respond(&self, member_uuid: u128, incoming: Result<ClientMessage, ClientMessageError>) -> (r:
        Outgoing)
        ensures
            match incoming {
                Err(ClientMessageError::IgnoreMessage) => r is Nothing,
                Err(ClientMessageError::WrongMessage(reason)) => r matches Outgoing::Reply(
                    ServerMessage::BadMessage { reason: why },
                ) && why@ == reason@,
                Ok(ClientMessage::SyncMembers) => r matches Outgoing::Reply(m) && is_member_list(
                    m,
                    self@.members,
                ),
                Ok(ClientMessage::PublicMessage { message }) => r matches Outgoing::Broadcast(
                    ServerMessage::PublicMessage { sender, message: text },
                ) && sender == member_uuid && text@ == message@,
                Ok(ClientMessage::PrivateMessage { receiver, message }) => r matches Outgoing::Broadcast(
                    ServerMessage::PrivateMessage { sender, receiver: to, message: text },
                ) && sender == member_uuid && to == receiver && text@ == message@,
            },
    {
        match incoming {
            Err(ClientMessageError::IgnoreMessage) => Outgoing::Nothing,
            Err(ClientMessageError::WrongMessage(reason)) => Outgoing::Reply(
                ServerMessage::BadMessage { reason },
            ),
            Ok(ClientMessage::SyncMembers) => Outgoing::Reply(
                ServerMessage::SyncMembers { members: self.list_members() },
            ),
            Ok(ClientMessage::PublicMessage { message }) => Outgoing::Broadcast(
                ServerMessage::PublicMessage { sender: member_uuid, message },
            ),
            Ok(ClientMessage::PrivateMessage { receiver, message }) => Outgoing::Broadcast(
                ServerMessage::PrivateMessage { sender: member_uuid, receiver, message },
            ),
        }
    }

    /// Handles a frame from member `member_uuid`: interprets it and decides
    /// what it leads to. Only an accepted chat message reaches the room, and
    /// always with the member as its sender.
    pub fn handle_frame(&self, member_uuid: u128, frame: ClientFrame) -> (r: Outgoing)
        ensures
            broadcasts_only_own_chat(r, member_uuid),
            match frame {
                ClientFrame::NotText => r is Nothing,
                ClientFrame::Malformed(reason) => r matches Outgoing::Reply(
                    ServerMessage::BadMessage { reason: why },
                ) && why@ == reason@,
                ClientFrame::Decoded(m) => match carried_text(m) {
                    None => r matches Outgoing::Reply(list) && is_member_list(list, self@.members),
                    Some(text) => match message_verdict(text) {
                        Err(e) => r matches Outgoing::Reply(ServerMessage::BadMessage { reason: why })
                            && why@ == e.text(),
                        Ok(_) => match m {
                            ClientMessage::PrivateMessage { receiver, message } => r matches Outgoing::Broadcast(
                                ServerMessage::PrivateMessage { sender, receiver: to, message: t },
                            ) && sender == member_uuid && to == receiver && t@ == message@,
                            _ => r matches Outgoing::Broadcast(
                                ServerMessage::PublicMessage { sender, message: t },
                            ) && sender == member_uuid && t@ == text,
                        },
                    },
                },
            },
    {
        self.respond(member_uuid, ClientMessage::from_frame(frame))
    }
}

} // verus!
