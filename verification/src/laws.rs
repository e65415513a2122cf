use vstd::prelude::*;

use crate::member::MemberModel;
use crate::messages::{reaches, ServerMessage};
use crate::room::{
    all_members_offline, join_verdict, newcomer, online_members, room_listing, with_member, RoomModel,
    RoomViewModel,
};
use crate::room_manager::{fresh_room, room_verdict};
use crate::session::switched;
use crate::sources::Timestamp;
use crate::validation::{
    unicode_alphanumeric, description_verdict, message_verdict, name_verdict, password_verdict, utf8_len, ValidationError,
    MAX_MESSAGE_LEN, MAX_NAME_LEN, MAX_PASSWORD_LEN, MIN_NAME_LEN,
};
use crate::error::ChatError;

verus! {

/// A member who has just joined is in the room under the identifier they
/// were given, with the name they asked for, offline; nobody else changed.
pub proof fn law_join_adds_offline_member(room: RoomModel, id: u128, name: Seq<char>, now: Timestamp)
    ensures
        with_member(room, id, newcomer(name, now)).members.contains_key(id),
        with_member(room, id, newcomer(name, now)).members[id].name == name,
        !with_member(room, id, newcomer(name, now)).members[id].is_online,
        forall|k: u128|
            k != id ==> #[trigger] with_member(room, id, newcomer(name, now)).members.contains_key(k)
                == room.members.contains_key(k) && (room.members.contains_key(k) ==> with_member(
                room,
                id,
                newcomer(name, now),
            ).members[k] == room.members[k]),
        with_member(room, id, newcomer(name, now)).name == room.name,
        with_member(room, id, newcomer(name, now)).password == room.password,
{
}

/// Nobody joins a room without its password: a join is accepted only when
/// the password given is the room's.
pub proof fn law_join_needs_room_password(room: RoomModel, name: Seq<char>, password: Option<Seq<char>>)
    ensures
        join_verdict(room, name, password) is Ok ==> password == room.password,
        name_verdict(name) is Ok && password != room.password ==> join_verdict(room, name, password)
            == Err::<(), ChatError>(ChatError::WrongPassword),
{
}

/// An accepted name is between 3 and 30 bytes long.
pub proof fn law_accepted_name_length(name: Seq<char>)
    ensures
        name_verdict(name) is Ok ==> MIN_NAME_LEN <= utf8_len(name) as usize <= MAX_NAME_LEN,
{
}

/// A room that has just been opened is listed, if at all, with nobody in
/// it.
pub proof fn law_new_room_is_listed_empty(
    id: u128,
    name: Seq<char>,
    description: Seq<char>,
    is_listed: bool,
    password: Option<Seq<char>>,
)
    ensures
        room_listing(id, fresh_room(name, description, is_listed, password)) == (RoomViewModel {
            uuid: id,
            name,
            description,
            has_password: password is Some,
            online: 0,
            total: 0,
        }),
{
    let room = fresh_room(name, description, is_listed, password);
    assert(online_members(room.members) =~= Set::<u128>::empty());
}

/// A listing never counts more members online than in the room.
pub proof fn law_online_at_most_total(id: u128, room: RoomModel)
    requires
        room.members.dom().finite(),
    ensures
        room_listing(id, room).online <= room_listing(id, room).total,
{
    vstd::set_lib::lemma_len_subset(online_members(room.members), room.members.dom());
}

/// While a member is connected the room is not empty, so it is never
/// closed under them.
pub proof fn law_connected_member_keeps_room(room: RoomModel, id: u128, t: Timestamp)
    requires
        room.members.contains_key(id),
    ensures
        !all_members_offline(switched(room, id, true, t).members),
{
    assert(switched(room, id, true, t).members.contains_key(id));
}

/// When the last connected member leaves, the room becomes empty and may
/// be closed.
pub proof fn law_last_disconnect_empties_room(room: RoomModel, id: u128, t: Timestamp)
    requires
        room.members.contains_key(id),
        forall|k: u128| #[trigger] room.members.contains_key(k) && k != id ==> !room.members[k].is_online,
    ensures
        all_members_offline(switched(room, id, false, t).members),
{
}

/// Leaving undoes joining the conversation: a member who connects and then
/// disconnects is left as if they had only disconnected.
pub proof fn law_disconnect_undoes_connect(room: RoomModel, id: u128, t1: Timestamp, t2: Timestamp)
    requires
        room.members.contains_key(id),
    ensures
        switched(switched(room, id, true, t1), id, false, t2) == switched(room, id, false, t2),
{
    assert(switched(switched(room, id, true, t1), id, false, t2).members =~= switched(room, id, false, t2).members);
}

/// A private message reaches its sender and its receiver and nobody else.
pub proof fn law_private_message_reaches_only_its_ends(sender: u128, receiver: u128, message: String, member: u128)
    ensures
        reaches(ServerMessage::PrivateMessage { sender, receiver, message }, member) <==> (member == sender
            || member == receiver),
{
}

/// A public message reaches every member.
pub proof fn law_public_message_reaches_everyone(sender: u128, message: String, member: u128)
    ensures
        reaches(ServerMessage::PublicMessage { sender, message }, member),
{
}

/// Connecting a member counts them online: the members online are those
/// before plus them, one more if they were offline.
pub proof fn law_connect_counts_member_online(room: RoomModel, id: u128, t: Timestamp)
    requires
        room.members.contains_key(id),
        room.members.dom().finite(),
    ensures
        online_members(switched(room, id, true, t).members) == online_members(room.members).insert(id),
        !room.members[id].is_online ==> online_members(switched(room, id, true, t).members).len()
            == online_members(room.members).len() + 1,
{
    assert(online_members(switched(room, id, true, t).members) =~= online_members(room.members).insert(id));
    vstd::set_lib::lemma_len_subset(online_members(room.members), room.members.dom());
}

/// Disconnecting a member stops counting them online: the members online
/// are those before but them, one fewer if they were online.
pub proof fn law_disconnect_counts_member_offline(room: RoomModel, id: u128, t: Timestamp)
    requires
        room.members.contains_key(id),
        room.members.dom().finite(),
    ensures
        online_members(switched(room, id, false, t).members) == online_members(room.members).remove(id),
        room.members[id].is_online ==> online_members(switched(room, id, false, t).members).len() + 1
            == online_members(room.members).len(),
{
    assert(online_members(switched(room, id, false, t).members) =~= online_members(room.members).remove(id));
    vstd::set_lib::lemma_len_subset(online_members(room.members), room.members.dom());
}

/// A text is empty exactly when its UTF-8 encoding is.
pub proof fn lemma_utf8_len_zero(s: Seq<char>)
    ensures
        (utf8_len(s) == 0) <==> (s.len() == 0),
{
    if s.len() > 0 {
        assert(vstd::utf8::encode_utf8(s) == vstd::utf8::encode_scalar(s[0] as u32) + vstd::utf8::encode_utf8(s.drop_first()));
    }
}

/// A password is accepted exactly when it is 1 to 120 bytes long, whatever
/// its characters (for texts whose length fits in a `usize`).
pub proof fn law_password_rule(password: Seq<char>)
    requires
        utf8_len(password) <= usize::MAX,
    ensures
        password_verdict(password) is Ok <==> 1 <= utf8_len(password) <= MAX_PASSWORD_LEN,
{
    lemma_utf8_len_zero(password);
}

/// An empty password is refused as empty.
pub proof fn law_empty_password_refused(password: Seq<char>)
    requires
        password.len() == 0,
    ensures
        password_verdict(password) == Err::<(), ValidationError>(ValidationError::PasswordEmpty),
{
}

/// Passwords and descriptions obey the same rule: a text is accepted as one
/// exactly when it is accepted as the other.
pub proof fn law_password_accepted_like_description(s: Seq<char>)
    ensures
        (password_verdict(s) is Ok) == (description_verdict(s) is Ok),
{
}

/// A chat message is accepted exactly when it is 1 to 500 bytes long,
/// whatever its characters (for texts whose length fits in a `usize`).
pub proof fn law_message_rule(message: Seq<char>)
    requires
        utf8_len(message) <= usize::MAX,
    ensures
        message_verdict(message) is Ok <==> 1 <= utf8_len(message) <= MAX_MESSAGE_LEN,
        message.len() == 0 ==> message_verdict(message) == Err::<(), ValidationError>(
            ValidationError::MessageEmpty,
        ),
        utf8_len(message) > MAX_MESSAGE_LEN ==> message_verdict(message) == Err::<(), ValidationError>(
            ValidationError::MessageTooLong { len: utf8_len(message) as usize },
        ),
{
    lemma_utf8_len_zero(message);
}

/// Any acceptable description is also an acceptable chat message.
pub proof fn law_description_is_valid_message(s: Seq<char>)
    ensures
        description_verdict(s) is Ok ==> message_verdict(s) is Ok,
{
}

/// A listing counts exactly the members that are online, and all of them.
pub proof fn law_listing_counts_online_members(id: u128, room: RoomModel)
    ensures
        room_listing(id, room).online == room.members.dom().filter(|k: u128| room.members[k].is_online).len(),
        room_listing(id, room).total == room.members.dom().len(),
{
}

/// When every member is online the listing shows them all online; when
/// none is, it shows nobody online.
pub proof fn law_listing_online_extremes(id: u128, room: RoomModel)
    requires
        room.members.dom().finite(),
    ensures
        (forall|k: u128| #[trigger] room.members.contains_key(k) ==> room.members[k].is_online)
            ==> room_listing(id, room).online == room_listing(id, room).total,
        (forall|k: u128| #[trigger] room.members.contains_key(k) ==> !room.members[k].is_online)
            ==> room_listing(id, room).online == 0,
{
    if forall|k: u128| #[trigger] room.members.contains_key(k) ==> room.members[k].is_online {
        assert(room.members.dom().filter(|k: u128| room.members[k].is_online) =~= room.members.dom());
    }
    if forall|k: u128| #[trigger] room.members.contains_key(k) ==> !room.members[k].is_online {
        assert(room.members.dom().filter(|k: u128| room.members[k].is_online) =~= Set::<u128>::empty());
    }
}

/// Connecting an offline member shows one more member online in the
/// listing; disconnecting an online one shows one fewer; the total stays.
pub proof fn law_listing_follows_connections(id: u128, room: RoomModel, member: u128, t: Timestamp)
    requires
        room.members.contains_key(member),
        room.members.dom().finite(),
    ensures
        !room.members[member].is_online ==> room_listing(id, switched(room, member, true, t)).online
            == room_listing(id, room).online + 1,
        room.members[member].is_online ==> room_listing(id, switched(room, member, false, t)).online + 1
            == room_listing(id, room).online,
        room_listing(id, switched(room, member, true, t)).total == room_listing(id, room).total,
        room_listing(id, switched(room, member, false, t)).total == room_listing(id, room).total,
{
    law_connect_counts_member_online(room, member, t);
    law_disconnect_counts_member_offline(room, member, t);
    assert(switched(room, member, true, t).members.dom() =~= room.members.dom());
    assert(switched(room, member, false, t).members.dom() =~= room.members.dom());
}

/// A name is accepted exactly when it is 3 to 30 bytes long and holds
/// nothing but '-', '_' and alphanumeric characters.
pub proof fn law_name_rule(name: Seq<char>)
    ensures
        name_verdict(name) is Ok <==> (MIN_NAME_LEN <= utf8_len(name) as usize <= MAX_NAME_LEN && forall|i: int|
            0 <= i < name.len() ==> name[i] == '-' || name[i] == '_' || unicode_alphanumeric(#[trigger] name[i])),
        MIN_NAME_LEN <= utf8_len(name) as usize <= MAX_NAME_LEN && (exists|i: int|
            0 <= i < name.len() && !(name[i] == '-' || name[i] == '_' || unicode_alphanumeric(#[trigger] name[i])))
            ==> name_verdict(name) == Err::<(), ValidationError>(ValidationError::NameHasSymbols),
{
}

/// A room is opened only under a valid name, a valid description and, if
/// it has one, a valid password; a bad name is what is reported first.
pub proof fn law_room_needs_valid_settings(name: Seq<char>, description: Seq<char>, password: Option<Seq<char>>)
    ensures
        room_verdict(name, description, password) is Ok <==> (name_verdict(name) is Ok && description_verdict(
            description,
        ) is Ok && (password matches Some(p) ==> password_verdict(p) is Ok)),
        name_verdict(name) matches Err(e) ==> room_verdict(name, description, password) == Err::<(), ChatError>(
            ChatError::Invalid(e),
        ),
{
}

/// Nobody joins under an invalid name: an accepted join has a valid name
/// and the room's password, and a bad name is what is reported first.
pub proof fn law_join_needs_valid_name(room: RoomModel, name: Seq<char>, password: Option<Seq<char>>)
    ensures
        join_verdict(room, name, password) is Ok <==> (name_verdict(name) is Ok && password == room.password),
        name_verdict(name) matches Err(e) ==> join_verdict(room, name, password) == Err::<(), ChatError>(
            ChatError::Invalid(e),
        ),
{
}

/// Joining, connecting and disconnecting change only the member map: the
/// room's name, description, listing flag and password stay.
pub proof fn law_member_changes_keep_room_settings(room: RoomModel, id: u128, m: MemberModel, member: u128, online: bool, t: Timestamp)
    ensures
        with_member(room, id, m).name == room.name,
        with_member(room, id, m).description == room.description,
        with_member(room, id, m).is_listed == room.is_listed,
        with_member(room, id, m).password == room.password,
        with_member(room, id, m).members == room.members.insert(id, m),
        switched(room, member, online, t).name == room.name,
        switched(room, member, online, t).description == room.description,
        switched(room, member, online, t).is_listed == room.is_listed,
        switched(room, member, online, t).password == room.password,
{
}

/// A hidden room stays hidden and a listed one stays listed whoever joins
/// it: the listing exists exactly as before.
pub proof fn law_join_keeps_visibility(room: RoomModel, id: u128, name: Seq<char>, now: Timestamp)
    ensures
        with_member(room, id, newcomer(name, now)).is_listed == room.is_listed,
{
}

} // verus!
