use std::collections::HashMap;
use vstd::prelude::*;
use vstd::std_specs::hash::spec_hash_map_iter;
use vstd::std_specs::iter::IteratorSpec;

use crate::error::ChatError;
use crate::messages::ServerMessage;
use crate::room::{
    all_members_offline, join_verdict, newcomer, opt_view, room_listing, with_member, Room, RoomModel,
    RoomView, RoomViewModel,
};
use crate::requests::{AuthSubmit, RoomSubmit};
use crate::session::{is_member_list, shows_member, switched, Greeting};
use crate::sources::{clock_reading, random_uuid, Timestamp, UUID_V4_BITS, UUID_VERSION_VARIANT_MASK};
use crate::validation::{
    description_verdict, name_verdict, password_verdict, validate_description, validate_name,
    validate_password,
};

verus! {

broadcast use vstd::std_specs::hash::group_hash_axioms;

/// All open rooms, by identifier.
pub struct RoomManager<C> {
    rooms: HashMap<u128, Room<C>>,
}

impl<C> View for RoomManager<C> {
    type V = Map<u128, RoomModel>;

    closed spec fn view(&self) -> Map<u128, RoomModel> {
        self.rooms@.map_values(|r: Room<C>| r@)
    }
}

/// The verdict on a request to open a room: the name, then the
/// description, then the password if there is one, must be valid.
pub open spec fn room_verdict(name: Seq<char>, description: Seq<char>, password: Option<Seq<char>>) -> Result<(), ChatError> {
    match name_verdict(name) {
        Err(e) => Err(ChatError::Invalid(e)),
        Ok(_) => match description_verdict(description) {
            Err(e) => Err(ChatError::Invalid(e)),
            Ok(_) => match password {
                Some(p) => match password_verdict(p) {
                    Err(e) => Err(ChatError::Invalid(e)),
                    Ok(_) => Ok(()),
                },
                None => Ok(()),
            },
        },
    }
}

/// A room just opened, without members.
pub open spec fn fresh_room(name: Seq<char>, description: Seq<char>, is_listed: bool, password: Option<Seq<char>>) -> RoomModel {
    RoomModel { name, description, is_listed, password, members: Map::empty() }
}

/// The identifiers of the listed rooms.
pub open spec fn listed_rooms(rooms: Map<u128, RoomModel>) -> Set<u128> {
    rooms.dom().filter(|k: u128| rooms[k].is_listed)
}

/// `views` lists each listed room of `rooms` exactly once, in some order,
/// and no other room.
pub open spec fn lists_rooms(views: Seq<RoomViewModel>, rooms: Map<u128, RoomModel>) -> bool {
    &&& forall|i: int|
        0 <= i < views.len() ==> rooms.contains_key(#[trigger] views[i].uuid) && rooms[views[i].uuid].is_listed
            && views[i] == room_listing(views[i].uuid, rooms[views[i].uuid])
    &&& forall|i: int, j: int|
        0 <= i < j < views.len() ==> #[trigger] views[i].uuid != #[trigger] views[j].uuid
    &&& forall|k: u128| #[trigger]
        rooms.contains_key(k) && rooms[k].is_listed ==> exists|i: int|
            0 <= i < views.len() && #[trigger] views[i].uuid == k
}

/// Checks the settings of a new room: the name, then the description, then
/// the password if there is one.
fn check_room(name: &String, description: &String, password: &Option<String>) -> (r: Result<(), ChatError>)
    ensures
        r == room_verdict(name@, description@, opt_view(*password)),
{
    if let Err(e) = validate_name(name.as_str()) {
        return Err(ChatError::Invalid(e));
    }
    if let Err(e) = validate_description(description.as_str()) {
        return Err(ChatError::Invalid(e));
    }
    if let Some(p) = password {
        if let Err(e) = validate_password(p.as_str()) {
            return Err(ChatError::Invalid(e));
        }
    }
    Ok(())
}

impl<C> RoomManager<C> {
    /// The broadcast channel of each room.
    pub closed spec fn channels(&self) -> Map<u128, C> {
        self.rooms@.map_values(|r: Room<C>| r.channel())
    }

    /// No rooms.
    pub fn new() -> (m: Self)
        ensures
            m@ == Map::<u128, RoomModel>::empty(),
            m.channels() == Map::<u128, C>::empty(),
    {
        let m = RoomManager { rooms: HashMap::new() };
        assert(m@ =~= Map::<u128, RoomModel>::empty());
        assert(m.channels() =~= Map::<u128, C>::empty());
        m
    }

    /// Opens room `room_uuid` with the given settings and channel, if they
    /// are valid.
    pub fn create_with(
        &mut self,
        name: String,
        description: String,
        is_listed: bool,
        password: Option<String>,
        broadcast_tx: C,
        room_uuid: u128,
    ) -> (r: Result<u128, ChatError>)
        ensures
            match room_verdict(name@, description@, opt_view(password)) {
                Ok(_) => {
                    &&& r == Ok::<u128, ChatError>(room_uuid)
                    &&& final(self)@ == old(self)@.insert(
                        room_uuid,
                        fresh_room(name@, description@, is_listed, opt_view(password)),
                    )
                    &&& final(self).channels() == old(self).channels().insert(room_uuid, broadcast_tx)
                },
                Err(e) => {
                    &&& r == Err::<u128, ChatError>(e)
                    &&& final(self)@ == old(self)@
                    &&& final(self).channels() == old(self).channels()
                },
            },
    {
        if let Err(e) = check_room(&name, &description, &password) {
            return Err(e);
        }
        let room = Room::new(name, description, is_listed, password, broadcast_tx);
        self.rooms.insert(room_uuid, room);
        proof {
            assert(self@ =~= old(self)@.insert(
                room_uuid,
                fresh_room(name@, description@, is_listed, opt_view(password)),
            ));
            assert(self.channels() =~= old(self).channels().insert(room_uuid, broadcast_tx));
        }
        Ok(room_uuid)
    }

    /// Opens a room under a fresh random identifier, if the settings are
    /// valid.
    pub fn create(
        &mut self,
        name: String,
        description: String,
        is_listed: bool,
        password: Option<String>,
        broadcast_tx: C,
    ) -> (r: Result<u128, ChatError>)
        ensures
            match room_verdict(name@, description@, opt_view(password)) {
                Ok(_) => {
                    &&& r is Ok && r->Ok_0 & UUID_VERSION_VARIANT_MASK == UUID_V4_BITS
                    &&& final(self)@ == old(self)@.insert(
                        r->Ok_0,
                        fresh_room(name@, description@, is_listed, opt_view(password)),
                    )
                    &&& final(self).channels() == old(self).channels().insert(r->Ok_0, broadcast_tx)
                },
                Err(e) => {
                    &&& r == Err::<u128, ChatError>(e)
                    &&& final(self)@ == old(self)@
                    &&& final(self).channels() == old(self).channels()
                },
            },
    {
        if let Err(e) = check_room(&name, &description, &password) {
            return Err(e);
        }
        let room_uuid: u128 = random_uuid();
        self.create_with(name, description, is_listed, password, broadcast_tx, room_uuid)
    }

    /// Room `room_uuid`, if it is open.
    pub fn get(&self, room_uuid: u128) -> (r: Option<&Room<C>>)
        ensures
            match r {
                Some(room) => self@.contains_key(room_uuid) && room@ == self@[room_uuid]
                    && room.channel() == self.channels()[room_uuid],
                None => !self@.contains_key(room_uuid),
            },
    {
        self.rooms.get(&room_uuid)
    }

    /// There are finitely many open rooms.
    pub proof fn rooms_are_finite(&self)
        ensures
            self@.dom().finite(),
    {
        assert(self@.dom() =~= self.rooms@.dom());
    }

    /// Lists every listed room, each once.
    pub fn list(&self) -> (v: Vec<RoomView>)
        ensures
            lists_rooms(v@.map_values(|x: RoomView| x@), self@),
            v.len() == listed_rooms(self@).len(),
    {
        let mut out: Vec<RoomView> = Vec::new();
        let ghost m = self.rooms@;
        let ghost mut src: Seq<int> = Seq::empty();
        for pair in it: self.rooms.iter()
            invariant
                m == self.rooms@,
                it.seq() == spec_hash_map_iter(&self.rooms).remaining(),
                it.seq().no_duplicates(),
                src.len() == out.len(),
                forall|i: int|
                    0 <= i < out.len() ==> 0 <= #[trigger] src[i] < it.index() && out@[i]@.uuid
                        == *it.seq()[src[i]].0,
                forall|i: int|
                    0 <= i < out.len() ==> m.contains_key((#[trigger] out@[i])@.uuid)
                        && m[out@[i]@.uuid]@.is_listed && out@[i]@ == room_listing(
                        out@[i]@.uuid,
                        m[out@[i]@.uuid]@,
                    ),
                forall|i: int, j: int|
                    0 <= i < j < out.len() ==> (#[trigger] out@[i])@.uuid != (#[trigger] out@[j])@.uuid,
                forall|j: int|
                    0 <= j < it.index() && m[*(#[trigger] it.seq()[j]).0]@.is_listed ==> exists|i: int|
                        0 <= i < out.len() && (#[trigger] out@[i])@.uuid == *it.seq()[j].0,
        {
            let (k, room) = pair;
            let ghost idx = it.index();
            proof {
                let seq = it.seq();
                assert(m.contains_key(*seq[idx].0) && m[*seq[idx].0] == *seq[idx].1);
                assert forall|j: int| 0 <= j < idx implies *(#[trigger] seq[j]).0 != *k by {
                    assert(m.contains_key(*seq[j].0) && m[*seq[j].0] == *seq[j].1);
                    if *seq[j].0 == *k {
                        assert(seq[j] == seq[idx]);
                    }
                }
            }
            let ghost before = out@;
            let ghost mut pushed = false;
            match room.as_view(*k) {
                Some(v) => {
                    out.push(v);
                    proof {
                        pushed = true;
                        src = src.push(idx);
                    }
                },
                None => {},
            }
            proof {
                let seq = it.seq();
                assert(pushed <==> m[*seq[idx].0]@.is_listed);
                assert(pushed ==> out@ == before.push(out@[out.len() - 1]));
                assert(!pushed ==> out@ == before);
                assert(pushed ==> out@[out.len() - 1]@.uuid == *seq[idx].0);
                assert forall|i: int| 0 <= i < out.len() implies 0 <= #[trigger] src[i] < idx + 1
                    && out@[i]@.uuid == *seq[src[i]].0 by {
                    if i < before.len() {
                        assert(out@[i] == before[i]);
                    }
                }
                assert forall|i: int, j: int| 0 <= i < j < out.len() implies (#[trigger] out@[i])@.uuid
                    != (#[trigger] out@[j])@.uuid by {
                    if j < before.len() {
                        assert(out@[i] == before[i]);
                        assert(out@[j] == before[j]);
                    } else {
                        assert(out@[i] == before[i]);
                        assert(src[i] < idx);
                    }
                }
                assert forall|j: int|
                    0 <= j < idx + 1 && m[*(#[trigger] seq[j]).0]@.is_listed implies exists|i: int|
                    0 <= i < out.len() && (#[trigger] out@[i])@.uuid == *seq[j].0 by {
                    if j == idx {
                        assert(out@[out.len() - 1]@.uuid == *seq[j].0);
                    } else {
                        let i = choose|i: int| 0 <= i < before.len() && (#[trigger] before[i])@.uuid == *seq[j].0;
                        assert(out@[i] == before[i]);
                    }
                }
            }
        }
        proof {
            let views = out@.map_values(|x: RoomView| x@);
            let seq = spec_hash_map_iter(&self.rooms).remaining();
            assert forall|i: int| 0 <= i < views.len() implies self@.contains_key(#[trigger] views[i].uuid)
                && self@[views[i].uuid].is_listed && views[i] == room_listing(
                views[i].uuid,
                self@[views[i].uuid],
            ) by {
                assert(views[i] == out@[i]@);
            }
            assert forall|i: int, j: int| 0 <= i < j < views.len() implies #[trigger] views[i].uuid
                != #[trigger] views[j].uuid by {
                assert(views[i] == out@[i]@);
                assert(views[j] == out@[j]@);
            }
            assert forall|k: u128| #[trigger]
                self@.contains_key(k) && self@[k].is_listed implies exists|i: int|
                0 <= i < views.len() && #[trigger] views[i].uuid == k by {
                assert(m.contains_key(k));
                assert(seq.contains((&k, &m[k])));
                let j = choose|j: int| 0 <= j < seq.len() && seq[j] == (&k, &m[k]);
                assert(*seq[j].0 == k);
                assert(m[*seq[j].0]@.is_listed);
                let i = choose|i: int| 0 <= i < out.len() && (#[trigger] out@[i])@.uuid == *seq[j].0;
                assert(views[i] == out@[i]@);
            }
            let ids = views.map_values(|x: RoomViewModel| x.uuid);
            assert(ids.no_duplicates()) by {
                assert forall|i: int, j: int| 0 <= i < ids.len() && 0 <= j < ids.len() && i != j implies ids[i]
                    != ids[j] by {
                    if i < j {
                        assert(views[i].uuid != views[j].uuid);
                    } else {
                        assert(views[j].uuid != views[i].uuid);
                    }
                }
            }
            assert(ids.to_set() =~= listed_rooms(self@)) by {
                assert forall|k: u128| ids.to_set().contains(k) implies listed_rooms(self@).contains(k) by {
                    let i = choose|i: int| 0 <= i < ids.len() && ids[i] == k;
                    assert(views[i].uuid == k);
                }
                assert forall|k: u128| listed_rooms(self@).contains(k) implies ids.to_set().contains(k) by {
                    assert(self@.contains_key(k) && self@[k].is_listed);
                    let i = choose|i: int| 0 <= i < views.len() && #[trigger] views[i].uuid == k;
                    assert(ids[i] == k);
                }
            }
            ids.unique_seq_to_set();
        }
        out
    }

    /// Closes room `room_uuid` if it is open and none of its members is
    /// online.
    pub fn cleanup(&mut self, room_uuid: u128) -> (r: Result<(), ChatError>)
        ensures
            if !old(self)@.contains_key(room_uuid) {
                r == Err::<(), ChatError>(ChatError::RoomNotFound) && final(self)@ == old(self)@
                    && final(self).channels() == old(self).channels()
            } else if !all_members_offline(old(self)@[room_uuid].members) {
                r == Err::<(), ChatError>(ChatError::RoomNotEmpty) && final(self)@ == old(self)@
                    && final(self).channels() == old(self).channels()
            } else {
                r is Ok && final(self)@ == old(self)@.remove(room_uuid) && final(self).channels() == old(
                    self,
                ).channels().remove(room_uuid)
            },
    {
        let empty = match self.rooms.get(&room_uuid) {
            None => {
                return Err(ChatError::RoomNotFound);
            },
            Some(room) => room.all_offline(),
        };
        if !empty {
            return Err(ChatError::RoomNotEmpty);
        }
        self.rooms.remove(&room_uuid);
        proof {
            assert(self@ =~= old(self)@.remove(room_uuid));
            assert(self.channels() =~= old(self).channels().remove(room_uuid));
        }
        Ok(())
    }

    /// Adds member `member_uuid`, named `member_name`, who joined at `now`,
    /// to room `room_uuid`, if the room is open, the name valid and the
    /// password the room's.
    pub fn add_member_with(
        &mut self,
        room_uuid: u128,
        member_name: String,
        room_password: Option<String>,
        member_uuid: u128,
        now: Timestamp,
    ) -> (r: Result<u128, ChatError>)
        ensures
            final(self).channels() == old(self).channels(),
            if !old(self)@.contains_key(room_uuid) {
                r == Err::<u128, ChatError>(ChatError::RoomNotFound) && final(self)@ == old(self)@
            } else {
                match join_verdict(old(self)@[room_uuid], member_name@, opt_view(room_password)) {
                    Ok(_) => r == Ok::<u128, ChatError>(member_uuid) && final(self)@ == old(self)@.insert(
                        room_uuid,
                        with_member(old(self)@[room_uuid], member_uuid, newcomer(member_name@, now)),
                    ),
                    Err(e) => r == Err::<u128, ChatError>(e) && final(self)@ == old(self)@,
                }
            },
    {
        match self.rooms.remove(&room_uuid) {
            None => {
                proof {
                    assert(self@ =~= old(self)@);
                    assert(self.channels() =~= old(self).channels());
                }
                Err(ChatError::RoomNotFound)
            },
            Some(mut room) => {
                let r = room.add_member_with(member_name, room_password, member_uuid, now);
                self.rooms.insert(room_uuid, room);
                proof {
                    assert(self@ =~= old(self)@.insert(room_uuid, room@));
                    assert(self.channels() =~= old(self).channels());
                }
                r
            },
        }
    }

    /// Adds a new member, under a fresh random identifier and stamped with
    /// the current time, to room `room_uuid`, if the room is open, the name
    /// valid and the password the room's.
    pub fn add_member(&mut self, room_uuid: u128, member_name: String, room_password: Option<String>) -> (r:
        Result<u128, ChatError>)
        ensures
            final(self).channels() == old(self).channels(),
            if !old(self)@.contains_key(room_uuid) {
                r == Err::<u128, ChatError>(ChatError::RoomNotFound) && final(self)@ == old(self)@
            } else {
                match join_verdict(old(self)@[room_uuid], member_name@, opt_view(room_password)) {
                    Ok(_) => r is Ok && r->Ok_0 & UUID_VERSION_VARIANT_MASK == UUID_V4_BITS && final(self)@ == old(self)@.insert(
                        room_uuid,
                        with_member(
                            old(self)@[room_uuid],
                            r->Ok_0,
                            newcomer(member_name@, final(self)@[room_uuid].members[r->Ok_0].last_seen),
                        ),
                    ) && clock_reading(final(self)@[room_uuid].members[r->Ok_0].last_seen),
                    Err(e) => r == Err::<u128, ChatError>(e) && final(self)@ == old(self)@,
                }
            },
    {
        match self.rooms.remove(&room_uuid) {
            None => {
                proof {
                    assert(self@ =~= old(self)@);
                    assert(self.channels() =~= old(self).channels());
                }
                Err(ChatError::RoomNotFound)
            },
            Some(mut room) => {
                let r = room.add_member(member_name, room_password);
                self.rooms.insert(room_uuid, room);
                proof {
                    assert(self@ =~= old(self)@.insert(room_uuid, room@));
                    assert(self.channels() =~= old(self).channels());
                }
                r
            },
        }
    }

    /// Joins the room named in `submit`.
    pub fn authenticate(&mut self, submit: AuthSubmit) -> (r: Result<u128, ChatError>)
        ensures
            final(self).channels() == old(self).channels(),
            if !old(self)@.contains_key(submit.room_uuid) {
                r == Err::<u128, ChatError>(ChatError::RoomNotFound) && final(self)@ == old(self)@
            } else {
                match join_verdict(old(self)@[submit.room_uuid], submit.member_name@, opt_view(submit.room_password)) {
                    Ok(_) => r is Ok && r->Ok_0 & UUID_VERSION_VARIANT_MASK == UUID_V4_BITS && final(self)@ == old(self)@.insert(
                        submit.room_uuid,
                        with_member(
                            old(self)@[submit.room_uuid],
                            r->Ok_0,
                            newcomer(submit.member_name@, final(self)@[submit.room_uuid].members[r->Ok_0].last_seen),
                        ),
                    ) && clock_reading(final(self)@[submit.room_uuid].members[r->Ok_0].last_seen),
                    Err(e) => r == Err::<u128, ChatError>(e) && final(self)@ == old(self)@,
                }
            },
    {
        self.add_member(submit.room_uuid, submit.member_name, submit.room_password)
    }

    /// Opens the room described by `submit` and makes its first member,
    /// whose name is checked before anything else.
    pub fn create_room(&mut self, submit: RoomSubmit, broadcast_tx: C) -> (r: Result<(u128, u128), ChatError>)
        ensures
            match name_verdict(submit.member_name@) {
                Err(e) => r == Err::<(u128, u128), ChatError>(ChatError::Invalid(e)) && final(self)@ == old(self)@
                    && final(self).channels() == old(self).channels(),
                Ok(_) => match room_verdict(submit.name@, submit.description@, opt_view(submit.password)) {
                    Err(e) => r == Err::<(u128, u128), ChatError>(e) && final(self)@ == old(self)@
                        && final(self).channels() == old(self).channels(),
                    Ok(_) => {
                        &&& r is Ok && r->Ok_0.0 & UUID_VERSION_VARIANT_MASK == UUID_V4_BITS && r->Ok_0.1 & UUID_VERSION_VARIANT_MASK == UUID_V4_BITS
                        &&& final(self)@ == old(self)@.insert(
                            r->Ok_0.0,
                            with_member(
                                fresh_room(submit.name@, submit.description@, submit.is_listed, opt_view(submit.password)),
                                r->Ok_0.1,
                                newcomer(submit.member_name@, final(self)@[r->Ok_0.0].members[r->Ok_0.1].last_seen),
                            ),
                        )
                        &&& clock_reading(final(self)@[r->Ok_0.0].members[r->Ok_0.1].last_seen)
                        &&& final(self).channels() == old(self).channels().insert(r->Ok_0.0, broadcast_tx)
                    },
                },
            },
    {
        if let Err(e) = validate_name(submit.member_name.as_str()) {
            return Err(ChatError::Invalid(e));
        }
        let password_copy = match &submit.password {
            Some(p) => Some(p.clone()),
            None => None,
        };
        let room_uuid = match self.create(submit.name, submit.description, submit.is_listed, submit.password, broadcast_tx) {
            Ok(id) => id,
            Err(e) => {
                return Err(e);
            },
        };
        match self.add_member(room_uuid, submit.member_name, password_copy) {
            Ok(member_uuid) => Ok((room_uuid, member_uuid)),
            Err(e) => Err(e),
        }
    }

    /// Opens member `member_uuid`'s connection to room `room_uuid`: marks
    /// them online now and prepares the greeting.
    pub fn connect(&mut self, room_uuid: u128, member_uuid: u128) -> (r: Result<Greeting, ChatError>)
        ensures
            final(self).channels() == old(self).channels(),
            if !old(self)@.contains_key(room_uuid) {
                r == Err::<Greeting, ChatError>(ChatError::RoomNotFound) && final(self)@ == old(self)@
            } else if !old(self)@[room_uuid].members.contains_key(member_uuid) {
                r == Err::<Greeting, ChatError>(ChatError::MemberNotFound) && final(self)@ == old(self)@
            } else {
                &&& r is Ok
                &&& final(self)@ == old(self)@.insert(
                    room_uuid,
                    switched(old(self)@[room_uuid], member_uuid, true, final(self)@[room_uuid].members[member_uuid].last_seen),
                )
                &&& clock_reading(final(self)@[room_uuid].members[member_uuid].last_seen)
                &&& r->Ok_0.identity matches ServerMessage::SyncIdentity { member } && shows_member(
                    member,
                    member_uuid,
                    final(self)@[room_uuid].members,
                )
                &&& is_member_list(r->Ok_0.members, final(self)@[room_uuid].members)
                &&& r->Ok_0.announcement matches ServerMessage::MemberState { member }
                    && shows_member(member, member_uuid, final(self)@[room_uuid].members)
            },
    {
        match self.rooms.remove(&room_uuid) {
            None => {
                proof {
                    assert(self@ =~= old(self)@);
                    assert(self.channels() =~= old(self).channels());
                }
                Err(ChatError::RoomNotFound)
            },
            Some(mut room) => {
                let r = room.connect(member_uuid);
                self.rooms.insert(room_uuid, room);
                proof {
                    assert(self@ =~= old(self)@.insert(room_uuid, room@));
                    assert(self.channels() =~= old(self).channels());
                }
                r
            },
        }
    }

    /// Closes member `member_uuid`'s connection to room `room_uuid`: marks
    /// them offline now and gives the message that tells the room.
    pub fn disconnect(&mut self, room_uuid: u128, member_uuid: u128) -> (r: Result<ServerMessage, ChatError>)
        ensures
            final(self).channels() == old(self).channels(),
            if !old(self)@.contains_key(room_uuid) {
                r == Err::<ServerMessage, ChatError>(ChatError::RoomNotFound) && final(self)@ == old(self)@
            } else if !old(self)@[room_uuid].members.contains_key(member_uuid) {
                r == Err::<ServerMessage, ChatError>(ChatError::MemberNotFound) && final(self)@ == old(self)@
            } else {
                &&& r is Ok
                &&& final(self)@ == old(self)@.insert(
                    room_uuid,
                    switched(old(self)@[room_uuid], member_uuid, false, final(self)@[room_uuid].members[member_uuid].last_seen),
                )
                &&& clock_reading(final(self)@[room_uuid].members[member_uuid].last_seen)
                &&& r->Ok_0 matches ServerMessage::MemberState { member } && shows_member(
                    member,
                    member_uuid,
                    final(self)@[room_uuid].members,
                )
            },
    {
        match self.rooms.remove(&room_uuid) {
            None => {
                proof {
                    assert(self@ =~= old(self)@);
                    assert(self.channels() =~= old(self).channels());
                }
                Err(ChatError::RoomNotFound)
            },
            Some(mut room) => {
                let r = room.disconnect(member_uuid);
                self.rooms.insert(room_uuid, room);
                proof {
                    assert(self@ =~= old(self)@.insert(room_uuid, room@));
                    assert(self.channels() =~= old(self).channels());
                }
                r
            },
        }
    }
}

} // verus!
