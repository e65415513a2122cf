use std::collections::HashMap;
use vstd::prelude::*;
use vstd::std_specs::hash::spec_hash_map_iter;
use vstd::std_specs::iter::IteratorSpec;

use crate::error::ChatError;
use crate::member::{lists_members, Member, MemberModel, MemberView};
use crate::sources::{clock_now, clock_reading, random_uuid, Timestamp, UUID_V4_BITS, UUID_VERSION_VARIANT_MASK};
use crate::validation::{name_verdict, validate_name};

verus! {

broadcast use vstd::std_specs::hash::group_hash_axioms;

/// A chat room. `C` is the room's broadcast channel, which the room only
/// keeps for whoever serves it.
pub struct Room<C> {
    name: String,
    description: String,
    is_listed: bool,
    password: Option<String>,
    members: HashMap<u128, Member>,
    broadcast_tx: C,
}

/// What a room is.
pub struct RoomModel {
    pub name: Seq<char>,
    pub description: Seq<char>,
    pub is_listed: bool,
    pub password: Option<Seq<char>>,
    pub members: Map<u128, MemberModel>,
}

/// The view of an optional string.
pub open spec fn opt_view(s: Option<String>) -> Option<Seq<char>> {
    match s {
        Some(s) => Some(s@),
        None => None,
    }
}

impl<C> View for Room<C> {
    type V = RoomModel;

    closed spec fn view(&self) -> RoomModel {
        RoomModel {
            name: self.name@,
            description: self.description@,
            is_listed: self.is_listed,
            password: opt_view(self.password),
            members: self.members@.map_values(|m: Member| m@),
        }
    }
}

/// A room as listed to clients.
#[derive(Debug)]
pub struct RoomView {
    pub uuid: u128,
    pub name: String,
    pub description: String,
    pub has_password: bool,
    pub online: usize,
    pub total: usize,
}

/// What a listing of a room shows.
pub struct RoomViewModel {
    pub uuid: u128,
    pub name: Seq<char>,
    pub description: Seq<char>,
    pub has_password: bool,
    pub online: nat,
    pub total: nat,
}

impl View for RoomView {
    type V = RoomViewModel;

    open spec fn view(&self) -> RoomViewModel {
        RoomViewModel {
            uuid: self.uuid,
            name: self.name@,
            description: self.description@,
            has_password: self.has_password,
            online: self.online as nat,
            total: self.total as nat,
        }
    }
}

/// The members that are online.
pub open spec fn online_members(members: Map<u128, MemberModel>) -> Set<u128> {
    members.dom().filter(|k: u128| members[k].is_online)
}

/// How room `uuid` is listed.
pub open spec fn room_listing(uuid: u128, room: RoomModel) -> RoomViewModel {
    RoomViewModel {
        uuid,
        name: room.name,
        description: room.description,
        has_password: room.password is Some,
        online: online_members(room.members).len(),
        total: room.members.len(),
    }
}

/// The verdict on someone asking to join a room: the name must be valid
/// and the password must be the room's (both absent, or equal).
pub open spec fn join_verdict(room: RoomModel, name: Seq<char>, password: Option<Seq<char>>) -> Result<(), ChatError> {
    match name_verdict(name) {
        Err(e) => Err(ChatError::Invalid(e)),
        Ok(_) => if room.password != password {
            Err(ChatError::WrongPassword)
        } else {
            Ok(())
        },
    }
}

/// The room with member `id` set to `member`.
pub open spec fn with_member(room: RoomModel, id: u128, member: MemberModel) -> RoomModel {
    RoomModel { members: room.members.insert(id, member), ..room }
}

/// A member who has just joined.
pub open spec fn newcomer(name: Seq<char>, now: Timestamp) -> MemberModel {
    MemberModel { name, is_online: false, last_seen: now }
}

/// Every member of the room is offline.
pub open spec fn all_members_offline(members: Map<u128, MemberModel>) -> bool {
    forall|k: u128| #[trigger] members.contains_key(k) ==> !members[k].is_online
}

impl<C> Room<C> {
    /// The room's broadcast channel.
    pub closed spec fn channel(&self) -> C {
        self.broadcast_tx
    }

    /// A new room without members.
    pub fn new(name: String, description: String, is_listed: bool, password: Option<String>, broadcast_tx: C) -> (r: Self)
        ensures
            r@ == (RoomModel {
                name: name@,
                description: description@,
                is_listed,
                password: opt_view(password),
                members: Map::empty(),
            }),
            r.channel() == broadcast_tx,
    {
        let r = Room { name, description, is_listed, password, members: HashMap::new(), broadcast_tx };
        assert(r@.members =~= Map::empty());
        r
    }

    /// A room has finitely many members.
    pub proof fn members_are_finite(&self)
        ensures
            self@.members.dom().finite(),
    {
        assert(self@.members.dom() =~= self.members@.dom());
    }

    /// The room's broadcast channel.
    pub fn broadcast_tx(&self) -> (c: &C)
        ensures
            *c == self.channel(),
    {
        &self.broadcast_tx
    }

    /// Whether no member of the room is online.
    pub fn all_offline(&self) -> (r: bool)
        ensures
            r == all_members_offline(self@.members),
    {
        let ghost m = self.members@;
        for pair in it: self.members.iter()
            invariant
                m == self.members@,
                it.seq() == spec_hash_map_iter(&self.members).remaining(),
                forall|j: int| 0 <= j < it.index() ==> !(#[trigger] it.seq()[j]).1.is_online,
        {
            let (k, v) = pair;
            if v.is_online {
                assert(self.members@.contains_key(*k) && self.members@[*k] == *v);
                assert(self@.members.contains_key(*k));
                return false;
            }
        }
        true
    }

    /// Shows every member of the room, each once.
    pub fn list_members(&self) -> (v: Vec<MemberView>)
        ensures
            lists_members(v@.map_values(|x: MemberView| x@), self@.members),
    {
        let mut out: Vec<MemberView> = Vec::new();
        for pair in it: self.members.iter()
            invariant
                it.seq() == spec_hash_map_iter(&self.members).remaining(),
                out.len() == it.index(),
                forall|j: int|
                    0 <= j < it.index() ==> (#[trigger] out@[j])@ == (*it.seq()[j].0, it.seq()[j].1@),
        {
            let (k, v) = pair;
            out.push(MemberView::of(*k, v));
        }
        proof {
            let seq = spec_hash_map_iter(&self.members).remaining();
            let views = out@.map_values(|x: MemberView| x@);
            let m = self.members@;
            assert(seq.no_duplicates());
            assert(views.len() == self@.members.len()) by {
                assert(self@.members.dom() =~= m.dom());
            }
            assert forall|i: int, j: int| 0 <= i < j < views.len() implies #[trigger] views[i].0 != #[trigger] views[j].0 by {
                assert(views[i] == out@[i]@);
                assert(views[j] == out@[j]@);
                assert(m.contains_key(*seq[i].0) && m[*seq[i].0] == *seq[i].1);
                assert(m.contains_key(*seq[j].0) && m[*seq[j].0] == *seq[j].1);
                if views[i].0 == views[j].0 {
                    assert(seq[i] == seq[j]);
                }
            }
            assert forall|i: int| 0 <= i < views.len() implies self@.members.contains_key(#[trigger] views[i].0)
                && self@.members[views[i].0] == views[i].1 by {
                assert(views[i] == out@[i]@);
                assert(m.contains_key(*seq[i].0) && m[*seq[i].0] == *seq[i].1);
            }
            assert forall|k: u128| #[trigger] self@.members.contains_key(k) implies exists|i: int|
                0 <= i < views.len() && #[trigger] views[i].0 == k by {
                assert(m.contains_key(k));
                assert(seq.contains((&k, &m[k])));
                let i = choose|i: int| 0 <= i < seq.len() && seq[i] == (&k, &m[k]);
                assert(views.len() == seq.len());
                assert(views[i] == out@[i]@);
                assert(*seq[i].0 == k);
                assert(0 <= i < views.len() && views[i].0 == k);
            }
        }
        out
    }

    /// How many members are online.
    fn count_online(&self) -> (n: usize)
        ensures
            n == online_members(self@.members).len(),
    {
        let ghost m = self.members@;
        let ghost mut counted: Set<u128> = Set::empty();
        let mut n: usize = 0;
        let total: usize = self.members.len();
        for pair in it: self.members.iter()
            invariant
                m == self.members@,
                total == m.dom().len(),
                it.seq() == spec_hash_map_iter(&self.members).remaining(),
                it.seq().no_duplicates(),
                it.seq().len() == m.dom().len(),
                m.dom().finite(),
                counted.finite(),
                n == counted.len(),
                counted.subset_of(m.dom()),
                forall|k: u128|
                    #[trigger] counted.contains(k) <==> (m.contains_key(k) && m[k].is_online && exists|j: int|
                        0 <= j < it.index() && *(#[trigger] it.seq()[j]).0 == k),
        {
            let (k, v) = pair;
            let ghost idx = it.index();
            proof {
                let seq = it.seq();
                assert(m.contains_key(*seq[idx].0) && m[*seq[idx].0] == *seq[idx].1);
                assert forall|j: int| 0 <= j < idx implies *(#[trigger] seq[j]).0 != *k by {
                    assert(m.contains_key(*seq[j].0) && m[*seq[j].0] == *seq[j].1);
                    if *seq[j].0 == *k {
                        assert(seq[j] == seq[idx]);
                    }
                }
            }
            if v.is_online {
                proof {
                    assert(!counted.contains(*k));
                    assert(counted.subset_of(m.dom().remove(*k)));
                    vstd::set_lib::lemma_len_subset(counted, m.dom().remove(*k));
                    counted = counted.insert(*k);
                }
                n = n + 1;
            }
            proof {
                assert forall|k2: u128|
                    #[trigger] counted.contains(k2) <==> (m.contains_key(k2) && m[k2].is_online && exists|j: int|
                        0 <= j < idx + 1 && *(#[trigger] it.seq()[j]).0 == k2) by {
                    if m.contains_key(k2) && m[k2].is_online && exists|j: int| 0 <= j < idx + 1 && *(#[trigger] it.seq()[j]).0 == k2 {
                        let j = choose|j: int| 0 <= j < idx + 1 && *(#[trigger] it.seq()[j]).0 == k2;
                        if j < idx {
                            assert(*it.seq()[j].0 == k2);
                        }
                    }
                }
            }
        }
        proof {
            let target = online_members(self@.members);
            assert forall|k: u128| #[trigger] target.contains(k) <==> counted.contains(k) by {
                if target.contains(k) {
                    assert(m.contains_key(k));
                    let seq = spec_hash_map_iter(&self.members).remaining();
                    assert(seq.contains((&k, &m[k])));
                    let j = choose|j: int| 0 <= j < seq.len() && seq[j] == (&k, &m[k]);
                    assert(*seq[j].0 == k);
                }
            }
            assert(counted =~= target);
        }
        n
    }

    /// The listing of this room as room `uuid`, if the room is listed.
    pub fn as_view(&self, uuid: u128) -> (v: Option<RoomView>)
        ensures
            match v {
                Some(v) => self@.is_listed && v@ == room_listing(uuid, self@),
                None => !self@.is_listed,
            },
    {
        if self.is_listed {
            let online: usize = self.count_online();
            let total: usize = self.members.len();
            proof {
                assert(self@.members.dom() =~= self.members@.dom());
            }
            Some(RoomView {
                uuid,
                name: self.name.clone(),
                description: self.description.clone(),
                has_password: self.password.is_some(),
                online,
                total,
            })
        } else {
            None
        }
    }

    /// Adds member `member_uuid`, named `member_name`, who joined at `now`,
    /// if the name is valid and `room_password` is the room's password.
    pub fn add_member_with(
        &mut self,
        member_name: String,
        room_password: Option<String>,
        member_uuid: u128,
        now: Timestamp,
    ) -> (r: Result<u128, ChatError>)
        ensures
            final(self).channel() == old(self).channel(),
            match join_verdict(old(self)@, member_name@, opt_view(room_password)) {
                Ok(_) => r == Ok::<u128, ChatError>(member_uuid) && final(self)@ == with_member(
                    old(self)@,
                    member_uuid,
                    newcomer(member_name@, now),
                ),
                Err(e) => r == Err::<u128, ChatError>(e) && final(self)@ == old(self)@,
            },
    {
        if let Err(e) = self.check_join(&member_name, &room_password) {
            return Err(e);
        }
        let member = Member { name: member_name, is_online: false, last_seen: now };
        self.members.insert(member_uuid, member);
        proof {
            assert(self@.members =~= old(self)@.members.insert(member_uuid, newcomer(member_name@, now)));
        }
        Ok(member_uuid)
    }

    /// Adds a new member under a fresh random identifier, stamped with the
    /// current time, if the name is valid and the password is the room's.
    pub fn add_member(&mut self, member_name: String, room_password: Option<String>) -> (r: Result<
        u128,
        ChatError,
    >)
        ensures
            final(self).channel() == old(self).channel(),
            match join_verdict(old(self)@, member_name@, opt_view(room_password)) {
                Ok(_) => r is Ok && r->Ok_0 & UUID_VERSION_VARIANT_MASK == UUID_V4_BITS && final(self)@ == with_member(
                    old(self)@,
                    r->Ok_0,
                    newcomer(member_name@, final(self)@.members[r->Ok_0].last_seen),
                ) && clock_reading(final(self)@.members[r->Ok_0].last_seen),
                Err(e) => r == Err::<u128, ChatError>(e) && final(self)@ == old(self)@,
            },
    {
        if let Err(e) = self.check_join(&member_name, &room_password) {
            return Err(e);
        }
        let member_uuid: u128 = random_uuid();
        let now = clock_now();
        self.add_member_with(member_name, room_password, member_uuid, now)
    }

    /// Checks that `member_name` may join with `room_password`: first the
    /// name, then the password.
    fn check_join(&self, member_name: &String, room_password: &Option<String>) -> (r: Result<(), ChatError>)
        ensures
            r == join_verdict(self@, member_name@, opt_view(*room_password)),
    {
        if let Err(e) = validate_name(member_name.as_str()) {
            return Err(ChatError::Invalid(e));
        }
        let same_password = match (&self.password, room_password) {
            (Some(a), Some(b)) => *a == *b,
            (None, None) => true,
            _ => false,
        };
        if !same_password {
            return Err(ChatError::WrongPassword);
        }
        Ok(())
    }

    /// Shows member `member_uuid`, if the room has one.
    pub fn view_member(&self, member_uuid: u128) -> (v: Option<MemberView>)
        ensures
            match v {
                Some(v) => self@.members.contains_key(member_uuid) && v@ == (
                    member_uuid,
                    self@.members[member_uuid],
                ),
                None => !self@.members.contains_key(member_uuid),
            },
    {
        match self.members.get(&member_uuid) {
            Some(m) => Some(MemberView::of(member_uuid, m)),
            None => None,
        }
    }

    /// Marks member `member_uuid` online or offline as of `now`.
    pub fn update_member_at(&mut self, member_uuid: u128, is_online: bool, now: Timestamp) -> (r: Result<
        (),
        ChatError,
    >)
        ensures
            final(self).channel() == old(self).channel(),
            if old(self)@.members.contains_key(member_uuid) {
                r is Ok && final(self)@ == with_member(
                    old(self)@,
                    member_uuid,
                    MemberModel { is_online, last_seen: now, ..old(self)@.members[member_uuid] },
                )
            } else {
                r == Err::<(), ChatError>(ChatError::MemberNotFound) && final(self)@ == old(self)@
            },
    {
        match self.members.remove(&member_uuid) {
            Some(mut m) => {
                m.is_online = is_online;
                m.last_seen = now;
                self.members.insert(member_uuid, m);
                proof {
                    assert(self@.members =~= old(self)@.members.insert(
                        member_uuid,
                        MemberModel { is_online, last_seen: now, ..old(self)@.members[member_uuid] },
                    ));
                }
                Ok(())
            },
            None => {
                proof {
                    assert(self@.members =~= old(self)@.members);
                }
                Err(ChatError::MemberNotFound)
            },
        }
    }

    /// Marks member `member_uuid` online or offline, stamped with the
    /// current time.
    pub fn update_member(&mut self, member_uuid: u128, is_online: bool) -> (r: Result<(), ChatError>)
        ensures
            final(self).channel() == old(self).channel(),
            if old(self)@.members.contains_key(member_uuid) {
                r is Ok && final(self)@ == with_member(
                    old(self)@,
                    member_uuid,
                    MemberModel {
                        is_online,
                        last_seen: final(self)@.members[member_uuid].last_seen,
                        ..old(self)@.members[member_uuid]
                    },
                ) && clock_reading(final(self)@.members[member_uuid].last_seen)
            } else {
                r == Err::<(), ChatError>(ChatError::MemberNotFound) && final(self)@ == old(self)@
            },
    {
        if !self.members.contains_key(&member_uuid) {
            proof {
                assert(!self@.members.contains_key(member_uuid));
            }
            return Err(ChatError::MemberNotFound);
        }
        let now = clock_now();
        self.update_member_at(member_uuid, is_online, now)
    }
}

} // verus!
