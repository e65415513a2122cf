use vstd::prelude::*;

use crate::sources::Timestamp;

verus! {

/// A member of a chat room.
pub struct Member {
    pub name: String,
    pub is_online: bool,
    pub last_seen: Timestamp,
}

/// What a member is: a name, whether a connection of theirs is open, and
/// when their state last changed.
pub struct MemberModel {
    pub name: Seq<char>,
    pub is_online: bool,
    pub last_seen: Timestamp,
}

impl View for Member {
    type V = MemberModel;

    open spec fn view(&self) -> MemberModel {
        MemberModel { name: self.name@, is_online: self.is_online, last_seen: self.last_seen }
    }
}

/// A member as shown to clients, with the member's identifier.
#[derive(Debug, Clone)]
pub struct MemberView {
    pub uuid: u128,
    pub name: String,
    pub is_online: bool,
    pub last_seen: Timestamp,
}

impl View for MemberView {
    type V = (u128, MemberModel);

    open spec fn view(&self) -> (u128, MemberModel) {
        (self.uuid, MemberModel { name: self.name@, is_online: self.is_online, last_seen: self.last_seen })
    }
}

impl MemberView {
    /// Shows the member `uuid`.
    pub fn of(uuid: u128, member: &Member) -> (v: MemberView)
        ensures
            v@ == (uuid, member@),
    {
        MemberView {
            uuid,
            name: member.name.clone(),
            is_online: member.is_online,
            last_seen: member.last_seen,
        }
    }

    /// A copy of this view.
    pub fn duplicate(&self) -> (v: MemberView)
        ensures
            v@ == self@,
    {
        MemberView {
            uuid: self.uuid,
            name: self.name.clone(),
            is_online: self.is_online,
            last_seen: self.last_seen,
        }
    }
}

/// `views` shows each member of `members` exactly once, in some order.
pub open spec fn lists_members(views: Seq<(u128, MemberModel)>, members: Map<u128, MemberModel>) -> bool {
    &&& views.len() == members.len()
    &&& forall|i: int|
        0 <= i < views.len() ==> members.contains_key(#[trigger] views[i].0) && members[views[i].0]
            == views[i].1
    &&& forall|i: int, j: int|
        0 <= i < j < views.len() ==> #[trigger] views[i].0 != #[trigger] views[j].0
    &&& forall|k: u128| #[trigger]
        members.contains_key(k) ==> exists|i: int| 0 <= i < views.len() && #[trigger] views[i].0 == k
}

} // verus!
