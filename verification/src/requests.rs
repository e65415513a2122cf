use vstd::prelude::*;

verus! {

/// A request to open a room and join it as its first member.
#[derive(Debug)]
pub struct RoomSubmit {
    pub name: String,
    pub description: String,
    pub is_listed: bool,
    pub password: Option<String>,
    pub member_name: String,
}

/// A request to join a room.
#[derive(Debug)]
pub struct AuthSubmit {
    pub room_uuid: u128,
    pub room_password: Option<String>,
    pub member_name: String,
}

/// A request to renew the access token of a room.
#[derive(Debug)]
pub struct RefreshSubmit {
    pub room_uuid: u128,
}

} // verus!
