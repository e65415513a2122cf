use vstd::prelude::*;

use crate::sources::{clock_now, clock_reading, Timestamp};

verus! {

/// How long an access token stays valid, in seconds.
pub const TOKEN_LIFETIME_SECS: i64 = 3600;

/// What an access token asserts: member `sub` belongs to room `iss`, until
/// the Unix time `exp`.
#[derive(Debug, Clone, Copy, PartialEq, Eq, Structural)]
pub struct Claims {
    pub iss: u128,
    pub sub: u128,
    pub exp: usize,
}

impl Claims {
    /// The claims of a token for member `member_uuid` of room `room_uuid`
    /// issued at `now`.
    pub open spec fn issued_at_spec(room_uuid: u128, member_uuid: u128, now: Timestamp) -> Claims {
        Claims { iss: room_uuid, sub: member_uuid, exp: (now.secs + TOKEN_LIFETIME_SECS) as usize }
    }

    /// The claims of a token for member `member_uuid` of room `room_uuid`
    /// issued at `now`: it expires one token lifetime later, in whole
    /// seconds.
    pub fn issued_at(room_uuid: u128, member_uuid: u128, now: Timestamp) -> (c: Claims)
        requires
            now.secs + TOKEN_LIFETIME_SECS <= i64::MAX,
        ensures
            c == Claims::issued_at_spec(room_uuid, member_uuid, now),
    {
        let exp: i64 = now.secs + TOKEN_LIFETIME_SECS;
        Claims { iss: room_uuid, sub: member_uuid, exp: exp as usize }
    }

    /// The claims of a token issued now for member `member_uuid` of room
    /// `room_uuid`: it expires one token lifetime after the clock reading.
    pub fn issue(room_uuid: u128, member_uuid: u128) -> (c: Claims)
        ensures
            c.iss == room_uuid,
            c.sub == member_uuid,
            exists|now: Timestamp|
                clock_reading(now) && c == Claims::issued_at_spec(room_uuid, member_uuid, now),
    {
        let now = clock_now();
        Claims::issued_at(room_uuid, member_uuid, now)
    }

    /// The room and the member that a verified token names.
    pub fn identity(&self) -> (r: (u128, u128))
        ensures
            r == (self.iss, self.sub),
    {
        (self.iss, self.sub)
    }
}

/// Admits a connection to room `room_uuid` only with a verified token
/// issued for that same room; gives the token's room and member.
pub fn authorize_socket(room_uuid: u128, verified: Option<(u128, u128)>) -> (r: Option<(u128, u128)>)
    ensures
        r == (match verified {
            Some(id) => if id.0 == room_uuid {
                Some(id)
            } else {
                None
            },
            None => None,
        }),
{
    match verified {
        Some(id) => if id.0 == room_uuid {
            Some(id)
        } else {
            None
        },
        None => None,
    }
}

} // verus!
