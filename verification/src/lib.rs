//! Verified core of a small chat-room server: input validation, rooms and
//! their members, the room registry, access tokens' claims, cookies and the
//! decisions taken for every chat message.

pub mod text;
pub mod validation;
pub mod sources;
pub mod error;
pub mod member;
pub mod room;
pub mod messages;
pub mod session;
pub mod room_manager;
pub mod requests;
pub mod claims;
pub mod cookie;
pub mod laws;
