use vstd::prelude::*;
use vstd::string::StringExecFns;

use crate::validation::ValidationError;

verus! {

/// Why an operation on rooms and members was refused.
#[derive(Debug, Clone, Copy, PartialEq, Eq, Structural)]
pub enum ChatError {
    Invalid(ValidationError),
    WrongPassword,
    MemberNotFound,
    RoomNotFound,
    RoomNotEmpty,
}

impl ChatError {
    /// The text shown to the user for this refusal.
    pub open spec fn text(self) -> Seq<char> {
        match self {
            ChatError::Invalid(e) => e.text(),
            ChatError::WrongPassword => "Wrong password"@,
            ChatError::MemberNotFound => "Member not found"@,
            ChatError::RoomNotFound => "Room does not exist"@,
            ChatError::RoomNotEmpty => "Room must be empty"@,
        }
    }

    /// Renders the text shown to the user for this refusal.
    pub fn message(&self) -> (s: String)
        ensures
            s@ == self.text(),
    {
        match self {
            ChatError::Invalid(e) => e.message(),
            ChatError::WrongPassword => String::from_str("Wrong password"),
            ChatError::MemberNotFound => String::from_str("Member not found"),
            ChatError::RoomNotFound => String::from_str("Room does not exist"),
            ChatError::RoomNotEmpty => String::from_str("Room must be empty"),
        }
    }
}

} // verus!
