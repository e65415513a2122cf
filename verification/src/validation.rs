use vstd::prelude::*;
use vstd::string::StringExecFns;
use vstd::std_specs::iter::IteratorSpec;

use crate::text::{decimal, decimal_string};

verus! {

/// Longest accepted room or member name, in bytes.
pub const MAX_NAME_LEN: usize = 30;

/// Longest accepted room description, in bytes.
pub const MAX_DESCRIPTION_LEN: usize = 120;

/// Longest accepted room password, in bytes.
pub const MAX_PASSWORD_LEN: usize = 120;

/// Longest accepted chat message, in bytes.
pub const MAX_MESSAGE_LEN: usize = 500;

/// Shortest accepted room or member name, in bytes.
pub const MIN_NAME_LEN: usize = 3;

/// Why a piece of user input was refused. Lengths are in bytes.
#[derive(Debug, Clone, Copy, PartialEq, Eq, Structural)]
pub enum ValidationError {
    NameTooShort { len: usize },
    NameTooLong { len: usize },
    NameHasSymbols,
    DescriptionEmpty,
    DescriptionTooLong { len: usize },
    PasswordEmpty,
    PasswordTooLong { len: usize },
    MessageEmpty,
    MessageTooLong { len: usize },
}

/// Whether `char::is_alphanumeric` holds of a character (Unicode's
/// Alphabetic or Numeric property).
pub uninterp spec fn unicode_alphanumeric(c: char) -> bool;

/// Calls `char::is_alphanumeric`; the result is the named predicate of
/// `c` and nothing more is claimed about which characters satisfy it.
#[verifier::external_body]
fn char_is_alphanumeric(c: char) -> (r: bool)
    ensures
        r == unicode_alphanumeric(c),
{
    c.is_alphanumeric()
}

/// A character a name may hold: '-', '_' or an alphanumeric one.
pub open spec fn name_char_allowed(c: char) -> bool {
    c == '-' || c == '_' || unicode_alphanumeric(c)
}

/// Every character of `s` may stand in a name.
pub open spec fn all_name_chars(s: Seq<char>) -> bool {
    forall|i: int| 0 <= i < s.len() ==> name_char_allowed(#[trigger] s[i])
}

/// The length of the UTF-8 encoding of a text, which is what `str::len`
/// returns.
pub open spec fn utf8_len(s: Seq<char>) -> nat {
    vstd::utf8::encode_utf8(s).len()
}

/// The verdict on a name: its byte length must lie in `3..=30` and every
/// character must be allowed; the length is checked first.
pub open spec fn name_verdict(name: Seq<char>) -> Result<(), ValidationError> {
    let len: usize = utf8_len(name) as usize;
    if len < MIN_NAME_LEN {
        Err(ValidationError::NameTooShort { len })
    } else if len > MAX_NAME_LEN {
        Err(ValidationError::NameTooLong { len })
    } else if !all_name_chars(name) {
        Err(ValidationError::NameHasSymbols)
    } else {
        Ok(())
    }
}

/// The verdict on a description: non-empty and at most 120 bytes.
pub open spec fn description_verdict(description: Seq<char>) -> Result<(), ValidationError> {
    let len: usize = utf8_len(description) as usize;
    if description.len() == 0 {
        Err(ValidationError::DescriptionEmpty)
    } else if len > MAX_DESCRIPTION_LEN {
        Err(ValidationError::DescriptionTooLong { len })
    } else {
        Ok(())
    }
}

/// The verdict on a password: non-empty and at most 120 bytes.
pub open spec fn password_verdict(password: Seq<char>) -> Result<(), ValidationError> {
    let len: usize = utf8_len(password) as usize;
    if password.len() == 0 {
        Err(ValidationError::PasswordEmpty)
    } else if len > MAX_PASSWORD_LEN {
        Err(ValidationError::PasswordTooLong { len })
    } else {
        Ok(())
    }
}

/// The verdict on a chat message: non-empty and at most 500 bytes.
pub open spec fn message_verdict(message: Seq<char>) -> Result<(), ValidationError> {
    let len: usize = utf8_len(message) as usize;
    if message.len() == 0 {
        Err(ValidationError::MessageEmpty)
    } else if len > MAX_MESSAGE_LEN {
        Err(ValidationError::MessageTooLong { len })
    } else {
        Ok(())
    }
}

fn has_only_name_chars(name: &str) -> (r: bool)
    ensures
        r == all_name_chars(name@),
{
    broadcast use vstd::string::group_string_axioms;

    let mut chars = name.chars();
    let ghost all = name@;
    let ghost mut i: int = 0;
    loop
        invariant
            chars.obeys_prophetic_iter_laws(),
            all == name@,
            0 <= i <= all.len(),
            chars.remaining() == all.skip(i),
            forall|j: int| 0 <= j < i ==> name_char_allowed(#[trigger] all[j]),
        decreases all.len() - i,
    {
        let ghost before = chars.remaining();
        match chars.next() {
            None => {
                assert(before.len() == 0);
                return true;
            },
            Some(c) => {
                assert(i < all.len());
                assert(c == all[i]);
                if c != '-' && c != '_' && !char_is_alphanumeric(c) {
                    return false;
                }
                assert(all.skip(i).drop_first() =~= all.skip(i + 1));
                proof {
                    i = i + 1;
                }
            },
        }
    }
}

/// Checks a room or member name.
pub fn validate_name(name: &str) -> (r: Result<(), ValidationError>)
    ensures
        r == name_verdict(name@),
{
    let len: usize = name.len();
    if len < MIN_NAME_LEN {
        Err(ValidationError::NameTooShort { len })
    } else if len > MAX_NAME_LEN {
        Err(ValidationError::NameTooLong { len })
    } else if !has_only_name_chars(name) {
        Err(ValidationError::NameHasSymbols)
    } else {
        Ok(())
    }
}

/// Checks a room description.
pub fn validate_description(description: &str) -> (r: Result<(), ValidationError>)
    ensures
        r == description_verdict(description@),
{
    let len: usize = description.len();
    if description.is_empty() {
        Err(ValidationError::DescriptionEmpty)
    } else if len > MAX_DESCRIPTION_LEN {
        Err(ValidationError::DescriptionTooLong { len })
    } else {
        Ok(())
    }
}

/// Checks a room password.
pub fn validate_password(password: &str) -> (r: Result<(), ValidationError>)
    ensures
        r == password_verdict(password@),
{
    let len: usize = password.len();
    if password.is_empty() {
        Err(ValidationError::PasswordEmpty)
    } else if len > MAX_PASSWORD_LEN {
        Err(ValidationError::PasswordTooLong { len })
    } else {
        Ok(())
    }
}

/// Checks a chat message.
pub fn validate_message(message: &str) -> (r: Result<(), ValidationError>)
    ensures
        r == message_verdict(message@),
{
    let len: usize = message.len();
    if message.is_empty() {
        Err(ValidationError::MessageEmpty)
    } else if len > MAX_MESSAGE_LEN {
        Err(ValidationError::MessageTooLong { len })
    } else {
        Ok(())
    }
}

impl ValidationError {
    /// The text shown to the user for this refusal.
    pub open spec fn text(self) -> Seq<char> {
        match self {
            ValidationError::NameTooShort { len } =>
                "Name must be longer ("@ + decimal(len as nat) + " < "@ + decimal(MIN_NAME_LEN as nat) + ")"@,
            ValidationError::NameTooLong { len } =>
                "Name must be shorter ("@ + decimal(len as nat) + " > "@ + decimal(MAX_NAME_LEN as nat) + ")"@,
            ValidationError::NameHasSymbols => "Symbols and spaces are forbidden ('_' '-' OK)"@,
            ValidationError::DescriptionEmpty => "Description must contain something"@,
            ValidationError::DescriptionTooLong { len } =>
                "Description must be shorter ("@ + decimal(len as nat) + " > "@ + decimal(MAX_DESCRIPTION_LEN as nat) + ")"@,
            ValidationError::PasswordEmpty => "Password must contain something"@,
            ValidationError::PasswordTooLong { len } =>
                "Password must be shorter ("@ + decimal(len as nat) + " > "@ + decimal(MAX_MESSAGE_LEN as nat) + ")"@,
            ValidationError::MessageEmpty => "Message must contain something"@,
            ValidationError::MessageTooLong { len } =>
                "Message must be shorter ("@ + decimal(len as nat) + " > "@ + decimal(MAX_MESSAGE_LEN as nat) + ")"@,
        }
    }

    /// Renders the text shown to the user for this refusal.
    pub fn message(&self) -> (s: String)
        ensures
            s@ == self.text(),
    {
        match self {
            ValidationError::NameTooShort { len } => comparison("Name must be longer (", *len, " < ", MIN_NAME_LEN),
            ValidationError::NameTooLong { len } => comparison("Name must be shorter (", *len, " > ", MAX_NAME_LEN),
            ValidationError::NameHasSymbols => String::from_str("Symbols and spaces are forbidden ('_' '-' OK)"),
            ValidationError::DescriptionEmpty => String::from_str("Description must contain something"),
            ValidationError::DescriptionTooLong { len } =>
                comparison("Description must be shorter (", *len, " > ", MAX_DESCRIPTION_LEN),
            ValidationError::PasswordEmpty => String::from_str("Password must contain something"),
            ValidationError::PasswordTooLong { len } =>
                comparison("Password must be shorter (", *len, " > ", MAX_MESSAGE_LEN),
            ValidationError::MessageEmpty => String::from_str("Message must contain something"),
            ValidationError::MessageTooLong { len } =>
                comparison("Message must be shorter (", *len, " > ", MAX_MESSAGE_LEN),
        }
    }
}

/// `{head}{value}{op}{bound})`
fn comparison(head: &str, value: usize, op: &str, bound: usize) -> (s: String)
    ensures
        s@ == head@ + decimal(value as nat) + op@ + decimal(bound as nat) + ")"@,
{
    let mut s = String::from_str(head);
    let v = decimal_string(value);
    s.append(v.as_str());
    s.append(op);
    let b = decimal_string(bound);
    s.append(b.as_str());
    s.append(")");
    s
}

} // verus!
