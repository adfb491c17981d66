//! Validated text values: a name, a nickname and a technology name.
//!
//! Each type can only be built through `try_from`, which refuses text that is
//! too long and keeps accepted text exactly as it was given: nothing is
//! trimmed or folded, and empty text is accepted. Lengths are counted in
//! characters, that is in Unicode scalar values, not in bytes of an encoding:
//! `ã` counts once.

use vstd::prelude::*;
use vstd::std_specs::convert::{FromSpecImpl, TryFromSpecImpl};
use vstd::string::StrSliceExecFns;

verus! {

/// Why a registration request was refused.
#[derive(Clone, Copy, Debug, PartialEq, Eq, Structural)]
pub enum ValidationError {
    /// The name is longer than [`MAX_NAME_LEN`] characters.
    NameTooLong,
    /// The nickname is longer than [`MAX_NICK_LEN`] characters.
    NickTooLong,
    /// An entry of the stack is longer than [`MAX_TECH_LEN`] characters.
    TechTooLong,
    /// The birth date is not a calendar date written as `YYYY-MM-DD`.
    MalformedDate,
}

impl ValidationError {
    /// The message that goes with the error.
    pub open spec fn message_text(self) -> Seq<char> {
        match self {
            ValidationError::NameTooLong => "name too long"@,
            ValidationError::NickTooLong => "nick too long"@,
            ValidationError::TechTooLong => "tech too long"@,
            ValidationError::MalformedDate => "malformed date"@,
        }
    }

    /// A short message that says which rule was broken.
    pub fn message(&self) -> (text: &'static str)
        ensures
            text@ == self.message_text(),
    {
        match self {
            ValidationError::NameTooLong => "name too long",
            ValidationError::NickTooLong => "nick too long",
            ValidationError::TechTooLong => "tech too long",
            ValidationError::MalformedDate => "malformed date",
        }
    }
}

/// Longest accepted name, in characters.
pub const MAX_NAME_LEN: usize = 100;

/// Longest accepted nickname, in characters.
pub const MAX_NICK_LEN: usize = 32;

/// Longest accepted technology name, in characters.
pub const MAX_TECH_LEN: usize = 32;

/// Measures a text: its length is the number of its characters.
pub fn text_len(text: &str) -> (len: usize)
    ensures
        len == text@.len(),
{
    text.unicode_len()
}

/// A person's name, at most [`MAX_NAME_LEN`] characters long.
#[derive(Debug)]
pub struct PersonName {
    text: String,
}

impl View for PersonName {
    type V = Seq<char>;

    closed spec fn view(&self) -> Seq<char> {
        self.text@
    }
}

impl PersonName {
    /// The invariant of the type: the text keeps to its limit.
    #[verifier::type_invariant]
    pub open spec fn fits(self) -> bool {
        self@.len() <= MAX_NAME_LEN
    }

    /// The name as text.
    pub fn as_str(&self) -> (text: &str)
        ensures
            text@ == self@,
    {
        self.text.as_str()
    }

    /// Gives up the name as an owned string.
    pub fn into_string(self) -> (text: String)
        ensures
            text@ == self@,
    {
        self.text
    }
}

impl TryFromSpecImpl<String> for PersonName {
    open spec fn obeys_try_from_spec() -> bool {
        true
    }

    closed spec fn try_from_spec(raw: String) -> Result<Self, ValidationError> {
        if raw@.len() > MAX_NAME_LEN {
            Err(ValidationError::NameTooLong)
        } else {
            Ok(PersonName { text: raw })
        }
    }
}

impl TryFrom<String> for PersonName {
    type Error = ValidationError;

    /// Accepts `raw` unchanged when it is at most [`MAX_NAME_LEN`] characters long, and
    /// refuses it otherwise.
    fn try_from(raw: String) -> (ret: Result<Self, ValidationError>)
        ensures
            match ret {
                Ok(name) => raw@.len() <= MAX_NAME_LEN && name@ == raw@,
                Err(e) => raw@.len() > MAX_NAME_LEN && e == ValidationError::NameTooLong,
            },
    {
        if text_len(raw.as_str()) > MAX_NAME_LEN {
            return Err(ValidationError::NameTooLong);
        }
        Ok(PersonName { text: raw })
    }
}

impl Clone for PersonName {
    /// An independent copy that holds the same text.
    fn clone(&self) -> (copy: PersonName)
        ensures
            copy@ == self@,
    {
        proof {
            use_type_invariant(self);
        }
        PersonName { text: self.text.clone() }
    }
}

/// A person's nickname, at most [`MAX_NICK_LEN`] characters long.
#[derive(Debug)]
pub struct Nick {
    text: String,
}

impl View for Nick {
    type V = Seq<char>;

    closed spec fn view(&self) -> Seq<char> {
        self.text@
    }
}

impl Nick {
    /// The invariant of the type: the text keeps to its limit.
    #[verifier::type_invariant]
    pub open spec fn fits(self) -> bool {
        self@.len() <= MAX_NICK_LEN
    }

    /// The nickname as text.
    pub fn as_str(&self) -> (text: &str)
        ensures
            text@ == self@,
    {
        self.text.as_str()
    }

    /// Gives up the nickname as an owned string.
    pub fn into_string(self) -> (text: String)
        ensures
            text@ == self@,
    {
        self.text
    }
}

impl TryFromSpecImpl<String> for Nick {
    open spec fn obeys_try_from_spec() -> bool {
        true
    }

    closed spec fn try_from_spec(raw: String) -> Result<Self, ValidationError> {
        if raw@.len() > MAX_NICK_LEN {
            Err(ValidationError::NickTooLong)
        } else {
            Ok(Nick { text: raw })
        }
    }
}

impl TryFrom<String> for Nick {
    type Error = ValidationError;

    /// Accepts `raw` unchanged when it is at most [`MAX_NICK_LEN`] characters long, and
    /// refuses it otherwise.
    fn try_from(raw: String) -> (ret: Result<Self, ValidationError>)
        ensures
            match ret {
                Ok(nick) => raw@.len() <= MAX_NICK_LEN && nick@ == raw@,
                Err(e) => raw@.len() > MAX_NICK_LEN && e == ValidationError::NickTooLong,
            },
    {
        if text_len(raw.as_str()) > MAX_NICK_LEN {
            return Err(ValidationError::NickTooLong);
        }
        Ok(Nick { text: raw })
    }
}

impl Clone for Nick {
    /// An independent copy that holds the same text.
    fn clone(&self) -> (copy: Nick)
        ensures
            copy@ == self@,
    {
        proof {
            use_type_invariant(self);
        }
        Nick { text: self.text.clone() }
    }
}

/// The name of a technology, at most [`MAX_TECH_LEN`] characters long.
#[derive(Debug)]
pub struct Tech {
    text: String,
}

impl View for Tech {
    type V = Seq<char>;

    closed spec fn view(&self) -> Seq<char> {
        self.text@
    }
}

impl Tech {
    /// The invariant of the type: the text keeps to its limit.
    #[verifier::type_invariant]
    pub open spec fn fits(self) -> bool {
        self@.len() <= MAX_TECH_LEN
    }

    /// The technology name as text.
    pub fn as_str(&self) -> (text: &str)
        ensures
            text@ == self@,
    {
        self.text.as_str()
    }
}

impl TryFromSpecImpl<String> for Tech {
    open spec fn obeys_try_from_spec() -> bool {
        true
    }

    closed spec fn try_from_spec(raw: String) -> Result<Self, ValidationError> {
        if raw@.len() > MAX_TECH_LEN {
            Err(ValidationError::TechTooLong)
        } else {
            Ok(Tech { text: raw })
        }
    }
}

impl TryFrom<String> for Tech {
    type Error = ValidationError;

    /// Accepts `raw` unchanged when it is at most [`MAX_TECH_LEN`] characters long, and
    /// refuses it otherwise.
    fn try_from(raw: String) -> (ret: Result<Self, ValidationError>)
        ensures
            match ret {
                Ok(tech) => raw@.len() <= MAX_TECH_LEN && tech@ == raw@,
                Err(e) => raw@.len() > MAX_TECH_LEN && e == ValidationError::TechTooLong,
            },
    {
        if text_len(raw.as_str()) > MAX_TECH_LEN {
            return Err(ValidationError::TechTooLong);
        }
        Ok(Tech { text: raw })
    }
}

impl Clone for Tech {
    /// An independent copy that holds the same text.
    fn clone(&self) -> (copy: Tech)
        ensures
            copy@ == self@,
    {
        proof {
            use_type_invariant(self);
        }
        Tech { text: self.text.clone() }
    }
}

impl FromSpecImpl<Tech> for String {
    open spec fn obeys_from_spec() -> bool {
        true
    }

    closed spec fn from_spec(tech: Tech) -> String {
        tech.text
    }
}

impl From<Tech> for String {
    /// Gives up the technology name as an owned string.
    fn from(tech: Tech) -> (text: String)
        ensures
            text@ == tech@,
    {
        tech.text
    }
}

} // verus!
