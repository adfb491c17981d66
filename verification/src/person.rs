//! The person record and the two forms a registration request takes on its
//! way to becoming one: raw text as it came from the caller, and validated
//! values.

use vstd::prelude::*;

use crate::date::{
    accepted_date, is_calendar_date, parsed_date, read_date, BirthDate, CalendarDate, WIRE_FORMAT,
};
use crate::validation::{
    Nick, PersonName, Tech, ValidationError, MAX_NAME_LEN, MAX_NICK_LEN, MAX_TECH_LEN,
};

verus! {

/// The texts held by a sequence of strings.
pub open spec fn texts(strings: Seq<String>) -> Seq<Seq<char>> {
    Seq::new(strings.len(), |i: int| strings[i]@)
}

/// The texts held by a sequence of technology names.
pub open spec fn tech_texts(techs: Seq<Tech>) -> Seq<Seq<char>> {
    Seq::new(techs.len(), |i: int| techs[i]@)
}

/// Whether every text of `stack` is short enough for a technology name.
pub open spec fn all_fit(stack: Seq<Seq<char>>) -> bool {
    forall|i: int| 0 <= i < stack.len() ==> (#[trigger] stack[i]).len() <= MAX_TECH_LEN
}

/// A registration request as it came from the caller.
pub struct RawPersonView {
    pub name: Seq<char>,
    pub nick: Seq<char>,
    pub birth_date: Seq<char>,
    pub stack: Option<Seq<Seq<char>>>,
}

/// A registration request whose fields have all been accepted.
pub struct NewPersonView {
    pub name: Seq<char>,
    pub nick: Seq<char>,
    pub birth_date: CalendarDate,
    pub stack: Option<Seq<Seq<char>>>,
}

/// A stored person.
pub struct PersonView {
    pub id: u128,
    pub name: Seq<char>,
    pub nick: Seq<char>,
    pub birth_date: CalendarDate,
    pub stack: Option<Seq<Seq<char>>>,
}

impl NewPersonView {
    /// Whether every field keeps to its limit.
    pub open spec fn is_valid(self) -> bool {
        &&& self.name.len() <= MAX_NAME_LEN
        &&& self.nick.len() <= MAX_NICK_LEN
        &&& is_calendar_date(self.birth_date.year, self.birth_date.month, self.birth_date.day)
        &&& self.stack matches Some(stack) ==> all_fit(stack)
    }

    /// The person that this request becomes under the identifier `id`.
    pub open spec fn with_id(self, id: u128) -> PersonView {
        PersonView {
            id,
            name: self.name,
            nick: self.nick,
            birth_date: self.birth_date,
            stack: self.stack,
        }
    }
}

impl PersonView {
    /// The request that this person was made from.
    pub open spec fn details(self) -> NewPersonView {
        NewPersonView {
            name: self.name,
            nick: self.nick,
            birth_date: self.birth_date,
            stack: self.stack,
        }
    }

    /// Whether every field keeps to its limit.
    pub open spec fn is_valid(self) -> bool {
        self.details().is_valid()
    }
}

/// The first rule that a raw request breaks, if it breaks any. The rules are
/// tried in this order: the name, the nickname, the entries of the stack from
/// first to last, the birth date. `parsed` is what was read from the birth
/// date's text.
pub open spec fn first_violation(raw: RawPersonView, parsed: Option<(i32, u8, u8)>) -> Option<
    ValidationError,
> {
    if raw.name.len() > MAX_NAME_LEN {
        Some(ValidationError::NameTooLong)
    } else if raw.nick.len() > MAX_NICK_LEN {
        Some(ValidationError::NickTooLong)
    } else if raw.stack is Some && !all_fit(raw.stack->0) {
        Some(ValidationError::TechTooLong)
    } else if accepted_date(parsed) is None {
        Some(ValidationError::MalformedDate)
    } else {
        None
    }
}

/// The validated form of a raw request that breaks no rule: every text
/// unchanged, and the date that was read.
pub open spec fn validated(raw: RawPersonView, parsed: Option<(i32, u8, u8)>) -> NewPersonView
    recommends
        first_violation(raw, parsed) is None,
{
    NewPersonView {
        name: raw.name,
        nick: raw.nick,
        birth_date: accepted_date(parsed)->0,
        stack: raw.stack,
    }
}

/// A registration request as it came from the caller: nothing has been
/// checked yet.
#[derive(Debug)]
pub struct RawPerson {
    pub name: String,
    pub nick: String,
    pub birth_date: String,
    pub stack: Option<Vec<String>>,
}

impl View for RawPerson {
    type V = RawPersonView;

    open spec fn view(&self) -> RawPersonView {
        RawPersonView {
            name: self.name@,
            nick: self.nick@,
            birth_date: self.birth_date@,
            stack: match self.stack {
                Some(stack) => Some(texts(stack@)),
                None => None,
            },
        }
    }
}

/// A registration request whose fields have all been accepted.
#[derive(Debug)]
pub struct NewPerson {
    pub name: PersonName,
    pub nick: Nick,
    pub birth_date: BirthDate,
    pub stack: Option<Vec<Tech>>,
}

impl View for NewPerson {
    type V = NewPersonView;

    open spec fn view(&self) -> NewPersonView {
        NewPersonView {
            name: self.name@,
            nick: self.nick@,
            birth_date: self.birth_date@,
            stack: match self.stack {
                Some(stack) => Some(tech_texts(stack@)),
                None => None,
            },
        }
    }
}

/// Validates the entries of a stack from first to last, stopping at the
/// first that is too long.
fn validate_stack(stack: Vec<String>) -> (checked: Result<Vec<Tech>, ValidationError>)
    ensures
        match checked {
            Ok(techs) => all_fit(texts(stack@)) && tech_texts(techs@) == texts(stack@),
            Err(e) => !all_fit(texts(stack@)) && e == ValidationError::TechTooLong,
        },
{
    let mut techs: Vec<Tech> = Vec::new();
    for raw in it: stack
        invariant
            it.seq() == stack@,
            techs@.len() == it.index(),
            forall|j: int| 0 <= j < it.index() ==> (#[trigger] techs@[j])@ == stack@[j]@,
            forall|j: int| 0 <= j < it.index() ==> (#[trigger] stack@[j]@).len() <= MAX_TECH_LEN,
    {
        match Tech::try_from(raw) {
            Ok(tech) => {
                techs.push(tech);
            },
            Err(e) => {
                assert(texts(stack@)[it.index() as int].len() > MAX_TECH_LEN);
                return Err(e);
            },
        }
    }
    Ok(techs)
}

impl Clone for NewPerson {
    /// An independent copy, equal to the request in every field.
    fn clone(&self) -> (copy: NewPerson)
        ensures
            copy@ == self@,
    {
        let stack = match &self.stack {
            Some(techs) => {
                let copied = techs.clone();
                assert(tech_texts(copied@) =~= tech_texts(techs@));
                Some(copied)
            },
            None => None,
        };
        NewPerson {
            name: self.name.clone(),
            nick: self.nick.clone(),
            birth_date: self.birth_date,
            stack,
        }
    }
}

impl NewPerson {
    /// Validates a raw request whose birth date has already been read.
    ///
    /// `parsed` is what reading `raw.birth_date` gave. The request is refused
    /// with the first rule it breaks, in the order of [`first_violation`];
    /// otherwise every text is kept unchanged.
    pub fn validate_with_date(raw: RawPerson, parsed: Option<(i32, u8, u8)>) -> (checked: Result<
        NewPerson,
        ValidationError,
    >)
        ensures
            match first_violation(raw@, parsed) {
                Some(e) => checked matches Err(got) && got == e,
                None => checked matches Ok(new_person) && new_person@ == validated(raw@, parsed),
            },
    {
        let RawPerson { name, nick, birth_date: _, stack } = raw;
        let name = match PersonName::try_from(name) {
            Ok(name) => name,
            Err(e) => {
                return Err(e);
            },
        };
        let nick = match Nick::try_from(nick) {
            Ok(nick) => nick,
            Err(e) => {
                return Err(e);
            },
        };
        let stack = match stack {
            Some(stack) => match validate_stack(stack) {
                Ok(techs) => Some(techs),
                Err(e) => {
                    return Err(e);
                },
            },
            None => None,
        };
        let birth_date = match BirthDate::from_parsed(parsed) {
            Ok(birth_date) => birth_date,
            Err(e) => {
                return Err(e);
            },
        };
        Ok(NewPerson { name, nick, birth_date, stack })
    }

    /// Validates a raw request.
    ///
    /// The birth date is read by the `time` crate against [`WIRE_FORMAT`];
    /// see [`NewPerson::validate_with_date`] for the rest.
    pub fn validate(raw: RawPerson) -> (checked: Result<NewPerson, ValidationError>)
        ensures
            match first_violation(raw@, parsed_date(WIRE_FORMAT@, raw@.birth_date)) {
                Some(e) => checked matches Err(got) && got == e,
                None => checked matches Ok(new_person) && new_person@ == validated(
                    raw@,
                    parsed_date(WIRE_FORMAT@, raw@.birth_date),
                ),
            },
    {
        let parsed = read_date(raw.birth_date.as_str(), WIRE_FORMAT);
        NewPerson::validate_with_date(raw, parsed)
    }
}

/// Unwraps the entries of a validated stack, keeping their order.
fn unwrap_stack(stack: Vec<Tech>) -> (strings: Vec<String>)
    ensures
        texts(strings@) == tech_texts(stack@),
        all_fit(texts(strings@)),
{
    let mut strings: Vec<String> = Vec::new();
    for tech in it: stack
        invariant
            it.seq() == stack@,
            strings@.len() == it.index(),
            forall|j: int| 0 <= j < it.index() ==> (#[trigger] strings@[j])@ == stack@[j]@,
            forall|j: int| 0 <= j < it.index() ==> (#[trigger] stack@[j]@).len() <= MAX_TECH_LEN,
    {
        proof {
            use_type_invariant(&tech);
        }
        strings.push(String::from(tech));
    }
    strings
}

/// A stored person. A person is assembled once, from validated values and an
/// identifier, and cannot be changed afterwards.
#[derive(Debug)]
pub struct Person {
    id: u128,
    name: String,
    nick: String,
    birth_date: BirthDate,
    stack: Option<Vec<String>>,
}

impl View for Person {
    type V = PersonView;

    closed spec fn view(&self) -> PersonView {
        PersonView {
            id: self.id,
            name: self.name@,
            nick: self.nick@,
            birth_date: self.birth_date@,
            stack: match self.stack {
                Some(stack) => Some(texts(stack@)),
                None => None,
            },
        }
    }
}

impl Person {
    /// The invariant of the type: every field keeps to its limit.
    #[verifier::type_invariant]
    pub open spec fn keeps_limits(self) -> bool {
        self@.is_valid()
    }

    /// Assembles a person from a validated request and an identifier.
    pub fn assemble(id: u128, new_person: NewPerson) -> (person: Person)
        ensures
            person@ == new_person@.with_id(id),
    {
        let NewPerson { name, nick, birth_date, stack } = new_person;
        proof {
            use_type_invariant(&name);
            use_type_invariant(&nick);
            use_type_invariant(&birth_date);
        }
        let stack = match stack {
            Some(techs) => Some(unwrap_stack(techs)),
            None => None,
        };
        Person { id, name: name.into_string(), nick: nick.into_string(), birth_date, stack }
    }

    /// The identifier under which the person is stored.
    pub fn id(&self) -> (id: u128)
        ensures
            id == self@.id,
    {
        self.id
    }

    /// The name.
    pub fn name(&self) -> (name: &str)
        ensures
            name@ == self@.name,
    {
        self.name.as_str()
    }

    /// The nickname.
    pub fn nick(&self) -> (nick: &str)
        ensures
            nick@ == self@.nick,
    {
        self.nick.as_str()
    }

    /// The date of birth.
    pub fn birth_date(&self) -> (birth_date: BirthDate)
        ensures
            birth_date@ == self@.birth_date,
    {
        self.birth_date
    }

    /// The technologies the person works with, if any were given. A stack
    /// that was given empty is still a stack.
    pub fn stack(&self) -> (stack: Option<&Vec<String>>)
        ensures
            match stack {
                Some(entries) => self@.stack == Some(texts(entries@)),
                None => self@.stack is None,
            },
    {
        self.stack.as_ref()
    }
}

impl Clone for Person {
    /// An independent copy, equal to the person in every field.
    fn clone(&self) -> (copy: Person)
        ensures
            copy@ == self@,
    {
        proof {
            use_type_invariant(self);
        }
        let stack = match &self.stack {
            Some(entries) => Some(entries.clone()),
            None => None,
        };
        Person {
            id: self.id,
            name: self.name.clone(),
            nick: self.nick.clone(),
            birth_date: self.birth_date,
            stack,
        }
    }
}

} // verus!
