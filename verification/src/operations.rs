//! What the registry is used for: creating a person from a raw request,
//! finding a person by identifier, and counting the persons stored.

use vstd::prelude::*;

use crate::date::{parsed_date, WIRE_FORMAT};
use crate::identifier::{is_version_7, now_v7};
use crate::person::{first_violation, validated, NewPerson, Person, RawPerson};
use crate::registry::{added, lookup, well_formed, NotFound, Registry};
use crate::validation::ValidationError;

verus! {

/// Why no person was created.
#[derive(Clone, Copy, Debug, PartialEq, Eq, Structural)]
pub enum CreateError {
    /// The request broke a rule; nothing was minted or stored.
    Rejected(ValidationError),
    /// The request was sound, but the identifier minted for it already names
    /// a stored person, who is left as stored.
    IdentifierTaken { id: u128 },
}

/// Status of an answer that carries what was asked for.
pub const STATUS_OK: u16 = 200;

/// Status of a lookup by an identifier that nothing is stored under.
pub const STATUS_NOT_FOUND: u16 = 404;

/// Status of a request that broke a validation rule.
pub const STATUS_UNPROCESSABLE: u16 = 422;

/// Status of a request that failed through no fault of the caller.
pub const STATUS_INTERNAL_ERROR: u16 = 500;

/// Stores a validated request under the identifier `id`, unless a person is
/// already stored under it. Returns the person as stored.
pub fn create_person_with_id(registry: &mut Registry, new_person: NewPerson, id: u128) -> (created:
    Option<Person>)
    ensures
        match created {
            Some(person) => {
                &&& !old(registry)@.contains_key(id)
                &&& person@ == new_person@.with_id(id)
                &&& final(registry)@ == added(old(registry)@, person@)
                &&& final(registry)@.len() == old(registry)@.len() + 1
            },
            None => old(registry)@.contains_key(id) && final(registry)@ == old(registry)@,
        },
        well_formed(old(registry)@) ==> well_formed(final(registry)@),
{
    if registry.contains(id) {
        return None;
    }
    let person = Person::assemble(id, new_person);
    let stored = person.clone();
    registry.insert(stored);
    Some(person)
}

/// Creates a person from a raw request.
///
/// The request is validated first; a request that breaks a rule is refused
/// with the first rule it breaks and leaves the registry untouched. For a
/// sound request an identifier is minted by the `uuid` crate, and the person
/// assembled from the request and the identifier is stored and returned.
/// Should the minted identifier already be taken, nothing is stored and the
/// error names the identifier. A sound request therefore always succeeds on
/// a registry that holds no version 7 identifier, an empty one above all.
pub fn create_person(registry: &mut Registry, raw: RawPerson) -> (outcome: Result<
    Person,
    CreateError,
>)
    ensures
        match first_violation(raw@, parsed_date(WIRE_FORMAT@, raw@.birth_date)) {
            Some(e) => {
                &&& outcome matches Err(got)
                &&& got == CreateError::Rejected(e)
                &&& final(registry)@ == old(registry)@
            },
            None => match outcome {
                Ok(person) => {
                    &&& person@.details() == validated(
                        raw@,
                        parsed_date(WIRE_FORMAT@, raw@.birth_date),
                    )
                    &&& is_version_7(person@.id)
                    &&& !old(registry)@.contains_key(person@.id)
                    &&& final(registry)@ == added(old(registry)@, person@)
                    &&& final(registry)@.len() == old(registry)@.len() + 1
                },
                Err(CreateError::IdentifierTaken { id }) => {
                    &&& is_version_7(id)
                    &&& old(registry)@.contains_key(id)
                    &&& final(registry)@ == old(registry)@
                },
                Err(CreateError::Rejected(_)) => false,
            },
        },
        first_violation(raw@, parsed_date(WIRE_FORMAT@, raw@.birth_date)) is None && (forall|
            id: u128,
        | #[trigger] old(registry)@.contains_key(id) ==> !is_version_7(id)) ==> outcome is Ok,
        well_formed(old(registry)@) ==> well_formed(final(registry)@),
{
    let new_person = match NewPerson::validate(raw) {
        Ok(new_person) => new_person,
        Err(e) => {
            return Err(CreateError::Rejected(e));
        },
    };
    let id = now_v7();
    match create_person_with_id(registry, new_person, id) {
        Some(person) => Ok(person),
        None => Err(CreateError::IdentifierTaken { id }),
    }
}

/// Finds the person stored under `id`.
pub fn find_person(registry: &Registry, id: u128) -> (found: Result<Person, NotFound>)
    ensures
        match lookup(registry@, id) {
            Ok(stored) => found matches Ok(person) && person@ == stored,
            Err(_) => found is Err,
        },
{
    registry.get(id)
}

/// Counts the persons stored.
pub fn count_people(registry: &Registry) -> (count: usize)
    ensures
        count == registry@.len(),
{
    registry.count()
}

/// The status under which the outcome of a creation is answered.
pub fn create_status(outcome: &Result<Person, CreateError>) -> (status: u16)
    ensures
        status == match outcome {
            Ok(_) => STATUS_OK,
            Err(CreateError::Rejected(_)) => STATUS_UNPROCESSABLE,
            Err(CreateError::IdentifierTaken { .. }) => STATUS_INTERNAL_ERROR,
        },
{
    match outcome {
        Ok(_) => STATUS_OK,
        Err(CreateError::Rejected(_)) => STATUS_UNPROCESSABLE,
        Err(CreateError::IdentifierTaken { .. }) => STATUS_INTERNAL_ERROR,
    }
}

/// The status under which the outcome of a lookup is answered.
pub fn find_status(found: &Result<Person, NotFound>) -> (status: u16)
    ensures
        status == match found {
            Ok(_) => STATUS_OK,
            Err(_) => STATUS_NOT_FOUND,
        },
{
    match found {
        Ok(_) => STATUS_OK,
        Err(_) => STATUS_NOT_FOUND,
    }
}

} // verus!
