//! The store: a map from identifier to person that only ever grows.
//!
//! `get` and `count` take the registry by shared reference, `insert` by
//! exclusive reference. Whatever guards a shared registry therefore has to
//! let any number of readers in together and a writer in alone.

use std::collections::HashMap;
use vstd::prelude::*;
use vstd::std_specs::hash::group_hash_axioms;

use crate::person::{Person, PersonView};

verus! {

broadcast use group_hash_axioms;

/// The answer to a lookup by an identifier that nothing is stored under.
#[derive(Clone, Copy, Debug, PartialEq, Eq, Structural)]
pub struct NotFound;

/// What holds of the contents of every registry: the entries are finitely
/// many, each person is stored under its own identifier, and each keeps to
/// the limits of its fields.
pub open spec fn well_formed(store: Map<u128, PersonView>) -> bool {
    &&& store.dom().finite()
    &&& forall|id: u128| #[trigger]
        store.contains_key(id) ==> store[id].id == id && store[id].is_valid()
}

/// The store after `person` has been added to `store`.
pub open spec fn added(store: Map<u128, PersonView>, person: PersonView) -> Map<u128, PersonView> {
    store.insert(person.id, person)
}

/// The answer of `store` to a lookup by `id`.
pub open spec fn lookup(store: Map<u128, PersonView>, id: u128) -> Result<PersonView, NotFound> {
    if store.contains_key(id) {
        Ok(store[id])
    } else {
        Err(NotFound)
    }
}

/// The persons stored so far, by identifier.
#[derive(Debug)]
pub struct Registry {
    people: HashMap<u128, Person>,
}

impl View for Registry {
    type V = Map<u128, PersonView>;

    closed spec fn view(&self) -> Map<u128, PersonView> {
        Map::new(|id: u128| self.people@.contains_key(id), |id: u128| self.people@[id]@)
    }
}

impl Registry {
    /// A registry that holds nobody.
    pub fn new() -> (registry: Registry)
        ensures
            registry@ == Map::<u128, PersonView>::empty(),
            well_formed(registry@),
    {
        let registry = Registry { people: HashMap::new() };
        assert(registry@ =~= Map::<u128, PersonView>::empty());
        registry
    }

    /// A registry never holds more than finitely many persons.
    pub proof fn lemma_finite(&self)
        ensures
            self@.dom().finite(),
    {
        assert(self@.dom() =~= self.people@.dom());
    }

    /// Whether a person is stored under `id`.
    pub fn contains(&self, id: u128) -> (present: bool)
        ensures
            present == self@.contains_key(id),
    {
        self.people.contains_key(&id)
    }

    /// Adds `person` under its identifier. Every other entry stays as it was,
    /// and a well-formed registry stays well-formed.
    pub fn insert(&mut self, person: Person)
        requires
            !old(self)@.contains_key(person@.id),
        ensures
            final(self)@ == added(old(self)@, person@),
            final(self)@.len() == old(self)@.len() + 1,
            well_formed(old(self)@) ==> well_formed(final(self)@),
    {
        proof {
            use_type_invariant(&person);
        }
        let id = person.id();
        self.people.insert(id, person);
        assert(old(self)@.dom() =~= old(self).people@.dom());
    }

    /// A copy of the person stored under `id`, or `NotFound` if there is none.
    pub fn get(&self, id: u128) -> (found: Result<Person, NotFound>)
        ensures
            match lookup(self@, id) {
                Ok(stored) => found matches Ok(person) && person@ == stored,
                Err(_) => found is Err,
            },
    {
        match self.people.get(&id) {
            Some(person) => Ok(person.clone()),
            None => Err(NotFound),
        }
    }

    /// The number of persons stored.
    pub fn count(&self) -> (count: usize)
        ensures
            count == self@.len(),
    {
        assert(self@.dom() =~= self.people@.dom());
        self.people.len()
    }
}

} // verus!
