//! Laws of the registry, stated over its contents and proved once for all
//! stores.
//!
//! The operations promise their effect in terms of `first_violation`, `added`
//! and `lookup`; what is proved here of those holds of every run of them. A
//! creation takes the registry by exclusive reference, so the creations on
//! one registry happen one after another however many callers issue them at
//! once: a run of creations is a sequence, and the laws on sequences below
//! are the laws of concurrent use.

use vstd::prelude::*;

use crate::date::accepted_date;
use crate::person::{all_fit, first_violation, validated, PersonView, RawPersonView};
use crate::registry::{added, lookup, well_formed, NotFound};
use crate::validation::{ValidationError, MAX_NAME_LEN, MAX_NICK_LEN, MAX_TECH_LEN};

verus! {

/// The store after the persons of `people` have been added to `store` one
/// after another, first to last.
pub open spec fn added_all(store: Map<u128, PersonView>, people: Seq<PersonView>) -> Map<
    u128,
    PersonView,
>
    decreases people.len(),
{
    if people.len() == 0 {
        store
    } else {
        added(added_all(store, people.drop_last()), people.last())
    }
}

/// Whether each person of `people`, at its turn, carries an identifier that
/// is not yet in the store: the condition under which each is stored.
pub open spec fn each_fresh(store: Map<u128, PersonView>, people: Seq<PersonView>) -> bool
    decreases people.len(),
{
    people.len() == 0 || (each_fresh(store, people.drop_last()) && !added_all(
        store,
        people.drop_last(),
    ).contains_key(people.last().id))
}

/// Whether `id` is the identifier of one of `people`.
pub open spec fn issued(people: Seq<PersonView>, id: u128) -> bool {
    exists|i: int| 0 <= i < people.len() && (#[trigger] people[i]).id == id
}

/// The limit of the name: a request is refused for its name exactly when
/// the name is longer than the limit, whatever else it holds.
pub proof fn lemma_name_limit(raw: RawPersonView, parsed: Option<(i32, u8, u8)>)
    ensures
        raw.name.len() > MAX_NAME_LEN <==> first_violation(raw, parsed) == Some(
            ValidationError::NameTooLong,
        ),
{
}

/// The limit of the nickname: a request whose name fits is refused for its
/// nickname exactly when the nickname is longer than the limit.
pub proof fn lemma_nick_limit(raw: RawPersonView, parsed: Option<(i32, u8, u8)>)
    requires
        raw.name.len() <= MAX_NAME_LEN,
    ensures
        raw.nick.len() > MAX_NICK_LEN <==> first_violation(raw, parsed) == Some(
            ValidationError::NickTooLong,
        ),
{
}

/// The limit of a stack entry: one entry longer than the limit, wherever it
/// stands, has the whole request refused.
pub proof fn lemma_long_entry_refused(raw: RawPersonView, parsed: Option<(i32, u8, u8)>, i: int)
    requires
        raw.stack matches Some(stack) && 0 <= i < stack.len() && stack[i].len() > MAX_TECH_LEN,
    ensures
        first_violation(raw, parsed) is Some,
        first_violation(raw, parsed) != Some(ValidationError::MalformedDate),
        raw.name.len() <= MAX_NAME_LEN && raw.nick.len() <= MAX_NICK_LEN
            ==> first_violation(raw, parsed) == Some(ValidationError::TechTooLong),
{
    assert(!all_fit(raw.stack->0));
}

/// A request is accepted exactly when every text keeps to its limit and the
/// birth date read names a day that exists; what is accepted keeps to the
/// limits of a stored person.
pub proof fn lemma_accepted_requests(raw: RawPersonView, parsed: Option<(i32, u8, u8)>)
    ensures
        first_violation(raw, parsed) is None <==> {
            &&& raw.name.len() <= MAX_NAME_LEN
            &&& raw.nick.len() <= MAX_NICK_LEN
            &&& raw.stack matches Some(stack) ==> all_fit(stack)
            &&& accepted_date(parsed) is Some
        },
        first_violation(raw, parsed) is None ==> validated(raw, parsed).is_valid(),
{
}

/// Round trip: a person who has been added is found under its identifier,
/// equal in every field to what was added.
pub proof fn lemma_round_trip(store: Map<u128, PersonView>, person: PersonView)
    ensures
        lookup(added(store, person), person.id) == Ok::<PersonView, NotFound>(person),
{
}

/// Adding a person changes the answer to no lookup but the one by that
/// person's identifier: stored persons are never altered or removed.
pub proof fn lemma_others_untouched(store: Map<u128, PersonView>, person: PersonView, id: u128)
    requires
        id != person.id,
    ensures
        lookup(added(store, person), id) == lookup(store, id),
{
}

/// Adding a person under a fresh identifier raises the count by exactly one.
pub proof fn lemma_count_grows_by_one(store: Map<u128, PersonView>, person: PersonView)
    requires
        store.dom().finite(),
        !store.contains_key(person.id),
    ensures
        added(store, person).dom().finite(),
        added(store, person).len() == store.len() + 1,
{
}

/// Two creations under different identifiers commute: whichever of two
/// callers is let in first, the store ends up the same.
pub proof fn lemma_creations_commute(
    store: Map<u128, PersonView>,
    first: PersonView,
    second: PersonView,
)
    requires
        first.id != second.id,
    ensures
        added(added(store, first), second) == added(added(store, second), first),
{
}

/// Adding a person who keeps to the limits keeps a store well-formed.
pub proof fn lemma_added_well_formed(store: Map<u128, PersonView>, person: PersonView)
    requires
        well_formed(store),
        person.is_valid(),
    ensures
        well_formed(added(store, person)),
{
}

/// The identifiers in a store after a run of additions are those that were
/// there before and those of the persons added.
pub proof fn lemma_identifiers_after(
    store: Map<u128, PersonView>,
    people: Seq<PersonView>,
    id: u128,
)
    ensures
        added_all(store, people).contains_key(id) <==> store.contains_key(id) || issued(people, id),
    decreases people.len(),
{
    if people.len() > 0 {
        let earlier = people.drop_last();
        lemma_identifiers_after(store, earlier, id);
        if issued(earlier, id) {
            let i = choose|i: int| 0 <= i < earlier.len() && (#[trigger] earlier[i]).id == id;
            assert(people[i].id == id);
        }
        if issued(people, id) {
            let i = choose|i: int| 0 <= i < people.len() && (#[trigger] people[i]).id == id;
            if i < earlier.len() {
                assert(earlier[i].id == id);
            }
        }
        if people.last().id == id {
            assert(people[people.len() - 1].id == id);
        }
    }
}

/// Count monotonicity: after any number of creations that each stored a
/// person, the count is the count before plus that number.
pub proof fn lemma_count_after_creations(store: Map<u128, PersonView>, people: Seq<PersonView>)
    requires
        store.dom().finite(),
        each_fresh(store, people),
    ensures
        added_all(store, people).dom().finite(),
        added_all(store, people).len() == store.len() + people.len(),
    decreases people.len(),
{
    if people.len() > 0 {
        lemma_count_after_creations(store, people.drop_last());
        lemma_count_grows_by_one(added_all(store, people.drop_last()), people.last());
    }
}

/// Uniqueness: the persons stored by a run of creations carry identifiers
/// that differ from one another and from every identifier stored before.
pub proof fn lemma_identifiers_distinct(store: Map<u128, PersonView>, people: Seq<PersonView>)
    requires
        each_fresh(store, people),
    ensures
        forall|i: int, j: int|
            0 <= i < j < people.len() ==> (#[trigger] people[i]).id != (#[trigger] people[j]).id,
        forall|i: int| 0 <= i < people.len() ==> !store.contains_key((#[trigger] people[i]).id),
    decreases people.len(),
{
    if people.len() > 0 {
        let earlier = people.drop_last();
        let last = people.last();
        lemma_identifiers_distinct(store, earlier);
        lemma_identifiers_after(store, earlier, last.id);
        assert forall|i: int, j: int| 0 <= i < j < people.len() implies (#[trigger] people[i]).id != (
        #[trigger] people[j]).id by {
            if j < earlier.len() {
                assert(earlier[i].id != earlier[j].id);
            } else {
                assert(earlier[i].id == people[i].id);
            }
        }
        assert forall|i: int| 0 <= i < people.len() implies !store.contains_key(
            (#[trigger] people[i]).id,
        ) by {
            if i < earlier.len() {
                assert(earlier[i].id == people[i].id);
            }
        }
    }
}

/// Every person stored by a run of creations is found afterwards, equal in
/// every field to what was stored.
pub proof fn lemma_all_found(store: Map<u128, PersonView>, people: Seq<PersonView>, i: int)
    requires
        each_fresh(store, people),
        0 <= i < people.len(),
    ensures
        lookup(added_all(store, people), people[i].id) == Ok::<PersonView, NotFound>(people[i]),
    decreases people.len(),
{
    let earlier = people.drop_last();
    if i < earlier.len() {
        lemma_all_found(store, earlier, i);
        lemma_identifiers_after(store, earlier, people.last().id);
        assert(earlier[i] == people[i]);
        assert(issued(earlier, people[i].id));
    }
}

/// Creations by many callers at once: let `people` be the persons returned
/// by a run of creations, in the order in which the callers were let in, each
/// stored because its identifier was not yet in the store. Then the
/// identifiers differ from one another, each person is found afterwards as
/// it was returned, and the count has grown by exactly the number of
/// creations: none is lost and none is counted twice.
pub proof fn lemma_creations_at_once(store: Map<u128, PersonView>, people: Seq<PersonView>)
    requires
        store.dom().finite(),
        each_fresh(store, people),
    ensures
        forall|i: int, j: int|
            0 <= i < j < people.len() ==> (#[trigger] people[i]).id != (#[trigger] people[j]).id,
        forall|i: int|
            0 <= i < people.len() ==> lookup(added_all(store, people), (#[trigger] people[i]).id)
                == Ok::<PersonView, NotFound>(people[i]),
        added_all(store, people).len() == store.len() + people.len(),
{
    lemma_identifiers_distinct(store, people);
    lemma_count_after_creations(store, people);
    assert forall|i: int| 0 <= i < people.len() implies lookup(
        added_all(store, people),
        (#[trigger] people[i]).id,
    ) == Ok::<PersonView, NotFound>(people[i]) by {
        lemma_all_found(store, people, i);
    }
}

/// Unknown identifier: an identifier that was neither stored before nor
/// given to any person created since is answered with `NotFound`.
pub proof fn lemma_unknown_not_found(
    store: Map<u128, PersonView>,
    people: Seq<PersonView>,
    id: u128,
)
    requires
        !store.contains_key(id),
        !issued(people, id),
    ensures
        lookup(added_all(store, people), id) == Err::<PersonView, NotFound>(NotFound),
{
    lemma_identifiers_after(store, people, id);
}

/// A well-formed store stays well-formed through any run of creations of
/// persons who keep to the limits.
pub proof fn lemma_well_formed_after_creations(
    store: Map<u128, PersonView>,
    people: Seq<PersonView>,
)
    requires
        well_formed(store),
        forall|i: int| 0 <= i < people.len() ==> (#[trigger] people[i]).is_valid(),
    ensures
        well_formed(added_all(store, people)),
    decreases people.len(),
{
    if people.len() > 0 {
        let earlier = people.drop_last();
        assert forall|i: int| 0 <= i < earlier.len() implies (#[trigger] earlier[i]).is_valid() by {
            assert(people[i].is_valid());
        }
        lemma_well_formed_after_creations(store, earlier);
        lemma_added_well_formed(added_all(store, earlier), people.last());
    }
}

} // verus!
