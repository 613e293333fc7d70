//! Properties that relate the use cases to each other and to the store.
use vstd::prelude::*;

use crate::delete_service::delete_outcome;
use crate::error::{ServiceError, StorageError};
use crate::get_service::get_outcome;
use crate::list_service::{is_data_listing, list_outcome};
use crate::pokemon::PokemonView;
use crate::pokemon_data::{data_of, validated, PokemonDataView};
use crate::pokemon_name::unset_name;
use crate::pokemon_number::valid_number;
use crate::pokemon_type::{name_of_type, type_of_name};
use crate::pokemon_types::{all_known, names_of_types, types_of_names, unset_types};
use crate::register_service::register_outcome;
use crate::update_service::{update_outcome, UpdateCommandView};

verus! {

/// Writing recognised tags as types and back gives the same tags.
pub proof fn lemma_type_names_round_trip(ts: Seq<Seq<char>>)
    requires
        all_known(ts),
    ensures
        names_of_types(types_of_names(ts)) == ts,
{
    assert forall|i: int| 0 <= i < ts.len() implies name_of_type(
        #[trigger] types_of_names(ts)[i],
    ) == ts[i] by {
        assert(type_of_name(ts[i]) is Some);
    }
    assert(names_of_types(types_of_names(ts)) =~= ts);
}

/// Valid data projects back to itself: the entity that validation makes has
/// exactly that data as its transfer object.
pub proof fn lemma_data_round_trip(d: PokemonDataView)
    requires
        validated(d) is Ok,
    ensures
        data_of(validated(d)->Ok_0) == d,
{
    lemma_type_names_round_trip(d.types);
}

/// Once valid data is registered, registering data with the same number again
/// is refused as a conflict and leaves the store as it was.
pub proof fn lemma_register_twice_conflicts(
    s0: Map<int, PokemonView>,
    d1: PokemonDataView,
    r1: Result<(), ServiceError>,
    s1: Map<int, PokemonView>,
    d2: PokemonDataView,
    r2: Result<(), ServiceError>,
    s2: Map<int, PokemonView>,
)
    requires
        register_outcome(s0, d1, r1, s1),
        r1 is Ok,
        register_outcome(s1, d2, r2, s2),
        validated(d2) is Ok,
        d2.number == d1.number,
    ensures
        r2 == Err::<(), ServiceError>(ServiceError::Conflict),
        s2 == s1,
{
    assert(s1.contains_key(d1.number));
}

/// Registering valid data under a number that is not stored is never refused:
/// either exactly that entity is added, or the backend fails and the store
/// stays as it was.
pub proof fn lemma_register_new_number(
    s0: Map<int, PokemonView>,
    d: PokemonDataView,
    r: Result<(), ServiceError>,
    s1: Map<int, PokemonView>,
)
    requires
        register_outcome(s0, d, r, s1),
        validated(d) is Ok,
        !s0.contains_key(d.number),
    ensures
        r is Ok ==> s1 == s0.insert(d.number, validated(d)->Ok_0),
        r is Err ==> (r matches Err(ServiceError::Storage(_)) && s1 == s0),
{
}

/// Looking up a valid number that is not stored fails with `NotFound`.
pub proof fn lemma_get_unregistered(s: Map<int, PokemonView>, n: int)
    requires
        valid_number(n),
        !s.contains_key(n),
    ensures
        get_outcome(s, n) == Err::<PokemonDataView, ServiceError>(ServiceError::NotFound),
{
}

/// After a successful registration, looking up its number gives back exactly
/// the data that was registered.
pub proof fn lemma_get_after_register(
    s0: Map<int, PokemonView>,
    d: PokemonDataView,
    r: Result<(), ServiceError>,
    s1: Map<int, PokemonView>,
)
    requires
        register_outcome(s0, d, r, s1),
        r is Ok,
    ensures
        get_outcome(s1, d.number) == Ok::<PokemonDataView, ServiceError>(d),
{
    lemma_data_round_trip(d);
}

/// Updating a stored entity with neither field given stores the placeholder
/// name and the placeholder types under the same number.
pub proof fn lemma_update_without_fields(
    s0: Map<int, PokemonView>,
    c: UpdateCommandView,
    r: Result<PokemonView, ServiceError>,
    s1: Map<int, PokemonView>,
)
    requires
        update_outcome(s0, c, r, s1),
        valid_number(c.number),
        s0.contains_key(c.number),
        c.name is None,
        c.types is None,
    ensures
        ({
            let p = PokemonView { number: c.number, name: unset_name(), types: unset_types() };
            &&& r matches Ok(q) ==> q == p && s1 == s0.insert(c.number, p)
            &&& r is Err ==> (r matches Err(ServiceError::Storage(_)) && s1 == s0)
        }),
{
}

/// Updating a stored entity with a valid name and valid types stores exactly
/// those, in the order given, under the same number.
pub proof fn lemma_update_with_fields(
    s0: Map<int, PokemonView>,
    c: UpdateCommandView,
    r: Result<PokemonView, ServiceError>,
    s1: Map<int, PokemonView>,
)
    requires
        update_outcome(s0, c, r, s1),
        valid_number(c.number),
        s0.contains_key(c.number),
        c.name matches Some(s) && s.len() > 0,
        c.types matches Some(ts) && ts.len() > 0 && all_known(ts),
    ensures
        ({
            let p = PokemonView {
                number: c.number,
                name: c.name->Some_0,
                types: types_of_names(c.types->Some_0),
            };
            &&& r matches Ok(q) ==> q == p && s1 == s0.insert(c.number, p)
            &&& r is Err ==> (r matches Err(ServiceError::Storage(_)) && s1 == s0)
        }),
{
}

/// A successful delete leaves nothing under the number: a later lookup fails
/// with `NotFound`.
pub proof fn lemma_delete_then_get(
    s0: Map<int, PokemonView>,
    n: int,
    r: Result<(), ServiceError>,
    s1: Map<int, PokemonView>,
)
    requires
        delete_outcome(s0, n, r, s1),
        valid_number(n),
        r is Ok,
    ensures
        !s1.contains_key(n),
        get_outcome(s1, n) == Err::<PokemonDataView, ServiceError>(ServiceError::NotFound),
{
}

/// Deleting a valid number that is not stored succeeds and changes nothing.
pub proof fn lemma_delete_absent(
    s0: Map<int, PokemonView>,
    n: int,
    r: Result<(), ServiceError>,
    s1: Map<int, PokemonView>,
)
    requires
        delete_outcome(s0, n, r, s1),
        valid_number(n),
        !s0.contains_key(n),
    ensures
        r is Ok,
        s1 == s0,
{
}

/// Listing an empty store is an error; listing a store with at least one
/// entity gives the transfer objects of exactly its entities.
pub proof fn lemma_list(s: Map<int, PokemonView>, r: Result<Seq<PokemonDataView>, ServiceError>)
    requires
        list_outcome(s, r),
    ensures
        s.dom() == Set::<int>::empty() ==> r == Err::<Seq<PokemonDataView>, ServiceError>(
            ServiceError::Storage(StorageError::Empty),
        ),
        s.dom() != Set::<int>::empty() ==> (r matches Ok(ds) && is_data_listing(ds, s)),
{
}

} // verus!
