//! Listing every entity.
use vstd::prelude::*;

use crate::error::{ServiceError, StorageError};
use crate::pokemon::{views_of, PokemonView};
use crate::pokemon_data::{data_of, PokemonData, PokemonDataView};
use crate::repository::{is_listing, PokemonRepository};

verus! {

/// `ds` lists the transfer objects of exactly the entities of `m`: each once,
/// in any order.
pub open spec fn is_data_listing(ds: Seq<PokemonDataView>, m: Map<int, PokemonView>) -> bool {
    &&& forall|i: int|
        0 <= i < ds.len() ==> m.contains_key(#[trigger] ds[i].number) && ds[i] == data_of(
            m[ds[i].number],
        )
    &&& forall|k: int|
        #[trigger] m.contains_key(k) ==> exists|i: int| 0 <= i < ds.len() && ds[i].number == k
    &&& forall|i: int, j: int|
        0 <= i < j < ds.len() ==> (#[trigger] ds[i]).number != (#[trigger] ds[j]).number
}

/// What listing a store holding `stored` may give: an error when it is empty,
/// otherwise the transfer objects of all its entities.
pub open spec fn list_outcome(
    stored: Map<int, PokemonView>,
    r: Result<Seq<PokemonDataView>, ServiceError>,
) -> bool {
    if stored.dom() == Set::<int>::empty() {
        r == Err::<Seq<PokemonDataView>, ServiceError>(ServiceError::Storage(StorageError::Empty))
    } else {
        r matches Ok(ds) && is_data_listing(ds, stored)
    }
}

/// The view of a use case's result that carries transfer objects.
pub open spec fn data_list_result(r: Result<Vec<PokemonData>, ServiceError>) -> Result<
    Seq<PokemonDataView>,
    ServiceError,
> {
    match r {
        Ok(v) => Ok(Seq::new(v@.len(), |i: int| v@[i]@)),
        Err(e) => Err(e),
    }
}

/// The transfer objects of every stored entity, in the backend's order; an
/// error when nothing is stored.
pub fn list_pokemon<T: PokemonRepository>(repository: &T) -> (r: Result<
    Vec<PokemonData>,
    ServiceError,
>)
    ensures
        list_outcome(repository.stored(), data_list_result(r)),
{
    let ghost m = repository.stored();
    let ps = repository.list();
    let ghost vs = views_of(ps@);
    if ps.len() == 0 {
        assert(m.dom() =~= Set::<int>::empty()) by {
            assert forall|k: int| !m.contains_key(k) by {
                if m.contains_key(k) {
                    let i = choose|i: int| 0 <= i < vs.len() && vs[i].number == k;
                }
            }
        }
        return Err(ServiceError::Storage(StorageError::Empty));
    }
    assert(m.contains_key(vs[0].number));
    assert(m.dom().contains(vs[0].number));
    let mut out: Vec<PokemonData> = Vec::new();
    let mut i: usize = 0;
    while i < ps.len()
        invariant
            vs == views_of(ps@),
            is_listing(vs, m),
            i <= ps@.len(),
            out@.len() == i,
            forall|j: int| 0 <= j < i ==> (#[trigger] out@[j])@ == data_of(vs[j]),
        decreases ps@.len() - i,
    {
        out.push(PokemonData::new(ps[i].clone()));
        i += 1;
    }
    proof {
        let ds = Seq::new(out@.len(), |j: int| out@[j]@);
        assert forall|k: int| #[trigger] m.contains_key(k) implies exists|j: int|
            0 <= j < ds.len() && ds[j].number == k by {
            let j = choose|j: int| 0 <= j < vs.len() && vs[j].number == k;
            assert(ds[j] == data_of(vs[j]));
        }
        assert forall|a: int, b: int| 0 <= a < b < ds.len() implies (#[trigger] ds[a]).number != (
        #[trigger] ds[b]).number by {
            assert(ds[a] == data_of(vs[a]));
            assert(ds[b] == data_of(vs[b]));
        }
        assert(m.dom() != Set::<int>::empty());
        assert(is_data_listing(ds, m));
    }
    Ok(out)
}

/// The list use case over a storage backend.
pub struct PokemonListService<T: PokemonRepository> {
    pokemon_repository: T,
}

impl<T: PokemonRepository> PokemonListService<T> {
    pub fn new(pokemon_repository: T) -> (r: Self)
        ensures
            r.repository() == pokemon_repository,
    {
        Self { pokemon_repository }
    }

    /// The backend that the service works on.
    pub closed spec fn repository(&self) -> T {
        self.pokemon_repository
    }

    /// The transfer objects of every stored entity.
    pub fn handle(&self) -> (r: Result<Vec<PokemonData>, ServiceError>)
        ensures
            list_outcome(self.repository().stored(), data_list_result(r)),
    {
        list_pokemon(&self.pokemon_repository)
    }
}

} // verus!
