//! What the use cases require of a storage backend.
use vstd::prelude::*;

use crate::error::StorageError;
use crate::pokemon::{views_of, Pokemon, PokemonView};
use crate::pokemon_number::PokemonNumber;

verus! {

/// `ps` lists exactly the entities of `m`: each once, each under its own
/// number, in any order.
pub open spec fn is_listing(ps: Seq<PokemonView>, m: Map<int, PokemonView>) -> bool {
    &&& forall|i: int|
        0 <= i < ps.len() ==> m.contains_key(#[trigger] ps[i].number) && m[ps[i].number] == ps[i]
    &&& forall|k: int|
        #[trigger] m.contains_key(k) ==> exists|i: int| 0 <= i < ps.len() && ps[i].number == k
    &&& forall|i: int, j: int|
        0 <= i < j < ps.len() ==> (#[trigger] ps[i]).number != (#[trigger] ps[j]).number
}

/// A store of entities keyed by number. Backends implement the five
/// operations; `exists_pokemon` is derived from `find_by_number`.
pub trait PokemonRepository {
    /// The stored entities, by number. A backend that Verus does not see (one
    /// outside this crate) keeps this default, of which nothing is known.
    closed spec fn stored(&self) -> Map<int, PokemonView> {
        vstd::pervasive::arbitrary()
    }

    /// The entity stored under `number`, if any.
    fn find_by_number(&self, number: &PokemonNumber) -> (r: Option<Pokemon>)
        ensures
            match r {
                Some(p) => self.stored().contains_key(number@) && p@ == self.stored()[number@],
                None => !self.stored().contains_key(number@),
            },
    ;

    /// Every stored entity, in the backend's order.
    fn list(&self) -> (r: Vec<Pokemon>)
        ensures
            is_listing(views_of(r@), self.stored()),
    ;

    /// Stores a new entity. On failure nothing changes.
    fn insert(&mut self, pokemon: &Pokemon) -> (r: Result<(), StorageError>)
        ensures
            r is Ok ==> final(self).stored() == old(self).stored().insert(pokemon@.number, pokemon@),
            r is Err ==> final(self).stored() == old(self).stored(),
    ;

    /// Replaces the entity that has the same number. An absent number is
    /// never added. On failure nothing changes.
    fn update(&mut self, pokemon: &Pokemon) -> (r: Result<(), StorageError>)
        ensures
            r is Ok ==> final(self).stored() == (if old(self).stored().contains_key(pokemon@.number) {
                old(self).stored().insert(pokemon@.number, pokemon@)
            } else {
                old(self).stored()
            }),
            r is Err ==> final(self).stored() == old(self).stored(),
    ;

    /// Removes the entity stored under `number`; an absent number is no
    /// error. On failure nothing changes.
    fn delete(&mut self, number: &PokemonNumber) -> (r: Result<(), StorageError>)
        ensures
            r is Ok ==> final(self).stored() == old(self).stored().remove(number@),
            r is Err ==> final(self).stored() == old(self).stored(),
    ;

    /// Whether an entity with the number of `pokemon` is stored.
    fn exists_pokemon(&self, pokemon: &Pokemon) -> (r: bool)
        ensures
            r == self.stored().contains_key(pokemon@.number),
    {
        match self.find_by_number(&pokemon.number) {
            Some(_) => true,
            None => false,
        }
    }
}

} // verus!
