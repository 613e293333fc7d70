//! Deleting an entity.
use vstd::prelude::*;

use crate::error::ServiceError;
use crate::pokemon::PokemonView;
use crate::pokemon_number::{parse_number, PokemonNumber};
use crate::repository::PokemonRepository;

verus! {

/// What deleting `number` from a store holding `before` may give: the result
/// `r` and the store `after`. Deleting an absent number succeeds.
pub open spec fn delete_outcome(
    before: Map<int, PokemonView>,
    number: int,
    r: Result<(), ServiceError>,
    after: Map<int, PokemonView>,
) -> bool {
    match parse_number(number) {
        Err(e) => r == Err::<(), ServiceError>(ServiceError::Validation(e)) && after == before,
        Ok(k) => if !before.contains_key(k) {
            r is Ok && after == before
        } else {
            match r {
                Ok(_) => after == before.remove(k),
                Err(ServiceError::Storage(_)) => after == before,
                Err(_) => false,
            }
        },
    }
}

/// Removes the entity stored under `number`, if there is one.
pub fn delete_pokemon<T: PokemonRepository>(repository: &mut T, number: i32) -> (r: Result<
    (),
    ServiceError,
>)
    ensures
        delete_outcome(old(repository).stored(), number as int, r, final(repository).stored()),
{
    let target_no = match PokemonNumber::try_from(number) {
        Ok(n) => n,
        Err(e) => return Err(ServiceError::Validation(e)),
    };
    match repository.find_by_number(&target_no) {
        Some(_) => match repository.delete(&target_no) {
            Ok(()) => Ok(()),
            Err(e) => Err(ServiceError::Storage(e)),
        },
        None => Ok(()),
    }
}

/// The delete use case over a storage backend.
pub struct PokemonDeleteService<T: PokemonRepository> {
    pokemon_repository: T,
}

impl<T: PokemonRepository> PokemonDeleteService<T> {
    pub fn new(pokemon_repository: T) -> (r: Self)
        ensures
            r.repository() == pokemon_repository,
    {
        Self { pokemon_repository }
    }

    /// The backend that the service works on.
    pub closed spec fn repository(&self) -> T {
        self.pokemon_repository
    }

    /// Deletes the entity stored under `number`, if there is one.
    pub fn handle(&mut self, number: i32) -> (r: Result<(), ServiceError>)
        ensures
            delete_outcome(
                old(self).repository().stored(),
                number as int,
                r,
                final(self).repository().stored(),
            ),
    {
        delete_pokemon(&mut self.pokemon_repository, number)
    }
}

} // verus!
