//! Registering a new entity.
use vstd::prelude::*;

use crate::error::ServiceError;
use crate::pokemon::PokemonView;
use crate::pokemon_data::{validated, PokemonData, PokemonDataView};
use crate::repository::PokemonRepository;

verus! {

/// What registering `data` into a store holding `before` may give: the result
/// `r` and the store `after`.
pub open spec fn register_outcome(
    before: Map<int, PokemonView>,
    data: PokemonDataView,
    r: Result<(), ServiceError>,
    after: Map<int, PokemonView>,
) -> bool {
    match validated(data) {
        Err(e) => r == Err::<(), ServiceError>(ServiceError::Validation(e)) && after == before,
        Ok(p) => if before.contains_key(p.number) {
            r == Err::<(), ServiceError>(ServiceError::Conflict) && after == before
        } else {
            match r {
                Ok(_) => after == before.insert(p.number, p),
                Err(ServiceError::Storage(_)) => after == before,
                Err(_) => false,
            }
        },
    }
}

/// Validates `data` and stores the entity, unless its number is taken.
pub fn register_pokemon<T: PokemonRepository>(repository: &mut T, data: PokemonData) -> (r: Result<
    (),
    ServiceError,
>)
    ensures
        register_outcome(old(repository).stored(), data@, r, final(repository).stored()),
{
    let pokemon = match data.into_pokemon() {
        Ok(p) => p,
        Err(e) => return Err(ServiceError::Validation(e)),
    };
    if repository.exists_pokemon(&pokemon) {
        return Err(ServiceError::Conflict);
    }
    match repository.insert(&pokemon) {
        Ok(()) => Ok(()),
        Err(e) => Err(ServiceError::Storage(e)),
    }
}

/// The register use case over a storage backend.
pub struct PokemonRegisterService<T: PokemonRepository> {
    pokemon_repository: T,
}

impl<T: PokemonRepository> PokemonRegisterService<T> {
    pub fn new(pokemon_repository: T) -> (r: Self)
        ensures
            r.repository() == pokemon_repository,
    {
        Self { pokemon_repository }
    }

    /// The backend that the service works on.
    pub closed spec fn repository(&self) -> T {
        self.pokemon_repository
    }

    /// Registers the entity that `data` describes.
    pub fn handle(&mut self, data: PokemonData) -> (r: Result<(), ServiceError>)
        ensures
            register_outcome(
                old(self).repository().stored(),
                data@,
                r,
                final(self).repository().stored(),
            ),
    {
        register_pokemon(&mut self.pokemon_repository, data)
    }
}

} // verus!
