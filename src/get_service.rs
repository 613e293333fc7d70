//! Looking up one entity.
use vstd::prelude::*;

use crate::error::ServiceError;
use crate::pokemon::PokemonView;
use crate::pokemon_data::{data_of, PokemonData, PokemonDataView};
use crate::pokemon_number::{parse_number, PokemonNumber};
use crate::repository::PokemonRepository;

verus! {

/// What looking up `number` in a store holding `stored` gives.
pub open spec fn get_outcome(stored: Map<int, PokemonView>, number: int) -> Result<
    PokemonDataView,
    ServiceError,
> {
    match parse_number(number) {
        Err(e) => Err(ServiceError::Validation(e)),
        Ok(k) => if stored.contains_key(k) {
            Ok(data_of(stored[k]))
        } else {
            Err(ServiceError::NotFound)
        },
    }
}

/// The view of a use case's result that carries a transfer object.
pub open spec fn data_result(r: Result<PokemonData, ServiceError>) -> Result<
    PokemonDataView,
    ServiceError,
> {
    match r {
        Ok(d) => Ok(d@),
        Err(e) => Err(e),
    }
}

/// The transfer object of the entity stored under `no`.
pub fn get_pokemon<T: PokemonRepository>(repository: &T, no: i32) -> (r: Result<
    PokemonData,
    ServiceError,
>)
    ensures
        data_result(r) == get_outcome(repository.stored(), no as int),
{
    let number = match PokemonNumber::try_from(no) {
        Ok(n) => n,
        Err(e) => return Err(ServiceError::Validation(e)),
    };
    match repository.find_by_number(&number) {
        Some(value) => Ok(PokemonData::new(value)),
        None => Err(ServiceError::NotFound),
    }
}

/// The get use case over a storage backend.
pub struct PokemonGetService<T: PokemonRepository> {
    pokemon_repository: T,
}

impl<T: PokemonRepository> PokemonGetService<T> {
    pub fn new(pokemon_repository: T) -> (r: Self)
        ensures
            r.repository() == pokemon_repository,
    {
        Self { pokemon_repository }
    }

    /// The backend that the service works on.
    pub closed spec fn repository(&self) -> T {
        self.pokemon_repository
    }

    /// The transfer object of the entity stored under `no`.
    pub fn handle(&self, no: i32) -> (r: Result<PokemonData, ServiceError>)
        ensures
            data_result(r) == get_outcome(self.repository().stored(), no as int),
    {
        get_pokemon(&self.pokemon_repository, no)
    }
}

} // verus!
