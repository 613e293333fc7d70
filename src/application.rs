//! All five use cases behind one service.
use vstd::prelude::*;

use crate::delete_service::{delete_outcome, delete_pokemon};
use crate::error::ServiceError;
use crate::get_service::{data_result, get_outcome, get_pokemon};
use crate::list_service::{data_list_result, list_outcome, list_pokemon};
use crate::pokemon::Pokemon;
use crate::pokemon_data::PokemonData;
use crate::register_service::{register_outcome, register_pokemon};
use crate::repository::PokemonRepository;
use crate::update_service::{pokemon_result, update_outcome, update_pokemon, PokemonUpdateCommand};

verus! {

/// A request to delete the entity with a given number.
pub struct PokemonDeleteCommand {
    number: i32,
}

impl PokemonDeleteCommand {
    pub fn new(number: i32) -> (r: Self)
        ensures
            r.spec_number() == number,
    {
        Self { number }
    }

    /// The number that the command names.
    pub closed spec fn spec_number(&self) -> i32 {
        self.number
    }

    pub fn get_number(&self) -> (r: &i32)
        ensures
            *r == self.spec_number(),
    {
        &self.number
    }
}

/// Register, get, list, update and delete over one storage backend.
pub struct PokemonApplicationService<T: PokemonRepository> {
    pokemon_repository: T,
}

impl<T: PokemonRepository> PokemonApplicationService<T> {
    pub fn new(pokemon_repository: T) -> (r: Self)
        ensures
            r.repository() == pokemon_repository,
    {
        Self { pokemon_repository }
    }

    /// The backend that the service works on.
    pub closed spec fn repository(&self) -> T {
        self.pokemon_repository
    }

    /// Registers the entity that `data` describes.
    pub fn register(&mut self, data: PokemonData) -> (r: Result<(), ServiceError>)
        ensures
            register_outcome(
                old(self).repository().stored(),
                data@,
                r,
                final(self).repository().stored(),
            ),
    {
        register_pokemon(&mut self.pokemon_repository, data)
    }

    /// The transfer object of the entity stored under `no`.
    pub fn get(&self, no: i32) -> (r: Result<PokemonData, ServiceError>)
        ensures
            data_result(r) == get_outcome(self.repository().stored(), no as int),
    {
        get_pokemon(&self.pokemon_repository, no)
    }

    /// The transfer objects of every stored entity.
    pub fn list(&self) -> (r: Result<Vec<PokemonData>, ServiceError>)
        ensures
            list_outcome(self.repository().stored(), data_list_result(r)),
    {
        list_pokemon(&self.pokemon_repository)
    }

    /// Carries out `command` and returns the entity now stored.
    pub fn update(&mut self, command: PokemonUpdateCommand) -> (r: Result<Pokemon, ServiceError>)
        ensures
            update_outcome(
                old(self).repository().stored(),
                command@,
                pokemon_result(r),
                final(self).repository().stored(),
            ),
    {
        update_pokemon(&mut self.pokemon_repository, command)
    }

    /// Deletes the entity that `command` names, if it is stored.
    pub fn delete(&mut self, command: PokemonDeleteCommand) -> (r: Result<(), ServiceError>)
        ensures
            delete_outcome(
                old(self).repository().stored(),
                command.spec_number() as int,
                r,
                final(self).repository().stored(),
            ),
    {
        let number = *command.get_number();
        delete_pokemon(&mut self.pokemon_repository, number)
    }
}

} // verus!
