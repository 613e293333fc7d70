//! Updating a stored entity.
use vstd::prelude::*;

use crate::error::{ServiceError, ValidationError};
use crate::pokemon::{Pokemon, PokemonView};
use crate::pokemon_name::{parse_name, unset_name, PokemonName};
use crate::pokemon_number::{parse_number, PokemonNumber};
use crate::pokemon_type::PokemonType;
use crate::pokemon_types::{parse_types, string_views, unset_types, PokemonTypes};
use crate::repository::PokemonRepository;

verus! {

/// What an update command holds, as mathematical values.
pub struct UpdateCommandView {
    pub number: int,
    pub name: Option<Seq<char>>,
    pub types: Option<Seq<Seq<char>>>,
}

/// The name that an update stores: the given one, validated, or the
/// placeholder when none is given.
pub open spec fn new_name(name: Option<Seq<char>>) -> Result<Seq<char>, ValidationError> {
    match name {
        Some(s) => parse_name(s),
        None => Ok(unset_name()),
    }
}

/// The types that an update stores: the given ones, validated, or the
/// placeholder when none are given.
pub open spec fn new_types(types: Option<Seq<Seq<char>>>) -> Result<
    Seq<PokemonType>,
    ValidationError,
> {
    match types {
        Some(ts) => parse_types(ts),
        None => Ok(unset_types()),
    }
}

/// What updating a store holding `before` with command `c` may give: the
/// result `r` and the store `after`.
pub open spec fn update_outcome(
    before: Map<int, PokemonView>,
    c: UpdateCommandView,
    r: Result<PokemonView, ServiceError>,
    after: Map<int, PokemonView>,
) -> bool {
    match parse_number(c.number) {
        Err(e) => r == Err::<PokemonView, ServiceError>(ServiceError::Validation(e)) && after == before,
        Ok(k) => if !before.contains_key(k) {
            r == Err::<PokemonView, ServiceError>(ServiceError::NotFound) && after == before
        } else {
            match new_name(c.name) {
                Err(e) => r == Err::<PokemonView, ServiceError>(ServiceError::Validation(e)) && after
                    == before,
                Ok(s) => match new_types(c.types) {
                    Err(e) => r == Err::<PokemonView, ServiceError>(ServiceError::Validation(e))
                        && after == before,
                    Ok(ts) => {
                        let p = PokemonView { number: k, name: s, types: ts };
                        match r {
                            Ok(q) => q == p && after == before.insert(k, p),
                            Err(ServiceError::Storage(_)) => after == before,
                            Err(_) => false,
                        }
                    },
                },
            }
        },
    }
}

/// The view of a use case's result that carries an entity.
pub open spec fn pokemon_result(r: Result<Pokemon, ServiceError>) -> Result<PokemonView, ServiceError> {
    match r {
        Ok(p) => Ok(p@),
        Err(e) => Err(e),
    }
}

/// A request to replace the name and types of the entity with a given number.
/// A field left unset is replaced by its placeholder.
pub struct PokemonUpdateCommand {
    number: i32,
    name: Option<String>,
    types: Option<Vec<String>>,
}

impl View for PokemonUpdateCommand {
    type V = UpdateCommandView;

    closed spec fn view(&self) -> UpdateCommandView {
        UpdateCommandView {
            number: self.number as int,
            name: match self.name {
                Some(s) => Some(s@),
                None => None,
            },
            types: match self.types {
                Some(ts) => Some(string_views(ts@)),
                None => None,
            },
        }
    }
}

impl PokemonUpdateCommand {
    /// A command for `number` with neither field set.
    pub fn new(number: i32) -> (r: Self)
        ensures
            r@ == (UpdateCommandView { number: number as int, name: None, types: None }),
    {
        Self { number, name: None, types: None }
    }

    pub fn get_number(&self) -> (r: &i32)
        ensures
            *r as int == self@.number,
    {
        &self.number
    }

    pub fn get_name(&self) -> (r: &Option<String>)
        ensures
            match *r {
                Some(s) => self@.name == Some(s@),
                None => self@.name is None,
            },
    {
        &self.name
    }

    pub fn get_types(&self) -> (r: &Option<Vec<String>>)
        ensures
            match *r {
                Some(ts) => self@.types == Some(string_views(ts@)),
                None => self@.types is None,
            },
    {
        &self.types
    }

    pub fn set_name(&mut self, name: Option<String>)
        ensures
            final(self)@ == (UpdateCommandView {
                name: match name {
                    Some(s) => Some(s@),
                    None => None,
                },
                ..old(self)@
            }),
    {
        self.name = name;
    }

    pub fn set_types(&mut self, types: Option<Vec<String>>)
        ensures
            final(self)@ == (UpdateCommandView {
                types: match types {
                    Some(ts) => Some(string_views(ts@)),
                    None => None,
                },
                ..old(self)@
            }),
    {
        self.types = types;
    }
}

/// Replaces the name and types of the entity numbered as `command` says.
pub fn update_pokemon<T: PokemonRepository>(
    repository: &mut T,
    command: PokemonUpdateCommand,
) -> (r: Result<Pokemon, ServiceError>)
    ensures
        update_outcome(old(repository).stored(), command@, pokemon_result(r), final(repository).stored()),
{
    let PokemonUpdateCommand { number, name, types } = command;
    let target_no = match PokemonNumber::try_from(number) {
        Ok(n) => n,
        Err(e) => return Err(ServiceError::Validation(e)),
    };
    match repository.find_by_number(&target_no) {
        None => Err(ServiceError::NotFound),
        Some(_) => {
            let name = match name {
                Some(value) => match PokemonName::try_from(value) {
                    Ok(n) => n,
                    Err(e) => return Err(ServiceError::Validation(e)),
                },
                None => PokemonName::unset(),
            };
            let types = match types {
                Some(value) => match PokemonTypes::try_from(value) {
                    Ok(t) => t,
                    Err(e) => return Err(ServiceError::Validation(e)),
                },
                None => PokemonTypes::unset(),
            };
            let result = Pokemon::new(target_no, name, types);
            match repository.update(&result) {
                Ok(()) => Ok(result),
                Err(e) => Err(ServiceError::Storage(e)),
            }
        },
    }
}

/// The update use case over a storage backend.
pub struct PokemonUpdateService<T: PokemonRepository> {
    pokemon_repository: T,
}

impl<T: PokemonRepository> PokemonUpdateService<T> {
    pub fn new(pokemon_repository: T) -> (r: Self)
        ensures
            r.repository() == pokemon_repository,
    {
        Self { pokemon_repository }
    }

    /// The backend that the service works on.
    pub closed spec fn repository(&self) -> T {
        self.pokemon_repository
    }

    /// Carries out `command` and returns the entity now stored.
    pub fn handle(&mut self, command: PokemonUpdateCommand) -> (r: Result<Pokemon, ServiceError>)
        ensures
            update_outcome(
                old(self).repository().stored(),
                command@,
                pokemon_result(r),
                final(self).repository().stored(),
            ),
    {
        update_pokemon(&mut self.pokemon_repository, command)
    }
}

} // verus!
