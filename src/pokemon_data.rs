//! The flat, unvalidated form of an entity that crosses the service boundary.
use vstd::prelude::*;

use crate::error::ValidationError;
use crate::pokemon::{Pokemon, PokemonView};
use crate::pokemon_name::{parse_name, PokemonName};
use crate::pokemon_number::{parse_number, PokemonNumber};
use crate::pokemon_types::{names_of_types, parse_types, string_views, PokemonTypes};

verus! {

/// What a transfer object holds, as mathematical values.
pub struct PokemonDataView {
    pub number: int,
    pub name: Seq<char>,
    pub types: Seq<Seq<char>>,
}

/// The transfer object that an entity projects to.
pub open spec fn data_of(p: PokemonView) -> PokemonDataView {
    PokemonDataView { number: p.number, name: p.name, types: names_of_types(p.types) }
}

/// What validating raw parts gives: the first failure among number, name and
/// types, in that order, or the entity they make.
pub open spec fn validated(d: PokemonDataView) -> Result<PokemonView, ValidationError> {
    match parse_number(d.number) {
        Err(e) => Err(e),
        Ok(n) => match parse_name(d.name) {
            Err(e) => Err(e),
            Ok(s) => match parse_types(d.types) {
                Err(e) => Err(e),
                Ok(ts) => Ok(PokemonView { number: n, name: s, types: ts }),
            },
        },
    }
}

/// A number, a name and a list of type tags, not yet validated.
#[derive(Debug, Clone, PartialEq, Eq)]
pub struct PokemonData {
    number: i32,
    name: String,
    types: Vec<String>,
}

impl View for PokemonData {
    type V = PokemonDataView;

    closed spec fn view(&self) -> PokemonDataView {
        PokemonDataView {
            number: self.number as int,
            name: self.name@,
            types: string_views(self.types@),
        }
    }
}

/// Validates raw parts into an entity.
pub fn validate(number: i32, name: String, types: Vec<String>) -> (r: Result<Pokemon, ValidationError>)
    ensures
        ({
            let d = PokemonDataView { number: number as int, name: name@, types: string_views(types@) };
            &&& r matches Ok(p) ==> validated(d) == Ok::<PokemonView, ValidationError>(p@)
            &&& r matches Err(e) ==> validated(d) == Err::<PokemonView, ValidationError>(e)
        }),
{
    let number = match PokemonNumber::try_from(number) {
        Ok(n) => n,
        Err(e) => return Err(e),
    };
    let name = match PokemonName::try_from(name) {
        Ok(n) => n,
        Err(e) => return Err(e),
    };
    let types = match PokemonTypes::try_from(types) {
        Ok(t) => t,
        Err(e) => return Err(e),
    };
    Ok(Pokemon::new(number, name, types))
}

impl PokemonData {
    /// The transfer object of an entity.
    pub fn new(source: Pokemon) -> (r: Self)
        ensures
            r@ == data_of(source@),
    {
        let number = i32::from(source.number);
        let name = String::from(source.name);
        let types = Vec::<String>::from(source.types);
        let r = Self { number, name, types };
        assert(r@.types =~= names_of_types(source@.types));
        r
    }

    /// A transfer object made of raw parts.
    pub fn from_parts(number: i32, name: String, types: Vec<String>) -> (r: Self)
        ensures
            r@ == (PokemonDataView { number: number as int, name: name@, types: string_views(types@) }),
    {
        Self { number, name, types }
    }

    /// The validated entity that this object describes.
    pub fn into_pokemon(self) -> (r: Result<Pokemon, ValidationError>)
        ensures
            r matches Ok(p) ==> validated(self@) == Ok::<PokemonView, ValidationError>(p@),
            r matches Err(e) ==> validated(self@) == Err::<PokemonView, ValidationError>(e),
    {
        validate(self.number, self.name, self.types)
    }

    pub fn get_number(&self) -> (r: &i32)
        ensures
            *r as int == self@.number,
    {
        &self.number
    }

    pub fn get_name(&self) -> (r: &String)
        ensures
            r@ == self@.name,
    {
        &self.name
    }

    pub fn get_types(&self) -> (r: &Vec<String>)
        ensures
            string_views(r@) == self@.types,
    {
        &self.types
    }
}

} // verus!
