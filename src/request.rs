//! The body of a create or update request.
use vstd::prelude::*;

use crate::error::ValidationError;
use crate::pokemon::{Pokemon, PokemonView};
use crate::pokemon_data::{validate, validated, PokemonDataView};
use crate::pokemon_types::string_views;

verus! {

/// A number, a name and a list of type tags as a client sent them.
#[derive(Debug, Clone, PartialEq, Eq, Hash, Default)]
pub struct PokemonRequest {
    pub number: i32,
    pub name: String,
    pub types: Vec<String>,
}

impl View for PokemonRequest {
    type V = PokemonDataView;

    open spec fn view(&self) -> PokemonDataView {
        PokemonDataView {
            number: self.number as int,
            name: self.name@,
            types: string_views(self.types@),
        }
    }
}

impl PokemonRequest {
    /// The validated entity that the request describes.
    pub fn of(&self) -> (r: Result<Pokemon, ValidationError>)
        ensures
            r matches Ok(p) ==> validated(self@) == Ok::<PokemonView, ValidationError>(p@),
            r matches Err(e) ==> validated(self@) == Err::<PokemonView, ValidationError>(e),
    {
        let types = self.types.clone();
        assert(string_views(types@) =~= string_views(self.types@));
        validate(self.number, self.name.clone(), types)
    }
}

} // verus!
