//! The creature entity.
use vstd::prelude::*;

use crate::pokemon_name::PokemonName;
use crate::pokemon_number::PokemonNumber;
use crate::pokemon_type::PokemonType;
use crate::pokemon_types::PokemonTypes;

verus! {

/// What an entity holds, as mathematical values.
pub struct PokemonView {
    pub number: int,
    pub name: Seq<char>,
    pub types: Seq<PokemonType>,
}

/// An entity: a validated number, name and list of types. Its identity is its
/// number.
#[derive(Debug, PartialEq, Eq)]
pub struct Pokemon {
    pub number: PokemonNumber,
    pub name: PokemonName,
    pub types: PokemonTypes,
}

impl View for Pokemon {
    type V = PokemonView;

    open spec fn view(&self) -> PokemonView {
        PokemonView { number: self.number@, name: self.name@, types: self.types@ }
    }
}

impl Pokemon {
    /// Puts already validated parts together.
    pub fn new(number: PokemonNumber, name: PokemonName, types: PokemonTypes) -> (r: Self)
        ensures
            r@ == (PokemonView { number: number@, name: name@, types: types@ }),
    {
        Self { number, name, types }
    }
}

impl Clone for Pokemon {
    fn clone(&self) -> (r: Self)
        ensures
            r@ == self@,
    {
        Pokemon {
            number: self.number.clone(),
            name: self.name.clone(),
            types: self.types.clone(),
        }
    }
}

/// The views of a sequence of entities.
pub open spec fn views_of(ps: Seq<Pokemon>) -> Seq<PokemonView> {
    Seq::new(ps.len(), |i: int| ps[i]@)
}

} // verus!
