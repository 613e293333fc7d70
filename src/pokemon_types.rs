//! The list of elemental types of a creature.
use vstd::prelude::*;

use crate::error::ValidationError;
use crate::pokemon_type::{name_of_type, type_of_name, PokemonType};

verus! {

/// The characters of each string of a sequence.
pub open spec fn string_views(v: Seq<String>) -> Seq<Seq<char>> {
    Seq::new(v.len(), |i: int| v[i]@)
}

/// Whether every tag of `ts` names a recognised type.
pub open spec fn all_known(ts: Seq<Seq<char>>) -> bool {
    forall|i: int| 0 <= i < ts.len() ==> (#[trigger] type_of_name(ts[i])) is Some
}

/// The types that the tags of `ts` name, in the same order.
pub open spec fn types_of_names(ts: Seq<Seq<char>>) -> Seq<PokemonType> {
    Seq::new(ts.len(), |i: int| type_of_name(ts[i])->Some_0)
}

/// The tags that the types of `ts` are written as, in the same order.
pub open spec fn names_of_types(ts: Seq<PokemonType>) -> Seq<Seq<char>> {
    Seq::new(ts.len(), |i: int| name_of_type(ts[i]))
}

/// What parsing a list of raw tags gives: all or nothing, in the given order,
/// duplicates kept.
pub open spec fn parse_types(ts: Seq<Seq<char>>) -> Result<Seq<PokemonType>, ValidationError> {
    if ts.len() == 0 {
        Err(ValidationError::EmptyTypes)
    } else if all_known(ts) {
        Ok(types_of_names(ts))
    } else {
        Err(ValidationError::UnknownType)
    }
}

/// The placeholder list that an update stores when it is given no types.
pub open spec fn unset_types() -> Seq<PokemonType> {
    seq![PokemonType::Unknown]
}

/// A validated, non-empty list of types.
#[derive(Debug, PartialEq, Eq)]
pub struct PokemonTypes(Vec<PokemonType>);

impl View for PokemonTypes {
    type V = Seq<PokemonType>;

    closed spec fn view(&self) -> Seq<PokemonType> {
        self.0@
    }
}

impl PokemonTypes {
    #[verifier::type_invariant]
    spec fn inv(self) -> bool {
        self.0@.len() > 0
    }

    /// The placeholder list: the single type `Unknown`.
    pub fn unset() -> (r: Self)
        ensures
            r@ == unset_types(),
    {
        let mut v: Vec<PokemonType> = Vec::new();
        v.push(PokemonType::Unknown);
        assert(v@ =~= unset_types());
        PokemonTypes(v)
    }

    /// The types, in order.
    pub fn as_vec(&self) -> (r: &Vec<PokemonType>)
        ensures
            r@ == self@,
            r@.len() > 0,
    {
        proof {
            use_type_invariant(self);
        }
        &self.0
    }

    /// The tags of the types, in order.
    pub fn to_names(&self) -> (r: Vec<String>)
        ensures
            string_views(r@) == names_of_types(self@),
    {
        let mut names: Vec<String> = Vec::new();
        let mut i: usize = 0;
        while i < self.0.len()
            invariant
                i <= self.0@.len(),
                names@.len() == i,
                forall|j: int| 0 <= j < i ==> (#[trigger] names@[j])@ == name_of_type(self.0@[j]),
            decreases self.0@.len() - i,
        {
            names.push(String::from(self.0[i]));
            i += 1;
        }
        assert(string_views(names@) =~= names_of_types(self@));
        names
    }
}

impl Clone for PokemonTypes {
    fn clone(&self) -> (r: Self)
        ensures
            r@ == self@,
    {
        proof {
            use_type_invariant(self);
        }
        let mut v: Vec<PokemonType> = Vec::new();
        let mut i: usize = 0;
        while i < self.0.len()
            invariant
                i <= self.0@.len(),
                v@ == self.0@.subrange(0, i as int),
            decreases self.0@.len() - i,
        {
            v.push(self.0[i]);
            i += 1;
            assert(v@ =~= self.0@.subrange(0, i as int));
        }
        assert(v@ =~= self.0@);
        PokemonTypes(v)
    }
}

impl TryFrom<Vec<String>> for PokemonTypes {
    type Error = ValidationError;

    fn try_from(ts: Vec<String>) -> (r: Result<Self, ValidationError>)
        ensures
            r is Ok <==> ts@.len() > 0 && all_known(string_views(ts@)),
            r matches Ok(v) ==> parse_types(string_views(ts@)) == Ok::<Seq<PokemonType>, ValidationError>(v@),
            r matches Err(e) ==> parse_types(string_views(ts@)) == Err::<Seq<PokemonType>, ValidationError>(e),
    {
        let ghost names = string_views(ts@);
        if ts.len() == 0 {
            return Err(ValidationError::EmptyTypes);
        }
        let mut pts: Vec<PokemonType> = Vec::new();
        let mut i: usize = 0;
        while i < ts.len()
            invariant
                names == string_views(ts@),
                i <= ts@.len(),
                pts@.len() == i,
                forall|j: int| 0 <= j < i ==> type_of_name(#[trigger] names[j]) == Some(pts@[j]),
            decreases ts@.len() - i,
        {
            match PokemonType::try_from(ts[i].clone()) {
                Ok(t) => pts.push(t),
                Err(_) => {
                    assert(type_of_name(names[i as int]) is None);
                    return Err(ValidationError::UnknownType);
                },
            }
            i += 1;
        }
        assert(all_known(names));
        assert(pts@ =~= types_of_names(names));
        Ok(PokemonTypes(pts))
    }
}

/// Parsing is described by the `ensures` of `try_from`, over `parse_types`.
impl vstd::std_specs::convert::TryFromSpecImpl<Vec<String>> for PokemonTypes {
    open spec fn obeys_try_from_spec() -> bool {
        false
    }

    closed spec fn try_from_spec(ts: Vec<String>) -> Result<Self, ValidationError> {
        vstd::pervasive::arbitrary()
    }
}

impl From<PokemonTypes> for Vec<String> {
    fn from(pts: PokemonTypes) -> (r: Vec<String>)
        ensures
            string_views(r@) == names_of_types(pts@),
    {
        pts.to_names()
    }
}

/// Conversion to `Vec<String>` is described by the `ensures` of `from`: a
/// `String` value cannot be written down in a spec function.
impl vstd::std_specs::convert::FromSpecImpl<PokemonTypes> for Vec<String> {
    open spec fn obeys_from_spec() -> bool {
        false
    }

    closed spec fn from_spec(pts: PokemonTypes) -> Vec<String> {
        vstd::pervasive::arbitrary()
    }
}

} // verus!
