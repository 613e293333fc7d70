//! The name of a creature.
use vstd::prelude::*;

use crate::error::ValidationError;

verus! {

/// What parsing a raw name gives: any non-empty name is accepted as it is.
pub open spec fn parse_name(s: Seq<char>) -> Result<Seq<char>, ValidationError> {
    if s.len() == 0 {
        Err(ValidationError::EmptyName)
    } else {
        Ok(s)
    }
}

/// The placeholder name that an update stores when it is given no name.
pub open spec fn unset_name() -> Seq<char> {
    "名前未設定"@
}

/// A validated, non-empty name.
#[derive(Debug, PartialEq, Eq)]
pub struct PokemonName(String);

impl View for PokemonName {
    type V = Seq<char>;

    closed spec fn view(&self) -> Seq<char> {
        self.0@
    }
}

impl PokemonName {
    #[verifier::type_invariant]
    spec fn inv(self) -> bool {
        self.0@.len() > 0
    }

    /// The placeholder name.
    pub fn unset() -> (r: Self)
        ensures
            r@ == unset_name(),
    {
        proof {
            reveal_strlit("名前未設定");
        }
        PokemonName("名前未設定".to_owned())
    }

    /// The name as a string slice.
    pub fn as_str(&self) -> (r: &str)
        ensures
            r@ == self@,
            r@.len() > 0,
    {
        proof {
            use_type_invariant(self);
        }
        self.0.as_str()
    }
}

impl Clone for PokemonName {
    fn clone(&self) -> (r: Self)
        ensures
            r@ == self@,
    {
        proof {
            use_type_invariant(self);
        }
        PokemonName(self.0.clone())
    }
}

impl TryFrom<String> for PokemonName {
    type Error = ValidationError;

    fn try_from(name: String) -> (r: Result<Self, ValidationError>)
        ensures
            r is Ok <==> name@.len() > 0,
            r matches Ok(v) ==> parse_name(name@) == Ok::<Seq<char>, ValidationError>(v@),
            r matches Err(e) ==> parse_name(name@) == Err::<Seq<char>, ValidationError>(e),
    {
        if name.as_str().is_empty() {
            Err(ValidationError::EmptyName)
        } else {
            Ok(PokemonName(name))
        }
    }
}

impl vstd::std_specs::convert::TryFromSpecImpl<String> for PokemonName {
    open spec fn obeys_try_from_spec() -> bool {
        true
    }

    closed spec fn try_from_spec(name: String) -> Result<Self, ValidationError> {
        if name@.len() == 0 {
            Err(ValidationError::EmptyName)
        } else {
            Ok(PokemonName(name))
        }
    }
}

impl From<PokemonName> for String {
    fn from(n: PokemonName) -> (r: String)
        ensures
            r@ == n@,
    {
        n.0
    }
}

impl vstd::std_specs::convert::FromSpecImpl<PokemonName> for String {
    open spec fn obeys_from_spec() -> bool {
        true
    }

    closed spec fn from_spec(n: PokemonName) -> String {
        n.0
    }
}

} // verus!
