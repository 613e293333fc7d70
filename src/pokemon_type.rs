//! The elemental type of a creature.
use vstd::prelude::*;

use crate::error::ValidationError;

verus! {

/// An elemental type. The first five are the recognised tags; `Unknown` is the
/// placeholder that an update stores when it is given no types.
#[derive(Debug, Clone, Copy, PartialEq, Eq, Structural)]
pub enum PokemonType {
    Fire,
    Water,
    Grass,
    Electric,
    Flying,
    Unknown,
}

/// The tag that a type is written as.
pub open spec fn name_of_type(t: PokemonType) -> Seq<char> {
    match t {
        PokemonType::Fire => "Fire"@,
        PokemonType::Water => "Water"@,
        PokemonType::Grass => "Grass"@,
        PokemonType::Electric => "Electric"@,
        PokemonType::Flying => "Flying"@,
        PokemonType::Unknown => "Unknown"@,
    }
}

/// The recognised type that a tag names, if any. The placeholder is never
/// recognised.
pub open spec fn type_of_name(s: Seq<char>) -> Option<PokemonType> {
    if s == "Fire"@ {
        Some(PokemonType::Fire)
    } else if s == "Water"@ {
        Some(PokemonType::Water)
    } else if s == "Grass"@ {
        Some(PokemonType::Grass)
    } else if s == "Electric"@ {
        Some(PokemonType::Electric)
    } else if s == "Flying"@ {
        Some(PokemonType::Flying)
    } else {
        None
    }
}

/// Whether `t` holds exactly the characters of `tag`.
fn is_tag(t: &String, tag: &str) -> (r: bool)
    ensures
        r == (t@ == tag@),
{
    let owned: String = tag.to_owned();
    *t == owned
}

impl PokemonType {
    /// The tag that this type is written as.
    pub fn name(&self) -> (r: &'static str)
        ensures
            r@ == name_of_type(*self),
    {
        match self {
            PokemonType::Fire => "Fire",
            PokemonType::Water => "Water",
            PokemonType::Grass => "Grass",
            PokemonType::Electric => "Electric",
            PokemonType::Flying => "Flying",
            PokemonType::Unknown => "Unknown",
        }
    }
}

impl TryFrom<String> for PokemonType {
    type Error = ValidationError;

    fn try_from(t: String) -> (r: Result<Self, ValidationError>)
        ensures
            r matches Ok(k) ==> type_of_name(t@) == Some(k),
            r matches Err(e) ==> type_of_name(t@) is None && e == ValidationError::UnknownType,
    {
        if is_tag(&t, "Fire") {
            Ok(PokemonType::Fire)
        } else if is_tag(&t, "Water") {
            Ok(PokemonType::Water)
        } else if is_tag(&t, "Grass") {
            Ok(PokemonType::Grass)
        } else if is_tag(&t, "Electric") {
            Ok(PokemonType::Electric)
        } else if is_tag(&t, "Flying") {
            Ok(PokemonType::Flying)
        } else {
            Err(ValidationError::UnknownType)
        }
    }
}

impl vstd::std_specs::convert::TryFromSpecImpl<String> for PokemonType {
    open spec fn obeys_try_from_spec() -> bool {
        true
    }

    open spec fn try_from_spec(t: String) -> Result<Self, ValidationError> {
        match type_of_name(t@) {
            Some(k) => Ok(k),
            None => Err(ValidationError::UnknownType),
        }
    }
}

impl From<PokemonType> for String {
    fn from(t: PokemonType) -> (r: String)
        ensures
            r@ == name_of_type(t),
    {
        t.name().to_owned()
    }
}

/// Conversion to `String` is described by the `ensures` of `from`: a `String`
/// value cannot be written down in a spec function.
impl vstd::std_specs::convert::FromSpecImpl<PokemonType> for String {
    open spec fn obeys_from_spec() -> bool {
        false
    }

    closed spec fn from_spec(t: PokemonType) -> String {
        vstd::pervasive::arbitrary()
    }
}

} // verus!
