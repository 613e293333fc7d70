//! The catalogue number of a creature.
use vstd::prelude::*;

use crate::error::ValidationError;

verus! {

/// The largest catalogue number in use.
pub const MAX_NUMBER: i32 = 898;

/// A catalogue number is valid when it lies in `1..=MAX_NUMBER`.
pub open spec fn valid_number(n: int) -> bool {
    1 <= n <= MAX_NUMBER
}

/// What parsing a raw catalogue number gives.
pub open spec fn parse_number(n: int) -> Result<int, ValidationError> {
    if valid_number(n) {
        Ok(n)
    } else {
        Err(ValidationError::NumberOutOfRange)
    }
}

/// A validated catalogue number.
#[derive(Debug, PartialEq, Eq, PartialOrd, Ord)]
pub struct PokemonNumber(i32);

impl View for PokemonNumber {
    type V = int;

    closed spec fn view(&self) -> int {
        self.0 as int
    }
}

impl PokemonNumber {
    #[verifier::type_invariant]
    spec fn inv(self) -> bool {
        valid_number(self.0 as int)
    }

    /// The number as a plain integer.
    pub fn value(&self) -> (r: i32)
        ensures
            r as int == self@,
            valid_number(r as int),
    {
        proof {
            use_type_invariant(self);
        }
        self.0
    }
}

impl Clone for PokemonNumber {
    fn clone(&self) -> (r: Self)
        ensures
            r@ == self@,
    {
        proof {
            use_type_invariant(self);
        }
        PokemonNumber(self.0)
    }
}

impl TryFrom<i32> for PokemonNumber {
    type Error = ValidationError;

    fn try_from(n: i32) -> (r: Result<Self, ValidationError>)
        ensures
            r is Ok <==> valid_number(n as int),
            r matches Ok(v) ==> parse_number(n as int) == Ok::<int, ValidationError>(v@),
            r matches Err(e) ==> parse_number(n as int) == Err::<int, ValidationError>(e),
    {
        if 1 <= n && n <= MAX_NUMBER {
            Ok(PokemonNumber(n))
        } else {
            Err(ValidationError::NumberOutOfRange)
        }
    }
}

impl vstd::std_specs::convert::TryFromSpecImpl<i32> for PokemonNumber {
    open spec fn obeys_try_from_spec() -> bool {
        true
    }

    closed spec fn try_from_spec(n: i32) -> Result<Self, ValidationError> {
        if valid_number(n as int) {
            Ok(PokemonNumber(n))
        } else {
            Err(ValidationError::NumberOutOfRange)
        }
    }
}

impl From<PokemonNumber> for i32 {
    fn from(n: PokemonNumber) -> (r: i32)
        ensures
            r as int == n@,
    {
        n.value()
    }
}

impl vstd::std_specs::convert::FromSpecImpl<PokemonNumber> for i32 {
    open spec fn obeys_from_spec() -> bool {
        true
    }

    open spec fn from_spec(n: PokemonNumber) -> i32 {
        n@ as i32
    }
}

} // verus!
