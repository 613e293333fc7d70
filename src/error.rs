//! The error taxonomy of the catalogue.
use vstd::prelude::*;

verus! {

/// Why a raw input could not be turned into a value type.
#[derive(Debug, Clone, Copy, PartialEq, Eq, Structural)]
pub enum ValidationError {
    /// The catalogue number lies outside `1..=898`.
    NumberOutOfRange,
    /// The name is empty.
    EmptyName,
    /// A type tag is not one of the recognised tags.
    UnknownType,
    /// The list of type tags is empty.
    EmptyTypes,
}

/// A failure of the storage backend.
#[derive(Debug, Clone, PartialEq, Eq)]
pub enum StorageError {
    /// An entity with the same number is already stored.
    Duplicate,
    /// No entity with that number is stored.
    Missing,
    /// Nothing is stored at all.
    Empty,
    /// The backend itself failed; the text says how.
    Failed(String),
}

/// Why a use case did not complete.
#[derive(Debug, Clone, PartialEq, Eq)]
pub enum ServiceError {
    /// A raw input was malformed.
    Validation(ValidationError),
    /// The entity referred to is not stored.
    NotFound,
    /// An entity with that number is already registered.
    Conflict,
    /// The storage backend failed.
    Storage(StorageError),
}

} // verus!
