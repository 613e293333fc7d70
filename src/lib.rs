//! A catalogue of numbered, named and typed creatures: validated value types,
//! the entity they make, the storage contract that the use cases depend on, an
//! in-memory backend, and the register, get, list, update and delete use
//! cases, each proved against its contract.

pub mod application;
pub mod delete_service;
pub mod error;
pub mod get_service;
pub mod in_memory;
pub mod laws;
pub mod list_service;
pub mod pokemon;
pub mod pokemon_data;
pub mod pokemon_name;
pub mod pokemon_number;
pub mod pokemon_type;
pub mod pokemon_types;
pub mod register_service;
pub mod repository;
pub mod request;
pub mod update_service;

pub use application::{PokemonApplicationService, PokemonDeleteCommand};
pub use delete_service::PokemonDeleteService;
pub use error::{ServiceError, StorageError, ValidationError};
pub use get_service::PokemonGetService;
pub use in_memory::InMemoryPokemonRepository;
pub use list_service::PokemonListService;
pub use pokemon::Pokemon;
pub use pokemon_data::PokemonData;
pub use pokemon_name::PokemonName;
pub use pokemon_number::PokemonNumber;
pub use pokemon_type::PokemonType;
pub use pokemon_types::PokemonTypes;
pub use register_service::PokemonRegisterService;
pub use repository::PokemonRepository;
pub use request::PokemonRequest;
pub use update_service::{PokemonUpdateCommand, PokemonUpdateService};
