use pokedex::{
    InMemoryPokemonRepository, Pokemon, PokemonData, PokemonDeleteService, PokemonGetService,
    PokemonListService, PokemonName, PokemonNumber, PokemonRegisterService, PokemonRepository,
    PokemonType, PokemonTypes, PokemonUpdateCommand, PokemonUpdateService, ServiceError,
    StorageError, ValidationError,
};

fn pokemon(number: i32, name: &str, types: &[&str]) -> Pokemon {
    Pokemon::new(
        PokemonNumber::try_from(number).unwrap(),
        PokemonName::try_from(name.to_string()).unwrap(),
        PokemonTypes::try_from(types.iter().map(|t| t.to_string()).collect::<Vec<String>>())
            .unwrap(),
    )
}

/// A store that holds number 1 only.
fn repository_with_one() -> InMemoryPokemonRepository {
    let mut repository = InMemoryPokemonRepository::new();
    repository.insert(&pokemon(1, "TestPokemon", &["Fire"])).unwrap();
    repository
}

#[test]
fn handle_ok_exist_no() {
    let repository = repository_with_one();
    let mut service = PokemonDeleteService::new(repository);
    let result = service.handle(1);
    assert!(result.is_ok());
}

#[test]
fn pokemon_delete_service_handle_ok_not_exist_no() {
    let repository = repository_with_one();
    let mut service = PokemonDeleteService::new(repository);
    let result = service.handle(2);
    assert!(result.is_ok());
}

#[test]
fn pokemon_get_service_handle_ok() {
    let repository = repository_with_one();
    let service = PokemonGetService::new(repository);
    let result = service.handle(1);
    assert!(result.is_ok());

    let result_pokemon = result.unwrap();
    let expect = Pokemon::new(
        PokemonNumber::try_from(1).unwrap(),
        PokemonName::try_from("TestPokemon".to_string()).unwrap(),
        PokemonTypes::try_from(vec!["Fire".to_string()]).unwrap(),
    );
    assert_eq!(result_pokemon, PokemonData::new(expect));
}

#[test]
fn pokemon_get_service_handle_ng() {
    let repository = repository_with_one();
    let service = PokemonGetService::new(repository);
    let result = service.handle(2);
    assert!(result.is_err());
    assert_eq!(result, Err(ServiceError::NotFound));
}

#[test]
fn pokemon_list_service_handle_ok() {
    let mut repository = InMemoryPokemonRepository::new();
    repository.insert(&pokemon(1, "TestPokemon1", &["Fire"])).unwrap();
    repository.insert(&pokemon(2, "TestPokemon2", &["Water"])).unwrap();
    let service = PokemonListService::new(repository);
    let pokemon_1 = PokemonData::new(Pokemon::new(
        PokemonNumber::try_from(1).unwrap(),
        PokemonName::try_from("TestPokemon1".to_string()).unwrap(),
        PokemonTypes::try_from(vec!["Fire".to_string()]).unwrap(),
    ));
    let pokemon_2 = PokemonData::new(Pokemon::new(
        PokemonNumber::try_from(2).unwrap(),
        PokemonName::try_from("TestPokemon2".to_string()).unwrap(),
        PokemonTypes::try_from(vec!["Water".to_string()]).unwrap(),
    ));
    let expect = vec![pokemon_1, pokemon_2];
    let result = service.handle();
    assert!(result.is_ok());
    assert_eq!(result.unwrap(), expect);
}

#[test]
fn pokemon_list_service_handle_ng() {
    let repository = InMemoryPokemonRepository::new();
    let service = PokemonListService::new(repository);
    let result = service.handle();
    assert!(result.is_err());
    assert_eq!(result, Err(ServiceError::Storage(StorageError::Empty)));
}

#[test]
fn pokemon_register_service_handle_ok_not_exist_no() {
    let repository = repository_with_one();
    let mut service = PokemonRegisterService::new(repository);
    let data = Pokemon::new(
        PokemonNumber::try_from(2).unwrap(),
        PokemonName::try_from("TestPokemon".to_string()).unwrap(),
        PokemonTypes::try_from(vec!["Fire".to_string()]).unwrap(),
    );
    let result = service.handle(PokemonData::new(data));
    assert!(result.is_ok());
}

#[test]
fn handle_ng_exist_no() {
    let repository = repository_with_one();
    let mut service = PokemonRegisterService::new(repository);
    let data = Pokemon::new(
        PokemonNumber::try_from(1).unwrap(),
        PokemonName::try_from("TestPokemon".to_string()).unwrap(),
        PokemonTypes::try_from(vec!["Fire".to_string()]).unwrap(),
    );
    let result = service.handle(PokemonData::new(data));
    assert!(result.is_err());
    assert_eq!(result, Err(ServiceError::Conflict));
}

#[test]
fn handle_ok_no_name_and_no_type() {
    let repository = repository_with_one();
    let mut service = PokemonUpdateService::new(repository);
    let command = PokemonUpdateCommand::new(1);
    let result = service.handle(command);
    assert!(result.is_ok());

    let result_pokemon = result.unwrap();
    let expect = Pokemon::new(
        PokemonNumber::try_from(1).unwrap(),
        PokemonName::try_from("名前未設定".to_string()).unwrap(),
        PokemonTypes::unset(),
    );
    assert_eq!(result_pokemon, expect);
    assert_eq!(
        PokemonData::new(result_pokemon).get_types(),
        &vec!["Unknown".to_string()]
    );
}

#[test]
fn handle_ok_set_name_and_set_type() {
    let repository = repository_with_one();
    let mut service = PokemonUpdateService::new(repository);
    let mut command = PokemonUpdateCommand::new(1);
    command.set_name(Some("TestName".to_string()));
    command.set_types(Some(vec!["Fire".to_string()]));
    let result = service.handle(command);
    assert!(result.is_ok());

    let result_pokemon = result.unwrap();
    let expect = Pokemon::new(
        PokemonNumber::try_from(1).unwrap(),
        PokemonName::try_from("TestName".to_string()).unwrap(),
        PokemonTypes::try_from(vec!["Fire".to_string()]).unwrap(),
    );
    assert_eq!(result_pokemon, expect);
}

#[test]
fn pokemon_update_service_handle_ng() {
    let repository = repository_with_one();
    let mut service = PokemonUpdateService::new(repository);
    let command = PokemonUpdateCommand::new(2);
    let result = service.handle(command);
    assert!(result.is_err());
    assert_eq!(result, Err(ServiceError::NotFound));
}

#[test]
fn register_rejects_invalid_data_in_field_order() {
    let mut service = PokemonRegisterService::new(InMemoryPokemonRepository::new());
    let bad_number = PokemonData::from_parts(0, String::new(), Vec::new());
    assert_eq!(
        service.handle(bad_number),
        Err(ServiceError::Validation(ValidationError::NumberOutOfRange))
    );
    let bad_name = PokemonData::from_parts(3, String::new(), Vec::new());
    assert_eq!(
        service.handle(bad_name),
        Err(ServiceError::Validation(ValidationError::EmptyName))
    );
    let no_types = PokemonData::from_parts(3, "Name".to_string(), Vec::new());
    assert_eq!(
        service.handle(no_types),
        Err(ServiceError::Validation(ValidationError::EmptyTypes))
    );
    let bad_type = PokemonData::from_parts(3, "Name".to_string(), vec!["Fire".to_string(), "Bogus".to_string()]);
    assert_eq!(
        service.handle(bad_type),
        Err(ServiceError::Validation(ValidationError::UnknownType))
    );
}

#[test]
fn register_twice_conflicts_and_keeps_the_first() {
    let mut service = PokemonRegisterService::new(InMemoryPokemonRepository::new());
    let first = PokemonData::from_parts(1, "First".to_string(), vec!["Fire".to_string()]);
    let second = PokemonData::from_parts(1, "Second".to_string(), vec!["Water".to_string()]);
    assert_eq!(service.handle(first), Ok(()));
    assert_eq!(service.handle(second), Err(ServiceError::Conflict));
    let distinct = PokemonData::from_parts(4, "Other".to_string(), vec!["Grass".to_string()]);
    assert_eq!(service.handle(distinct), Ok(()));
}

#[test]
fn get_rejects_out_of_range_number() {
    let service = PokemonGetService::new(repository_with_one());
    assert_eq!(
        service.handle(899),
        Err(ServiceError::Validation(ValidationError::NumberOutOfRange))
    );
}

#[test]
fn update_rejects_empty_name_and_bad_types() {
    let mut service = PokemonUpdateService::new(repository_with_one());
    let mut command = PokemonUpdateCommand::new(1);
    command.set_name(Some(String::new()));
    assert_eq!(
        service.handle(command),
        Err(ServiceError::Validation(ValidationError::EmptyName))
    );
    let mut command = PokemonUpdateCommand::new(1);
    command.set_types(Some(vec!["Hoge".to_string()]));
    assert_eq!(
        service.handle(command),
        Err(ServiceError::Validation(ValidationError::UnknownType))
    );
    let command = PokemonUpdateCommand::new(0);
    assert_eq!(
        service.handle(command),
        Err(ServiceError::Validation(ValidationError::NumberOutOfRange))
    );
}

#[test]
fn update_with_name_only_resets_types() {
    let mut service = PokemonUpdateService::new(repository_with_one());
    let mut command = PokemonUpdateCommand::new(1);
    command.set_name(Some("Renamed".to_string()));
    let updated = service.handle(command).unwrap();
    assert_eq!(updated.name.as_str(), "Renamed");
    assert_eq!(updated.types.as_vec(), &vec![PokemonType::Unknown]);
}

#[test]
fn update_command_getters() {
    let mut command = PokemonUpdateCommand::new(12);
    assert_eq!(*command.get_number(), 12);
    assert_eq!(command.get_name(), &None);
    assert_eq!(command.get_types(), &None);
    command.set_name(Some("N".to_string()));
    command.set_types(Some(vec!["Grass".to_string()]));
    assert_eq!(command.get_name(), &Some("N".to_string()));
    assert_eq!(command.get_types(), &Some(vec!["Grass".to_string()]));
}

#[test]
fn delete_rejects_out_of_range_number() {
    let mut service = PokemonDeleteService::new(repository_with_one());
    assert_eq!(
        service.handle(-5),
        Err(ServiceError::Validation(ValidationError::NumberOutOfRange))
    );
}
