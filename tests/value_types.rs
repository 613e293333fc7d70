use pokedex::{PokemonName, PokemonNumber, PokemonType, PokemonTypes, ValidationError};

#[test]
fn pokemon_name_try_from_ok() {
    let good_name = String::from("hogehoge");
    let result = PokemonName::try_from(good_name.clone());
    let expect: Result<String, ValidationError> = Ok(good_name.clone());

    assert!(result.map(String::from).eq(&expect));
}

#[test]
fn pokemon_name_try_from_ng() {
    let bad_name = String::from("");
    let result = PokemonName::try_from(bad_name);
    let expect = Err(ValidationError::EmptyName);

    assert!(result.eq(&expect));
}

#[test]
fn pokemon_number_try_from_ok() {
    let good_number = 1;
    let result = PokemonNumber::try_from(good_number);
    let expect: Result<i32, ValidationError> = Ok(1);

    assert!(result.map(i32::from).eq(&expect));
}

#[test]
fn pokemon_number_try_from_ng_over_num() {
    let bad_number = 900;
    let result = PokemonNumber::try_from(bad_number);
    let expect = Err(ValidationError::NumberOutOfRange);

    assert!(result.eq(&expect));
}

#[test]
fn pokemon_number_try_from_ng_lower_num() {
    let bad_number = 0;
    let result = PokemonNumber::try_from(bad_number);
    let expect = Err(ValidationError::NumberOutOfRange);

    assert!(result.eq(&expect));
}

#[test]
fn pokemon_type_try_from_ok_fire() {
    let good_type = String::from("Fire");
    let result = PokemonType::try_from(good_type.clone());
    let expect = Ok(PokemonType::Fire);

    assert!(result.eq(&expect));
}

#[test]
fn pokemon_type_try_from_ok_water() {
    let good_type = String::from("Water");
    let result = PokemonType::try_from(good_type.clone());
    let expect = Ok(PokemonType::Water);

    assert!(result.eq(&expect));
}

#[test]
fn pokemon_type_try_from_ok_grass() {
    let good_type = String::from("Grass");
    let result = PokemonType::try_from(good_type.clone());
    let expect = Ok(PokemonType::Grass);

    assert!(result.eq(&expect));
}

#[test]
fn pokemon_type_try_from_ok_electric() {
    let good_type = String::from("Electric");
    let result = PokemonType::try_from(good_type.clone());
    let expect = Ok(PokemonType::Electric);

    assert!(result.eq(&expect));
}

#[test]
fn pokemon_type_try_from_ok_flying() {
    let good_type = String::from("Flying");
    let result = PokemonType::try_from(good_type.clone());
    let expect = Ok(PokemonType::Flying);

    assert!(result.eq(&expect));
}

#[test]
fn pokemon_type_try_from_ng() {
    let bad_type = String::from("Hoge");
    let result = PokemonType::try_from(bad_type.clone());
    let expect = Err(ValidationError::UnknownType);

    assert!(result.eq(&expect));
}

#[test]
fn pokemon_types_try_from_ok() {
    let good_type1 = String::from("Fire");
    let good_type2 = String::from("Water");
    let good_types = vec![good_type1, good_type2];
    let result = PokemonTypes::try_from(good_types);
    let expect: Result<Vec<PokemonType>, ValidationError> =
        Ok(vec![PokemonType::Fire, PokemonType::Water]);

    assert!(result.map(|t| t.as_vec().clone()).eq(&expect));
}

#[test]
fn pokemon_number_try_from_ng() {
    let bad_type1 = String::from("Hoge");
    let bad_type2 = String::from("Moge");
    let bad_types = vec![bad_type1, bad_type2];
    let result = PokemonTypes::try_from(bad_types);
    let expect = Err(ValidationError::UnknownType);

    assert!(result.eq(&expect));
}

#[test]
fn pokemon_number_try_from_partial_ok() {
    let good_type = String::from("Fire");
    let bad_type = String::from("Hoge");
    let partial_good_types = vec![good_type, bad_type];
    let result = PokemonTypes::try_from(partial_good_types);
    let expect = Err(ValidationError::UnknownType);

    assert!(result.eq(&expect));
}

#[test]
fn number_bounds_are_inclusive() {
    assert_eq!(PokemonNumber::try_from(1).map(i32::from), Ok(1));
    assert_eq!(PokemonNumber::try_from(898).map(i32::from), Ok(898));
    assert_eq!(
        PokemonNumber::try_from(899),
        Err(ValidationError::NumberOutOfRange)
    );
    assert_eq!(
        PokemonNumber::try_from(-1),
        Err(ValidationError::NumberOutOfRange)
    );
    assert_eq!(
        PokemonNumber::try_from(i32::MIN),
        Err(ValidationError::NumberOutOfRange)
    );
    assert_eq!(
        PokemonNumber::try_from(i32::MAX),
        Err(ValidationError::NumberOutOfRange)
    );
}

#[test]
fn number_value_round_trip() {
    let n = PokemonNumber::try_from(25).unwrap();
    assert_eq!(n.value(), 25);
    assert_eq!(i32::from(n.clone()), 25);
    assert!(n < PokemonNumber::try_from(26).unwrap());
}

#[test]
fn name_accepts_any_non_empty_text() {
    assert_eq!(PokemonName::try_from("a".to_string()).map(String::from), Ok("a".to_string()));
    assert_eq!(PokemonName::try_from(" ".to_string()).map(String::from), Ok(" ".to_string()));
    let name = PokemonName::try_from("ピカチュウ".to_string()).unwrap();
    assert_eq!(name.as_str(), "ピカチュウ");
}

#[test]
fn unset_name_is_the_placeholder() {
    assert_eq!(String::from(PokemonName::unset()), "名前未設定");
}

#[test]
fn type_tags_are_case_sensitive_and_exact() {
    assert_eq!(PokemonType::try_from("fire".to_string()), Err(ValidationError::UnknownType));
    assert_eq!(PokemonType::try_from("Fire ".to_string()), Err(ValidationError::UnknownType));
    assert_eq!(PokemonType::try_from("".to_string()), Err(ValidationError::UnknownType));
}

#[test]
fn placeholder_type_is_not_a_recognised_tag() {
    assert_eq!(PokemonType::try_from("Unknown".to_string()), Err(ValidationError::UnknownType));
    assert_eq!(PokemonType::Unknown.name(), "Unknown");
}

#[test]
fn type_names_round_trip() {
    for t in [
        PokemonType::Fire,
        PokemonType::Water,
        PokemonType::Grass,
        PokemonType::Electric,
        PokemonType::Flying,
    ] {
        assert_eq!(PokemonType::try_from(String::from(t)), Ok(t));
    }
    assert_eq!(String::from(PokemonType::Electric), "Electric");
}

#[test]
fn empty_type_list_is_rejected() {
    assert_eq!(PokemonTypes::try_from(Vec::new()), Err(ValidationError::EmptyTypes));
}

#[test]
fn type_list_keeps_order_and_duplicates() {
    let tags = vec!["Water".to_string(), "Fire".to_string(), "Water".to_string()];
    let types = PokemonTypes::try_from(tags.clone()).unwrap();
    assert_eq!(
        types.as_vec(),
        &vec![PokemonType::Water, PokemonType::Fire, PokemonType::Water]
    );
    assert_eq!(Vec::<String>::from(types), tags);
}

#[test]
fn bad_tag_anywhere_rejects_the_list() {
    let tags = vec!["Bogus".to_string(), "Fire".to_string()];
    assert_eq!(PokemonTypes::try_from(tags), Err(ValidationError::UnknownType));
}

#[test]
fn unset_types_is_the_placeholder() {
    let types = PokemonTypes::unset();
    assert_eq!(types.as_vec(), &vec![PokemonType::Unknown]);
    assert_eq!(types.to_names(), vec!["Unknown".to_string()]);
}
