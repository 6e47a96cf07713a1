use tyria::params::{number_to_param, numbers_to_param, string_to_param, string_vec_to_param,
    strings_to_param};

#[test]
fn number_param_basic() {
    assert_eq!(number_to_param("id", 42), "id=42");
}

#[test]
fn number_param_zero() {
    assert_eq!(number_to_param("id", 0), "id=0");
}

#[test]
fn number_param_negative() {
    assert_eq!(number_to_param("id", -7), "id=-7");
}

#[test]
fn number_param_extremes() {
    assert_eq!(number_to_param("id", i32::MAX), "id=2147483647");
    assert_eq!(number_to_param("id", i32::MIN), "id=-2147483648");
}

#[test]
fn numbers_param_joins_with_commas() {
    let ids = vec![1, 2, 3, 4, 5, 42];
    assert_eq!(numbers_to_param("ids", &ids), "ids=1,2,3,4,5,42");
}

#[test]
fn numbers_param_single_value_has_no_separator() {
    assert_eq!(numbers_to_param("ids", &vec![5]), "ids=5");
}

#[test]
fn numbers_param_empty_list() {
    assert_eq!(numbers_to_param("ids", &vec![]), "ids=");
}

#[test]
fn numbers_param_round_trip() {
    let encoded = numbers_to_param("ids", &vec![1, 2, 3]);
    let mut halves = encoded.split('=');
    assert_eq!(halves.next(), Some("ids"));
    let values: Vec<&str> = halves.next().expect("missing value part").split(',').collect();
    assert_eq!(halves.next(), None);
    assert_eq!(values, vec!["1", "2", "3"]);
    assert!(values.iter().all(|v| !v.is_empty()));
}

#[test]
fn string_param_basic() {
    assert_eq!(string_to_param("id", "my-id"), "id=my-id");
}

#[test]
fn strings_param_joins_with_commas() {
    assert_eq!(strings_to_param("id", vec!["my-id", "my-id-2"]), "id=my-id,my-id-2");
}

#[test]
fn strings_param_single_value_has_no_separator() {
    assert_eq!(strings_to_param("ids", vec!["only"]), "ids=only");
}

#[test]
fn strings_param_empty_list() {
    assert_eq!(strings_to_param("ids", vec![]), "ids=");
}

#[test]
fn string_vec_param_matches_borrowed_form() {
    let owned = vec!["Thief".to_string(), "Necromancer".to_string()];
    assert_eq!(string_vec_to_param("ids", &owned), "ids=Thief,Necromancer");
    assert_eq!(
        string_vec_to_param("ids", &owned),
        strings_to_param("ids", vec!["Thief", "Necromancer"])
    );
}
