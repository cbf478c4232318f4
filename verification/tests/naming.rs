use swagg::naming::{needs_rename, to_constant_name, to_field_name, to_function_name};
use swagg::naming::{to_struct_name, to_type_name, to_variant_name};

fn is_valid_identifier(s: &str) -> bool {
    !s.is_empty()
        && !s.chars().next().unwrap().is_ascii_digit()
        && s.chars().all(|c| c.is_ascii_alphanumeric() || c == '_')
}

#[test]
fn type_names_are_pascal() {
    assert_eq!(to_type_name("snake_case_name"), "SnakeCaseName".to_string());
    assert_eq!(to_struct_name("UPPER_CASE_NAME"), "UpperCaseName".to_string());
    assert_eq!(to_struct_name("THIS-IS-FIELDS"), "ThisIsFields".to_string());
    assert_eq!(to_variant_name("code_invalid_or_expired"), "CodeInvalidOrExpired".to_string());
}

#[test]
fn field_names_are_snake() {
    assert_eq!(to_field_name("firstName"), "first_name".to_string());
    assert_eq!(to_field_name("UPPER"), "upper".to_string());
    assert_eq!(to_function_name("sessionCreate"), "session_create".to_string());
}

#[test]
fn constant_names_are_upper() {
    assert_eq!(to_constant_name("BadRequest"), "BAD_REQUEST".to_string());
    assert_eq!(to_constant_name("Ok"), "OK".to_string());
}

#[test]
fn naming_is_total_and_pure() {
    let samples = vec![
        "hello world",
        "123",
        "",
        "-- --",
        "ARE_YOU_SURE",
        "simple_LONG_DescriptionFor-Me",
        "a-b c_d9",
        "   ",
        "9lives",
    ];
    for sample in samples {
        let once = to_field_name(sample);
        let twice = to_field_name(sample);
        assert_eq!(once, twice);
        assert!(is_valid_identifier(&once), "bad identifier from {:?}: {:?}", sample, once);
        let type_once = to_type_name(sample);
        assert!(is_valid_identifier(&type_once));
    }
}

#[test]
fn empty_input_maps_to_placeholder() {
    assert_eq!(to_field_name(""), "unnamed".to_string());
    assert_eq!(to_type_name(""), "unnamed".to_string());
}

#[test]
fn leading_digit_is_guarded() {
    assert_eq!(to_field_name("123"), "_123".to_string());
}

#[test]
fn rename_detection() {
    let converted = to_field_name("firstName");
    assert!(needs_rename("firstName", &converted));
    let unchanged = to_field_name("first_name");
    assert!(!needs_rename("first_name", &unchanged));
}
