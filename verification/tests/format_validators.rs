use dictionary_api::format_validators::{format_validation_errors, ErrorResponse, ValidationErrorFormatter};
use validator::{ValidationError, ValidationErrors};

fn with_message(code: &'static str, message: &'static str) -> ValidationError {
    let mut e = ValidationError::new(code);
    e.message = Some(std::borrow::Cow::Borrowed(message));
    e
}

fn sorted(resp: &ErrorResponse) -> Vec<(String, Vec<String>)> {
    let mut v = resp.errors.clone();
    v.sort();
    v
}

#[test]
fn no_errors_give_an_empty_response() {
    let errs = ValidationErrors::new();
    let resp = format_validation_errors(&errs);
    assert!(resp.errors.is_empty());
}

#[test]
fn messages_are_kept_in_order_and_missing_ones_defaulted() {
    let mut errs = ValidationErrors::new();
    errs.add("value", with_message("required", "Search query is required"));
    errs.add("value", ValidationError::new("length"));
    let resp = format_validation_errors(&errs);
    assert_eq!(
        sorted(&resp),
        vec![(
            "value".to_string(),
            vec!["Search query is required".to_string(), "Invalid value".to_string()]
        )]
    );
}

#[test]
fn every_field_occurs_once() {
    let mut errs = ValidationErrors::new();
    errs.add("value", with_message("special_char", "Field can not be special character"));
    errs.add("other", ValidationError::new("length"));
    let resp = format_validation_errors(&errs);
    assert_eq!(
        sorted(&resp),
        vec![
            ("other".to_string(), vec!["Invalid value".to_string()]),
            ("value".to_string(), vec!["Field can not be special character".to_string()]),
        ]
    );
}

#[test]
fn formatter_trait_gives_the_same_response() {
    let mut errs = ValidationErrors::new();
    errs.add("value", with_message("empty_string", "Field can not be empty string"));
    let resp = errs.format_errors();
    assert_eq!(
        sorted(&resp),
        vec![("value".to_string(), vec!["Field can not be empty string".to_string()])]
    );
}

#[test]
fn refusal_status_is_bad_request() {
    let resp = format_validation_errors(&ValidationErrors::new());
    assert_eq!(resp.status_code(), 400);
}
