use dictionary_api::validation::{check_value, custom_validation, ValueFault};

#[test]
fn plain_word_is_accepted() {
    assert_eq!(check_value("hello"), Ok(()));
    assert!(custom_validation("hello").is_ok());
}

#[test]
fn empty_text_is_accepted() {
    assert_eq!(check_value(""), Ok(()));
}

#[test]
fn letters_and_digits_of_any_script_are_accepted() {
    assert_eq!(check_value("héllo"), Ok(()));
    assert_eq!(check_value("word42"), Ok(()));
    assert_eq!(check_value("١٢٣"), Ok(()));
}

#[test]
fn empty_quoted_string_is_refused() {
    assert_eq!(check_value("\"\""), Err(ValueFault::EmptyString));
}

#[test]
fn padded_empty_quoted_string_is_refused_as_empty() {
    assert_eq!(check_value("  \"\"\t\n"), Err(ValueFault::EmptyString));
}

#[test]
fn quoted_space_is_a_special_character() {
    assert_eq!(check_value("\" \""), Err(ValueFault::SpecialChar));
}

#[test]
fn inner_space_is_a_special_character() {
    assert_eq!(check_value("hel lo"), Err(ValueFault::SpecialChar));
}

#[test]
fn quote_and_punctuation_are_special_characters() {
    assert_eq!(check_value("a'b"), Err(ValueFault::SpecialChar));
    assert_eq!(check_value("x-y"), Err(ValueFault::SpecialChar));
    assert_eq!(check_value("\""), Err(ValueFault::SpecialChar));
}

#[test]
fn fault_codes_and_messages() {
    assert_eq!(ValueFault::EmptyString.code(), "empty_string");
    assert_eq!(ValueFault::EmptyString.message(), "Field can not be empty string");
    assert_eq!(ValueFault::SpecialChar.code(), "special_char");
    assert_eq!(ValueFault::SpecialChar.message(), "Field can not be special character");
}

#[test]
fn custom_validation_reports_empty_string() {
    let err = custom_validation(" \"\" ").unwrap_err();
    assert_eq!(err.code, "empty_string");
    assert_eq!(err.message.as_deref(), Some("Field can not be empty string"));
    assert!(err.params.is_empty());
}

#[test]
fn custom_validation_reports_special_char() {
    let err = custom_validation("rock&roll").unwrap_err();
    assert_eq!(err.code, "special_char");
    assert_eq!(err.message.as_deref(), Some("Field can not be special character"));
}

#[test]
fn unicode_white_space_is_trimmed() {
    assert_eq!(check_value("\u{3000}\"\"\u{00A0}\u{2028}"), Err(ValueFault::EmptyString));
    assert_eq!(check_value("\u{200B}\"\""), Err(ValueFault::SpecialChar));
}

#[test]
fn refused_values_carry_no_params() {
    assert!(custom_validation("\"\"").unwrap_err().params.is_empty());
    assert!(custom_validation("a b").unwrap_err().params.is_empty());
}
