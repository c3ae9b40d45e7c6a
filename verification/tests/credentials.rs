use dictionary_api::credentials::{decode_service_account_key, service_account_key_text, KeyError};

#[test]
fn decodes_a_base64_key() {
    assert_eq!(decode_service_account_key("eyJrIjoxfQ=="), Ok("{\"k\":1}".to_string()));
}

#[test]
fn decodes_the_empty_key() {
    assert_eq!(decode_service_account_key(""), Ok(String::new()));
}

#[test]
fn rejects_text_that_is_not_base64() {
    assert_eq!(decode_service_account_key("!!!!"), Err(KeyError::InvalidBase64));
    assert_eq!(decode_service_account_key("eyJrIjoxfQ"), Err(KeyError::InvalidBase64));
    assert_eq!(decode_service_account_key("eyJ=rIjoxfQ"), Err(KeyError::InvalidBase64));
}

#[test]
fn rejects_bytes_that_are_not_utf8() {
    assert_eq!(decode_service_account_key("/w=="), Err(KeyError::InvalidUtf8));
}

#[test]
fn key_text_from_decoded_bytes() {
    assert_eq!(service_account_key_text(Ok(vec![104, 105])), Ok("hi".to_string()));
    assert_eq!(service_account_key_text(Ok(vec![0xc3, 0xa9])), Ok("é".to_string()));
    assert_eq!(service_account_key_text(Ok(vec![0xc3])), Err(KeyError::InvalidUtf8));
    assert_eq!(
        service_account_key_text(Err(base64::DecodeError::InvalidPadding)),
        Err(KeyError::InvalidBase64)
    );
}
