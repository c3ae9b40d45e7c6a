use vstd::prelude::*;
use vstd::utf8::{decode_utf8, valid_utf8};
use base64::Engine;

verus! {

#[verifier::external_type_specification]
#[verifier::external_body]
pub struct ExDecodeError(base64::DecodeError);

#[verifier::external_type_specification]
#[verifier::external_body]
pub struct ExFromUtf8Error(std::string::FromUtf8Error);

/// Why a service account key could not be recovered from its encoded form.
#[derive(Debug, Clone, Copy, PartialEq, Eq, Structural)]
pub enum KeyError {
    /// The text is not accepted by the standard base64 decoder.
    InvalidBase64,
    /// The decoded bytes are not UTF-8.
    InvalidUtf8,
}

/// The bytes that the standard base64 engine of the `base64` crate (standard
/// alphabet, padding accepted) decodes `input` to, or `None` where it rejects it.
pub uninterp spec fn standard_base64_decoding(input: Seq<char>) -> Option<Seq<u8>>;

/// Calls `base64::engine::general_purpose::STANDARD.decode` on the bytes of
/// `input`. Claimed: the outcome is a function of `input` alone, named
/// [`standard_base64_decoding`]; what that function is (the base64 alphabet,
/// padding and trailing-bit rules) is left unsaid.
#[verifier::external_body]
fn base64_standard_decode(input: &str) -> (r: Result<Vec<u8>, base64::DecodeError>)
    ensures
        match r {
            Ok(bytes) => standard_base64_decoding(input@) == Some(bytes@),
            Err(_) => standard_base64_decoding(input@) is None,
        },
{
    base64::engine::general_purpose::STANDARD.decode(input)
}

/// Calls `String::from_utf8`. Claimed, as its documentation says: it succeeds
/// exactly on valid UTF-8, and then the string holds the decoded characters.
#[verifier::external_body]
fn string_from_utf8(bytes: Vec<u8>) -> (r: Result<String, std::string::FromUtf8Error>)
    ensures
        match r {
            Ok(s) => valid_utf8(bytes@) && s@ == decode_utf8(bytes@),
            Err(_) => !valid_utf8(bytes@),
        },
{
    String::from_utf8(bytes)
}

/// The key text that decoded bytes stand for: the bytes read as UTF-8.
pub open spec fn key_text(decoded: Option<Seq<u8>>) -> Result<Seq<char>, KeyError> {
    match decoded {
        None => Err(KeyError::InvalidBase64),
        Some(bytes) => if valid_utf8(bytes) {
            Ok(decode_utf8(bytes))
        } else {
            Err(KeyError::InvalidUtf8)
        },
    }
}

pub open spec fn key_result_matches(r: Result<String, KeyError>, expected: Result<Seq<char>, KeyError>) -> bool {
    match r {
        Ok(s) => expected == Ok::<Seq<char>, KeyError>(s@),
        Err(e) => expected == Err::<Seq<char>, KeyError>(e),
    }
}

/// Turns the outcome of base64 decoding into the key text: a decoding error
/// is `InvalidBase64`, bytes that are not UTF-8 are `InvalidUtf8`.
pub fn service_account_key_text(decoded: Result<Vec<u8>, base64::DecodeError>) -> (r: Result<String, KeyError>)
    ensures
        key_result_matches(
            r,
            key_text(
                match decoded {
                    Ok(bytes) => Some(bytes@),
                    Err(_) => None,
                },
            ),
        ),
{
    match decoded {
        Ok(bytes) => match string_from_utf8(bytes) {
            Ok(s) => Ok(s),
            Err(_) => Err(KeyError::InvalidUtf8),
        },
        Err(_) => Err(KeyError::InvalidBase64),
    }
}

/// Recovers the service account key (a JSON text) from its base64 form.
pub fn decode_service_account_key(encoded: &str) -> (r: Result<String, KeyError>)
    ensures
        key_result_matches(r, key_text(standard_base64_decoding(encoded@))),
{
    let decoded = base64_standard_decode(encoded);
    service_account_key_text(decoded)
}

/// Decoded bytes that are valid UTF-8 give exactly the characters they encode;
/// only bytes that are not UTF-8 are refused as `InvalidUtf8`, and only a
/// failed base64 decoding is refused as `InvalidBase64`.
pub proof fn lemma_key_text_exact(bytes: Seq<u8>)
    ensures
        valid_utf8(bytes) ==> key_text(Some(bytes)) == Ok::<Seq<char>, KeyError>(decode_utf8(bytes)),
        !valid_utf8(bytes) ==> key_text(Some(bytes)) == Err::<Seq<char>, KeyError>(KeyError::InvalidUtf8),
        key_text(None) == Err::<Seq<char>, KeyError>(KeyError::InvalidBase64),
{
}

/// The key text is the decoded string itself whenever decoding succeeds: a
/// result `Ok(s)` of `service_account_key_text` holds exactly the characters of
/// the decoded bytes, and valid UTF-8 bytes always give such a result.
pub proof fn lemma_key_text_result(r: Result<String, KeyError>, bytes: Seq<u8>)
    requires
        key_result_matches(r, key_text(Some(bytes))),
    ensures
        valid_utf8(bytes) <==> r is Ok,
        r matches Ok(s) ==> s@ == decode_utf8(bytes),
        r matches Err(e) ==> e == KeyError::InvalidUtf8,
{
}

} // verus!
