use dictionary_api::error::AppError;

#[test]
fn messages_of_errors() {
    assert_eq!(AppError::BadRequest.message(), "Invalid Input provided");
    assert_eq!(AppError::Internal.message(), "Internal Server Error");
    assert_eq!(AppError::NotFound.message(), "Not found");
    assert_eq!(AppError::Timeout.message(), "Request timeout");
}

#[test]
fn statuses_of_errors() {
    assert_eq!(AppError::BadRequest.status_code(), 400);
    assert_eq!(AppError::Internal.status_code(), 500);
    assert_eq!(AppError::NotFound.status_code(), 404);
    assert_eq!(AppError::Timeout.status_code(), 504);
}
