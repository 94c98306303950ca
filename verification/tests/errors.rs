//! The error taxonomy's response mapping: status codes, code labels, and
//! diagnostic messages.

use api_db_rs::model::error::{AppError, ErrorCode};

#[test]
fn statuses_follow_the_taxonomy() {
    assert_eq!(AppError::RecordNotFound("x".to_string()).status(), 404);
    assert_eq!(AppError::RecordFound("x".to_string()).status(), 400);
    assert_eq!(AppError::DatabaseError("x".to_string()).status(), 500);
    assert_eq!(AppError::ApplicationError("x".to_string()).status(), 500);
}

#[test]
fn codes_follow_the_taxonomy() {
    assert_eq!(
        ErrorCode::from(AppError::RecordNotFound("x".to_string())),
        ErrorCode::DataError
    );
    assert_eq!(
        ErrorCode::from(AppError::RecordFound("x".to_string())),
        ErrorCode::DataError
    );
    assert_eq!(
        ErrorCode::from(AppError::DatabaseError("x".to_string())),
        ErrorCode::RepositoryError
    );
    assert_eq!(
        ErrorCode::from(AppError::ApplicationError("x".to_string())),
        ErrorCode::ApplicationError
    );
}

#[test]
fn labels_are_uppercase_underscore() {
    assert_eq!(ErrorCode::DataError.as_label(), "DATA_ERROR");
    assert_eq!(ErrorCode::RepositoryError.as_label(), "REPOSITORY_ERROR");
    assert_eq!(ErrorCode::ApplicationError.as_label(), "APPLICATION_ERROR");
}

#[test]
fn messages_carry_the_detail() {
    assert_eq!(
        AppError::RecordNotFound("id not found 9".to_string()).message(),
        "record not found id not found 9"
    );
    assert_eq!(
        AppError::RecordFound("x".to_string()).message(),
        "record already exist x"
    );
    assert_eq!(
        AppError::DatabaseError("x".to_string()).message(),
        "error with repository x"
    );
    assert_eq!(
        AppError::ApplicationError("x".to_string()).message(),
        "error with application x"
    );
}

#[test]
fn responses_carry_status_code_and_message() {
    let (status, body) = AppError::RecordNotFound("id not found 2".to_string()).into_response();
    assert_eq!(status, 404);
    assert!(matches!(body.code, ErrorCode::DataError));
    assert_eq!(body.message, "record not found id not found 2");

    let (status, body) = AppError::DatabaseError("no connection".to_string()).into_response();
    assert_eq!(status, 500);
    assert!(matches!(body.code, ErrorCode::RepositoryError));
    assert_eq!(body.message, "error with repository no connection");
}
