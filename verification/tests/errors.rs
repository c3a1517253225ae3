//! Status codes, descriptions and the envelope of every error kind.

use authentication::errors::AppError;
use authentication::errors::STATUS_CONFLICT;
use authentication::errors::STATUS_INTERNAL;
use authentication::errors::STATUS_UNAUTHORIZED;

#[test]
fn status_codes() {
    assert_eq!(AppError::Database("x".to_string()).status_code(), 500);
    assert_eq!(AppError::KeyLoading("x".to_string()).status_code(), 500);
    assert_eq!(AppError::Jwt("x".to_string()).status_code(), 500);
    assert_eq!(AppError::PasswordVerification("x".to_string()).status_code(), 500);
    assert_eq!(AppError::PasswordHashing("x".to_string()).status_code(), 500);
    assert_eq!(AppError::Conflict.status_code(), 409);
    assert_eq!(AppError::Unauthorized.status_code(), 401);
    assert_eq!(AppError::Bcrypt("x".to_string()).status_code(), 500);
    assert_eq!(STATUS_CONFLICT, 409);
    assert_eq!(STATUS_UNAUTHORIZED, 401);
    assert_eq!(STATUS_INTERNAL, 500);
}

#[test]
fn descriptions() {
    assert_eq!(AppError::Database("down".to_string()).message(), "Database error: down");
    assert_eq!(AppError::KeyLoading("gone".to_string()).message(), "Key loading error: gone");
    assert_eq!(AppError::Jwt("bad".to_string()).message(), "JWT error: bad");
    assert_eq!(
        AppError::PasswordVerification("Task join error: cancelled".to_string()).message(),
        "Password verification error: Task join error: cancelled"
    );
    assert_eq!(
        AppError::PasswordHashing("Task join error: cancelled".to_string()).message(),
        "Password hashing error: Task join error: cancelled"
    );
    assert_eq!(AppError::Conflict.message(), "Username or email already exists");
    assert_eq!(AppError::Unauthorized.message(), "Invalid credentials");
    assert_eq!(AppError::Bcrypt("cost".to_string()).message(), "Bcrypt error: cost");
}

#[test]
fn callers_see_no_internal_detail() {
    let response = AppError::KeyLoading("Failed to read /etc/keys/private.pem".to_string())
        .into_response();
    assert_eq!(response.status, 500);
    assert_eq!(response.error, "Internal server error");
    assert_eq!(AppError::Database("x".to_string()).public_message(), "Internal server error");
    assert_eq!(AppError::Jwt("x".to_string()).public_message(), "Internal server error");
    assert_eq!(AppError::Bcrypt("x".to_string()).public_message(), "Internal server error");
    assert_eq!(
        AppError::PasswordHashing("x".to_string()).public_message(),
        "Internal server error"
    );
    assert_eq!(
        AppError::PasswordVerification("x".to_string()).public_message(),
        "Internal server error"
    );
}

#[test]
fn conflict_envelope() {
    let response = AppError::Conflict.into_response();
    assert_eq!(response.status, 409);
    assert_eq!(response.error, "Username or email already exists");
}

#[test]
fn unauthorized_envelope() {
    let response = AppError::Unauthorized.into_response();
    assert_eq!(response.status, 401);
    assert_eq!(response.error, "Invalid credentials");
}

#[test]
fn join_failure_and_algorithm_failure_look_alike_from_outside() {
    let join = AppError::PasswordVerification("Task join error: panicked".to_string());
    let algorithm = AppError::Bcrypt("Invalid hash".to_string());
    assert_ne!(join.message(), algorithm.message());
    let first = join.into_response();
    let second = algorithm.into_response();
    assert_eq!(first.status, second.status);
    assert_eq!(first.error, second.error);
}
