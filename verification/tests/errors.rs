use rust_class_web::decimal::IntErrorKind;
use rust_class_web::errors::{AppError, ErrorKind};

fn all_variants() -> Vec<(AppError, ErrorKind, u16)> {
    let m = || "why".to_string();
    vec![
        (AppError::DbError(m()), ErrorKind::DbError, 500),
        (AppError::JwtError(m()), ErrorKind::JwtError, 401),
        (AppError::ValidationError(m()), ErrorKind::ValidationError, 400),
        (AppError::NotFound(m()), ErrorKind::NotFound, 404),
        (AppError::Unauthorized(m()), ErrorKind::Unauthorized, 401),
        (AppError::InternalError(m()), ErrorKind::InternalError, 500),
        (AppError::ParseError(m()), ErrorKind::ParseError, 400),
        (AppError::Conflict(m()), ErrorKind::Conflict, 409),
        (AppError::Forbidden(m()), ErrorKind::Forbidden, 403),
        (AppError::Timeout(m()), ErrorKind::Timeout, 408),
        (AppError::BadRequest(m()), ErrorKind::BadRequest, 400),
        (AppError::ServiceUnavailable(m()), ErrorKind::ServiceUnavailable, 503),
    ]
}

#[test]
fn every_variant_has_its_status() {
    for (error, kind, status) in all_variants() {
        assert_eq!(error.kind(), kind);
        assert_eq!(error.status_code(), status);
    }
}

#[test]
fn message_is_the_carried_text() {
    for (error, _, _) in all_variants() {
        assert_eq!(error.message(), "why");
    }
    assert_eq!(AppError::NotFound("用户ID 42 不存在".to_string()).message(), "用户ID 42 不存在");
}

#[test]
fn error_response_repeats_status_and_text() {
    for (error, _, status) in all_variants() {
        let body = error.error_response();
        assert_eq!(body.code, status as i32);
        assert_eq!(body.message, "why");
    }
}

#[test]
fn int_error_becomes_parse_error() {
    let e = AppError::from_int_error(IntErrorKind::InvalidDigit);
    assert_eq!(e.kind(), ErrorKind::ParseError);
    assert_eq!(e.status_code(), 400);
    assert_eq!(e.message(), "invalid digit found in string");
}
