use recipe_service::error::{AppError, AppErrorType};

fn error(message: Option<&str>, kind: AppErrorType) -> AppError {
    AppError { message: message.map(|m| m.to_string()), cause: Some("internal detail".to_string()), error_type: kind }
}

#[test]
fn default_messages_by_kind() {
    assert_eq!(error(None, AppErrorType::NotFoundError).message(), "The requested item was not found");
    assert_eq!(error(None, AppErrorType::InvalidField).message(), "Invalid field value provided");
    assert_eq!(error(None, AppErrorType::DbError).message(), "An unexpected error has occurred");
    assert_eq!(error(None, AppErrorType::IOError).message(), "An unexpected error has occurred");
}

#[test]
fn set_message_wins() {
    assert_eq!(error(Some("Recipe not found"), AppErrorType::NotFoundError).message(), "Recipe not found");
    assert_eq!(error(Some(""), AppErrorType::DbError).message(), "");
}

#[test]
fn cause_never_shown() {
    for kind in [AppErrorType::DbError, AppErrorType::NotFoundError, AppErrorType::InvalidField, AppErrorType::IOError] {
        assert_ne!(error(None, kind).message(), "internal detail");
    }
}

#[test]
fn not_found_has_no_message() {
    let e = AppError::not_found();
    assert_eq!(e.message, None);
    assert_eq!(e.cause, None);
    assert_eq!(e.error_type, AppErrorType::NotFoundError);
}

#[test]
fn duplicate_copies_every_field() {
    let e = error(Some("m"), AppErrorType::InvalidField);
    let d = e.duplicate();
    assert_eq!(d.message, e.message);
    assert_eq!(d.cause, e.cause);
    assert_eq!(d.error_type, e.error_type);
}

#[test]
fn io_failure_is_classified() {
    let e = AppError::from_io_error(std::io::Error::new(std::io::ErrorKind::NotFound, "no such directory"));
    assert_eq!(e.error_type, AppErrorType::IOError);
    assert_eq!(e.message, None);
    assert_eq!(e.cause.as_deref(), Some("no such directory"));
}

#[test]
fn store_failure_is_classified() {
    let io = std::io::Error::new(std::io::ErrorKind::Other, "connection dropped");
    let e = AppError::from_db_error(mongodb::error::Error::from(mongodb::error::ErrorKind::Io(io)));
    assert_eq!(e.error_type, AppErrorType::DbError);
    assert_eq!(e.message, None);
    assert_eq!(e.cause.as_deref(), Some("connection dropped"));
    assert_eq!(e.message(), "An unexpected error has occurred");
}
