use desk_core::auth::{
    clear_session, get_current_user, validate_token, AuthError, AuthErrorKind,
};
use desk_core::common::{ApiResponse, AppError, ErrorKind};

#[test]
fn app_error_constructors() {
    let error = AppError::new(ErrorKind::Permission, "denied");
    assert_eq!(error.kind, ErrorKind::Permission);
    assert_eq!(error.message, "denied");
    assert_eq!(error.details, None);
    assert_eq!(AppError::config("m").kind, ErrorKind::Config);
    assert_eq!(AppError::io("m").kind, ErrorKind::Io);
    assert_eq!(AppError::window("m").kind, ErrorKind::Window);
    assert_eq!(AppError::auth("m").kind, ErrorKind::Auth);
    assert_eq!(AppError::not_found("m").kind, ErrorKind::NotFound);
    assert_eq!(AppError::invalid_input("m").kind, ErrorKind::InvalidInput);
    assert_eq!(AppError::config("m"), AppError::new(ErrorKind::Config, "m"));
    assert_eq!(AppError::io("the message").message, "the message");
}

#[test]
fn app_error_details_and_wording() {
    let plain = AppError::not_found("no such file");
    assert_eq!(plain.to_string(), "NotFound: no such file");
    let detailed = plain.clone().with_details("/tmp/x");
    assert_eq!(detailed.kind, ErrorKind::NotFound);
    assert_eq!(detailed.message, "no such file");
    assert_eq!(detailed.details, Some("/tmp/x".to_string()));
    assert_eq!(detailed.to_string(), "NotFound: no such file (/tmp/x)");
    let replaced = detailed.with_details("other");
    assert_eq!(replaced.to_string(), "NotFound: no such file (other)");
    assert_eq!(AppError::invalid_input("x").to_string(), "InvalidInput: x");
    assert_eq!(AppError::new(ErrorKind::Serialization, "x").to_string(), "Serialization: x");
    assert_eq!(AppError::new(ErrorKind::Unknown, "").to_string(), "Unknown: ");
    let text: String = AppError::config("bad").into();
    assert_eq!(text, "Config: bad");
}

#[test]
fn app_error_from_an_io_error() {
    let source = std::io::Error::new(std::io::ErrorKind::Other, "disk on fire");
    let error: AppError = source.into();
    assert_eq!(error.kind, ErrorKind::Io);
    assert_eq!(error.message, "disk on fire");
    assert_eq!(error.details, None);
}

#[test]
fn api_responses() {
    let ok = ApiResponse::success(5);
    assert_eq!(ok, ApiResponse { success: true, data: Some(5), error: None, message: None });
    let with_message = ApiResponse::success_with_message("x", "saved");
    assert_eq!(
        with_message,
        ApiResponse { success: true, data: Some("x"), error: None, message: Some("saved".to_string()) }
    );
    let failed: ApiResponse<u8> = ApiResponse::error("boom");
    assert_eq!(
        failed,
        ApiResponse { success: false, data: None, error: Some("boom".to_string()), message: None }
    );
}

#[test]
fn session_commands() {
    assert_eq!(validate_token("abc"), Ok(true));
    assert_eq!(validate_token(""), Ok(false));
    assert_eq!(validate_token(" "), Ok(true));
    assert_eq!(get_current_user(), Ok(None));
    assert_eq!(clear_session(), Ok(()));
}

#[test]
fn auth_error_wording() {
    let error = AuthError { kind: AuthErrorKind::TokenExpired, message: "sign in again".to_string() };
    assert_eq!(error.to_string(), "TokenExpired: sign in again");
    let error = AuthError { kind: AuthErrorKind::InvalidCredentials, message: String::new() };
    assert_eq!(error.to_string(), "InvalidCredentials: ");
    assert_eq!(AuthErrorKind::NetworkError.as_str(), "NetworkError");
    assert_eq!(format!("{:?}", AuthErrorKind::UserDisabled), AuthErrorKind::UserDisabled.as_str());
    assert_eq!(format!("{:?}", ErrorKind::InvalidInput), ErrorKind::InvalidInput.as_str());
}
