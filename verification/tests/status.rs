use void_upload::status::Status;

#[test]
fn status_codes() {
    assert_eq!(Status::Success.code(), 200);
    assert_eq!(Status::NotFound.code(), 404);
    assert_eq!(Status::MethodNotAllowed.code(), 405);
    assert_eq!(Status::ServerError.code(), 500);
}

#[test]
fn status_classes() {
    assert!(Status::Success.is_success());
    assert!(!Status::Success.is_client_error());
    assert!(!Status::Success.is_server_error());
    assert!(Status::NotFound.is_client_error());
    assert!(Status::MethodNotAllowed.is_client_error());
    assert!(!Status::NotFound.is_success());
    assert!(!Status::MethodNotAllowed.is_server_error());
    assert!(Status::ServerError.is_server_error());
    assert!(!Status::ServerError.is_success());
    assert!(!Status::ServerError.is_client_error());
}
