use void_upload::endpoint::respond;
use void_upload::response::Response;
use void_upload::status::Status;

#[test]
fn post_void_with_hello_is_200() {
    let response = respond("POST", "/void", &[Ok(b"hello")]);
    assert_eq!(response, Response::bare(Status::Success));
    assert_eq!(response.status.code(), 200);
}

#[test]
fn post_root_with_three_chunks_is_200() {
    let a = vec![0u8; 1000];
    let b = vec![0u8; 2000];
    let c = vec![0u8; 500];
    let response = respond("POST", "/", &[Ok(&a), Ok(&b), Ok(&c)]);
    assert_eq!(response, Response::bare(Status::Success));
    assert_eq!(response.status.code(), 200);
}

#[test]
fn post_void_that_errors_after_ten_bytes_is_500() {
    let body: Vec<Result<&[u8], String>> =
        vec![Ok(b"0123456789"), Err(String::from("connection reset by peer"))];
    let response = respond("POST", "/void", &body);
    assert_eq!(response, Response::bare(Status::ServerError));
    assert_eq!(response.status.code(), 500);
}

#[test]
fn get_root_is_200_with_greeting_headers_and_text() {
    let response = respond("GET", "/", &[]);
    assert_eq!(response.status.code(), 200);
    assert_eq!(response.headers.len(), 2);
    assert_eq!(response.headers.get("content-type").unwrap(), "text/plain");
    assert_eq!(response.headers.get("cache-control").unwrap(), "no-cache");
    assert_eq!(response.body, Some("Hello, World!"));
}

#[test]
fn repeated_get_root_is_answered_alike() {
    let quiet = respond("GET", "/", &[]);
    let noisy = respond("GET", "/", &[Ok(b"a body that nobody reads"), Err(String::from("x"))]);
    assert_eq!(quiet, noisy);
    assert_eq!(respond("GET", "/", &[]), quiet);
}

#[test]
fn delete_root_is_a_4xx() {
    let response = respond("DELETE", "/", &[]);
    assert_eq!(response, Response::bare(Status::MethodNotAllowed));
    assert_eq!(response.status.code(), 405);
    assert!(response.status.is_client_error());
}

#[test]
fn post_root_with_empty_body_is_200() {
    let response = respond("POST", "/", &[]);
    assert_eq!(response, Response::bare(Status::Success));
    assert_eq!(response.status.code(), 200);
}

#[test]
fn unrouted_requests_are_4xx_whatever_the_body() {
    let body: Vec<Result<&[u8], String>> = vec![Ok(b"ignored"), Err(String::from("reset"))];
    assert_eq!(respond("POST", "/elsewhere", &body), Response::bare(Status::NotFound));
    assert_eq!(respond("PUT", "/void", &body), Response::bare(Status::MethodNotAllowed));
    assert_eq!(respond("GET", "/void", &body), Response::bare(Status::MethodNotAllowed));
    assert_eq!(respond("GET", "/elsewhere", &[]).status.code(), 404);
}

#[test]
fn upload_that_fails_on_the_first_pull_is_500() {
    let body: Vec<Result<&[u8], String>> = vec![Err(String::from("reset"))];
    assert_eq!(respond("POST", "/", &body), Response::bare(Status::ServerError));
}
