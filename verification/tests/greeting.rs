use axum::http::header::{CACHE_CONTROL, CONTENT_TYPE};
use void_upload::greeting::hello;
use void_upload::response::Response;
use void_upload::route::{route, Route};
use void_upload::status::Status;

#[test]
fn get_root_answers_with_the_greeting() {
    assert_eq!(route("GET", "/"), Route::Hello);
    let response = hello();
    assert_eq!(response.status, Status::Success);
    assert_eq!(response.status.code(), 200);
    assert_eq!(response.headers.get("Content-Type").unwrap(), "text/plain");
    assert_eq!(response.headers.get("Cache-Control").unwrap(), "no-cache");
    assert_eq!(response.body, Some("Hello, World!"));
}

#[test]
fn greeting_has_two_header_fields_with_one_value_each() {
    let headers = hello().headers;
    assert_eq!(headers.len(), 2);
    assert_eq!(headers.keys_len(), 2);
    assert_eq!(headers.get_all(CONTENT_TYPE).iter().count(), 1);
    assert_eq!(headers.get_all(CACHE_CONTROL).iter().count(), 1);
    assert_eq!(headers.get(CONTENT_TYPE).unwrap().as_bytes(), b"text/plain");
    assert_eq!(headers.get(CACHE_CONTROL).unwrap().as_bytes(), b"no-cache");
}

#[test]
fn greeting_header_names_are_lower_case() {
    let headers = hello().headers;
    let mut names: Vec<String> = headers.keys().map(|name| name.as_str().to_string()).collect();
    names.sort();
    assert_eq!(names, vec![String::from("cache-control"), String::from("content-type")]);
}

#[test]
fn greeting_is_the_same_every_time() {
    let first = hello();
    for _ in 0..3 {
        assert_eq!(hello(), first);
    }
}

#[test]
fn bare_response_is_a_status_and_nothing_else() {
    for status in [Status::Success, Status::NotFound, Status::MethodNotAllowed, Status::ServerError]
    {
        let response = Response::bare(status);
        assert_eq!(response.status, status);
        assert!(response.headers.is_empty());
        assert_eq!(response.body, None);
    }
}
