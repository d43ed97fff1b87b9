//! The greeting: the fixed answer to `GET /`.

use crate::headers::{insert_field, lemma_printable_is_value_text, Fields};
use crate::response::{Answer, Response};
use crate::status::Status;
use axum::http::{HeaderMap, HeaderValue};
use vstd::prelude::*;

verus! {

/// The bytes of a text of ASCII characters.
pub open spec fn ascii_bytes(text: Seq<char>) -> Seq<u8> {
    text.map_values(|c: char| c as u8)
}

/// The header fields of the greeting: a plain-text content type, and a cache
/// control that forbids caching.
pub open spec fn greeting_fields() -> Fields {
    Fields::empty().insert("content-type"@, seq![ascii_bytes("text/plain"@)]).insert(
        "cache-control"@,
        seq![ascii_bytes("no-cache"@)],
    )
}

/// The text of the greeting.
pub open spec fn greeting_text() -> Seq<char> {
    "Hello, World!"@
}

/// The greeting: success, the greeting's two header fields and its text.
pub open spec fn greeting() -> Answer {
    Answer { status: Status::Success, fields: greeting_fields(), text: Some(greeting_text()) }
}

/// Answers `GET /` with the greeting. It takes nothing and cannot fail.
pub fn hello() -> (response: Response)
    ensures
        response@ == greeting(),
{
    let mut headers = HeaderMap::new();
    proof {
        reveal_strlit("content-type");
        reveal_strlit("text/plain");
        reveal_strlit("cache-control");
        reveal_strlit("no-cache");
        lemma_printable_is_value_text("text/plain"@);
        lemma_printable_is_value_text("no-cache"@);
    }
    let content_type = HeaderValue::from_str("text/plain").unwrap();
    insert_field(&mut headers, "content-type", content_type);
    let cache_control = HeaderValue::from_str("no-cache").unwrap();
    insert_field(&mut headers, "cache-control", cache_control);
    Response { status: Status::Success, headers, body: Some("Hello, World!") }
}

} // verus!
