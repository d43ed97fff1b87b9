//! The endpoint as a whole: from a request to its response.

use crate::greeting::{greeting, hello};
use crate::response::{Answer, Response};
use crate::route::{route, route_spec, Route};
use crate::status::Status;
use crate::stream::leading_chunks;
use crate::upload::{frame_signals, upload_void};
use vstd::prelude::*;

verus! {

/// The response that a request is owed, by its method, its path and the
/// frames that its body stream yields before it ends.
///
/// `GET /` is answered with the greeting. An upload is answered with success
/// where every frame of the body is a chunk, and with a server error where a
/// pull fails; either way with a status and nothing else. Any other request is
/// answered with its client error, and its body is not looked at.
pub open spec fn answer(
    method: Seq<char>,
    path: Seq<char>,
    body: Seq<Result<&[u8], String>>,
) -> Answer {
    match route_spec(method, path) {
        Route::Hello => greeting(),
        Route::UploadVoid => if leading_chunks(frame_signals(body)) == body.len() {
            Answer::bare(Status::Success)
        } else {
            Answer::bare(Status::ServerError)
        },
        Route::MethodNotAllowed => Answer::bare(Status::MethodNotAllowed),
        Route::NotFound => Answer::bare(Status::NotFound),
    }
}

/// Serves one request whose body stream yields the frames of `body` and then
/// ends: routes it, runs its handler, and gives the response.
pub fn respond(method: &str, path: &str, body: &[Result<&[u8], String>]) -> (response: Response)
    ensures
        response@ == answer(method@, path@, body@),
{
    match route(method, path) {
        Route::Hello => hello(),
        Route::UploadVoid => Response::bare(upload_void(body).outcome.status()),
        Route::MethodNotAllowed => Response::bare(Status::MethodNotAllowed),
        Route::NotFound => Response::bare(Status::NotFound),
    }
}

/// Repeated `GET /` requests are answered alike: whatever the requests bring
/// with them, the responses have the same status, the same header fields and
/// the same body, which are the greeting's.
pub proof fn lemma_greeting_is_repeatable(
    one: Response,
    other: Response,
    one_body: Seq<Result<&[u8], String>>,
    other_body: Seq<Result<&[u8], String>>,
)
    requires
        one@ == answer("GET"@, "/"@, one_body),
        other@ == answer("GET"@, "/"@, other_body),
    ensures
        one.status == other.status,
        one@.fields == other@.fields,
        one@.text == other@.text,
        one@ == greeting(),
{
}

} // verus!
