//! The routing table: which handler serves a request, by method and path.

use crate::status::Status;
use crate::text::same_text;
use vstd::prelude::*;

verus! {

/// Where a request goes.
#[derive(Debug, Clone, Copy, PartialEq, Eq, Structural)]
pub enum Route {
    /// The greeting handler.
    Hello,
    /// The void-upload handler.
    UploadVoid,
    /// The path is routed, but not with this method.
    MethodNotAllowed,
    /// No route has this path.
    NotFound,
}

/// The routing table. Methods and paths are matched exactly, letter for
/// letter: `GET /` is greeted, `POST /` and `POST /void` are uploads. Another
/// method on one of the two paths is not allowed, another path is not found.
pub open spec fn route_spec(method: Seq<char>, path: Seq<char>) -> Route {
    if path == "/"@ {
        if method == "GET"@ {
            Route::Hello
        } else if method == "POST"@ {
            Route::UploadVoid
        } else {
            Route::MethodNotAllowed
        }
    } else if path == "/void"@ {
        if method == "POST"@ {
            Route::UploadVoid
        } else {
            Route::MethodNotAllowed
        }
    } else {
        Route::NotFound
    }
}

impl Route {
    /// True of the routes that a handler serves.
    pub open spec fn is_handled_spec(self) -> bool {
        self == Route::Hello || self == Route::UploadVoid
    }

    /// The status that answers a request which no handler serves.
    pub open spec fn rejection_spec(self) -> Option<Status> {
        match self {
            Route::Hello | Route::UploadVoid => None,
            Route::MethodNotAllowed => Some(Status::MethodNotAllowed),
            Route::NotFound => Some(Status::NotFound),
        }
    }

    /// Whether a handler serves the route.
    #[verifier::when_used_as_spec(is_handled_spec)]
    pub fn is_handled(self) -> (handled: bool)
        ensures
            handled == self.is_handled_spec(),
    {
        match self {
            Route::Hello | Route::UploadVoid => true,
            Route::MethodNotAllowed | Route::NotFound => false,
        }
    }

    /// The status that answers a request which no handler serves: a client
    /// error. None for a route that a handler serves.
    #[verifier::when_used_as_spec(rejection_spec)]
    pub fn rejection(self) -> (status: Option<Status>)
        ensures
            status == self.rejection_spec(),
            status is None <==> self.is_handled(),
            status is Some ==> status->Some_0.is_client_error(),
    {
        match self {
            Route::Hello | Route::UploadVoid => None,
            Route::MethodNotAllowed => Some(Status::MethodNotAllowed),
            Route::NotFound => Some(Status::NotFound),
        }
    }
}

/// Routes a request by its method and its path.
pub fn route(method: &str, path: &str) -> (route: Route)
    ensures
        route == route_spec(method@, path@),
{
    if same_text(path, "/") {
        if same_text(method, "GET") {
            Route::Hello
        } else if same_text(method, "POST") {
            Route::UploadVoid
        } else {
            Route::MethodNotAllowed
        }
    } else if same_text(path, "/void") {
        if same_text(method, "POST") {
            Route::UploadVoid
        } else {
            Route::MethodNotAllowed
        }
    } else {
        Route::NotFound
    }
}

/// A request is served by a handler on the three entries of the table and on
/// nothing else; every other request is answered with a client error.
pub proof fn lemma_routing_table(method: Seq<char>, path: Seq<char>)
    ensures
        route_spec(method, path) == Route::Hello <==> method == "GET"@ && path == "/"@,
        route_spec(method, path) == Route::UploadVoid <==> method == "POST"@ && (path == "/"@
            || path == "/void"@),
        !route_spec(method, path).is_handled() ==> route_spec(method, path).rejection() is Some
            && route_spec(method, path).rejection()->Some_0.is_client_error(),
{
    reveal_strlit("/");
    reveal_strlit("/void");
    reveal_strlit("GET");
    reveal_strlit("POST");
    assert("/"@.len() != "/void"@.len());
    assert("GET"@.len() != "POST"@.len());
}

} // verus!
