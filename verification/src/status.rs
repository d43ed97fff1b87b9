//! Response statuses the endpoint can answer with.

use vstd::prelude::*;

verus! {

/// The status of a response.
#[derive(Debug, Clone, Copy, PartialEq, Eq, Structural)]
pub enum Status {
    /// The request was served: HTTP 200.
    Success,
    /// No route has the request's path: HTTP 404.
    NotFound,
    /// A route has the path, but not with the request's method: HTTP 405.
    MethodNotAllowed,
    /// The request body could not be read to its end: HTTP 500.
    ServerError,
}

impl Status {
    /// The numeric HTTP status code.
    pub open spec fn code_spec(self) -> u16 {
        match self {
            Status::Success => 200,
            Status::NotFound => 404,
            Status::MethodNotAllowed => 405,
            Status::ServerError => 500,
        }
    }

    /// A 2xx status.
    pub open spec fn is_success_spec(self) -> bool {
        200 <= self.code_spec() < 300
    }

    /// A 4xx status.
    pub open spec fn is_client_error_spec(self) -> bool {
        400 <= self.code_spec() < 500
    }

    /// A 5xx status.
    pub open spec fn is_server_error_spec(self) -> bool {
        500 <= self.code_spec() < 600
    }

    /// The numeric HTTP status code.
    #[verifier::when_used_as_spec(code_spec)]
    pub fn code(self) -> (code: u16)
        ensures
            code == self.code_spec(),
    {
        match self {
            Status::Success => 200,
            Status::NotFound => 404,
            Status::MethodNotAllowed => 405,
            Status::ServerError => 500,
        }
    }

    /// Whether the status is in the 2xx class.
    #[verifier::when_used_as_spec(is_success_spec)]
    pub fn is_success(self) -> (yes: bool)
        ensures
            yes == self.is_success_spec(),
            yes == (self == Status::Success),
    {
        let code: u16 = self.code();
        200 <= code && code < 300
    }

    /// Whether the status is in the 4xx class.
    #[verifier::when_used_as_spec(is_client_error_spec)]
    pub fn is_client_error(self) -> (yes: bool)
        ensures
            yes == self.is_client_error_spec(),
            yes == (self == Status::NotFound || self == Status::MethodNotAllowed),
    {
        let code: u16 = self.code();
        400 <= code && code < 500
    }

    /// Whether the status is in the 5xx class.
    #[verifier::when_used_as_spec(is_server_error_spec)]
    pub fn is_server_error(self) -> (yes: bool)
        ensures
            yes == self.is_server_error_spec(),
            yes == (self == Status::ServerError),
    {
        let code: u16 = self.code();
        500 <= code && code < 600
    }
}

} // verus!
