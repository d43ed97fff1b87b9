//! Responses: a status, header fields and, for the greeting, a text.

use crate::headers::{header_fields, Fields};
use crate::status::Status;
use axum::http::{HeaderMap, HeaderValue};
use vstd::prelude::*;

verus! {

/// The response to one request.
#[derive(Debug, PartialEq, Eq)]
pub struct Response {
    /// The status.
    pub status: Status,
    /// The header fields.
    pub headers: HeaderMap<HeaderValue>,
    /// The body, where the response has one.
    pub body: Option<&'static str>,
}

/// The mathematical content of a response.
pub struct Answer {
    /// The status.
    pub status: Status,
    /// The header fields.
    pub fields: Fields,
    /// The text of the body, where there is one.
    pub text: Option<Seq<char>>,
}

impl Answer {
    /// A status and nothing else: no header fields, no body.
    pub open spec fn bare(status: Status) -> Answer {
        Answer { status, fields: Fields::empty(), text: None }
    }
}

impl View for Response {
    type V = Answer;

    open spec fn view(&self) -> Answer {
        Answer {
            status: self.status,
            fields: header_fields(self.headers),
            text: match self.body {
                Some(text) => Some(text@),
                None => None,
            },
        }
    }
}

impl Response {
    /// The response that is a status and nothing else.
    pub fn bare(status: Status) -> (response: Response)
        ensures
            response@ == Answer::bare(status),
    {
        Response { status, headers: HeaderMap::new(), body: None }
    }
}

} // verus!
