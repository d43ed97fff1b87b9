//! The logic of a black-hole upload endpoint: a request body is read chunk by
//! chunk, measured and dropped, and the response status says whether the body
//! was drained to its end.

pub mod consumer;
pub mod endpoint;
pub mod greeting;
pub mod headers;
pub mod laws;
pub mod response;
pub mod route;
pub mod status;
pub mod stream;
pub mod text;
pub mod upload;
