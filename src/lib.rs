//! Error taxonomy of an object-storage client and the classifier that turns an
//! HTTP status code and response body into a typed result.

pub mod error;
pub mod response;
