//! Client-side data model of the Innexgo Hours scheduling service: request
//! parameters, response entities, the shared error vocabulary, the
//! connection handle, and the rule that picks the current revision of an
//! entity out of its history.
pub mod request;
pub mod response;
pub mod client;
pub mod revision;
