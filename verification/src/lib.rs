//! A client-side model of the solar systems of a game universe: the records
//! that the service sends as JSON, and an index of them by id and by name.
//! The HTTP transport is left to the caller, who hands in a function that
//! answers a `Request` with a `Response`.

pub mod esi;
pub mod json;
pub mod models;
pub mod text;
