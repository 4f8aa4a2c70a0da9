//! A small ship registry: a verified in-memory relation of ship records
//! together with the service layer and error translation that an HTTP
//! front end drives.
//!
//! The library owns the logic: the `ships` relation and its operations
//! (list with an optional name filter, insert with storage-assigned ids,
//! point lookup, delete-returning-the-record), the lock-serialized service
//! facade that maps outcomes to domain errors, and the translation of
//! domain errors into the JSON error-body shape. The HTTP listener, the
//! lock itself, and all serialization live outside, in the unverified
//! front end, which hands plain values in and takes plain values back.

pub mod db_models;
pub mod laws;
pub mod model;
pub mod router;
pub mod services;
pub mod substring;

pub use substring::str_contains_substr;
