//! Item resource service: the data model, the validation and merge rules and
//! the outcome of each of the five operations (list, create, get, update,
//! delete), together with an in-memory table that keeps the storage rules.
//!
//! The operations take what the storage answered as plain values and decide
//! what the caller gets; transport and database access live outside.

pub mod clock;
pub mod error;
pub mod handlers;
pub mod ids;
pub mod laws;
pub mod models;
pub mod store;
