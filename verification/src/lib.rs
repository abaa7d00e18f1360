//! A verified core for a small user-record service: a record type with a
//! storage-engine-native identifier, an in-memory collection model with
//! create / read / update / delete / list operations, and the mapping from
//! operation outcomes to HTTP-style response statuses.

pub mod oid;
pub mod user;
pub mod store;
pub mod laws;
pub mod handlers;
