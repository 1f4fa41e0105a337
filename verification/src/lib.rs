//! Registering a user and keeping the record in a flat file, in layers:
//! the domain (entity, error, storage port), the use case that drives the
//! port, the presentation of its outcome, and the file-backed storage.

pub mod application;
pub mod business;
pub mod domain;
pub mod example;
pub mod infrastructure;
