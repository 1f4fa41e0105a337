//! Storage adapters.

pub mod repositories;
