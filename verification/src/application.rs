//! What is shown of a use case's outcome.

pub mod presenters;
pub mod view_models;
