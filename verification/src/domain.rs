//! The user record, the failure of adding one, and the port that stores one.

pub mod entities;
pub mod errors;
pub mod ports;
