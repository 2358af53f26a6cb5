//! The values that the service answers with.
pub mod response;
pub mod status;
pub mod status_key;
pub mod type_key;
