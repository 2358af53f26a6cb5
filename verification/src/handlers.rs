//! The endpoints, each a state machine over Redis commands.
pub mod protocol;
pub mod redis;
