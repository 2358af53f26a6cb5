//! A Redis administration service: the request models, the rules that decide
//! which Redis commands each endpoint runs and what it answers, the dump file
//! format, and the configuration read from the environment.

pub mod config;
pub mod dump;
pub mod handlers;
pub mod json;
pub mod models;
pub mod text;
