//! The endpoints that read and change Redis.
pub mod add;
pub mod read;
pub mod rename_key;
pub mod change_ttl;
pub mod reset;
pub mod download_dump_key;
pub mod upload_dump_key;
pub mod status;
