//! Verified core of a key-value store browser: prefix ranges, endpoint
//! validation, the connection wrapper and the list editor's state.

pub mod client;
pub mod endpoint;
pub mod error;
pub mod list_container;
pub mod prefix;
pub mod request;
