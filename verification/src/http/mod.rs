//! The HTTP side of the protocol.

pub mod percent;
pub mod query;
pub mod query_string;
pub mod client_info;
pub mod endpoint;
pub mod error;
pub mod identity;
pub mod client;
