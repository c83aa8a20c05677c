//! Client side of the Moonlight game streaming protocol.

pub mod http;
pub mod stream;
pub mod text;
pub mod version;
