//! The stream: keys, settings, video and audio.

pub mod video;
pub mod c_video;
pub mod channel;
pub mod pull;
pub mod audio;
pub mod connection;
pub mod frame;
pub mod keys;
pub mod settings;
