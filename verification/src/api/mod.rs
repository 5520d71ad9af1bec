pub mod auth;
pub mod client;
pub mod codec;
pub mod models;
pub mod playback;
pub mod search;
