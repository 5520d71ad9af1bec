pub mod api;
pub mod app;
pub mod cache;
pub mod cli;
pub mod config;
pub mod errors;
pub mod player;
pub mod text;
pub mod tui;
