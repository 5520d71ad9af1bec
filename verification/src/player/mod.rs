pub mod commands;
pub mod events;
pub mod mpv_handler;
pub mod queue;
pub mod repeat;
pub mod shuffle;
