pub mod app;
pub mod screens;
