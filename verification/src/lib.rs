pub mod actions;
pub mod app;
pub mod clock;
pub mod configs;
pub mod events;
pub mod laws;
pub mod mapper;
pub mod render;
pub mod updater;
