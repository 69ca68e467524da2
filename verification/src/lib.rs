//! The logic of a desktop timer client: its configuration, the hotkeys that
//! start and stop the timer, and the controllers that turn user and server
//! events into a new state and the commands the application carries out.
pub mod hotkeys;
pub mod config;
pub mod app;
pub mod controllers;
pub mod views;
pub mod log;
pub mod laws;
