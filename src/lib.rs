//! Observes one media application's transport state and decides how to control it.
pub mod media;
pub mod thumbnail;
pub mod service;
pub mod util;
pub mod settings;
pub mod autostart;
pub mod auth;
pub mod views;
