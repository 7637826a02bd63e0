//! Decision logic of a video live-wallpaper: configuration, playback session
//! rules, tray menu model, desktop geometry and text encodings.

pub mod text;
pub mod paths;
pub mod config;
pub mod session;
pub mod menu;
pub mod player;
pub mod desktop;
pub mod tray;
pub mod autostart;
