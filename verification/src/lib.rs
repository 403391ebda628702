//! Core of the ETS2/ATS Spotify integration: the decisions, conversions and
//! text handling behind the in-game panel.

pub mod audio_device;
pub mod config;
pub mod engine;
pub mod ffi;
pub mod hotkeys;
pub mod media;
pub mod spotify_connect;
pub mod state;
pub mod telemetry;
pub mod text;
