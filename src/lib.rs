//! A playback daemon's core: the track-advance state machine of the player,
//! the values it exchanges with the thread that drives the audio device, and
//! the small pure rules around playlists, jobs, downloads and settings.
pub mod api;
pub mod downloader;
pub mod engine;
pub mod guarantees;
pub mod hhmmss;
pub mod job;
pub mod player;
pub mod playlist;
pub mod publisher;
pub mod settings;
pub mod state;
pub mod text;
