//! Splitting a continuous recording of back-to-back songs into single songs.
//!
//! The library reconstructs a song timeline from a stream of player events,
//! measures the volume of short audio excerpts around each song boundary, and
//! finds the single time offset that puts all boundaries at silent spots.
//! All times are integer microseconds.
pub mod audio_time;
pub mod audio_excerpt;
pub mod paths;
pub mod service;
pub mod song;
pub mod dbus_event;
pub mod recording_session;
pub mod cut;
pub mod options;
pub mod run_args;
pub mod session_manager;
pub mod data_stream;
pub mod excerpt_collections;
pub mod sink;
