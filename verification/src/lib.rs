//! Now-playing tracker for a live audio feed.
//!
//! The tracker reduces "song changed" and "playback paused" events into a
//! bounded history: the current track, the two tracks before it, and the time
//! playback was paused.

pub mod db;
pub mod laws;
pub mod model;
pub mod music_manager;
pub mod songs;
