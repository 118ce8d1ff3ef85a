//! Control layer of a desktop music player's playback engine: the native
//! status-code taxonomy, the engine's session state machine and the progress
//! reporter's staleness rule, with the song entries the player lists.
pub mod audio;
pub mod error;
pub mod library;
