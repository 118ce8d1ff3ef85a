//! The playback engine: the native status codes, the engine's control state
//! machine, and the progress reporter.
pub mod engine;
pub mod error;
pub mod reporter;

pub use error::Error;
