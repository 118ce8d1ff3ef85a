use vstd::prelude::*;

use crate::audio::error::{message_of, Error as AudioError};

verus! {

/// Which part of the player an `Error` comes from.
#[derive(Debug, Clone, Copy, PartialEq, Eq, Structural)]
pub enum ErrorKind {
    IO,
    Settings,
    Audio,
}

/// The error the player's commands hand upward: where it comes from and a
/// description of it.
#[derive(Debug)]
pub struct Error {
    pub kind: ErrorKind,
    pub message: String,
}

impl Error {
    /// The upward form of a native audio engine failure.
    pub fn from_audio(e: AudioError) -> (r: Error)
        ensures
            r.kind == ErrorKind::Audio,
            r.message@ == message_of(e)@,
    {
        Error { kind: ErrorKind::Audio, message: e.message().to_owned() }
    }
}

} // verus!
