//! How loading a track ends.

use vstd::prelude::*;
use crate::pipeline::Unplayable;

verus! {

/// Why a track could not be loaded.
#[derive(Debug)]
pub enum LoadError {
    /// The file is missing or cannot be read.
    Io(String),
    /// The file holds no audio that can be decoded and played.
    Decode(String),
    /// There is no audio output to play on.
    Device(String),
}

/// What a load reports, once, when it is over.
#[derive(Debug)]
pub enum SongMsg {
    Loaded,
    Failed(String),
}

impl LoadError {
    /// The words of the error.
    pub open spec fn text(self) -> Seq<char> {
        match self {
            LoadError::Io(message) => message@,
            LoadError::Decode(message) => message@,
            LoadError::Device(message) => message@,
        }
    }

    /// The words for a track that cannot be played.
    pub open spec fn words(reason: Unplayable) -> Seq<char> {
        match reason {
            Unplayable::NoChannels => "Track has no channels"@,
            Unplayable::NoSampleRate => "Track has no sample rate"@,
        }
    }

    /// The error of a path that names no file.
    pub fn not_found() -> (error: Self)
        ensures
            error matches LoadError::Io(message) && message@ == "File not found"@,
    {
        LoadError::Io("File not found".to_string())
    }

    /// The error of a machine without audio output.
    pub fn no_device() -> (error: Self)
        ensures
            error matches LoadError::Device(message) && message@ == "Can't get endpoints list"@,
    {
        LoadError::Device("Can't get endpoints list".to_string())
    }

    /// The error of a decoded track that cannot be played.
    pub fn unplayable(reason: Unplayable) -> (error: Self)
        ensures
            error matches LoadError::Decode(message) && message@ == Self::words(reason),
    {
        match reason {
            Unplayable::NoChannels => LoadError::Decode("Track has no channels".to_string()),
            Unplayable::NoSampleRate => LoadError::Decode("Track has no sample rate".to_string()),
        }
    }

    /// The words of the error.
    pub fn message(self) -> (message: String)
        ensures
            message@ == self.text(),
    {
        match self {
            LoadError::Io(message) => message,
            LoadError::Decode(message) => message,
            LoadError::Device(message) => message,
        }
    }
}

impl SongMsg {
    /// The line that the report puts into the log.
    pub open spec fn line(self) -> Seq<char> {
        match self {
            SongMsg::Loaded => "Song was loaded"@,
            SongMsg::Failed(message) => message@,
        }
    }

    /// The line that the report puts into the log: a note of success, or the
    /// words of the failure.
    pub fn log_line(self) -> (line: String)
        ensures
            line@ == self.line(),
    {
        match self {
            SongMsg::Loaded => "Song was loaded".to_string(),
            SongMsg::Failed(message) => message,
        }
    }

    /// The report of a load that ended as `outcome` says: `Loaded` where it
    /// went well, else `Failed` with the words of the error.
    pub fn from_outcome(outcome: Result<(), LoadError>) -> (report: Self)
        ensures
            match outcome {
                Ok(_) => report is Loaded,
                Err(error) => report matches SongMsg::Failed(message) && message@ == error.text(),
            },
    {
        match outcome {
            Ok(_) => SongMsg::Loaded,
            Err(error) => SongMsg::Failed(error.message()),
        }
    }
}

} // verus!
