//! The error type of the library.

use vstd::prelude::*;
use vstd::string::StringExecFns;

verus! {

/// Everything that can go wrong, each case with a message.
#[derive(Debug, Clone, PartialEq, Eq)]
pub enum Error {
    /// Audio device initialisation or configuration failed.
    AudioDevice(String),
    /// The audio stream failed while it ran.
    AudioStream(String),
    /// The transcription model failed.
    WhisperModel(String),
    /// Keyboard input could not be simulated.
    KeyboardInput(String),
    /// A file system operation failed.
    FileSystem(String),
    /// The configuration is not usable.
    Config(String),
    /// Anything else.
    Unknown(String),
}

/// The words that introduce the message of each case.
pub open spec fn heading(error: Error) -> Seq<char> {
    match error {
        Error::AudioDevice(_) => "Audio device error: "@,
        Error::AudioStream(_) => "Audio stream error: "@,
        Error::WhisperModel(_) => "Whisper model error: "@,
        Error::KeyboardInput(_) => "Keyboard input error: "@,
        Error::FileSystem(_) => "File system error: "@,
        Error::Config(_) => "Configuration error: "@,
        Error::Unknown(_) => "Unknown error: "@,
    }
}

/// The message an error was made with.
pub open spec fn detail(error: Error) -> Seq<char> {
    match error {
        Error::AudioDevice(m) => m@,
        Error::AudioStream(m) => m@,
        Error::WhisperModel(m) => m@,
        Error::KeyboardInput(m) => m@,
        Error::FileSystem(m) => m@,
        Error::Config(m) => m@,
        Error::Unknown(m) => m@,
    }
}

impl Error {
    /// The error as a line of text: its heading, then its message.
    pub fn to_string(&self) -> (text: String)
        ensures
            text@ == heading(*self) + detail(*self),
    {
        match self {
            Error::AudioDevice(m) => String::from_str("Audio device error: ").concat(m.as_str()),
            Error::AudioStream(m) => String::from_str("Audio stream error: ").concat(m.as_str()),
            Error::WhisperModel(m) => String::from_str("Whisper model error: ").concat(
                m.as_str(),
            ),
            Error::KeyboardInput(m) => String::from_str("Keyboard input error: ").concat(
                m.as_str(),
            ),
            Error::FileSystem(m) => String::from_str("File system error: ").concat(m.as_str()),
            Error::Config(m) => String::from_str("Configuration error: ").concat(m.as_str()),
            Error::Unknown(m) => String::from_str("Unknown error: ").concat(m.as_str()),
        }
    }
}

} // verus!
